//! Handshake inspection: the very first frame on a connection carries the
//! client's identity as JSON, and the relay reads exactly one field of it.
//!
//! The payload is treated as opaque text except for the `client_id` field,
//! a string of decimal digits, located exactly as the search pattern
//! `"client_id":"` followed by digits and a closing quote would find it:
//! at the leftmost position where the whole pattern matches.

use vstd::prelude::*;
use vstd::string::StrSliceExecFns;

verus! {

/// The text that introduces the field: `"client_id":"`.
pub open spec fn spec_key() -> Seq<char> {
    "\"client_id\":\""@
}

/// How many characters the introducing text has.
pub open spec fn key_len() -> int {
    13
}

/// A decimal digit.
pub open spec fn is_digit(c: char) -> bool {
    48 <= c as u32 <= 57
}

/// The end of the run of decimal digits starting at `j`: the first position
/// at or after `j` holding a non-digit, or the end of the text.
pub open spec fn digit_run_end(s: Seq<char>, j: int) -> int
    decreases s.len() - j,
{
    if j < 0 || j >= s.len() {
        j
    } else if is_digit(s[j]) {
        digit_run_end(s, j + 1)
    } else {
        j
    }
}

/// Whether the whole pattern matches at position `i`: the introducing text,
/// then at least one digit, then a closing quote.
pub open spec fn match_at(s: Seq<char>, i: int) -> bool {
    &&& 0 <= i
    &&& i + key_len() <= s.len()
    &&& s.subrange(i, i + key_len()) == spec_key()
    &&& digit_run_end(s, i + key_len()) > i + key_len()
    &&& digit_run_end(s, i + key_len()) < s.len()
    &&& s[digit_run_end(s, i + key_len())] == '"'
}

/// The leftmost position at or after `i` where the whole pattern matches.
pub open spec fn first_match_from(s: Seq<char>, i: int) -> Option<int>
    decreases s.len() - i,
{
    if i + key_len() > s.len() {
        Option::None
    } else if match_at(s, i) {
        Option::Some(i)
    } else {
        first_match_from(s, i + 1)
    }
}

/// The `client_id` a handshake payload carries, if any: the digits of the
/// leftmost whole-pattern match.
pub open spec fn spec_client_id(s: Seq<char>) -> Option<Seq<char>> {
    match first_match_from(s, 0) {
        Option::None => Option::None,
        Option::Some(i) => Option::Some(s.subrange(i + key_len(), digit_run_end(s, i + key_len()))),
    }
}

fn is_digit_char(c: char) -> (b: bool)
    ensures
        b == is_digit(c),
{
    let u = c as u32;
    48 <= u && u <= 57
}

fn key_matches_at(msg: &str, n: usize, i: usize) -> (b: bool)
    requires
        n == msg@.len(),
        i + key_len() <= n,
    ensures
        b == (msg@.subrange(i as int, i as int + key_len()) == spec_key()),
{
    proof {
        reveal_strlit("\"client_id\":\"");
    }
    let b = msg.get_char(i) == '"' && msg.get_char(i + 1) == 'c' && msg.get_char(i + 2) == 'l'
        && msg.get_char(i + 3) == 'i' && msg.get_char(i + 4) == 'e' && msg.get_char(i + 5) == 'n'
        && msg.get_char(i + 6) == 't' && msg.get_char(i + 7) == '_' && msg.get_char(i + 8) == 'i'
        && msg.get_char(i + 9) == 'd' && msg.get_char(i + 10) == '"' && msg.get_char(i + 11) == ':'
        && msg.get_char(i + 12) == '"';
    proof {
        let sub = msg@.subrange(i as int, i as int + key_len());
        if b {
            assert(sub =~= spec_key());
        } else {
            assert(sub != spec_key()) by {
                if sub == spec_key() {
                    assert(forall|k: int| 0 <= k < key_len() ==> sub[k] == spec_key()[k]);
                    assert(msg@[i as int] == sub[0]);
                    assert(msg@[i + 1] == sub[1]);
                    assert(msg@[i + 2] == sub[2]);
                    assert(msg@[i + 3] == sub[3]);
                    assert(msg@[i + 4] == sub[4]);
                    assert(msg@[i + 5] == sub[5]);
                    assert(msg@[i + 6] == sub[6]);
                    assert(msg@[i + 7] == sub[7]);
                    assert(msg@[i + 8] == sub[8]);
                    assert(msg@[i + 9] == sub[9]);
                    assert(msg@[i + 10] == sub[10]);
                    assert(msg@[i + 11] == sub[11]);
                    assert(msg@[i + 12] == sub[12]);
                }
            }
        }
    }
    b
}

proof fn lemma_digit_run(s: Seq<char>, start: int, j: int)
    requires
        0 <= start <= j <= s.len(),
        forall|k: int| start <= k < j ==> is_digit(s[k]),
        j == s.len() || !is_digit(s[j]),
    ensures
        digit_run_end(s, start) == j,
    decreases j - start,
{
    if start < j {
        lemma_digit_run(s, start + 1, j);
    }
}

/// Extracts the `client_id` from a handshake payload: exactly the digits
/// the leftmost whole-pattern match captures, or nothing when the pattern
/// matches nowhere.
pub fn extract_client_id(msg: &str) -> (r: Option<String>)
    ensures
        r is Some <==> spec_client_id(msg@) is Some,
        r matches Some(id) ==> spec_client_id(msg@) == Some(id@),
{
    let n = msg.unicode_len();
    if n < 13 {
        return None;
    }
    let mut i: usize = 0;
    while i <= n - 13
        invariant
            n == msg@.len(),
            13 <= n,
            i <= n,
            first_match_from(msg@, 0) == first_match_from(msg@, i as int),
        decreases n - i,
    {
        if key_matches_at(msg, n, i) {
            let start = i + 13;
            let mut j = start;
            while j < n && is_digit_char(msg.get_char(j))
                invariant
                    n == msg@.len(),
                    start <= j <= n,
                    forall|k: int| start <= k < j ==> is_digit(msg@[k]),
                decreases n - j,
            {
                j += 1;
            }
            proof {
                lemma_digit_run(msg@, start as int, j as int);
            }
            if j > start && j < n && msg.get_char(j) == '"' {
                proof {
                    assert(match_at(msg@, i as int));
                    assert(first_match_from(msg@, i as int) == Option::Some(i as int));
                }
                let id = msg.substring_char(start, j);
                return Some(id.to_owned());
            }
            proof {
                assert(!match_at(msg@, i as int));
            }
        }
        i += 1;
    }
    proof {
        assert(first_match_from(msg@, i as int) is None);
    }
    None
}

} // verus!
