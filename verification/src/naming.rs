//! Endpoint naming: the ten well-known slots `discord-ipc-0` through
//! `discord-ipc-9`, which of them are live, and which one a fresh server
//! should claim.
//!
//! Probing whether a slot's path exists is a point-in-time filesystem (or
//! pipe-namespace) check and stays outside the library; every operation here
//! takes the probe's outcome as ten booleans, one per slot, in slot order.

use vstd::prelude::*;
use vstd::string::StringExecFns;

use crate::error::IpcError;

verus! {

/// How many well-known endpoint slots exist.
pub open spec fn slot_count() -> int {
    10
}

/// The well-known name of a slot.
pub open spec fn spec_slot_name(i: int) -> Seq<char> {
    if i == 0 {
        "discord-ipc-0"@
    } else if i == 1 {
        "discord-ipc-1"@
    } else if i == 2 {
        "discord-ipc-2"@
    } else if i == 3 {
        "discord-ipc-3"@
    } else if i == 4 {
        "discord-ipc-4"@
    } else if i == 5 {
        "discord-ipc-5"@
    } else if i == 6 {
        "discord-ipc-6"@
    } else if i == 7 {
        "discord-ipc-7"@
    } else if i == 8 {
        "discord-ipc-8"@
    } else {
        "discord-ipc-9"@
    }
}

/// The full named-pipe path of a slot in the Windows pipe namespace.
pub open spec fn spec_pipe_name(i: int) -> Seq<char> {
    if i == 0 {
        "\\\\.\\pipe\\discord-ipc-0"@
    } else if i == 1 {
        "\\\\.\\pipe\\discord-ipc-1"@
    } else if i == 2 {
        "\\\\.\\pipe\\discord-ipc-2"@
    } else if i == 3 {
        "\\\\.\\pipe\\discord-ipc-3"@
    } else if i == 4 {
        "\\\\.\\pipe\\discord-ipc-4"@
    } else if i == 5 {
        "\\\\.\\pipe\\discord-ipc-5"@
    } else if i == 6 {
        "\\\\.\\pipe\\discord-ipc-6"@
    } else if i == 7 {
        "\\\\.\\pipe\\discord-ipc-7"@
    } else if i == 8 {
        "\\\\.\\pipe\\discord-ipc-8"@
    } else {
        "\\\\.\\pipe\\discord-ipc-9"@
    }
}

/// The well-known name of slot `i`.
pub fn slot_name(i: usize) -> (r: String)
    requires
        i < slot_count(),
    ensures
        r@ == spec_slot_name(i as int),
{
    let s: &'static str = match i {
        0 => "discord-ipc-0",
        1 => "discord-ipc-1",
        2 => "discord-ipc-2",
        3 => "discord-ipc-3",
        4 => "discord-ipc-4",
        5 => "discord-ipc-5",
        6 => "discord-ipc-6",
        7 => "discord-ipc-7",
        8 => "discord-ipc-8",
        _ => "discord-ipc-9",
    };
    s.to_owned()
}

/// Distinct slots have distinct names.
pub proof fn lemma_slot_names_distinct(i: int, j: int)
    requires
        0 <= i < slot_count(),
        0 <= j < slot_count(),
        i != j,
    ensures
        spec_slot_name(i) != spec_slot_name(j),
{
    reveal_strlit("discord-ipc-0");
    reveal_strlit("discord-ipc-1");
    reveal_strlit("discord-ipc-2");
    reveal_strlit("discord-ipc-3");
    reveal_strlit("discord-ipc-4");
    reveal_strlit("discord-ipc-5");
    reveal_strlit("discord-ipc-6");
    reveal_strlit("discord-ipc-7");
    reveal_strlit("discord-ipc-8");
    reveal_strlit("discord-ipc-9");
    assert(spec_slot_name(i)[12] != spec_slot_name(j)[12]);
}

/// The names of the slots among the first `n` whose path exists, in slot
/// order.
pub open spec fn spec_names_upto(present: Seq<bool>, n: int) -> Seq<Seq<char>>
    decreases n,
{
    if n <= 0 {
        Seq::empty()
    } else {
        spec_names_upto(present, n - 1) + if present[n - 1] {
            seq![spec_slot_name(n - 1)]
        } else {
            Seq::empty()
        }
    }
}

/// The names of the slots whose path exists, in slot order.
pub open spec fn spec_names(present: Seq<bool>) -> Seq<Seq<char>> {
    spec_names_upto(present, slot_count())
}

/// The subset of `discord-ipc-0` … `discord-ipc-9` currently live, given
/// for each slot whether its path exists.
pub fn names(present: &[bool; 10]) -> (r: Vec<String>)
    ensures
        r.deep_view() == spec_names(present@),
{
    let mut r: Vec<String> = Vec::new();
    for i in 0..10
        invariant
            r.deep_view() =~= spec_names_upto(present@, i as int),
    {
        if present[i] {
            r.push(slot_name(i));
        }
    }
    assert(r.deep_view() =~= spec_names(present@));
    r
}

/// The lowest free slot among the first `n`, if any.
pub open spec fn spec_next_free_upto(present: Seq<bool>, n: int) -> Option<int>
    decreases n,
{
    if n <= 0 {
        Option::None
    } else {
        match spec_next_free_upto(present, n - 1) {
            Option::Some(i) => Option::Some(i),
            Option::None => if !present[n - 1] {
                Option::Some(n - 1)
            } else {
                Option::None
            },
        }
    }
}

/// The lowest slot whose path does not exist, if any slot is free.
pub open spec fn spec_next_free(present: Seq<bool>) -> Option<int> {
    spec_next_free_upto(present, slot_count())
}

/// Name allocation: the chosen slot is free, every lower slot is taken, and
/// no slot is free exactly when all ten are taken.
pub proof fn lemma_name_allocation(present: Seq<bool>)
    requires
        present.len() == slot_count(),
    ensures
        spec_next_free(present) is None <==> (forall|j: int|
            0 <= j < slot_count() ==> present[j]),
        spec_next_free(present) matches Some(i) ==> 0 <= i < slot_count() && !present[i] && (
        forall|j: int| 0 <= j < i ==> present[j]),
{
    lemma_next_free_upto(present, slot_count());
}

proof fn lemma_next_free_upto(present: Seq<bool>, n: int)
    requires
        0 <= n <= present.len(),
    ensures
        spec_next_free_upto(present, n) is None <==> (forall|j: int| 0 <= j < n ==> present[j]),
        spec_next_free_upto(present, n) matches Some(i) ==> 0 <= i < n && !present[i] && (
        forall|j: int| 0 <= j < i ==> present[j]),
    decreases n,
{
    if n > 0 {
        lemma_next_free_upto(present, n - 1);
    }
}

/// The lowest-index name whose path does not exist, to be claimed by a
/// fresh server; fails with `NoNameAvailable` exactly when all ten slots
/// are taken.
pub fn next_name(present: &[bool; 10]) -> (r: Result<String, IpcError>)
    ensures
        r is Ok <==> spec_next_free(present@) is Some,
        r matches Ok(s) ==> s@ == spec_slot_name(spec_next_free(present@)->0),
        r is Err ==> r == Err::<String, IpcError>(IpcError::NoNameAvailable),
{
    for i in 0..10
        invariant
            spec_next_free_upto(present@, i as int) is None,
    {
        if !present[i] {
            proof {
                lemma_next_free_step(present@, i as int);
            }
            return Ok(slot_name(i));
        }
        proof {
            lemma_next_free_step(present@, i as int);
        }
    }
    Err(IpcError::NoNameAvailable)
}

proof fn lemma_next_free_step(present: Seq<bool>, i: int)
    requires
        0 <= i < present.len(),
        present.len() == slot_count(),
        spec_next_free_upto(present, i) is None,
    ensures
        !present[i] ==> spec_next_free(present) == Option::Some(i),
        present[i] ==> spec_next_free_upto(present, i + 1) is None,
    decreases slot_count() - i,
{
    if !present[i] {
        lemma_some_propagates(present, i + 1, slot_count());
    }
}

proof fn lemma_some_propagates(present: Seq<bool>, n: int, m: int)
    requires
        0 < n <= m <= present.len(),
        present.len() == slot_count(),
        spec_next_free_upto(present, n - 1) is None,
        !present[n - 1],
    ensures
        spec_next_free_upto(present, m) == Option::Some(n - 1),
    decreases m - n,
{
    if m > n {
        lemma_some_propagates(present, n, m - 1);
    }
}

/// The names of the live slots among the first `n` other than a server's
/// own, in slot order.
pub open spec fn spec_other_upto(present: Seq<bool>, own: int, n: int) -> Seq<Seq<char>>
    decreases n,
{
    if n <= 0 {
        Seq::empty()
    } else {
        spec_other_upto(present, own, n - 1) + if present[n - 1] && n - 1 != own {
            seq![spec_slot_name(n - 1)]
        } else {
            Seq::empty()
        }
    }
}

/// The names of the live slots other than a server's own.
pub open spec fn spec_other_names(present: Seq<bool>, own: int) -> Seq<Seq<char>> {
    spec_other_upto(present, own, slot_count())
}

/// The names of live endpoints a session fans out to: every live slot but
/// the server's own, in slot order.
pub fn other_ipc_names(present: &[bool; 10], own: usize) -> (r: Vec<String>)
    requires
        own < slot_count(),
    ensures
        r.deep_view() == spec_other_names(present@, own as int),
{
    let mut r: Vec<String> = Vec::new();
    for i in 0..10
        invariant
            own < slot_count(),
            r.deep_view() =~= spec_other_upto(present@, own as int, i as int),
    {
        if present[i] && i != own {
            r.push(slot_name(i));
        }
    }
    assert(r.deep_view() =~= spec_other_names(present@, own as int));
    r
}

/// Other-names correctness: the fan-out list equals the live-name list with
/// the server's own name removed.
pub proof fn lemma_other_names(present: Seq<bool>, own: int)
    requires
        present.len() == slot_count(),
        0 <= own < slot_count(),
    ensures
        spec_other_names(present, own) == spec_names(present).filter(
            |n: Seq<char>| n != spec_slot_name(own),
        ),
{
    lemma_other_upto(present, own, slot_count());
}

proof fn lemma_other_upto(present: Seq<bool>, own: int, n: int)
    requires
        present.len() == slot_count(),
        0 <= own < slot_count(),
        0 <= n <= slot_count(),
    ensures
        spec_other_upto(present, own, n) == spec_names_upto(present, n).filter(
            |nm: Seq<char>| nm != spec_slot_name(own),
        ),
    decreases n,
{
    let pred = |nm: Seq<char>| nm != spec_slot_name(own);
    reveal_with_fuel(Seq::<_>::filter, 2);
    if n <= 0 {
        assert(spec_names_upto(present, n).filter(pred) =~= Seq::empty());
    } else {
        lemma_other_upto(present, own, n - 1);
        let head = spec_names_upto(present, n - 1);
        let tail: Seq<Seq<char>> = if present[n - 1] {
            seq![spec_slot_name(n - 1)]
        } else {
            Seq::empty()
        };
        Seq::filter_distributes_over_add(head, tail, pred);
        if present[n - 1] {
            assert(tail.drop_last() =~= Seq::<Seq<char>>::empty());
            if n - 1 == own {
                assert(tail.filter(pred) =~= Seq::<Seq<char>>::empty());
            } else {
                lemma_slot_names_distinct(n - 1, own);
                assert(tail.filter(pred) =~= tail);
            }
        } else {
            assert(tail.filter(pred) =~= Seq::<Seq<char>>::empty());
        }
    }
}

/// The full pipe path of slot `i` in the Windows pipe namespace.
pub fn pipe_name(i: usize) -> (r: String)
    requires
        i < slot_count(),
    ensures
        r@ == spec_pipe_name(i as int),
{
    let s: &'static str = match i {
        0 => "\\\\.\\pipe\\discord-ipc-0",
        1 => "\\\\.\\pipe\\discord-ipc-1",
        2 => "\\\\.\\pipe\\discord-ipc-2",
        3 => "\\\\.\\pipe\\discord-ipc-3",
        4 => "\\\\.\\pipe\\discord-ipc-4",
        5 => "\\\\.\\pipe\\discord-ipc-5",
        6 => "\\\\.\\pipe\\discord-ipc-6",
        7 => "\\\\.\\pipe\\discord-ipc-7",
        8 => "\\\\.\\pipe\\discord-ipc-8",
        _ => "\\\\.\\pipe\\discord-ipc-9",
    };
    s.to_owned()
}

/// The two name spaces agree: a slot's pipe path is its well-known name
/// under the Windows pipe namespace.
pub proof fn lemma_pipe_name_is_prefixed_slot_name(i: int)
    requires
        0 <= i < slot_count(),
    ensures
        spec_pipe_name(i) == "\\\\.\\pipe\\"@ + spec_slot_name(i),
{
    reveal_strlit("\\\\.\\pipe\\");
    reveal_strlit("discord-ipc-0");
    reveal_strlit("discord-ipc-1");
    reveal_strlit("discord-ipc-2");
    reveal_strlit("discord-ipc-3");
    reveal_strlit("discord-ipc-4");
    reveal_strlit("discord-ipc-5");
    reveal_strlit("discord-ipc-6");
    reveal_strlit("discord-ipc-7");
    reveal_strlit("discord-ipc-8");
    reveal_strlit("discord-ipc-9");
    reveal_strlit("\\\\.\\pipe\\discord-ipc-0");
    reveal_strlit("\\\\.\\pipe\\discord-ipc-1");
    reveal_strlit("\\\\.\\pipe\\discord-ipc-2");
    reveal_strlit("\\\\.\\pipe\\discord-ipc-3");
    reveal_strlit("\\\\.\\pipe\\discord-ipc-4");
    reveal_strlit("\\\\.\\pipe\\discord-ipc-5");
    reveal_strlit("\\\\.\\pipe\\discord-ipc-6");
    reveal_strlit("\\\\.\\pipe\\discord-ipc-7");
    reveal_strlit("\\\\.\\pipe\\discord-ipc-8");
    reveal_strlit("\\\\.\\pipe\\discord-ipc-9");
    assert(spec_pipe_name(i) =~= "\\\\.\\pipe\\"@ + spec_slot_name(i));
}

/// The full pipe paths of the slots among the first `n` whose path exists,
/// in slot order.
pub open spec fn spec_pipes_upto(present: Seq<bool>, n: int) -> Seq<Seq<char>>
    decreases n,
{
    if n <= 0 {
        Seq::empty()
    } else {
        spec_pipes_upto(present, n - 1) + if present[n - 1] {
            seq![spec_pipe_name(n - 1)]
        } else {
            Seq::empty()
        }
    }
}

/// The full pipe paths of the live slots, in slot order.
pub open spec fn spec_pipes(present: Seq<bool>) -> Seq<Seq<char>> {
    spec_pipes_upto(present, slot_count())
}

/// The full pipe paths of the live slots, given for each slot whether its
/// path exists.
pub fn get_discord_pipes(present: &[bool; 10]) -> (r: Vec<String>)
    ensures
        r.deep_view() == spec_pipes(present@),
{
    let mut r: Vec<String> = Vec::new();
    for i in 0..10
        invariant
            r.deep_view() =~= spec_pipes_upto(present@, i as int),
    {
        if present[i] {
            r.push(pipe_name(i));
        }
    }
    assert(r.deep_view() =~= spec_pipes(present@));
    r
}

/// The full pipe path of the lowest free slot.  The caller must have found
/// a free slot: with all ten taken there is no pipe path to give.
pub fn get_next_available_pipe(present: &[bool; 10]) -> (r: String)
    requires
        spec_next_free(present@) is Some,
    ensures
        r@ == spec_pipe_name(spec_next_free(present@)->0),
{
    proof {
        lemma_name_allocation(present@);
    }
    for i in 0..10
        invariant
            spec_next_free(present@) is Some,
            spec_next_free_upto(present@, i as int) is None,
            spec_next_free(present@)->0 >= i,
    {
        if !present[i] {
            proof {
                lemma_next_free_step(present@, i as int);
            }
            return pipe_name(i);
        }
        proof {
            lemma_next_free_step(present@, i as int);
            lemma_name_allocation(present@);
            if spec_next_free(present@)->0 == i {
                assert(!present@[i as int]);
            }
        }
    }
    proof {
        assert(forall|j: int| 0 <= j < slot_count() ==> present@[j]) by {
            lemma_name_allocation(present@);
        }
        assert(false);
    }
    pipe_name(0)
}

/// The absolute path of an endpoint: the IPC directory joined with the
/// endpoint name.
pub fn path(dir: &str, name: &str) -> (r: String)
    ensures
        r@ == dir@ + "/"@ + name@,
{
    let d = dir.to_owned();
    let with_sep = d.concat("/");
    with_sep.concat(name)
}

} // verus!
