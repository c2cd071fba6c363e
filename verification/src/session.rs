//! The per-client session state machine.
//!
//! One session exists per accepted inbound connection.  The session decides;
//! the surrounding runtime performs: every method here is pure state and
//! returns the [`Action`]s the caller must carry out (write a frame to the
//! client, put a frame on the outbound bus, resolve an application name,
//! open host connectors).  Stream reads and writes, channel traffic and
//! cancellation all live with the caller, which feeds each outcome back in
//! as the next call.

use vstd::prelude::*;

use crate::codec::Data;
use crate::error::SwitchError;
use crate::handshake::{extract_client_id, spec_client_id};
use crate::opcode::OpCode;

verus! {

/// Where a session stands: waiting for the first frame, relaying between
/// the client and its hosts, or torn down.
#[derive(Clone, Copy, Debug, PartialEq, Eq, Structural)]
pub enum SessionState {
    AwaitingHandshake,
    Relaying,
    Closing,
}

/// What the runtime must do on the session's behalf, in order.
#[derive(Debug)]
pub enum Action {
    /// Write this frame to the inbound client's stream.
    SendClient(Data),
    /// Put this frame on the outbound bus, towards every connected host.
    Broadcast(Data),
    /// Resolve this `client_id` to an application display name,
    /// best-effort, and feed the outcome back via [`ClientSession::app_resolved`].
    LookupApp(String),
    /// Enumerate every other live endpoint, open a connector to each, and
    /// feed the count of successes back via [`ClientSession::hosts_connected`].
    ConnectHosts,
}

/// The pure state of one client session.
pub struct ClientSession {
    /// Where the session stands.
    pub state: SessionState,
    /// The client's handshake payload, verbatim, once received.
    pub handshake_msg: Option<String>,
    /// The `client_id` extracted from the handshake, if it carried one.
    pub client_id: Option<String>,
    /// The application display name, once resolved.
    pub app_name: Option<String>,
    /// How many host connectors are still up.
    pub hosts: usize,
    /// Whether the session has been torn down.
    pub closed: bool,
}

impl ClientSession {
    /// The session's internal consistency: the `closed` flag mirrors the
    /// terminal state, relaying requires a received handshake and at least
    /// one surviving host, and no host is connected before the handshake.
    pub open spec fn wf(self) -> bool {
        &&& (self.closed <==> self.state is Closing)
        &&& (self.state is Relaying ==> self.handshake_msg is Some && self.hosts >= 1)
        &&& (self.state is AwaitingHandshake ==> self.hosts == 0)
    }

    /// A fresh session for one just-accepted client.
    pub fn new() -> (s: ClientSession)
        ensures
            s.wf(),
            s.state is AwaitingHandshake,
            s.handshake_msg is None,
            s.client_id is None,
            s.app_name is None,
            s.hosts == 0,
            !s.closed,
    {
        ClientSession {
            state: SessionState::AwaitingHandshake,
            handshake_msg: None,
            client_id: None,
            app_name: None,
            hosts: 0,
            closed: false,
        }
    }

    /// The session's display identity: the resolved application name if
    /// any, else the extracted `client_id`, else `Unidentified`.
    pub fn id(&self) -> (r: String)
        ensures
            self.app_name matches Some(n) ==> r@ == n@,
            self.app_name is None ==> (self.client_id matches Some(c) ==> r@ == c@),
            self.app_name is None && self.client_id is None ==> r@ == "Unidentified"@,
    {
        match &self.app_name {
            Option::Some(n) => n.clone(),
            Option::None => match &self.client_id {
                Option::Some(c) => c.clone(),
                Option::None => "Unidentified".to_owned(),
            },
        }
    }

    /// The reply a `Ping` earns: a `Pong` frame whose payload is the three
    /// characters `"4"`.
    pub fn pong_frame() -> (d: Data)
        ensures
            d.opcode is Pong,
            d.msg@ == "\"4\""@,
    {
        Data { opcode: OpCode::Pong, msg: "\"4\"".to_owned() }
    }

    /// One step of the state machine on a frame read from the client.
    ///
    /// Awaiting the handshake: a `Handshake` frame is retained verbatim,
    /// its `client_id` extracted, and the runtime is told to resolve the
    /// application name (when an id was found) and connect the hosts; any
    /// other opcode tears the session down.  Relaying: `Ping` earns exactly
    /// one `Pong` to the client and reaches no host; `Close` tears the
    /// session down; everything else is broadcast to the hosts unchanged.
    pub fn handle(&mut self, data: Data) -> (actions: Vec<Action>)
        requires
            old(self).wf(),
            !(old(self).state is Closing),
            old(self).state is AwaitingHandshake ==> old(self).handshake_msg is None,
        ensures
            final(self).wf(),
            old(self).state is AwaitingHandshake && data.opcode is Handshake ==> ({
                &&& final(self).state is AwaitingHandshake
                &&& final(self).handshake_msg == Some(data.msg)
                &&& final(self).app_name == old(self).app_name
                &&& final(self).hosts == old(self).hosts
                &&& !final(self).closed
                &&& match spec_client_id(data.msg@) {
                    Option::Some(digits) => {
                        &&& final(self).client_id matches Some(c) && c@ == digits
                        &&& actions@.len() == 2
                        &&& actions@[0] matches Action::LookupApp(id) && id@ == digits
                        &&& actions@[1] is ConnectHosts
                    },
                    Option::None => {
                        &&& final(self).client_id is None
                        &&& actions@.len() == 1
                        &&& actions@[0] is ConnectHosts
                    },
                }
            }),
            old(self).state is AwaitingHandshake && !(data.opcode is Handshake) ==> ({
                &&& final(self).state is Closing
                &&& final(self).closed
                &&& actions@.len() == 0
            }),
            old(self).state is Relaying && data.opcode is Ping ==> ({
                &&& *final(self) == *old(self)
                &&& actions@.len() == 1
                &&& actions@[0] matches Action::SendClient(d) && d.opcode is Pong && d.msg@
                    == "\"4\""@
            }),
            old(self).state is Relaying && data.opcode is Close ==> ({
                &&& final(self).state is Closing
                &&& final(self).closed
                &&& actions@.len() == 0
            }),
            old(self).state is Relaying && !(data.opcode is Ping) && !(data.opcode is Close)
                ==> ({
                &&& *final(self) == *old(self)
                &&& actions@.len() == 1
                &&& actions@[0] == Action::Broadcast(data)
            }),
    {
        let mut actions: Vec<Action> = Vec::new();
        match self.state {
            SessionState::AwaitingHandshake => {
                if let OpCode::Handshake = data.opcode {
                    match extract_client_id(data.msg.as_str()) {
                        Option::Some(id) => {
                            self.client_id = Some(id.clone());
                            actions.push(Action::LookupApp(id));
                        },
                        Option::None => {
                            self.client_id = None;
                        },
                    }
                    actions.push(Action::ConnectHosts);
                    self.handshake_msg = Some(data.msg);
                } else {
                    self.close();
                }
            },
            SessionState::Relaying => {
                match data.opcode {
                    OpCode::Ping => {
                        actions.push(Action::SendClient(Self::pong_frame()));
                    },
                    OpCode::Close => {
                        self.close();
                    },
                    _ => {
                        actions.push(Action::Broadcast(data));
                    },
                }
            },
            SessionState::Closing => {},
        }
        actions
    }

    /// The outcome of connecting host endpoints after the handshake: with
    /// not one host connected the session fails with `NoDiscords`;
    /// otherwise it enters the relaying state and the runtime must first of
    /// all broadcast the retained handshake payload, verbatim and under the
    /// `Handshake` opcode, so every host sees the real client's handshake
    /// before any other frame.
    pub fn hosts_connected(&mut self, n: usize) -> (r: Result<Vec<Action>, SwitchError>)
        requires
            old(self).wf(),
            old(self).state is AwaitingHandshake,
            old(self).handshake_msg is Some,
        ensures
            final(self).wf(),
            final(self).handshake_msg == old(self).handshake_msg,
            final(self).client_id == old(self).client_id,
            final(self).app_name == old(self).app_name,
            n == 0 ==> ({
                &&& r == Err::<Vec<Action>, SwitchError>(SwitchError::NoDiscords)
                &&& final(self).state is Closing
                &&& final(self).closed
            }),
            n > 0 ==> ({
                &&& final(self).state is Relaying
                &&& final(self).hosts == n
                &&& !final(self).closed
                &&& r matches Ok(actions) && actions@.len() == 1
                    && (actions@[0] matches Action::Broadcast(d) && d.opcode is Handshake
                    && d.msg == old(self).handshake_msg->0)
            }),
    {
        if n == 0 {
            self.close();
            return Err(SwitchError::NoDiscords);
        }
        self.hosts = n;
        self.state = SessionState::Relaying;
        let msg = match &self.handshake_msg {
            Option::Some(m) => m.clone(),
            Option::None => String::new(),
        };
        let mut actions: Vec<Action> = Vec::new();
        actions.push(Action::Broadcast(Data { opcode: OpCode::Handshake, msg }));
        Ok(actions)
    }

    /// The outcome of the best-effort application-name lookup: the resolved
    /// name, or nothing when the lookup failed; failure is not fatal and
    /// the session proceeds with the `client_id` as its display identity.
    pub fn app_resolved(&mut self, name: Option<String>)
        requires
            old(self).wf(),
        ensures
            final(self).wf(),
            final(self).app_name == name,
            final(self).state == old(self).state,
            final(self).handshake_msg == old(self).handshake_msg,
            final(self).client_id == old(self).client_id,
            final(self).hosts == old(self).hosts,
            final(self).closed == old(self).closed,
    {
        self.app_name = name;
    }

    /// One host connector tore itself down.  The session stays up while
    /// any host survives; when the fan-out becomes empty it closes.
    pub fn host_closed(&mut self)
        requires
            old(self).wf(),
            old(self).state is Relaying,
        ensures
            final(self).wf(),
            final(self).hosts == old(self).hosts - 1,
            final(self).handshake_msg == old(self).handshake_msg,
            final(self).client_id == old(self).client_id,
            final(self).app_name == old(self).app_name,
            old(self).hosts > 1 ==> final(self).state is Relaying && !final(self).closed,
            old(self).hosts == 1 ==> final(self).state is Closing && final(self).closed,
    {
        self.hosts = self.hosts - 1;
        if self.hosts == 0 {
            self.close();
        }
    }

    /// Tears the session down: on a `Close` opcode, inbound end-of-stream,
    /// or cancellation.
    pub fn close(&mut self)
        ensures
            final(self).wf(),
            final(self).state is Closing,
            final(self).closed,
            final(self).handshake_msg == old(self).handshake_msg,
            final(self).client_id == old(self).client_id,
            final(self).app_name == old(self).app_name,
            final(self).hosts == old(self).hosts,
    {
        self.state = SessionState::Closing;
        self.closed = true;
    }
}

} // verus!
