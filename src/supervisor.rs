use vstd::arithmetic::div_mod::{lemma_fundamental_div_mod, lemma_fundamental_div_mod_converse};
use vstd::prelude::*;

use crate::client::{ConnectionId, WsClient};
use crate::command::{decode_command, decode_spec, DecodeError};
use crate::registry::{apply_op, RegistryError, RegistryOp, SessionRegistry};
use crate::shared_registry::SharedRegistry;
use crate::state_dispatcher::{dispatch_spec, StateDispatcher};
use crate::states::ActiveState;

verus! {

/// How long a connection may stay silent before it is probed.
pub const IDLE_TIMEOUT_MS: u64 = 5000;

/// A message as the transport delivers it.
#[derive(Clone, Debug, PartialEq, Eq)]
pub enum Frame {
    Text(Vec<u8>),
    Binary(Vec<u8>),
    Ping,
    Pong,
    Close,
}

/// What the receive loop observed since it last asked.
#[derive(Clone, Debug, PartialEq, Eq)]
pub enum Event {
    /// A message arrived.
    Received(Frame),
    /// The wait ended without a message after the given milliseconds.
    Idle(u64),
    /// The peer's stream has ended.
    StreamEnded,
    /// Reading from or writing to the transport failed.
    TransportError,
    /// The liveness probe went out.
    ProbeSent,
    /// The liveness probe could not be sent.
    ProbeFailed,
}

/// What the receive loop is to do next.
#[derive(Clone, Copy, Debug, PartialEq, Eq, Structural)]
pub enum Action {
    /// Wait for the next message.
    Wait,
    /// The payload was dropped as undecodable; wait for the next message.
    Dropped(DecodeError),
    /// Send a liveness probe to the peer and report how that went.
    SendProbe,
    /// Tear the connection down.
    Close,
}

/// Idle time after a wait of `elapsed` ms that began `idle` ms into the
/// current window, and whether that wait reached the probe deadline; a probe
/// starts a new window.
pub open spec fn tick(idle: nat, elapsed: nat) -> (nat, bool) {
    if idle + elapsed >= IDLE_TIMEOUT_MS {
        (0, true)
    } else {
        (idle + elapsed, false)
    }
}

/// The payload a frame carries to the dispatcher, if any.
pub open spec fn payload_of(f: Frame) -> Option<Seq<u8>> {
    match f {
        Frame::Text(b) => Some(b@),
        Frame::Binary(b) => Some(b@),
        _ => None,
    }
}

/// The supervisor's decision on `ev`, `idle` ms into the current window.
pub open spec fn action_for(idle: nat, ev: Event) -> Action {
    match ev {
        Event::Received(f) => match f {
            Frame::Close => Action::Close,
            Frame::Ping => Action::Wait,
            Frame::Pong => Action::Wait,
            _ => match decode_spec(payload_of(f)->0) {
                Ok(_) => Action::Wait,
                Err(e) => Action::Dropped(e),
            },
        },
        Event::Idle(e) => if tick(idle, e as nat).1 {
            Action::SendProbe
        } else {
            Action::Wait
        },
        Event::ProbeSent => Action::Wait,
        _ => Action::Close,
    }
}

/// Idle time into the window after `ev`: any message starts a new window.
pub open spec fn idle_after(idle: nat, ev: Event) -> nat {
    match ev {
        Event::Received(_) => 0,
        Event::Idle(e) => tick(idle, e as nat).0,
        _ => idle,
    }
}

/// The state stack after `ev`: a payload that decodes is dispatched.
pub open spec fn stack_after(stack: Seq<ActiveState>, ev: Event) -> Seq<ActiveState> {
    match ev {
        Event::Received(f) => match payload_of(f) {
            Some(b) => match decode_spec(b) {
                Ok(cmd) => dispatch_spec(stack, cmd),
                Err(_) => stack,
            },
            None => stack,
        },
        _ => stack,
    }
}

/// Idle time into the window, and probes sent, after `rem` ms of silence
/// that begins `idle` ms into a window, when the loop waits as
/// `wait_budget_ms` tells it: until the probe is due, or until the silence
/// ends, whichever comes first.
pub open spec fn silence_run(idle: nat, rem: nat) -> (nat, nat)
    recommends
        idle < IDLE_TIMEOUT_MS,
    decreases rem,
{
    if rem == 0 || idle >= IDLE_TIMEOUT_MS {
        (idle, 0)
    } else {
        let budget = (IDLE_TIMEOUT_MS - idle) as nat;
        let wait = if rem < budget {
            rem
        } else {
            budget
        };
        let t = tick(idle, wait);
        let rest = silence_run(t.0, (rem - wait) as nat);
        (rest.0, rest.1 + if t.1 {
            1nat
        } else {
            0nat
        })
    }
}

/// A silence of `rem` ms, starting `idle` ms into a window, brings one probe
/// for each full window it completes; from the start of a window that is one
/// probe per full `IDLE_TIMEOUT_MS` of silence, and none for a silence
/// shorter than that.
pub proof fn lemma_one_probe_per_window(idle: nat, rem: nat)
    requires
        idle < IDLE_TIMEOUT_MS,
    ensures
        silence_run(idle, rem).1 == (idle + rem) / (IDLE_TIMEOUT_MS as nat),
        silence_run(idle, rem).0 == (idle + rem) % (IDLE_TIMEOUT_MS as nat),
        idle == 0 && rem < IDLE_TIMEOUT_MS ==> silence_run(idle, rem).1 == 0,
    decreases rem,
{
    let t = IDLE_TIMEOUT_MS as int;
    let budget = t - idle;
    if rem == 0 {
        lemma_fundamental_div_mod_converse(idle as int, t, 0, idle as int);
    } else if rem < budget {
        lemma_one_probe_per_window(idle + rem, 0);
        lemma_fundamental_div_mod_converse((idle + rem) as int, t, 0, (idle + rem) as int);
    } else {
        let left = (rem - budget) as nat;
        lemma_one_probe_per_window(0, left);
        let q = (left as int) / t;
        let r = (left as int) % t;
        lemma_fundamental_div_mod(left as int, t);
        lemma_fundamental_div_mod_converse((idle + rem) as int, t, q + 1, r);
    }
    if idle == 0 && rem < IDLE_TIMEOUT_MS {
        lemma_fundamental_div_mod_converse(rem as int, t, 0, rem as int);
    }
}

/// Drives one connection: registers it, decides on every event of its
/// receive loop, and deregisters it on the way out.
pub struct ConnectionSupervisor {
    client: WsClient,
    dispatcher: StateDispatcher,
    idle_ms: u64,
}

impl ConnectionSupervisor {
    pub closed spec fn client_spec(&self) -> WsClient {
        self.client
    }

    pub closed spec fn stack(&self) -> Seq<ActiveState> {
        self.dispatcher@
    }

    pub closed spec fn idle(&self) -> nat {
        self.idle_ms as nat
    }

    pub closed spec fn wf(&self) -> bool {
        self.dispatcher.wf() && self.idle_ms < IDLE_TIMEOUT_MS
    }

    /// Registers `client` and starts supervising it, with a fresh dispatcher
    /// and a fresh idle window; an identifier that is registered already is
    /// refused and the registry is left as it was.
    pub fn start(registry: &mut SessionRegistry, client: WsClient) -> (r: Result<
        ConnectionSupervisor,
        RegistryError,
    >)
        requires
            old(registry).wf(),
        ensures
            final(registry).wf(),
            final(registry)@ == apply_op(old(registry)@, RegistryOp::Insert(client)),
            match r {
                Ok(s) => {
                    &&& !old(registry)@.contains_key(client.id.value)
                    &&& final(registry)@ == old(registry)@.insert(client.id.value, client)
                    &&& s.wf()
                    &&& s.client_spec() == client
                    &&& s.stack() == seq![ActiveState::initial()]
                    &&& s.idle() == 0
                },
                Err(e) => old(registry)@.contains_key(client.id.value) && e
                    == RegistryError::DuplicateId(client.id) && final(registry)@ == old(registry)@,
            },
    {
        match registry.insert(client) {
            Ok(c) => Ok(ConnectionSupervisor { client: c, dispatcher: StateDispatcher::new(), idle_ms: 0 }),
            Err(e) => Err(e),
        }
    }

    /// Decides what the receive loop does after `ev`, feeding decodable
    /// payloads to the dispatcher and keeping track of idle time.
    pub fn on_event(&mut self, ev: Event) -> (r: Action)
        requires
            old(self).wf(),
        ensures
            final(self).wf(),
            r == action_for(old(self).idle(), ev),
            final(self).idle() == idle_after(old(self).idle(), ev),
            final(self).stack() == stack_after(old(self).stack(), ev),
            final(self).client_spec() == old(self).client_spec(),
    {
        match ev {
            Event::Received(frame) => {
                self.idle_ms = 0;
                match frame {
                    Frame::Text(b) => self.on_payload(&b),
                    Frame::Binary(b) => self.on_payload(&b),
                    Frame::Ping => Action::Wait,
                    Frame::Pong => Action::Wait,
                    Frame::Close => Action::Close,
                }
            },
            Event::Idle(e) => {
                if e >= IDLE_TIMEOUT_MS - self.idle_ms {
                    self.idle_ms = 0;
                    Action::SendProbe
                } else {
                    self.idle_ms = self.idle_ms + e;
                    Action::Wait
                }
            },
            Event::ProbeSent => Action::Wait,
            Event::StreamEnded => Action::Close,
            Event::TransportError => Action::Close,
            Event::ProbeFailed => Action::Close,
        }
    }

    fn on_payload(&mut self, b: &Vec<u8>) -> (r: Action)
        requires
            old(self).wf(),
        ensures
            final(self).wf(),
            final(self).idle() == old(self).idle(),
            final(self).client_spec() == old(self).client_spec(),
            match decode_spec(b@) {
                Ok(cmd) => r == Action::Wait && final(self).stack() == dispatch_spec(
                    old(self).stack(),
                    cmd,
                ),
                Err(e) => r == Action::Dropped(e) && final(self).stack() == old(self).stack(),
            },
    {
        match decode_command(b.as_slice()) {
            Ok(cmd) => {
                self.dispatcher.dispatch_command(cmd);
                Action::Wait
            },
            Err(e) => Action::Dropped(e),
        }
    }

    /// Tears the connection down: its handle leaves the registry, which is
    /// otherwise left as it was, and the supervisor is gone.
    pub fn close(self, registry: &mut SessionRegistry) -> (r: Option<WsClient>)
        requires
            old(registry).wf(),
        ensures
            final(registry).wf(),
            final(registry)@ == old(registry)@.remove(self.client_spec().id.value),
            !final(registry)@.contains_key(self.client_spec().id.value),
            r == (if old(registry)@.contains_key(self.client_spec().id.value) {
                Some(old(registry)@[self.client_spec().id.value])
            } else {
                None
            }),
    {
        registry.remove(self.client.id)
    }

    /// Registers `client` in the shared registry and starts supervising it,
    /// with a fresh dispatcher and a fresh idle window; an identifier that is
    /// registered already is refused.
    pub fn start_shared(registry: &SharedRegistry, client: WsClient) -> (r: Result<
        ConnectionSupervisor,
        RegistryError,
    >)
        ensures
            match r {
                Ok(s) => {
                    &&& s.wf()
                    &&& s.client_spec() == client
                    &&& s.stack() == seq![ActiveState::initial()]
                    &&& s.idle() == 0
                },
                Err(e) => e == RegistryError::DuplicateId(client.id),
            },
    {
        match registry.insert(client) {
            Ok(c) => Ok(ConnectionSupervisor { client: c, dispatcher: StateDispatcher::new(), idle_ms: 0 }),
            Err(e) => Err(e),
        }
    }

    /// Tears the connection down by taking its handle out of the shared
    /// registry; what comes back is that handle, if it was still there.
    pub fn close_shared(self, registry: &SharedRegistry) -> (r: Option<WsClient>)
        ensures
            r matches Some(c) ==> c.id == self.client_spec().id,
    {
        registry.remove(self.client.id)
    }

    /// How long the loop may wait for a message before the probe is due.
    pub fn wait_budget_ms(&self) -> (r: u64)
        requires
            self.wf(),
        ensures
            r == IDLE_TIMEOUT_MS - self.idle(),
            0 < r <= IDLE_TIMEOUT_MS,
    {
        IDLE_TIMEOUT_MS - self.idle_ms
    }

    pub fn client(&self) -> (r: WsClient)
        ensures
            r == self.client_spec(),
    {
        self.client
    }

    pub fn id(&self) -> (r: ConnectionId)
        ensures
            r == self.client_spec().id,
    {
        self.client.id
    }

    pub fn dispatcher(&self) -> (r: &StateDispatcher)
        ensures
            r@ == self.stack(),
    {
        &self.dispatcher
    }

    pub fn idle_ms(&self) -> (r: u64)
        ensures
            r == self.idle(),
    {
        self.idle_ms
    }
}

} // verus!
