//! The handshake: classification of the one reply frame, and the state
//! machine of a whole connection attempt — open the channel with a bounded
//! retry budget, send the handshake request, and judge the reply.

use vstd::prelude::*;
use vstd::string::StringExecFns;
use crate::frame::{spec_frame, TransportKind};
use crate::payload::{handshake_frame, spec_handshake_payload, COMMAND_OPCODE, HANDSHAKE_OPCODE};

verus! {

/// How many times opening the channel is tried before giving up.
pub const CONNECT_ATTEMPT_BOUND: u32 = 10;

/// The fixed delay between two open attempts, in milliseconds.
pub const CONNECT_RETRY_DELAY_MS: u64 = 500;

/// How a handshake attempt failed.
#[derive(Clone, Copy, PartialEq, Eq, Structural, Debug)]
pub enum HandshakeError {
    /// The channel could not be opened within the bounded retry budget.
    ConnectFailed,
    /// The reply frame's opcode was not the command opcode.
    UnexpectedOpcode,
    /// The reply payload was not a JSON text.
    MalformedHandshakeResponse,
    /// The reply parsed but was not the ready dispatch.
    HandshakeRejected,
    /// The channel failed while the handshake itself was sent or read.
    TransportFailed(TransportKind),
}

/// The string values of the top-level "cmd" and "evt" members of a JSON
/// text: absent when the text is not a JSON document; inside, each member
/// is absent when it is missing or not a string.
pub uninterp spec fn json_top_fields(s: Seq<char>) -> Option<
    (Option<Seq<char>>, Option<Seq<char>>),
>;

/// The mathematical value of parsed reply fields.
pub open spec fn fields_view(f: Option<(Option<String>, Option<String>)>) -> Option<
    (Option<Seq<char>>, Option<Seq<char>>),
> {
    match f {
        Some((c, e)) => Some((c.deep_view(), e.deep_view())),
        None => None,
    }
}

/// Relies on serde_json::from_str and serde_json::Value::{get, as_str}:
/// whether a text is a JSON document, and the string values of its
/// top-level "cmd" and "evt" members, are functions of the text alone.
#[verifier::external_body]
fn parse_top_fields(s: &str) -> (r: Option<(Option<String>, Option<String>)>)
    ensures
        fields_view(r) == json_top_fields(s@),
{
    match serde_json::from_str::<serde_json::Value>(s) {
        Ok(v) => {
            let cmd = v.get("cmd").and_then(|c| c.as_str()).map(|c| c.to_string());
            let evt = v.get("evt").and_then(|e| e.as_str()).map(|e| e.to_string());
            Some((cmd, evt))
        },
        Err(_) => None,
    }
}

/// The verdict on a reply frame: the handshake is accepted exactly when
/// the opcode is the command opcode and the payload is a JSON document
/// whose "cmd" is "DISPATCH" and whose "evt" is "READY".
pub open spec fn spec_classify(opcode: u32, p: Option<(Option<Seq<char>>, Option<Seq<char>>)>) -> Result<
    (),
    HandshakeError,
> {
    if opcode != COMMAND_OPCODE {
        Err(HandshakeError::UnexpectedOpcode)
    } else if p is None {
        Err(HandshakeError::MalformedHandshakeResponse)
    } else if p == Some((Some("DISPATCH"@), Some("READY"@))) {
        Ok(())
    } else {
        Err(HandshakeError::HandshakeRejected)
    }
}

/// The handshake succeeds only on the command opcode with the ready
/// dispatch payload; every other opcode or payload shape is a failure,
/// and each failure is the one named by the taxonomy.
pub proof fn lemma_handshake_success_iff(
    opcode: u32,
    p: Option<(Option<Seq<char>>, Option<Seq<char>>)>,
)
    ensures
        spec_classify(opcode, p) is Ok <==> (opcode == COMMAND_OPCODE && p == Some(
            (Some("DISPATCH"@), Some("READY"@)),
        )),
        opcode != COMMAND_OPCODE <==> spec_classify(opcode, p) == Err::<
            (),
            HandshakeError,
        >(HandshakeError::UnexpectedOpcode),
        (opcode == COMMAND_OPCODE && p is None) <==> spec_classify(opcode, p) == Err::<
            (),
            HandshakeError,
        >(HandshakeError::MalformedHandshakeResponse),
{
}

/// Judge already-parsed reply fields.
pub fn classify_handshake_reply(
    opcode: u32,
    fields: &Option<(Option<String>, Option<String>)>,
) -> (r: Result<(), HandshakeError>)
    ensures
        r == spec_classify(opcode, fields_view(*fields)),
{
    if opcode != COMMAND_OPCODE {
        return Err(HandshakeError::UnexpectedOpcode);
    }
    match fields {
        None => Err(HandshakeError::MalformedHandshakeResponse),
        Some((c_opt, e_opt)) => {
            let accepted = match (c_opt, e_opt) {
                (Some(c), Some(e)) => {
                    let dispatch = String::from_str("DISPATCH");
                    let ready = String::from_str("READY");
                    c.eq(&dispatch) && e.eq(&ready)
                },
                _ => false,
            };
            if accepted {
                Ok(())
            } else {
                Err(HandshakeError::HandshakeRejected)
            }
        },
    }
}

/// Judge a reply frame from its opcode and payload text.
pub fn check_handshake_reply(opcode: u32, payload: &str) -> (r: Result<(), HandshakeError>)
    ensures
        r == spec_classify(opcode, json_top_fields(payload@)),
{
    let fields = parse_top_fields(payload);
    classify_handshake_reply(opcode, &fields)
}

/// Where a connection attempt stands.
pub enum ConnectPhase {
    /// The next open of the channel is try number `attempt`, counted from 1.
    Opening { attempt: u32 },
    /// The channel is open and the handshake request has been handed out;
    /// one reply frame is awaited.
    AwaitingReply,
    /// The handshake was accepted: the channel is ready for commands.
    Ready,
    /// The attempt is over.
    Failed { error: HandshakeError },
}

/// What the caller observed on the channel, handed to `step`.
pub enum ConnectEvent {
    /// The channel opened.
    Opened,
    /// The channel could not be opened.
    OpenFailed,
    /// One reply frame arrived.
    Reply { opcode: u32, payload: String },
    /// A reply frame arrived but its payload was not text.
    ReplyNotText,
    /// The channel failed while the handshake was sent or read.
    TransportFailed { kind: TransportKind },
}

/// What the caller is to do next.
pub enum ConnectAction {
    /// Write this frame on the open channel, then read one reply frame.
    SendHandshake(Vec<u8>),
    /// Wait the fixed delay, then try to open the channel again.
    RetryAfterDelay,
    /// Nothing: the phase is terminal, or the event did not belong to the
    /// phase.
    Done,
}

/// The phase after a failed open: the next try while the budget lasts,
/// the terminal connect failure on the last allowed try.
pub open spec fn spec_after_open_failed(phase: ConnectPhase) -> ConnectPhase {
    match phase {
        ConnectPhase::Opening { attempt } => {
            if attempt < CONNECT_ATTEMPT_BOUND {
                ConnectPhase::Opening { attempt: (attempt + 1) as u32 }
            } else {
                ConnectPhase::Failed { error: HandshakeError::ConnectFailed }
            }
        },
        _ => phase,
    }
}

/// The phase reached from the first open attempt after `n` failed opens.
pub open spec fn spec_phase_after_failures(n: nat) -> ConnectPhase
    decreases n,
{
    if n == 0 {
        ConnectPhase::Opening { attempt: 1 }
    } else {
        spec_after_open_failed(spec_phase_after_failures((n - 1) as nat))
    }
}

/// The retry budget, exactly: while fewer opens have failed than the
/// bound allows, the session is about to try again; the moment the last
/// allowed open fails, the session is terminally failed with
/// ConnectFailed, and every later failure leaves it there — no open
/// beyond the bound is ever asked for.
pub proof fn lemma_connect_retry_budget(n: nat)
    ensures
        n < CONNECT_ATTEMPT_BOUND ==> spec_phase_after_failures(n) == (ConnectPhase::Opening {
            attempt: (n + 1) as u32,
        }),
        n >= CONNECT_ATTEMPT_BOUND ==> spec_phase_after_failures(n) == (ConnectPhase::Failed {
            error: HandshakeError::ConnectFailed,
        }),
    decreases n,
{
    if n > 0 {
        lemma_connect_retry_budget((n - 1) as nat);
    }
}

/// One connection attempt: it owns the handshake request frame and the
/// phase, and is driven by the events the caller observes on the channel.
pub struct ConnectSession {
    /// The client identifier the session was made for.
    pub client_id: Ghost<Seq<char>>,
    /// The handshake request frame, built once at construction.
    pub frame: Vec<u8>,
    /// Where the attempt stands.
    pub phase: ConnectPhase,
}

impl ConnectSession {
    /// The handshake request frame this session sends.
    pub open spec fn frame_view(self) -> Seq<u8> {
        self.frame@
    }

    /// The session's frame is the handshake request for its client
    /// identifier, and an open phase stays within the retry budget.
    pub open spec fn wf(self) -> bool {
        &&& self.frame_view() == spec_frame(
            HANDSHAKE_OPCODE,
            spec_handshake_payload(self.client_id@),
        )
        &&& (self.phase matches ConnectPhase::Opening { attempt } ==> 1 <= attempt
            <= CONNECT_ATTEMPT_BOUND)
    }

    /// Start a connection attempt. Fails only when the handshake payload
    /// for this identifier does not fit a frame.
    pub fn new(client_id: &str) -> (r: Option<ConnectSession>)
        ensures
            r is Some <==> spec_handshake_payload(client_id@).len() <= u32::MAX,
            r is Some ==> {
                let s = r.unwrap();
                s.wf() && s.client_id@ == client_id@ && s.phase == (ConnectPhase::Opening {
                    attempt: 1u32,
                })
            },
    {
        match handshake_frame(client_id) {
            Some(f) => Some(
                ConnectSession {
                    client_id: Ghost(client_id@),
                    frame: f,
                    phase: ConnectPhase::Opening { attempt: 1 },
                },
            ),
            None => None,
        }
    }

    /// Feed one observation in; the returned action is what to do next.
    /// An event that does not belong to the current phase changes nothing.
    pub fn step(&mut self, event: ConnectEvent) -> (a: ConnectAction)
        requires
            old(self).wf(),
        ensures
            final(self).wf(),
            final(self).client_id == old(self).client_id,
            final(self).frame_view() == old(self).frame_view(),
            match (old(self).phase, event) {
                (ConnectPhase::Opening { attempt }, ConnectEvent::Opened) => final(self).phase
                    == ConnectPhase::AwaitingReply && (a matches ConnectAction::SendHandshake(f)
                    && f@ == old(self).frame_view()),
                (ConnectPhase::Opening { attempt }, ConnectEvent::OpenFailed) => final(self).phase
                    == spec_after_open_failed(old(self).phase) && (attempt < CONNECT_ATTEMPT_BOUND
                    ==> a is RetryAfterDelay) && (attempt >= CONNECT_ATTEMPT_BOUND
                    ==> a is Done),
                (ConnectPhase::AwaitingReply, ConnectEvent::Reply { opcode, payload }) => a
                    is Done && final(self).phase == (match spec_classify(
                    opcode,
                    json_top_fields(payload@),
                ) {
                    Ok(_) => ConnectPhase::Ready,
                    Err(e) => ConnectPhase::Failed { error: e },
                }),
                (ConnectPhase::AwaitingReply, ConnectEvent::ReplyNotText) => a is Done
                    && final(self).phase == (ConnectPhase::Failed {
                    error: HandshakeError::MalformedHandshakeResponse,
                }),
                (ConnectPhase::AwaitingReply, ConnectEvent::TransportFailed { kind }) => a is Done
                    && final(self).phase == (ConnectPhase::Failed {
                    error: HandshakeError::TransportFailed(kind),
                }),
                _ => a is Done && final(self).phase == old(self).phase,
            },
    {
        match (&self.phase, &event) {
            (ConnectPhase::Opening { attempt: _ }, ConnectEvent::Opened) => {
                self.phase = ConnectPhase::AwaitingReply;
                ConnectAction::SendHandshake(clone_bytes(&self.frame))
            },
            (ConnectPhase::Opening { attempt }, ConnectEvent::OpenFailed) => {
                if *attempt < CONNECT_ATTEMPT_BOUND {
                    let next = *attempt + 1;
                    self.phase = ConnectPhase::Opening { attempt: next };
                    ConnectAction::RetryAfterDelay
                } else {
                    self.phase = ConnectPhase::Failed { error: HandshakeError::ConnectFailed };
                    ConnectAction::Done
                }
            },
            (ConnectPhase::AwaitingReply, ConnectEvent::Reply { opcode, payload }) => {
                match check_handshake_reply(*opcode, payload.as_str()) {
                    Ok(_) => {
                        self.phase = ConnectPhase::Ready;
                    },
                    Err(e) => {
                        self.phase = ConnectPhase::Failed { error: e };
                    },
                }
                ConnectAction::Done
            },
            (ConnectPhase::AwaitingReply, ConnectEvent::ReplyNotText) => {
                self.phase = ConnectPhase::Failed {
                    error: HandshakeError::MalformedHandshakeResponse,
                };
                ConnectAction::Done
            },
            (ConnectPhase::AwaitingReply, ConnectEvent::TransportFailed { kind }) => {
                self.phase = ConnectPhase::Failed { error: HandshakeError::TransportFailed(*kind) };
                ConnectAction::Done
            },
            _ => ConnectAction::Done,
        }
    }
}

fn clone_bytes(v: &Vec<u8>) -> (r: Vec<u8>)
    ensures
        r@ == v@,
{
    let mut r: Vec<u8> = Vec::new();
    let mut i: usize = 0;
    while i < v.len()
        invariant
            i <= v@.len(),
            r@ == v@.take(i as int),
        decreases v@.len() - i,
    {
        r.push(v[i]);
        proof {
            assert(r@ =~= v@.take(i + 1));
        }
        i = i + 1;
    }
    proof {
        assert(v@.take(v@.len() as int) =~= v@);
    }
    r
}

} // verus!
