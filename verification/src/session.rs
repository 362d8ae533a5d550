//! Per-connection session logic: routing policy and lifecycle.
//!
//! A session decodes each inbound binary frame and applies the routing
//! policy: an `"echo"` frame is re-encoded and answered on the
//! connection's own outbound channel only; a `"broadcast"` frame has its
//! original raw bytes published to the hub, so every subscriber — the
//! sender's own subscription included — receives them; any other tag, and
//! any frame that fails to decode, draws exactly one `"error"` reply on
//! the private channel, with a fixed diagnostic that tells the two cases
//! apart, and the connection stays open.
//!
//! The session lifecycle is the state machine `Connecting → Open →
//! Closing → Closed`. The caller runs the socket loop and feeds each
//! observation in as an event; this module decides, with proofs, the next
//! state and the single effect to perform.

use vstd::prelude::*;
use vstd::utf8::encode_utf8;
use crate::codec::{
    GenericBinaryMessage, MessageModel, decode_frame, encode_frame, lemma_decode_encode_frame,
    lemma_decoded_encodable, spec_decode_frame, spec_encodable, spec_encode_frame,
};

verus! {

/// What a decoded (or undecodable) binary frame asks the session to do.
pub enum FrameAction {
    /// Send these bytes back on this connection's private outbound
    /// channel only.
    Reply(Vec<u8>),
    /// Publish these bytes to the broadcast hub for every subscriber.
    Publish(Vec<u8>),
}

/// The reply to a frame whose tag is recognized by nobody.
pub open spec fn spec_unknown_kind_reply() -> MessageModel {
    MessageModel { kind: "error"@, payload: encode_utf8("Unknown message kind"@) }
}

/// The reply to a byte sequence that is not a frame at all.
pub open spec fn spec_malformed_reply() -> MessageModel {
    MessageModel { kind: "error"@, payload: encode_utf8("Invalid MessagePack"@) }
}

/// The routing policy, as a relation between the raw inbound bytes and
/// the action taken.
pub open spec fn spec_route_frame(raw: Seq<u8>, act: FrameAction) -> bool {
    match spec_decode_frame(raw) {
        Some(m) => if m.kind == "echo"@ {
            act matches FrameAction::Reply(v) && v@ == spec_encode_frame(m)
        } else if m.kind == "broadcast"@ {
            act matches FrameAction::Publish(v) && v@ == raw
        } else {
            act matches FrameAction::Reply(v) && v@ == spec_encode_frame(spec_unknown_kind_reply())
        },
        None => act matches FrameAction::Reply(v) && v@ == spec_encode_frame(
            spec_malformed_reply(),
        ),
    }
}

/// Build the one `"error"` reply frame for an ASCII diagnostic.
fn error_frame(diag: &str) -> (r: Vec<u8>)
    requires
        diag.is_ascii(),
        diag@.len() < 0x100,
    ensures
        r@ == spec_encode_frame(
            MessageModel { kind: "error"@, payload: encode_utf8(diag@) },
        ),
{
    proof {
        reveal_strlit("error");
        vstd::string::is_ascii_spec_bytes("error");
        vstd::string::is_ascii_spec_bytes(diag);
    }
    let kind: String = "error".to_owned();
    let payload: Vec<u8> = diag.as_bytes_vec();
    let msg = GenericBinaryMessage { kind, payload };
    proof {
        assert(encode_utf8(msg@.kind).len() == 5);
        assert(msg@.payload.len() < 0x100);
        assert(spec_encodable(msg@));
    }
    match encode_frame(&msg) {
        Some(v) => v,
        None => {
            proof {
                assert(false);
            }
            Vec::new()
        },
    }
}

/// Decode one inbound binary frame and apply the routing policy: echo
/// back to the sender only, publish the raw bytes to the hub, or answer
/// with a single error frame naming what went wrong. Undecodable input
/// never escalates beyond its own error reply.
pub fn handle_binary_message(raw: Vec<u8>) -> (act: FrameAction)
    ensures
        spec_route_frame(raw@, act),
{
    proof {
        lemma_decoded_encodable(raw@);
        reveal_strlit("Unknown message kind");
        reveal_strlit("Invalid MessagePack");
    }
    match decode_frame(&raw) {
        Some(msg) => {
            let echo: String = "echo".to_owned();
            let broadcast_kind: String = "broadcast".to_owned();
            if msg.kind == echo {
                match encode_frame(&msg) {
                    Some(v) => FrameAction::Reply(v),
                    None => {
                        proof {
                            assert(false);
                        }
                        FrameAction::Reply(Vec::new())
                    },
                }
            } else if msg.kind == broadcast_kind {
                FrameAction::Publish(raw)
            } else {
                FrameAction::Reply(error_frame("Unknown message kind"))
            }
        },
        None => FrameAction::Reply(error_frame("Invalid MessagePack")),
    }
}

/// An `"echo"` frame draws exactly one reply, and that reply decodes to
/// the very message that was sent: same tag, same payload.
pub proof fn lemma_echo_reply_round_trip(raw: Seq<u8>, act: FrameAction, m: MessageModel)
    requires
        spec_route_frame(raw, act),
        spec_decode_frame(raw) == Some(m),
        m.kind == "echo"@,
    ensures
        act matches FrameAction::Reply(v) && spec_decode_frame(v@) == Some(m),
{
    lemma_decoded_encodable(raw);
    lemma_decode_encode_frame(m);
}

/// An undecodable byte sequence draws exactly one reply, and that reply
/// is a well-formed frame with tag `"error"` and the malformed-frame
/// diagnostic — distinct from the diagnostic an unknown tag draws.
pub proof fn lemma_malformed_reply_well_formed(raw: Seq<u8>, act: FrameAction)
    requires
        spec_route_frame(raw, act),
        spec_decode_frame(raw) is None,
    ensures
        act matches FrameAction::Reply(v) && spec_decode_frame(v@) == Some(spec_malformed_reply()),
{
    reveal_strlit("error");
    reveal_strlit("Invalid MessagePack");
    vstd::string::is_ascii_spec_bytes("error");
    vstd::string::is_ascii_spec_bytes("Invalid MessagePack");
    assert(encode_utf8(spec_malformed_reply().kind).len() == 5);
    assert(spec_malformed_reply().payload.len() == 19);
    assert(spec_encodable(spec_malformed_reply()));
    lemma_decode_encode_frame(spec_malformed_reply());
}

/// The lifecycle of one connection, from upgrade to teardown. `Closed` is
/// terminal.
#[derive(Clone, Copy, PartialEq, Eq, Structural, Debug)]
pub enum SessionState {
    Connecting,
    Open,
    Closing,
    Closed,
}

/// One observation the connection loop makes while running a session.
pub enum SessionEvent {
    /// The socket upgrade completed and the session is registered with
    /// the registry and subscribed to the hub.
    Upgraded,
    /// A text frame arrived.
    TextFrame(String),
    /// A binary frame arrived.
    BinaryFrame(Vec<u8>),
    /// A ping arrived.
    PingFrame(Vec<u8>),
    /// A pong arrived.
    PongFrame(Vec<u8>),
    /// The peer sent a close frame.
    CloseFrame,
    /// The socket failed, a merged source erred, or the inbound stream
    /// ended without a close frame.
    TransportError,
    /// Both duties of the session have fully stopped.
    DutiesStopped,
}

/// The single effect the loop must perform after a step.
pub enum SessionEffect {
    Nothing,
    /// Echo a text frame on the private outbound channel.
    SendText(String),
    /// Answer a ping with a pong carrying the same bytes.
    SendPong(Vec<u8>),
    /// Echo the close frame back before tearing down.
    EchoClose,
    /// Send these bytes on the private outbound channel only.
    Reply(Vec<u8>),
    /// Publish these bytes to the hub.
    Publish(Vec<u8>),
}

/// Advance the session by one event, returning the next state and the
/// effect to perform. Protocol errors (unknown tag, undecodable frame)
/// leave the session `Open`; transport errors move it to `Closing`; it is
/// `Closed` only once both duties have stopped.
pub fn session_step(state: SessionState, event: SessionEvent) -> (r: (
    SessionState,
    SessionEffect,
))
    ensures
        state is Connecting && event is Upgraded ==> r.0 is Open && r.1 is Nothing,
        state is Connecting && event is TransportError ==> r.0 is Closing && r.1 is Nothing,
        state is Connecting && !(event is Upgraded) && !(event is TransportError) ==> r.0
            is Connecting && r.1 is Nothing,
        event matches SessionEvent::TextFrame(t) ==> (state is Open ==> r.0 is Open && (r.1
            matches SessionEffect::SendText(u) && u@ == t@)),
        event matches SessionEvent::BinaryFrame(b) ==> (state is Open ==> r.0 is Open
            && spec_step_routes(b@, r.1)),
        event matches SessionEvent::PingFrame(p) ==> (state is Open ==> r.0 is Open && (r.1
            matches SessionEffect::SendPong(q) && q@ == p@)),
        state is Open && event is PongFrame ==> r.0 is Open && r.1 is Nothing,
        state is Open && event is CloseFrame ==> r.0 is Closing && r.1 is EchoClose,
        state is Open && event is TransportError ==> r.0 is Closing && r.1 is Nothing,
        state is Open && (event is Upgraded || event is DutiesStopped) ==> r.0 is Open && r.1
            is Nothing,
        state is Closing && event is DutiesStopped ==> r.0 is Closed && r.1 is Nothing,
        state is Closing && !(event is DutiesStopped) ==> r.0 is Closing && r.1 is Nothing,
        state is Closed ==> r.0 is Closed && r.1 is Nothing,
{
    match state {
        SessionState::Connecting => match event {
            SessionEvent::Upgraded => (SessionState::Open, SessionEffect::Nothing),
            SessionEvent::TransportError => (SessionState::Closing, SessionEffect::Nothing),
            _ => (SessionState::Connecting, SessionEffect::Nothing),
        },
        SessionState::Open => match event {
            SessionEvent::Upgraded => (SessionState::Open, SessionEffect::Nothing),
            SessionEvent::TextFrame(t) => (SessionState::Open, SessionEffect::SendText(t)),
            SessionEvent::BinaryFrame(b) => {
                let act = handle_binary_message(b);
                let effect = match act {
                    FrameAction::Reply(v) => SessionEffect::Reply(v),
                    FrameAction::Publish(v) => SessionEffect::Publish(v),
                };
                (SessionState::Open, effect)
            },
            SessionEvent::PingFrame(p) => (SessionState::Open, SessionEffect::SendPong(p)),
            SessionEvent::PongFrame(_) => (SessionState::Open, SessionEffect::Nothing),
            SessionEvent::CloseFrame => (SessionState::Closing, SessionEffect::EchoClose),
            SessionEvent::TransportError => (SessionState::Closing, SessionEffect::Nothing),
            SessionEvent::DutiesStopped => (SessionState::Open, SessionEffect::Nothing),
        },
        SessionState::Closing => match event {
            SessionEvent::DutiesStopped => (SessionState::Closed, SessionEffect::Nothing),
            _ => (SessionState::Closing, SessionEffect::Nothing),
        },
        SessionState::Closed => (SessionState::Closed, SessionEffect::Nothing),
    }
}

/// The routing policy restated over session effects: what the effect of a
/// binary frame in the `Open` state must be.
pub open spec fn spec_step_routes(raw: Seq<u8>, effect: SessionEffect) -> bool {
    match spec_decode_frame(raw) {
        Some(m) => if m.kind == "echo"@ {
            effect matches SessionEffect::Reply(v) && v@ == spec_encode_frame(m)
        } else if m.kind == "broadcast"@ {
            effect matches SessionEffect::Publish(v) && v@ == raw
        } else {
            effect matches SessionEffect::Reply(v) && v@ == spec_encode_frame(
                spec_unknown_kind_reply(),
            )
        },
        None => effect matches SessionEffect::Reply(v) && v@ == spec_encode_frame(
            spec_malformed_reply(),
        ),
    }
}

} // verus!
