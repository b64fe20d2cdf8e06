//! What travels from the client to the bridge: close indications and
//! payloads, one of which is reserved as the heartbeat.

use vstd::prelude::*;
use vstd::utf8::{encode_utf8, is_ascii_chars, is_ascii_chars_encode_utf8};

verus! {

/// Length of the heartbeat token in bytes.
pub const HEARTBEAT_LEN: usize = 13;

/// The reserved payload by which a client says that it is alive: the ASCII
/// text `__HEARTBEAT__`. The match is exact and case-sensitive.
pub open spec fn heartbeat_token() -> Seq<u8> {
    seq![95u8, 95u8, 72u8, 69u8, 65u8, 82u8, 84u8, 66u8, 69u8, 65u8, 84u8, 95u8, 95u8]
}

/// The heartbeat token is the text `__HEARTBEAT__` in UTF-8.
pub proof fn heartbeat_token_is_text()
    ensures
        heartbeat_token() == encode_utf8("__HEARTBEAT__"@),
{
    reveal_strlit("__HEARTBEAT__");
    let text = "__HEARTBEAT__"@;
    assert(text.len() == 13);
    assert(is_ascii_chars(text));
    is_ascii_chars_encode_utf8(text);
    assert(heartbeat_token() =~= encode_utf8(text));
}

/// The heartbeat token as bytes that can be sent or compared.
pub fn heartbeat_bytes() -> (token: [u8; 13])
    ensures
        token@ == heartbeat_token(),
{
    let token: [u8; 13] = [95, 95, 72, 69, 65, 82, 84, 66, 69, 65, 84, 95, 95];
    assert(token@ =~= heartbeat_token());
    token
}

/// Whether a payload is the heartbeat token, byte for byte.
pub fn is_heartbeat(payload: &[u8]) -> (yes: bool)
    ensures
        yes == (payload@ == heartbeat_token()),
{
    if payload.len() != HEARTBEAT_LEN {
        return false;
    }
    let token = heartbeat_bytes();
    let mut i: usize = 0;
    while i < HEARTBEAT_LEN
        invariant
            i <= HEARTBEAT_LEN,
            payload@.len() == HEARTBEAT_LEN,
            token@ == heartbeat_token(),
            forall|j: int| 0 <= j < i ==> payload@[j] == token@[j],
        decreases HEARTBEAT_LEN - i,
    {
        if payload[i] != token[i] {
            return false;
        }
        i += 1;
    }
    assert(payload@ =~= heartbeat_token());
    true
}

/// A message received from the client.
#[derive(Debug, PartialEq, Eq)]
pub enum Inbound {
    /// The peer asks to end the session.
    Close,
    /// Bytes sent by the peer: terminal input, or the heartbeat token.
    Payload(Vec<u8>),
}

/// The mathematical content of an [`Inbound`] message.
pub enum InboundView {
    Close,
    Payload(Seq<u8>),
}

impl View for Inbound {
    type V = InboundView;

    open spec fn view(&self) -> InboundView {
        match self {
            Inbound::Close => InboundView::Close,
            Inbound::Payload(bytes) => InboundView::Payload(bytes@),
        }
    }
}

} // verus!
