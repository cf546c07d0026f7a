//! Control frames of the streaming transport.

use vstd::prelude::*;
use vstd::string::*;

verus! {

/// What a frame payload asks of the session.
#[derive(Debug, Clone, Copy, PartialEq, Eq, Structural)]
pub enum FrameKind {
    /// `!`: messages are pending.
    NewMessages,
    /// `E`: the server saw an error; reconnect.
    UpstreamError,
    /// `A`: abort; the device must be registered again.
    Abort,
    /// `#`: keepalive.
    Keepalive,
    /// Anything else: reserved, ignored.
    Unknown,
}

/// The kind of a payload, by exact match on one character.
pub open spec fn frame_kind_of(text: Seq<char>) -> FrameKind {
    if text == seq!['!'] {
        FrameKind::NewMessages
    } else if text == seq!['E'] {
        FrameKind::UpstreamError
    } else if text == seq!['A'] {
        FrameKind::Abort
    } else if text == seq!['#'] {
        FrameKind::Keepalive
    } else {
        FrameKind::Unknown
    }
}

/// Classifies a frame payload.
pub fn classify_frame(text: &str) -> (r: FrameKind)
    ensures
        r == frame_kind_of(text@),
{
    if text.unicode_len() != 1 {
        return FrameKind::Unknown;
    }
    let c = text.get_char(0);
    assert(text@ =~= seq![c]);
    if c == '!' {
        FrameKind::NewMessages
    } else if c == 'E' {
        FrameKind::UpstreamError
    } else if c == 'A' {
        FrameKind::Abort
    } else if c == '#' {
        FrameKind::Keepalive
    } else {
        FrameKind::Unknown
    }
}

} // verus!
