use vstd::prelude::*;

verus! {

/// Signal to propagate to the daemon.
///
/// A client sends one of these over the local command endpoint to ask the
/// daemon for a rotation in either direction.
#[derive(Clone, Copy, Debug, PartialEq, Eq, Structural)]
pub enum Signal {
    /// Notify the daemon to change to the next wallpaper.
    Next,

    /// Notify the daemon to change to the previous wallpaper.
    Prev,
}

/// Wire tag of a signal: one self-delimiting byte per message.
pub open spec fn spec_encode(signal: Signal) -> u8 {
    match signal {
        Signal::Next => 1,
        Signal::Prev => 2,
    }
}

/// Reading of one wire byte: `1` and `2` are the only valid tags.
pub open spec fn spec_decode(tag: u8) -> Option<Signal> {
    if tag == 1 {
        Some(Signal::Next)
    } else if tag == 2 {
        Some(Signal::Prev)
    } else {
        None
    }
}

/// Encodes a signal as the single byte that is written to the endpoint.
pub fn encode_signal(signal: &Signal) -> (tag: u8)
    ensures
        tag == spec_encode(*signal),
{
    match signal {
        Signal::Next => 1,
        Signal::Prev => 2,
    }
}

/// Decodes one byte read from the endpoint; bytes other than the two
/// valid tags carry no signal.
pub fn decode_signal(tag: u8) -> (signal: Option<Signal>)
    ensures
        signal == spec_decode(tag),
{
    if tag == 1 {
        Some(Signal::Next)
    } else if tag == 2 {
        Some(Signal::Prev)
    } else {
        None
    }
}

/// Law: decoding an encoded signal yields that signal back.
pub proof fn lemma_signal_round_trip(signal: Signal)
    ensures
        spec_decode(spec_encode(signal)) == Some(signal),
{
}

/// Law: a byte decodes to some signal if and only if it is one of the two
/// valid tags; no other tag value is valid.
pub proof fn lemma_decode_valid_tags(tag: u8)
    ensures
        spec_decode(tag) is Some <==> (tag == 1 || tag == 2),
{
}

} // verus!
