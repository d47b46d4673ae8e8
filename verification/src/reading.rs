use vstd::prelude::*;
use vstd::std_specs::convert::FromSpecImpl;

verus! {

/// The four corner pressures as the driver's record holds them.
///
/// Each field is the IEEE 754 single-precision bit pattern of one pressure,
/// in device units.
#[derive(Debug, Clone, Copy, PartialEq, Eq, Structural)]
pub struct BoardSample {
    /// Top-left corner.
    pub tl: u32,
    /// Top-right corner.
    pub tr: u32,
    /// Bottom-left corner.
    pub bl: u32,
    /// Bottom-right corner.
    pub br: u32,
}

/// One reading of the board: four independent pressures, each as an
/// IEEE 754 single-precision bit pattern. A plain value, copied freely.
#[derive(Debug, Clone, Copy, PartialEq, Eq, Structural)]
pub struct WiiBoardData {
    pub top_left: u32,
    pub top_right: u32,
    pub bottom_left: u32,
    pub bottom_right: u32,
}

/// What one probe of a connected board found.
#[derive(Debug, Clone, Copy, PartialEq, Eq, Structural)]
pub enum WiiBoardPoll {
    /// A balance reading arrived.
    Balance(WiiBoardData),
    /// Something was pending, but not a device-state event.
    Other,
    /// Nothing was pending.
    Empty,
}

/// The reading that a driver sample decodes to: each corner is taken over
/// as it stands.
pub open spec fn decode(sample: BoardSample) -> WiiBoardData {
    WiiBoardData {
        top_left: sample.tl,
        top_right: sample.tr,
        bottom_left: sample.bl,
        bottom_right: sample.br,
    }
}

impl From<BoardSample> for WiiBoardData {
    /// Decodes a driver sample; the result is [`decode`] of it.
    fn from(sample: BoardSample) -> (data: WiiBoardData) {
        WiiBoardData {
            top_left: sample.tl,
            top_right: sample.tr,
            bottom_left: sample.bl,
            bottom_right: sample.br,
        }
    }
}

impl FromSpecImpl<BoardSample> for WiiBoardData {
    open spec fn obeys_from_spec() -> bool {
        true
    }

    open spec fn from_spec(sample: BoardSample) -> WiiBoardData {
        decode(sample)
    }
}

/// Decoding keeps every corner exactly, in order, and loses nothing: two
/// samples that decode to the same reading are the same sample.
pub proof fn lemma_decode_is_exact(a: BoardSample, b: BoardSample)
    ensures
        decode(a).top_left == a.tl,
        decode(a).top_right == a.tr,
        decode(a).bottom_left == a.bl,
        decode(a).bottom_right == a.br,
        decode(a) == decode(b) <==> a == b,
{
}

} // verus!
