//! The data that crosses the boundary: samples, session state, and the
//! sentinel-shaped results handed back to the foreign caller.

use vstd::prelude::*;

verus! {

/// One sample: a timestamp, one signed value per channel, and one quality
/// flag per channel. A well-formed sample carries exactly the owning
/// session's channel count in both sequences; the boundary documents that as
/// a caller obligation rather than checking it on entry.
#[derive(Debug)]
pub struct JetstreamDatasetWithQuality {
    pub t: u64,
    pub i32s: Vec<i32>,
    pub q: Vec<u32>,
}

impl JetstreamDatasetWithQuality {
    /// A sample is well formed for a session when both per-channel sequences
    /// hold exactly one entry per configured channel.
    pub open spec fn wf(self, channel_count: usize) -> bool {
        self.i32s@.len() == channel_count && self.q@.len() == channel_count
    }
}

/// The configuration an encoder session is created with. The codec's own
/// incremental state lives with the codec, outside this registry layer.
#[derive(Clone, Copy, Debug, PartialEq, Eq, Structural)]
pub struct EncoderSession {
    pub channel_count: usize,
    pub sampling_rate: usize,
    pub samples_per_message: usize,
}

/// A decoder session: its configuration plus the decoded output of the most
/// recent successful decode. Each successful decode replaces `out` whole;
/// nothing accumulates across calls.
#[derive(Debug)]
pub struct DecoderSession {
    pub channel_count: usize,
    pub sampling_rate: usize,
    pub samples_per_message: usize,
    pub out: Vec<JetstreamDatasetWithQuality>,
}

/// The result of an encode call as the foreign caller sees it: either a
/// completed message buffer with its length, or the null sentinel
/// (`len == 0`, no buffer) for "no message / not found / codec failure".
#[derive(Debug)]
pub struct JetstreamEncodeResult {
    pub len: usize,
    pub data: Option<Vec<u8>>,
}

impl JetstreamEncodeResult {
    /// The null sentinel: no buffer crosses the boundary.
    pub open spec fn spec_null() -> JetstreamEncodeResult {
        JetstreamEncodeResult { len: 0, data: None }
    }

    /// Builds the null sentinel.
    pub fn null() -> (r: JetstreamEncodeResult)
        ensures
            r == JetstreamEncodeResult::spec_null(),
    {
        JetstreamEncodeResult { len: 0, data: None }
    }

    /// A result is well formed when the advertised length is exactly the
    /// transferred buffer's length, and the null sentinel carries length
    /// zero.
    pub open spec fn wf(self) -> bool {
        match self.data {
            Some(buf) => self.len == buf@.len() && self.len > 0,
            None => self.len == 0,
        }
    }
}

/// One decoded point: the sentinel `ok == false` (with zeroed fields) stands
/// for "not found" and "index out of range" alike.
#[derive(Clone, Copy, Debug, PartialEq, Eq, Structural)]
pub struct JetstreamDecodedIndexResult {
    pub ok: bool,
    pub t: u64,
    pub value: i32,
    pub q: u32,
}

impl JetstreamDecodedIndexResult {
    /// The sentinel returned for any lookup that cannot be answered.
    pub open spec fn spec_not_ok() -> JetstreamDecodedIndexResult {
        JetstreamDecodedIndexResult { ok: false, t: 0, value: 0, q: 0 }
    }

    /// Builds the zeroed `ok == false` sentinel.
    pub fn not_ok() -> (r: JetstreamDecodedIndexResult)
        ensures
            r == JetstreamDecodedIndexResult::spec_not_ok(),
    {
        JetstreamDecodedIndexResult { ok: false, t: 0, value: 0, q: 0 }
    }
}

} // verus!
