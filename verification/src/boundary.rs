//! The boundary protocol: create and destroy sessions, convert the codec's
//! outcomes into sentinel results, store decoded output, and retrieve it
//! point by point or whole.
//!
//! Every failure (unknown identifier, codec failure, out-of-range index) is
//! reported through a sentinel value shaped like the operation's normal
//! result, never through a fault, because the foreign caller on the other
//! side of the boundary cannot receive one.

use crate::registry::SessionRegistry;
use crate::sample::DecoderSession;
use crate::sample::EncoderSession;
use crate::sample::JetstreamDatasetWithQuality;
use crate::sample::JetstreamDecodedIndexResult;
use crate::sample::JetstreamEncodeResult;
use vstd::prelude::*;

verus! {

/// Creates an encoder session under `id`, replacing any session already
/// live under that identifier (the new configuration wins).
pub fn new_encoder(
    reg: &mut SessionRegistry<EncoderSession>,
    id: u128,
    channel_count: usize,
    sampling_rate: usize,
    samples_per_message: usize,
)
    ensures
        final(reg)@ == old(reg)@.insert(
            id,
            (EncoderSession { channel_count, sampling_rate, samples_per_message }),
        ),
{
    reg.create(id, EncoderSession { channel_count, sampling_rate, samples_per_message });
}

/// Removes the encoder session under `id`; absence is not an error.
pub fn remove_encoder(reg: &mut SessionRegistry<EncoderSession>, id: u128)
    ensures
        final(reg)@ == old(reg)@.remove(id),
{
    reg.remove(id);
}

/// Looks up the configuration of the encoder session under `id`, so that the
/// caller can size the sample it marshals; `None` reports "not found".
pub fn encoder_config(reg: &SessionRegistry<EncoderSession>, id: u128) -> (r: Option<
    EncoderSession,
>)
    ensures
        match r {
            Some(cfg) => reg@.contains_key(id) && cfg == reg@[id],
            None => !reg@.contains_key(id),
        },
{
    match reg.get(id) {
        None => None,
        Some(s) => Some(*s),
    }
}

/// Creates a decoder session under `id` with an empty output set, replacing
/// any session already live under that identifier.
pub fn new_decoder(
    reg: &mut SessionRegistry<DecoderSession>,
    id: u128,
    channel_count: usize,
    sampling_rate: usize,
    samples_per_message: usize,
)
    ensures
        final(reg)@.contains_key(id),
        final(reg)@[id].channel_count == channel_count,
        final(reg)@[id].sampling_rate == sampling_rate,
        final(reg)@[id].samples_per_message == samples_per_message,
        final(reg)@[id].out@ == Seq::<JetstreamDatasetWithQuality>::empty(),
        final(reg)@.dom() == old(reg)@.dom().insert(id),
        forall|j: u128| j != id && old(reg)@.contains_key(j) ==> final(reg)@[j] == old(reg)@[j],
{
    let session = DecoderSession {
        channel_count,
        sampling_rate,
        samples_per_message,
        out: Vec::new(),
    };
    reg.create(id, session);
}

/// Removes the decoder session under `id`; absence is not an error. The
/// session's stored output set is destroyed with it.
pub fn remove_decoder(reg: &mut SessionRegistry<DecoderSession>, id: u128)
    ensures
        final(reg)@ == old(reg)@.remove(id),
{
    reg.remove(id);
}

/// Reports whether a decoder session is live under `id`.
pub fn has_decoder(reg: &SessionRegistry<DecoderSession>, id: u128) -> (r: bool)
    ensures
        r == reg@.contains_key(id),
{
    reg.contains(id)
}

/// Looks up the configuration (channel count, sampling rate, samples per
/// message) of the decoder session under `id`; `None` reports "not found".
pub fn decoder_config(reg: &SessionRegistry<DecoderSession>, id: u128) -> (r: Option<
    (usize, usize, usize),
>)
    ensures
        match r {
            Some(cfg) => reg@.contains_key(id) && cfg.0 == reg@[id].channel_count && cfg.1
                == reg@[id].sampling_rate && cfg.2 == reg@[id].samples_per_message,
            None => !reg@.contains_key(id),
        },
{
    match reg.get(id) {
        None => None,
        Some(s) => Some((s.channel_count, s.sampling_rate, s.samples_per_message)),
    }
}

/// The registry after a decode result is committed for `id`: the session's
/// output set is replaced whole by `data` (no accumulation across calls),
/// its configuration is kept, every other entry is untouched, and an unknown
/// identifier changes nothing.
pub open spec fn store_decoded_model(
    m: Map<u128, DecoderSession>,
    id: u128,
    data: Vec<JetstreamDatasetWithQuality>,
) -> Map<u128, DecoderSession> {
    if m.contains_key(id) {
        m.insert(
            id,
            (DecoderSession {
                channel_count: m[id].channel_count,
                sampling_rate: m[id].sampling_rate,
                samples_per_message: m[id].samples_per_message,
                out: data,
            }),
        )
    } else {
        m
    }
}

/// Commits the decoded output of one successful decode call to the session
/// under `id`, replacing whatever a prior call had stored. Returns whether
/// the session was found; an unknown identifier mutates nothing.
pub fn store_decoded(
    reg: &mut SessionRegistry<DecoderSession>,
    id: u128,
    data: Vec<JetstreamDatasetWithQuality>,
) -> (r: bool)
    ensures
        r == old(reg)@.contains_key(id),
        final(reg)@ == store_decoded_model(old(reg)@, id, data),
        !old(reg)@.contains_key(id) ==> final(reg)@ == old(reg)@,
{
    let (channel_count, sampling_rate, samples_per_message) = match reg.get(id) {
        None => {
            return false;
        },
        Some(sess) => (sess.channel_count, sess.sampling_rate, sess.samples_per_message),
    };
    reg.create(
        id,
        DecoderSession { channel_count, sampling_rate, samples_per_message, out: data },
    );
    true
}

/// The point a retrieval answers for `(id, sample_index, value_index)`: the
/// stored triple when the session is live and both indices are in range of
/// its current output set, and the `ok == false` sentinel otherwise.
pub open spec fn decoded_index_model(
    m: Map<u128, DecoderSession>,
    id: u128,
    sample_index: usize,
    value_index: usize,
) -> JetstreamDecodedIndexResult {
    if !m.contains_key(id) {
        JetstreamDecodedIndexResult::spec_not_ok()
    } else {
        let out = m[id].out@;
        if sample_index >= out.len() || value_index >= out[sample_index as int].i32s@.len()
            || value_index >= out[sample_index as int].q@.len() {
            JetstreamDecodedIndexResult::spec_not_ok()
        } else {
            JetstreamDecodedIndexResult {
                ok: true,
                t: out[sample_index as int].t,
                value: out[sample_index as int].i32s@[value_index as int],
                q: out[sample_index as int].q@[value_index as int],
            }
        }
    }
}

/// Returns the single decoded point at `(sample_index, value_index)` for the
/// session under `id`, or the zeroed `ok == false` sentinel when the session
/// is unknown or either index is out of range of the current output set
/// (including the empty set before any decode).
pub fn get_decoded_index(
    reg: &SessionRegistry<DecoderSession>,
    id: u128,
    sample_index: usize,
    value_index: usize,
) -> (r: JetstreamDecodedIndexResult)
    ensures
        r == decoded_index_model(reg@, id, sample_index, value_index),
{
    let sess = match reg.get(id) {
        None => {
            return JetstreamDecodedIndexResult::not_ok();
        },
        Some(s) => s,
    };
    if sample_index >= sess.out.len() {
        return JetstreamDecodedIndexResult::not_ok();
    }
    let sample = &sess.out[sample_index];
    if value_index >= sample.i32s.len() || value_index >= sample.q.len() {
        return JetstreamDecodedIndexResult::not_ok();
    }
    JetstreamDecodedIndexResult {
        ok: true,
        t: sample.t,
        value: sample.i32s[value_index],
        q: sample.q[value_index],
    }
}

/// Hands out the full decoded output set of the session under `id` for a
/// bulk copy, or `None` when the session is unknown.
pub fn get_decoded<'a>(reg: &'a SessionRegistry<DecoderSession>, id: u128) -> (r: Option<
    &'a Vec<JetstreamDatasetWithQuality>,
>)
    ensures
        match r {
            Some(out) => reg@.contains_key(id) && *out == reg@[id].out,
            None => !reg@.contains_key(id),
        },
{
    match reg.get(id) {
        None => None,
        Some(sess) => Some(&sess.out),
    }
}

/// What the boundary hands back for one codec encode outcome: when the codec
/// reports a completed message (a positive length its buffer covers), the
/// message's first `len` bytes with their length; for a codec failure, an
/// incomplete message (length zero), or a length the buffer does not cover,
/// the null sentinel.
pub open spec fn encode_result_matches(
    outcome: Option<(Vec<u8>, usize)>,
    r: JetstreamEncodeResult,
) -> bool {
    match outcome {
        None => r == JetstreamEncodeResult::spec_null(),
        Some(pair) => {
            let buf = pair.0;
            let len = pair.1;
            if 1 <= len && len <= buf@.len() {
                &&& r.len == len
                &&& match r.data {
                    Some(b) => b@ == buf@.subrange(0, len as int),
                    None => false,
                }
            } else {
                r == JetstreamEncodeResult::spec_null()
            }
        },
    }
}

/// Converts one codec encode outcome (`None` for a codec failure, otherwise
/// the codec's buffer and completed-message length) into the result the
/// foreign caller receives. Ownership of a returned buffer passes to the
/// caller; encode failures are non-fatal to the session.
pub fn encode_result(outcome: Option<(Vec<u8>, usize)>) -> (r: JetstreamEncodeResult)
    ensures
        encode_result_matches(outcome, r),
        r.wf(),
{
    match outcome {
        None => JetstreamEncodeResult::null(),
        Some((mut buf, len)) => {
            if 1 <= len && len <= buf.len() {
                buf.truncate(len);
                JetstreamEncodeResult { len, data: Some(buf) }
            } else {
                JetstreamEncodeResult::null()
            }
        },
    }
}

/// How a batch encode proceeds after one sample's codec outcome.
pub enum EncodeStep {
    /// The batch ends here; hand this result to the caller.
    Done(JetstreamEncodeResult),
    /// No message completed yet; feed the next sample, if any remain.
    NeedMore,
}

/// Decides how a batch encode proceeds after one sample's codec outcome:
/// a codec failure aborts the batch with the null sentinel, a completed
/// message ends it with that message's result, and an incomplete message
/// asks for the next sample.
pub fn encode_all_step(outcome: Option<(Vec<u8>, usize)>) -> (r: EncodeStep)
    ensures
        match outcome {
            None => r matches EncodeStep::Done(res) && res == JetstreamEncodeResult::spec_null(),
            Some(pair) => if pair.1 > 0 {
                r matches EncodeStep::Done(res) && encode_result_matches(outcome, res) && res.wf()
            } else {
                r == EncodeStep::NeedMore
            },
        },
{
    match outcome {
        None => EncodeStep::Done(JetstreamEncodeResult::null()),
        Some((buf, len)) => {
            if len > 0 {
                EncodeStep::Done(encode_result(Some((buf, len))))
            } else {
                EncodeStep::NeedMore
            }
        },
    }
}

} // verus!
