//! The laws of the registry and of the boundary protocol, proved over the
//! same map model that the operations' contracts are stated in.

use crate::boundary::decoded_index_model;
use crate::boundary::store_decoded_model;
use crate::sample::DecoderSession;
use crate::sample::JetstreamDatasetWithQuality;
use crate::sample::JetstreamDecodedIndexResult;
use vstd::prelude::*;

verus! {

/// Registry correctness: once a session created under `id` has been removed
/// again, no lookup under `id` finds anything; the registry is exactly what
/// removing `id` from the original registry leaves.
pub proof fn lemma_create_then_remove<S>(m: Map<u128, S>, id: u128, session: S)
    ensures
        !m.insert(id, session).remove(id).contains_key(id),
        m.insert(id, session).remove(id) =~= m.remove(id),
{
}

/// Replace on duplicate: creating a second session under an identifier that
/// is already live leaves exactly one session reachable under it, the
/// second one.
pub proof fn lemma_replace_on_duplicate<S>(m: Map<u128, S>, id: u128, first: S, second: S)
    ensures
        m.insert(id, first).insert(id, second) =~= m.insert(id, second),
        m.insert(id, first).insert(id, second)[id] == second,
{
}

/// Isolation: creating, replacing or removing a session under `i` neither
/// observes nor changes what is stored under any other identifier `j`.
pub proof fn lemma_isolation<S>(m: Map<u128, S>, i: u128, j: u128, session: S)
    requires
        i != j,
    ensures
        m.insert(i, session).contains_key(j) == m.contains_key(j),
        m.contains_key(j) ==> m.insert(i, session)[j] == m[j],
        m.remove(i).contains_key(j) == m.contains_key(j),
        m.contains_key(j) ==> m.remove(i)[j] == m[j],
{
}

/// Isolation of decode commits: committing decoded output under `i` neither
/// observes nor changes the session under any other identifier `j`.
pub proof fn lemma_store_isolation(
    m: Map<u128, DecoderSession>,
    i: u128,
    j: u128,
    data: Vec<JetstreamDatasetWithQuality>,
)
    requires
        i != j,
    ensures
        store_decoded_model(m, i, data).contains_key(j) == m.contains_key(j),
        m.contains_key(j) ==> store_decoded_model(m, i, data)[j] == m[j],
{
}

/// Decode overwrite: two successive commits to one session leave exactly the
/// second commit's output retrievable, as if the first had never happened.
pub proof fn lemma_decode_overwrite(
    m: Map<u128, DecoderSession>,
    id: u128,
    first: Vec<JetstreamDatasetWithQuality>,
    second: Vec<JetstreamDatasetWithQuality>,
)
    ensures
        store_decoded_model(store_decoded_model(m, id, first), id, second)
            =~= store_decoded_model(m, id, second),
        m.contains_key(id) ==> store_decoded_model(store_decoded_model(m, id, first), id, second)[id].out
            == second,
{
}

/// Unknown-identifier safety: removing or committing under an identifier
/// that was never created changes nothing.
pub proof fn lemma_unknown_id_no_mutation(
    m: Map<u128, DecoderSession>,
    id: u128,
    data: Vec<JetstreamDatasetWithQuality>,
)
    requires
        !m.contains_key(id),
    ensures
        store_decoded_model(m, id, data) == m,
        m.remove(id) =~= m,
{
}

/// Owed success on retrieval: when the session is live, the sample index is
/// within its output set, the stored sample is well formed for the session's
/// channel count, and the channel index is below that count, retrieval
/// answers exactly the stored triple.
pub proof fn lemma_wf_sample_retrieval(
    m: Map<u128, DecoderSession>,
    id: u128,
    sample_index: usize,
    value_index: usize,
)
    requires
        m.contains_key(id),
        sample_index < m[id].out@.len(),
        m[id].out@[sample_index as int].wf(m[id].channel_count),
        value_index < m[id].channel_count,
    ensures
        decoded_index_model(m, id, sample_index, value_index) == (JetstreamDecodedIndexResult {
            ok: true,
            t: m[id].out@[sample_index as int].t,
            value: m[id].out@[sample_index as int].i32s@[value_index as int],
            q: m[id].out@[sample_index as int].q@[value_index as int],
        }),
{
}

/// Bounds checking on retrieval: whenever the session is unknown, or either
/// index lies at or beyond the current output set (including the empty set
/// before any decode), retrieval answers the zeroed sentinel.
pub proof fn lemma_retrieval_bounds(
    m: Map<u128, DecoderSession>,
    id: u128,
    sample_index: usize,
    value_index: usize,
)
    requires
        m.contains_key(id) ==> {
            let out = m[id].out@;
            sample_index >= out.len() || value_index >= out[sample_index as int].i32s@.len()
                || value_index >= out[sample_index as int].q@.len()
        },
    ensures
        decoded_index_model(m, id, sample_index, value_index)
            == JetstreamDecodedIndexResult::spec_not_ok(),
{
}

} // verus!
