//! The pipeline's stated laws, proved from the session invariant and the
//! step functions' contracts.

use vstd::prelude::*;
use crate::packet::Packet;
use crate::source::FFMpegSource;
use crate::source::RunState;
use crate::source::WorkerState;
use crate::source::deliver_count;
use crate::source::run_fold;
use crate::source::spec_gate_after;
use crate::source::spec_stop;

verus! {

/// Ordering law: consumers observe envelopes in emission order. What a
/// consumer has received so far is exactly a prefix of the emission log —
/// position by position — so nothing is reordered across packets.
pub proof fn lemma_delivery_order(s: FFMpegSource)
    requires
        s.well_formed(),
    ensures
        s.taken@.len() <= s.emitted@.len(),
        forall|i: int| 0 <= i < s.taken@.len() ==> s.taken@[i] == s.emitted@[i],
{
    assert forall|i: int| 0 <= i < s.taken@.len() implies s.taken@[i] == s.emitted@[i] by {
        assert(s.emitted@[i] == (s.taken@ + s.queue@)[i]);
    }
}

/// The keyframe gate's armed state after a whole sequence of sync-point
/// flags, starting from an armed gate.
pub open spec fn gate_armed_after(key_framed: bool, keys: Seq<bool>) -> bool
    decreases keys.len(),
{
    if keys.len() == 0 {
        true
    } else {
        spec_gate_after(gate_armed_after(key_framed, keys.drop_last()), key_framed, keys.last())
    }
}

/// Whether packet `i` of a stream with these sync-point flags passes
/// the keyframe gate.
pub open spec fn gate_admits_at(key_framed: bool, keys: Seq<bool>, i: int) -> bool
    recommends
        0 <= i < keys.len(),
{
    !gate_armed_after(key_framed, keys.take(i + 1))
}

/// Keyframe-gate law: on a key-framed stream, a packet is admitted exactly
/// when a sync point has occurred at or before it — so nothing preceding
/// the first sync point ever passes; on any other stream, every packet is
/// admitted, the very first included.
pub proof fn lemma_keyframe_gate(key_framed: bool, keys: Seq<bool>, i: int)
    requires
        0 <= i < keys.len(),
    ensures
        key_framed ==> (gate_admits_at(true, keys, i) <==> exists|j: int|
            0 <= j <= i && keys[j]),
        !key_framed ==> gate_admits_at(false, keys, i),
    decreases i,
{
    assert(keys.take(i + 1).drop_last() =~= keys.take(i));
    assert(keys.take(i + 1).last() == keys[i]);
    if key_framed {
        if i == 0 {
            assert(gate_armed_after(true, keys.take(0)) == true);
            if keys[0] {
                assert(gate_admits_at(true, keys, 0));
            }
        } else {
            lemma_keyframe_gate(true, keys, i - 1);
            if gate_admits_at(true, keys, i) {
                if keys[i] {
                } else {
                    assert(gate_admits_at(true, keys, i - 1));
                    let j = choose|j: int| 0 <= j <= i - 1 && keys[j];
                    assert(0 <= j <= i && keys[j]);
                }
            } else {
                assert(!keys[i]);
                assert(!gate_admits_at(true, keys, i - 1));
                assert forall|j: int| 0 <= j <= i implies !keys[j] by {
                    if j < i {
                        assert(!(0 <= j <= i - 1 && keys[j]));
                    }
                }
            }
        }
    }
}

/// Run-level ordering law: a streaming run only ever appends to the
/// emission log — what was emitted before the run stands unchanged, as a
/// prefix, after it — so envelopes of later packets always follow
/// envelopes of earlier ones.
pub proof fn lemma_run_append_only(
    w: WorkerState,
    block: bool,
    cap: int,
    closed: bool,
    received_ts: i64,
    processed_ts: i64,
    st: RunState,
    packets: Seq<Packet>,
)
    ensures
        ({
            let stn = run_fold(w, block, cap, closed, received_ts, processed_ts, st, packets);
            &&& st.emitted.len() <= stn.emitted.len()
            &&& stn.emitted.take(st.emitted.len() as int) == st.emitted
        }),
    decreases packets.len(),
{
    if packets.len() == 0 {
        let stn = run_fold(w, block, cap, closed, received_ts, processed_ts, st, packets);
        assert(stn.emitted.take(st.emitted.len() as int) =~= st.emitted);
    } else {
        lemma_run_append_only(
            w,
            block,
            cap,
            closed,
            received_ts,
            processed_ts,
            st,
            packets.drop_last(),
        );
        let stp = run_fold(
            w,
            block,
            cap,
            closed,
            received_ts,
            processed_ts,
            st,
            packets.drop_last(),
        );
        let stn = run_fold(w, block, cap, closed, received_ts, processed_ts, st, packets);
        assert(stn.emitted.take(stp.emitted.len() as int) =~= stp.emitted);
        assert(stn.emitted.take(st.emitted.len() as int) =~= st.emitted);
    }
}

/// Skip-counter law: along the emission order the embedded drop counter
/// never decreases, and it never exceeds the session's current counter —
/// a later envelope always reports at least as many drops as an earlier
/// one.
pub proof fn lemma_skip_counter_monotone(s: FFMpegSource, i: int, j: int)
    requires
        s.well_formed(),
        0 <= i <= j < s.emitted@.len(),
    ensures
        s.emitted@[i].queue_full_skipped_count <= s.emitted@[j].queue_full_skipped_count,
        s.emitted@[j].queue_full_skipped_count <= s.queue_full_skipped_count,
{
}

/// Block-mode zero-loss law: under the block policy the enqueue step
/// delivers every frame it is offered — the delivery count equals the
/// frame count whatever the occupancy and capacity — and a block-mode
/// session's skip counter stays 0 for its whole life.
pub proof fn lemma_block_mode_zero_loss(s: FFMpegSource, cap: int, len0: int, n: int)
    requires
        s.well_formed(),
        s.block_if_queue_full,
    ensures
        deliver_count(true, cap, len0, n) == n,
        s.queue_full_skipped_count == 0,
{
}

/// Idempotent-stop law: stopping a stopped session changes nothing, so
/// any number of `stop` calls leaves exactly the one stopped session, and
/// a stopped session reports itself as not running.
pub proof fn lemma_stop_idempotent(s: FFMpegSource)
    ensures
        spec_stop(spec_stop(s)) == spec_stop(s),
        spec_stop(s).exit_signal,
{
}

/// Timestamp-bracket law: every emitted envelope's processed timestamp is
/// at or after its received timestamp.
pub proof fn lemma_timestamp_bracket(s: FFMpegSource, i: int)
    requires
        s.well_formed(),
        0 <= i < s.emitted@.len(),
    ensures
        s.emitted@[i].frame_processed_ts >= s.emitted@[i].frame_received_ts,
{
}

} // verus!
