use vstd::prelude::*;
use crate::engine::CallView;
use crate::pipeline::{
    accepted, batch_plan, batch_plan_upto, channel_writes, channels_plan, contains_nan,
    frame_plan, previous_accepted, repair_frame, repaired, repairs, repairs_upto, Warning,
};
use crate::header::{valid_channel, valid_header, EDFHeader};
use crate::session::{state_after, SessionState};
use crate::writer::frequencies;
use crate::pipeline::batch_count_warnings;

verus! {

/// A frame repaired against itself is unchanged.
proof fn lemma_repair_against_itself(f: Seq<Seq<u64>>)
    ensures
        repair_frame(f, f) == f,
{
    assert(repair_frame(f, f) =~= f);
}

proof fn lemma_accepted_unchanged(b: Seq<Seq<Seq<u64>>>, i: nat)
    requires
        i < b.len(),
        forall|k: int| 0 <= k < b.len() ==> (#[trigger] b[k]).len() == b[0].len(),
        forall|k: int, c: int| 0 <= k < b.len() && 0 <= c < b[k].len() ==> !contains_nan(#[trigger] b[k][c]),
    ensures
        accepted(b, i) == b[i as int],
    decreases i,
{
    if i > 0 {
        lemma_accepted_unchanged(b, (i - 1) as nat);
    }
    let prev = previous_accepted(b, i);
    assert(prev.len() == b[i as int].len());
    assert(repair_frame(prev, b[i as int]) =~= b[i as int]);
}

/// A batch whose frames all have the first frame's channel count and hold no
/// not-a-number value is accepted unchanged.
pub proof fn lemma_repair_keeps_clean_batch(b: Seq<Seq<Seq<u64>>>)
    requires
        forall|k: int| 0 <= k < b.len() ==> (#[trigger] b[k]).len() == b[0].len(),
        forall|k: int, c: int| 0 <= k < b.len() && 0 <= c < b[k].len() ==> !contains_nan(#[trigger] b[k][c]),
    ensures
        repaired(b) == b,
{
    assert forall|i: int| 0 <= i < b.len() implies repaired(b)[i] == b[i] by {
        lemma_accepted_unchanged(b, i as nat);
    }
    assert(repaired(b) =~= b);
}

/// Whether frame `fr` holds one sequence per channel, each of exactly one period.
pub open spec fn well_shaped(freqs: Seq<i32>, fr: Seq<Seq<u64>>) -> bool {
    &&& fr.len() == freqs.len()
    &&& forall|c: int| 0 <= c < fr.len() ==> (#[trigger] fr[c]).len() == freqs[c]
}

proof fn lemma_accepted_well_shaped(freqs: Seq<i32>, b: Seq<Seq<Seq<u64>>>, i: nat)
    requires
        i < b.len(),
        forall|k: int| 0 <= k < b.len() ==> well_shaped(freqs, #[trigger] b[k]),
    ensures
        well_shaped(freqs, accepted(b, i)),
        well_shaped(freqs, previous_accepted(b, i)),
    decreases i,
{
    if i > 0 {
        lemma_accepted_well_shaped(freqs, b, (i - 1) as nat);
    }
    assert(well_shaped(freqs, b[i as int]));
}

proof fn lemma_one_period_one_write(freq: int, s: Seq<u64>, frame: usize, channel: usize)
    requires
        freq > 0,
        s.len() == freq,
    ensures
        channel_writes(freq, s, frame, channel) == seq![
            CallView::WriteSamples { frame, channel, samples: s },
        ],
{
    assert(s.len() as int / freq == 1) by (nonlinear_arith)
        requires
            s.len() == freq,
            freq > 0,
    ;
    assert(s.subrange(0, freq) =~= s);
    assert(channel_writes(freq, s, frame, channel) =~= seq![
        CallView::WriteSamples { frame, channel, samples: s },
    ]);
}

/// The writes of a well-shaped frame, one per channel in channel order.
pub open spec fn one_write_per_channel(fr: Seq<Seq<u64>>, frame: usize) -> Seq<CallView> {
    Seq::new(
        fr.len(),
        |c: int| CallView::WriteSamples { frame, channel: c as usize, samples: fr[c] },
    )
}

proof fn lemma_channels_one_write_each(freqs: Seq<i32>, fr: Seq<Seq<u64>>, frame: usize, n: nat)
    requires
        n <= fr.len(),
        well_shaped(freqs, fr),
        forall|c: int| 0 <= c < freqs.len() ==> #[trigger] freqs[c] > 0,
    ensures
        channels_plan(freqs, fr, frame, n) == Ok::<Seq<CallView>, crate::engine::EdfError>(
            one_write_per_channel(fr, frame).subrange(0, n as int),
        ),
    decreases n,
{
    if n > 0 {
        lemma_channels_one_write_each(freqs, fr, frame, (n - 1) as nat);
        let c = n - 1;
        assert(fr[c].len() == freqs[c]);
        assert(fr[c].len() as int % freqs[c] as int == 0) by (nonlinear_arith)
            requires
                fr[c].len() == freqs[c],
                freqs[c] > 0,
        ;
        lemma_one_period_one_write(freqs[c] as int, fr[c], frame, c as usize);
        assert(one_write_per_channel(fr, frame).subrange(0, c) + seq![
            CallView::WriteSamples { frame, channel: c as usize, samples: fr[c] },
        ] =~= one_write_per_channel(fr, frame).subrange(0, n as int));
    } else {
        assert(one_write_per_channel(fr, frame).subrange(0, 0) =~= seq![]);
    }
}

proof fn lemma_batch_writes(freqs: Seq<i32>, r: Seq<Seq<Seq<u64>>>, n: nat)
    requires
        n <= r.len(),
        forall|k: int| 0 <= k < r.len() ==> well_shaped(freqs, #[trigger] r[k]),
        forall|c: int| 0 <= c < freqs.len() ==> #[trigger] freqs[c] > 0,
    ensures
        batch_plan_upto(freqs, r, n) is Ok,
        batch_plan_upto(freqs, r, n)->Ok_0.len() == n * freqs.len(),
        forall|i: int, c: int|
            0 <= i < n && 0 <= c < freqs.len() ==> batch_plan_upto(freqs, r, n)->Ok_0[i * freqs.len()
                + c] == (CallView::WriteSamples { frame: i as usize, channel: c as usize, samples: r[i][c] }),
    decreases n,
{
    let m = freqs.len() as int;
    if n > 0 {
        let k = (n - 1) as nat;
        lemma_batch_writes(freqs, r, k);
        let p = batch_plan_upto(freqs, r, k)->Ok_0;
        assert(well_shaped(freqs, r[k as int]));
        lemma_channels_one_write_each(freqs, r[k as int], k as usize, m as nat);
        let q = one_write_per_channel(r[k as int], k as usize);
        assert(q.subrange(0, m) =~= q);
        assert(frame_plan(freqs, r[k as int], k as usize) == Ok::<Seq<CallView>, crate::engine::EdfError>(q));
        let all = p + q;
        assert(batch_plan_upto(freqs, r, n) == Ok::<Seq<CallView>, crate::engine::EdfError>(all));
        assert(all.len() == n * m) by (nonlinear_arith)
            requires
                all.len() == p.len() + q.len(),
                p.len() == k * m,
                q.len() == m,
                n == k + 1,
        ;
        assert forall|i: int, c: int| 0 <= i < n && 0 <= c < m implies all[i * m + c]
            == (CallView::WriteSamples { frame: i as usize, channel: c as usize, samples: r[i][c] }) by {
            if i < k {
                assert(i * m + c < k * m) by (nonlinear_arith)
                    requires
                        0 <= i < k,
                        0 <= c < m,
                ;
                assert(0 <= i * m + c) by (nonlinear_arith)
                    requires
                        0 <= i,
                        0 <= c,
                        m >= 0,
                ;
            } else {
                assert(i * m + c == k * m + c) by (nonlinear_arith)
                    requires
                        i == k,
                ;
            }
        }
    } else {
        assert(0 * m == 0) by (nonlinear_arith);
    }
}

/// A batch whose frames each hold one sequence per channel of exactly that
/// channel's sample frequency is written with exactly one engine write per
/// channel per frame, frame by frame and in channel order within a frame; each
/// write carries the accepted content of that channel.
pub proof fn lemma_clean_batch_one_write_per_channel(freqs: Seq<i32>, b: Seq<Seq<Seq<u64>>>)
    requires
        forall|c: int| 0 <= c < freqs.len() ==> #[trigger] freqs[c] > 0,
        forall|k: int| 0 <= k < b.len() ==> well_shaped(freqs, #[trigger] b[k]),
    ensures
        batch_plan(freqs, repaired(b)) is Ok,
        batch_plan(freqs, repaired(b))->Ok_0.len() == b.len() * freqs.len(),
        forall|i: int, c: int|
            0 <= i < b.len() && 0 <= c < freqs.len() ==> batch_plan(freqs, repaired(b))->Ok_0[i
                * freqs.len() + c] == (CallView::WriteSamples {
                frame: i as usize,
                channel: c as usize,
                samples: repaired(b)[i][c],
            }),
{
    let r = repaired(b);
    assert forall|k: int| 0 <= k < r.len() implies well_shaped(freqs, #[trigger] r[k]) by {
        lemma_accepted_well_shaped(freqs, b, k as nat);
    }
    lemma_batch_writes(freqs, r, r.len());
}

/// When the second frame's channel count differs from the first's, the first
/// frame is accepted twice and the replacement is reported last.
pub proof fn lemma_channel_count_change_repeats_previous(f0: Seq<Seq<u64>>, f1: Seq<Seq<u64>>)
    requires
        f0.len() != f1.len(),
    ensures
        repaired(seq![f0, f1]) == seq![f0, f0],
        repairs(seq![f0, f1]).last() == (Warning::FrameReplaced { frame: 1 }),
{
    let b = seq![f0, f1];
    lemma_repair_against_itself(f0);
    assert(accepted(b, 0) == f0);
    assert(accepted(b, 1) == f0);
    assert(repaired(b) =~= seq![f0, f0]);
    assert(repairs_upto(b, 2) == repairs_upto(b, 1) + seq![Warning::FrameReplaced { frame: 1 }]);
}

/// When two frames have the same channel count, each channel of the second is
/// accepted as given unless it holds a not-a-number value, in which case the
/// first frame's channel takes its place; other channels are unaffected.
pub proof fn lemma_nan_channel_takes_previous(f0: Seq<Seq<u64>>, f1: Seq<Seq<u64>>)
    requires
        f0.len() == f1.len(),
    ensures
        repaired(seq![f0, f1])[1] == Seq::new(
            f1.len(),
            |c: int| if contains_nan(f1[c]) { f0[c] } else { f1[c] },
        ),
{
    let b = seq![f0, f1];
    lemma_repair_against_itself(f0);
    assert(accepted(b, 0) == f0);
    assert(accepted(b, 1) == repair_frame(f0, f1));
}

/// A close answered with any status leaves the session closed, so a second
/// finish makes no engine call.
pub proof fn lemma_close_always_releases(st: SessionState, status: i32)
    ensures
        state_after(st, CallView::Close, status) == SessionState::Closed,
{
}

proof fn lemma_valid_header_frequencies(h: EDFHeader)
    requires
        valid_header(h),
    ensures
        forall|c: int| 0 <= c < frequencies(h.channels@).len() ==> #[trigger] frequencies(h.channels@)[c] > 0,
{
    assert forall|c: int| 0 <= c < frequencies(h.channels@).len() implies #[trigger] frequencies(
        h.channels@,
    )[c] > 0 by {
        assert(valid_channel(h.channels@[c]));
    }
}

/// For a valid header, a batch whose frames each hold one sequence per channel
/// of exactly that channel's sample frequency, with no not-a-number value, is
/// written with exactly one engine write per channel per frame, frame by frame
/// and in channel order within a frame, each carrying that channel's samples as
/// given.
pub proof fn lemma_valid_header_clean_batch(h: EDFHeader, b: Seq<Seq<Seq<u64>>>)
    requires
        valid_header(h),
        forall|k: int| 0 <= k < b.len() ==> well_shaped(frequencies(h.channels@), #[trigger] b[k]),
        forall|k: int, c: int| 0 <= k < b.len() && 0 <= c < b[k].len() ==> !contains_nan(#[trigger] b[k][c]),
    ensures
        batch_plan(frequencies(h.channels@), repaired(b)) is Ok,
        batch_plan(frequencies(h.channels@), repaired(b))->Ok_0.len() == b.len() * h.channels@.len(),
        forall|i: int, c: int|
            0 <= i < b.len() && 0 <= c < h.channels@.len() ==> batch_plan(
                frequencies(h.channels@),
                repaired(b),
            )->Ok_0[i * h.channels@.len() + c] == (CallView::WriteSamples {
                frame: i as usize,
                channel: c as usize,
                samples: b[i][c],
            }),
{
    let freqs = frequencies(h.channels@);
    lemma_valid_header_frequencies(h);
    if b.len() > 0 {
        assert(well_shaped(freqs, b[0]));
        assert forall|k: int| 0 <= k < b.len() implies (#[trigger] b[k]).len() == b[0].len() by {
            assert(well_shaped(freqs, b[k]));
        }
    }
    lemma_repair_keeps_clean_batch(b);
    lemma_clean_batch_one_write_per_channel(freqs, b);
}

/// For a valid header and a first frame that fits it, a second frame with
/// another channel count is not written: the first frame's channels are written
/// once for each of the two frames, one write per channel, and the warnings
/// name the second frame as replaced.
pub proof fn lemma_valid_header_channel_count_change(h: EDFHeader, f0: Seq<Seq<u64>>, f1: Seq<Seq<u64>>)
    requires
        valid_header(h),
        well_shaped(frequencies(h.channels@), f0),
        f1.len() != f0.len(),
    ensures
        batch_plan(frequencies(h.channels@), repaired(seq![f0, f1])) == Ok::<
            Seq<CallView>,
            crate::engine::EdfError,
        >(one_write_per_channel(f0, 0) + one_write_per_channel(f0, 1)),
        (repairs(seq![f0, f1]) + batch_count_warnings(
            frequencies(h.channels@),
            repaired(seq![f0, f1]),
            2,
        )).contains(Warning::FrameReplaced { frame: 1 }),
{
    let freqs = frequencies(h.channels@);
    let b = seq![f0, f1];
    lemma_valid_header_frequencies(h);
    lemma_channel_count_change_repeats_previous(f0, f1);
    let r = repaired(b);
    assert(r[0] == f0 && r[1] == f0);
    let m = f0.len();
    lemma_channels_one_write_each(freqs, f0, 0, m);
    lemma_channels_one_write_each(freqs, f0, 1, m);
    assert(one_write_per_channel(f0, 0).subrange(0, m as int) =~= one_write_per_channel(f0, 0));
    assert(one_write_per_channel(f0, 1).subrange(0, m as int) =~= one_write_per_channel(f0, 1));
    assert(batch_plan_upto(freqs, r, 0) == Ok::<Seq<CallView>, crate::engine::EdfError>(seq![]));
    assert(seq![] + one_write_per_channel(f0, 0) =~= one_write_per_channel(f0, 0));
    assert(batch_plan_upto(freqs, r, 1) == Ok::<Seq<CallView>, crate::engine::EdfError>(
        one_write_per_channel(f0, 0),
    ));
    let rep = repairs(b);
    let all = rep + batch_count_warnings(freqs, r, 2);
    assert(rep.len() > 0);
    assert(all[rep.len() - 1] == rep.last());
}

} // verus!
