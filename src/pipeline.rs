use vstd::prelude::*;
use crate::engine::{CallView, EdfError, EngineCall};
use vstd::arithmetic::div_mod::{lemma_div_multiples_vanish, lemma_fundamental_div_mod};

verus! {

/// Whether a binary64 bit pattern encodes a not-a-number value: all exponent
/// bits set and a non-zero fraction.
pub open spec fn is_nan_bits(bits: u64) -> bool {
    &&& (bits >> 52u64) & 0x7ffu64 == 0x7ffu64
    &&& bits & 0xfffffffffffffu64 != 0
}

/// Whether a sample sequence holds a not-a-number value.
pub open spec fn contains_nan(s: Seq<u64>) -> bool {
    exists|i: int| 0 <= i < s.len() && is_nan_bits(#[trigger] s[i])
}

/// A frame as a sequence of per-channel sample sequences.
pub open spec fn frame_view(f: Vec<Vec<u64>>) -> Seq<Seq<u64>> {
    f@.map_values(|c: Vec<u64>| c@)
}

/// A batch as a sequence of frames.
pub open spec fn batch_view(b: Vec<Vec<Vec<u64>>>) -> Seq<Seq<Seq<u64>>> {
    b@.map_values(|f: Vec<Vec<u64>>| frame_view(f))
}

/// A list of engine calls by value.
pub open spec fn calls_view(v: Seq<EngineCall>) -> Seq<CallView> {
    v.map_values(|c: EngineCall| c@)
}

/// Frame `f` as accepted after `prev`: a frame whose channel count differs is
/// replaced whole by `prev`; otherwise each channel holding a not-a-number value
/// is replaced by the same channel of `prev`.
pub open spec fn repair_frame(prev: Seq<Seq<u64>>, f: Seq<Seq<u64>>) -> Seq<Seq<u64>> {
    if f.len() != prev.len() {
        prev
    } else {
        Seq::new(f.len(), |c: int| if contains_nan(f[c]) { prev[c] } else { f[c] })
    }
}

/// The frame that frame `i` of batch `b` is repaired against: the batch's first
/// frame for `i == 0`, else the accepted frame `i - 1`.
pub open spec fn previous_accepted(b: Seq<Seq<Seq<u64>>>, i: nat) -> Seq<Seq<u64>>
    decreases i, 0nat,
{
    if i == 0 {
        b[0]
    } else {
        accepted(b, (i - 1) as nat)
    }
}

/// The accepted content of frame `i` of batch `b`.
pub open spec fn accepted(b: Seq<Seq<Seq<u64>>>, i: nat) -> Seq<Seq<u64>>
    decreases i, 1nat,
{
    repair_frame(previous_accepted(b, i), b[i as int])
}

/// The batch `b` with every frame repaired.
pub open spec fn repaired(b: Seq<Seq<Seq<u64>>>) -> Seq<Seq<Seq<u64>>> {
    Seq::new(b.len(), |i: int| accepted(b, i as nat))
}

/// A non-fatal irregularity met while writing frames.
#[derive(Debug, Clone, Copy, PartialEq, Eq, Structural)]
pub enum Warning {
    /// The frame's channel count differed; the previous accepted frame was used.
    FrameReplaced { frame: usize },
    /// The channel held a not-a-number value; the previous accepted frame's
    /// channel was used.
    ChannelReplaced { frame: usize, channel: usize },
    /// The channel's sample count differs from its declared frequency; it is
    /// written as given.
    SampleCountMismatch { frame: usize, channel: usize, found: usize },
}

/// The channel substitutions among the first `n` channels of frame `f`, number `i`.
pub open spec fn channel_repairs(f: Seq<Seq<u64>>, i: usize, n: nat) -> Seq<Warning>
    decreases n,
{
    if n == 0 {
        seq![]
    } else {
        channel_repairs(f, i, (n - 1) as nat) + if contains_nan(f[n - 1]) {
            seq![Warning::ChannelReplaced { frame: i, channel: (n - 1) as usize }]
        } else {
            seq![]
        }
    }
}

/// The substitutions made when frame `f`, number `i`, is accepted after `prev`.
pub open spec fn frame_repairs(prev: Seq<Seq<u64>>, f: Seq<Seq<u64>>, i: usize) -> Seq<Warning> {
    if f.len() != prev.len() {
        seq![Warning::FrameReplaced { frame: i }]
    } else {
        channel_repairs(f, i, f.len())
    }
}

/// The substitutions made in the first `n` frames of batch `b`, in order.
pub open spec fn repairs_upto(b: Seq<Seq<Seq<u64>>>, n: nat) -> Seq<Warning>
    decreases n,
{
    if n == 0 {
        seq![]
    } else {
        repairs_upto(b, (n - 1) as nat) + frame_repairs(
            previous_accepted(b, (n - 1) as nat),
            b[n - 1],
            (n - 1) as usize,
        )
    }
}

/// The substitutions made in batch `b`, in order.
pub open spec fn repairs(b: Seq<Seq<Seq<u64>>>) -> Seq<Warning> {
    repairs_upto(b, b.len())
}

/// Whether a bit pattern encodes a not-a-number value.
pub fn is_nan(bits: u64) -> (r: bool)
    ensures
        r == is_nan_bits(bits),
{
    (bits >> 52u64) & 0x7ffu64 == 0x7ffu64 && bits & 0xfffffffffffffu64 != 0
}

/// Whether a sample sequence holds a not-a-number value.
pub fn has_nan(samples: &Vec<u64>) -> (r: bool)
    ensures
        r == contains_nan(samples@),
{
    let mut i: usize = 0;
    while i < samples.len()
        invariant
            i <= samples.len(),
            forall|k: int| 0 <= k < i ==> !is_nan_bits(#[trigger] samples@[k]),
        decreases samples.len() - i,
    {
        if is_nan(samples[i]) {
            return true;
        }
        i += 1;
    }
    false
}

fn copy_samples(s: &Vec<u64>) -> (r: Vec<u64>)
    ensures
        r@ == s@,
{
    let mut r: Vec<u64> = Vec::new();
    let mut i: usize = 0;
    while i < s.len()
        invariant
            i <= s.len(),
            r@ == s@.subrange(0, i as int),
        decreases s.len() - i,
    {
        r.push(s[i]);
        i += 1;
        assert(r@ =~= s@.subrange(0, i as int));
    }
    assert(r@ =~= s@);
    r
}

fn copy_frame(f: &Vec<Vec<u64>>) -> (r: Vec<Vec<u64>>)
    ensures
        frame_view(r) == frame_view(*f),
{
    let mut r: Vec<Vec<u64>> = Vec::new();
    let mut i: usize = 0;
    while i < f.len()
        invariant
            i <= f.len(),
            r.len() == i,
            forall|k: int| 0 <= k < i ==> (#[trigger] r@[k])@ == f@[k]@,
        decreases f.len() - i,
    {
        let c = copy_samples(&f[i]);
        r.push(c);
        i += 1;
    }
    assert(frame_view(r) =~= frame_view(*f));
    r
}

/// Frame `f`, number `idx`, as accepted after `prev`; the substitutions made
/// are appended to `log`.
fn repair_one(prev: &Vec<Vec<u64>>, f: &Vec<Vec<u64>>, idx: usize, log: &mut Vec<Warning>) -> (r: Vec<
    Vec<u64>,
>)
    ensures
        frame_view(r) == repair_frame(frame_view(*prev), frame_view(*f)),
        final(log)@ == old(log)@ + frame_repairs(frame_view(*prev), frame_view(*f), idx),
{
    let ghost pv = frame_view(*prev);
    let ghost fv = frame_view(*f);
    if f.len() != prev.len() {
        log.push(Warning::FrameReplaced { frame: idx });
        return copy_frame(prev);
    }
    let mut r: Vec<Vec<u64>> = Vec::new();
    let mut c: usize = 0;
    while c < f.len()
        invariant
            c <= f.len(),
            f.len() == prev.len(),
            pv == frame_view(*prev),
            fv == frame_view(*f),
            r.len() == c,
            forall|k: int|
                0 <= k < c ==> (#[trigger] r@[k])@ == if contains_nan(fv[k]) {
                    pv[k]
                } else {
                    fv[k]
                },
            log@ == old(log)@ + channel_repairs(fv, idx, c as nat),
        decreases f.len() - c,
    {
        if has_nan(&f[c]) {
            log.push(Warning::ChannelReplaced { frame: idx, channel: c });
            r.push(copy_samples(&prev[c]));
        } else {
            r.push(copy_samples(&f[c]));
        }
        c += 1;
        assert(log@ =~= old(log)@ + channel_repairs(fv, idx, c as nat));
    }
    assert(frame_view(r) =~= repair_frame(pv, fv));
    r
}

/// Repairs a batch of frames in place and returns the substitutions made, in
/// order. Each frame is checked against the previous accepted frame (the first
/// frame for the first): a frame of another channel count is replaced whole, and
/// each channel holding a not-a-number value takes the previous frame's channel.
pub fn repair_frames(frames: &mut Vec<Vec<Vec<u64>>>) -> (log: Vec<Warning>)
    ensures
        batch_view(*final(frames)) == repaired(batch_view(*old(frames))),
        log@ == repairs(batch_view(*old(frames))),
{
    let ghost b = batch_view(*frames);
    let mut log: Vec<Warning> = Vec::new();
    if frames.len() == 0 {
        assert(batch_view(*frames) =~= repaired(b));
        return log;
    }
    let mut out: Vec<Vec<Vec<u64>>> = Vec::new();
    let mut prev = copy_frame(&frames[0]);
    let mut i: usize = 0;
    while i < frames.len()
        invariant
            i <= frames.len(),
            frames.len() > 0,
            b == batch_view(*frames),
            b.len() == frames.len(),
            out.len() == i,
            forall|k: int| 0 <= k < i ==> frame_view(#[trigger] out@[k]) == accepted(b, k as nat),
            frame_view(prev) == previous_accepted(b, i as nat),
            log@ == repairs_upto(b, i as nat),
        decreases frames.len() - i,
    {
        let r = repair_one(&prev, &frames[i], i, &mut log);
        assert(frame_view(r) == accepted(b, i as nat));
        out.push(copy_frame(&r));
        prev = r;
        i += 1;
    }
    assert(batch_view(out) =~= repaired(b));
    *frames = out;
    log
}

/// The record writes for one channel: its samples cut into consecutive pieces of
/// `freq` samples, one write per piece.
pub open spec fn channel_writes(freq: int, s: Seq<u64>, frame: usize, channel: usize) -> Seq<CallView> {
    Seq::new(
        ((s.len() as int) / freq) as nat,
        |k: int|
            CallView::WriteSamples {
                frame,
                channel,
                samples: s.subrange(k * freq, k * freq + freq),
            },
    )
}

/// Whether `len` samples make a whole number of record periods of `freq` samples.
pub open spec fn whole_periods(freq: int, len: int) -> bool {
    freq > 0 && len % freq == 0
}

/// The writes for the first `n` channels of frame `fr`, number `frame`, or the
/// shape error of the first channel that is not a whole number of periods.
pub open spec fn channels_plan(freqs: Seq<i32>, fr: Seq<Seq<u64>>, frame: usize, n: nat) -> Result<
    Seq<CallView>,
    EdfError,
>
    decreases n,
{
    if n == 0 {
        Ok(seq![])
    } else {
        match channels_plan(freqs, fr, frame, (n - 1) as nat) {
            Err(e) => Err(e),
            Ok(p) => if whole_periods(freqs[n - 1] as int, fr[n - 1].len() as int) {
                Ok(p + channel_writes(freqs[n - 1] as int, fr[n - 1], frame, (n - 1) as usize))
            } else {
                Err(EdfError::ShapeError { frame, channel: (n - 1) as usize })
            },
        }
    }
}

/// The writes for frame `fr`, number `frame`, channel by channel, against the
/// channels' sample frequencies `freqs`.
pub open spec fn frame_plan(freqs: Seq<i32>, fr: Seq<Seq<u64>>, frame: usize) -> Result<
    Seq<CallView>,
    EdfError,
> {
    if fr.len() != freqs.len() {
        Err(EdfError::ChannelCountError { frame, found: fr.len() as usize })
    } else {
        channels_plan(freqs, fr, frame, fr.len())
    }
}

/// The writes for the first `n` frames of batch `b`, frame by frame, or the
/// first error among them.
pub open spec fn batch_plan_upto(freqs: Seq<i32>, b: Seq<Seq<Seq<u64>>>, n: nat) -> Result<
    Seq<CallView>,
    EdfError,
>
    decreases n,
{
    if n == 0 {
        Ok(seq![])
    } else {
        match batch_plan_upto(freqs, b, (n - 1) as nat) {
            Err(e) => Err(e),
            Ok(p) => match frame_plan(freqs, b[n - 1], (n - 1) as usize) {
                Err(e) => Err(e),
                Ok(q) => Ok(p + q),
            },
        }
    }
}

/// The writes for batch `b`, or the first error in it.
pub open spec fn batch_plan(freqs: Seq<i32>, b: Seq<Seq<Seq<u64>>>) -> Result<Seq<CallView>, EdfError> {
    batch_plan_upto(freqs, b, b.len())
}

proof fn lemma_next_period(k: int, freq: int, len: int)
    requires
        freq > 0,
        len % freq == 0,
        k >= 0,
        k * freq < len,
    ensures
        k < len / freq,
        k * freq + freq <= len,
{
    let q = len / freq;
    lemma_fundamental_div_mod(len, freq);
    assert(len == freq * q);
    assert(k < q) by (nonlinear_arith)
        requires
            k * freq < freq * q,
            freq > 0,
    {
    }
    assert(k * freq + freq <= len) by (nonlinear_arith)
        requires
            k < q,
            len == freq * q,
            freq > 0,
    {
    }
}

/// Appends the writes for one channel: one per period of `freq` samples.
pub fn push_channel_writes(
    calls: &mut Vec<EngineCall>,
    freq: usize,
    s: &Vec<u64>,
    frame: usize,
    channel: usize,
)
    requires
        whole_periods(freq as int, s@.len() as int),
    ensures
        calls_view(final(calls)@) == calls_view(old(calls)@) + channel_writes(
            freq as int,
            s@,
            frame,
            channel,
        ),
{
    let ghost base = calls_view(calls@);
    let ghost w = channel_writes(freq as int, s@, frame, channel);
    let mut start: usize = 0;
    let ghost mut k: int = 0;
    while start < s.len()
        invariant
            whole_periods(freq as int, s@.len() as int),
            start == k * freq,
            start <= s.len(),
            0 <= k <= w.len(),
            w == channel_writes(freq as int, s@, frame, channel),
            calls_view(calls@) =~= base + w.subrange(0, k),
        decreases s.len() - start,
    {
        proof {
            lemma_next_period(k, freq as int, s@.len() as int);
        }
        let mut chunk: Vec<u64> = Vec::new();
        let mut j: usize = start;
        while j < start + freq
            invariant
                start <= j <= start + freq,
                start + freq <= s.len(),
                chunk@ =~= s@.subrange(start as int, j as int),
            decreases start + freq - j,
        {
            chunk.push(s[j]);
            j += 1;
        }
        let ghost before = calls@;
        let call = EngineCall::WriteSamples { frame, channel, samples: chunk };
        let ghost cv = call@;
        calls.push(call);
        start += freq;
        proof {
            assert(calls_view(calls@) =~= calls_view(before).push(cv));
            assert(w[k] == CallView::WriteSamples {
                frame,
                channel,
                samples: s@.subrange(k * freq, k * freq + freq),
            });
            k = k + 1;
            assert(start == k * freq) by (nonlinear_arith)
                requires
                    start == (k - 1) * freq + freq,
            {
            }
            assert(calls_view(calls@) =~= base + w.subrange(0, k));
        }
    }
    proof {
        lemma_div_multiples_vanish(k, freq as int);
        assert(k * freq == freq * k) by (nonlinear_arith);
        assert(k == w.len());
        assert(w.subrange(0, k) =~= w);
    }
}

proof fn lemma_channels_error_persists(freqs: Seq<i32>, fr: Seq<Seq<u64>>, frame: usize, n: nat, m: nat)
    requires
        n <= m,
        channels_plan(freqs, fr, frame, n) is Err,
    ensures
        channels_plan(freqs, fr, frame, m) == channels_plan(freqs, fr, frame, n),
    decreases m - n,
{
    if n < m {
        lemma_channels_error_persists(freqs, fr, frame, n, (m - 1) as nat);
    }
}

proof fn lemma_batch_error_persists(freqs: Seq<i32>, b: Seq<Seq<Seq<u64>>>, n: nat, m: nat)
    requires
        n <= m,
        batch_plan_upto(freqs, b, n) is Err,
    ensures
        batch_plan_upto(freqs, b, m) == batch_plan_upto(freqs, b, n),
    decreases m - n,
{
    if n < m {
        lemma_batch_error_persists(freqs, b, n, (m - 1) as nat);
    }
}

/// Appends the writes for frame `fr`, number `frame`, given the channels'
/// sample frequencies; on a shape error nothing is appended.
pub fn plan_frame(freqs: &Vec<i32>, fr: &Vec<Vec<u64>>, frame: usize, calls: &mut Vec<EngineCall>) -> (r:
    Result<(), EdfError>)
    ensures
        match frame_plan(freqs@, frame_view(*fr), frame) {
            Ok(p) => r is Ok && calls_view(final(calls)@) == calls_view(old(calls)@) + p,
            Err(e) => r == Err::<(), EdfError>(e) && final(calls)@ == old(calls)@,
        },
{
    let ghost fv = frame_view(*fr);
    if fr.len() != freqs.len() {
        return Err(EdfError::ChannelCountError { frame, found: fr.len() });
    }
    let mut planned: Vec<EngineCall> = Vec::new();
    let mut c: usize = 0;
    assert(calls_view(planned@) =~= seq![]);
    while c < fr.len()
        invariant
            c <= fr.len(),
            fr.len() == freqs.len(),
            fv == frame_view(*fr),
            channels_plan(freqs@, fv, frame, c as nat) is Ok,
            calls_view(planned@) == channels_plan(freqs@, fv, frame, c as nat)->Ok_0,
        decreases fr.len() - c,
    {
        let f = freqs[c];
        if f <= 0 || fr[c].len() % (f as usize) != 0 {
            proof {
                assert(fv[c as int] == fr@[c as int]@);
                lemma_channels_error_persists(freqs@, fv, frame, (c + 1) as nat, fv.len());
            }
            return Err(EdfError::ShapeError { frame, channel: c });
        }
        assert(fv[c as int] == fr@[c as int]@);
        push_channel_writes(&mut planned, f as usize, &fr[c], frame, c);
        c += 1;
    }
    let ghost before = calls_view(calls@);
    calls.append(&mut planned);
    assert(calls_view(calls@) =~= before + channels_plan(freqs@, fv, frame, fv.len())->Ok_0);
    Ok(())
}

/// The engine writes for a batch of frames, frame by frame and channel by
/// channel, each channel cut into periods of its sample frequency; or the first
/// frame or channel whose shape does not fit the channels.
pub fn plan_frames(freqs: &Vec<i32>, b: &Vec<Vec<Vec<u64>>>) -> (r: Result<Vec<EngineCall>, EdfError>)
    ensures
        match batch_plan(freqs@, batch_view(*b)) {
            Ok(p) => r is Ok && calls_view(r->Ok_0@) == p,
            Err(e) => r == Err::<Vec<EngineCall>, EdfError>(e),
        },
{
    let ghost bv = batch_view(*b);
    let mut calls: Vec<EngineCall> = Vec::new();
    let mut i: usize = 0;
    assert(calls_view(calls@) =~= seq![]);
    while i < b.len()
        invariant
            i <= b.len(),
            bv == batch_view(*b),
            batch_plan_upto(freqs@, bv, i as nat) is Ok,
            calls_view(calls@) == batch_plan_upto(freqs@, bv, i as nat)->Ok_0,
        decreases b.len() - i,
    {
        assert(bv[i as int] == frame_view(b@[i as int]));
        match plan_frame(freqs, &b[i], i, &mut calls) {
            Err(e) => {
                proof {
                    lemma_batch_error_persists(freqs@, bv, (i + 1) as nat, bv.len());
                }
                return Err(e);
            },
            Ok(()) => {},
        }
        i += 1;
    }
    Ok(calls)
}

/// The sample-count warnings for the first `n` channels of frame `fr`, number
/// `frame`: one for each channel whose length differs from its frequency.
pub open spec fn count_warnings(freqs: Seq<i32>, fr: Seq<Seq<u64>>, frame: usize, n: nat) -> Seq<Warning>
    decreases n,
{
    if n == 0 {
        seq![]
    } else {
        count_warnings(freqs, fr, frame, (n - 1) as nat) + if n - 1 < freqs.len() && fr[n - 1].len()
            != freqs[n - 1] {
            seq![
                Warning::SampleCountMismatch {
                    frame,
                    channel: (n - 1) as usize,
                    found: fr[n - 1].len() as usize,
                },
            ]
        } else {
            seq![]
        }
    }
}

/// The sample-count warnings for frame `fr`, number `frame`.
pub open spec fn frame_count_warnings(freqs: Seq<i32>, fr: Seq<Seq<u64>>, frame: usize) -> Seq<Warning> {
    count_warnings(freqs, fr, frame, fr.len())
}

/// The sample-count warnings for the first `n` frames of batch `b`, in order.
pub open spec fn batch_count_warnings(freqs: Seq<i32>, b: Seq<Seq<Seq<u64>>>, n: nat) -> Seq<Warning>
    decreases n,
{
    if n == 0 {
        seq![]
    } else {
        batch_count_warnings(freqs, b, (n - 1) as nat) + frame_count_warnings(
            freqs,
            b[n - 1],
            (n - 1) as usize,
        )
    }
}

/// Appends a warning for each channel of frame `fr`, number `frame`, whose
/// sample count differs from its declared frequency.
pub fn sample_count_warnings(freqs: &Vec<i32>, fr: &Vec<Vec<u64>>, frame: usize, out: &mut Vec<Warning>)
    ensures
        final(out)@ == old(out)@ + frame_count_warnings(freqs@, frame_view(*fr), frame),
{
    let ghost fv = frame_view(*fr);
    let mut c: usize = 0;
    while c < fr.len()
        invariant
            c <= fr.len(),
            fv == frame_view(*fr),
            out@ == old(out)@ + count_warnings(freqs@, fv, frame, c as nat),
        decreases fr.len() - c,
    {
        assert(fv[c as int] == fr@[c as int]@);
        if c < freqs.len() && (freqs[c] < 0 || fr[c].len() != freqs[c] as usize) {
            out.push(Warning::SampleCountMismatch { frame, channel: c, found: fr[c].len() });
        }
        c += 1;
        assert(out@ =~= old(out)@ + count_warnings(freqs@, fv, frame, c as nat));
    }
}

/// The sample-count warnings for every frame of a batch, frame by frame.
pub fn batch_sample_count_warnings(freqs: &Vec<i32>, b: &Vec<Vec<Vec<u64>>>) -> (r: Vec<Warning>)
    ensures
        r@ == batch_count_warnings(freqs@, batch_view(*b), b@.len()),
{
    let ghost bv = batch_view(*b);
    let mut out: Vec<Warning> = Vec::new();
    let mut i: usize = 0;
    while i < b.len()
        invariant
            i <= b.len(),
            bv == batch_view(*b),
            out@ == batch_count_warnings(freqs@, bv, i as nat),
        decreases b.len() - i,
    {
        assert(bv[i as int] == frame_view(b@[i as int]));
        sample_count_warnings(freqs, &b[i], i, &mut out);
        i += 1;
    }
    out
}

} // verus!
