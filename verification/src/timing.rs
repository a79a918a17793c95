//! Presentation timing: from irregular capture timestamps to per-frame
//! durations and cumulative presentation times.

use vstd::prelude::*;

verus! {

/// Timing of one frame, in output-clock units.
#[derive(Clone, Copy, Debug, PartialEq, Eq, Structural)]
pub struct FrameTiming {
    /// Time between the previous capture (the job's start for the first frame)
    /// and this one.
    pub duration: u64,
    /// Presentation time of the frame: the durations of all earlier frames, added up.
    pub cumulative: u64,
    /// Whether the frame is a sync frame. Only the first one is.
    pub sync: bool,
}

/// Why a timestamp sequence cannot be planned.
#[derive(Clone, Copy, Debug, PartialEq, Eq, Structural)]
pub struct TimingError {
    /// Position of the first frame captured before its predecessor
    /// (before the job's start, for the first frame).
    pub index: usize,
}

/// The capture time that frame `i` is measured from: the job's start time for
/// the first frame, the previous frame's timestamp for the others.
pub open spec fn reference_time(start: u64, stamps: Seq<u64>, i: int) -> int {
    if i <= 0 {
        start as int
    } else {
        stamps[i - 1] as int
    }
}

/// Whether frame `i` was captured no earlier than the time it is measured from.
pub open spec fn in_order_at(start: u64, stamps: Seq<u64>, i: int) -> bool {
    reference_time(start, stamps, i) <= stamps[i]
}

/// Whether the timestamps never decrease and none precedes the job's start.
pub open spec fn in_order(start: u64, stamps: Seq<u64>) -> bool {
    forall|i: int| 0 <= i < stamps.len() ==> in_order_at(start, stamps, i)
}

/// Duration of frame `i`.
pub open spec fn duration_at(start: u64, stamps: Seq<u64>, i: int) -> int {
    stamps[i] - reference_time(start, stamps, i)
}

/// Presentation time of frame `i`: zero for the first frame, and for every
/// other frame the presentation time of its predecessor plus the
/// predecessor's duration.
pub open spec fn cumulative_at(start: u64, stamps: Seq<u64>, i: int) -> int
    decreases i,
{
    if i <= 0 {
        0
    } else {
        cumulative_at(start, stamps, i - 1) + duration_at(start, stamps, i - 1)
    }
}

/// The timing of frame `i`.
pub open spec fn timing_at(start: u64, stamps: Seq<u64>, i: int) -> FrameTiming {
    FrameTiming {
        duration: duration_at(start, stamps, i) as u64,
        cumulative: cumulative_at(start, stamps, i) as u64,
        sync: i == 0,
    }
}

/// The timing of every frame, in the order given.
pub open spec fn timings(start: u64, stamps: Seq<u64>) -> Seq<FrameTiming> {
    Seq::new(stamps.len(), |i: int| timing_at(start, stamps, i))
}

/// The durations of the first `n` entries of a plan, added up.
pub open spec fn total_duration(plan: Seq<FrameTiming>, n: int) -> int
    decreases n,
{
    if n <= 0 {
        0
    } else {
        total_duration(plan, n - 1) + plan[n - 1].duration
    }
}

/// In an ordered sequence the presentation time of a frame is the time from
/// the job's start to the capture it is measured from.
pub proof fn lemma_cumulative_closed_form(start: u64, stamps: Seq<u64>, i: int)
    requires
        in_order(start, stamps),
        0 <= i <= stamps.len(),
    ensures
        cumulative_at(start, stamps, i) == reference_time(start, stamps, i) - start,
        0 <= cumulative_at(start, stamps, i) <= u64::MAX,
    decreases i,
{
    if i > 0 {
        lemma_cumulative_closed_form(start, stamps, i - 1);
        assert(in_order_at(start, stamps, i - 1));
    }
}

/// No presentation time of an ordered plan is later than the end of its last
/// frame.
pub proof fn lemma_cumulative_bounded(start: u64, stamps: Seq<u64>, i: int)
    requires
        in_order(start, stamps),
        0 <= i <= stamps.len(),
    ensures
        cumulative_at(start, stamps, i) <= cumulative_at(start, stamps, stamps.len() as int),
    decreases stamps.len() - i,
{
    if i < stamps.len() {
        lemma_cumulative_bounded(start, stamps, i + 1);
        assert(in_order_at(start, stamps, i));
    }
}

/// The first frame is presented at time zero.
pub proof fn lemma_first_frame_at_zero(start: u64, stamps: Seq<u64>)
    ensures
        cumulative_at(start, stamps, 0) == 0,
{
}

/// For timestamps that never decrease and do not precede the start, the
/// presentation time of every frame is the sum of the planned durations of the
/// frames before it.
pub proof fn lemma_cumulative_is_sum_of_durations(start: u64, stamps: Seq<u64>, i: int)
    requires
        in_order(start, stamps),
        0 <= i < stamps.len(),
    ensures
        timings(start, stamps)[i].cumulative == total_duration(timings(start, stamps), i),
    decreases i,
{
    lemma_total_duration(start, stamps, i);
    lemma_cumulative_closed_form(start, stamps, i);
}

/// For ordered timestamps the planned durations of the first `n` frames add up
/// to the presentation time that follows them.
pub proof fn lemma_total_duration(start: u64, stamps: Seq<u64>, n: int)
    requires
        in_order(start, stamps),
        0 <= n <= stamps.len(),
    ensures
        total_duration(timings(start, stamps), n) == cumulative_at(start, stamps, n),
    decreases n,
{
    if n > 0 {
        lemma_total_duration(start, stamps, n - 1);
        assert(in_order_at(start, stamps, n - 1));
    }
}

/// For ordered timestamps, a frame with a positive duration is followed by a
/// frame with a strictly later presentation time, and presentation times never
/// decrease.
pub proof fn lemma_cumulative_increases(start: u64, stamps: Seq<u64>, i: int)
    requires
        in_order(start, stamps),
        0 <= i,
        i + 1 < stamps.len(),
    ensures
        timings(start, stamps)[i].cumulative <= timings(start, stamps)[i + 1].cumulative,
        timings(start, stamps)[i].duration > 0 ==> timings(start, stamps)[i].cumulative
            < timings(start, stamps)[i + 1].cumulative,
{
    lemma_cumulative_closed_form(start, stamps, i);
    lemma_cumulative_closed_form(start, stamps, i + 1);
    assert(in_order_at(start, stamps, i));
}

/// The first frame of a plan is a sync frame and no other frame is.
pub proof fn lemma_only_first_frame_is_sync(start: u64, stamps: Seq<u64>, i: int)
    requires
        0 <= i < stamps.len(),
    ensures
        timings(start, stamps)[i].sync <==> i == 0,
{
}

/// Whether the timestamps never decrease and none precedes the job's start.
pub fn is_in_order(start: u64, stamps: &Vec<u64>) -> (ok: bool)
    ensures
        ok == in_order(start, stamps@),
{
    let mut previous: u64 = start;
    let mut i: usize = 0;
    while i < stamps.len()
        invariant
            i <= stamps.len(),
            previous == reference_time(start, stamps@, i as int),
            forall|k: int| 0 <= k < i ==> in_order_at(start, stamps@, k),
        decreases stamps.len() - i,
    {
        if stamps[i] < previous {
            assert(!in_order_at(start, stamps@, i as int));
            return false;
        }
        previous = stamps[i];
        i = i + 1;
    }
    true
}

/// Plans the timing of every frame of a job.
///
/// Succeeds exactly when the timestamps never decrease and none precedes the
/// job's start; otherwise the error names the first frame that is out of order.
pub fn plan(start: u64, stamps: &Vec<u64>) -> (out: Result<Vec<FrameTiming>, TimingError>)
    ensures
        out is Ok <==> in_order(start, stamps@),
        out matches Ok(plan) ==> plan@ == timings(start, stamps@),
        out matches Err(e) ==> {
            &&& e.index < stamps.len()
            &&& !in_order_at(start, stamps@, e.index as int)
            &&& forall|k: int| 0 <= k < e.index ==> in_order_at(start, stamps@, k)
        },
{
    let mut plan: Vec<FrameTiming> = Vec::new();
    let mut previous: u64 = start;
    let mut elapsed: u64 = 0;
    let mut i: usize = 0;
    while i < stamps.len()
        invariant
            i <= stamps.len(),
            previous == reference_time(start, stamps@, i as int),
            elapsed == cumulative_at(start, stamps@, i as int),
            elapsed == previous - start,
            forall|k: int| 0 <= k < i ==> in_order_at(start, stamps@, k),
            plan@.len() == i,
            forall|k: int| 0 <= k < i ==> plan@[k] == timing_at(start, stamps@, k),
        decreases stamps.len() - i,
    {
        let stamp: u64 = stamps[i];
        if stamp < previous {
            assert(!in_order_at(start, stamps@, i as int));
            return Err(TimingError { index: i });
        }
        let duration: u64 = stamp - previous;
        plan.push(FrameTiming { duration, cumulative: elapsed, sync: i == 0 });
        elapsed = elapsed + duration;
        previous = stamp;
        i = i + 1;
    }
    assert(plan@ =~= timings(start, stamps@));
    Ok(plan)
}

} // verus!
