//! How fast a driven engine announces steps.
//!
//! A driver ticks the engine at clock readings of its own choosing. The laws
//! here bound the number of steps that a run of ticks announces: never more
//! than the tempo allows, and, where the driver polls at least every `poll`
//! microseconds, not fewer than the tempo asks for once each step is given
//! up to `poll` microseconds of lateness.

use super::playback::{EngineModel, PlaybackEvent};
use vstd::prelude::*;

verus! {

/// The number of `StepAdvanced` events in `queue`.
pub open spec fn steps_announced(queue: Seq<PlaybackEvent>) -> nat
    decreases queue.len(),
{
    if queue.len() == 0 {
        0
    } else {
        steps_announced(queue.drop_last()) + if queue.last() is StepAdvanced {
            1nat
        } else {
            0nat
        }
    }
}

/// The state of engine `s` after one tick at each of the clock readings
/// `times`, in order, with `snapshot` as the published grid.
pub open spec fn run(s: EngineModel, times: Seq<int>, snapshot: Seq<bool>) -> EngineModel
    decreases times.len(),
{
    if times.len() == 0 {
        s
    } else {
        run(s, times.drop_last(), snapshot).tick(times.last(), snapshot)
    }
}

/// The clock reading at which the run of ticks `times` ends, for a run
/// that begins at `start`.
pub open spec fn end_of(times: Seq<int>, start: int) -> int {
    if times.len() == 0 {
        start
    } else {
        times.last()
    }
}

/// The clock readings `times` begin at or after `start` and never go back.
pub open spec fn monotonic_from(times: Seq<int>, start: int) -> bool {
    &&& times.len() > 0 ==> start <= times[0]
    &&& forall|i: int| 0 < i < times.len() ==> times[i - 1] <= #[trigger] times[i]
}

/// The clock readings `times` begin within `poll` of `start`, and each
/// follows the one before within `poll`.
pub open spec fn polled_within(times: Seq<int>, start: int, poll: int) -> bool {
    &&& times.len() > 0 ==> times[0] <= start + poll
    &&& forall|i: int| 0 < i < times.len() ==> #[trigger] times[i] <= times[i - 1] + poll
}

/// A queue with one more event announces one more step exactly when that
/// event is `StepAdvanced`.
proof fn lemma_steps_announced_push(queue: Seq<PlaybackEvent>, event: PlaybackEvent)
    ensures
        steps_announced(queue.push(event)) == steps_announced(queue) + if event is StepAdvanced {
            1nat
        } else {
            0nat
        },
{
    assert(queue.push(event).drop_last() =~= queue);
}

/// A tick announces one step if a step is due, and none otherwise,
/// whatever the snapshot holds.
pub proof fn lemma_tick_announces(s: EngineModel, now: int, snapshot: Seq<bool>)
    ensures
        steps_announced(s.tick(now, snapshot).queue) == steps_announced(s.queue) + if s.due(now) {
            1nat
        } else {
            0nat
        },
{
    if s.due(now) {
        let step = PlaybackEvent::StepAdvanced(s.cursor as usize);
        lemma_steps_announced_push(s.queue, step);
        if s.fires(snapshot) {
            let note = s.step_events(snapshot)[1];
            lemma_steps_announced_push(s.queue.push(step), note);
            assert(s.queue + s.step_events(snapshot) =~= s.queue.push(step).push(note));
        } else {
            assert(s.queue + s.step_events(snapshot) =~= s.queue.push(step));
        }
    }
}

/// A running engine keeps the tempo, however it is driven: over a run of
/// ticks whose clock readings never go back, it announces at most one step
/// for every full step length between the start of the run and its end.
/// Where the driver also lets no more than `poll` pass between two ticks,
/// each step is late by `poll` at most, so the steps announced, each given
/// a step length and `poll`, together with one more step length, cover more
/// than the time the run took.
pub proof fn lemma_run_keeps_tempo(
    s: EngineModel,
    times: Seq<int>,
    snapshot: Seq<bool>,
    poll: int,
)
    requires
        s.running,
        s.step_us >= 1,
        monotonic_from(times, s.last_step_us as int),
    ensures
        ({
            let r = run(s, times, snapshot);
            let announced = steps_announced(r.queue) - steps_announced(s.queue);
            let span = end_of(times, s.last_step_us as int) - s.last_step_us;
            &&& r.running
            &&& r.step_us == s.step_us
            &&& 0 <= announced
            &&& announced * s.step_us <= span
            &&& polled_within(times, s.last_step_us as int, poll) ==> span < (announced + 1)
                * s.step_us + announced * poll
        }),
{
    lemma_run_pace(s, times, snapshot, poll);
    let r = run(s, times, snapshot);
    let announced = steps_announced(r.queue) - steps_announced(s.queue);
    assert((announced + 1) * s.step_us + announced * poll == announced * (s.step_us + poll)
        + s.step_us) by (nonlinear_arith);
}

/// What a run of ticks keeps true from tick to tick: the time of the last
/// advance lies between the start of the run and its latest tick, the steps
/// announced so far fit into the time up to the last advance, and, under
/// polling within `poll`, the last advance is less than a step length old
/// and came no later than the steps announced allow.
proof fn lemma_run_pace(s: EngineModel, times: Seq<int>, snapshot: Seq<bool>, poll: int)
    requires
        s.running,
        s.step_us >= 1,
        monotonic_from(times, s.last_step_us as int),
    ensures
        ({
            let r = run(s, times, snapshot);
            let announced = steps_announced(r.queue) - steps_announced(s.queue);
            let end = end_of(times, s.last_step_us as int);
            &&& r.running
            &&& r.step_us == s.step_us
            &&& 0 <= announced
            &&& s.last_step_us <= r.last_step_us <= end
            &&& announced * s.step_us <= r.last_step_us - s.last_step_us
            &&& polled_within(times, s.last_step_us as int, poll) ==> {
                &&& end - r.last_step_us < s.step_us
                &&& r.last_step_us - s.last_step_us <= announced * (s.step_us + poll)
            }
        }),
    decreases times.len(),
{
    let start = s.last_step_us as int;
    let step = s.step_us as int;
    if times.len() == 0 {
        assert(0 * step == 0);
        assert(0 * (step + poll) == 0);
    } else {
        let before = times.drop_last();
        let now = times.last();
        assert(monotonic_from(before, start)) by {
            assert forall|i: int| 0 < i < before.len() implies before[i - 1]
                <= #[trigger] before[i] by {
                assert(times[i - 1] <= times[i]);
            }
        }
        lemma_run_pace(s, before, snapshot, poll);
        let q = run(s, before, snapshot);
        let r = run(s, times, snapshot);
        let n = steps_announced(q.queue) - steps_announced(s.queue);
        lemma_tick_announces(q, now, snapshot);
        let earlier = end_of(before, start);
        assert(earlier <= now) by {
            if before.len() > 0 {
                assert(times[times.len() - 2] <= times[times.len() - 1]);
            }
        }
        if q.due(now) {
            assert((n + 1) * step == n * step + step) by (nonlinear_arith);
        }
        if polled_within(times, start, poll) {
            assert(polled_within(before, start, poll)) by {
                assert forall|i: int| 0 < i < before.len() implies #[trigger] before[i]
                    <= before[i - 1] + poll by {
                    assert(times[i] <= times[i - 1] + poll);
                }
            }
            assert(now <= earlier + poll) by {
                if before.len() > 0 {
                    assert(times[times.len() - 1] <= times[times.len() - 2] + poll);
                }
            }
            if q.due(now) {
                assert((n + 1) * (step + poll) == n * (step + poll) + (step + poll))
                    by (nonlinear_arith);
            }
        }
    }
}

} // verus!
