//! The controller's output side: raw driver-reported snapshots (rumble motor
//! levels and LED index) and the coalescing policy that reconciles the two
//! independently-changing output channels into one ordered event stream.

use vstd::prelude::*;

verus! {

/// One raw output snapshot as the driver reports it: both rumble motor
/// levels and the LED index, always together.
#[derive(Debug, Clone, Copy, PartialEq, Eq, Structural)]
pub struct RawOutput {
    pub large_motor: u8,
    pub small_motor: u8,
    pub led_number: u8,
}

impl RawOutput {
    /// The all-zero snapshot a device starts from.
    pub open spec fn spec_zero() -> RawOutput {
        RawOutput { large_motor: 0, small_motor: 0, led_number: 0 }
    }
}

/// One coalesced output event delivered to the polling caller: a change of
/// the rumble motors, or a change of the LED index, never both at once.
#[derive(Debug, Clone, Copy, PartialEq, Eq, Structural)]
pub enum Output {
    Rumble(u8, u8),
    Led(u8),
}

/// Whether a fresh snapshot changes either rumble motor relative to the
/// last-seen snapshot.
pub open spec fn spec_motor_changed(latest: RawOutput, msg: RawOutput) -> bool {
    msg.large_motor != latest.large_motor || msg.small_motor != latest.small_motor
}

/// Whether a fresh snapshot changes the LED index relative to the last-seen
/// snapshot.
pub open spec fn spec_led_changed(latest: RawOutput, msg: RawOutput) -> bool {
    msg.led_number != latest.led_number
}

/// The deferral queue after the rumble-resolution step: a new rumble event
/// joins the back of a non-empty queue (whose front is consumed this call);
/// with no rumble event a non-empty queue just loses its front.
pub open spec fn spec_rumble_queue(latest: RawOutput, queue: Seq<Output>, msg: RawOutput) -> Seq<
    Output,
> {
    if spec_motor_changed(latest, msg) {
        if queue.len() > 0 {
            queue.push(Output::Rumble(msg.large_motor, msg.small_motor)).drop_first()
        } else {
            queue
        }
    } else {
        if queue.len() > 0 {
            queue.drop_first()
        } else {
            queue
        }
    }
}

/// The provisional result of the rumble-resolution step: the queue's front
/// where one was pending, else the fresh rumble event, else nothing.
pub open spec fn spec_rumble_out(latest: RawOutput, queue: Seq<Output>, msg: RawOutput) -> Option<
    Output,
> {
    if spec_motor_changed(latest, msg) {
        if queue.len() > 0 {
            Some(queue[0])
        } else {
            Some(Output::Rumble(msg.large_motor, msg.small_motor))
        }
    } else {
        if queue.len() > 0 {
            Some(queue[0])
        } else {
            None
        }
    }
}

/// The deferral queue after one full coalescing step: an LED change defers
/// behind whatever the rumble step already resolved for delivery.
pub open spec fn spec_coalesced_queue(latest: RawOutput, queue: Seq<Output>, msg: RawOutput) -> Seq<
    Output,
> {
    let q = spec_rumble_queue(latest, queue, msg);
    if spec_led_changed(latest, msg) && spec_rumble_out(latest, queue, msg) is Some {
        q.push(Output::Led(msg.led_number))
    } else {
        q
    }
}

/// The event one full coalescing step delivers: the rumble step's result if
/// it produced one, else the fresh LED event, else nothing.
pub open spec fn spec_coalesced_out(latest: RawOutput, queue: Seq<Output>, msg: RawOutput) -> Option<
    Output,
> {
    let r = spec_rumble_out(latest, queue, msg);
    if spec_led_changed(latest, msg) && r is None {
        Some(Output::Led(msg.led_number))
    } else {
        r
    }
}

/// Law: a coalescing step loses nothing — if the motors changed, a rumble
/// event with exactly the new levels is delivered by this step or sits in
/// the queue afterward, and an LED change likewise.
pub proof fn lemma_no_change_dropped(latest: RawOutput, queue: Seq<Output>, msg: RawOutput)
    ensures
        spec_motor_changed(latest, msg) ==> ({
            let rumble = Output::Rumble(msg.large_motor, msg.small_motor);
            spec_coalesced_out(latest, queue, msg) == Some(rumble) || spec_coalesced_queue(
                latest,
                queue,
                msg,
            ).contains(rumble)
        }),
        spec_led_changed(latest, msg) ==> ({
            let led = Output::Led(msg.led_number);
            spec_coalesced_out(latest, queue, msg) == Some(led) || spec_coalesced_queue(
                latest,
                queue,
                msg,
            ).contains(led)
        }),
{
    let rumble = Output::Rumble(msg.large_motor, msg.small_motor);
    let led = Output::Led(msg.led_number);
    let q1 = spec_rumble_queue(latest, queue, msg);
    let out = spec_rumble_out(latest, queue, msg);
    let q2 = spec_coalesced_queue(latest, queue, msg);
    if spec_motor_changed(latest, msg) {
        if queue.len() > 0 {
            // the fresh rumble event went to the back of the queue
            assert(q1[queue.len() - 1] == queue.push(rumble)[queue.len() as int]);
            assert(q2[queue.len() - 1] == rumble);
            assert(q2.contains(rumble));
        }
    }
    if spec_led_changed(latest, msg) && out is Some {
        // the LED event went to the back, behind what this step delivers
        assert(q2[q2.len() - 1] == led);
        assert(q2.contains(led));
    }
}

/// The events one snapshot makes due: a rumble event if it changes the
/// motors, then an LED event if it changes the LED.
pub open spec fn spec_due_events(latest: RawOutput, msg: RawOutput) -> Seq<Output> {
    let rumble: Seq<Output> = if spec_motor_changed(latest, msg) {
        seq![Output::Rumble(msg.large_motor, msg.small_motor)]
    } else {
        seq![]
    };
    let led: Seq<Output> = if spec_led_changed(latest, msg) {
        seq![Output::Led(msg.led_number)]
    } else {
        seq![]
    };
    rumble + led
}

/// The events a delivered value contributes to the output stream: none, or
/// the one event.
pub open spec fn spec_opt_seq(out: Option<Output>) -> Seq<Output> {
    match out {
        Some(e) => seq![e],
        None => seq![],
    }
}

/// Law (strict FIFO fairness): whenever something already waits in the
/// queue, the step delivers exactly the queue's front — a fresh event never
/// overtakes a deferred one.
pub proof fn lemma_queued_events_go_first(latest: RawOutput, queue: Seq<Output>, msg: RawOutput)
    ensures
        queue.len() > 0 ==> spec_coalesced_out(latest, queue, msg) == Some(queue[0]),
{
}

/// Law (conservation): one coalescing step neither drops nor fabricates nor
/// reorders an event — what it delivers, followed by the queue it leaves,
/// is exactly the queue it found, followed by the events its snapshot made
/// due.
pub proof fn lemma_step_conserves_events(latest: RawOutput, queue: Seq<Output>, msg: RawOutput)
    ensures
        spec_opt_seq(spec_coalesced_out(latest, queue, msg)) + spec_coalesced_queue(
            latest,
            queue,
            msg,
        ) == queue + spec_due_events(latest, msg),
{
    let out = spec_opt_seq(spec_coalesced_out(latest, queue, msg));
    let left = out + spec_coalesced_queue(latest, queue, msg);
    let right = queue + spec_due_events(latest, msg);
    assert(left =~= right);
}

/// The last-seen snapshot after a whole run of snapshots.
pub open spec fn spec_run_latest(latest: RawOutput, msgs: Seq<RawOutput>) -> RawOutput
    decreases msgs.len(),
{
    if msgs.len() == 0 {
        latest
    } else {
        spec_run_latest(msgs[0], msgs.drop_first())
    }
}

/// The queue left after absorbing every snapshot of a run, in order.
pub open spec fn spec_run_queue(latest: RawOutput, queue: Seq<Output>, msgs: Seq<RawOutput>) -> Seq<
    Output,
>
    decreases msgs.len(),
{
    if msgs.len() == 0 {
        queue
    } else {
        spec_run_queue(msgs[0], spec_coalesced_queue(latest, queue, msgs[0]), msgs.drop_first())
    }
}

/// Everything a run of coalescing steps delivers, in delivery order.
pub open spec fn spec_run_delivered(
    latest: RawOutput,
    queue: Seq<Output>,
    msgs: Seq<RawOutput>,
) -> Seq<Output>
    decreases msgs.len(),
{
    if msgs.len() == 0 {
        seq![]
    } else {
        spec_opt_seq(spec_coalesced_out(latest, queue, msgs[0])) + spec_run_delivered(
            msgs[0],
            spec_coalesced_queue(latest, queue, msgs[0]),
            msgs.drop_first(),
        )
    }
}

/// Every event a run of snapshots makes due, in the order the changes
/// became distinct.
pub open spec fn spec_run_due_events(latest: RawOutput, msgs: Seq<RawOutput>) -> Seq<Output>
    decreases msgs.len(),
{
    if msgs.len() == 0 {
        seq![]
    } else {
        spec_due_events(latest, msgs[0]) + spec_run_due_events(msgs[0], msgs.drop_first())
    }
}

/// Law (exactly once, in order): across any run of snapshots, what the steps
/// deliver followed by what still waits in the queue is exactly the queue
/// found at the start followed by every event the run made due — each
/// distinct change surfaces once, in the order it became distinct, however
/// the polling is interleaved with the run.
pub proof fn lemma_run_conserves_events(latest: RawOutput, queue: Seq<Output>, msgs: Seq<RawOutput>)
    ensures
        spec_run_delivered(latest, queue, msgs) + spec_run_queue(latest, queue, msgs) == queue
            + spec_run_due_events(latest, msgs),
    decreases msgs.len(),
{
    if msgs.len() > 0 {
        let out = spec_opt_seq(spec_coalesced_out(latest, queue, msgs[0]));
        let q1 = spec_coalesced_queue(latest, queue, msgs[0]);
        let rest = msgs.drop_first();
        let due0 = spec_due_events(latest, msgs[0]);
        let due_rest = spec_run_due_events(msgs[0], rest);
        let d1 = spec_run_delivered(msgs[0], q1, rest);
        let k1 = spec_run_queue(msgs[0], q1, rest);
        lemma_step_conserves_events(latest, queue, msgs[0]);
        lemma_run_conserves_events(msgs[0], q1, rest);
        assert(spec_run_delivered(latest, queue, msgs) == out + d1);
        assert(spec_run_queue(latest, queue, msgs) == k1);
        assert((out + d1) + k1 =~= out + (d1 + k1));
        assert(out + (q1 + due_rest) =~= (out + q1) + due_rest);
        assert((queue + due0) + due_rest =~= queue + (due0 + due_rest));
        assert(spec_run_due_events(latest, msgs) == due0 + due_rest);
    }
}

/// Law: the deferral queue grows only transiently — one coalescing step
/// lengthens it by at most one, and a step that delivers nothing leaves it
/// exactly as it was.
pub proof fn lemma_queue_growth(latest: RawOutput, queue: Seq<Output>, msg: RawOutput)
    ensures
        spec_coalesced_queue(latest, queue, msg).len() <= queue.len() + 1,
        spec_coalesced_out(latest, queue, msg) is None ==> spec_coalesced_queue(latest, queue, msg)
            == queue,
{
}

} // verus!
