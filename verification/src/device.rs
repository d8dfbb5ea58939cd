//! One virtual controller: the accumulated input report, the last-seen raw
//! output snapshot, the deferral queue, and the receiving end of the channel
//! the notification bridge feeds.
//!
//! Everything that needs the foreign driver itself (adding and removing the
//! target, pushing the report over the bus) stays outside this crate; a
//! device here is the verified state those operations read and write.

use std::collections::VecDeque;
use std::sync::mpsc::Receiver;
use std::sync::mpsc::Sender;
use vstd::prelude::*;

use crate::output::Output;
use crate::output::RawOutput;
use crate::output::spec_coalesced_out;
use crate::output::spec_coalesced_queue;
use crate::report::Input;
use crate::report::Report;

verus! {

#[verifier::external_type_specification]
#[verifier::external_body]
#[verifier::reject_recursive_types(T)]
pub struct ExReceiver<T>(Receiver<T>);

#[verifier::external_type_specification]
#[verifier::external_body]
#[verifier::reject_recursive_types(T)]
pub struct ExSender<T>(Sender<T>);

/// Outcome of one non-blocking poll of the raw-output channel.
enum ChannelPoll {
    /// A snapshot was pending.
    Message(RawOutput),
    /// Nothing is pending right now.
    Empty,
    /// The sending end is gone; nothing will ever be pending again.
    Disconnected,
}

/// Relies on std::sync::mpsc::Receiver::try_recv: returns a pending message
/// without blocking, or reports the channel empty or disconnected. Which
/// outcome comes back depends on the sending thread, so nothing is promised
/// of it.
#[verifier::external_body]
fn try_recv_raw(rx: &Receiver<RawOutput>) -> ChannelPoll {
    match rx.try_recv() {
        Ok(m) => ChannelPoll::Message(m),
        Err(std::sync::mpsc::TryRecvError::Empty) => ChannelPoll::Empty,
        Err(std::sync::mpsc::TryRecvError::Disconnected) => ChannelPoll::Disconnected,
    }
}

/// Relies on std::sync::mpsc::Sender::send: delivers the message to the
/// receiving end unless that end is gone. Whether it arrives depends on the
/// receiving side, so nothing is promised of the outcome.
#[verifier::external_body]
fn send_raw(tx: &Sender<RawOutput>, m: RawOutput) -> bool {
    tx.send(m).is_ok()
}

/// The notification bridge's only job: package one driver-reported output
/// snapshot and push it onto the device's channel. A failed push — the
/// receiving device is being torn down concurrently — is swallowed, since
/// the driver's callback has no way to report it anywhere; the returned flag
/// says whether the push was delivered, so an unverified shell may at least
/// record a failed one. Whether it is delivered depends on the receiving
/// side, so nothing is promised of the flag.
pub fn notify_raw_output(
    tx: &Sender<RawOutput>,
    large_motor: u8,
    small_motor: u8,
    led_number: u8,
) -> bool {
    send_raw(tx, RawOutput { large_motor, small_motor, led_number })
}

/// One virtual controller target's state on this side of the driver.
pub struct Device {
    /// The accumulated input report; re-sent whole on every update.
    pub report: Report,
    /// The last-seen raw output snapshot, kept purely for change detection.
    pub latest_raw_output: RawOutput,
    /// Pending coalesced events awaiting delivery, front first.
    pub output_queue: VecDeque<Output>,
    /// The receiving end of the channel the notification bridge feeds.
    pub raw_output_rx: Receiver<RawOutput>,
}

impl Device {
    /// A fresh device: all-zero report and snapshot, empty queue, polling
    /// the given channel for raw output.
    pub fn new(raw_output_rx: Receiver<RawOutput>) -> (d: Device)
        ensures
            d.report == Report::spec_zero(),
            d.latest_raw_output == RawOutput::spec_zero(),
            d.output_queue@ == Seq::<Output>::empty(),
            d.raw_output_rx == raw_output_rx,
    {
        Device {
            report: Report::zero(),
            latest_raw_output: RawOutput { large_motor: 0, small_motor: 0, led_number: 0 },
            output_queue: VecDeque::new(),
            raw_output_rx,
        }
    }

    /// Folds one input event into the accumulated report and hands back the
    /// full report now due at the driver: the driver knows no partial
    /// updates, so the whole state travels on every call.
    pub fn put_input(&mut self, input: Input) -> (r: Report)
        ensures
            final(self).report == old(self).report.spec_apply(input),
            r == final(self).report,
            final(self).latest_raw_output == old(self).latest_raw_output,
            final(self).output_queue@ == old(self).output_queue@,
            final(self).raw_output_rx == old(self).raw_output_rx,
    {
        self.report.apply(input);
        self.report
    }

    /// Runs one full coalescing step on a raw snapshot taken off the
    /// channel: updates the last-seen snapshot, defers what must wait its
    /// turn, and delivers at most one event.
    pub fn absorb_raw_output(&mut self, raw: RawOutput) -> (r: Option<Output>)
        ensures
            final(self).latest_raw_output == raw,
            final(self).output_queue@ == spec_coalesced_queue(
                old(self).latest_raw_output,
                old(self).output_queue@,
                raw,
            ),
            r == spec_coalesced_out(old(self).latest_raw_output, old(self).output_queue@, raw),
            final(self).report == old(self).report,
            final(self).raw_output_rx == old(self).raw_output_rx,
    {
        let did_large_motor_change = raw.large_motor != self.latest_raw_output.large_motor;
        let did_small_motor_change = raw.small_motor != self.latest_raw_output.small_motor;
        let did_led_number_change = raw.led_number != self.latest_raw_output.led_number;
        let has_queued_output = self.output_queue.len() > 0;

        self.latest_raw_output = raw;

        let output: Option<Output> = if did_large_motor_change || did_small_motor_change {
            let rumble_output = Output::Rumble(raw.large_motor, raw.small_motor);
            if has_queued_output {
                // the fresh rumble event defers behind what was already queued
                self.output_queue.push_back(rumble_output);
                self.output_queue.pop_front()
            } else {
                Some(rumble_output)
            }
        } else if has_queued_output {
            self.output_queue.pop_front()
        } else {
            None
        };

        if did_led_number_change {
            let led_output = Output::Led(raw.led_number);
            if output.is_some() {
                // the LED event defers behind what this call delivers
                self.output_queue.push_back(led_output);
                output
            } else {
                Some(led_output)
            }
        } else {
            output
        }
    }

    /// One non-blocking poll: if a raw snapshot is pending, runs the
    /// coalescing step on it; if the channel is merely empty, drains the
    /// deferral queue; if the channel is closed, delivers nothing and leaves
    /// everything as it was. Which of the three happened depends on the
    /// driver's thread, so the contract promises exactly one of them. A
    /// closed channel is an anomaly (the sender should outlive the device),
    /// but it is not distinguishable from this result: the caller sees the
    /// same `None` as an idle poll.
    pub fn get_output(&mut self) -> (r: Option<Output>)
        ensures
            final(self).report == old(self).report,
            final(self).raw_output_rx == old(self).raw_output_rx,
            ({
                let pre_latest = old(self).latest_raw_output;
                let pre_queue = old(self).output_queue@;
                // a snapshot was pending: one full coalescing step ran on it
                // (the snapshot itself is recorded as the new last-seen value)
                ||| {
                    &&& final(self).output_queue@ == spec_coalesced_queue(
                        pre_latest,
                        pre_queue,
                        final(self).latest_raw_output,
                    )
                    &&& r == spec_coalesced_out(
                        pre_latest,
                        pre_queue,
                        final(self).latest_raw_output,
                    )
                }
                // the channel was empty: the deferral queue's front, if any,
                // is delivered
                ||| {
                    &&& final(self).latest_raw_output == pre_latest
                    &&& if pre_queue.len() > 0 {
                        r == Some(pre_queue[0]) && final(self).output_queue@
                            == pre_queue.drop_first()
                    } else {
                        r is None && final(self).output_queue@ == pre_queue
                    }
                }
                // the channel is closed: nothing is delivered, nothing changes
                ||| {
                    &&& r is None
                    &&& final(self).latest_raw_output == pre_latest
                    &&& final(self).output_queue@ == pre_queue
                }
            }),
    {
        match try_recv_raw(&self.raw_output_rx) {
            ChannelPoll::Message(raw) => self.absorb_raw_output(raw),
            ChannelPoll::Empty => self.output_queue.pop_front(),
            ChannelPoll::Disconnected => None,
        }
    }
}

} // verus!
