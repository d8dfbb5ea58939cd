use std::sync::mpsc::channel;

use vigem_client::Device;
use vigem_client::Output;
use vigem_client::RawOutput;
use vigem_client::notify_raw_output;

#[test]
fn fresh_device_delivers_nothing_and_stays_stable() {
    let (_tx, rx) = channel::<RawOutput>();
    let mut device = Device::new(rx);
    assert_eq!(device.get_output(), None);
    assert_eq!(device.get_output(), None);
    assert_eq!(device.get_output(), None);
    assert_eq!(device.latest_raw_output, RawOutput { large_motor: 0, small_motor: 0, led_number: 0 });
    assert_eq!(device.output_queue.len(), 0);
}

#[test]
fn coalescing_scenario_led_then_rumble_bursts() {
    let (tx, rx) = channel::<RawOutput>();
    let mut device = Device::new(rx);

    // motor unchanged, LED changed, queue empty: the LED event comes directly
    tx.send(RawOutput { large_motor: 0, small_motor: 0, led_number: 1 }).unwrap();
    assert_eq!(device.get_output(), Some(Output::Led(1)));

    // two snapshots arrive before the next poll
    tx.send(RawOutput { large_motor: 5, small_motor: 0, led_number: 1 }).unwrap();
    tx.send(RawOutput { large_motor: 5, small_motor: 9, led_number: 2 }).unwrap();

    // first poll: motors changed, queue empty, LED unchanged: direct rumble
    assert_eq!(device.get_output(), Some(Output::Rumble(5, 0)));
    // second poll: motors changed again, LED change defers behind the rumble
    assert_eq!(device.get_output(), Some(Output::Rumble(5, 9)));
    // third poll: nothing new on the channel, the deferred LED event drains
    assert_eq!(device.get_output(), Some(Output::Led(2)));
    // fourth poll: nothing left anywhere
    assert_eq!(device.get_output(), None);
}

#[test]
fn unchanged_snapshot_delivers_nothing() {
    let (tx, rx) = channel::<RawOutput>();
    let mut device = Device::new(rx);
    tx.send(RawOutput { large_motor: 0, small_motor: 0, led_number: 0 }).unwrap();
    assert_eq!(device.get_output(), None);
}

#[test]
fn rumble_never_overtakes_a_queued_event() {
    let (tx, rx) = channel::<RawOutput>();
    let mut device = Device::new(rx);

    // motors and LED change together: rumble comes out, LED waits its turn
    tx.send(RawOutput { large_motor: 1, small_motor: 2, led_number: 3 }).unwrap();
    assert_eq!(device.get_output(), Some(Output::Rumble(1, 2)));

    // another combined change while the LED still waits: the queued LED event
    // is delivered first, the fresh rumble and LED events line up behind it
    tx.send(RawOutput { large_motor: 4, small_motor: 2, led_number: 5 }).unwrap();
    assert_eq!(device.get_output(), Some(Output::Led(3)));
    assert_eq!(device.get_output(), Some(Output::Rumble(4, 2)));
    assert_eq!(device.get_output(), Some(Output::Led(5)));
    assert_eq!(device.get_output(), None);
}

#[test]
fn absorb_runs_one_coalescing_step_without_the_channel() {
    let (_tx, rx) = channel::<RawOutput>();
    let mut device = Device::new(rx);
    let out = device.absorb_raw_output(RawOutput { large_motor: 7, small_motor: 0, led_number: 2 });
    assert_eq!(out, Some(Output::Rumble(7, 0)));
    assert_eq!(device.latest_raw_output, RawOutput { large_motor: 7, small_motor: 0, led_number: 2 });
    // the LED change waits in the queue behind the delivered rumble event
    assert_eq!(device.output_queue.len(), 1);
    assert_eq!(device.get_output(), Some(Output::Led(2)));
}

#[test]
fn closed_channel_delivers_nothing_and_keeps_the_queue() {
    let (tx, rx) = channel::<RawOutput>();
    let mut device = Device::new(rx);
    tx.send(RawOutput { large_motor: 1, small_motor: 1, led_number: 1 }).unwrap();
    assert_eq!(device.get_output(), Some(Output::Rumble(1, 1)));
    assert_eq!(device.output_queue.len(), 1);
    drop(tx);
    // the sending side is gone: the poll reports nothing and changes nothing
    assert_eq!(device.get_output(), None);
    assert_eq!(device.output_queue.len(), 1);
}

#[test]
fn notification_bridge_feeds_the_device() {
    let (tx, rx) = channel::<RawOutput>();
    let mut device = Device::new(rx);
    assert!(notify_raw_output(&tx, 11, 22, 0));
    assert_eq!(device.get_output(), Some(Output::Rumble(11, 22)));
}

#[test]
fn notification_bridge_swallows_a_push_to_a_torn_down_device() {
    let (tx, rx) = channel::<RawOutput>();
    drop(rx);
    // must not panic: the device is gone and the failure has nowhere to go
    assert!(!notify_raw_output(&tx, 1, 2, 3));
}
