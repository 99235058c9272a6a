use vibemusic::ring::{render_output, SampleQueue};
use vibemusic::samples::VOLUME_UNIT;

#[test]
fn queue_starts_empty_with_fixed_capacity() {
    let q = SampleQueue::new(16);
    assert_eq!(q.occupied(), 0);
    assert_eq!(q.capacity(), 16);
    assert_eq!(q.vacant(), 16);
}

#[test]
fn queue_is_first_in_first_out() {
    let mut q = SampleQueue::new(8);
    let n = q.push_slice(&vec![1, 2, 3]);
    assert_eq!(n, 3);
    assert_eq!(q.try_pop(), Some(1));
    assert_eq!(q.try_pop(), Some(2));
    let n = q.push_slice(&vec![4]);
    assert_eq!(n, 1);
    assert_eq!(q.try_pop(), Some(3));
    assert_eq!(q.try_pop(), Some(4));
    assert_eq!(q.try_pop(), None);
}

#[test]
fn full_queue_takes_only_what_fits() {
    let mut q = SampleQueue::new(4);
    let n = q.push_slice(&vec![10, 20, 30, 40, 50, 60]);
    assert_eq!(n, 4, "only the capacity fits");
    assert_eq!(q.vacant(), 0);
    assert_eq!(q.try_pop(), Some(10));
    let n = q.push_slice(&vec![50]);
    assert_eq!(n, 1);
}

#[test]
fn silent_callback_writes_zeros_and_keeps_the_queue() {
    let mut q = SampleQueue::new(8);
    q.push_slice(&vec![5, 6, 7]);
    let out = render_output(&mut q, false, VOLUME_UNIT, 4);
    assert_eq!(out, vec![0, 0, 0, 0]);
    assert_eq!(q.occupied(), 3, "a silent callback consumes nothing");
}

#[test]
fn empty_queue_underrun_writes_silence() {
    let mut q = SampleQueue::new(8);
    let out = render_output(&mut q, true, VOLUME_UNIT, 5);
    assert_eq!(out, vec![0, 0, 0, 0, 0], "underrun is silence, never stale data");
}

#[test]
fn callback_drains_applies_volume_and_pads_with_silence() {
    let mut q = SampleQueue::new(8);
    q.push_slice(&vec![1000, -600]);
    let out = render_output(&mut q, true, VOLUME_UNIT / 2, 4);
    assert_eq!(out, vec![500, -300, 0, 0]);
    assert_eq!(q.occupied(), 0);
}

#[test]
fn callback_takes_only_what_it_needs() {
    let mut q = SampleQueue::new(8);
    q.push_slice(&vec![1, 2, 3, 4]);
    let out = render_output(&mut q, true, VOLUME_UNIT, 2);
    assert_eq!(out, vec![1, 2]);
    assert_eq!(q.occupied(), 2);
    assert_eq!(q.try_pop(), Some(3));
}
