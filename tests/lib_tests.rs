use screen_share::add;
use screen_share::consumer::{consumer_step, ConsumerAction};
use screen_share::control::{get_client_boradcast_enable, set_client_boradcast_enable, ControlFlag};
use screen_share::frame_buffer::FrameBuffer;
use screen_share::producer::BUFFER_CAPACITY;

#[test]
fn it_works() {
    let result = add(2, 2);
    assert_eq!(result, 4);
}

#[test]
fn flag_starts_cleared_and_toggles() {
    let mut flag = ControlFlag::new();
    assert!(!get_client_boradcast_enable(&flag));
    set_client_boradcast_enable(&mut flag, true);
    assert!(get_client_boradcast_enable(&flag));
    set_client_boradcast_enable(&mut flag, false);
    assert!(!get_client_boradcast_enable(&flag));
}

#[test]
fn capacity_three_four_publishes_read_newest() {
    let mut buf = FrameBuffer::new(3);
    let mut sub = buf.subscribe();
    for f in [b"A", b"B", b"C", b"D"] {
        buf.publish(f.to_vec());
    }
    assert_eq!(buf.next(&mut sub), Some(b"D".to_vec()));
    // A, B and C are gone for this consumer: nothing more to read.
    assert_eq!(buf.next(&mut sub), None);
    assert_eq!(buf.published_count(), 4);
}

#[test]
fn read_after_many_publishes_is_latest() {
    let mut buf = FrameBuffer::new(BUFFER_CAPACITY);
    let mut sub = buf.subscribe();
    for i in 0..10u8 {
        buf.publish(vec![i]);
    }
    assert_eq!(buf.next(&mut sub), Some(vec![9]));
    let mut buf2 = FrameBuffer::new(5);
    let mut sub2 = buf2.subscribe();
    buf2.publish(vec![1]);
    buf2.publish(vec![2]);
    assert_eq!(buf2.next(&mut sub2), Some(vec![2]));
}

#[test]
fn reads_are_in_order_without_duplicates() {
    let mut buf = FrameBuffer::new(2);
    let mut sub = buf.subscribe();
    assert_eq!(buf.next(&mut sub), None);
    buf.publish(vec![1]);
    assert_eq!(buf.next(&mut sub), Some(vec![1]));
    assert_eq!(buf.next(&mut sub), None);
    buf.publish(vec![2]);
    buf.publish(vec![3]);
    assert_eq!(buf.next(&mut sub), Some(vec![3]));
    buf.publish(vec![4]);
    assert_eq!(buf.next(&mut sub), Some(vec![4]));
    assert_eq!(buf.next(&mut sub), None);
}

#[test]
fn subscriber_starts_at_next_publish() {
    let mut buf = FrameBuffer::new(3);
    buf.publish(vec![7]);
    let mut late = buf.subscribe();
    assert_eq!(buf.next(&mut late), None);
    buf.publish(vec![8]);
    assert_eq!(buf.next(&mut late), Some(vec![8]));
    assert_eq!(buf.capacity(), 3);
}

#[test]
fn consumer_sends_waits_and_stops() {
    let mut flag = ControlFlag::new();
    set_client_boradcast_enable(&mut flag, true);
    let mut buf = FrameBuffer::new(3);
    let mut sub = buf.subscribe();
    assert!(matches!(consumer_step(&flag, &buf, &mut sub), ConsumerAction::Wait));
    buf.publish(vec![5, 6]);
    match consumer_step(&flag, &buf, &mut sub) {
        ConsumerAction::Send(f) => assert_eq!(f, vec![5, 6]),
        _ => panic!("expected a frame"),
    }
    buf.publish(vec![9]);
    set_client_boradcast_enable(&mut flag, false);
    assert!(matches!(consumer_step(&flag, &buf, &mut sub), ConsumerAction::Stop));
}
