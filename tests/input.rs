use robotica_remote::button::{button_message, ButtonId, Value};
use robotica_remote::messages::Message;
use robotica_remote::touch::{
    notification_level, NotifyTable, TouchControllerBuilder, TouchError,
};

#[test]
fn edges_keep_their_order() {
    let id = ButtonId::Physical(1);
    let got: Vec<Message> =
        [Value::High, Value::Low, Value::High].iter().map(|v| button_message(id, *v)).collect();
    assert!(matches!(got[0], Message::ButtonPress(ButtonId::Physical(1))));
    assert!(matches!(got[1], Message::ButtonRelease(ButtonId::Physical(1))));
    assert!(matches!(got[2], Message::ButtonPress(ButtonId::Physical(1))));
    assert_eq!(got.len(), 3);
}

#[test]
fn touch_builder_rejects_bad_channels() {
    let mut b = TouchControllerBuilder::new();
    let pin = b.add_pin(3, 15, 400).unwrap();
    assert_eq!(pin.channel(), 3);
    assert_eq!(pin.pin_number(), 15);
    assert_eq!(pin.threshold(), 400);
    assert!(b.has_pin(3));
    assert_eq!(b.add_pin(3, 15, 400).unwrap_err(), TouchError::DuplicateChannel(3));
    assert_eq!(b.add_pin(10, 4, 400).unwrap_err(), TouchError::InvalidChannel(10));
    assert!(pin.is_high_reading(401));
    assert!(!pin.is_high_reading(400));
    assert!(pin.is_low_reading(400));
}

#[test]
fn first_subscription_arms_hardware_once() {
    let mut t = NotifyTable::new();
    assert_eq!(t.subscribe(2), Ok(true));
    assert_eq!(t.subscribe(5), Ok(false));
    assert_eq!(t.subscribe(2), Err(TouchError::DuplicateChannel(2)));
    assert_eq!(t.subscribe(12), Err(TouchError::InvalidChannel(12)));
}

#[test]
fn interrupt_posts_subscribed_channels_once() {
    let mut t = NotifyTable::new();
    t.subscribe(2).unwrap();
    t.subscribe(5).unwrap();
    t.post_from_interrupt(0b11_1111_1111, true);
    t.post_from_interrupt(0b11_1111_1111, true);
    assert!(t.take_notification(2));
    assert!(!t.take_notification(2));
    assert!(t.take_notification(5));
    assert!(!t.take_notification(3));
    assert!(!t.take_notification(40));
}

#[test]
fn interrupt_drops_cycle_when_status_not_cleared() {
    let mut t = NotifyTable::new();
    t.subscribe(1).unwrap();
    t.post_from_interrupt(0b10, false);
    assert!(!t.take_notification(1));
    t.post_from_interrupt(0b01, true);
    assert!(!t.take_notification(1));
    t.unsubscribe(1);
    t.post_from_interrupt(0b10, true);
    assert!(!t.take_notification(1));
}

#[test]
fn notification_levels() {
    assert_eq!(notification_level(1), Value::High);
    assert_eq!(notification_level(0), Value::Low);
}

#[test]
fn every_channel_pending_at_once() {
    let mut t = NotifyTable::new();
    for c in 0..10 {
        assert_eq!(t.subscribe(c).is_ok(), true);
    }
    for _ in 0..100 {
        t.post_from_interrupt(u32::MAX, true);
    }
    for c in 0..10 {
        assert!(t.take_notification(c));
        assert!(!t.take_notification(c));
    }
}
