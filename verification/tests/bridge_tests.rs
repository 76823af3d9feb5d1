use dart_bridge::bridge::{post_result, DartBridge, PostAction};
use dart_bridge::message::DartCObject;

#[test]
fn post_before_init_is_rejected() {
    let bridge = DartBridge::new();
    let action = bridge.post_message_to_dart(7);
    assert_eq!(action, PostAction::Reject);
    assert_eq!(post_result(&action, true), false);
    assert_eq!(post_result(&action, false), false);
}

#[test]
fn init_reports_success() {
    let mut bridge = DartBridge::new();
    assert_eq!(bridge.init_dart_api(42), 1);
}

#[test]
fn post_after_init_delivers_to_registered_callback() {
    let mut bridge = DartBridge::new();
    bridge.init_dart_api(42);
    let action = bridge.post_message_to_dart(7);
    assert_eq!(
        action,
        PostAction::Deliver {
            callback: 42,
            port: 7
        }
    );
    assert_eq!(post_result(&action, true), true);
    assert_eq!(post_result(&action, false), false);
}

#[test]
fn reinit_uses_newest_callback() {
    let mut bridge = DartBridge::new();
    bridge.init_dart_api(42);
    bridge.init_dart_api(99);
    let action = bridge.post_message_to_dart(8);
    assert_eq!(
        action,
        PostAction::Deliver {
            callback: 99,
            port: 8
        }
    );
}

#[test]
fn post_int_builds_int64_message() {
    let mut bridge = DartBridge::new();
    bridge.init_dart_api(5);
    let (message, action) = bridge.post_int_to_dart(3, 42);
    assert_eq!(message, DartCObject::Int64(42));
    assert_eq!(
        action,
        PostAction::Deliver {
            callback: 5,
            port: 3
        }
    );
}

#[test]
fn post_bool_round_trips_both_values() {
    let bridge = DartBridge::new();
    let (message_true, _) = bridge.post_bool_to_dart(3, true);
    assert_eq!(message_true, DartCObject::Bool(true));
    let (message_false, _) = bridge.post_bool_to_dart(3, false);
    assert_eq!(message_false, DartCObject::Bool(false));
}

#[test]
fn post_null_builds_absent_value_message() {
    let bridge = DartBridge::new();
    let (message, action) = bridge.post_null_to_dart(3);
    assert_eq!(message, DartCObject::Null);
    assert_eq!(action, PostAction::Reject);
}
