use ipc_flowmeter::float_bits::F32Bits;
use ipc_flowmeter::tracking::ServiceState;

fn bits(v: f32) -> F32Bits {
    F32Bits::from_bits(v.to_bits())
}

#[test]
fn streaming_start_and_stop_balance() {
    let mut s = ServiceState::new();
    assert!(s.start_streaming());
    assert!(!s.start_streaming());
    assert_eq!(s.streaming_clients, 2);
    let first = s.stop_streaming();
    assert!(!first.stop_polling && !first.count_was_zero);
    let second = s.stop_streaming();
    assert!(second.stop_polling);
    assert_eq!(s.streaming_clients, 0);
    let extra = s.stop_streaming();
    assert!(extra.count_was_zero && !extra.stop_polling);
    assert_eq!(s.streaming_clients, 0);
}

#[test]
fn stopping_cancels_the_transaction() {
    let mut s = ServiceState::new();
    s.start_streaming();
    s.start_transaction_with_volume("tx-1".to_string(), bits(100.0), "Vessel".to_string());
    let r = s.stop_streaming();
    assert_eq!(r.cancelled_transaction, Some("tx-1".to_string()));
    assert!(s.active_transaction.is_none());
    assert_eq!(s.stop_streaming().cancelled_transaction, None);
}

#[test]
fn transaction_completes_once_at_target() {
    let mut s = ServiceState::new();
    assert_eq!(s.get_active_transaction_id(), None);
    s.start_transaction_with_volume("tx-9".to_string(), bits(100.0), "Vessel".to_string());
    assert_eq!(s.current_volume(), Some(F32Bits::zero()));
    assert_eq!(s.get_active_transaction_id(), Some("tx-9".to_string()));
    let u = s.update_transaction_volume(bits(60.0));
    assert_eq!(u.transaction_id, Some("tx-9".to_string()));
    assert!(!u.completed);
    assert_eq!(s.current_volume(), Some(bits(60.0)));
    let u = s.update_transaction_volume(bits(100.0));
    assert_eq!(u.transaction_id, Some("tx-9".to_string()));
    assert!(u.completed);
    assert!(s.active_transaction.is_none());
    let u = s.update_transaction_volume(bits(150.0));
    assert_eq!(u.transaction_id, None);
    assert!(!u.completed);
}

#[test]
fn negative_delta_only_reports_the_open_transaction() {
    let mut s = ServiceState::new();
    s.start_transaction_with_volume("tx-2".to_string(), bits(10.0), "V".to_string());
    let u = s.record_volume_delta(bits(-1.0), bits(-1.0));
    assert_eq!(u.transaction_id, Some("tx-2".to_string()));
    assert_eq!(s.current_volume(), Some(F32Bits::zero()));
    let u = s.record_volume_delta(bits(4.0), bits(4.0));
    assert_eq!(u.transaction_id, Some("tx-2".to_string()));
    assert_eq!(s.current_volume(), Some(bits(4.0)));
    let u = s.record_volume_delta(bits(f32::NAN), bits(f32::NAN));
    assert_eq!(u.transaction_id, Some("tx-2".to_string()));
    let u = s.record_volume_delta(bits(7.0), bits(11.0));
    assert!(u.completed);
}

#[test]
fn starting_again_replaces_the_transaction() {
    let mut s = ServiceState::new();
    s.start_transaction_with_volume("a".to_string(), bits(5.0), "V".to_string());
    s.update_transaction_volume(bits(3.0));
    s.start_transaction_with_volume("b".to_string(), bits(5.0), "W".to_string());
    assert_eq!(s.get_active_transaction_id(), Some("b".to_string()));
    assert_eq!(s.current_volume(), Some(F32Bits::zero()));
}

#[test]
fn transaction_at_target_is_not_reported_by_later_readings() {
    let mut s = ServiceState::new();
    s.start_transaction_with_volume("t".to_string(), bits(0.0), "V".to_string());
    for (delta, after) in [(0.0f32, 0.0f32), (2.5, 2.5), (1.0, 3.5)] {
        let u = s.record_volume_delta(bits(delta), bits(after));
        assert_eq!(u.transaction_id, None);
        assert!(!u.completed);
    }
    assert_eq!(s.current_volume(), Some(bits(3.5)));
    assert_eq!(s.get_active_transaction_id(), None);
}
