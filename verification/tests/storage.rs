use ipc_flowmeter::batch::{batch_size_for, insert_chunk_size, FlowmeterBatch};
use ipc_flowmeter::float_bits::F32Bits;
use ipc_flowmeter::models::FlowmeterReading;
use ipc_flowmeter::sqlite_queries::{device_readings_query, synchronous_mode, transactions_query, SyncMode};

fn reading(n: i64) -> FlowmeterReading {
    FlowmeterReading {
        id: None,
        device_address: 2,
        unix_timestamp: n,
        mass_flow_rate: F32Bits::zero(),
        density_flow: F32Bits::zero(),
        temperature: F32Bits::zero(),
        volume_flow_rate: F32Bits::zero(),
        mass_total: F32Bits::zero(),
        volume_total: F32Bits::zero(),
        volume_inventory: F32Bits::zero(),
        mass_inventory: F32Bits::zero(),
        error_code: 0,
        transaction_id: None,
    }
}

#[test]
fn batch_hands_over_full_batches_in_order() {
    let mut b = FlowmeterBatch::new(3);
    assert_eq!(b.add_flowmeter_to_batch(vec![reading(1)]), None);
    assert_eq!(b.add_flowmeter_to_batch(vec![]), None);
    assert_eq!(b.len(), 1);
    let out = b.add_flowmeter_to_batch(vec![reading(2), reading(3), reading(4)]).unwrap();
    assert_eq!(out.iter().map(|r| r.unix_timestamp).collect::<Vec<_>>(), vec![1, 2, 3, 4]);
    assert_eq!(b.len(), 0);
    assert_eq!(b.flush_buffer(), None);
    b.add_flowmeter_to_batch(vec![reading(5)]);
    assert_eq!(b.flush_buffer().unwrap(), vec![reading(5)]);
    assert_eq!(b.len(), 0);
}

#[test]
fn batch_size_zero_hands_over_every_addition() {
    let mut b = FlowmeterBatch::new(0);
    assert_eq!(b.add_flowmeter_to_batch(vec![reading(1)]), Some(vec![reading(1)]));
    assert_eq!(b.add_flowmeter_to_batch(vec![]), None);
}

#[test]
fn batch_sizes() {
    assert_eq!(batch_size_for(None), 500);
    assert_eq!(batch_size_for(Some(20)), 20);
    assert_eq!(insert_chunk_size(20), 500);
    assert_eq!(insert_chunk_size(800), 800);
}

#[test]
fn transactions_query_text() {
    assert_eq!(transactions_query(None, None), "SELECT * FROM transactions ORDER BY created_at DESC");
    assert_eq!(transactions_query(None, Some(5)), "SELECT * FROM transactions ORDER BY created_at DESC");
    assert_eq!(
        transactions_query(Some(100), None),
        "SELECT * FROM transactions ORDER BY created_at DESC LIMIT 100"
    );
    assert_eq!(
        transactions_query(Some(10), Some(-20)),
        "SELECT * FROM transactions ORDER BY created_at DESC LIMIT 10 OFFSET -20"
    );
    assert_eq!(
        transactions_query(Some(i64::MIN), None),
        format!("SELECT * FROM transactions ORDER BY created_at DESC LIMIT {}", i64::MIN)
    );
}

#[test]
fn device_readings_query_text() {
    let (q, b) = device_readings_query(7, None, None, None);
    assert_eq!(q, "SELECT * FROM flowmeter_readings WHERE device_address = ? ORDER BY unix_timestamp DESC");
    assert_eq!(b, vec!["7".to_string()]);
    let (q, b) = device_readings_query(7, Some(100), Some(200), Some(5));
    assert_eq!(
        q,
        "SELECT * FROM flowmeter_readings WHERE device_address = ? AND unix_timestamp >= ? AND unix_timestamp <= ? ORDER BY unix_timestamp DESC LIMIT ?"
    );
    assert_eq!(b, vec!["7", "100", "200", "5"]);
    let (q, b) = device_readings_query(0, None, Some(-3), None);
    assert_eq!(q, "SELECT * FROM flowmeter_readings WHERE device_address = ? AND unix_timestamp <= ? ORDER BY unix_timestamp DESC");
    assert_eq!(b, vec!["0", "-3"]);
}

#[test]
fn synchronous_modes() {
    assert_eq!(synchronous_mode("OFF"), SyncMode::Off);
    assert_eq!(synchronous_mode("NORMAL"), SyncMode::Normal);
    assert_eq!(synchronous_mode("FULL"), SyncMode::Full);
    assert_eq!(synchronous_mode("full"), SyncMode::Normal);
    assert_eq!(synchronous_mode(""), SyncMode::Normal);
}
