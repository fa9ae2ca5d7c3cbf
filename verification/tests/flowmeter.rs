use ipc_flowmeter::error::ModbusError;
use ipc_flowmeter::float_bits::F32Bits;
use ipc_flowmeter::flowmeter::{FlowmeterData, FlowmeterDevice, ParameterValue};
use ipc_flowmeter::models::FlowmeterReading;

fn payload() -> Vec<u8> {
    let mut p = Vec::new();
    p.extend_from_slice(&7u32.to_be_bytes());
    p.extend_from_slice(&12.5f32.to_be_bytes());
    p.extend_from_slice(&0.85f32.to_be_bytes());
    p.extend_from_slice(&21.25f32.to_be_bytes());
    p.extend_from_slice(&3.5f32.to_be_bytes());
    p.extend_from_slice(&[0xAA; 8]);
    p.extend_from_slice(&1000.0f32.to_be_bytes());
    p.extend_from_slice(&1200.0f32.to_be_bytes());
    p.extend_from_slice(&(-4.0f32).to_be_bytes());
    p.extend_from_slice(&8.0f32.to_be_bytes());
    p
}

#[test]
fn new_device_uses_the_register_map() {
    let d = FlowmeterDevice::new(2, "Main line".to_string());
    assert_eq!(d.address, 2);
    assert_eq!(d.name, "Main line");
    assert_eq!(d.start_register, 244);
    assert_eq!(d.register_count, 22);
    assert_eq!(d.reset_coil, 2);
    assert_eq!(d.device_type(), "BL410_Flowmeter");
    assert_eq!(d.address(), 2);
    assert_eq!(d.name(), "Main line");
}

#[test]
fn payload_decodes_big_endian_words() {
    let d = FlowmeterDevice::new(3, "B".to_string());
    let data = d.parse_raw_data_at(&payload(), 1_700_000_000).unwrap();
    assert_eq!(data.device_address, 3);
    assert_eq!(data.timestamp, 1_700_000_000);
    assert_eq!(data.error_code, 7);
    assert_eq!(data.mass_flow_rate, F32Bits::from_bits(12.5f32.to_bits()));
    assert_eq!(data.density_flow, F32Bits::from_bits(0.85f32.to_bits()));
    assert_eq!(data.temperature, F32Bits::from_bits(21.25f32.to_bits()));
    assert_eq!(data.volume_flow_rate, F32Bits::from_bits(3.5f32.to_bits()));
    assert_eq!(data.mass_total, F32Bits::from_bits(1000.0f32.to_bits()));
    assert_eq!(data.volume_total, F32Bits::from_bits(1200.0f32.to_bits()));
    assert_eq!(data.mass_inventory, F32Bits::from_bits((-4.0f32).to_bits()));
    assert_eq!(data.volume_inventory, F32Bits::from_bits(8.0f32.to_bits()));
    assert_eq!(data.device_address(), 3);
}

#[test]
fn longer_payload_decodes_its_first_44_bytes() {
    let d = FlowmeterDevice::new(3, "B".to_string());
    let mut longer = payload();
    longer.extend_from_slice(&[1, 2, 3, 4, 5]);
    assert_eq!(
        d.parse_raw_data_at(&longer, 5).unwrap(),
        d.parse_raw_data_at(&payload(), 5).unwrap()
    );
}

#[test]
fn short_payload_is_rejected() {
    let d = FlowmeterDevice::new(3, "B".to_string());
    let mut p = payload();
    p.pop();
    let e = d.parse_raw_data(&p).unwrap_err();
    assert_eq!(e, ModbusError::InvalidData("Insufficient data length".to_string()));
    assert_eq!(e.message(), "Invalid data: Insufficient data length");
    assert!(d.parse_raw_data(&[]).is_err());
}

#[test]
fn parse_stamps_the_current_time() {
    let d = FlowmeterDevice::new(3, "B".to_string());
    let data = d.parse_raw_data(&payload()).unwrap();
    assert!(data.timestamp > 1_600_000_000);
    assert_eq!(data.error_code, 7);
}

#[test]
fn parameters_by_name() {
    let d = FlowmeterDevice::new(3, "B".to_string());
    let data = d.parse_raw_data_at(&payload(), 1).unwrap();
    assert_eq!(data.get_parameter("ErrorCode"), Some(ParameterValue::Integer(7)));
    assert_eq!(
        data.get_parameter("DensityFlow"),
        Some(ParameterValue::Fixed { value: F32Bits::from_bits(0.85f32.to_bits()), decimals: 4 })
    );
    assert_eq!(
        data.get_parameter("VolumeTotal"),
        Some(ParameterValue::Fixed { value: F32Bits::from_bits(1200.0f32.to_bits()), decimals: 3 })
    );
    assert_eq!(data.get_parameter("Pressure"), None);
    assert_eq!(data.get_parameter("massflowrate"), None);
}

#[test]
fn all_parameters_in_listing_order() {
    let d = FlowmeterDevice::new(3, "B".to_string());
    let data = d.parse_raw_data_at(&payload(), 1).unwrap();
    let all = data.get_all_parameters();
    let names: Vec<&str> = all.iter().map(|(n, _)| n.as_str()).collect();
    assert_eq!(
        names,
        vec![
            "ErrorCode",
            "MassFlowRate",
            "DensityFlow",
            "Temperature",
            "VolumeFlowRate",
            "MassTotal",
            "VolumeTotal",
            "MassInventory",
            "VolumeInventory"
        ]
    );
    assert_eq!(all[0].1, ParameterValue::Integer(7));
    assert_eq!(
        all[1].1,
        ParameterValue::Fixed { value: F32Bits::from_bits(12.5f32.to_bits()), decimals: 2 }
    );
    for (name, value) in &all {
        assert_eq!(data.get_parameter(name), Some(*value));
    }
}

#[test]
fn default_reading_is_zero() {
    let z = FlowmeterData::default();
    assert_eq!(z.device_address, 0);
    assert_eq!(z.error_code, 0);
    assert_eq!(z.volume_total, F32Bits::zero());
    assert_eq!(z.mass_flow_rate.bits, 0);
}

#[test]
fn reading_record_copies_the_measurements() {
    let d = FlowmeterDevice::new(3, "B".to_string());
    let data = d.parse_raw_data_at(&payload(), 99).unwrap();
    let r = FlowmeterReading::from_flowmeter_data(9, &data, Some("tx-1".to_string()));
    assert_eq!(r.id, None);
    assert_eq!(r.device_address, 9);
    assert_eq!(r.unix_timestamp, 99);
    assert_eq!(r.volume_total, data.volume_total);
    assert_eq!(r.mass_inventory, data.mass_inventory);
    assert_eq!(r.error_code, 7);
    assert_eq!(r.transaction_id, Some("tx-1".to_string()));
}

#[test]
fn float_bits_compare_like_floats() {
    let samples = [0.0f32, -0.0, 1.0, -1.0, 2.5, -2.5, f32::INFINITY, f32::NEG_INFINITY, f32::NAN, 1e-40, -1e-40];
    for a in samples {
        for b in samples {
            let (x, y) = (F32Bits::from_bits(a.to_bits()), F32Bits::from_bits(b.to_bits()));
            assert_eq!(x.lt(y), a < b, "{} < {}", a, b);
            assert_eq!(x.le(y), a <= b, "{} <= {}", a, b);
        }
        assert_eq!(F32Bits::from_bits(a.to_bits()).is_nan(), a.is_nan());
    }
}

#[test]
fn error_messages() {
    assert_eq!(ModbusError::InvalidDevice(17).message(), "Device not found: address 17");
    assert_eq!(ModbusError::CrcError.message(), "CRC checksum mismatch");
    assert_eq!(ModbusError::Timeout.message(), "Timeout occurred");
    assert_eq!(ModbusError::ConnectionError("port busy".to_string()).message(), "Connection error: port busy");
    assert_eq!(ModbusError::ServiceNotAvailable("Database service not available".to_string()).message(), "Service not available: Database service not available");
}
