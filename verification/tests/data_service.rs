use ipc_flowmeter::data_service::{find_device, format_device_parameters, format_volatile_values, join, register_devices, DeviceConfig};
use ipc_flowmeter::error::ModbusError;

fn cfg(address: u8, name: &str, uuid: &str, enabled: bool) -> DeviceConfig {
    DeviceConfig {
        address,
        name: name.to_string(),
        uuid: uuid.to_string(),
        enabled,
        location: "Deck".to_string(),
    }
}

#[test]
fn registers_enabled_devices_in_order() {
    let configs = vec![cfg(2, "A", "u-a", true), cfg(3, "B", "u-b", false), cfg(4, "C", "u-c", true), cfg(2, "D", "u-d", true)];
    let (devices, uuids) = register_devices(&configs);
    let names: Vec<(u8, &str)> = devices.iter().map(|d| (d.address, d.name.as_str())).collect();
    assert_eq!(names, vec![(2, "A"), (4, "C"), (2, "D")]);
    assert!(devices.iter().all(|d| d.start_register == 244 && d.register_count == 22));
    assert_eq!(uuids.len(), 2);
    assert_eq!(uuids.get(&2), Some(&"u-d".to_string()));
    assert_eq!(uuids.get(&4), Some(&"u-c".to_string()));
    assert_eq!(uuids.get(&3), None);
}

#[test]
fn finds_the_first_device_at_an_address() {
    let (devices, _) = register_devices(&vec![cfg(2, "A", "u", true), cfg(4, "C", "v", true), cfg(4, "E", "w", true)]);
    assert_eq!(find_device(&devices, 4), Ok(1));
    assert_eq!(find_device(&devices, 9), Err(ModbusError::InvalidDevice(9)));
}

#[test]
fn summaries() {
    let params = vec![("ErrorCode".to_string(), "0".to_string()), ("Temperature".to_string(), "21.25".to_string())];
    assert_eq!(format_device_parameters(&params), "ErrorCode: 0, Temperature: 21.25");
    assert_eq!(format_device_parameters(&vec![]), "");
    assert_eq!(format_volatile_values(&vec!["1.00".to_string(), "2.00".to_string()]), "1.00 2.00");
    assert_eq!(join(&vec!["a".to_string()], "--"), "a");
    assert_eq!(join(&vec!["a".to_string(), String::new(), "c".to_string()], "--"), "a----c");
}
