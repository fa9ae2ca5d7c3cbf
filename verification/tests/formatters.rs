use ipc_flowmeter::formatters::{ConsoleFormatter, CsvFormatter, JsonFormatter};

fn params() -> Vec<(String, String)> {
    vec![("ErrorCode".to_string(), "0".to_string()), ("MassFlowRate".to_string(), "12.50".to_string())]
}

#[test]
fn console_single_device() {
    assert_eq!(
        ConsoleFormatter.format_single_device(2, &params()),
        "🔹 Device 2 Data:\nErrorCode: 0\nMassFlowRate: 12.50\n"
    );
    assert_eq!(ConsoleFormatter.format_single_device(255, &vec![]), "🔹 Device 255 Data:\n");
}

#[test]
fn console_multiple_devices() {
    let out = ConsoleFormatter.format_multiple_devices(&vec![(2, params()), (3, vec![])]);
    let expected = format!(
        "📊 All Device Data:\n{}\n🔹 Device 2 Data:\nErrorCode: 0\nMassFlowRate: 12.50\n{}\n🔹 Device 3 Data:\n{}\n",
        "═".repeat(60),
        "-".repeat(30),
        "-".repeat(30)
    );
    assert_eq!(out, expected);
}

#[test]
fn console_parameter_data() {
    let values = vec![(2u8, "12.50".to_string()), (10u8, "3.00".to_string())];
    assert_eq!(
        ConsoleFormatter.format_parameter_data("MassFlowRate", &values),
        "📈 Parameter: MassFlowRate\n  Device 2: 12.50\n  Device 10: 3.00\n"
    );
}

#[test]
fn console_header() {
    assert_eq!(
        ConsoleFormatter.format_header_at("2024-01-02 03:04:05"),
        "🚀 Industrial Modbus Data - 2024-01-02 03:04:05\n"
    );
    let h = ConsoleFormatter.format_header();
    assert!(h.starts_with("🚀 Industrial Modbus Data - "));
    assert_eq!(h.len(), "🚀 Industrial Modbus Data - ".len() + 19 + 1);
}

#[test]
fn csv_rows() {
    let ts = "2024-01-02T03:04:05+00:00";
    assert_eq!(
        CsvFormatter.format_single_device_at(2, &params(), ts),
        "2,ErrorCode,0,2024-01-02T03:04:05+00:00\n2,MassFlowRate,12.50,2024-01-02T03:04:05+00:00\n"
    );
    assert_eq!(
        CsvFormatter.format_multiple_devices_at(&vec![(2, params()), (7, vec![("ErrorCode".to_string(), "1".to_string())])], "T"),
        "2,ErrorCode,0,T\n2,MassFlowRate,12.50,T\n7,ErrorCode,1,T\n"
    );
    assert_eq!(
        CsvFormatter.format_parameter_data_at("Temperature", &vec![(4, "21.25".to_string())], "T"),
        "4,Temperature,21.25,T\n"
    );
    assert_eq!(CsvFormatter.format_header(), "Device,Parameter,Value,Timestamp\n");
    assert_eq!(JsonFormatter.format_header(), "");
}

#[test]
fn csv_rows_with_current_time() {
    let out = CsvFormatter.format_single_device(2, &params());
    let rows: Vec<&str> = out.lines().collect();
    assert_eq!(rows.len(), 2);
    assert!(rows[0].starts_with("2,ErrorCode,0,"));
    assert!(CsvFormatter.format_parameter_data("P", &vec![(1, "v".to_string())]).starts_with("1,P,v,"));
    assert!(CsvFormatter.format_multiple_devices(&vec![(1, params())]).starts_with("1,ErrorCode,0,"));
}

fn digits(s: &str) -> bool {
    !s.is_empty() && s.chars().all(|c| c.is_ascii_digit())
}

#[test]
fn header_time_is_date_and_clock_time() {
    let h = ConsoleFormatter.format_header();
    let time = h.strip_prefix("🚀 Industrial Modbus Data - ").unwrap().strip_suffix('\n').unwrap();
    let b = time.as_bytes();
    assert_eq!(b.len(), 19);
    for i in [0, 1, 2, 3, 5, 6, 8, 9, 11, 12, 14, 15, 17, 18] {
        assert!(b[i].is_ascii_digit(), "{}", time);
    }
    assert_eq!((b[4], b[7], b[10], b[13], b[16]), (b'-', b'-', b' ', b':', b':'));
}

#[test]
fn csv_timestamp_is_rfc3339_utc() {
    let out = CsvFormatter.format_single_device(2, &params());
    let first = out.lines().next().unwrap();
    let ts = first.strip_prefix("2,ErrorCode,0,").unwrap();
    let rest = ts.strip_suffix("+00:00").unwrap();
    let (date_time, fraction) = match rest.split_once('.') {
        Some((d, f)) => (d, Some(f)),
        None => (rest, None),
    };
    assert_eq!(date_time.len(), 19);
    let b = date_time.as_bytes();
    assert_eq!((b[4], b[7], b[10], b[13], b[16]), (b'-', b'-', b'T', b':', b':'));
    assert!(digits(&date_time[0..4]) && digits(&date_time[5..7]) && digits(&date_time[8..10]));
    assert!(digits(&date_time[11..13]) && digits(&date_time[14..16]) && digits(&date_time[17..19]));
    if let Some(f) = fraction {
        assert!(digits(f) && [3, 6, 9].contains(&f.len()), "{}", ts);
    }
    assert!(out.lines().all(|row| row.ends_with(ts)));
}
