//! Text renderings of device readings: a console layout and CSV rows.
//! Parameter values arrive already rendered as text.

use vstd::prelude::*;
use vstd::string::*;
use crate::clock::{current_clock_text, current_rfc3339, is_clock_text, is_rfc3339_utc_text};
use crate::text::{decimal, push_decimal};

verus! {

/// Console layout.
pub struct ConsoleFormatter;

/// JSON layout (its documents are produced by `serde_json`, outside the
/// library; it has no header).
pub struct JsonFormatter;

/// CSV layout: one `device,parameter,value,timestamp` row per value.
pub struct CsvFormatter;

/// `n` copies of `s`.
pub open spec fn repeat(s: Seq<char>, n: nat) -> Seq<char>
    decreases n,
{
    if n == 0 {
        Seq::empty()
    } else {
        repeat(s, (n - 1) as nat) + s
    }
}

/// Appends `n` copies of `s`.
fn push_repeat(out: &mut String, s: &str, n: usize)
    ensures
        final(out)@ == old(out)@ + repeat(s@, n as nat),
{
    let mut i: usize = 0;
    assert(old(out)@ + repeat(s@, 0) =~= old(out)@);
    while i < n
        invariant
            i <= n,
            out@ == old(out)@ + repeat(s@, i as nat),
        decreases n - i,
    {
        out.append(s);
        i += 1;
        assert(out@ =~= old(out)@ + repeat(s@, i as nat));
    }
}

/// The console lines `name: value` of a device's parameters.
pub open spec fn console_lines(params: Seq<(String, String)>) -> Seq<char>
    decreases params.len(),
{
    if params.len() == 0 {
        Seq::empty()
    } else {
        console_lines(params.drop_last()) + params.last().0@ + ": "@ + params.last().1@ + "\n"@
    }
}

/// The console block of one device.
pub open spec fn console_device_block(addr: u8, params: Seq<(String, String)>) -> Seq<char> {
    "🔹 Device "@ + decimal(addr as nat) + " Data:\n"@ + console_lines(params)
}

/// The console blocks of several devices, each followed by a rule.
pub open spec fn console_device_blocks(devices: Seq<(u8, Vec<(String, String)>)>) -> Seq<char>
    decreases devices.len(),
{
    if devices.len() == 0 {
        Seq::empty()
    } else {
        console_device_blocks(devices.drop_last()) + console_device_block(
            devices.last().0,
            devices.last().1@,
        ) + repeat("-"@, 30) + "\n"@
    }
}

/// The console lines `  Device addr: value` of one parameter.
pub open spec fn console_value_lines(values: Seq<(u8, String)>) -> Seq<char>
    decreases values.len(),
{
    if values.len() == 0 {
        Seq::empty()
    } else {
        console_value_lines(values.drop_last()) + "  Device "@ + decimal(values.last().0 as nat)
            + ": "@ + values.last().1@ + "\n"@
    }
}

/// The CSV rows of one device's parameters, stamped `timestamp`.
pub open spec fn csv_rows(addr: u8, params: Seq<(String, String)>, timestamp: Seq<char>) -> Seq<
    char,
>
    decreases params.len(),
{
    if params.len() == 0 {
        Seq::empty()
    } else {
        csv_rows(addr, params.drop_last(), timestamp) + decimal(addr as nat) + ","@
            + params.last().0@ + ","@ + params.last().1@ + ","@ + timestamp + "\n"@
    }
}

/// The CSV rows of several devices, stamped `timestamp`.
pub open spec fn csv_device_rows(
    devices: Seq<(u8, Vec<(String, String)>)>,
    timestamp: Seq<char>,
) -> Seq<char>
    decreases devices.len(),
{
    if devices.len() == 0 {
        Seq::empty()
    } else {
        csv_device_rows(devices.drop_last(), timestamp) + csv_rows(
            devices.last().0,
            devices.last().1@,
            timestamp,
        )
    }
}

/// The CSV rows of one parameter across devices, stamped `timestamp`.
pub open spec fn csv_value_rows(
    parameter: Seq<char>,
    values: Seq<(u8, String)>,
    timestamp: Seq<char>,
) -> Seq<char>
    decreases values.len(),
{
    if values.len() == 0 {
        Seq::empty()
    } else {
        csv_value_rows(parameter, values.drop_last(), timestamp) + decimal(
            values.last().0 as nat,
        ) + ","@ + parameter + ","@ + values.last().1@ + ","@ + timestamp + "\n"@
    }
}

fn push_console_lines(out: &mut String, params: &Vec<(String, String)>)
    ensures
        final(out)@ == old(out)@ + console_lines(params@),
{
    let mut i: usize = 0;
    assert(params@.take(0) =~= Seq::<(String, String)>::empty());
    assert(old(out)@ + console_lines(params@.take(0)) =~= old(out)@);
    while i < params.len()
        invariant
            i <= params@.len(),
            out@ == old(out)@ + console_lines(params@.take(i as int)),
        decreases params@.len() - i,
    {
        let ghost before = out@;
        out.append(params[i].0.as_str());
        out.append(": ");
        out.append(params[i].1.as_str());
        out.append("\n");
        proof {
            let t = params@.take(i + 1);
            assert(t.drop_last() =~= params@.take(i as int));
            assert(t.last() == params@[i as int]);
            assert(out@ =~= old(out)@ + console_lines(t));
        }
        i += 1;
    }
    assert(params@.take(params@.len() as int) =~= params@);
}

fn push_csv_rows(out: &mut String, addr: u8, params: &Vec<(String, String)>, timestamp: &str)
    ensures
        final(out)@ == old(out)@ + csv_rows(addr, params@, timestamp@),
{
    let mut i: usize = 0;
    assert(params@.take(0) =~= Seq::<(String, String)>::empty());
    assert(old(out)@ + csv_rows(addr, params@.take(0), timestamp@) =~= old(out)@);
    while i < params.len()
        invariant
            i <= params@.len(),
            out@ == old(out)@ + csv_rows(addr, params@.take(i as int), timestamp@),
        decreases params@.len() - i,
    {
        push_decimal(out, addr as u64);
        out.append(",");
        out.append(params[i].0.as_str());
        out.append(",");
        out.append(params[i].1.as_str());
        out.append(",");
        out.append(timestamp);
        out.append("\n");
        proof {
            let t = params@.take(i + 1);
            assert(t.drop_last() =~= params@.take(i as int));
            assert(t.last() == params@[i as int]);
            assert(out@ =~= old(out)@ + csv_rows(addr, t, timestamp@));
        }
        i += 1;
    }
    assert(params@.take(params@.len() as int) =~= params@);
}

impl ConsoleFormatter {
    /// `🔹 Device <addr> Data:` and one `name: value` line per parameter.
    pub fn format_single_device(&self, addr: u8, params: &Vec<(String, String)>) -> (r: String)
        ensures
            r@ == console_device_block(addr, params@),
    {
        let mut output = String::from_str("🔹 Device ");
        push_decimal(&mut output, addr as u64);
        output.append(" Data:\n");
        push_console_lines(&mut output, params);
        output
    }

    /// A title and a double rule, then each device's block followed by a
    /// 30-dash rule.
    pub fn format_multiple_devices(&self, devices_data: &Vec<(u8, Vec<(String, String)>)>) -> (r:
        String)
        ensures
            r@ == "📊 All Device Data:\n"@ + repeat("═"@, 60) + "\n"@ + console_device_blocks(
                devices_data@,
            ),
    {
        let mut output = String::from_str("📊 All Device Data:\n");
        push_repeat(&mut output, "═", 60);
        output.append("\n");
        let ghost head = output@;
        let mut i: usize = 0;
        assert(devices_data@.take(0) =~= Seq::<(u8, Vec<(String, String)>)>::empty());
        assert(head + console_device_blocks(devices_data@.take(0)) =~= head);
        while i < devices_data.len()
            invariant
                i <= devices_data@.len(),
                output@ == head + console_device_blocks(devices_data@.take(i as int)),
            decreases devices_data@.len() - i,
        {
            let block = self.format_single_device(devices_data[i].0, &devices_data[i].1);
            output.append(block.as_str());
            push_repeat(&mut output, "-", 30);
            output.append("\n");
            proof {
                let t = devices_data@.take(i + 1);
                assert(t.drop_last() =~= devices_data@.take(i as int));
                assert(t.last() == devices_data@[i as int]);
                assert(output@ =~= head + console_device_blocks(t));
            }
            i += 1;
        }
        assert(devices_data@.take(devices_data@.len() as int) =~= devices_data@);
        output
    }

    /// `📈 Parameter: <name>` and one `  Device <addr>: <value>` line per
    /// device, in the order given.
    pub fn format_parameter_data(&self, parameter: &str, values: &Vec<(u8, String)>) -> (r: String)
        ensures
            r@ == "📈 Parameter: "@ + parameter@ + "\n"@ + console_value_lines(values@),
    {
        let mut output = String::from_str("📈 Parameter: ");
        output.append(parameter);
        output.append("\n");
        let ghost head = output@;
        let mut i: usize = 0;
        assert(values@.take(0) =~= Seq::<(u8, String)>::empty());
        assert(head + console_value_lines(values@.take(0)) =~= head);
        while i < values.len()
            invariant
                i <= values@.len(),
                output@ == head + console_value_lines(values@.take(i as int)),
            decreases values@.len() - i,
        {
            output.append("  Device ");
            push_decimal(&mut output, values[i].0 as u64);
            output.append(": ");
            output.append(values[i].1.as_str());
            output.append("\n");
            proof {
                let t = values@.take(i + 1);
                assert(t.drop_last() =~= values@.take(i as int));
                assert(t.last() == values@[i as int]);
                assert(output@ =~= head + console_value_lines(t));
            }
            i += 1;
        }
        assert(values@.take(values@.len() as int) =~= values@);
        output
    }

    /// The banner for a report made at `time` (`YYYY-MM-DD HH:MM:SS`).
    pub fn format_header_at(&self, time: &str) -> (r: String)
        ensures
            r@ == "🚀 Industrial Modbus Data - "@ + time@ + "\n"@,
    {
        let mut output = String::from_str("🚀 Industrial Modbus Data - ");
        output.append(time);
        output.append("\n");
        output
    }

    /// The banner, stamped with the current time.
    pub fn format_header(&self) -> (r: String)
        ensures
            exists|time: Seq<char>|
                is_clock_text(time) && r@ == "🚀 Industrial Modbus Data - "@ + time + "\n"@,
    {
        let time = current_clock_text();
        self.format_header_at(time.as_str())
    }
}

impl JsonFormatter {
    /// JSON output has no header: the empty string.
    pub fn format_header(&self) -> (r: String)
        ensures
            r@ == Seq::<char>::empty(),
    {
        String::new()
    }
}

impl CsvFormatter {
    /// One row per parameter, stamped `timestamp`.
    pub fn format_single_device_at(
        &self,
        addr: u8,
        params: &Vec<(String, String)>,
        timestamp: &str,
    ) -> (r: String)
        ensures
            r@ == csv_rows(addr, params@, timestamp@),
    {
        let mut csv = String::new();
        push_csv_rows(&mut csv, addr, params, timestamp);
        assert(csv@ =~= csv_rows(addr, params@, timestamp@));
        csv
    }

    /// One row per parameter, stamped with the current time.
    pub fn format_single_device(&self, addr: u8, params: &Vec<(String, String)>) -> (r: String)
        ensures
            exists|timestamp: Seq<char>|
                is_rfc3339_utc_text(timestamp) && r@ == csv_rows(addr, params@, timestamp),
    {
        let timestamp = current_rfc3339();
        self.format_single_device_at(addr, params, timestamp.as_str())
    }

    /// The rows of every device in order, all stamped `timestamp`.
    pub fn format_multiple_devices_at(
        &self,
        devices_data: &Vec<(u8, Vec<(String, String)>)>,
        timestamp: &str,
    ) -> (r: String)
        ensures
            r@ == csv_device_rows(devices_data@, timestamp@),
    {
        let mut csv = String::new();
        let mut i: usize = 0;
        assert(devices_data@.take(0) =~= Seq::<(u8, Vec<(String, String)>)>::empty());
        assert(csv@ =~= csv_device_rows(devices_data@.take(0), timestamp@));
        while i < devices_data.len()
            invariant
                i <= devices_data@.len(),
                csv@ == csv_device_rows(devices_data@.take(i as int), timestamp@),
            decreases devices_data@.len() - i,
        {
            push_csv_rows(&mut csv, devices_data[i].0, &devices_data[i].1, timestamp);
            proof {
                let t = devices_data@.take(i + 1);
                assert(t.drop_last() =~= devices_data@.take(i as int));
                assert(t.last() == devices_data@[i as int]);
                assert(csv@ =~= csv_device_rows(t, timestamp@));
            }
            i += 1;
        }
        assert(devices_data@.take(devices_data@.len() as int) =~= devices_data@);
        csv
    }

    /// The rows of every device in order, all stamped with one reading of
    /// the current time.
    pub fn format_multiple_devices(&self, devices_data: &Vec<(u8, Vec<(String, String)>)>) -> (r:
        String)
        ensures
            exists|timestamp: Seq<char>|
                is_rfc3339_utc_text(timestamp) && r@ == csv_device_rows(devices_data@, timestamp),
    {
        let timestamp = current_rfc3339();
        self.format_multiple_devices_at(devices_data, timestamp.as_str())
    }

    /// One `addr,parameter,value,timestamp` row per device, in the order
    /// given.
    pub fn format_parameter_data_at(
        &self,
        parameter: &str,
        values: &Vec<(u8, String)>,
        timestamp: &str,
    ) -> (r: String)
        ensures
            r@ == csv_value_rows(parameter@, values@, timestamp@),
    {
        let mut csv = String::new();
        let mut i: usize = 0;
        assert(values@.take(0) =~= Seq::<(u8, String)>::empty());
        assert(csv@ =~= csv_value_rows(parameter@, values@.take(0), timestamp@));
        while i < values.len()
            invariant
                i <= values@.len(),
                csv@ == csv_value_rows(parameter@, values@.take(i as int), timestamp@),
            decreases values@.len() - i,
        {
            push_decimal(&mut csv, values[i].0 as u64);
            csv.append(",");
            csv.append(parameter);
            csv.append(",");
            csv.append(values[i].1.as_str());
            csv.append(",");
            csv.append(timestamp);
            csv.append("\n");
            proof {
                let t = values@.take(i + 1);
                assert(t.drop_last() =~= values@.take(i as int));
                assert(t.last() == values@[i as int]);
                assert(csv@ =~= csv_value_rows(parameter@, t, timestamp@));
            }
            i += 1;
        }
        assert(values@.take(values@.len() as int) =~= values@);
        csv
    }

    /// The parameter's rows, stamped with the current time.
    pub fn format_parameter_data(&self, parameter: &str, values: &Vec<(u8, String)>) -> (r: String)
        ensures
            exists|timestamp: Seq<char>|
                is_rfc3339_utc_text(timestamp) && r@ == csv_value_rows(
                    parameter@,
                    values@,
                    timestamp,
                ),
    {
        let timestamp = current_rfc3339();
        self.format_parameter_data_at(parameter, values, timestamp.as_str())
    }

    /// `Device,Parameter,Value,Timestamp` and a line break.
    pub fn format_header(&self) -> (r: String)
        ensures
            r@ == "Device,Parameter,Value,Timestamp\n"@,
    {
        String::from_str("Device,Parameter,Value,Timestamp\n")
    }
}

} // verus!
