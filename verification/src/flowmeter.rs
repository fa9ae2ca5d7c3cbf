//! The BL410 flowmeter: its Modbus register map and the decoding of the
//! holding-register payload into measurements.

use vstd::prelude::*;
use vstd::string::*;
use crate::clock::current_unix_timestamp;
use crate::error::ModbusError;
use crate::float_bits::F32Bits;
use crate::text::str_eq;

verus! {

/// Register addresses in the manual count from 1; the protocol counts from 0.
pub const FLOWMETER_REG_OFFSET_ADDR: u16 = 1;

/// Bytes of holding-register payload that a reading needs (22 registers).
pub const FLOWMETER_PAYLOAD_LEN: usize = 44;

/// A flowmeter on the Modbus line.
#[derive(Debug, Clone)]
pub struct FlowmeterDevice {
    pub address: u8,
    pub name: String,
    pub start_register: u16,
    pub register_count: u16,
    pub reset_coil: u16,
}

/// One decoded reading. The measurement fields are the binary32 values the
/// instrument sent, kept as their encodings; `timestamp` is in Unix seconds.
#[derive(Debug, Clone, PartialEq, Eq)]
pub struct FlowmeterData {
    pub device_address: u8,
    pub timestamp: i64,
    pub error_code: u32,
    pub mass_flow_rate: F32Bits,
    pub density_flow: F32Bits,
    pub temperature: F32Bits,
    pub volume_flow_rate: F32Bits,
    pub mass_total: F32Bits,
    pub volume_total: F32Bits,
    pub mass_inventory: F32Bits,
    pub volume_inventory: F32Bits,
}

/// The value of one named parameter of a reading: the error code as an
/// integer, or a measurement to be printed with a fixed number of decimals.
#[derive(Debug, Clone, Copy, PartialEq, Eq)]
pub enum ParameterValue {
    Integer(u32),
    Fixed { value: F32Bits, decimals: u8 },
}

/// The big-endian 32-bit word at byte offset `off`.
pub open spec fn be_u32(data: Seq<u8>, off: int) -> u32 {
    (data[off] as int * 0x100_0000 + data[off + 1] as int * 0x1_0000 + data[off + 2] as int
        * 0x100 + data[off + 3] as int) as u32
}

/// The reading that a payload of at least 44 bytes decodes to.
pub open spec fn decode_payload(address: u8, data: Seq<u8>, timestamp: i64) -> FlowmeterData {
    FlowmeterData {
        device_address: address,
        timestamp,
        error_code: be_u32(data, 0),
        mass_flow_rate: F32Bits { bits: be_u32(data, 4) },
        density_flow: F32Bits { bits: be_u32(data, 8) },
        temperature: F32Bits { bits: be_u32(data, 12) },
        volume_flow_rate: F32Bits { bits: be_u32(data, 16) },
        mass_total: F32Bits { bits: be_u32(data, 28) },
        volume_total: F32Bits { bits: be_u32(data, 32) },
        mass_inventory: F32Bits { bits: be_u32(data, 36) },
        volume_inventory: F32Bits { bits: be_u32(data, 40) },
    }
}

/// The error for a payload shorter than 44 bytes.
pub open spec fn is_short_payload_error(e: ModbusError) -> bool {
    e matches ModbusError::InvalidData(m) && m@ == "Insufficient data length"@
}

/// Reads the big-endian word at `off`.
fn read_be_u32(data: &[u8], off: usize) -> (r: u32)
    requires
        off + 4 <= data@.len(),
    ensures
        r == be_u32(data@, off as int),
{
    let b0 = data[off];
    let b1 = data[off + 1];
    let b2 = data[off + 2];
    let b3 = data[off + 3];
    let r = ((b0 as u32) << 24) | ((b1 as u32) << 16) | ((b2 as u32) << 8) | (b3 as u32);
    assert(r == (b0 as int * 0x100_0000 + b1 as int * 0x1_0000 + b2 as int * 0x100
        + b3 as int) as u32) by (bit_vector)
        requires
            r == ((b0 as u32) << 24) | ((b1 as u32) << 16) | ((b2 as u32) << 8) | (b3 as u32),
    ;
    r
}

impl FlowmeterDevice {
    /// A flowmeter at `address`: 22 holding registers from register 245
    /// (manual numbering), reset through coil 3.
    pub fn new(address: u8, name: String) -> (r: FlowmeterDevice)
        ensures
            r.address == address,
            r.name == name,
            r.start_register == 244,
            r.register_count == 22,
            r.reset_coil == 2,
    {
        FlowmeterDevice {
            address,
            name,
            start_register: 245 - FLOWMETER_REG_OFFSET_ADDR,
            register_count: 22,
            reset_coil: 3 - FLOWMETER_REG_OFFSET_ADDR,
        }
    }

    /// The device model name.
    pub fn device_type(&self) -> (r: &str)
        ensures
            r@ == "BL410_Flowmeter"@,
    {
        "BL410_Flowmeter"
    }

    /// The Modbus slave address.
    pub fn address(&self) -> (r: u8)
        ensures
            r == self.address,
    {
        self.address
    }

    /// The configured name.
    pub fn name(&self) -> (r: &str)
        ensures
            r@ == self.name@,
    {
        self.name.as_str()
    }

    /// Decodes a holding-register payload read at time `timestamp`.
    /// Words are big-endian; the words at byte offsets 20..28 are not used.
    pub fn parse_raw_data_at(&self, data: &[u8], timestamp: i64) -> (r: Result<
        FlowmeterData,
        ModbusError,
    >)
        ensures
            data@.len() < 44 ==> (r matches Err(e) && is_short_payload_error(e)),
            data@.len() >= 44 ==> r == Ok::<FlowmeterData, ModbusError>(
                decode_payload(self.address, data@, timestamp),
            ),
    {
        if data.len() < FLOWMETER_PAYLOAD_LEN {
            return Err(ModbusError::InvalidData(String::from_str("Insufficient data length")));
        }
        let error_code = read_be_u32(data, 0);
        let mass_flow_rate = read_be_u32(data, 4);
        let density_flow = read_be_u32(data, 8);
        let temperature = read_be_u32(data, 12);
        let volume_flow_rate = read_be_u32(data, 16);
        let mass_total = read_be_u32(data, 28);
        let volume_total = read_be_u32(data, 32);
        let mass_inventory = read_be_u32(data, 36);
        let volume_inventory = read_be_u32(data, 40);
        Ok(
            FlowmeterData {
                device_address: self.address,
                timestamp,
                error_code,
                mass_flow_rate: F32Bits::from_bits(mass_flow_rate),
                density_flow: F32Bits::from_bits(density_flow),
                temperature: F32Bits::from_bits(temperature),
                volume_flow_rate: F32Bits::from_bits(volume_flow_rate),
                mass_total: F32Bits::from_bits(mass_total),
                volume_total: F32Bits::from_bits(volume_total),
                mass_inventory: F32Bits::from_bits(mass_inventory),
                volume_inventory: F32Bits::from_bits(volume_inventory),
            },
        )
    }

    /// Decodes a holding-register payload, stamping the reading with the
    /// current time.
    pub fn parse_raw_data(&self, data: &[u8]) -> (r: Result<FlowmeterData, ModbusError>)
        ensures
            data@.len() < 44 ==> (r matches Err(e) && is_short_payload_error(e)),
            data@.len() >= 44 ==> (r matches Ok(d) && d == decode_payload(
                self.address,
                data@,
                d.timestamp,
            ) && d.timestamp >= 0),
    {
        let now = current_unix_timestamp();
        self.parse_raw_data_at(data, now)
    }
}

/// Decoding looks only at the first 44 bytes of a payload: payloads that
/// agree there decode to the same reading.
pub proof fn lemma_decode_reads_prefix(address: u8, a: Seq<u8>, b: Seq<u8>, timestamp: i64)
    requires
        a.len() >= 44,
        b.len() >= 44,
        a.subrange(0, 44) == b.subrange(0, 44),
    ensures
        decode_payload(address, a, timestamp) == decode_payload(address, b, timestamp),
{
    assert forall|i: int| 0 <= i < 44 implies a[i] == b[i] by {
        assert(a[i] == a.subrange(0, 44)[i]);
        assert(b[i] == b.subrange(0, 44)[i]);
    }
}

/// The name of the `i`-th parameter in listing order.
pub open spec fn parameter_name(i: int) -> Seq<char> {
    if i == 0 {
        "ErrorCode"@
    } else if i == 1 {
        "MassFlowRate"@
    } else if i == 2 {
        "DensityFlow"@
    } else if i == 3 {
        "Temperature"@
    } else if i == 4 {
        "VolumeFlowRate"@
    } else if i == 5 {
        "MassTotal"@
    } else if i == 6 {
        "VolumeTotal"@
    } else if i == 7 {
        "MassInventory"@
    } else {
        "VolumeInventory"@
    }
}

/// Number of parameters a reading lists.
pub open spec fn parameter_count() -> int {
    9
}

impl FlowmeterData {
    /// The value of the `i`-th parameter in listing order.
    pub open spec fn parameter_at(self, i: int) -> ParameterValue {
        if i == 0 {
            ParameterValue::Integer(self.error_code)
        } else if i == 1 {
            ParameterValue::Fixed { value: self.mass_flow_rate, decimals: 2 }
        } else if i == 2 {
            ParameterValue::Fixed { value: self.density_flow, decimals: 4 }
        } else if i == 3 {
            ParameterValue::Fixed { value: self.temperature, decimals: 2 }
        } else if i == 4 {
            ParameterValue::Fixed { value: self.volume_flow_rate, decimals: 3 }
        } else if i == 5 {
            ParameterValue::Fixed { value: self.mass_total, decimals: 2 }
        } else if i == 6 {
            ParameterValue::Fixed { value: self.volume_total, decimals: 3 }
        } else if i == 7 {
            ParameterValue::Fixed { value: self.mass_inventory, decimals: 2 }
        } else {
            ParameterValue::Fixed { value: self.volume_inventory, decimals: 3 }
        }
    }

    /// The value of the parameter called `name`, if a reading has one.
    pub open spec fn spec_parameter(self, name: Seq<char>) -> Option<ParameterValue> {
        if exists|i: int| 0 <= i < parameter_count() && parameter_name(i) == name {
            let i = choose|i: int| 0 <= i < parameter_count() && parameter_name(i) == name;
            Some(self.parameter_at(i))
        } else {
            None
        }
    }

    /// An all-zero reading stamped with time `timestamp`.
    pub open spec fn spec_zeroed(timestamp: i64) -> FlowmeterData {
        FlowmeterData {
            device_address: 0,
            timestamp,
            error_code: 0,
            mass_flow_rate: F32Bits::spec_zero(),
            density_flow: F32Bits::spec_zero(),
            temperature: F32Bits::spec_zero(),
            volume_flow_rate: F32Bits::spec_zero(),
            mass_total: F32Bits::spec_zero(),
            volume_total: F32Bits::spec_zero(),
            mass_inventory: F32Bits::spec_zero(),
            volume_inventory: F32Bits::spec_zero(),
        }
    }

    /// An all-zero reading stamped with the current time.
    pub fn default() -> (r: FlowmeterData)
        ensures
            r == FlowmeterData::spec_zeroed(r.timestamp),
            r.timestamp >= 0,
    {
        let now = current_unix_timestamp();
        FlowmeterData {
            device_address: 0,
            timestamp: now,
            error_code: 0,
            mass_flow_rate: F32Bits::zero(),
            density_flow: F32Bits::zero(),
            temperature: F32Bits::zero(),
            volume_flow_rate: F32Bits::zero(),
            mass_total: F32Bits::zero(),
            volume_total: F32Bits::zero(),
            mass_inventory: F32Bits::zero(),
            volume_inventory: F32Bits::zero(),
        }
    }

    /// The address of the device that produced the reading.
    pub fn device_address(&self) -> (r: u8)
        ensures
            r == self.device_address,
    {
        self.device_address
    }

    fn parameter_value_at(&self, i: usize) -> (r: ParameterValue)
        requires
            i < 9,
        ensures
            r == self.parameter_at(i as int),
    {
        if i == 0 {
            ParameterValue::Integer(self.error_code)
        } else if i == 1 {
            ParameterValue::Fixed { value: self.mass_flow_rate, decimals: 2 }
        } else if i == 2 {
            ParameterValue::Fixed { value: self.density_flow, decimals: 4 }
        } else if i == 3 {
            ParameterValue::Fixed { value: self.temperature, decimals: 2 }
        } else if i == 4 {
            ParameterValue::Fixed { value: self.volume_flow_rate, decimals: 3 }
        } else if i == 5 {
            ParameterValue::Fixed { value: self.mass_total, decimals: 2 }
        } else if i == 6 {
            ParameterValue::Fixed { value: self.volume_total, decimals: 3 }
        } else if i == 7 {
            ParameterValue::Fixed { value: self.mass_inventory, decimals: 2 }
        } else {
            ParameterValue::Fixed { value: self.volume_inventory, decimals: 3 }
        }
    }

    /// The value of the parameter called `name`, or `None` for an unknown name.
    pub fn get_parameter(&self, name: &str) -> (r: Option<ParameterValue>)
        ensures
            r == self.spec_parameter(name@),
    {
        let mut i: usize = 0;
        while i < 9
            invariant
                i <= 9,
                forall|j: int| 0 <= j < i ==> parameter_name(j) != name@,
            decreases 9 - i,
        {
            let candidate = parameter_name_str(i);
            if str_eq(candidate, name) {
                proof {
                    lemma_parameter_names_distinct();
                    let k = choose|k: int| 0 <= k < parameter_count() && parameter_name(k) == name@;
                    assert(k == i);
                }
                return Some(self.parameter_value_at(i));
            }
            i += 1;
        }
        None
    }

    /// All parameters, named, in listing order.
    pub fn get_all_parameters(&self) -> (r: Vec<(String, ParameterValue)>)
        ensures
            r@.len() == parameter_count(),
            forall|i: int|
                0 <= i < parameter_count() ==> (#[trigger] r@[i]).0@ == parameter_name(i)
                    && r@[i].1 == self.parameter_at(i),
    {
        let mut r: Vec<(String, ParameterValue)> = Vec::new();
        let mut i: usize = 0;
        while i < 9
            invariant
                i <= 9,
                r@.len() == i,
                forall|j: int|
                    0 <= j < i ==> (#[trigger] r@[j]).0@ == parameter_name(j) && r@[j].1
                        == self.parameter_at(j),
            decreases 9 - i,
        {
            let name = String::from_str(parameter_name_str(i));
            r.push((name, self.parameter_value_at(i)));
            i += 1;
        }
        r
    }
}

/// Listing and lookup agree: the value listed under each name is the value
/// that looking that name up gives.
pub proof fn lemma_listing_agrees_with_lookup(data: FlowmeterData, i: int)
    requires
        0 <= i < parameter_count(),
    ensures
        data.spec_parameter(parameter_name(i)) == Some(data.parameter_at(i)),
{
    lemma_parameter_names_distinct();
    assert(exists|k: int| 0 <= k < parameter_count() && parameter_name(k) == parameter_name(i));
}

/// The parameter names differ from one another.
proof fn lemma_parameter_names_distinct()
    ensures
        forall|i: int, j: int|
            0 <= i < parameter_count() && 0 <= j < parameter_count() && i != j ==> parameter_name(
                i,
            ) != parameter_name(j),
{
    reveal_strlit("ErrorCode");
    reveal_strlit("MassFlowRate");
    reveal_strlit("DensityFlow");
    reveal_strlit("Temperature");
    reveal_strlit("VolumeFlowRate");
    reveal_strlit("MassTotal");
    reveal_strlit("VolumeTotal");
    reveal_strlit("MassInventory");
    reveal_strlit("VolumeInventory");
    assert forall|i: int, j: int|
        0 <= i < parameter_count() && 0 <= j < parameter_count() && i != j implies parameter_name(
        i,
    ) != parameter_name(j) by {
        if parameter_name(i).len() == parameter_name(j).len() {
            assert(parameter_name(i)[0] != parameter_name(j)[0] || parameter_name(i)[1]
                != parameter_name(j)[1] || parameter_name(i)[4] != parameter_name(j)[4]);
        }
    }
}

fn parameter_name_str(i: usize) -> (r: &'static str)
    requires
        i < 9,
    ensures
        r@ == parameter_name(i as int),
{
    if i == 0 {
        "ErrorCode"
    } else if i == 1 {
        "MassFlowRate"
    } else if i == 2 {
        "DensityFlow"
    } else if i == 3 {
        "Temperature"
    } else if i == 4 {
        "VolumeFlowRate"
    } else if i == 5 {
        "MassTotal"
    } else if i == 6 {
        "VolumeTotal"
    } else if i == 7 {
        "MassInventory"
    } else {
        "VolumeInventory"
    }
}

/// Each name looks up the reading field it names: `ErrorCode` the error
/// code as an integer, and each measurement its own field, with 2 decimals
/// for masses, mass flow and temperature, 3 for volumes and volume flow, and
/// 4 for density.
pub proof fn lemma_names_look_up_their_fields(data: FlowmeterData)
    ensures
        data.spec_parameter("ErrorCode"@) == Some(ParameterValue::Integer(data.error_code)),
        data.spec_parameter("MassFlowRate"@) == Some(
            ParameterValue::Fixed { value: data.mass_flow_rate, decimals: 2 },
        ),
        data.spec_parameter("DensityFlow"@) == Some(
            ParameterValue::Fixed { value: data.density_flow, decimals: 4 },
        ),
        data.spec_parameter("Temperature"@) == Some(
            ParameterValue::Fixed { value: data.temperature, decimals: 2 },
        ),
        data.spec_parameter("VolumeFlowRate"@) == Some(
            ParameterValue::Fixed { value: data.volume_flow_rate, decimals: 3 },
        ),
        data.spec_parameter("MassTotal"@) == Some(
            ParameterValue::Fixed { value: data.mass_total, decimals: 2 },
        ),
        data.spec_parameter("VolumeTotal"@) == Some(
            ParameterValue::Fixed { value: data.volume_total, decimals: 3 },
        ),
        data.spec_parameter("MassInventory"@) == Some(
            ParameterValue::Fixed { value: data.mass_inventory, decimals: 2 },
        ),
        data.spec_parameter("VolumeInventory"@) == Some(
            ParameterValue::Fixed { value: data.volume_inventory, decimals: 3 },
        ),
{
    lemma_listing_agrees_with_lookup(data, 0);
    lemma_listing_agrees_with_lookup(data, 1);
    lemma_listing_agrees_with_lookup(data, 2);
    lemma_listing_agrees_with_lookup(data, 3);
    lemma_listing_agrees_with_lookup(data, 4);
    lemma_listing_agrees_with_lookup(data, 5);
    lemma_listing_agrees_with_lookup(data, 6);
    lemma_listing_agrees_with_lookup(data, 7);
    lemma_listing_agrees_with_lookup(data, 8);
}

/// The listing gives, in order, `ErrorCode`, `MassFlowRate`, `DensityFlow`,
/// `Temperature`, `VolumeFlowRate`, `MassTotal`, `VolumeTotal`,
/// `MassInventory` and `VolumeInventory`, each with the reading field it
/// names.
pub proof fn lemma_listing_names_their_fields(data: FlowmeterData)
    ensures
        parameter_name(0) == "ErrorCode"@ && data.parameter_at(0) == ParameterValue::Integer(data.error_code),
        parameter_name(1) == "MassFlowRate"@ && data.parameter_at(1) == (ParameterValue::Fixed { value: data.mass_flow_rate, decimals: 2 }),
        parameter_name(2) == "DensityFlow"@ && data.parameter_at(2) == (ParameterValue::Fixed { value: data.density_flow, decimals: 4 }),
        parameter_name(3) == "Temperature"@ && data.parameter_at(3) == (ParameterValue::Fixed { value: data.temperature, decimals: 2 }),
        parameter_name(4) == "VolumeFlowRate"@ && data.parameter_at(4) == (ParameterValue::Fixed { value: data.volume_flow_rate, decimals: 3 }),
        parameter_name(5) == "MassTotal"@ && data.parameter_at(5) == (ParameterValue::Fixed { value: data.mass_total, decimals: 2 }),
        parameter_name(6) == "VolumeTotal"@ && data.parameter_at(6) == (ParameterValue::Fixed { value: data.volume_total, decimals: 3 }),
        parameter_name(7) == "MassInventory"@ && data.parameter_at(7) == (ParameterValue::Fixed { value: data.mass_inventory, decimals: 2 }),
        parameter_name(8) == "VolumeInventory"@ && data.parameter_at(8) == (ParameterValue::Fixed { value: data.volume_inventory, decimals: 3 }),
{
}

} // verus!
