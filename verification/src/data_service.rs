//! The data service's bookkeeping of configured devices and the summaries
//! it gives of their latest readings.

use vstd::prelude::*;
use vstd::string::*;
use std::collections::HashMap;
use crate::error::ModbusError;
use crate::flowmeter::FlowmeterDevice;

verus! {

broadcast use vstd::std_specs::hash::group_hash_axioms;

/// A device entry of the configuration.
#[derive(Debug, Clone, PartialEq, Eq)]
pub struct DeviceConfig {
    pub address: u8,
    pub name: String,
    pub uuid: String,
    pub enabled: bool,
    pub location: String,
}

/// The flowmeters of the enabled entries, in configuration order.
pub open spec fn spec_enabled_devices(configs: Seq<DeviceConfig>) -> Seq<(u8, String)>
    decreases configs.len(),
{
    if configs.len() == 0 {
        Seq::empty()
    } else {
        let rest = spec_enabled_devices(configs.drop_last());
        if configs.last().enabled {
            rest.push((configs.last().address, configs.last().name))
        } else {
            rest
        }
    }
}

/// Address to UUID of the enabled entries; a later entry for an address
/// replaces an earlier one.
pub open spec fn spec_uuid_map(configs: Seq<DeviceConfig>) -> Map<u8, String>
    decreases configs.len(),
{
    if configs.len() == 0 {
        Map::empty()
    } else {
        let rest = spec_uuid_map(configs.drop_last());
        if configs.last().enabled {
            rest.insert(configs.last().address, configs.last().uuid)
        } else {
            rest
        }
    }
}

/// The address and name of a flowmeter.
pub open spec fn device_key(d: FlowmeterDevice) -> (u8, String) {
    (d.address, d.name)
}

/// Builds a flowmeter for each enabled configuration entry, in order, and
/// the map from their addresses to their UUIDs.
pub fn register_devices(configs: &Vec<DeviceConfig>) -> (r: (Vec<FlowmeterDevice>, HashMap<
    u8,
    String,
>))
    ensures
        r.0@.map_values(|d: FlowmeterDevice| device_key(d)) == spec_enabled_devices(configs@),
        forall|i: int|
            0 <= i < r.0@.len() ==> (#[trigger] r.0@[i]).start_register == 244
                && r.0@[i].register_count == 22 && r.0@[i].reset_coil == 2,
        r.1@ == spec_uuid_map(configs@),
{
    let mut devices: Vec<FlowmeterDevice> = Vec::new();
    let mut uuids: HashMap<u8, String> = HashMap::new();
    let mut i: usize = 0;
    assert(configs@.take(0) =~= Seq::<DeviceConfig>::empty());
    while i < configs.len()
        invariant
            i <= configs@.len(),
            devices@.map_values(|d: FlowmeterDevice| device_key(d)) == spec_enabled_devices(
                configs@.take(i as int),
            ),
            forall|j: int|
                0 <= j < devices@.len() ==> (#[trigger] devices@[j]).start_register == 244
                    && devices@[j].register_count == 22 && devices@[j].reset_coil == 2,
            uuids@ == spec_uuid_map(configs@.take(i as int)),
        decreases configs@.len() - i,
    {
        let ghost t = configs@.take(i + 1);
        proof {
            assert(t.drop_last() =~= configs@.take(i as int));
            assert(t.last() == configs@[i as int]);
        }
        let c = &configs[i];
        if c.enabled {
            let device = FlowmeterDevice::new(c.address, c.name.clone());
            devices.push(device);
            uuids.insert(c.address, c.uuid.clone());
            assert(devices@.map_values(|d: FlowmeterDevice| device_key(d)) =~= spec_enabled_devices(
                t,
            ));
        } else {
            assert(devices@.map_values(|d: FlowmeterDevice| device_key(d)) =~= spec_enabled_devices(
                t,
            ));
        }
        i += 1;
    }
    assert(configs@.take(configs@.len() as int) =~= configs@);
    (devices, uuids)
}

/// The first device at `address`, or `InvalidDevice(address)` when there is
/// none (what resetting the accumulation of an unknown device reports).
pub fn find_device(devices: &Vec<FlowmeterDevice>, address: u8) -> (r: Result<usize, ModbusError>)
    ensures
        match r {
            Ok(i) => i < devices@.len() && devices@[i as int].address == address && forall|j: int|
                0 <= j < i ==> devices@[j].address != address,
            Err(e) => e == ModbusError::InvalidDevice(address) && forall|j: int|
                0 <= j < devices@.len() ==> devices@[j].address != address,
        },
{
    let mut i: usize = 0;
    while i < devices.len()
        invariant
            i <= devices@.len(),
            forall|j: int| 0 <= j < i ==> devices@[j].address != address,
        decreases devices@.len() - i,
    {
        if devices[i].address == address {
            return Ok(i);
        }
        i += 1;
    }
    Err(ModbusError::InvalidDevice(address))
}

/// `parts` joined with `sep` between consecutive parts.
pub open spec fn spec_join(parts: Seq<Seq<char>>, sep: Seq<char>) -> Seq<char>
    decreases parts.len(),
{
    if parts.len() == 0 {
        Seq::empty()
    } else if parts.len() == 1 {
        parts[0]
    } else {
        spec_join(parts.drop_last(), sep) + sep + parts.last()
    }
}

/// The texts of a list of strings.
pub open spec fn string_texts(v: Seq<String>) -> Seq<Seq<char>> {
    v.map_values(|s: String| s@)
}

/// `parts` joined with `sep`.
pub fn join(parts: &Vec<String>, sep: &str) -> (r: String)
    ensures
        r@ == spec_join(string_texts(parts@), sep@),
{
    let mut out = String::new();
    let mut i: usize = 0;
    assert(string_texts(parts@).take(0) =~= Seq::<Seq<char>>::empty());
    while i < parts.len()
        invariant
            i <= parts@.len(),
            out@ == spec_join(string_texts(parts@).take(i as int), sep@),
        decreases parts@.len() - i,
    {
        let ghost t = string_texts(parts@).take(i + 1);
        proof {
            assert(t.drop_last() =~= string_texts(parts@).take(i as int));
            assert(t.last() == parts@[i as int]@);
        }
        if i != 0 {
            out.append(sep);
        }
        out.append(parts[i].as_str());
        proof {
            if i == 0 {
                assert(t.len() == 1);
                assert(out@ =~= t[0]);
            }
        }
        i += 1;
    }
    assert(string_texts(parts@).take(parts@.len() as int) =~= string_texts(parts@));
    out
}

/// The `name: value` texts of a device's parameters.
pub open spec fn spec_parameter_entries(params: Seq<(String, String)>) -> Seq<Seq<char>> {
    params.map_values(|p: (String, String)| p.0@ + ": "@ + p.1@)
}

/// A device's latest parameters as `name: value` entries separated by `, `
/// (one line of the device data listing).
pub fn format_device_parameters(params: &Vec<(String, String)>) -> (r: String)
    ensures
        r@ == spec_join(spec_parameter_entries(params@), ", "@),
{
    let mut entries: Vec<String> = Vec::new();
    let mut i: usize = 0;
    while i < params.len()
        invariant
            i <= params@.len(),
            string_texts(entries@) == spec_parameter_entries(params@.take(i as int)),
        decreases params@.len() - i,
    {
        let mut entry = params[i].0.clone();
        entry.append(": ");
        entry.append(params[i].1.as_str());
        let ghost old_entries = entries@;
        assert(entry@ == params@[i as int].0@ + ": "@ + params@[i as int].1@);
        entries.push(entry);
        proof {
            let t = params@.take(i + 1);
            assert(t.drop_last() =~= params@.take(i as int));
            assert(spec_parameter_entries(t) =~= spec_parameter_entries(params@.take(i as int)).push(
                params@[i as int].0@ + ": "@ + params@[i as int].1@,
            ));
            assert(string_texts(entries@) =~= string_texts(old_entries).push(entry@));
        }
        i += 1;
    }
    assert(params@.take(params@.len() as int) =~= params@);
    join(&entries, ", ")
}

/// The values of one parameter across devices, separated by spaces (the
/// volatile-data answer).
pub fn format_volatile_values(values: &Vec<String>) -> (r: String)
    ensures
        r@ == spec_join(string_texts(values@), " "@),
{
    join(values, " ")
}

} // verus!
