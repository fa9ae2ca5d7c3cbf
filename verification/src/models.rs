//! Records the service stores: flowmeter readings and fuel transactions.

use vstd::prelude::*;
use vstd::string::*;
use crate::clock::current_unix_timestamp;
use crate::flowmeter::FlowmeterData;
use crate::float_bits::F32Bits;
use crate::text::clone_opt_string;

verus! {

/// A stored flowmeter reading, optionally linked to a transaction.
#[derive(Debug, Clone, PartialEq, Eq)]
pub struct FlowmeterReading {
    pub id: Option<i64>,
    pub device_address: u8,
    pub unix_timestamp: i64,
    pub mass_flow_rate: F32Bits,
    pub density_flow: F32Bits,
    pub temperature: F32Bits,
    pub volume_flow_rate: F32Bits,
    pub mass_total: F32Bits,
    pub volume_total: F32Bits,
    pub volume_inventory: F32Bits,
    pub mass_inventory: F32Bits,
    pub error_code: u32,
    pub transaction_id: Option<String>,
}

impl FlowmeterReading {
    /// The reading to store for `data` from the device at `device_address`.
    pub open spec fn spec_from_flowmeter_data(
        device_address: u8,
        data: FlowmeterData,
        transaction_id: Option<String>,
    ) -> FlowmeterReading {
        FlowmeterReading {
            id: None,
            device_address,
            unix_timestamp: data.timestamp,
            mass_flow_rate: data.mass_flow_rate,
            density_flow: data.density_flow,
            temperature: data.temperature,
            volume_flow_rate: data.volume_flow_rate,
            mass_total: data.mass_total,
            volume_total: data.volume_total,
            volume_inventory: data.volume_inventory,
            mass_inventory: data.mass_inventory,
            error_code: data.error_code,
            transaction_id,
        }
    }

    /// Builds the stored form of a reading; it has no row id yet.
    pub fn from_flowmeter_data(
        device_address: u8,
        flowmeter_data: &FlowmeterData,
        transaction_id: Option<String>,
    ) -> (r: FlowmeterReading)
        ensures
            r == FlowmeterReading::spec_from_flowmeter_data(
                device_address,
                *flowmeter_data,
                transaction_id,
            ),
            r.id is None,
            r.device_address == device_address,
            r.unix_timestamp == flowmeter_data.timestamp,
            r.mass_flow_rate == flowmeter_data.mass_flow_rate,
            r.density_flow == flowmeter_data.density_flow,
            r.temperature == flowmeter_data.temperature,
            r.volume_flow_rate == flowmeter_data.volume_flow_rate,
            r.mass_total == flowmeter_data.mass_total,
            r.volume_total == flowmeter_data.volume_total,
            r.volume_inventory == flowmeter_data.volume_inventory,
            r.mass_inventory == flowmeter_data.mass_inventory,
            r.error_code == flowmeter_data.error_code,
            r.transaction_id == transaction_id,
    {
        FlowmeterReading {
            id: None,
            device_address,
            unix_timestamp: flowmeter_data.timestamp,
            mass_flow_rate: flowmeter_data.mass_flow_rate,
            density_flow: flowmeter_data.density_flow,
            temperature: flowmeter_data.temperature,
            volume_flow_rate: flowmeter_data.volume_flow_rate,
            mass_total: flowmeter_data.mass_total,
            volume_total: flowmeter_data.volume_total,
            volume_inventory: flowmeter_data.volume_inventory,
            mass_inventory: flowmeter_data.mass_inventory,
            error_code: flowmeter_data.error_code,
            transaction_id,
        }
    }
}

/// A fuel transfer transaction.
#[derive(Debug, Clone, PartialEq, Eq)]
pub struct Transaction {
    pub id: Option<i64>,
    pub transaction_id: String,
    pub flow_type: String,
    pub vessel_id: String,
    pub vessel_name: String,
    pub vessel_type: String,
    pub liquid_target_volume: F32Bits,
    pub liquid_type: String,
    pub liquid_density_min: F32Bits,
    pub liquid_density_max: F32Bits,
    pub liquid_water_content_min: F32Bits,
    pub liquid_water_content_max: F32Bits,
    pub liquid_residual_carbon_min: F32Bits,
    pub liquid_residual_carbon_max: F32Bits,
    pub operator_full_name: String,
    pub operator_email: String,
    pub operator_phone_number: Option<String>,
    pub customer_vessel_name: Option<String>,
    pub customer_pic_name: Option<String>,
    pub customer_location_name: Option<String>,
    pub supplier_name: Option<String>,
    pub created_at: i64,
    pub status: String,
}

impl Transaction {
    /// A new transaction record, created now; it has no row id yet.
    pub fn new(
        transaction_id: String,
        flow_type: String,
        vessel_id: String,
        vessel_name: String,
        vessel_type: String,
        liquid_target_volume: F32Bits,
        liquid_type: String,
        liquid_density_min: F32Bits,
        liquid_density_max: F32Bits,
        liquid_water_content_min: F32Bits,
        liquid_water_content_max: F32Bits,
        liquid_residual_carbon_min: F32Bits,
        liquid_residual_carbon_max: F32Bits,
        operator_full_name: String,
        operator_email: String,
        operator_phone_number: Option<String>,
        customer_vessel_name: Option<String>,
        customer_pic_name: Option<String>,
        customer_location_name: Option<String>,
        supplier_name: Option<String>,
        status: String,
    ) -> (r: Transaction)
        ensures
            r == (Transaction {
                id: None,
                transaction_id,
                flow_type,
                vessel_id,
                vessel_name,
                vessel_type,
                liquid_target_volume,
                liquid_type,
                liquid_density_min,
                liquid_density_max,
                liquid_water_content_min,
                liquid_water_content_max,
                liquid_residual_carbon_min,
                liquid_residual_carbon_max,
                operator_full_name,
                operator_email,
                operator_phone_number,
                customer_vessel_name,
                customer_pic_name,
                customer_location_name,
                supplier_name,
                created_at: r.created_at,
                status,
            }),
            r.created_at >= 0,
    {
        let created_at = current_unix_timestamp();
        Transaction {
            id: None,
            transaction_id,
            flow_type,
            vessel_id,
            vessel_name,
            vessel_type,
            liquid_target_volume,
            liquid_type,
            liquid_density_min,
            liquid_density_max,
            liquid_water_content_min,
            liquid_water_content_max,
            liquid_residual_carbon_min,
            liquid_residual_carbon_max,
            operator_full_name,
            operator_email,
            operator_phone_number,
            customer_vessel_name,
            customer_pic_name,
            customer_location_name,
            supplier_name,
            created_at,
            status,
        }
    }
}

/// Summary figures about the database.
#[derive(Debug, Clone, Copy, PartialEq, Eq)]
pub struct DatabaseStats {
    pub total_readings: i64,
    pub active_devices: i64,
    pub database_size_bytes: u64,
    pub connection_count: usize,
}

/// The stored record of a reading copies each measurement and the error
/// code into the field of the same name, takes the reading's time as its
/// Unix timestamp and the given device address and transaction, and has no
/// row id yet.
pub proof fn lemma_reading_copies_measurements(
    device_address: u8,
    data: FlowmeterData,
    transaction_id: Option<String>,
)
    ensures
        ({
            let r = FlowmeterReading::spec_from_flowmeter_data(device_address, data, transaction_id);
            &&& r.id is None
            &&& r.device_address == device_address
            &&& r.unix_timestamp == data.timestamp
            &&& r.transaction_id == transaction_id
            &&& r.mass_flow_rate == data.mass_flow_rate
            &&& r.density_flow == data.density_flow
            &&& r.temperature == data.temperature
            &&& r.volume_flow_rate == data.volume_flow_rate
            &&& r.mass_total == data.mass_total
            &&& r.volume_total == data.volume_total
            &&& r.volume_inventory == data.volume_inventory
            &&& r.mass_inventory == data.mass_inventory
            &&& r.error_code == data.error_code
        }),
{
}

} // verus!
