//! The error type shared by the device, storage and service layers.

use vstd::prelude::*;
use vstd::string::*;
use crate::text::{decimal, push_decimal};

verus! {

/// Failures of device communication and of the services built on it.
#[derive(Debug, Clone, PartialEq, Eq)]
pub enum ModbusError {
    ConnectionError(String),
    CommunicationError(String),
    CrcError,
    InvalidResponse,
    InvalidData(String),
    InvalidDevice(u8),
    LockError,
    Timeout,
    DeviceNotFound(String),
    ServiceNotAvailable(String),
}

impl ModbusError {
    /// The human-readable text of an error.
    pub open spec fn spec_message(self) -> Seq<char> {
        match self {
            ModbusError::ConnectionError(s) => "Connection error: "@ + s@,
            ModbusError::CommunicationError(s) => "Communication error: "@ + s@,
            ModbusError::CrcError => "CRC checksum mismatch"@,
            ModbusError::InvalidResponse => "Invalid response from device"@,
            ModbusError::InvalidData(s) => "Invalid data: "@ + s@,
            ModbusError::InvalidDevice(a) => "Device not found: address "@ + decimal(a as nat),
            ModbusError::LockError => "Lock acquisition failed"@,
            ModbusError::Timeout => "Timeout occurred"@,
            ModbusError::DeviceNotFound(s) => "Device not found: "@ + s@,
            ModbusError::ServiceNotAvailable(s) => "Service not available: "@ + s@,
        }
    }

    /// Renders the error as text (what `Display` prints).
    pub fn message(&self) -> (r: String)
        ensures
            r@ == self.spec_message(),
    {
        match self {
            ModbusError::ConnectionError(s) => String::from_str("Connection error: ").concat(s.as_str()),
            ModbusError::CommunicationError(s) => String::from_str("Communication error: ").concat(
                s.as_str(),
            ),
            ModbusError::CrcError => String::from_str("CRC checksum mismatch"),
            ModbusError::InvalidResponse => String::from_str("Invalid response from device"),
            ModbusError::InvalidData(s) => String::from_str("Invalid data: ").concat(s.as_str()),
            ModbusError::InvalidDevice(a) => {
                let mut r = String::from_str("Device not found: address ");
                push_decimal(&mut r, *a as u64);
                r
            },
            ModbusError::LockError => String::from_str("Lock acquisition failed"),
            ModbusError::Timeout => String::from_str("Timeout occurred"),
            ModbusError::DeviceNotFound(s) => String::from_str("Device not found: ").concat(s.as_str()),
            ModbusError::ServiceNotAvailable(s) => String::from_str("Service not available: ").concat(
                s.as_str(),
            ),
        }
    }
}

} // verus!
