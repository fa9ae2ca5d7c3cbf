//! Service configuration: serial line settings, polled device addresses and
//! the polling interval.

use vstd::prelude::*;
use vstd::string::*;
use crate::parse::{
    IntParseError,
    lemma_parse_bound,
    parse_unsigned,
    spec_parse_unsigned,
    spec_split,
    spec_trim,
    split,
    strings_view,
    trim,
};

verus! {

/// A server section (socket, WebSocket or HTTP API) after the command line
/// has had its say.
#[derive(Debug, Clone, Copy, PartialEq, Eq, Structural)]
pub struct ServerOverride {
    pub enabled: bool,
    pub port: u16,
    /// The port argument was given but is not a `u16`; the port stays.
    pub invalid_port: bool,
}

/// What the command line makes of a server section that reads `enabled` and
/// `port`: the server's flag or a port argument enables it, and a port
/// argument that parses as a `u16` replaces the port.
pub open spec fn spec_server_override(
    enabled: bool,
    port: u16,
    flag: bool,
    port_arg: Option<Seq<char>>,
) -> ServerOverride {
    if !flag && port_arg is None {
        ServerOverride { enabled, port, invalid_port: false }
    } else {
        match port_arg {
            None => ServerOverride { enabled: true, port, invalid_port: false },
            Some(t) => match spec_parse_unsigned(t, 65535) {
                Ok(v) => ServerOverride { enabled: true, port: v as u16, invalid_port: false },
                Err(_) => ServerOverride { enabled: true, port, invalid_port: true },
            },
        }
    }
}

/// Applies a server's command-line flag and port argument to the section
/// read from the configuration file.
pub fn server_override(enabled: bool, port: u16, flag: bool, port_arg: Option<&str>) -> (r:
    ServerOverride)
    ensures
        r == spec_server_override(
            enabled,
            port,
            flag,
            match port_arg {
                Some(t) => Some(t@),
                None => None,
            },
        ),
{
    if !flag && port_arg.is_none() {
        return ServerOverride { enabled, port, invalid_port: false };
    }
    match port_arg {
        None => ServerOverride { enabled: true, port, invalid_port: false },
        Some(t) => {
            proof {
                lemma_parse_bound(t@, 65535);
            }
            match parse_unsigned(t, 65535) {
                Ok(v) => ServerOverride { enabled: true, port: v as u16, invalid_port: false },
                Err(_) => ServerOverride { enabled: true, port, invalid_port: true },
            }
        },
    }
}

/// Serial parity (`NoParity` is the setting called `None` in configuration files).
#[derive(Debug, Clone, Copy, PartialEq, Eq, Structural)]
pub enum ParityConfig {
    NoParity,
    Even,
    Odd,
}

/// The service configuration.
#[derive(Debug, Clone, PartialEq, Eq)]
pub struct Config {
    pub serial_port: String,
    pub baud_rate: u32,
    pub device_addresses: Vec<u8>,
    pub update_interval_seconds: u64,
    pub timeout_ms: u64,
    pub parity: ParityConfig,
}

/// Parsing each text of `pieces` (trimmed) as a `u8`: the values, or the
/// error of the first piece that fails.
pub open spec fn spec_parse_addresses(pieces: Seq<Seq<char>>) -> Result<Seq<u8>, IntParseError>
    decreases pieces.len(),
{
    if pieces.len() == 0 {
        Ok(Seq::empty())
    } else {
        match spec_parse_unsigned(spec_trim(pieces[0]), 255) {
            Err(e) => Err(e),
            Ok(v) => match spec_parse_addresses(pieces.drop_first()) {
                Err(e) => Err(e),
                Ok(rest) => Ok(seq![v as u8] + rest),
            },
        }
    }
}

/// The configuration that command-line values give, or the first value
/// that does not parse: baud rate (`u32`), then the comma-separated device
/// addresses (`u8` each, spaces around them allowed), then the interval
/// (`u64`). Timeout is 1000 ms and parity none.
pub open spec fn spec_from_matches(
    port: Seq<char>,
    baud: Seq<char>,
    devices: Seq<char>,
    interval: Seq<char>,
    c: Result<Config, IntParseError>,
) -> bool {
    match spec_parse_unsigned(baud, u32::MAX as nat) {
        Err(e) => c == Err::<Config, IntParseError>(e),
        Ok(b) => match spec_parse_addresses(spec_split(devices, ',')) {
            Err(e) => c == Err::<Config, IntParseError>(e),
            Ok(addrs) => match spec_parse_unsigned(interval, u64::MAX as nat) {
                Err(e) => c == Err::<Config, IntParseError>(e),
                Ok(i) => c matches Ok(cfg) && cfg.serial_port@ == port && cfg.baud_rate == b
                    && cfg.device_addresses@ == addrs && cfg.update_interval_seconds == i
                    && cfg.timeout_ms == 1000 && cfg.parity == ParityConfig::NoParity,
            },
        },
    }
}

/// Parses each piece, trimmed, as a device address (`u8`); the first piece
/// that does not parse gives the error.
fn parse_addresses(pieces: &Vec<String>) -> (r: Result<Vec<u8>, IntParseError>)
    ensures
        match spec_parse_addresses(strings_view(pieces@)) {
            Ok(v) => r matches Ok(out) && out@ == v,
            Err(e) => r == Err::<Vec<u8>, IntParseError>(e),
        },
{
    let mut out: Vec<u8> = Vec::new();
    let mut i: usize = 0;
    let ghost all = strings_view(pieces@);
    proof {
        assert(all.skip(0) =~= all);
    }
    while i < pieces.len()
        invariant
            i <= pieces@.len(),
            all == strings_view(pieces@),
            match spec_parse_addresses(all) {
                Ok(v) => spec_parse_addresses(all.skip(i as int)) matches Ok(rest) && v == out@
                    + rest,
                Err(e) => spec_parse_addresses(all.skip(i as int)) == Err::<Seq<u8>, IntParseError>(
                    e,
                ),
            },
        decreases pieces@.len() - i,
    {
        let ghost tail = all.skip(i as int);
        proof {
            lemma_parse_bound(spec_trim(tail[0]), 255);
            assert(tail[0] == pieces@[i as int]@);
            assert(tail.drop_first() =~= all.skip(i + 1));
        }
        let piece = trim(pieces[i].as_str());
        match parse_unsigned(piece.as_str(), 255) {
            Err(e) => {
                return Err(e);
            },
            Ok(v) => {
                let ghost old_out = out@;
                out.push(v as u8);
                proof {
                    if let Ok(total) = spec_parse_addresses(all) {
                        let rest = spec_parse_addresses(all.skip(i + 1))->Ok_0;
                        assert(total == old_out + (seq![v as u8] + rest));
                        assert(old_out + (seq![v as u8] + rest) =~= out@ + rest);
                    }
                }
            },
        }
        i += 1;
    }
    proof {
        assert(all.skip(i as int).len() == 0);
        if let Ok(v) = spec_parse_addresses(all) {
            assert(v =~= out@);
        }
    }
    Ok(out)
}

impl Config {
    /// Serial `/dev/ttyS0` at 9600 baud, devices 2 and 3, every 10 s,
    /// 1000 ms timeout, no parity.
    pub fn default() -> (r: Config)
        ensures
            r.serial_port@ == "/dev/ttyS0"@,
            r.baud_rate == 9600,
            r.device_addresses@ == seq![2u8, 3u8],
            r.update_interval_seconds == 10,
            r.timeout_ms == 1000,
            r.parity == ParityConfig::NoParity,
    {
        let mut device_addresses: Vec<u8> = Vec::new();
        device_addresses.push(2);
        device_addresses.push(3);
        assert(device_addresses@ =~= seq![2u8, 3u8]);
        Config {
            serial_port: String::from_str("/dev/ttyS0"),
            baud_rate: 9600,
            device_addresses,
            update_interval_seconds: 10,
            timeout_ms: 1000,
            parity: ParityConfig::NoParity,
        }
    }

    /// The configuration given by the command-line values `--port`,
    /// `--baud`, `--devices` and `--interval`.
    pub fn from_matches(port: &str, baud: &str, devices: &str, interval: &str) -> (r: Result<
        Config,
        IntParseError,
    >)
        ensures
            spec_from_matches(port@, baud@, devices@, interval@, r),
    {
        proof {
            lemma_parse_bound(baud@, u32::MAX as nat);
            lemma_parse_bound(interval@, u64::MAX as nat);
        }
        let baud_rate = match parse_unsigned(baud, 0xffff_ffff) {
            Ok(v) => v,
            Err(e) => {
                return Err(e);
            },
        };
        let pieces = split(devices, ',');
        let device_addresses = match parse_addresses(&pieces) {
            Ok(v) => v,
            Err(e) => {
                return Err(e);
            },
        };
        let update_interval_seconds = match parse_unsigned(interval, 0xffff_ffff_ffff_ffff) {
            Ok(v) => v,
            Err(e) => {
                return Err(e);
            },
        };
        Ok(
            Config {
                serial_port: String::from_str(port),
                baud_rate: baud_rate as u32,
                device_addresses,
                update_interval_seconds,
                timeout_ms: 1000,
                parity: ParityConfig::NoParity,
            },
        )
    }
}

} // verus!
