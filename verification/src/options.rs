//! The option bundle that a resolution reads.
//!
//! Pure data: shared knobs, one sub-bundle per backend kind, and the ordered
//! list of user configuration files.  Resolution borrows the bundle and never
//! changes it.

use vstd::prelude::*;

verus! {

/// Options of the CW310 board backend.
#[derive(Clone, Debug, PartialEq, Eq)]
pub struct Cw310Opts {
    /// Comma-separated list of UARTs, console first, for hosts without udev.
    pub cw310_uarts: Option<String>,
}

/// Options of the Verilator simulation backend.
#[derive(Clone, Debug, PartialEq, Eq)]
pub struct VerilatorOpts {
    /// Simulator executable.
    pub verilator_bin: String,
    /// ROM image handed to the simulator.
    pub verilator_rom: String,
    /// Flash image handed to the simulator.
    pub verilator_flash: String,
    /// OTP image handed to the simulator.
    pub verilator_otp: String,
    /// Seconds to wait for the simulator to come up.
    pub verilator_timeout: u64,
    /// Further arguments passed through to the simulator.
    pub verilator_args: Vec<String>,
}

/// Options of the network proxy backend.
#[derive(Clone, Debug, PartialEq, Eq)]
pub struct ProxyOpts {
    /// Host name or address of the remote server.
    pub proxy: Option<String>,
    /// TCP port on which the remote server listens.
    pub port: u16,
}

/// Options of the Ti50 emulator backend.
#[derive(Clone, Debug, PartialEq, Eq)]
pub struct Ti50EmulatorOpts {
    /// Prefix that tells emulator instances apart.
    pub instance_prefix: String,
    /// Directory that holds the emulator executable.
    pub executable_directory: String,
    /// Name of the emulator executable.
    pub executable: String,
}

/// Everything a caller can say about the backend it wants.
#[derive(Clone, Debug, PartialEq, Eq)]
pub struct BackendOpts {
    /// Name of the debug interface; the empty name asks for no hardware at all.
    pub interface: String,
    /// USB vendor id filter.
    pub usb_vid: Option<u16>,
    /// USB product id filter.
    pub usb_pid: Option<u16>,
    /// USB serial number filter.
    pub usb_serial: Option<String>,
    /// Read by the CW310 backend.
    pub cw310_opts: Cw310Opts,
    /// Read by the Verilator backend.
    pub verilator_opts: VerilatorOpts,
    /// Read by the proxy backend.
    pub proxy_opts: ProxyOpts,
    /// Read by the Ti50 emulator backend.
    pub ti50emulator_opts: Ti50EmulatorOpts,
    /// User configuration files, applied in this order.
    pub conf: Vec<String>,
}

impl BackendOpts {
    /// Number of user configuration files.
    pub open spec fn files(&self) -> nat {
        self.conf@.len()
    }

    /// Path of the user configuration file at position `i`.
    pub open spec fn file(&self, i: int) -> Seq<char> {
        self.conf@[i]@
    }
}

} // verus!
