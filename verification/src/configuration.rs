//! What the operator configures. Read once at start and never changed.

use vstd::prelude::*;

verus! {

/// The machine: its serial line and its motion defaults.
#[derive(Clone, Debug)]
pub struct PrinterConfig {
    pub serial: String,
    pub baudrate: u32,
    /// The greatest height the plate may be sent to, in microns.
    pub max_z: u32,
    /// How far the plate lifts between layers, in microns.
    pub default_lift: u32,
    /// Speed of upward moves, in microns per second.
    pub default_up_speed: u32,
    /// Speed of downward moves, in microns per second.
    pub default_down_speed: u32,
    /// Rest before each exposure, in milliseconds.
    pub default_wait_before_exposure: u64,
    /// Rest after each exposure, in milliseconds.
    pub default_wait_after_exposure: u64,
    /// How far the plate lifts when a job is paused, in microns.
    pub pause_lift: u32,
}

/// The masking display.
#[derive(Clone, Debug)]
pub struct DisplayConfig {
    pub frame_buffer: String,
    /// The widths in bits of the pixels that make up one chunk of output.
    pub bit_depth: Vec<u8>,
    pub screen_width: u32,
    pub screen_height: u32,
}

/// The dialect of the motion controller: one template per command, and the
/// responses to wait for.
#[derive(Clone, Debug)]
pub struct GcodeConfig {
    pub boot: String,
    pub shutdown: String,
    pub home_command: String,
    pub move_command: String,
    pub print_start: String,
    pub print_end: String,
    pub layer_start: String,
    pub cure_start: String,
    pub cure_end: String,
    /// What the controller answers when a move is complete.
    pub move_sync: String,
    /// How long to wait for that answer, in seconds.
    pub move_timeout: usize,
    pub status_check: String,
    /// What the controller answers to the status check when it is ready.
    pub status_desired: String,
}

/// The control surface.
#[derive(Clone, Debug)]
pub struct ApiConfig {
    pub upload_path: String,
    pub usb_glob: String,
    pub port: u16,
}

/// The whole configuration.
#[derive(Clone, Debug)]
pub struct Configuration {
    pub printer: PrinterConfig,
    pub gcode: GcodeConfig,
    pub api: ApiConfig,
    pub display: DisplayConfig,
}

} // verus!
