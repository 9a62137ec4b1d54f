//! The values that the printer reports and is told about.

use vstd::prelude::*;

verus! {

/// Where a print file is kept.
#[derive(Clone, Copy, Debug, PartialEq, Eq, Structural)]
pub enum LocationCategory {
    Local,
    Usb,
}

/// A named blob of bytes, such as a thumbnail.
#[derive(Clone, Debug)]
pub struct FileData {
    pub name: String,
    pub data: Vec<u8>,
}

/// What is known of a file without opening it.
#[derive(Clone, Debug)]
pub struct FileMetadata {
    pub path: String,
    pub name: String,
    pub last_modified: Option<u64>,
    pub file_size: Option<u64>,
    pub location_category: LocationCategory,
    pub parent_path: String,
}

/// What a print job says of itself. Fixed once the job is loaded.
#[derive(Clone, Debug)]
pub struct PrintMetadata {
    pub file_data: FileMetadata,
    /// Resin used, in microlitres.
    pub used_material: u64,
    /// Estimated duration, in milliseconds.
    pub print_time: u64,
    /// Thickness of one layer, in microns.
    pub layer_height_microns: u32,
    pub layer_count: usize,
}

/// The two sizes in which a job carries a thumbnail.
#[derive(Clone, Copy, Debug, PartialEq, Eq, Structural)]
pub enum ThumbnailSize {
    Large,
    Small,
}

/// The pose of the machine: the height of the build plate and whether the
/// light is on.
#[derive(Clone, Copy, Debug, PartialEq, Eq, Structural)]
pub struct PhysicalState {
    pub z_microns: u32,
    pub curing: bool,
}

/// Which of its three states the printer is in.
#[derive(Clone, Copy, Debug, PartialEq, Eq, Structural)]
pub enum PrinterStatus {
    Printing,
    Idle,
    Shutdown,
}

/// The state of the printer, with what each state knows.
#[derive(Clone, Debug)]
pub enum PrinterState {
    /// The motion controller is not assumed to be there.
    Shutdown,
    /// The controller is ready and no job runs.
    Idle { physical: PhysicalState },
    /// A job runs; `layer` is the index of the layer that is printed next.
    Printing { job: PrintMetadata, layer: usize, paused: bool, physical: PhysicalState },
}

/// The patterns that can be shown to test the display.
#[derive(Clone, Copy, Debug, PartialEq, Eq, Structural)]
pub enum DisplayTest {
    White,
    Blank,
    Grid,
    Dimensions,
}

impl PhysicalState {
    /// The pose reported while the position is not known: the greatest height,
    /// light off.
    pub open spec fn unknown() -> PhysicalState {
        PhysicalState { z_microns: u32::MAX, curing: false }
    }
}

impl PrinterState {
    /// The status of this state.
    pub open spec fn spec_status(&self) -> PrinterStatus {
        match self {
            PrinterState::Shutdown => PrinterStatus::Shutdown,
            PrinterState::Idle { .. } => PrinterStatus::Idle,
            PrinterState::Printing { .. } => PrinterStatus::Printing,
        }
    }

    /// The pose this state reports; after a shutdown the position is unknown.
    pub open spec fn spec_physical(&self) -> PhysicalState {
        match self {
            PrinterState::Shutdown => PhysicalState::unknown(),
            PrinterState::Idle { physical } => *physical,
            PrinterState::Printing { physical, .. } => *physical,
        }
    }

    #[verifier::when_used_as_spec(spec_status)]
    pub fn status(&self) -> (status: PrinterStatus)
        ensures
            status == self.spec_status(),
    {
        match self {
            PrinterState::Shutdown => PrinterStatus::Shutdown,
            PrinterState::Idle { .. } => PrinterStatus::Idle,
            PrinterState::Printing { .. } => PrinterStatus::Printing,
        }
    }

    #[verifier::when_used_as_spec(spec_physical)]
    pub fn physical(&self) -> (physical: PhysicalState)
        ensures
            physical == self.spec_physical(),
    {
        match self {
            PrinterState::Shutdown => PhysicalState { z_microns: u32::MAX, curing: false },
            PrinterState::Idle { physical } => *physical,
            PrinterState::Printing { physical, .. } => *physical,
        }
    }

    /// The index of the layer that is printed next, while a job runs.
    pub fn layer(&self) -> (layer: Option<usize>)
        ensures
            layer == match self {
                PrinterState::Printing { layer, .. } => Some(*layer),
                _ => None,
            },
    {
        match self {
            PrinterState::Printing { layer, .. } => Some(*layer),
            _ => None,
        }
    }

    /// Whether the job is paused, while a job runs.
    pub fn paused(&self) -> (paused: Option<bool>)
        ensures
            paused == match self {
                PrinterState::Printing { paused, .. } => Some(*paused),
                _ => None,
            },
    {
        match self {
            PrinterState::Printing { paused, .. } => Some(*paused),
            _ => None,
        }
    }
}

} // verus!
