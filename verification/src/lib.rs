//! Control of a resin printer that cures each layer through a masking
//! display: the print orchestrator, the client of the motion controller, the
//! reader of sliced files and the display sink.
//!
//! The library does no input or output. The orchestrator in [`printer`] is a
//! state machine that is told what happened and says what to do next; the
//! client in [`gcode`] renders the lines to send and judges the answers; the
//! reader in [`sl1`] works on the bytes of a file; the sink in [`display`]
//! returns the bytes to write. What holds of every run of the orchestrator
//! is proved in [`invariants`].
//!
//! Heights, speeds and times are whole thousandths of their unit
//! throughout: microns, microns per second and milliseconds.

pub mod api_objects;
pub mod configuration;
pub mod display;
pub mod filetypes;
pub mod gcode;
pub mod invariants;
pub mod printer;
pub mod printfile;
pub mod serial_handler;
pub mod sl1;
pub mod template;
pub mod text;
pub mod units;
