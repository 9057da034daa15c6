//! The run options that a host passes to the emulator.
use vstd::prelude::*;

verus! {

/// Run options: the CPU frequency and the pacing controller's sampling rate
/// and delay unit, whether to run unpaced, whether to print debug output,
/// where the cartridge RAM is saved, and the cartridge image.
#[derive(Clone, Debug, PartialEq, Eq)]
pub struct Opt {
    pub freq: u64,
    pub sample: u64,
    pub delay_unit: u64,
    pub native_speed: bool,
    pub debug: bool,
    pub ram: Option<String>,
    pub rom: String,
}

} // verus!
