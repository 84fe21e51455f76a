use vstd::prelude::*;

use crate::error::MBError;

verus! {

/// Largest flank length (rising/falling edge, in filter clock cycles) that
/// the device's register field can hold.
pub const K_MAX: u32 = 1023;

/// Largest plateau length (in filter clock cycles) that the device's
/// register field can hold.
pub const L_MAX: u32 = 1023;

/// Largest decay-time multiplication factor that the device's register
/// field can hold.
pub const M_MAX: u32 = 8388607;

/// Largest peak threshold that the device's register field can hold.
pub const PTHRESH_MAX: u32 = 8388607;

/// Largest dead time (peak-coalescing window) that the device's register
/// field can hold.
pub const DEAD_TIME_MAX: u32 = 65535;

/// A filter configuration: the five bounded parameters the device accepts.
///
/// A configuration counts as applied only when, after being written to the
/// device, reading it back yields exactly these values.
#[derive(Clone, Copy, Debug, PartialEq, Eq, Structural)]
pub struct MBConfig {
    /// Length of the rising and falling flank of the trapezoidal filter.
    pub k: u32,
    /// Length of the plateau of the trapezoidal filter.
    pub l: u32,
    /// Multiplication factor selecting the decay time the filter is
    /// sensitive to.
    pub m: u32,
    /// Minimum peak value to be considered a signal.
    pub pthresh: u32,
    /// Window in which the filter coalesces multiple peaks into one.
    pub dead_time: u32,
}

impl MBConfig {
    /// Whether every parameter lies in its valid range: the shape parameters
    /// must be nonzero and every field must fit its register.
    pub open spec fn valid(self) -> bool {
        &&& 1 <= self.k <= K_MAX
        &&& 1 <= self.l <= L_MAX
        &&& 1 <= self.m <= M_MAX
        &&& self.pthresh <= PTHRESH_MAX
        &&& self.dead_time <= DEAD_TIME_MAX
    }

    /// Builds a configuration from the five raw parameters.
    pub fn new(k: u32, l: u32, m: u32, pthresh: u32, dead_time: u32) -> (c: MBConfig)
        ensures
            c == (MBConfig { k, l, m, pthresh, dead_time }),
    {
        MBConfig { k, l, m, pthresh, dead_time }
    }

    /// Runtime check for `valid`.
    pub fn is_valid(&self) -> (r: bool)
        ensures
            r == self.valid(),
    {
        1 <= self.k && self.k <= K_MAX && 1 <= self.l && self.l <= L_MAX && 1 <= self.m
            && self.m <= M_MAX && self.pthresh <= PTHRESH_MAX && self.dead_time <= DEAD_TIME_MAX
    }
}

/// Accepts a configuration exactly when every parameter is in range;
/// otherwise the input is rejected.
pub fn validate_config(config: MBConfig) -> (r: Result<MBConfig, MBError>)
    ensures
        config.valid() ==> r == Ok::<MBConfig, MBError>(config),
        !config.valid() ==> r == Err::<MBConfig, MBError>(MBError::InvalidInput),
{
    if config.is_valid() {
        Ok(config)
    } else {
        Err(MBError::InvalidInput)
    }
}

} // verus!
