//! Integer and boolean core of the Being32 homeostatic agent: the ritual
//! governance gate that authorises exertion, the recovery monitor that
//! measures return to the homeostatic basin, and the refusal stub of the
//! CMAP protocol. Every floating-point quantity (thresholds, distances,
//! oscillator state) is compared by the caller, which hands the outcome of
//! the comparison to these functions.
pub mod gate;
pub mod protocol;
pub mod recovery;
