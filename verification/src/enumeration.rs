//! Enumeration state as the bus reports it, and the latch that remembers
//! whether the device-specific configuration step has run for it.

use vstd::prelude::*;

verus! {

/// How far the host has enumerated the device. The bus layer owns this state
/// and changes it in response to standard control requests; the handler only
/// reads it.
#[derive(Clone, Copy, Debug, PartialEq, Eq, Structural)]
pub enum EnumerationState {
    /// Attached or reset; no address assigned yet.
    Default,
    /// The host has assigned an address.
    Addressed,
    /// The host has selected the configuration; class traffic may flow.
    Configured,
}

/// Remembers whether the hardware-configuration step has run since the device
/// last entered [`EnumerationState::Configured`].
///
/// The bus layer reports `Configured` for as long as the configuration lasts,
/// while the step must run once. The latch turns the level into an edge.
#[derive(Clone, Copy, Debug, PartialEq, Eq)]
pub struct ConfigurationLatch {
    set: bool,
}

/// Whether the hardware-configuration step is due when `state` is observed
/// with the latch at `latch`: on entering `Configured`, and only then.
pub open spec fn configuration_due(latch: bool, state: EnumerationState) -> bool {
    state is Configured && !latch
}

/// The latch after `state` has been observed: set for as long as the device
/// stays `Configured`, clear as soon as it is anything else.
pub open spec fn latch_after(state: EnumerationState) -> bool {
    state is Configured
}

impl ConfigurationLatch {
    /// Whether the latch is set.
    pub closed spec fn is_set_spec(&self) -> bool {
        self.set
    }

    /// A clear latch, as at power-up.
    pub fn new() -> (latch: Self)
        ensures
            !latch.is_set(),
    {
        ConfigurationLatch { set: false }
    }

    /// Whether the latch is set: the configuration step has run for the
    /// current session.
    #[verifier::when_used_as_spec(is_set_spec)]
    pub fn is_set(&self) -> (set: bool)
        ensures
            set == self.is_set_spec(),
    {
        self.set
    }

    /// Records one observation of the enumeration state and says whether the
    /// hardware-configuration step must run now.
    ///
    /// The step is due exactly when the device is seen `Configured` with the
    /// latch clear. The latch is then set, and stays set until the device is
    /// seen in any other state.
    pub fn observe(&mut self, state: EnumerationState) -> (configure: bool)
        ensures
            configure == configuration_due(old(self).is_set(), state),
            final(self).is_set() == latch_after(state),
    {
        match state {
            EnumerationState::Configured => {
                let due = !self.set;
                self.set = true;
                due
            },
            _ => {
                self.set = false;
                false
            },
        }
    }
}

} // verus!
