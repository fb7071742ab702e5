use vstd::prelude::*;

verus! {

/// The sysfs attribute that holds the battery charge limit.
pub const BAT_CHARGE_PATH: &'static str = "/sys/class/power_supply/BAT0/charge_control_end_threshold";

/// Errors of the platform controllers.
#[derive(Debug, Clone, Copy, PartialEq, Eq, Structural)]
pub enum RogError {
    /// The kernel does not offer the function.
    MissingFunction,
    /// The named profile does not exist.
    MissingProfile,
}

/// Whether the battery charge limit can be set.
#[derive(Debug, Clone, Copy, PartialEq, Eq, Structural)]
pub struct ChargeSupportedFunctions {
    pub charge_level_set: bool,
}

/// The lowest charge limit that is meaningful.
pub const CHARGE_LIMIT_MIN: u8 = 20;

/// The highest charge limit that is meaningful.
pub const CHARGE_LIMIT_MAX: u8 = 100;

/// The battery charge limit controller and the limit it last set.
#[derive(Debug, Clone, Copy, PartialEq, Eq, Structural)]
pub struct CtrlCharge {
    bat_charge_limit: u8,
}

impl CtrlCharge {
    pub closed spec fn spec_limit(&self) -> u8 {
        self.bat_charge_limit
    }

    /// A controller holding the stored limit, where the kernel offers charge
    /// control (`charge_control_present`); `MissingFunction` otherwise.
    pub fn new(bat_charge_limit: u8, charge_control_present: bool) -> (r: Result<CtrlCharge, RogError>)
        ensures
            charge_control_present ==> (r matches Ok(c) && c.spec_limit() == bat_charge_limit),
            !charge_control_present ==> r == Err::<CtrlCharge, RogError>(RogError::MissingFunction),
    {
        if !charge_control_present {
            return Err(RogError::MissingFunction);
        }
        Ok(CtrlCharge { bat_charge_limit })
    }

    /// What the controller supports, given whether the kernel offers charge
    /// control.
    pub fn get_supported(charge_control_present: bool) -> (r: ChargeSupportedFunctions)
        ensures
            r.charge_level_set == charge_control_present,
    {
        ChargeSupportedFunctions { charge_level_set: charge_control_present }
    }

    /// Whether a limit lies in the meaningful range, 20 to 100; others are
    /// still written, with a warning.
    pub fn limit_in_range(limit: u8) -> (r: bool)
        ensures
            r == (CHARGE_LIMIT_MIN <= limit <= CHARGE_LIMIT_MAX),
    {
        CHARGE_LIMIT_MIN <= limit && limit <= CHARGE_LIMIT_MAX
    }

    /// Records `limit` once it has been written to the battery.
    pub fn set_limit(&mut self, limit: u8)
        ensures
            final(self).spec_limit() == limit,
    {
        self.bat_charge_limit = limit;
    }

    /// The stored limit, as the signed byte the message bus carries.
    pub fn limit(&self) -> (r: i8)
        ensures
            r == self.spec_limit() as i8,
    {
        self.bat_charge_limit as i8
    }
}

} // verus!
