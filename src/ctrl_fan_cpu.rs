use vstd::prelude::*;

use crate::ctrl_charge::RogError;

verus! {

/// The fan mode attribute of newer kernels.
pub const FAN_TYPE_1_PATH: &'static str = "/sys/devices/platform/asus-nb-wmi/throttle_thermal_policy";

/// The fan mode attribute of older kernels.
pub const FAN_TYPE_2_PATH: &'static str = "/sys/devices/platform/asus-nb-wmi/fan_boost_mode";

/// What the fan and CPU controller supports.
#[derive(Debug, Clone, Copy, PartialEq, Eq, Structural)]
pub struct FanCpuSupportedFunctions {
    pub stock_fan_modes: bool,
    pub min_max_freq: bool,
    pub fan_curve_set: bool,
}

/// The stored profiles: the active one and the order in which toggling walks
/// through them.
#[derive(Debug, Clone)]
pub struct ProfileConfig {
    pub active_profile: String,
    pub toggle_profiles: Vec<String>,
}

pub open spec fn names(v: Seq<String>) -> Seq<Seq<char>> {
    v.map_values(|s: String| s@)
}

/// The first index at or after `from` where `x` stands in `list`.
pub open spec fn index_from(list: Seq<Seq<char>>, x: Seq<char>, from: int) -> Option<int>
    decreases list.len() - from,
{
    if from < 0 || from >= list.len() {
        None
    } else if list[from] == x {
        Some(from)
    } else {
        index_from(list, x, from + 1)
    }
}

/// The profile after `active` in `list`, wrapping to the first; the first
/// where `active` is not listed; `active` itself where the list is empty.
pub open spec fn next_profile(list: Seq<Seq<char>>, active: Seq<char>) -> Seq<char> {
    let i = match index_from(list, active, 0) {
        Some(p) => p + 1,
        None => 0,
    };
    let i = if i >= list.len() { 0 } else { i };
    if i < list.len() {
        list[i]
    } else {
        active
    }
}

/// The fan mode and CPU frequency controller.
pub struct CtrlFanAndCPU {
    /// The fan mode attribute in use.
    pub path: &'static str,
    config: ProfileConfig,
}

impl CtrlFanAndCPU {
    pub closed spec fn spec_path(&self) -> &'static str {
        self.path
    }

    pub closed spec fn spec_active(&self) -> Seq<char> {
        self.config.active_profile@
    }

    pub closed spec fn spec_toggle(&self) -> Seq<Seq<char>> {
        names(self.config.toggle_profiles@)
    }

    /// The fan mode attribute to use: the newer one where it exists, else the
    /// older one, else `MissingFunction`.
    pub fn get_fan_path(type1_exists: bool, type2_exists: bool) -> (r: Result<&'static str, RogError>)
        ensures
            type1_exists ==> r == Ok::<&'static str, RogError>(FAN_TYPE_1_PATH),
            !type1_exists && type2_exists ==> r == Ok::<&'static str, RogError>(FAN_TYPE_2_PATH),
            !type1_exists && !type2_exists ==> r == Err::<&'static str, RogError>(RogError::MissingFunction),
    {
        if type1_exists {
            Ok(FAN_TYPE_1_PATH)
        } else if type2_exists {
            Ok(FAN_TYPE_2_PATH)
        } else {
            Err(RogError::MissingFunction)
        }
    }

    /// A controller over the stored profiles, given which fan mode
    /// attributes exist.
    pub fn new(config: ProfileConfig, type1_exists: bool, type2_exists: bool) -> (r: Result<CtrlFanAndCPU, RogError>)
        ensures
            !type1_exists && !type2_exists ==> r == Err::<CtrlFanAndCPU, RogError>(RogError::MissingFunction),
            type1_exists || type2_exists ==> (r matches Ok(c) && c.spec_path() == (if type1_exists {
                FAN_TYPE_1_PATH
            } else {
                FAN_TYPE_2_PATH
            }) && c.spec_active() == config.active_profile@ && c.spec_toggle() == names(
                config.toggle_profiles@,
            )),
    {
        let path = match Self::get_fan_path(type1_exists, type2_exists) {
            Ok(p) => p,
            Err(e) => {
                return Err(e);
            },
        };
        Ok(CtrlFanAndCPU { path, config })
    }

    /// The profile that toggling moves to.
    pub fn next_profile_name(&self) -> (r: String)
        ensures
            r@ == next_profile(self.spec_toggle(), self.spec_active()),
    {
        let list = &self.config.toggle_profiles;
        let n = list.len();
        let mut p: usize = 0;
        while p < n && list[p] != self.config.active_profile
            invariant
                n == list@.len(),
                0 <= p <= n,
                names(list@).len() == n,
                index_from(names(list@), self.config.active_profile@, 0) == index_from(
                    names(list@),
                    self.config.active_profile@,
                    p as int,
                ),
            decreases n - p,
        {
            assert(names(list@)[p as int] == list@[p as int]@);
            p = p + 1;
        }
        let ghost l = names(list@);
        let mut i: usize = if p < n {
            assert(l[p as int] == list@[p as int]@);
            p + 1
        } else {
            0
        };
        if i >= n {
            i = 0;
        }
        if i < n {
            list[i].clone()
        } else {
            self.config.active_profile.clone()
        }
    }

    /// Makes `name` the active profile.
    pub fn set_active_profile(&mut self, name: String)
        ensures
            final(self).spec_active() == name@,
            final(self).spec_toggle() == old(self).spec_toggle(),
            final(self).spec_path() == old(self).spec_path(),
    {
        self.config.active_profile = name;
    }
}

/// The message-bus face of the fan and CPU controller.
pub struct DbusFanAndCpu {
    inner: CtrlFanAndCPU,
}

impl DbusFanAndCpu {
    pub fn new(inner: CtrlFanAndCPU) -> (r: DbusFanAndCpu)
        ensures
            r.inner() == inner,
    {
        DbusFanAndCpu { inner }
    }

    pub closed spec fn inner(&self) -> CtrlFanAndCPU {
        self.inner
    }

    /// The name of the active profile.
    pub fn active_profile_name(&self) -> (r: String)
        ensures
            r@ == self.inner().spec_active(),
    {
        self.inner.config.active_profile.clone()
    }
}

} // verus!
