use vstd::prelude::*;
use vstd::string::*;

use crate::error::GfxError;
use crate::gfx_vendors::{
    is_passthrough, is_session_safe, required_action, required_user_action, GfxRequiredUserAction,
    GfxVendors,
};
use crate::pci::{
    classify_devices, device_views, devices_of, duplicate_devices, function_views, DeviceView,
    GpuVendor, GraphicsDevice, PciBus, PciFunction,
};
use crate::session::{mode_to_apply, worker_mode};
use crate::setup::{mode_setup_tasks, setup_tasks, SetupTask};

verus! {

/// The persisted mode configuration, with the override that lasts for the
/// current boot only.
#[derive(Debug, Clone, Copy, PartialEq, Eq, Structural)]
pub struct GfxConfig {
    /// The mode restored on boot.
    pub gfx_mode: GfxVendors,
    /// A `Compute` or `Vfio` mode entered within the session; never persisted.
    pub gfx_tmp_mode: Option<GfxVendors>,
    /// Whether `Vfio` may be used.
    pub gfx_vfio_enable: bool,
}

impl GfxConfig {
    /// The override is only ever `Compute` or `Vfio`, entered from a mode
    /// that needed no logout to leave.
    pub open spec fn wf(&self) -> bool {
        match self.gfx_tmp_mode {
            Some(m) => is_passthrough(m) && is_session_safe(self.gfx_mode),
            None => true,
        }
    }

    /// A configuration as loaded at start: no override.
    pub fn new(gfx_mode: GfxVendors, gfx_vfio_enable: bool) -> (r: Self)
        ensures
            r.gfx_mode == gfx_mode,
            r.gfx_tmp_mode.is_none(),
            r.gfx_vfio_enable == gfx_vfio_enable,
            r.wf(),
    {
        GfxConfig { gfx_mode, gfx_tmp_mode: None, gfx_vfio_enable }
    }
}

/// The runtime power state of the discrete GPU.
#[derive(Debug, Clone, Copy, PartialEq, Eq, Structural)]
pub enum GfxPower {
    Active,
    Suspended,
    Off,
    Unknown,
}

pub open spec fn is_blank(c: char) -> bool {
    c == ' ' || c == '\n' || c == '\t' || c == '\r'
}

/// `s` without its leading blanks.
pub open spec fn trim_start(s: Seq<char>) -> Seq<char>
    decreases s.len(),
{
    if s.len() > 0 && is_blank(s[0]) {
        trim_start(s.drop_first())
    } else {
        s
    }
}

/// `s` without its trailing blanks.
pub open spec fn trim_end(s: Seq<char>) -> Seq<char>
    decreases s.len(),
{
    if s.len() > 0 && is_blank(s.last()) {
        trim_end(s.drop_last())
    } else {
        s
    }
}

/// The power state named by the runtime-status attribute, read as `status`
/// (`None` where the attribute does not exist).
pub open spec fn power_of(status: Option<Seq<char>>) -> GfxPower {
    match status {
        None => GfxPower::Off,
        Some(s) => {
            let t = trim_end(trim_start(s));
            if t == "active"@ {
                GfxPower::Active
            } else if t == "suspended"@ {
                GfxPower::Suspended
            } else if t == "off"@ {
                GfxPower::Off
            } else {
                GfxPower::Unknown
            }
        },
    }
}

fn blank_at(s: &str, i: usize) -> (r: bool)
    requires
        i < s@.len(),
    ensures
        r == is_blank(s@[i as int]),
{
    let c = s.get_char(i);
    c == ' ' || c == '\n' || c == '\t' || c == '\r'
}

fn chars_equal(s: &str, a: usize, b: usize, lit: &str) -> (r: bool)
    requires
        a <= b <= s@.len(),
    ensures
        r == (s@.subrange(a as int, b as int) == lit@),
{
    let n = lit.unicode_len();
    if b - a != n {
        return false;
    }
    let mut k: usize = 0;
    while k < n
        invariant
            n == lit@.len(),
            b - a == n,
            a <= b <= s@.len(),
            0 <= k <= n,
            forall|j: int| 0 <= j < k ==> s@[a + j] == lit@[j],
        decreases n - k,
    {
        if s.get_char(a + k) != lit.get_char(k) {
            assert(s@.subrange(a as int, b as int)[k as int] != lit@[k as int]);
            return false;
        }
        k = k + 1;
    }
    assert(s@.subrange(a as int, b as int) =~= lit@);
    true
}

/// Where the text of `s` lies once blanks are removed from both ends.
fn trimmed_range(s: &str) -> (r: (usize, usize))
    ensures
        r.0 <= r.1 <= s@.len(),
        trim_end(trim_start(s@)) == s@.subrange(r.0 as int, r.1 as int),
{
        let n = s.unicode_len();
        let mut a: usize = 0;
        assert(s@.subrange(0, n as int) =~= s@);
        while a < n && blank_at(s, a)
            invariant
                n == s@.len(),
                0 <= a <= n,
                trim_start(s@) == trim_start(s@.subrange(a as int, n as int)),
            decreases n - a,
        {
            assert(s@.subrange(a as int, n as int).drop_first() =~= s@.subrange(a + 1, n as int));
            a = a + 1;
        }
        let ghost front = s@.subrange(a as int, n as int);
        assert(trim_start(s@) == front);
        let mut b: usize = n;
        while b > a && blank_at(s, b - 1)
            invariant
                n == s@.len(),
                0 <= a <= b <= n,
                trim_end(front) == trim_end(s@.subrange(a as int, b as int)),
            decreases b - a,
        {
            assert(s@.subrange(a as int, b as int).drop_last() =~= s@.subrange(a as int, b - 1));
            b = b - 1;
        }
        assert(trim_end(front) == s@.subrange(a as int, b as int));
        (a, b)
}

/// Whether the firmware's dedicated-GPU switch attribute, read as `status`
/// (`None` where it does not exist), reads "1".
pub open spec fn switch_engaged(status: Option<Seq<char>>) -> bool {
    match status {
        Some(s) => trim_end(trim_start(s)) == "1"@,
        None => false,
    }
}

/// Reads the firmware's dedicated-GPU switch attribute: engaged when it reads
/// "1" with surrounding blanks; absent means not engaged.
pub fn hardware_switch_engaged(status: Option<&str>) -> (r: bool)
    ensures
        r == switch_engaged(match status {
            Some(s) => Some(s@),
            None => None,
        }),
{
    match status {
        None => false,
        Some(s) => {
            let (a, b) = trimmed_range(s);
            proof {
                reveal_strlit("1");
            }
            chars_equal(s, a, b, "1")
        },
    }
}

impl GfxPower {
    /// Reads the runtime-status attribute of the discrete GPU: "active",
    /// "suspended" or "off" with surrounding blanks; any other text is
    /// `Unknown`, and a missing attribute (`None`) means the GPU is off.
    pub fn from_runtime_status(status: Option<&str>) -> (r: GfxPower)
        ensures
            r == power_of(match status {
                Some(s) => Some(s@),
                None => None,
            }),
    {
        let s = match status {
            None => {
                return GfxPower::Off;
            },
            Some(s) => s,
        };
        let (a, b) = trimmed_range(s);
        proof {
            reveal_strlit("active");
            reveal_strlit("suspended");
            reveal_strlit("off");
        }
        if chars_equal(s, a, b, "active") {
            GfxPower::Active
        } else if chars_equal(s, a, b, "suspended") {
            GfxPower::Suspended
        } else if chars_equal(s, a, b, "off") {
            GfxPower::Off
        } else {
            GfxPower::Unknown
        }
    }
}

/// How a mode request is carried out.
#[derive(Debug)]
pub enum ModeDispatch {
    /// Nothing runs.
    Refused,
    /// Start the session-wait worker for `mode`, as transition `id`.
    StartWorker { id: u64, mode: GfxVendors },
    /// Run `tasks` now, acting on the NVIDIA devices.
    ApplyNow { mode: GfxVendors, tasks: Vec<SetupTask> },
}

/// The answer to a mode request.
#[derive(Debug)]
pub struct ModeChange {
    pub action: GfxRequiredUserAction,
    pub dispatch: ModeDispatch,
}

/// The GPU mode controller: the devices found on the bus, the mode
/// configuration and the one pending transition, if any.
pub struct CtrlGraphics {
    bus: PciBus,
    amd: Vec<GraphicsDevice>,
    intel: Vec<GraphicsDevice>,
    nvidia: Vec<GraphicsDevice>,
    other: Vec<GraphicsDevice>,
    config: GfxConfig,
    pending: Option<u64>,
    next_transition: u64,
}

/// The mode in effect: the session override if there is one, else the saved mode.
pub open spec fn effective_mode(c: GfxConfig) -> GfxVendors {
    match c.gfx_tmp_mode {
        Some(m) => m,
        None => c.gfx_mode,
    }
}

impl CtrlGraphics {
    pub closed spec fn spec_config(&self) -> GfxConfig {
        self.config
    }

    pub closed spec fn spec_pending(&self) -> Option<u64> {
        self.pending
    }

    pub closed spec fn spec_nvidia(&self) -> Seq<DeviceView> {
        device_views(self.nvidia@)
    }

    pub closed spec fn spec_amd(&self) -> Seq<DeviceView> {
        device_views(self.amd@)
    }

    pub closed spec fn spec_intel(&self) -> Seq<DeviceView> {
        device_views(self.intel@)
    }

    pub closed spec fn spec_other(&self) -> Seq<DeviceView> {
        device_views(self.other@)
    }

    pub closed spec fn spec_bus(&self) -> Seq<char> {
        self.bus.spec_rescan_path()
    }

    pub closed spec fn wf(&self) -> bool {
        &&& self.config.wf()
        &&& match self.pending {
            Some(p) => p != self.next_transition,
            None => true,
        }
    }

    /// A controller over the functions listed on `bus`, with no pending
    /// transition.
    pub fn new(config: GfxConfig, bus: PciBus, functions: &Vec<PciFunction>) -> (r: CtrlGraphics)
        requires
            config.wf(),
        ensures
            r.wf(),
            r.spec_config() == config,
            r.spec_pending().is_none(),
            r.spec_bus() == bus.spec_rescan_path(),
            r.spec_nvidia() == devices_of(function_views(functions@), function_views(functions@), GpuVendor::Nvidia),
            r.spec_amd() == devices_of(function_views(functions@), function_views(functions@), GpuVendor::Amd),
            r.spec_intel() == devices_of(function_views(functions@), function_views(functions@), GpuVendor::Intel),
            r.spec_other() == devices_of(function_views(functions@), function_views(functions@), GpuVendor::Other),
    {
        let devs = classify_devices(functions);
        CtrlGraphics {
            bus,
            amd: devs.amd,
            intel: devs.intel,
            nvidia: devs.nvidia,
            other: devs.other,
            config,
            pending: None,
            next_transition: 0,
        }
    }

    /// The bus handle.
    pub fn bus(&self) -> (r: PciBus)
        ensures
            r.spec_rescan_path() == self.spec_bus(),
    {
        self.bus.duplicate()
    }

    /// The NVIDIA graphics devices.
    pub fn devices(&self) -> (r: Vec<GraphicsDevice>)
        ensures
            device_views(r@) == self.spec_nvidia(),
    {
        duplicate_devices(&self.nvidia)
    }

    /// The mode configuration.
    pub fn config(&self) -> (r: GfxConfig)
        ensures
            r == self.spec_config(),
    {
        self.config
    }

    /// The mode in effect: the session override if there is one, else the
    /// saved mode.
    pub fn get_gfx_mode(&self) -> (r: GfxVendors)
        ensures
            r == effective_mode(self.spec_config()),
    {
        match self.config.gfx_tmp_mode {
            Some(m) => m,
            None => self.config.gfx_mode,
        }
    }

    /// The tasks that put the system into the mode in effect, as run at boot:
    /// the setup tasks of that mode, then the fallback service enabled for
    /// `Nvidia` and disabled otherwise.
    pub fn reload(&self) -> (r: Vec<SetupTask>)
        ensures
            r@ == setup_tasks(effective_mode(self.spec_config()), self.spec_config().gfx_vfio_enable).push(
                SetupTask::FallbackService(effective_mode(self.spec_config()) == GfxVendors::Nvidia),
            ),
    {
        let mode = self.get_gfx_mode();
        let mut tasks = mode_setup_tasks(mode, self.config.gfx_vfio_enable);
        tasks.push(SetupTask::FallbackService(mode == GfxVendors::Nvidia));
        tasks
    }

    /// What a switch from the saved mode to `vendor` requires.
    pub fn is_logout_required(&self, vendor: GfxVendors) -> (r: GfxRequiredUserAction)
        ensures
            r == required_action(self.spec_config().gfx_mode, vendor),
    {
        required_user_action(self.config.gfx_mode, vendor)
    }

    /// Whether transition `id` is still the pending one; a worker that finds
    /// it is not has been superseded.
    pub fn is_pending(&self, id: u64) -> (r: bool)
        ensures
            r == (self.spec_pending() == Some(id)),
    {
        match self.pending {
            Some(p) => p == id,
            None => false,
        }
    }

    /// Cancels the pending transition, if any, and says which it was.
    pub fn cancel_mode_change_thread(&mut self) -> (r: Option<u64>)
        requires
            old(self).wf(),
        ensures
            final(self).wf(),
            r == old(self).spec_pending(),
            final(self).spec_pending().is_none(),
            final(self).spec_config() == old(self).spec_config(),
            final(self).spec_nvidia() == old(self).spec_nvidia(),
            final(self).spec_bus() == old(self).spec_bus(),
    {
        let r = self.pending;
        self.pending = None;
        r
    }

    /// Records a new pending transition and returns its id.
    fn setup_mode_change_thread(&mut self) -> (r: u64)
        requires
            old(self).wf(),
            old(self).spec_pending().is_none(),
        ensures
            final(self).wf(),
            final(self).spec_pending() == Some(r),
            r == old(self).next_transition,
            final(self).spec_config() == old(self).spec_config(),
            final(self).spec_nvidia() == old(self).spec_nvidia(),
            final(self).spec_bus() == old(self).spec_bus(),
    {
        let id = self.next_transition;
        self.next_transition = self.next_transition.wrapping_add(1);
        self.pending = Some(id);
        id
    }

    /// Handles a request to switch to `vendor`. `hardware_guard` says whether
    /// the firmware's dedicated-GPU switch is engaged.
    ///
    /// Refused, with nothing changed: while the hardware switch is engaged
    /// (`HardwareGuard`), and for `Vfio` while VFIO is disabled
    /// (`VfioDisabled`). Otherwise the pending transition is cancelled and the
    /// required action decides: `Logout` starts a worker as the new pending
    /// transition, `Immediate` (and `Reboot`) hands back the setup tasks to run
    /// now, and `Integrated` refuses.
    pub fn set_gfx_mode(&mut self, vendor: GfxVendors, hardware_guard: bool) -> (r: Result<ModeChange, GfxError>)
        requires
            old(self).wf(),
        ensures
            final(self).wf(),
            final(self).spec_config() == old(self).spec_config(),
            final(self).spec_nvidia() == old(self).spec_nvidia(),
            final(self).spec_bus() == old(self).spec_bus(),
            hardware_guard ==> r == Err::<ModeChange, GfxError>(GfxError::HardwareGuard)
                && final(self).spec_pending() == old(self).spec_pending(),
            !hardware_guard && vendor == GfxVendors::Vfio && !old(self).spec_config().gfx_vfio_enable
                ==> r == Err::<ModeChange, GfxError>(GfxError::VfioDisabled)
                && final(self).spec_pending() == old(self).spec_pending(),
            !hardware_guard && !(vendor == GfxVendors::Vfio && !old(self).spec_config().gfx_vfio_enable)
                ==> r is Ok,
            r matches Ok(c) ==> {
                &&& c.action == required_action(old(self).spec_config().gfx_mode, vendor)
                &&& (old(self).spec_pending() matches Some(p) ==> final(self).spec_pending() != Some(p))
                &&& (c.action == GfxRequiredUserAction::Logout ==> (c.dispatch matches ModeDispatch::StartWorker { id, mode }
                    && mode == vendor && final(self).spec_pending() == Some(id)))
                &&& (c.action == GfxRequiredUserAction::Integrated ==> (c.dispatch matches ModeDispatch::Refused)
                    && final(self).spec_pending().is_none())
                &&& (c.action == GfxRequiredUserAction::Immediate ==> (c.dispatch matches ModeDispatch::ApplyNow { mode, tasks }
                    && mode == vendor && tasks@ == setup_tasks(vendor, old(self).spec_config().gfx_vfio_enable))
                    && final(self).spec_pending().is_none())
            },
    {
        if hardware_guard {
            return Err(GfxError::HardwareGuard);
        }
        let vfio_enable = self.config.gfx_vfio_enable;
        if !vfio_enable && vendor == GfxVendors::Vfio {
            return Err(GfxError::VfioDisabled);
        }
        // A newer request always supersedes the pending transition.
        self.pending = None;
        let action = self.is_logout_required(vendor);
        let dispatch = match action {
            GfxRequiredUserAction::Logout => {
                let id = self.setup_mode_change_thread();
                ModeDispatch::StartWorker { id, mode: vendor }
            },
            GfxRequiredUserAction::Reboot | GfxRequiredUserAction::Immediate => {
                ModeDispatch::ApplyNow { mode: vendor, tasks: mode_setup_tasks(vendor, vfio_enable) }
            },
            GfxRequiredUserAction::Integrated => ModeDispatch::Refused,
        };
        Ok(ModeChange { action, dispatch })
    }

    /// Records that `vendor` was applied within the session (the `Immediate`
    /// path): `Compute` and `Vfio` become the session override, leaving the
    /// saved mode as it is; any other mode clears the override.
    pub fn mode_applied_in_session(&mut self, vendor: GfxVendors)
        requires
            old(self).wf(),
        ensures
            final(self).wf(),
            final(self).spec_config().gfx_mode == old(self).spec_config().gfx_mode,
            final(self).spec_config().gfx_vfio_enable == old(self).spec_config().gfx_vfio_enable,
            final(self).spec_config().gfx_tmp_mode == (if is_passthrough(vendor) && is_session_safe(
                old(self).spec_config().gfx_mode,
            ) {
                Some(vendor)
            } else {
                None
            }),
            final(self).spec_pending() == old(self).spec_pending(),
            final(self).spec_nvidia() == old(self).spec_nvidia(),
            final(self).spec_bus() == old(self).spec_bus(),
    {
        if vendor.is_passthrough() && self.config.gfx_mode.is_session_safe() {
            self.config.gfx_tmp_mode = Some(vendor);
        } else {
            self.config.gfx_tmp_mode = None;
        }
    }

    /// The mode that the worker of a `requested` change applies once the
    /// sessions have ended, and whether VFIO is enabled.
    pub fn worker_setup(&self, requested: GfxVendors) -> (r: (GfxVendors, bool))
        ensures
            r.0 == mode_to_apply(requested, self.spec_config().gfx_mode),
            r.1 == self.spec_config().gfx_vfio_enable,
    {
        (worker_mode(requested, self.config.gfx_mode), self.config.gfx_vfio_enable)
    }

    /// Records that the worker of transition `id` applied `applied`: it
    /// becomes the saved mode and the session override is cleared.
    pub fn mode_change_finished(&mut self, id: u64, applied: GfxVendors)
        requires
            old(self).wf(),
        ensures
            final(self).wf(),
            final(self).spec_config().gfx_mode == applied,
            final(self).spec_config().gfx_tmp_mode.is_none(),
            final(self).spec_config().gfx_vfio_enable == old(self).spec_config().gfx_vfio_enable,
            final(self).spec_pending() == (if old(self).spec_pending() == Some(id) {
                None
            } else {
                old(self).spec_pending()
            }),
            final(self).spec_nvidia() == old(self).spec_nvidia(),
            final(self).spec_bus() == old(self).spec_bus(),
    {
        self.config.gfx_mode = applied;
        self.config.gfx_tmp_mode = None;
        if self.is_pending(id) {
            self.pending = None;
        }
    }
}

/// What `systemctl` does to the fallback service that loads nouveau where
/// the NVIDIA driver fails, for `SetupTask::FallbackService(enable)`.
pub fn fallback_service_action(enable: bool) -> (r: &'static str)
    ensures
        r@ == (if enable {
            "enable"@
        } else {
            "disable"@
        }),
{
    if enable {
        "enable"
    } else {
        "disable"
    }
}

} // verus!
