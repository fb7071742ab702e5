use vstd::prelude::*;

use crate::gfx_vendors::GfxVendors;

verus! {

/// Kernel modules that a mode change loads or unloads.
#[derive(Debug, Clone, Copy, PartialEq, Eq, Structural)]
pub enum KernelModule {
    Nouveau,
    NvidiaDrm,
    NvidiaModeset,
    NvidiaUvm,
    Nvidia,
    VfioPci,
    VfioPciCore,
    VfioIommuType1,
    VfioVirqfd,
    Vfio,
}

/// The module's name as `modprobe` and `rmmod` take it.
pub open spec fn module_name(m: KernelModule) -> &'static str {
    match m {
        KernelModule::Nouveau => "nouveau",
        KernelModule::NvidiaDrm => "nvidia_drm",
        KernelModule::NvidiaModeset => "nvidia_modeset",
        KernelModule::NvidiaUvm => "nvidia_uvm",
        KernelModule::Nvidia => "nvidia",
        KernelModule::VfioPci => "vfio-pci",
        KernelModule::VfioPciCore => "vfio_pci_core",
        KernelModule::VfioIommuType1 => "vfio_iommu_type1",
        KernelModule::VfioVirqfd => "vfio_virqfd",
        KernelModule::Vfio => "vfio",
    }
}

impl KernelModule {
    /// The module's name as `modprobe` and `rmmod` take it.
    pub fn name(&self) -> (r: &'static str)
        ensures
            r == module_name(*self),
    {
        match self {
            KernelModule::Nouveau => "nouveau",
            KernelModule::NvidiaDrm => "nvidia_drm",
            KernelModule::NvidiaModeset => "nvidia_modeset",
            KernelModule::NvidiaUvm => "nvidia_uvm",
            KernelModule::Nvidia => "nvidia",
            KernelModule::VfioPci => "vfio-pci",
            KernelModule::VfioPciCore => "vfio_pci_core",
            KernelModule::VfioIommuType1 => "vfio_iommu_type1",
            KernelModule::VfioVirqfd => "vfio_virqfd",
            KernelModule::Vfio => "vfio",
        }
    }
}

/// Loading or unloading a kernel module.
#[derive(Debug, Clone, Copy, PartialEq, Eq, Structural)]
pub enum DriverAction {
    Load,
    Unload,
}

impl DriverAction {
    /// The program that performs the action.
    pub fn command(&self) -> (r: &'static str)
        ensures
            r@ == (if *self == DriverAction::Load {
                "modprobe"@
            } else {
                "rmmod"@
            }),
    {
        match self {
            DriverAction::Load => "modprobe",
            DriverAction::Unload => "rmmod",
        }
    }
}

/// One system mutation of a mode change. Each is idempotent on its own.
#[derive(Debug, Clone, Copy, PartialEq, Eq, Structural)]
pub enum SetupTask {
    /// Have the kernel rescan the PCI bus.
    RescanBus,
    /// Set runtime power management to "auto" on every NVIDIA display device
    /// that is on the bus now.
    NvidiaRuntimePmAuto,
    /// Write `xorg_conf_bytes(mode)` to the display-server configuration path,
    /// creating its directory if absent.
    WriteXorgConf,
    /// Write `modprobe_conf_bytes(mode, devices)` to the module policy path.
    WriteModprobeConf,
    /// Load or unload a kernel module, with retries.
    Driver(DriverAction, KernelModule),
    /// Unbind every supplied device from its driver.
    UnbindDevices,
    /// Remove every supplied device from the bus.
    RemoveDevices,
    /// Stop with `GfxError::VfioDisabled`.
    RefuseVfio,
    /// Enable (`true`) or disable the service that loads nouveau where the
    /// NVIDIA driver fails; a missing service is not an error.
    FallbackService(bool),
}

/// The NVIDIA driver stack, in unload order.
pub open spec fn nvidia_modules() -> Seq<KernelModule> {
    seq![
        KernelModule::NvidiaDrm,
        KernelModule::NvidiaModeset,
        KernelModule::NvidiaUvm,
        KernelModule::Nvidia,
    ]
}

/// The VFIO driver stack, in unload order.
pub open spec fn vfio_modules() -> Seq<KernelModule> {
    seq![
        KernelModule::VfioPci,
        KernelModule::VfioPciCore,
        KernelModule::VfioIommuType1,
        KernelModule::VfioVirqfd,
        KernelModule::Vfio,
    ]
}

pub open spec fn driver_tasks_for(action: DriverAction, modules: Seq<KernelModule>) -> Seq<SetupTask> {
    modules.map_values(|m: KernelModule| SetupTask::Driver(action, m))
}

/// Modes that get a display-server output configuration.
pub open spec fn writes_xorg_conf(mode: GfxVendors) -> bool {
    mode == GfxVendors::Nvidia || mode == GfxVendors::Hybrid || mode == GfxVendors::Integrated
}

/// The driver actions of a mode, in order.
pub open spec fn driver_tasks(mode: GfxVendors, vfio_enable: bool) -> Seq<SetupTask> {
    let unload_vfio = if vfio_enable {
        driver_tasks_for(DriverAction::Unload, vfio_modules())
    } else {
        seq![]
    };
    match mode {
        GfxVendors::Nvidia | GfxVendors::Hybrid | GfxVendors::Compute => unload_vfio
            + driver_tasks_for(DriverAction::Load, nvidia_modules()),
        GfxVendors::Vfio => if vfio_enable {
            seq![SetupTask::Driver(DriverAction::Unload, KernelModule::Nouveau)]
                + driver_tasks_for(DriverAction::Unload, nvidia_modules())
                + seq![SetupTask::UnbindDevices, SetupTask::Driver(DriverAction::Load, KernelModule::VfioPci)]
        } else {
            seq![SetupTask::RefuseVfio]
        },
        GfxVendors::Integrated => seq![SetupTask::Driver(DriverAction::Unload, KernelModule::Nouveau)]
            + unload_vfio + driver_tasks_for(DriverAction::Unload, nvidia_modules())
            + seq![SetupTask::UnbindDevices, SetupTask::RemoveDevices],
    }
}

/// Every task of a change to `mode`, in the order they run.
pub open spec fn setup_tasks(mode: GfxVendors, vfio_enable: bool) -> Seq<SetupTask> {
    seq![SetupTask::RescanBus, SetupTask::NvidiaRuntimePmAuto]
        + (if writes_xorg_conf(mode) { seq![SetupTask::WriteXorgConf] } else { seq![] })
        + seq![SetupTask::WriteModprobeConf] + driver_tasks(mode, vfio_enable)
}

fn push_nvidia_tasks(tasks: &mut Vec<SetupTask>, action: DriverAction)
    ensures
        final(tasks)@ == old(tasks)@ + driver_tasks_for(action, nvidia_modules()),
{
    tasks.push(SetupTask::Driver(action, KernelModule::NvidiaDrm));
    tasks.push(SetupTask::Driver(action, KernelModule::NvidiaModeset));
    tasks.push(SetupTask::Driver(action, KernelModule::NvidiaUvm));
    tasks.push(SetupTask::Driver(action, KernelModule::Nvidia));
    assert(tasks@ =~= old(tasks)@ + driver_tasks_for(action, nvidia_modules()));
}

fn push_vfio_unload_tasks(tasks: &mut Vec<SetupTask>)
    ensures
        final(tasks)@ == old(tasks)@ + driver_tasks_for(DriverAction::Unload, vfio_modules()),
{
    tasks.push(SetupTask::Driver(DriverAction::Unload, KernelModule::VfioPci));
    tasks.push(SetupTask::Driver(DriverAction::Unload, KernelModule::VfioPciCore));
    tasks.push(SetupTask::Driver(DriverAction::Unload, KernelModule::VfioIommuType1));
    tasks.push(SetupTask::Driver(DriverAction::Unload, KernelModule::VfioVirqfd));
    tasks.push(SetupTask::Driver(DriverAction::Unload, KernelModule::Vfio));
    assert(tasks@ =~= old(tasks)@ + driver_tasks_for(DriverAction::Unload, vfio_modules()));
}

/// The ordered mutations that put the system into `mode`: a bus rescan and
/// runtime power management set to "auto" on the NVIDIA devices, the output
/// configuration for `Nvidia`, `Hybrid` and `Integrated`, the module policy
/// file, then the mode's driver actions.
pub fn mode_setup_tasks(mode: GfxVendors, vfio_enable: bool) -> (r: Vec<SetupTask>)
    ensures
        r@ == setup_tasks(mode, vfio_enable),
{
    let mut tasks: Vec<SetupTask> = Vec::new();
    tasks.push(SetupTask::RescanBus);
    tasks.push(SetupTask::NvidiaRuntimePmAuto);
    if matches!(mode, GfxVendors::Nvidia | GfxVendors::Hybrid | GfxVendors::Integrated) {
        tasks.push(SetupTask::WriteXorgConf);
    }
    tasks.push(SetupTask::WriteModprobeConf);
    let ghost head = tasks@;
    match mode {
        GfxVendors::Nvidia | GfxVendors::Hybrid | GfxVendors::Compute => {
            if vfio_enable {
                push_vfio_unload_tasks(&mut tasks);
            }
            push_nvidia_tasks(&mut tasks, DriverAction::Load);
        },
        GfxVendors::Vfio => {
            if vfio_enable {
                tasks.push(SetupTask::Driver(DriverAction::Unload, KernelModule::Nouveau));
                push_nvidia_tasks(&mut tasks, DriverAction::Unload);
                tasks.push(SetupTask::UnbindDevices);
                tasks.push(SetupTask::Driver(DriverAction::Load, KernelModule::VfioPci));
            } else {
                tasks.push(SetupTask::RefuseVfio);
            }
        },
        GfxVendors::Integrated => {
            tasks.push(SetupTask::Driver(DriverAction::Unload, KernelModule::Nouveau));
            if vfio_enable {
                push_vfio_unload_tasks(&mut tasks);
            }
            push_nvidia_tasks(&mut tasks, DriverAction::Unload);
            tasks.push(SetupTask::UnbindDevices);
            tasks.push(SetupTask::RemoveDevices);
        },
    }
    assert(tasks@ =~= head + driver_tasks(mode, vfio_enable));
    assert(tasks@ =~= setup_tasks(mode, vfio_enable));
    tasks
}

} // verus!
