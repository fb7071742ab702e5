use asusctl::conf::{modprobe_conf_bytes, xorg_conf_bytes, MODPROBE_BASE, MODPROBE_INTEGRATED, MODPROBE_MODESET_OFF, MODPROBE_MODESET_ON, XORG_HEAD, XORG_PRIMARY_GPU, XORG_TAIL};
use asusctl::controller::{fallback_service_action, hardware_switch_engaged, CtrlGraphics, GfxConfig, GfxPower, ModeDispatch};
use asusctl::driver::{classify_attempt, driver_attempt_step, driver_error, AttemptClass, DriverFailure, DriverStep};
use asusctl::error::GfxError;
use asusctl::gfx_vendors::{required_user_action, GfxRequiredUserAction, GfxVendors};
use asusctl::pci::{classify_devices, GraphicsDevice, PciBus, PciFunction};
use asusctl::session::{
    display_manager_wait_step, graphical_user_sessions_exist, session_wait_step, worker_mode, DisplayManagerWait,
    SessionClass, SessionInfo, SessionState, SessionType, SessionWait,
};
use asusctl::setup::{mode_setup_tasks, DriverAction, KernelModule, SetupTask};

const ALL: [GfxVendors; 5] = [
    GfxVendors::Nvidia,
    GfxVendors::Hybrid,
    GfxVendors::Compute,
    GfxVendors::Vfio,
    GfxVendors::Integrated,
];

fn func(id: &str, class: u32, vendor: u16, device: u16) -> PciFunction {
    PciFunction { id: id.to_string(), class, vendor, device }
}

fn nvidia_bus() -> Vec<PciFunction> {
    vec![
        func("0000:00:02.0", 0x030000, 0x8086, 0x9bc4),
        func("0000:01:00.0", 0x030000, 0x10de, 0x1f91),
        func("0000:01:00.1", 0x040300, 0x10de, 0x10fa),
        func("0000:02:00.0", 0x010802, 0x144d, 0xa808),
    ]
}

fn controller(saved: GfxVendors, vfio: bool) -> CtrlGraphics {
    CtrlGraphics::new(GfxConfig::new(saved, vfio), PciBus::new(), &nvidia_bus())
}

fn s(x: &str) -> String {
    x.to_string()
}

#[test]
fn required_action_covers_all_pairs() {
    let expected = [
        (GfxVendors::Nvidia, [GfxRequiredUserAction::Logout, GfxRequiredUserAction::Logout, GfxRequiredUserAction::Integrated, GfxRequiredUserAction::Integrated, GfxRequiredUserAction::Logout]),
        (GfxVendors::Hybrid, [GfxRequiredUserAction::Logout, GfxRequiredUserAction::Logout, GfxRequiredUserAction::Integrated, GfxRequiredUserAction::Integrated, GfxRequiredUserAction::Logout]),
        (GfxVendors::Compute, [GfxRequiredUserAction::Logout, GfxRequiredUserAction::Logout, GfxRequiredUserAction::Immediate, GfxRequiredUserAction::Immediate, GfxRequiredUserAction::Immediate]),
        (GfxVendors::Vfio, [GfxRequiredUserAction::Logout, GfxRequiredUserAction::Logout, GfxRequiredUserAction::Immediate, GfxRequiredUserAction::Immediate, GfxRequiredUserAction::Immediate]),
        (GfxVendors::Integrated, [GfxRequiredUserAction::Logout, GfxRequiredUserAction::Logout, GfxRequiredUserAction::Immediate, GfxRequiredUserAction::Immediate, GfxRequiredUserAction::Immediate]),
    ];
    for (current, row) in expected.iter() {
        for (target, action) in ALL.iter().zip(row.iter()) {
            assert_eq!(required_user_action(*current, *target), *action, "{:?} -> {:?}", current, target);
            assert_eq!(controller(*current, true).is_logout_required(*target), *action);
        }
    }
    assert_eq!(required_user_action(GfxVendors::Integrated, GfxVendors::Vfio), GfxRequiredUserAction::Immediate);
    assert_eq!(required_user_action(GfxVendors::Hybrid, GfxVendors::Compute), GfxRequiredUserAction::Integrated);
    assert_eq!(required_user_action(GfxVendors::Nvidia, GfxVendors::Integrated), GfxRequiredUserAction::Logout);
}

#[test]
fn driver_retry_succeeds_on_sixth_attempt() {
    let err = b"modprobe: ERROR: could not insert 'nvidia': Device or resource busy\n".to_vec();
    for attempt in 1..=5u32 {
        assert_eq!(driver_attempt_step(KernelModule::Nvidia, attempt, false, &err), DriverStep::Retry);
    }
    assert_eq!(driver_attempt_step(KernelModule::Nvidia, 6, true, &Vec::new()), DriverStep::Done);
}

#[test]
fn driver_retry_fails_after_six_attempts() {
    let err = b"rmmod: ERROR: Module nvidia is in use\n".to_vec();
    for attempt in 1..=5u32 {
        assert_eq!(driver_attempt_step(KernelModule::Nvidia, attempt, false, &err), DriverStep::Retry);
    }
    let last = driver_attempt_step(KernelModule::Nvidia, 6, false, &err);
    assert_eq!(last, DriverStep::Failed(DriverFailure::Exhausted));
    assert_eq!(driver_error(KernelModule::Nvidia, DriverFailure::Exhausted), GfxError::DriverAction(s("nvidia")));
}

#[test]
fn driver_not_loaded_is_done_first_time() {
    let err = b"rmmod: ERROR: Module nouveau is not currently loaded\n".to_vec();
    assert_eq!(driver_attempt_step(KernelModule::Nouveau, 1, false, &err), DriverStep::Done);
    let bare = b"rmmod: ERROR: Module nouveau is not currently loaded".to_vec();
    assert_eq!(classify_attempt(KernelModule::Nouveau, false, &bare), AttemptClass::NotLoaded);
}

#[test]
fn driver_failure_rules() {
    let builtin = b"rmmod: ERROR: Module vfio is builtin.\n".to_vec();
    assert_eq!(classify_attempt(KernelModule::Vfio, false, &builtin), AttemptClass::Builtin);
    assert_eq!(
        driver_attempt_step(KernelModule::Vfio, 1, false, &builtin),
        DriverStep::Failed(DriverFailure::Builtin)
    );
    assert_eq!(driver_error(KernelModule::Vfio, DriverFailure::Builtin), GfxError::DriverBuiltin(s("vfio")));
    let denied = b"rmmod: ERROR: could not remove module nvidia: Permission denied\n".to_vec();
    assert_eq!(classify_attempt(KernelModule::Nvidia, false, &denied), AttemptClass::PermissionDenied);
    assert_eq!(driver_attempt_step(KernelModule::Nvidia, 1, false, &denied), DriverStep::Done);
    let missing = b"modprobe: FATAL: Module vfio-pci not found in directory /lib/modules/6.1\n".to_vec();
    assert_eq!(classify_attempt(KernelModule::VfioPci, false, &missing), AttemptClass::Missing);
    assert_eq!(
        driver_attempt_step(KernelModule::VfioPci, 2, false, &missing),
        DriverStep::Failed(DriverFailure::Missing)
    );
    assert_eq!(driver_error(KernelModule::VfioPci, DriverFailure::Missing), GfxError::MissingModule(s("vfio-pci")));
    // The missing-module rule names the module acted on.
    assert_eq!(classify_attempt(KernelModule::Nvidia, false, &missing), AttemptClass::Transient);
    assert_eq!(classify_attempt(KernelModule::Nvidia, true, &missing), AttemptClass::Succeeded);
}

#[test]
fn request_vfio_while_disabled_is_refused() {
    let mut ctrl = controller(GfxVendors::Integrated, false);
    let before = ctrl.config();
    let r = ctrl.set_gfx_mode(GfxVendors::Vfio, false);
    assert!(matches!(r, Err(GfxError::VfioDisabled)));
    assert_eq!(ctrl.config(), before);
    assert_eq!(ctrl.get_gfx_mode(), GfxVendors::Integrated);
}

#[test]
fn hardware_guard_refuses_any_request() {
    let mut ctrl = controller(GfxVendors::Hybrid, true);
    let r = ctrl.set_gfx_mode(GfxVendors::Integrated, true);
    assert!(matches!(r, Err(GfxError::HardwareGuard)));
    assert_eq!(ctrl.config().gfx_mode, GfxVendors::Hybrid);
}

#[test]
fn hybrid_to_integrated_waits_for_logout() {
    let mut ctrl = controller(GfxVendors::Hybrid, false);
    let change = ctrl.set_gfx_mode(GfxVendors::Integrated, false).unwrap();
    assert_eq!(change.action, GfxRequiredUserAction::Logout);
    let id = match change.dispatch {
        ModeDispatch::StartWorker { id, mode } => {
            assert_eq!(mode, GfxVendors::Integrated);
            id
        }
        other => panic!("unexpected dispatch {:?}", other),
    };
    assert!(ctrl.is_pending(id));
    // Sessions open: keep waiting; then drained.
    assert_eq!(session_wait_step(true, !ctrl.is_pending(id), 1, 180), SessionWait::Waiting);
    assert_eq!(session_wait_step(false, !ctrl.is_pending(id), 2, 180), SessionWait::Drained);
    let (mode, vfio) = ctrl.worker_setup(GfxVendors::Integrated);
    assert_eq!(mode, GfxVendors::Integrated);
    let tasks = mode_setup_tasks(mode, vfio);
    assert_eq!(
        tasks,
        vec![
            SetupTask::RescanBus,
            SetupTask::NvidiaRuntimePmAuto,
            SetupTask::WriteXorgConf,
            SetupTask::WriteModprobeConf,
            SetupTask::Driver(DriverAction::Unload, KernelModule::Nouveau),
            SetupTask::Driver(DriverAction::Unload, KernelModule::NvidiaDrm),
            SetupTask::Driver(DriverAction::Unload, KernelModule::NvidiaModeset),
            SetupTask::Driver(DriverAction::Unload, KernelModule::NvidiaUvm),
            SetupTask::Driver(DriverAction::Unload, KernelModule::Nvidia),
            SetupTask::UnbindDevices,
            SetupTask::RemoveDevices,
        ]
    );
    let devices = ctrl.devices();
    assert_eq!(modprobe_conf_bytes(mode, &devices), MODPROBE_INTEGRATED.as_bytes().to_vec());
    let xorg = xorg_conf_bytes(mode);
    assert_eq!(xorg, [XORG_HEAD, XORG_TAIL].concat().into_bytes());
    assert!(!String::from_utf8(xorg).unwrap().contains("PrimaryGPU"));
    ctrl.mode_change_finished(id, mode);
    assert_eq!(ctrl.config().gfx_mode, GfxVendors::Integrated);
    assert_eq!(ctrl.config().gfx_tmp_mode, None);
    assert!(!ctrl.is_pending(id));
}

#[test]
fn integrated_to_vfio_applies_in_session() {
    let mut ctrl = controller(GfxVendors::Integrated, true);
    let change = ctrl.set_gfx_mode(GfxVendors::Vfio, false).unwrap();
    assert_eq!(change.action, GfxRequiredUserAction::Immediate);
    match change.dispatch {
        ModeDispatch::ApplyNow { mode, tasks } => {
            assert_eq!(mode, GfxVendors::Vfio);
            assert_eq!(tasks, mode_setup_tasks(GfxVendors::Vfio, true));
            assert_eq!(
                tasks[2..].to_vec(),
                vec![
                    SetupTask::WriteModprobeConf,
                    SetupTask::Driver(DriverAction::Unload, KernelModule::Nouveau),
                    SetupTask::Driver(DriverAction::Unload, KernelModule::NvidiaDrm),
                    SetupTask::Driver(DriverAction::Unload, KernelModule::NvidiaModeset),
                    SetupTask::Driver(DriverAction::Unload, KernelModule::NvidiaUvm),
                    SetupTask::Driver(DriverAction::Unload, KernelModule::Nvidia),
                    SetupTask::UnbindDevices,
                    SetupTask::Driver(DriverAction::Load, KernelModule::VfioPci),
                ]
            );
        }
        other => panic!("unexpected dispatch {:?}", other),
    }
    ctrl.mode_applied_in_session(GfxVendors::Vfio);
    assert_eq!(ctrl.config().gfx_mode, GfxVendors::Integrated);
    assert_eq!(ctrl.config().gfx_tmp_mode, Some(GfxVendors::Vfio));
    assert_eq!(ctrl.get_gfx_mode(), GfxVendors::Vfio);
    // The next in-session change to Integrated clears the override.
    let change = ctrl.set_gfx_mode(GfxVendors::Integrated, false).unwrap();
    assert_eq!(change.action, GfxRequiredUserAction::Immediate);
    ctrl.mode_applied_in_session(GfxVendors::Integrated);
    assert_eq!(ctrl.config().gfx_tmp_mode, None);
    assert_eq!(ctrl.get_gfx_mode(), GfxVendors::Integrated);
}

#[test]
fn must_be_integrated_first() {
    let mut ctrl = controller(GfxVendors::Nvidia, true);
    let change = ctrl.set_gfx_mode(GfxVendors::Compute, false).unwrap();
    assert_eq!(change.action, GfxRequiredUserAction::Integrated);
    assert!(matches!(change.dispatch, ModeDispatch::Refused));
    assert_eq!(ctrl.config().gfx_mode, GfxVendors::Nvidia);
}

#[test]
fn second_request_cancels_first_worker() {
    let mut ctrl = controller(GfxVendors::Hybrid, false);
    let first = match ctrl.set_gfx_mode(GfxVendors::Integrated, false).unwrap().dispatch {
        ModeDispatch::StartWorker { id, .. } => id,
        other => panic!("unexpected dispatch {:?}", other),
    };
    assert_eq!(session_wait_step(true, !ctrl.is_pending(first), 3, 180), SessionWait::Waiting);
    let second = match ctrl.set_gfx_mode(GfxVendors::Nvidia, false).unwrap().dispatch {
        ModeDispatch::StartWorker { id, .. } => id,
        other => panic!("unexpected dispatch {:?}", other),
    };
    assert_ne!(first, second);
    assert!(!ctrl.is_pending(first));
    assert!(ctrl.is_pending(second));
    // The first worker stops at its next poll, even once sessions are gone.
    assert_eq!(session_wait_step(true, !ctrl.is_pending(first), 4, 180), SessionWait::Cancelled);
    assert_eq!(session_wait_step(false, !ctrl.is_pending(first), 5, 180), SessionWait::Cancelled);
    assert_eq!(session_wait_step(false, !ctrl.is_pending(second), 5, 180), SessionWait::Drained);
    assert_eq!(ctrl.cancel_mode_change_thread(), Some(second));
    assert!(!ctrl.is_pending(second));
}

#[test]
fn session_wait_times_out() {
    let limit = 2u64;
    let mut outcome = SessionWait::Waiting;
    let mut elapsed = 0u64;
    while outcome == SessionWait::Waiting {
        outcome = session_wait_step(true, false, elapsed, limit);
        elapsed += 1;
    }
    assert_eq!(outcome, SessionWait::TimedOut);
    assert_eq!(elapsed, 4);
    assert_eq!(session_wait_step(true, false, 180, 180), SessionWait::Waiting);
    assert_eq!(session_wait_step(true, false, 181, 180), SessionWait::TimedOut);
}

#[test]
fn graphical_sessions_are_detected() {
    let tty = SessionInfo { class: SessionClass::User, kind: SessionType::Tty, state: SessionState::Active };
    let greeter = SessionInfo { class: SessionClass::Greeter, kind: SessionType::X11, state: SessionState::Active };
    let closing = SessionInfo { class: SessionClass::User, kind: SessionType::Wayland, state: SessionState::Closing };
    let online = SessionInfo { class: SessionClass::User, kind: SessionType::Mir, state: SessionState::Online };
    assert!(!graphical_user_sessions_exist(&vec![]));
    assert!(!graphical_user_sessions_exist(&vec![tty, greeter, closing]));
    assert!(graphical_user_sessions_exist(&vec![tty, online]));
}

#[test]
fn display_manager_wait_is_bounded() {
    assert_eq!(display_manager_wait_step(true, 1), DisplayManagerWait::Reached);
    assert_eq!(display_manager_wait_step(false, 12), DisplayManagerWait::Poll);
    assert_eq!(display_manager_wait_step(false, 13), DisplayManagerWait::TimedOut);
}

#[test]
fn worker_fail_safe_forces_integrated() {
    assert_eq!(worker_mode(GfxVendors::Vfio, GfxVendors::Nvidia), GfxVendors::Integrated);
    assert_eq!(worker_mode(GfxVendors::Compute, GfxVendors::Hybrid), GfxVendors::Integrated);
    assert_eq!(worker_mode(GfxVendors::Compute, GfxVendors::Integrated), GfxVendors::Compute);
    assert_eq!(worker_mode(GfxVendors::Nvidia, GfxVendors::Hybrid), GfxVendors::Nvidia);
}

#[test]
fn setup_files_are_idempotent() {
    let ctrl = controller(GfxVendors::Integrated, true);
    for mode in ALL.iter() {
        let a = (xorg_conf_bytes(*mode), modprobe_conf_bytes(*mode, &ctrl.devices()));
        let b = (xorg_conf_bytes(*mode), modprobe_conf_bytes(*mode, &ctrl.devices()));
        assert_eq!(a, b);
        assert_eq!(mode_setup_tasks(*mode, true), mode_setup_tasks(*mode, true));
    }
}

#[test]
fn modprobe_templates() {
    let devs: Vec<GraphicsDevice> = Vec::new();
    let on = [MODPROBE_BASE, MODPROBE_MODESET_ON].concat().into_bytes();
    let off = [MODPROBE_BASE, MODPROBE_MODESET_OFF].concat().into_bytes();
    assert_eq!(modprobe_conf_bytes(GfxVendors::Nvidia, &devs), on);
    assert_eq!(modprobe_conf_bytes(GfxVendors::Hybrid, &devs), on);
    assert_eq!(modprobe_conf_bytes(GfxVendors::Compute, &devs), off);
    assert!(String::from_utf8(on).unwrap().ends_with("options nvidia-drm modeset=1\n"));
}

#[test]
fn vfio_conf_lists_every_function() {
    let devs = vec![
        GraphicsDevice::new(s("0000:01:00.0"), vec![func("0000:01:00.0", 0x030000, 0x10de, 0x1f91), func("0000:01:00.1", 0x040300, 0x10de, 0x10fa)]),
        GraphicsDevice::new(s("0000:05:00.0"), vec![func("0000:05:00.0", 0x030000, 0x10de, 0x0a)]),
    ];
    let expected = [MODPROBE_INTEGRATED, "options vfio-pci ids=10de:1f91,10de:10fa,10de:a"].concat().into_bytes();
    assert_eq!(modprobe_conf_bytes(GfxVendors::Vfio, &devs), expected);
    let none: Vec<GraphicsDevice> = Vec::new();
    let empty = [MODPROBE_INTEGRATED, "options vfio-pci ids="].concat().into_bytes();
    assert_eq!(modprobe_conf_bytes(GfxVendors::Vfio, &none), empty);
}

#[test]
fn xorg_primary_gpu_only_for_nvidia() {
    assert_eq!(xorg_conf_bytes(GfxVendors::Nvidia), [XORG_HEAD, XORG_PRIMARY_GPU, XORG_TAIL].concat().into_bytes());
    assert_eq!(xorg_conf_bytes(GfxVendors::Hybrid), [XORG_HEAD, XORG_TAIL].concat().into_bytes());
    assert!(String::from_utf8(xorg_conf_bytes(GfxVendors::Nvidia)).unwrap().contains("Option \"PrimaryGPU\" \"true\""));
}

#[test]
fn setup_tasks_per_mode() {
    assert_eq!(
        mode_setup_tasks(GfxVendors::Compute, false),
        vec![
            SetupTask::RescanBus,
            SetupTask::NvidiaRuntimePmAuto,
            SetupTask::WriteModprobeConf,
            SetupTask::Driver(DriverAction::Load, KernelModule::NvidiaDrm),
            SetupTask::Driver(DriverAction::Load, KernelModule::NvidiaModeset),
            SetupTask::Driver(DriverAction::Load, KernelModule::NvidiaUvm),
            SetupTask::Driver(DriverAction::Load, KernelModule::Nvidia),
        ]
    );
    let hybrid = mode_setup_tasks(GfxVendors::Hybrid, true);
    assert_eq!(hybrid.len(), 3 + 1 + 5 + 4);
    assert_eq!(hybrid[4], SetupTask::Driver(DriverAction::Unload, KernelModule::VfioPci));
    assert_eq!(hybrid[8], SetupTask::Driver(DriverAction::Unload, KernelModule::Vfio));
    assert_eq!(
        mode_setup_tasks(GfxVendors::Vfio, false),
        vec![SetupTask::RescanBus, SetupTask::NvidiaRuntimePmAuto, SetupTask::WriteModprobeConf, SetupTask::RefuseVfio]
    );
    assert_eq!(KernelModule::VfioPci.name(), "vfio-pci");
    assert_eq!(DriverAction::Unload.command(), "rmmod");
    assert_eq!(DriverAction::Load.command(), "modprobe");
}

#[test]
fn devices_are_grouped_by_slot() {
    let devs = classify_devices(&nvidia_bus());
    assert_eq!(devs.nvidia.len(), 1);
    assert_eq!(devs.nvidia[0].id(), "0000:01:00.0");
    let ids: Vec<&str> = devs.nvidia[0].functions().iter().map(|f| f.id.as_str()).collect();
    assert_eq!(ids, vec!["0000:01:00.0", "0000:01:00.1"]);
    assert_eq!(devs.intel.len(), 1);
    assert_eq!(devs.intel[0].functions().len(), 1);
    assert_eq!(devs.amd.len(), 0);
    assert_eq!(devs.other.len(), 0);
    let odd = vec![func("0000:03:00.0", 0x030200, 0x1234, 1), func("0000:03:00.3", 0x0c0330, 0x1234, 2)];
    let devs = classify_devices(&odd);
    assert_eq!(devs.other.len(), 1);
    assert_eq!(devs.other[0].functions().len(), 2);
    let mixed = vec![
        func("0000:05:00.0", 0x030000, 0x1002, 0x73df),
        func("0000:05:00.1", 0x040300, 0x1002, 0xab28),
        func("0000:00:02.0", 0x038000, 0x8086, 0x9a49),
        func("0000:01:00.0", 0x030200, 0x10de, 0x25a0),
    ];
    let devs = classify_devices(&mixed);
    assert_eq!(devs.amd.len(), 1);
    assert_eq!(devs.amd[0].functions().len(), 2);
    assert_eq!(devs.intel.len(), 1);
    assert_eq!(devs.nvidia.len(), 1);
    assert_eq!(devs.other.len(), 0);
}

#[test]
fn power_status_parsing() {
    assert_eq!(GfxPower::from_runtime_status(Some("active\n")), GfxPower::Active);
    assert_eq!(GfxPower::from_runtime_status(Some(" suspended ")), GfxPower::Suspended);
    assert_eq!(GfxPower::from_runtime_status(Some("off")), GfxPower::Off);
    assert_eq!(GfxPower::from_runtime_status(Some("resuming\n")), GfxPower::Unknown);
    assert_eq!(GfxPower::from_runtime_status(None), GfxPower::Off);
}

#[test]
fn reload_uses_mode_in_effect() {
    let mut ctrl = controller(GfxVendors::Integrated, true);
    ctrl.mode_applied_in_session(GfxVendors::Compute);
    let mut expected = mode_setup_tasks(GfxVendors::Compute, true);
    expected.push(SetupTask::FallbackService(false));
    assert_eq!(ctrl.reload(), expected);
    let nv = controller(GfxVendors::Nvidia, false);
    assert_eq!(nv.reload().last(), Some(&SetupTask::FallbackService(true)));
    assert_eq!(ctrl.bus().rescan_path(), "/sys/bus/pci/rescan");
    assert_eq!(fallback_service_action(true), "enable");
    assert_eq!(fallback_service_action(false), "disable");
}

#[test]
fn mode_names_and_switch_attribute() {
    for mode in ALL.iter() {
        assert_eq!(GfxVendors::from_name(mode.name()), Some(*mode));
    }
    assert_eq!(GfxVendors::from_name("Integrated"), Some(GfxVendors::Integrated));
    assert_eq!(GfxVendors::from_name("dgpu"), None);
    assert!(hardware_switch_engaged(Some("1\n")));
    assert!(!hardware_switch_engaged(Some("0\n")));
    assert!(!hardware_switch_engaged(Some("10")));
    assert!(!hardware_switch_engaged(None));
}
