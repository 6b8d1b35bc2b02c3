use linux_drm::drm::{drmModeConnection, drmModeConnector, drmModeCrtc, drmModeModeInfo, drmModeSubPixel};
use linux_drm::present::{cleanup, CleanupStep, FrameStep, Presenter};
use linux_drm::setup::{
    advance, classify_mode_set_failure, gbm_bo_flags, initial_config, restored_config, show_buffer,
    surface_flags, SetupAbort, SetupError, SetupEvent, SetupOutcome, SetupStep,
};

const STEPS: [SetupStep; 20] = [
    SetupStep::LoadDrm,
    SetupStep::FindCard,
    SetupStep::SetMaster,
    SetupStep::FindConnector,
    SetupStep::FindEncoder,
    SetupStep::FindCrtcs,
    SetupStep::SetMode,
    SetupStep::LoadEgl,
    SetupStep::QueryExtensions,
    SetupStep::FindProcAddress,
    SetupStep::LoadGbm,
    SetupStep::CreateDevice,
    SetupStep::CheckFormat,
    SetupStep::CreateSurface,
    SetupStep::CreateDisplay,
    SetupStep::InitializeEgl,
    SetupStep::CreateContext,
    SetupStep::CompareDisplay,
    SetupStep::CreateWindowSurface,
    SetupStep::MakeCurrent,
];

fn event(step: SetupStep, good: bool) -> SetupEvent {
    match step {
        SetupStep::SetMaster | SetupStep::SetMode => SetupEvent::Returned(if good { 0 } else { -5 }),
        SetupStep::CheckFormat => SetupEvent::Returned(if good { 1 } else { 0 }),
        SetupStep::InitializeEgl | SetupStep::MakeCurrent => {
            SetupEvent::Answered(if good { 1 } else { 0 })
        }
        SetupStep::QueryExtensions => {
            let list = if good { "EGL_X EGL_EXT_platform_base" } else { "EGL_EXT_platform_based" };
            SetupEvent::Extensions(list.to_string())
        }
        _ => SetupEvent::Obtained(good),
    }
}

#[test]
fn steps_follow_each_other() {
    for (i, &step) in STEPS.iter().enumerate() {
        let next = STEPS.get(i + 1).copied().unwrap_or(SetupStep::Ready);
        assert_eq!(advance(step, &event(step, true)), SetupOutcome::Next(next));
    }
}

#[test]
fn failures_of_steps() {
    let failed = |step| advance(step, &event(step, false));
    let errors = [
        (SetupStep::LoadDrm, SetupError::LoadDrm),
        (SetupStep::SetMaster, SetupError::SetMaster { status: -5 }),
        (SetupStep::FindConnector, SetupError::NoConnector),
        (SetupStep::FindEncoder, SetupError::NoEncoder),
        (SetupStep::LoadEgl, SetupError::LoadEgl),
        (SetupStep::QueryExtensions, SetupError::NoPlatformBase),
        (SetupStep::FindProcAddress, SetupError::NoProcAddress),
        (SetupStep::LoadGbm, SetupError::LoadGbm),
        (SetupStep::CreateDevice, SetupError::CreateDevice),
        (SetupStep::CheckFormat, SetupError::UnsupportedFormat { supported: 0 }),
        (SetupStep::CreateSurface, SetupError::CreateSurface),
        (SetupStep::CreateDisplay, SetupError::CreateDisplay),
        (SetupStep::InitializeEgl, SetupError::InitializeEgl { initialized: 0 }),
    ];
    for (step, error) in errors {
        assert_eq!(failed(step), SetupOutcome::Failed(error));
    }
    let aborts = [
        (SetupStep::FindCard, SetupAbort::NoCard),
        (SetupStep::FindCrtcs, SetupAbort::NoCrtc),
        (SetupStep::SetMode, SetupAbort::ModeSetFailed { status: -5 }),
        (SetupStep::CreateContext, SetupAbort::NoContext),
        (SetupStep::CompareDisplay, SetupAbort::WrongDisplay),
        (SetupStep::CreateWindowSurface, SetupAbort::NoWindowSurface),
        (SetupStep::MakeCurrent, SetupAbort::NotCurrent),
    ];
    for (step, abort) in aborts {
        assert_eq!(failed(step), SetupOutcome::Aborted(abort));
    }
}

#[test]
fn only_one_number_is_success() {
    let outcome = |step, number| advance(step, &SetupEvent::Returned(number));
    assert_eq!(
        outcome(SetupStep::SetMaster, 1),
        SetupOutcome::Failed(SetupError::SetMaster { status: 1 })
    );
    assert_eq!(
        outcome(SetupStep::CheckFormat, 2),
        SetupOutcome::Failed(SetupError::UnsupportedFormat { supported: 2 })
    );
    let answered = |step, answer| advance(step, &SetupEvent::Answered(answer));
    assert_eq!(answered(SetupStep::MakeCurrent, 2), SetupOutcome::Aborted(SetupAbort::NotCurrent));
    assert_eq!(
        answered(SetupStep::InitializeEgl, u32::MAX),
        SetupOutcome::Failed(SetupError::InitializeEgl { initialized: u32::MAX })
    );
}

#[test]
fn setting_up_stops_at_the_first_failure() {
    for (i, &failing) in STEPS.iter().enumerate() {
        let mut step = SetupStep::LoadDrm;
        let mut taken = 0;
        let end = loop {
            let outcome = advance(step, &event(step, step != failing));
            taken += 1;
            match outcome {
                SetupOutcome::Next(next) => step = next,
                stopped => break stopped,
            }
        };
        assert_eq!(taken, i + 1);
        assert_eq!(end, advance(failing, &event(failing, false)));
    }
}

#[test]
fn mode_set_failures() {
    assert_eq!(classify_mode_set_failure(-libc::EINVAL), SetupAbort::InvalidCrtc);
    assert_eq!(classify_mode_set_failure(-1), SetupAbort::IncompatibleConnectors);
    assert_eq!(
        classify_mode_set_failure(-libc::EACCES),
        SetupAbort::ModeSetFailed { status: -libc::EACCES }
    );
    assert_eq!(
        classify_mode_set_failure(libc::EINVAL),
        SetupAbort::ModeSetFailed { status: libc::EINVAL }
    );
}

#[test]
fn error_messages() {
    assert_eq!(SetupError::LoadDrm.message(), "Failed to load libdrm");
    assert_eq!(SetupError::NoConnector.message(), "No connector found");
    assert_eq!(SetupError::NoEncoder.message(), "Failed to find encoder for connector");
    assert_eq!(SetupError::LoadEgl.message(), "Failed to load libegl");
    assert_eq!(SetupError::LoadGbm.message(), "Failed to load libgbm");
    assert_eq!(SetupError::CreateDevice.message(), "Failed to create gbm device");
    assert_eq!(SetupError::CreateSurface.message(), "Failed to create gbm surface");
    assert_eq!(SetupError::CreateDisplay.message(), "Failed to create egl display");
}

#[test]
fn failed_conditions_as_messages() {
    assert_eq!(
        SetupError::SetMaster { status: -13 }.message(),
        "Condition failed: `0 == (libdrm.drmSetMaster)(drm_fd)` (0 vs -13)"
    );
    assert_eq!(
        SetupError::NoPlatformBase.message(),
        "Condition failed: `extensions.contains(\"EGL_EXT_platform_base\")`"
    );
    assert_eq!(
        SetupError::NoProcAddress.message(),
        "Condition failed: `libegl.eglGetProcAddress.is_some()`"
    );
    assert_eq!(
        SetupError::UnsupportedFormat { supported: i32::MIN }.message(),
        "Condition failed: `(libgbm.gbm_device_is_format_supported)\
         (device, surface_format, surface_flags) == 1` (-2147483648 vs 1)"
    );
    assert_eq!(
        SetupError::InitializeEgl { initialized: u32::MAX }.message(),
        "Condition failed: `(libegl.eglInitialize.unwrap())\
         (display, &mut major, &mut minor) == 1` (4294967295 vs 1)"
    );
}

#[test]
fn surface_use() {
    assert_eq!(surface_flags(), 5);
    assert_eq!(gbm_bo_flags::GBM_BO_USE_CURSOR.bit(), 2);
    assert_eq!(gbm_bo_flags::GBM_BO_USE_FRONT_RENDERING.bit(), 64);
}

fn crtc() -> drmModeCrtc {
    let mode = drmModeModeInfo {
        clock: 1,
        hdisplay: 2,
        hsync_start: 3,
        hsync_end: 4,
        htotal: 5,
        hskew: 6,
        vdisplay: 7,
        vsync_start: 8,
        vsync_end: 9,
        vtotal: 10,
        vscan: 11,
        vrefresh: 12,
        flags: 13,
        type_: 14,
        name: [0; 32],
    };
    drmModeCrtc {
        crtc_id: 21,
        buffer_id: 22,
        x: 23,
        y: 24,
        width: 25,
        height: 26,
        mode_valid: 1,
        mode,
        gamma_size: 27,
    }
}

fn connector() -> drmModeConnector {
    drmModeConnector {
        connector_id: 31,
        encoder_id: 32,
        connector_type: 33,
        connector_type_id: 34,
        connection: drmModeConnection::DRM_MODE_CONNECTED,
        mmWidth: 35,
        mmHeight: 36,
        subpixel: drmModeSubPixel::DRM_MODE_SUBPIXEL_NONE,
        modes: vec![],
        props: vec![],
        prop_values: vec![],
        encoders: vec![],
    }
}

#[test]
fn crtc_configurations() {
    let initial = initial_config(&crtc(), &connector());
    assert_eq!((initial.crtc_id, initial.buffer_id), (21, u32::MAX));
    assert_eq!((initial.x, initial.y, initial.connector_id), (0, 0, 31));
    let shown = show_buffer(&crtc(), &connector(), 99);
    assert_eq!((shown.crtc_id, shown.buffer_id), (21, 99));
    assert_eq!((shown.x, shown.y, shown.mode.vrefresh), (0, 0, 12));
    let restored = restored_config(&crtc(), &connector());
    assert_eq!((restored.crtc_id, restored.buffer_id), (21, 22));
    assert_eq!((restored.x, restored.y, restored.connector_id), (23, 24, 31));
}

#[test]
fn cleaning_up_in_order() {
    let presenter = Presenter { held: Some(5), step: FrameStep::Finished { flip_pending: false } };
    let steps = cleanup(&presenter, &crtc(), &connector());
    assert_eq!(steps.len(), 9);
    assert!(matches!(steps[0], CleanupStep::ReleaseContext));
    assert!(matches!(steps[1], CleanupStep::DestroyContext));
    assert!(matches!(steps[2], CleanupStep::DestroyWindowSurface));
    assert!(matches!(steps[3], CleanupStep::TerminateEgl));
    assert!(matches!(steps[4], CleanupStep::RestoreCrtc(config) if config.buffer_id == 22));
    assert!(matches!(steps[5], CleanupStep::ReleaseBuffer { buffer: 5 }));
    assert!(matches!(steps[6], CleanupStep::DestroySurface));
    assert!(matches!(steps[7], CleanupStep::DestroyDevice));
    assert!(matches!(steps[8], CleanupStep::CloseCard));
    let steps = cleanup(&Presenter::new(), &crtc(), &connector());
    assert_eq!(steps.len(), 8);
    assert!(matches!(steps[5], CleanupStep::DestroySurface));
}
