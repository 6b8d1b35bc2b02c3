//! Setting up the display: the order of the steps, and which of their results are failures.

use vstd::prelude::*;

use crate::drm::{drmModeConnector, drmModeCrtc, drmModeModeInfo};
use crate::os::libc_einval;
use crate::text::{append_decimal, append_signed_decimal, contains_word};

verus! {

/// A step of setting up the display.
#[derive(Debug, Copy, Clone, PartialEq, Eq, Structural)]
pub enum SetupStep {
    /// Load libdrm.
    LoadDrm,
    /// Find a card with resources.
    FindCard,
    /// Become the card's master.
    SetMaster,
    /// Find a connected connector.
    FindConnector,
    /// Find the encoder that the connector is attached to.
    FindEncoder,
    /// Find the CRTC to draw on.
    FindCrtcs,
    /// Set the CRTC's mode.
    SetMode,
    /// Load libEGL.
    LoadEgl,
    /// Read the list of EGL's client extensions.
    QueryExtensions,
    /// Find the function that looks up other functions.
    FindProcAddress,
    /// Load libgbm.
    LoadGbm,
    /// Create a buffer device for the card.
    CreateDevice,
    /// Ask whether the device supports the surface's format.
    CheckFormat,
    /// Create the surface.
    CreateSurface,
    /// Create an EGL display for the device.
    CreateDisplay,
    /// Initialize EGL on the display.
    InitializeEgl,
    /// Create an EGL context.
    CreateContext,
    /// Compare the context's display with the one it was created for.
    CompareDisplay,
    /// Create an EGL surface for the surface.
    CreateWindowSurface,
    /// Make the context current.
    MakeCurrent,
    /// The display is ready.
    Ready,
}

/// What came of a step.
#[derive(Debug)]
pub enum SetupEvent {
    /// Whether the step gave what was asked for.
    Obtained(bool),
    /// The number that the step returned.
    Returned(i32),
    /// The truth value that a function of EGL returned: 1 for true.
    Answered(u32),
    /// The list of extensions that the step read.
    Extensions(String),
}

/// Why the display cannot be set up.
#[derive(Debug, Copy, Clone, PartialEq, Eq, Structural)]
pub enum SetupError {
    LoadDrm,
    SetMaster { status: i32 },
    NoConnector,
    NoEncoder,
    LoadEgl,
    NoPlatformBase,
    NoProcAddress,
    LoadGbm,
    CreateDevice,
    UnsupportedFormat { supported: i32 },
    CreateSurface,
    CreateDisplay,
    InitializeEgl { initialized: u32 },
}

/// A result that must not occur while the display is set up.
#[derive(Debug, Copy, Clone, PartialEq, Eq, Structural)]
pub enum SetupAbort {
    /// No card can be used.
    NoCard,
    /// No CRTC drives the first encoder.
    NoCrtc,
    /// The card knows no such CRTC.
    InvalidCrtc,
    /// The connectors cannot be used with the CRTC.
    IncompatibleConnectors,
    /// The mode could not be set for another reason.
    ModeSetFailed { status: i32 },
    /// No EGL context could be created.
    NoContext,
    /// The context belongs to another display.
    WrongDisplay,
    /// No EGL surface could be created.
    NoWindowSurface,
    /// The context could not be made current.
    NotCurrent,
}

/// How setting up goes on.
#[derive(Debug, Copy, Clone, PartialEq, Eq, Structural)]
pub enum SetupOutcome {
    /// With this step.
    Next(SetupStep),
    /// Not at all.
    Failed(SetupError),
    /// Not at all, because of a result that must not occur.
    Aborted(SetupAbort),
}

impl SetupError {
    /// The error in words. Where a step has no words of its own, they are the condition that
    /// failed, with the two numbers that it compares, if it compares numbers.
    pub open spec fn text(self) -> Seq<char> {
        match self {
            SetupError::LoadDrm => "Failed to load libdrm"@,
            SetupError::SetMaster { status } => {
                "Condition failed: `0 == (libdrm.drmSetMaster)(drm_fd)` (0 vs "@
                    + crate::text::signed_decimal(status as int) + ")"@
            },
            SetupError::NoConnector => "No connector found"@,
            SetupError::NoEncoder => "Failed to find encoder for connector"@,
            SetupError::LoadEgl => "Failed to load libegl"@,
            SetupError::NoPlatformBase => {
                "Condition failed: `extensions.contains(\"EGL_EXT_platform_base\")`"@
            },
            SetupError::NoProcAddress => {
                "Condition failed: `libegl.eglGetProcAddress.is_some()`"@
            },
            SetupError::LoadGbm => "Failed to load libgbm"@,
            SetupError::CreateDevice => "Failed to create gbm device"@,
            SetupError::UnsupportedFormat { supported } => {
                "Condition failed: `(libgbm.gbm_device_is_format_supported)\
                    (device, surface_format, surface_flags) == 1` ("@
                    + crate::text::signed_decimal(supported as int) + " vs 1)"@
            },
            SetupError::CreateSurface => "Failed to create gbm surface"@,
            SetupError::CreateDisplay => "Failed to create egl display"@,
            SetupError::InitializeEgl { initialized } => {
                "Condition failed: `(libegl.eglInitialize.unwrap())\
                    (display, &mut major, &mut minor) == 1` ("@
                    + crate::text::decimal(initialized as nat) + " vs 1)"@
            },
        }
    }

    /// The error in words.
    pub fn message(self) -> (message: String)
        ensures
            message@ == self.text(),
    {
        match self {
            SetupError::LoadDrm => "Failed to load libdrm".to_owned(),
            SetupError::SetMaster { status } => {
                let mut message =
                    "Condition failed: `0 == (libdrm.drmSetMaster)(drm_fd)` (0 vs ".to_owned();
                append_signed_decimal(&mut message, status);
                message.append(")");
                message
            },
            SetupError::NoConnector => "No connector found".to_owned(),
            SetupError::NoEncoder => "Failed to find encoder for connector".to_owned(),
            SetupError::LoadEgl => "Failed to load libegl".to_owned(),
            SetupError::NoPlatformBase => {
                "Condition failed: `extensions.contains(\"EGL_EXT_platform_base\")`".to_owned()
            },
            SetupError::NoProcAddress => {
                "Condition failed: `libegl.eglGetProcAddress.is_some()`".to_owned()
            },
            SetupError::LoadGbm => "Failed to load libgbm".to_owned(),
            SetupError::CreateDevice => "Failed to create gbm device".to_owned(),
            SetupError::UnsupportedFormat { supported } => {
                let mut message = "Condition failed: `(libgbm.gbm_device_is_format_supported)\
                    (device, surface_format, surface_flags) == 1` (".to_owned();
                append_signed_decimal(&mut message, supported);
                message.append(" vs 1)");
                message
            },
            SetupError::CreateSurface => "Failed to create gbm surface".to_owned(),
            SetupError::CreateDisplay => "Failed to create egl display".to_owned(),
            SetupError::InitializeEgl { initialized } => {
                let mut message = "Condition failed: `(libegl.eglInitialize.unwrap())\
                    (display, &mut major, &mut minor) == 1` (".to_owned();
                append_decimal(&mut message, initialized);
                message.append(" vs 1)");
                message
            },
        }
    }
}

impl SetupStep {
    /// The step that follows.
    pub open spec fn following(self) -> SetupStep {
        match self {
            SetupStep::LoadDrm => SetupStep::FindCard,
            SetupStep::FindCard => SetupStep::SetMaster,
            SetupStep::SetMaster => SetupStep::FindConnector,
            SetupStep::FindConnector => SetupStep::FindEncoder,
            SetupStep::FindEncoder => SetupStep::FindCrtcs,
            SetupStep::FindCrtcs => SetupStep::SetMode,
            SetupStep::SetMode => SetupStep::LoadEgl,
            SetupStep::LoadEgl => SetupStep::QueryExtensions,
            SetupStep::QueryExtensions => SetupStep::FindProcAddress,
            SetupStep::FindProcAddress => SetupStep::LoadGbm,
            SetupStep::LoadGbm => SetupStep::CreateDevice,
            SetupStep::CreateDevice => SetupStep::CheckFormat,
            SetupStep::CheckFormat => SetupStep::CreateSurface,
            SetupStep::CreateSurface => SetupStep::CreateDisplay,
            SetupStep::CreateDisplay => SetupStep::InitializeEgl,
            SetupStep::InitializeEgl => SetupStep::CreateContext,
            SetupStep::CreateContext => SetupStep::CompareDisplay,
            SetupStep::CompareDisplay => SetupStep::CreateWindowSurface,
            SetupStep::CreateWindowSurface => SetupStep::MakeCurrent,
            SetupStep::MakeCurrent => SetupStep::Ready,
            SetupStep::Ready => SetupStep::Ready,
        }
    }

    fn next(self) -> (step: SetupStep)
        ensures
            step == self.following(),
    {
        match self {
            SetupStep::LoadDrm => SetupStep::FindCard,
            SetupStep::FindCard => SetupStep::SetMaster,
            SetupStep::SetMaster => SetupStep::FindConnector,
            SetupStep::FindConnector => SetupStep::FindEncoder,
            SetupStep::FindEncoder => SetupStep::FindCrtcs,
            SetupStep::FindCrtcs => SetupStep::SetMode,
            SetupStep::SetMode => SetupStep::LoadEgl,
            SetupStep::LoadEgl => SetupStep::QueryExtensions,
            SetupStep::QueryExtensions => SetupStep::FindProcAddress,
            SetupStep::FindProcAddress => SetupStep::LoadGbm,
            SetupStep::LoadGbm => SetupStep::CreateDevice,
            SetupStep::CreateDevice => SetupStep::CheckFormat,
            SetupStep::CheckFormat => SetupStep::CreateSurface,
            SetupStep::CreateSurface => SetupStep::CreateDisplay,
            SetupStep::CreateDisplay => SetupStep::InitializeEgl,
            SetupStep::InitializeEgl => SetupStep::CreateContext,
            SetupStep::CreateContext => SetupStep::CompareDisplay,
            SetupStep::CompareDisplay => SetupStep::CreateWindowSurface,
            SetupStep::CreateWindowSurface => SetupStep::MakeCurrent,
            SetupStep::MakeCurrent => SetupStep::Ready,
            SetupStep::Ready => SetupStep::Ready,
        }
    }

    /// How many steps come before this one.
    pub open spec fn position(self) -> nat {
        match self {
            SetupStep::LoadDrm => 0,
            SetupStep::FindCard => 1,
            SetupStep::SetMaster => 2,
            SetupStep::FindConnector => 3,
            SetupStep::FindEncoder => 4,
            SetupStep::FindCrtcs => 5,
            SetupStep::SetMode => 6,
            SetupStep::LoadEgl => 7,
            SetupStep::QueryExtensions => 8,
            SetupStep::FindProcAddress => 9,
            SetupStep::LoadGbm => 10,
            SetupStep::CreateDevice => 11,
            SetupStep::CheckFormat => 12,
            SetupStep::CreateSurface => 13,
            SetupStep::CreateDisplay => 14,
            SetupStep::InitializeEgl => 15,
            SetupStep::CreateContext => 16,
            SetupStep::CompareDisplay => 17,
            SetupStep::CreateWindowSurface => 18,
            SetupStep::MakeCurrent => 19,
            SetupStep::Ready => 20,
        }
    }
}

/// The event is one that the step can give: a number, a truth value, a list of extensions, or
/// whether something was obtained.
pub open spec fn can_give(step: SetupStep, event: SetupEvent) -> bool {
    match step {
        SetupStep::Ready => false,
        SetupStep::QueryExtensions => event is Extensions,
        SetupStep::SetMaster | SetupStep::SetMode | SetupStep::CheckFormat => event is Returned,
        SetupStep::InitializeEgl | SetupStep::MakeCurrent => event is Answered,
        _ => event is Obtained,
    }
}

/// The result of the step is the one that was hoped for. The card's functions return 0 then,
/// those of EGL and of the buffer device 1.
pub open spec fn succeeded(step: SetupStep, event: SetupEvent) -> bool {
    match event {
        SetupEvent::Obtained(obtained) => obtained,
        SetupEvent::Extensions(extensions) => crate::text::has_word(
            extensions@,
            "EGL_EXT_platform_base"@,
        ),
        SetupEvent::Returned(number) => if step == SetupStep::SetMaster || step
            == SetupStep::SetMode {
            number == 0
        } else {
            number == 1
        },
        SetupEvent::Answered(answer) => answer == 1,
    }
}

/// Why the mode could not be set, given the number that was returned.
pub open spec fn mode_set_failure(status: i32) -> SetupAbort {
    if status == -crate::os::einval() {
        SetupAbort::InvalidCrtc
    } else if status == -1 {
        SetupAbort::IncompatibleConnectors
    } else {
        SetupAbort::ModeSetFailed { status }
    }
}

/// What a step's failure leads to.
pub open spec fn failure(step: SetupStep, event: SetupEvent) -> SetupOutcome {
    match step {
        SetupStep::LoadDrm => SetupOutcome::Failed(SetupError::LoadDrm),
        SetupStep::FindCard => SetupOutcome::Aborted(SetupAbort::NoCard),
        SetupStep::SetMaster => SetupOutcome::Failed(
            SetupError::SetMaster { status: event->Returned_0 },
        ),
        SetupStep::FindConnector => SetupOutcome::Failed(SetupError::NoConnector),
        SetupStep::FindEncoder => SetupOutcome::Failed(SetupError::NoEncoder),
        SetupStep::FindCrtcs => SetupOutcome::Aborted(SetupAbort::NoCrtc),
        SetupStep::SetMode => SetupOutcome::Aborted(mode_set_failure(event->Returned_0)),
        SetupStep::LoadEgl => SetupOutcome::Failed(SetupError::LoadEgl),
        SetupStep::QueryExtensions => SetupOutcome::Failed(SetupError::NoPlatformBase),
        SetupStep::FindProcAddress => SetupOutcome::Failed(SetupError::NoProcAddress),
        SetupStep::LoadGbm => SetupOutcome::Failed(SetupError::LoadGbm),
        SetupStep::CreateDevice => SetupOutcome::Failed(SetupError::CreateDevice),
        SetupStep::CheckFormat => SetupOutcome::Failed(
            SetupError::UnsupportedFormat { supported: event->Returned_0 },
        ),
        SetupStep::CreateSurface => SetupOutcome::Failed(SetupError::CreateSurface),
        SetupStep::CreateDisplay => SetupOutcome::Failed(SetupError::CreateDisplay),
        SetupStep::InitializeEgl => SetupOutcome::Failed(
            SetupError::InitializeEgl { initialized: event->Answered_0 },
        ),
        SetupStep::CreateContext => SetupOutcome::Aborted(SetupAbort::NoContext),
        SetupStep::CompareDisplay => SetupOutcome::Aborted(SetupAbort::WrongDisplay),
        SetupStep::CreateWindowSurface => SetupOutcome::Aborted(SetupAbort::NoWindowSurface),
        SetupStep::MakeCurrent => SetupOutcome::Aborted(SetupAbort::NotCurrent),
        SetupStep::Ready => SetupOutcome::Next(SetupStep::Ready),
    }
}

/// How setting up goes on after a step.
pub open spec fn outcome(step: SetupStep, event: SetupEvent) -> SetupOutcome {
    if succeeded(step, event) {
        SetupOutcome::Next(step.following())
    } else {
        failure(step, event)
    }
}

/// Why the mode could not be set, given the number that was returned.
pub fn classify_mode_set_failure(status: i32) -> (reason: SetupAbort)
    ensures
        reason == mode_set_failure(status),
{
    if status == -libc_einval() {
        SetupAbort::InvalidCrtc
    } else if status == -1 {
        SetupAbort::IncompatibleConnectors
    } else {
        SetupAbort::ModeSetFailed { status }
    }
}

/// Goes on with setting up after a step.
pub fn advance(step: SetupStep, event: &SetupEvent) -> (next: SetupOutcome)
    requires
        can_give(step, *event),
    ensures
        next == outcome(step, *event),
{
    let (good, status, answer): (bool, i32, u32) = match event {
        SetupEvent::Obtained(obtained) => (*obtained, 0, 0),
        SetupEvent::Extensions(extensions) => (
            contains_word(extensions.as_str(), "EGL_EXT_platform_base"),
            0,
            0,
        ),
        SetupEvent::Returned(number) => {
            let hoped: i32 = if step == SetupStep::SetMaster || step == SetupStep::SetMode {
                0
            } else {
                1
            };
            (*number == hoped, *number, 0)
        },
        SetupEvent::Answered(answer) => (*answer == 1, 0, *answer),
    };
    if good {
        return SetupOutcome::Next(step.next());
    }
    match step {
        SetupStep::LoadDrm => SetupOutcome::Failed(SetupError::LoadDrm),
        SetupStep::FindCard => SetupOutcome::Aborted(SetupAbort::NoCard),
        SetupStep::SetMaster => SetupOutcome::Failed(SetupError::SetMaster { status }),
        SetupStep::FindConnector => SetupOutcome::Failed(SetupError::NoConnector),
        SetupStep::FindEncoder => SetupOutcome::Failed(SetupError::NoEncoder),
        SetupStep::FindCrtcs => SetupOutcome::Aborted(SetupAbort::NoCrtc),
        SetupStep::SetMode => SetupOutcome::Aborted(classify_mode_set_failure(status)),
        SetupStep::LoadEgl => SetupOutcome::Failed(SetupError::LoadEgl),
        SetupStep::QueryExtensions => SetupOutcome::Failed(SetupError::NoPlatformBase),
        SetupStep::FindProcAddress => SetupOutcome::Failed(SetupError::NoProcAddress),
        SetupStep::LoadGbm => SetupOutcome::Failed(SetupError::LoadGbm),
        SetupStep::CreateDevice => SetupOutcome::Failed(SetupError::CreateDevice),
        SetupStep::CheckFormat => SetupOutcome::Failed(
            SetupError::UnsupportedFormat { supported: status },
        ),
        SetupStep::CreateSurface => SetupOutcome::Failed(SetupError::CreateSurface),
        SetupStep::CreateDisplay => SetupOutcome::Failed(SetupError::CreateDisplay),
        SetupStep::InitializeEgl => SetupOutcome::Failed(
            SetupError::InitializeEgl { initialized: answer },
        ),
        SetupStep::CreateContext => SetupOutcome::Aborted(SetupAbort::NoContext),
        SetupStep::CompareDisplay => SetupOutcome::Aborted(SetupAbort::WrongDisplay),
        SetupStep::CreateWindowSurface => SetupOutcome::Aborted(SetupAbort::NoWindowSurface),
        SetupStep::MakeCurrent => SetupOutcome::Aborted(SetupAbort::NotCurrent),
        SetupStep::Ready => SetupOutcome::Next(SetupStep::Ready),
    }
}

/// How setting up goes if it has come as far as `step` and each step gives what `event` says.
pub open spec fn setup_run(step: SetupStep, event: spec_fn(SetupStep) -> SetupEvent) -> SetupOutcome
    decreases LAST_POSITION - step.position(),
{
    if step == SetupStep::Ready {
        SetupOutcome::Next(step)
    } else {
        match outcome(step, event(step)) {
            SetupOutcome::Next(next) if next.position() == step.position() + 1 => setup_run(
                next,
                event,
            ),
            stopped => stopped,
        }
    }
}

/// The position of the last step.
pub const LAST_POSITION: u32 = 20;

/// The display becomes ready exactly if every step gives what was hoped for.
pub proof fn law_ready_iff_all_succeed(event: spec_fn(SetupStep) -> SetupEvent)
    ensures
        setup_run(SetupStep::LoadDrm, event) == SetupOutcome::Next(SetupStep::Ready) <==> (forall|
            step: SetupStep,
        |
            step != SetupStep::Ready ==> succeeded(step, #[trigger] event(step))),
{
    lemma_setup_run(SetupStep::LoadDrm, event);
}

/// Where setting up stops, it stops at the first step that did not give what was hoped for,
/// with that step's failure.
pub proof fn law_first_failure_stops(event: spec_fn(SetupStep) -> SetupEvent, failing: SetupStep)
    requires
        failing != SetupStep::Ready,
        !succeeded(failing, event(failing)),
        forall|step: SetupStep|
            step.position() < failing.position() ==> succeeded(step, #[trigger] event(step)),
    ensures
        setup_run(SetupStep::LoadDrm, event) == failure(failing, event(failing)),
{
    lemma_setup_run(SetupStep::LoadDrm, event);
}

proof fn lemma_setup_run(from: SetupStep, event: spec_fn(SetupStep) -> SetupEvent)
    ensures
        setup_run(from, event) == SetupOutcome::Next(SetupStep::Ready) <==> (forall|step: SetupStep|
            from.position() <= step.position() && step != SetupStep::Ready ==> succeeded(
                step,
                #[trigger] event(step),
            )),
        forall|failing: SetupStep|
            from.position() <= failing.position() && failing != SetupStep::Ready && !succeeded(
                failing,
                #[trigger] event(failing),
            ) && (forall|step: SetupStep|
                from.position() <= step.position() < failing.position() ==> succeeded(
                    step,
                    #[trigger] event(step),
                )) ==> setup_run(from, event) == failure(failing, event(failing)),
    decreases LAST_POSITION - from.position(),
{
    if from != SetupStep::Ready {
        if succeeded(from, event(from)) {
            lemma_setup_run(from.following(), event);
            assert forall|step: SetupStep| step.position() == from.position() implies step
                == from by {}
        } else {
            assert forall|failing: SetupStep|
                from.position() <= failing.position() && failing != SetupStep::Ready && !succeeded(
                    failing,
                    #[trigger] event(failing),
                ) && (forall|step: SetupStep|
                    from.position() <= step.position() < failing.position() ==> succeeded(
                        step,
                        #[trigger] event(step),
                    )) implies failing == from by {
                if from.position() < failing.position() {
                    assert(succeeded(from, event(from)));
                }
            }
        }
    }
}

/// The format of the surface's pixels: four bytes, of which one is unused.
pub const GBM_FORMAT_XRGB8888: u32 = 0x34325258;

/// What a buffer is used for.
#[derive(Debug, Copy, Clone, PartialEq, Eq, Structural)]
pub enum gbm_bo_flags {
    /// It is presented on the screen.
    GBM_BO_USE_SCANOUT,
    /// It is used as a cursor.
    GBM_BO_USE_CURSOR,
    /// It is drawn into.
    GBM_BO_USE_RENDERING,
    /// It can be written to by the processor.
    GBM_BO_USE_WRITE,
    /// It is not tiled.
    GBM_BO_USE_LINEAR,
    /// It cannot be read by untrusted components.
    GBM_BO_USE_PROTECTED,
    /// It is drawn into while it is presented.
    GBM_BO_USE_FRONT_RENDERING,
}

impl gbm_bo_flags {
    /// The flag's bit.
    pub open spec fn spec_bit(self) -> u32 {
        match self {
            gbm_bo_flags::GBM_BO_USE_SCANOUT => 1,
            gbm_bo_flags::GBM_BO_USE_CURSOR => 2,
            gbm_bo_flags::GBM_BO_USE_RENDERING => 4,
            gbm_bo_flags::GBM_BO_USE_WRITE => 8,
            gbm_bo_flags::GBM_BO_USE_LINEAR => 16,
            gbm_bo_flags::GBM_BO_USE_PROTECTED => 32,
            gbm_bo_flags::GBM_BO_USE_FRONT_RENDERING => 64,
        }
    }

    /// The flag's bit.
    #[verifier::when_used_as_spec(spec_bit)]
    pub fn bit(self) -> (bit: u32)
        ensures
            bit == self.spec_bit(),
    {
        match self {
            gbm_bo_flags::GBM_BO_USE_SCANOUT => 1,
            gbm_bo_flags::GBM_BO_USE_CURSOR => 2,
            gbm_bo_flags::GBM_BO_USE_RENDERING => 4,
            gbm_bo_flags::GBM_BO_USE_WRITE => 8,
            gbm_bo_flags::GBM_BO_USE_LINEAR => 16,
            gbm_bo_flags::GBM_BO_USE_PROTECTED => 32,
            gbm_bo_flags::GBM_BO_USE_FRONT_RENDERING => 64,
        }
    }
}

/// What the surface's buffers are used for: they are drawn into and presented.
pub fn surface_flags() -> (flags: u32)
    ensures
        flags == gbm_bo_flags::GBM_BO_USE_SCANOUT.bit() + gbm_bo_flags::GBM_BO_USE_RENDERING.bit(),
        flags == 5,
{
    assert(1u32 | 4u32 == 5u32) by (bit_vector);
    gbm_bo_flags::GBM_BO_USE_SCANOUT.bit() | gbm_bo_flags::GBM_BO_USE_RENDERING.bit()
}

/// What a CRTC is to show, and on which connector.
#[derive(Debug, Copy, Clone)]
pub struct CrtcConfig {
    pub crtc_id: u32,
    pub buffer_id: u32,
    pub x: u32,
    pub y: u32,
    pub connector_id: u32,
    pub mode: drmModeModeInfo,
}

/// The CRTC shows the framebuffer `buffer_id` from its corner on, in its present mode.
pub fn show_buffer(crtc: &drmModeCrtc, connector: &drmModeConnector, buffer_id: u32) -> (config:
    CrtcConfig)
    ensures
        config == (CrtcConfig {
            crtc_id: crtc.crtc_id,
            buffer_id,
            x: 0,
            y: 0,
            connector_id: connector.connector_id,
            mode: crtc.mode,
        }),
{
    CrtcConfig {
        crtc_id: crtc.crtc_id,
        buffer_id,
        x: 0,
        y: 0,
        connector_id: connector.connector_id,
        mode: crtc.mode,
    }
}

/// The CRTC's mode is set while there is no framebuffer yet: the number stands for the one
/// that is there.
pub fn initial_config(crtc: &drmModeCrtc, connector: &drmModeConnector) -> (config: CrtcConfig)
    ensures
        config == (CrtcConfig {
            crtc_id: crtc.crtc_id,
            buffer_id: u32::MAX,
            x: 0,
            y: 0,
            connector_id: connector.connector_id,
            mode: crtc.mode,
        }),
{
    show_buffer(crtc, connector, u32::MAX)
}

/// The CRTC shows what it showed when it was found.
pub fn restored_config(crtc: &drmModeCrtc, connector: &drmModeConnector) -> (config: CrtcConfig)
    ensures
        config == (CrtcConfig {
            crtc_id: crtc.crtc_id,
            buffer_id: crtc.buffer_id,
            x: crtc.x,
            y: crtc.y,
            connector_id: connector.connector_id,
            mode: crtc.mode,
        }),
{
    CrtcConfig {
        crtc_id: crtc.crtc_id,
        buffer_id: crtc.buffer_id,
        x: crtc.x,
        y: crtc.y,
        connector_id: connector.connector_id,
        mode: crtc.mode,
    }
}

/// Becoming the card's master succeeds with 0 alone; every other number is the error, and is
/// reported.
pub proof fn law_outcome_of_becoming_master(number: i32)
    ensures
        ({
            let next = outcome(SetupStep::SetMaster, SetupEvent::Returned(number));
            &&& number == 0 ==> next == SetupOutcome::Next(SetupStep::FindConnector)
            &&& number != 0 ==> next == SetupOutcome::Failed(
                SetupError::SetMaster { status: number },
            )
        }),
{
}

/// Setting the mode succeeds with 0 alone. The number -22 says that there is no such CRTC, -1
/// that the connectors do not fit, and every other is reported.
pub proof fn law_outcome_of_setting_the_mode(number: i32)
    ensures
        ({
            let next = outcome(SetupStep::SetMode, SetupEvent::Returned(number));
            &&& number == 0 ==> next == SetupOutcome::Next(SetupStep::LoadEgl)
            &&& number == -22 ==> next == SetupOutcome::Aborted(SetupAbort::InvalidCrtc)
            &&& number == -1 ==> next == SetupOutcome::Aborted(SetupAbort::IncompatibleConnectors)
            &&& number != 0 && number != -22 && number != -1 ==> next == SetupOutcome::Aborted(
                SetupAbort::ModeSetFailed { status: number },
            )
        }),
{
}

/// The surface's format is supported exactly if the answer is 1; every other answer is
/// reported.
pub proof fn law_outcome_of_checking_the_format(number: i32)
    ensures
        ({
            let next = outcome(SetupStep::CheckFormat, SetupEvent::Returned(number));
            &&& number == 1 ==> next == SetupOutcome::Next(SetupStep::CreateSurface)
            &&& number != 1 ==> next == SetupOutcome::Failed(
                SetupError::UnsupportedFormat { supported: number },
            )
        }),
{
}

/// EGL is initialized, and its context is current, exactly if the answer is 1.
pub proof fn law_outcome_of_answers_of_egl(answer: u32)
    ensures
        ({
            let first = outcome(SetupStep::InitializeEgl, SetupEvent::Answered(answer));
            let last = outcome(SetupStep::MakeCurrent, SetupEvent::Answered(answer));
            &&& answer == 1 ==> first == SetupOutcome::Next(SetupStep::CreateContext)
            &&& answer == 1 ==> last == SetupOutcome::Next(SetupStep::Ready)
            &&& answer != 1 ==> first == SetupOutcome::Failed(
                SetupError::InitializeEgl { initialized: answer },
            )
            &&& answer != 1 ==> last == SetupOutcome::Aborted(SetupAbort::NotCurrent)
        }),
{
}

/// The extension that the display needs must be one of the words of EGL's list, wherever it
/// stands in it.
pub proof fn law_outcome_of_the_list_of_extensions(list: String)
    ensures
        ({
            let next = outcome(SetupStep::QueryExtensions, SetupEvent::Extensions(list));
            let listed = crate::text::has_word(list@, "EGL_EXT_platform_base"@);
            &&& listed ==> next == SetupOutcome::Next(SetupStep::FindProcAddress)
            &&& !listed ==> next == SetupOutcome::Failed(SetupError::NoPlatformBase)
        }),
{
}

/// What could be obtained leads to the next step, and what could not to the failure of its own
/// step.
pub proof fn law_outcome_of_obtaining(obtained: bool)
    ensures
        ({
            let at = |step: SetupStep| outcome(step, SetupEvent::Obtained(obtained));
            &&& obtained ==> {
                &&& at(SetupStep::LoadDrm) == SetupOutcome::Next(SetupStep::FindCard)
                &&& at(SetupStep::FindCard) == SetupOutcome::Next(SetupStep::SetMaster)
                &&& at(SetupStep::FindConnector) == SetupOutcome::Next(SetupStep::FindEncoder)
                &&& at(SetupStep::FindEncoder) == SetupOutcome::Next(SetupStep::FindCrtcs)
                &&& at(SetupStep::FindCrtcs) == SetupOutcome::Next(SetupStep::SetMode)
                &&& at(SetupStep::LoadEgl) == SetupOutcome::Next(SetupStep::QueryExtensions)
                &&& at(SetupStep::FindProcAddress) == SetupOutcome::Next(SetupStep::LoadGbm)
                &&& at(SetupStep::LoadGbm) == SetupOutcome::Next(SetupStep::CreateDevice)
                &&& at(SetupStep::CreateDevice) == SetupOutcome::Next(SetupStep::CheckFormat)
                &&& at(SetupStep::CreateSurface) == SetupOutcome::Next(SetupStep::CreateDisplay)
                &&& at(SetupStep::CreateDisplay) == SetupOutcome::Next(SetupStep::InitializeEgl)
                &&& at(SetupStep::CreateContext) == SetupOutcome::Next(SetupStep::CompareDisplay)
                &&& at(SetupStep::CompareDisplay) == SetupOutcome::Next(
                    SetupStep::CreateWindowSurface,
                )
                &&& at(SetupStep::CreateWindowSurface) == SetupOutcome::Next(
                    SetupStep::MakeCurrent,
                )
            }
            &&& !obtained ==> {
                &&& at(SetupStep::LoadDrm) == SetupOutcome::Failed(SetupError::LoadDrm)
                &&& at(SetupStep::FindCard) == SetupOutcome::Aborted(SetupAbort::NoCard)
                &&& at(SetupStep::FindConnector) == SetupOutcome::Failed(SetupError::NoConnector)
                &&& at(SetupStep::FindEncoder) == SetupOutcome::Failed(SetupError::NoEncoder)
                &&& at(SetupStep::FindCrtcs) == SetupOutcome::Aborted(SetupAbort::NoCrtc)
                &&& at(SetupStep::LoadEgl) == SetupOutcome::Failed(SetupError::LoadEgl)
                &&& at(SetupStep::FindProcAddress) == SetupOutcome::Failed(
                    SetupError::NoProcAddress,
                )
                &&& at(SetupStep::LoadGbm) == SetupOutcome::Failed(SetupError::LoadGbm)
                &&& at(SetupStep::CreateDevice) == SetupOutcome::Failed(SetupError::CreateDevice)
                &&& at(SetupStep::CreateSurface) == SetupOutcome::Failed(SetupError::CreateSurface)
                &&& at(SetupStep::CreateDisplay) == SetupOutcome::Failed(SetupError::CreateDisplay)
                &&& at(SetupStep::CreateContext) == SetupOutcome::Aborted(SetupAbort::NoContext)
                &&& at(SetupStep::CompareDisplay) == SetupOutcome::Aborted(
                    SetupAbort::WrongDisplay,
                )
                &&& at(SetupStep::CreateWindowSurface) == SetupOutcome::Aborted(
                    SetupAbort::NoWindowSurface,
                )
            }
        }),
{
}

/// Every error that comes with a number shows that very number, and different numbers give
/// different words.
pub proof fn law_errors_show_their_numbers(a: i32, b: i32, x: u32, y: u32)
    ensures
        (SetupError::SetMaster { status: a }).text() == (SetupError::SetMaster { status: b }).text()
            ==> a == b,
        (SetupError::UnsupportedFormat { supported: a }).text() == (
        SetupError::UnsupportedFormat { supported: b }).text() ==> a == b,
        (SetupError::InitializeEgl { initialized: x }).text() == (
        SetupError::InitializeEgl { initialized: y }).text() ==> x == y,
{
    let da = crate::text::signed_decimal(a as int);
    let db = crate::text::signed_decimal(b as int);
    let dx = crate::text::decimal(x as nat);
    let dy = crate::text::decimal(y as nat);
    crate::text::law_signed_decimals_distinct(a as int, b as int);
    crate::text::law_decimal_round_trip(x as nat);
    crate::text::law_decimal_round_trip(y as nat);
    let master = "Condition failed: `0 == (libdrm.drmSetMaster)(drm_fd)` (0 vs "@;
    let format = "Condition failed: `(libgbm.gbm_device_is_format_supported)\
                    (device, surface_format, surface_flags) == 1` ("@;
    let egl = "Condition failed: `(libegl.eglInitialize.unwrap())\
                    (display, &mut major, &mut minor) == 1` ("@;
    lemma_middle(master, da, db, ")"@);
    lemma_middle(format, da, db, " vs 1)"@);
    lemma_middle(egl, dx, dy, " vs 1)"@);
}

proof fn lemma_middle(before: Seq<char>, a: Seq<char>, b: Seq<char>, after: Seq<char>)
    ensures
        before + a + after == before + b + after ==> a == b,
{
    if before + a + after == before + b + after {
        let whole = before + a + after;
        let other = before + b + after;
        assert(whole.len() == other.len());
        assert(a =~= whole.subrange(before.len() as int, (before.len() + a.len()) as int));
        assert(b =~= other.subrange(before.len() as int, (before.len() + b.len()) as int));
    }
}

/// Each use of a buffer has a bit of its own, counted from the lowest on in the order in which
/// the uses are listed, and the surface's buffers are used for two of them.
pub proof fn law_bits_of_uses()
    ensures
        gbm_bo_flags::GBM_BO_USE_SCANOUT.bit() == 1,
        gbm_bo_flags::GBM_BO_USE_CURSOR.bit() == 2 * gbm_bo_flags::GBM_BO_USE_SCANOUT.bit(),
        gbm_bo_flags::GBM_BO_USE_RENDERING.bit() == 2 * gbm_bo_flags::GBM_BO_USE_CURSOR.bit(),
        gbm_bo_flags::GBM_BO_USE_WRITE.bit() == 2 * gbm_bo_flags::GBM_BO_USE_RENDERING.bit(),
        gbm_bo_flags::GBM_BO_USE_LINEAR.bit() == 2 * gbm_bo_flags::GBM_BO_USE_WRITE.bit(),
        gbm_bo_flags::GBM_BO_USE_PROTECTED.bit() == 2 * gbm_bo_flags::GBM_BO_USE_LINEAR.bit(),
        gbm_bo_flags::GBM_BO_USE_FRONT_RENDERING.bit() == 2
            * gbm_bo_flags::GBM_BO_USE_PROTECTED.bit(),
{
}

/// The format's number spells its name, `XR24`, from the lowest byte on.
pub proof fn law_the_format_spells_its_name()
    ensures
        GBM_FORMAT_XRGB8888 == 'X' as int + 256 * ('R' as int + 256 * ('2' as int + 256 * (
        '4' as int))),
{
}

/// Every step takes every answer of its kind.
pub proof fn law_answers_to_steps(number: i32, answer: u32, list: String, obtained: bool)
    ensures
        can_give(SetupStep::SetMaster, SetupEvent::Returned(number)),
        can_give(SetupStep::SetMode, SetupEvent::Returned(number)),
        can_give(SetupStep::CheckFormat, SetupEvent::Returned(number)),
        can_give(SetupStep::InitializeEgl, SetupEvent::Answered(answer)),
        can_give(SetupStep::MakeCurrent, SetupEvent::Answered(answer)),
        can_give(SetupStep::QueryExtensions, SetupEvent::Extensions(list)),
        can_give(SetupStep::LoadDrm, SetupEvent::Obtained(obtained)),
        can_give(SetupStep::FindCard, SetupEvent::Obtained(obtained)),
        can_give(SetupStep::FindConnector, SetupEvent::Obtained(obtained)),
        can_give(SetupStep::FindEncoder, SetupEvent::Obtained(obtained)),
        can_give(SetupStep::FindCrtcs, SetupEvent::Obtained(obtained)),
        can_give(SetupStep::LoadEgl, SetupEvent::Obtained(obtained)),
        can_give(SetupStep::FindProcAddress, SetupEvent::Obtained(obtained)),
        can_give(SetupStep::LoadGbm, SetupEvent::Obtained(obtained)),
        can_give(SetupStep::CreateDevice, SetupEvent::Obtained(obtained)),
        can_give(SetupStep::CreateSurface, SetupEvent::Obtained(obtained)),
        can_give(SetupStep::CreateDisplay, SetupEvent::Obtained(obtained)),
        can_give(SetupStep::CreateContext, SetupEvent::Obtained(obtained)),
        can_give(SetupStep::CompareDisplay, SetupEvent::Obtained(obtained)),
        can_give(SetupStep::CreateWindowSurface, SetupEvent::Obtained(obtained)),
{
}

} // verus!
