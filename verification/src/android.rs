use std::path::PathBuf;
use vstd::prelude::*;

verus! {

/// The SDK level assumed when the runtime cannot be asked for one.
pub const FALLBACK_SDK_INT: i32 = 26;

/// The first SDK level on which the navigation bar is hidden through
/// `WindowInsetsControllerCompat`; below it `setSystemUiVisibility` is used.
pub const INSETS_CONTROLLER_SDK_INT: i32 = 30;

/// The first SDK level that knows display cutouts.
pub const DISPLAY_CUTOUT_SDK_INT: i32 = 28;

/// `ActivityInfo.SCREEN_ORIENTATION_SENSOR_LANDSCAPE`: both landscape
/// orientations by the sensor, never portrait.
pub const SCREEN_ORIENTATION_SENSOR_LANDSCAPE: i32 = 6;

/// `WindowManager.LayoutParams.LAYOUT_IN_DISPLAY_CUTOUT_MODE_SHORT_EDGES`:
/// render into the notch and camera cutout areas.
pub const LAYOUT_IN_DISPLAY_CUTOUT_MODE_SHORT_EDGES: i32 = 1;

/// `WindowInsetsControllerCompat.BEHAVIOR_SHOW_TRANSIENT_BARS_BY_SWIPE`.
pub const BEHAVIOR_SHOW_TRANSIENT_BARS_BY_SWIPE: i32 = 2;

pub const SYSTEM_UI_FLAG_HIDE_NAVIGATION: i32 = 0x0000_0002;

pub const SYSTEM_UI_FLAG_FULLSCREEN: i32 = 0x0000_0004;

pub const SYSTEM_UI_FLAG_LAYOUT_STABLE: i32 = 0x0000_0100;

pub const SYSTEM_UI_FLAG_LAYOUT_HIDE_NAVIGATION: i32 = 0x0000_0200;

pub const SYSTEM_UI_FLAG_LAYOUT_FULLSCREEN: i32 = 0x0000_0400;

pub const SYSTEM_UI_FLAG_IMMERSIVE_STICKY: i32 = 0x0000_1000;

/// The `setSystemUiVisibility` flags of immersive-sticky full screen, used
/// below `INSETS_CONTROLLER_SDK_INT`.
pub const LEGACY_IMMERSIVE_FLAGS: i32 = SYSTEM_UI_FLAG_HIDE_NAVIGATION | SYSTEM_UI_FLAG_FULLSCREEN
    | SYSTEM_UI_FLAG_IMMERSIVE_STICKY | SYSTEM_UI_FLAG_LAYOUT_STABLE
    | SYSTEM_UI_FLAG_LAYOUT_HIDE_NAVIGATION | SYSTEM_UI_FLAG_LAYOUT_FULLSCREEN;

/// The SDK level that a read of `Build.VERSION.SDK_INT` gives: the value
/// read, or `FALLBACK_SDK_INT` when the read failed.
pub open spec fn sdk_int_of(queried: Option<i32>) -> i32 {
    match queried {
        Some(level) => level,
        None => FALLBACK_SDK_INT,
    }
}

/// The SDK level to act on, from the result of reading `Build.VERSION.SDK_INT`.
pub fn sdk_int_or_fallback(queried: Option<i32>) -> (sdk_int: i32)
    ensures
        sdk_int == sdk_int_of(queried),
{
    match queried {
        Some(level) => level,
        None => FALLBACK_SDK_INT,
    }
}

/// What a call into the Java runtime gave back.
#[derive(Debug, Clone, Copy, PartialEq, Eq, Structural)]
pub enum CallOutcome {
    /// The call succeeded and gave nothing that the next step needs.
    Done,
    /// The call succeeded and read this integer.
    Read(i32),
    /// The call failed.
    Failed,
}

/// The integer that a call read, if it read one.
pub open spec fn read_value(outcome: CallOutcome) -> Option<i32> {
    match outcome {
        CallOutcome::Read(v) => Some(v),
        _ => None,
    }
}

/// The calls that hiding the navigation and status bars makes, in order.
/// Each step names the next call to make into the Java runtime.
#[derive(Debug, Clone, Copy, PartialEq, Eq, Structural)]
pub enum NavBarStep {
    /// Get the `JavaVM` of the Android context.
    GetJavaVm,
    /// Attach the current thread to it, for good.
    AttachThread,
    /// `activity.getWindow()`.
    GetWindow,
    /// `window.getDecorView()`.
    GetDecorView,
    /// Read `Build.VERSION.SDK_INT`.
    QuerySdkInt,
    /// Find `androidx.core.view.WindowCompat`.
    FindWindowCompat,
    /// `WindowCompat.setDecorFitsSystemWindows(window, fits)`.
    SetDecorFitsSystemWindows(bool),
    /// Find `androidx.core.view.WindowInsetsControllerCompat`.
    FindInsetsController,
    /// `new WindowInsetsControllerCompat(window, decorView)`.
    CreateInsetsController,
    /// Find `androidx.core.view.WindowInsetsCompat$Type`.
    FindInsetsType,
    /// Read `WindowInsetsCompat.Type.systemBars()`.
    QuerySystemBars,
    /// `controller.hide(types)`.
    HideSystemBars(i32),
    /// `controller.setSystemBarsBehavior(behavior)`.
    SetSystemBarsBehavior(i32),
    /// `decorView.setSystemUiVisibility(flags)`.
    SetSystemUiVisibility(i32),
    /// Nothing is left to do.
    Finished,
}

/// The order of the calls: the call that follows `step` when it did not
/// fail. After the SDK level read, the path forks at
/// `INSETS_CONTROLLER_SDK_INT` (a level that could not be read counts as
/// `FALLBACK_SDK_INT`); `hide` is asked for the types that `systemBars()`
/// read.
pub open spec fn nav_bar_order(step: NavBarStep, outcome: CallOutcome) -> NavBarStep {
    match step {
        NavBarStep::GetJavaVm => NavBarStep::AttachThread,
        NavBarStep::AttachThread => NavBarStep::GetWindow,
        NavBarStep::GetWindow => NavBarStep::GetDecorView,
        NavBarStep::GetDecorView => NavBarStep::QuerySdkInt,
        NavBarStep::QuerySdkInt => if sdk_int_of(read_value(outcome)) >= INSETS_CONTROLLER_SDK_INT {
            NavBarStep::FindWindowCompat
        } else {
            NavBarStep::SetSystemUiVisibility(LEGACY_IMMERSIVE_FLAGS)
        },
        NavBarStep::FindWindowCompat => NavBarStep::SetDecorFitsSystemWindows(false),
        NavBarStep::SetDecorFitsSystemWindows(_) => NavBarStep::FindInsetsController,
        NavBarStep::FindInsetsController => NavBarStep::CreateInsetsController,
        NavBarStep::CreateInsetsController => NavBarStep::FindInsetsType,
        NavBarStep::FindInsetsType => NavBarStep::QuerySystemBars,
        NavBarStep::QuerySystemBars => match read_value(outcome) {
            Some(types) => NavBarStep::HideSystemBars(types),
            None => NavBarStep::Finished,
        },
        NavBarStep::HideSystemBars(_) => NavBarStep::SetSystemBarsBehavior(
            BEHAVIOR_SHOW_TRANSIENT_BARS_BY_SWIPE,
        ),
        _ => NavBarStep::Finished,
    }
}

/// Whether a failure of `step` ends the sequence. The SDK level read falls
/// back instead, and the failures of the last calls of either path, `hide`
/// among them, are only reported.
pub open spec fn nav_bar_failure_ends(step: NavBarStep) -> bool {
    !(step is QuerySdkInt || step is HideSystemBars || step is SetSystemBarsBehavior
        || step is SetSystemUiVisibility)
}

/// The call that follows `step` once it gave `outcome`: the end, when a call
/// whose failure ends the sequence failed, and the next call in order
/// otherwise.
pub open spec fn nav_bar_transition(step: NavBarStep, outcome: CallOutcome) -> NavBarStep {
    if outcome == CallOutcome::Failed && nav_bar_failure_ends(step) {
        NavBarStep::Finished
    } else {
        nav_bar_order(step, outcome)
    }
}

/// How many calls at most are left from `step` on.
pub open spec fn nav_bar_calls_left(step: NavBarStep) -> nat {
    match step {
        NavBarStep::GetJavaVm => 13,
        NavBarStep::AttachThread => 12,
        NavBarStep::GetWindow => 11,
        NavBarStep::GetDecorView => 10,
        NavBarStep::QuerySdkInt => 9,
        NavBarStep::FindWindowCompat => 8,
        NavBarStep::SetDecorFitsSystemWindows(_) => 7,
        NavBarStep::FindInsetsController => 6,
        NavBarStep::CreateInsetsController => 5,
        NavBarStep::FindInsetsType => 4,
        NavBarStep::QuerySystemBars => 3,
        NavBarStep::HideSystemBars(_) => 2,
        NavBarStep::SetSystemBarsBehavior(_) => 1,
        NavBarStep::SetSystemUiVisibility(_) => 1,
        NavBarStep::Finished => 0,
    }
}

impl NavBarStep {
    /// The first call of hiding the navigation bar.
    pub fn start() -> (step: NavBarStep)
        ensures
            step == NavBarStep::GetJavaVm,
    {
        NavBarStep::GetJavaVm
    }

    /// The call to make after this one gave `outcome`.
    pub fn next(self, outcome: CallOutcome) -> (next: NavBarStep)
        ensures
            next == nav_bar_transition(self, outcome),
    {
        let failed = match outcome {
            CallOutcome::Failed => true,
            _ => false,
        };
        match self {
            NavBarStep::GetJavaVm => if failed {
                NavBarStep::Finished
            } else {
                NavBarStep::AttachThread
            },
            NavBarStep::AttachThread => if failed {
                NavBarStep::Finished
            } else {
                NavBarStep::GetWindow
            },
            NavBarStep::GetWindow => if failed {
                NavBarStep::Finished
            } else {
                NavBarStep::GetDecorView
            },
            NavBarStep::GetDecorView => if failed {
                NavBarStep::Finished
            } else {
                NavBarStep::QuerySdkInt
            },
            NavBarStep::QuerySdkInt => {
                let queried = match outcome {
                    CallOutcome::Read(level) => Some(level),
                    _ => None,
                };
                let sdk_int = sdk_int_or_fallback(queried);
                if sdk_int >= INSETS_CONTROLLER_SDK_INT {
                    NavBarStep::FindWindowCompat
                } else {
                    NavBarStep::SetSystemUiVisibility(LEGACY_IMMERSIVE_FLAGS)
                }
            },
            NavBarStep::FindWindowCompat => if failed {
                NavBarStep::Finished
            } else {
                NavBarStep::SetDecorFitsSystemWindows(false)
            },
            NavBarStep::SetDecorFitsSystemWindows(_) => if failed {
                NavBarStep::Finished
            } else {
                NavBarStep::FindInsetsController
            },
            NavBarStep::FindInsetsController => if failed {
                NavBarStep::Finished
            } else {
                NavBarStep::CreateInsetsController
            },
            NavBarStep::CreateInsetsController => if failed {
                NavBarStep::Finished
            } else {
                NavBarStep::FindInsetsType
            },
            NavBarStep::FindInsetsType => if failed {
                NavBarStep::Finished
            } else {
                NavBarStep::QuerySystemBars
            },
            NavBarStep::QuerySystemBars => match outcome {
                CallOutcome::Read(types) => NavBarStep::HideSystemBars(types),
                _ => NavBarStep::Finished,
            },
            NavBarStep::HideSystemBars(_) => NavBarStep::SetSystemBarsBehavior(
                BEHAVIOR_SHOW_TRANSIENT_BARS_BY_SWIPE,
            ),
            NavBarStep::SetSystemBarsBehavior(_) => NavBarStep::Finished,
            NavBarStep::SetSystemUiVisibility(_) => NavBarStep::Finished,
            NavBarStep::Finished => NavBarStep::Finished,
        }
    }

    /// Whether a failure of this call is reported as a warning. Every call's
    /// failure is, but that of the SDK level read, which falls back silently.
    pub fn reports_failure(&self) -> (reports: bool)
        ensures
            reports == (*self != NavBarStep::QuerySdkInt && *self != NavBarStep::Finished),
    {
        match self {
            NavBarStep::QuerySdkInt => false,
            NavBarStep::Finished => false,
            _ => true,
        }
    }
}

/// The calls that the one-time display setup makes, in order. Each step
/// names the next call to make into the Java runtime.
#[derive(Debug, Clone, Copy, PartialEq, Eq, Structural)]
pub enum DisplayStep {
    /// Get the `JavaVM` of the Android context.
    GetJavaVm,
    /// Attach the current thread to it, for good.
    AttachThread,
    /// `activity.setRequestedOrientation(orientation)`.
    SetRequestedOrientation(i32),
    /// Read `Build.VERSION.SDK_INT`.
    QuerySdkInt,
    /// `activity.getWindow()`.
    GetWindow,
    /// `window.getAttributes()`.
    GetAttributes,
    /// `attributes.layoutInDisplayCutoutMode = mode`.
    SetCutoutMode(i32),
    /// `window.setAttributes(attributes)`.
    SetAttributes,
    /// Nothing is left to do.
    Finished,
}

/// The order of the calls: the call that follows `step` when it did not
/// fail. Landscape is requested first; after the SDK level read, the cutout
/// mode is set from `DISPLAY_CUTOUT_SDK_INT` on (a level that could not be
/// read counts as `FALLBACK_SDK_INT`).
pub open spec fn display_order(step: DisplayStep, outcome: CallOutcome) -> DisplayStep {
    match step {
        DisplayStep::GetJavaVm => DisplayStep::AttachThread,
        DisplayStep::AttachThread => DisplayStep::SetRequestedOrientation(
            SCREEN_ORIENTATION_SENSOR_LANDSCAPE,
        ),
        DisplayStep::SetRequestedOrientation(_) => DisplayStep::QuerySdkInt,
        DisplayStep::QuerySdkInt => if sdk_int_of(read_value(outcome)) >= DISPLAY_CUTOUT_SDK_INT {
            DisplayStep::GetWindow
        } else {
            DisplayStep::Finished
        },
        DisplayStep::GetWindow => DisplayStep::GetAttributes,
        DisplayStep::GetAttributes => DisplayStep::SetCutoutMode(
            LAYOUT_IN_DISPLAY_CUTOUT_MODE_SHORT_EDGES,
        ),
        DisplayStep::SetCutoutMode(_) => DisplayStep::SetAttributes,
        _ => DisplayStep::Finished,
    }
}

/// Whether a failure of `step` ends the setup: failing to reach the runtime,
/// the window or its attributes does; the other failures are only reported,
/// and the SDK level read falls back.
pub open spec fn display_failure_ends(step: DisplayStep) -> bool {
    step is GetJavaVm || step is AttachThread || step is GetWindow || step is GetAttributes
}

/// The call that follows `step` once it gave `outcome`: the end, when a call
/// whose failure ends the setup failed, and the next call in order otherwise.
pub open spec fn display_transition(step: DisplayStep, outcome: CallOutcome) -> DisplayStep {
    if outcome == CallOutcome::Failed && display_failure_ends(step) {
        DisplayStep::Finished
    } else {
        display_order(step, outcome)
    }
}

/// How many calls at most are left from `step` on.
pub open spec fn display_calls_left(step: DisplayStep) -> nat {
    match step {
        DisplayStep::GetJavaVm => 8,
        DisplayStep::AttachThread => 7,
        DisplayStep::SetRequestedOrientation(_) => 6,
        DisplayStep::QuerySdkInt => 5,
        DisplayStep::GetWindow => 4,
        DisplayStep::GetAttributes => 3,
        DisplayStep::SetCutoutMode(_) => 2,
        DisplayStep::SetAttributes => 1,
        DisplayStep::Finished => 0,
    }
}

impl DisplayStep {
    /// The first call of the display setup.
    pub fn start() -> (step: DisplayStep)
        ensures
            step == DisplayStep::GetJavaVm,
    {
        DisplayStep::GetJavaVm
    }

    /// The call to make after this one gave `outcome`.
    pub fn next(self, outcome: CallOutcome) -> (next: DisplayStep)
        ensures
            next == display_transition(self, outcome),
    {
        let failed = match outcome {
            CallOutcome::Failed => true,
            _ => false,
        };
        match self {
            DisplayStep::GetJavaVm => if failed {
                DisplayStep::Finished
            } else {
                DisplayStep::AttachThread
            },
            DisplayStep::AttachThread => if failed {
                DisplayStep::Finished
            } else {
                DisplayStep::SetRequestedOrientation(SCREEN_ORIENTATION_SENSOR_LANDSCAPE)
            },
            DisplayStep::SetRequestedOrientation(_) => DisplayStep::QuerySdkInt,
            DisplayStep::QuerySdkInt => {
                let queried = match outcome {
                    CallOutcome::Read(level) => Some(level),
                    _ => None,
                };
                if sdk_int_or_fallback(queried) >= DISPLAY_CUTOUT_SDK_INT {
                    DisplayStep::GetWindow
                } else {
                    DisplayStep::Finished
                }
            },
            DisplayStep::GetWindow => if failed {
                DisplayStep::Finished
            } else {
                DisplayStep::GetAttributes
            },
            DisplayStep::GetAttributes => if failed {
                DisplayStep::Finished
            } else {
                DisplayStep::SetCutoutMode(LAYOUT_IN_DISPLAY_CUTOUT_MODE_SHORT_EDGES)
            },
            DisplayStep::SetCutoutMode(_) => DisplayStep::SetAttributes,
            DisplayStep::SetAttributes => DisplayStep::Finished,
            DisplayStep::Finished => DisplayStep::Finished,
        }
    }

    /// Whether a failure of this call is reported as a warning. Every call's
    /// failure is, but that of the SDK level read, which falls back silently.
    pub fn reports_failure(&self) -> (reports: bool)
        ensures
            reports == (*self != DisplayStep::QuerySdkInt && *self != DisplayStep::Finished),
    {
        match self {
            DisplayStep::QuerySdkInt => false,
            DisplayStep::Finished => false,
            _ => true,
        }
    }
}

/// Hiding the navigation bar ends: every call but the last leads to a call
/// with fewer calls left, and `Finished` stays finished, so the sequence
/// makes at most thirteen calls.
pub proof fn lemma_nav_bar_finishes(step: NavBarStep, outcome: CallOutcome)
    ensures
        step != NavBarStep::Finished ==> nav_bar_calls_left(nav_bar_transition(step, outcome))
            < nav_bar_calls_left(step),
        step == NavBarStep::Finished ==> nav_bar_transition(step, outcome) == NavBarStep::Finished,
        nav_bar_calls_left(NavBarStep::GetJavaVm) == 13,
{
}

/// The display setup ends: every call but the last leads to a call with
/// fewer calls left, and `Finished` stays finished.
pub proof fn lemma_display_setup_finishes(step: DisplayStep, outcome: CallOutcome)
    ensures
        step != DisplayStep::Finished ==> display_calls_left(display_transition(step, outcome))
            < display_calls_left(step),
        step == DisplayStep::Finished ==> display_transition(step, outcome)
            == DisplayStep::Finished,
        display_calls_left(DisplayStep::GetJavaVm) == 8,
{
}

/// From SDK level 30 on the navigation bar is hidden through the insets
/// controller; below it, and when the level cannot be read, through
/// `setSystemUiVisibility` with the immersive-sticky flags.
pub proof fn lemma_nav_bar_path_by_sdk(outcome: CallOutcome)
    ensures
        sdk_int_of(read_value(outcome)) >= 30 ==> nav_bar_transition(
            NavBarStep::QuerySdkInt,
            outcome,
        ) == NavBarStep::FindWindowCompat,
        sdk_int_of(read_value(outcome)) < 30 ==> nav_bar_transition(
            NavBarStep::QuerySdkInt,
            outcome,
        ) == NavBarStep::SetSystemUiVisibility(LEGACY_IMMERSIVE_FLAGS),
        read_value(outcome) is None ==> nav_bar_transition(NavBarStep::QuerySdkInt, outcome)
            == NavBarStep::SetSystemUiVisibility(LEGACY_IMMERSIVE_FLAGS),
        forall|level: i32|
            (#[trigger] nav_bar_transition(NavBarStep::QuerySdkInt, CallOutcome::Read(level))
                == NavBarStep::FindWindowCompat) == (level >= 30),
        forall|level: i32|
            level < 30 ==> #[trigger] nav_bar_transition(
                NavBarStep::QuerySdkInt,
                CallOutcome::Read(level),
            ) == NavBarStep::SetSystemUiVisibility(0x1706),
        nav_bar_transition(NavBarStep::QuerySdkInt, CallOutcome::Failed)
            == NavBarStep::SetSystemUiVisibility(0x1706),
        nav_bar_transition(NavBarStep::QuerySdkInt, CallOutcome::Done)
            == NavBarStep::SetSystemUiVisibility(0x1706),
{
    lemma_legacy_flags();
}

/// The immersive-sticky flags are exactly the six flags that hide the
/// navigation and status bars, lay the view out under them, and keep them
/// away until swiped in.
pub proof fn lemma_legacy_flags()
    ensures
        LEGACY_IMMERSIVE_FLAGS == 0x1706,
        LEGACY_IMMERSIVE_FLAGS & SYSTEM_UI_FLAG_HIDE_NAVIGATION != 0,
        LEGACY_IMMERSIVE_FLAGS & SYSTEM_UI_FLAG_FULLSCREEN != 0,
        LEGACY_IMMERSIVE_FLAGS & SYSTEM_UI_FLAG_IMMERSIVE_STICKY != 0,
        LEGACY_IMMERSIVE_FLAGS & SYSTEM_UI_FLAG_LAYOUT_STABLE != 0,
        LEGACY_IMMERSIVE_FLAGS & SYSTEM_UI_FLAG_LAYOUT_HIDE_NAVIGATION != 0,
        LEGACY_IMMERSIVE_FLAGS & SYSTEM_UI_FLAG_LAYOUT_FULLSCREEN != 0,
{
    assert(0x0000_0002i32 | 0x0000_0004i32 | 0x0000_1000i32 | 0x0000_0100i32 | 0x0000_0200i32
        | 0x0000_0400i32 == 0x1706i32) by (bit_vector);
    assert(0x1706i32 & 0x0000_0002i32 != 0 && 0x1706i32 & 0x0000_0004i32 != 0 && 0x1706i32
        & 0x0000_1000i32 != 0 && 0x1706i32 & 0x0000_0100i32 != 0 && 0x1706i32 & 0x0000_0200i32
        != 0 && 0x1706i32 & 0x0000_0400i32 != 0) by (bit_vector);
}

/// The display is always asked for landscape once the runtime is reached,
/// and a refused request does not stop the rest of the setup.
pub proof fn lemma_display_forces_landscape(attach: CallOutcome, request: CallOutcome)
    requires
        attach != CallOutcome::Failed,
    ensures
        display_transition(DisplayStep::AttachThread, attach) == DisplayStep::SetRequestedOrientation(
            SCREEN_ORIENTATION_SENSOR_LANDSCAPE,
        ),
        display_transition(DisplayStep::SetRequestedOrientation(SCREEN_ORIENTATION_SENSOR_LANDSCAPE), request)
            == DisplayStep::QuerySdkInt,
{
}

/// The display cutout mode is configured exactly from SDK level 28 on; a
/// level that cannot be read configures none.
pub proof fn lemma_cutout_by_sdk(outcome: CallOutcome)
    ensures
        (display_transition(DisplayStep::QuerySdkInt, outcome) == DisplayStep::GetWindow) == (
        sdk_int_of(read_value(outcome)) >= 28),
        (display_transition(DisplayStep::QuerySdkInt, outcome) == DisplayStep::Finished) == (
        sdk_int_of(read_value(outcome)) < 28),
        read_value(outcome) is None ==> display_transition(DisplayStep::QuerySdkInt, outcome)
            == DisplayStep::Finished,
        forall|level: i32|
            (#[trigger] display_transition(DisplayStep::QuerySdkInt, CallOutcome::Read(level))
                == DisplayStep::GetWindow) == (level >= 28),
        forall|level: i32|
            level < 28 ==> #[trigger] display_transition(
                DisplayStep::QuerySdkInt,
                CallOutcome::Read(level),
            ) == DisplayStep::Finished,
        display_transition(DisplayStep::QuerySdkInt, CallOutcome::Failed) == DisplayStep::Finished,
        display_transition(DisplayStep::QuerySdkInt, CallOutcome::Done) == DisplayStep::Finished,
{
}

/// On every SDK level on which the navigation bar is hidden through the
/// insets controller, the display setup also configures the cutout mode.
pub proof fn lemma_insets_controller_implies_cutout(outcome: CallOutcome)
    requires
        nav_bar_transition(NavBarStep::QuerySdkInt, outcome) == NavBarStep::FindWindowCompat,
    ensures
        display_transition(DisplayStep::QuerySdkInt, outcome) == DisplayStep::GetWindow,
{
}

/// A failed `hide` of the system bars still sets their behavior, and `hide`
/// is asked for exactly the types that `systemBars()` read.
pub proof fn lemma_hide_uses_system_bars(types: i32, hide: CallOutcome)
    ensures
        nav_bar_transition(NavBarStep::QuerySystemBars, CallOutcome::Read(types))
            == NavBarStep::HideSystemBars(types),
        nav_bar_transition(NavBarStep::HideSystemBars(types), hide)
            == NavBarStep::SetSystemBarsBehavior(BEHAVIOR_SHOW_TRANSIENT_BARS_BY_SWIPE),
{
}

/// Declares `anyhow::Error` to Verus as an opaque type, the error type of
/// the file dialog's result; nothing is claimed of it.
#[verifier::external_type_specification]
#[verifier::external_body]
pub struct ExAnyhowError(anyhow::Error);

/// Declares `std::path::PathBuf` to Verus as an opaque type, for the file
/// dialog's directory and result; nothing is claimed of it.
#[verifier::external_type_specification]
#[verifier::external_body]
pub struct ExPathBuf(PathBuf);

/// Opens a file dialog. Android has none, so nothing is ever picked: the
/// result is always `Ok(None)`, whatever is asked for.
pub fn open_file_dialog_impl(
    _title: impl Into<String>,
    _name: impl Into<String>,
    _extensions: &[impl ToString],
    _dir: Option<impl AsRef<std::path::Path>>,
) -> (picked: Result<Option<PathBuf>, anyhow::Error>)
    ensures
        picked matches Ok(path) && path is None,
{
    Ok(None)
}

/// Speaks the given text out loud, on platforms that have speech output.
/// The Android platform has none wired up, so here it does nothing.
pub fn speak_text_impl(_text: &str) {
}

/// A level that was read is used as read, whatever it is; only a failed
/// read gives level 26.
pub proof fn lemma_sdk_level_used_as_read(level: i32)
    ensures
        sdk_int_of(Some(level)) == level,
        sdk_int_of(None) == 26,
        sdk_int_of(read_value(CallOutcome::Read(level))) == level,
        read_value(CallOutcome::Failed) is None,
        read_value(CallOutcome::Done) is None,
{
}

/// Once the cutout mode was set, whether or not that worked, the window's
/// attributes are applied with `setAttributes`, and after that the setup is
/// done; the cutout mode set is always short edges, once the attributes were
/// read.
pub proof fn lemma_cutout_mode_is_applied(mode: i32, outcome: CallOutcome)
    ensures
        display_transition(DisplayStep::SetCutoutMode(mode), outcome) == DisplayStep::SetAttributes,
        display_transition(DisplayStep::SetAttributes, outcome) == DisplayStep::Finished,
        outcome != CallOutcome::Failed ==> display_transition(DisplayStep::GetAttributes, outcome)
            == DisplayStep::SetCutoutMode(1),
        outcome != CallOutcome::Failed ==> display_transition(DisplayStep::GetWindow, outcome)
            == DisplayStep::GetAttributes,
{
}

/// The calls that the display setup makes from `step` on, given what each
/// call gives back in turn, until it is finished or the outcomes run out.
pub open spec fn display_calls(step: DisplayStep, outcomes: Seq<CallOutcome>) -> Seq<DisplayStep>
    decreases outcomes.len(),
{
    if step == DisplayStep::Finished || outcomes.len() == 0 {
        seq![]
    } else {
        seq![step] + display_calls(display_transition(step, outcomes[0]), outcomes.drop_first())
    }
}

/// The calls that hiding the navigation bar makes from `step` on, given what
/// each call gives back in turn, until it is finished or the outcomes run out.
pub open spec fn nav_bar_calls(step: NavBarStep, outcomes: Seq<CallOutcome>) -> Seq<NavBarStep>
    decreases outcomes.len(),
{
    if step == NavBarStep::Finished || outcomes.len() == 0 {
        seq![]
    } else {
        seq![step] + nav_bar_calls(nav_bar_transition(step, outcomes[0]), outcomes.drop_first())
    }
}

/// The display setup on a device that reports SDK level `level`, every
/// other call succeeding, or the orientation request and the cutout write
/// failing: from level 28 on it requests sensor landscape, reads the window
/// and its attributes, sets the cutout mode to short edges and applies it;
/// below 28 it stops after the level read. Either way it then is finished.
pub proof fn lemma_display_setup_run(level: i32, orientation: CallOutcome, cutout: CallOutcome)
    ensures
        ({
            let outcomes = seq![
                CallOutcome::Done,
                CallOutcome::Done,
                orientation,
                CallOutcome::Read(level),
                CallOutcome::Done,
                CallOutcome::Done,
                cutout,
                CallOutcome::Done,
                CallOutcome::Done,
            ];
            display_calls(DisplayStep::GetJavaVm, outcomes) == if level >= 28 {
                seq![
                    DisplayStep::GetJavaVm,
                    DisplayStep::AttachThread,
                    DisplayStep::SetRequestedOrientation(6),
                    DisplayStep::QuerySdkInt,
                    DisplayStep::GetWindow,
                    DisplayStep::GetAttributes,
                    DisplayStep::SetCutoutMode(1),
                    DisplayStep::SetAttributes,
                ]
            } else {
                seq![
                    DisplayStep::GetJavaVm,
                    DisplayStep::AttachThread,
                    DisplayStep::SetRequestedOrientation(6),
                    DisplayStep::QuerySdkInt,
                ]
            }
        }),
{
    let outcomes = seq![
        CallOutcome::Done,
        CallOutcome::Done,
        orientation,
        CallOutcome::Read(level),
        CallOutcome::Done,
        CallOutcome::Done,
        cutout,
        CallOutcome::Done,
        CallOutcome::Done,
    ];
    assert(outcomes.drop_first() =~= outcomes.subrange(1, 9));
    reveal_with_fuel(display_calls, 10);
    assert(outcomes.subrange(1, 9).drop_first() =~= outcomes.subrange(2, 9));
    assert(outcomes.subrange(2, 9).drop_first() =~= outcomes.subrange(3, 9));
    assert(outcomes.subrange(3, 9).drop_first() =~= outcomes.subrange(4, 9));
    assert(outcomes.subrange(4, 9).drop_first() =~= outcomes.subrange(5, 9));
    assert(outcomes.subrange(5, 9).drop_first() =~= outcomes.subrange(6, 9));
    assert(outcomes.subrange(6, 9).drop_first() =~= outcomes.subrange(7, 9));
    assert(outcomes.subrange(7, 9).drop_first() =~= outcomes.subrange(8, 9));
    assert(outcomes.subrange(8, 9).drop_first() =~= outcomes.subrange(9, 9));
    if level >= 28 {
        assert(display_calls(DisplayStep::GetJavaVm, outcomes) =~= seq![
            DisplayStep::GetJavaVm,
            DisplayStep::AttachThread,
            DisplayStep::SetRequestedOrientation(6),
            DisplayStep::QuerySdkInt,
            DisplayStep::GetWindow,
            DisplayStep::GetAttributes,
            DisplayStep::SetCutoutMode(1),
            DisplayStep::SetAttributes,
        ]);
    } else {
        assert(display_calls(DisplayStep::GetJavaVm, outcomes) =~= seq![
            DisplayStep::GetJavaVm,
            DisplayStep::AttachThread,
            DisplayStep::SetRequestedOrientation(6),
            DisplayStep::QuerySdkInt,
        ]);
    }
}

/// Hiding the navigation bar on a device that reports SDK level `level`,
/// `systemBars()` reading `types`, every other call succeeding or `hide`
/// failing: from level 30 on it goes through `WindowCompat` and
/// `WindowInsetsControllerCompat`, hides exactly `types` and sets the
/// swipe-to-show behavior; below 30 it sets the immersive-sticky flags 0x1706
/// on the decor view. Either way it then is finished.
pub proof fn lemma_nav_bar_run(level: i32, types: i32, hide: CallOutcome)
    ensures
        ({
            let outcomes = seq![
                CallOutcome::Done,
                CallOutcome::Done,
                CallOutcome::Done,
                CallOutcome::Done,
                CallOutcome::Read(level),
                CallOutcome::Done,
                CallOutcome::Done,
                CallOutcome::Done,
                CallOutcome::Done,
                CallOutcome::Done,
                CallOutcome::Read(types),
                hide,
                CallOutcome::Done,
            ];
            nav_bar_calls(NavBarStep::GetJavaVm, outcomes) == if level >= 30 {
                seq![
                    NavBarStep::GetJavaVm,
                    NavBarStep::AttachThread,
                    NavBarStep::GetWindow,
                    NavBarStep::GetDecorView,
                    NavBarStep::QuerySdkInt,
                    NavBarStep::FindWindowCompat,
                    NavBarStep::SetDecorFitsSystemWindows(false),
                    NavBarStep::FindInsetsController,
                    NavBarStep::CreateInsetsController,
                    NavBarStep::FindInsetsType,
                    NavBarStep::QuerySystemBars,
                    NavBarStep::HideSystemBars(types),
                    NavBarStep::SetSystemBarsBehavior(2),
                ]
            } else {
                seq![
                    NavBarStep::GetJavaVm,
                    NavBarStep::AttachThread,
                    NavBarStep::GetWindow,
                    NavBarStep::GetDecorView,
                    NavBarStep::QuerySdkInt,
                    NavBarStep::SetSystemUiVisibility(0x1706),
                ]
            }
        }),
{
    lemma_legacy_flags();
    let outcomes = seq![
        CallOutcome::Done,
        CallOutcome::Done,
        CallOutcome::Done,
        CallOutcome::Done,
        CallOutcome::Read(level),
        CallOutcome::Done,
        CallOutcome::Done,
        CallOutcome::Done,
        CallOutcome::Done,
        CallOutcome::Done,
        CallOutcome::Read(types),
        hide,
        CallOutcome::Done,
    ];
    reveal_with_fuel(nav_bar_calls, 14);
    assert(outcomes.drop_first() =~= outcomes.subrange(1, 13));
    assert(outcomes.subrange(1, 13).drop_first() =~= outcomes.subrange(2, 13));
    assert(outcomes.subrange(2, 13).drop_first() =~= outcomes.subrange(3, 13));
    assert(outcomes.subrange(3, 13).drop_first() =~= outcomes.subrange(4, 13));
    assert(outcomes.subrange(4, 13).drop_first() =~= outcomes.subrange(5, 13));
    assert(outcomes.subrange(5, 13).drop_first() =~= outcomes.subrange(6, 13));
    assert(outcomes.subrange(6, 13).drop_first() =~= outcomes.subrange(7, 13));
    assert(outcomes.subrange(7, 13).drop_first() =~= outcomes.subrange(8, 13));
    assert(outcomes.subrange(8, 13).drop_first() =~= outcomes.subrange(9, 13));
    assert(outcomes.subrange(9, 13).drop_first() =~= outcomes.subrange(10, 13));
    assert(outcomes.subrange(10, 13).drop_first() =~= outcomes.subrange(11, 13));
    assert(outcomes.subrange(11, 13).drop_first() =~= outcomes.subrange(12, 13));
    assert(outcomes.subrange(12, 13).drop_first() =~= outcomes.subrange(13, 13));
    if level >= 30 {
        assert(nav_bar_calls(NavBarStep::GetJavaVm, outcomes) =~= seq![
            NavBarStep::GetJavaVm,
            NavBarStep::AttachThread,
            NavBarStep::GetWindow,
            NavBarStep::GetDecorView,
            NavBarStep::QuerySdkInt,
            NavBarStep::FindWindowCompat,
            NavBarStep::SetDecorFitsSystemWindows(false),
            NavBarStep::FindInsetsController,
            NavBarStep::CreateInsetsController,
            NavBarStep::FindInsetsType,
            NavBarStep::QuerySystemBars,
            NavBarStep::HideSystemBars(types),
            NavBarStep::SetSystemBarsBehavior(2),
        ]);
    } else {
        assert(nav_bar_calls(NavBarStep::GetJavaVm, outcomes) =~= seq![
            NavBarStep::GetJavaVm,
            NavBarStep::AttachThread,
            NavBarStep::GetWindow,
            NavBarStep::GetDecorView,
            NavBarStep::QuerySdkInt,
            NavBarStep::SetSystemUiVisibility(0x1706),
        ]);
    }
}

/// A failure of any call that the later calls depend on ends the
/// sequence: the JavaVM, the attached thread, the window, the decor view,
/// the AndroidX classes, the controller, `setDecorFitsSystemWindows` and
/// `systemBars()`. For the display setup: the JavaVM, the attached thread,
/// the window and its attributes.
pub proof fn lemma_failures_that_end()
    ensures
        nav_bar_transition(NavBarStep::GetJavaVm, CallOutcome::Failed) == NavBarStep::Finished,
        nav_bar_transition(NavBarStep::AttachThread, CallOutcome::Failed) == NavBarStep::Finished,
        nav_bar_transition(NavBarStep::GetWindow, CallOutcome::Failed) == NavBarStep::Finished,
        nav_bar_transition(NavBarStep::GetDecorView, CallOutcome::Failed) == NavBarStep::Finished,
        nav_bar_transition(NavBarStep::FindWindowCompat, CallOutcome::Failed)
            == NavBarStep::Finished,
        forall|fits: bool|
            #[trigger] nav_bar_transition(
                NavBarStep::SetDecorFitsSystemWindows(fits),
                CallOutcome::Failed,
            ) == NavBarStep::Finished,
        nav_bar_transition(NavBarStep::FindInsetsController, CallOutcome::Failed)
            == NavBarStep::Finished,
        nav_bar_transition(NavBarStep::CreateInsetsController, CallOutcome::Failed)
            == NavBarStep::Finished,
        nav_bar_transition(NavBarStep::FindInsetsType, CallOutcome::Failed)
            == NavBarStep::Finished,
        nav_bar_transition(NavBarStep::QuerySystemBars, CallOutcome::Failed)
            == NavBarStep::Finished,
        display_transition(DisplayStep::GetJavaVm, CallOutcome::Failed) == DisplayStep::Finished,
        display_transition(DisplayStep::AttachThread, CallOutcome::Failed)
            == DisplayStep::Finished,
        display_transition(DisplayStep::GetWindow, CallOutcome::Failed) == DisplayStep::Finished,
        display_transition(DisplayStep::GetAttributes, CallOutcome::Failed)
            == DisplayStep::Finished,
{
}

} // verus!
