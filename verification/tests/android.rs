use std::path::PathBuf;
use tetanes::android::{
    open_file_dialog_impl, sdk_int_or_fallback, speak_text_impl, CallOutcome, DisplayStep,
    NavBarStep, FALLBACK_SDK_INT, LEGACY_IMMERSIVE_FLAGS,
};

#[test]
fn sdk_level_read_or_fallback() {
    assert_eq!(sdk_int_or_fallback(Some(33)), 33);
    assert_eq!(sdk_int_or_fallback(None), 26);
    assert_eq!(FALLBACK_SDK_INT, 26);
}

#[test]
fn legacy_flags_value() {
    assert_eq!(LEGACY_IMMERSIVE_FLAGS, 0x1706);
}

fn nav_bar_run(outcomes: &[CallOutcome]) -> Vec<NavBarStep> {
    let mut step = NavBarStep::start();
    let mut steps = Vec::new();
    for outcome in outcomes {
        if step == NavBarStep::Finished {
            break;
        }
        steps.push(step);
        step = step.next(*outcome);
    }
    assert_eq!(step, NavBarStep::Finished);
    steps
}

fn display_run(outcomes: &[CallOutcome]) -> Vec<DisplayStep> {
    let mut step = DisplayStep::start();
    let mut steps = Vec::new();
    for outcome in outcomes {
        if step == DisplayStep::Finished {
            break;
        }
        steps.push(step);
        step = step.next(*outcome);
    }
    assert_eq!(step, DisplayStep::Finished);
    steps
}

use CallOutcome::{Done, Failed, Read};

#[test]
fn nav_bar_modern_path() {
    let steps = nav_bar_run(&[
        Done, Done, Done, Done, Read(33), Done, Done, Done, Done, Done, Read(7), Done, Done,
    ]);
    assert_eq!(
        steps,
        vec![
            NavBarStep::GetJavaVm,
            NavBarStep::AttachThread,
            NavBarStep::GetWindow,
            NavBarStep::GetDecorView,
            NavBarStep::QuerySdkInt,
            NavBarStep::FindWindowCompat,
            NavBarStep::SetDecorFitsSystemWindows(false),
            NavBarStep::FindInsetsController,
            NavBarStep::CreateInsetsController,
            NavBarStep::FindInsetsType,
            NavBarStep::QuerySystemBars,
            NavBarStep::HideSystemBars(7),
            NavBarStep::SetSystemBarsBehavior(2),
        ]
    );
}

#[test]
fn nav_bar_modern_path_starts_at_level_thirty() {
    assert_eq!(NavBarStep::QuerySdkInt.next(Read(30)), NavBarStep::FindWindowCompat);
    assert_eq!(
        NavBarStep::QuerySdkInt.next(Read(29)),
        NavBarStep::SetSystemUiVisibility(0x1706)
    );
}

#[test]
fn nav_bar_legacy_path() {
    let steps = nav_bar_run(&[Done, Done, Done, Done, Read(29), Failed]);
    assert_eq!(
        steps,
        vec![
            NavBarStep::GetJavaVm,
            NavBarStep::AttachThread,
            NavBarStep::GetWindow,
            NavBarStep::GetDecorView,
            NavBarStep::QuerySdkInt,
            NavBarStep::SetSystemUiVisibility(0x1706),
        ]
    );
}

#[test]
fn nav_bar_unreadable_sdk_falls_back_to_legacy() {
    assert_eq!(NavBarStep::QuerySdkInt.next(Failed), NavBarStep::SetSystemUiVisibility(0x1706));
    assert!(!NavBarStep::QuerySdkInt.reports_failure());
}

#[test]
fn nav_bar_stops_when_the_window_is_missing() {
    let steps = nav_bar_run(&[Done, Done, Failed]);
    assert_eq!(steps, vec![NavBarStep::GetJavaVm, NavBarStep::AttachThread, NavBarStep::GetWindow]);
    assert!(NavBarStep::GetWindow.reports_failure());
}

#[test]
fn nav_bar_stops_without_the_vm() {
    assert_eq!(nav_bar_run(&[Failed]), vec![NavBarStep::GetJavaVm]);
}

#[test]
fn nav_bar_stops_when_system_bars_cannot_be_read() {
    assert_eq!(NavBarStep::QuerySystemBars.next(Failed), NavBarStep::Finished);
    assert_eq!(NavBarStep::FindInsetsType.next(Failed), NavBarStep::Finished);
    assert_eq!(NavBarStep::SetDecorFitsSystemWindows(false).next(Failed), NavBarStep::Finished);
}

#[test]
fn nav_bar_failed_hide_still_sets_behavior() {
    assert_eq!(NavBarStep::HideSystemBars(7).next(Failed), NavBarStep::SetSystemBarsBehavior(2));
    assert_eq!(NavBarStep::SetSystemBarsBehavior(2).next(Failed), NavBarStep::Finished);
    assert_eq!(NavBarStep::Finished.next(Done), NavBarStep::Finished);
    assert!(!NavBarStep::Finished.reports_failure());
}

#[test]
fn display_setup_with_cutout() {
    let steps = display_run(&[Done, Done, Failed, Read(28), Done, Done, Failed, Done]);
    assert_eq!(
        steps,
        vec![
            DisplayStep::GetJavaVm,
            DisplayStep::AttachThread,
            DisplayStep::SetRequestedOrientation(6),
            DisplayStep::QuerySdkInt,
            DisplayStep::GetWindow,
            DisplayStep::GetAttributes,
            DisplayStep::SetCutoutMode(1),
            DisplayStep::SetAttributes,
        ]
    );
}

#[test]
fn display_setup_without_cutout() {
    let steps = display_run(&[Done, Done, Done, Read(27)]);
    assert_eq!(
        steps,
        vec![
            DisplayStep::GetJavaVm,
            DisplayStep::AttachThread,
            DisplayStep::SetRequestedOrientation(6),
            DisplayStep::QuerySdkInt,
        ]
    );
    assert_eq!(DisplayStep::QuerySdkInt.next(Failed), DisplayStep::Finished);
}

#[test]
fn display_setup_stops_without_attributes() {
    let steps = display_run(&[Done, Done, Done, Read(34), Done, Failed]);
    assert_eq!(steps.last(), Some(&DisplayStep::GetAttributes));
    assert_eq!(DisplayStep::AttachThread.next(Failed), DisplayStep::Finished);
    assert!(DisplayStep::SetCutoutMode(1).reports_failure());
    assert!(!DisplayStep::QuerySdkInt.reports_failure());
}

#[test]
fn insets_controller_levels_also_get_the_cutout() {
    for level in [30, 31, 34, 35] {
        assert_eq!(NavBarStep::QuerySdkInt.next(Read(level)), NavBarStep::FindWindowCompat);
        assert_eq!(DisplayStep::QuerySdkInt.next(Read(level)), DisplayStep::GetWindow);
    }
}

#[test]
fn file_dialog_picks_nothing() {
    let picked = open_file_dialog_impl("Load ROM", "NES ROMs", &["nes"], Some(PathBuf::from("/sdcard")));
    assert!(matches!(picked, Ok(None)));
    let picked = open_file_dialog_impl(String::new(), "", &[String::from("zip")], None::<PathBuf>);
    assert!(matches!(picked, Ok(None)));
    let picked = open_file_dialog_impl("Title", String::from("Name"), &[1u32, 2], Some("/tmp"));
    assert!(matches!(picked, Ok(None)));
}

#[test]
fn speaking_does_nothing() {
    speak_text_impl("Hello");
}
