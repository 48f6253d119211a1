use mel_dl::download::{
    choose_week, folder_number, materials_selector, module_selector, week_url, DownloadStep,
};
use mel_dl::signin::SignInStep;

#[test]
fn module_selector_counts_from_two() {
    assert_eq!(module_selector(0), ".default-group:nth-child(1)");
    assert_eq!(module_selector(2), ".default-group:nth-child(3)");
    assert_eq!(module_selector(254), ".default-group:nth-child(255)");
}

#[test]
fn choose_week_in_range() {
    let c = choose_week(3, 0, 10, true);
    assert_eq!((c.requested, c.n_weeks, c.clamped, c.index), (3, 10, false, 2));
    let c = choose_week(1, 2, 10, true);
    assert_eq!((c.requested, c.clamped, c.index), (3, false, 2));
    let c = choose_week(10, 0, 10, true);
    assert_eq!((c.clamped, c.index), (false, 9));
}

#[test]
fn choose_week_past_last_takes_last() {
    let c = choose_week(12, 0, 10, true);
    assert_eq!((c.requested, c.n_weeks, c.clamped, c.index), (12, 10, true, 9));
}

#[test]
fn choose_week_counts_folders_as_u8() {
    let c = choose_week(5, 0, 259, true);
    assert_eq!((c.n_weeks, c.clamped, c.index), (3, true, 2));
}

#[test]
fn folder_number_default_and_parse() {
    assert_eq!(folder_number(None), Some(1));
    assert_eq!(folder_number(Some("4")), Some(4));
    assert_eq!(folder_number(Some("four")), None);
    assert_eq!(folder_number(Some("300")), None);
}

#[test]
fn week_url_prefixes_site() {
    assert_eq!(week_url("/ultra/courses/x"), "https://mel.np.edu.sg/ultra/courses/x");
    assert_eq!(week_url(""), "https://mel.np.edu.sg");
}

fn run(outcomes: &[bool]) -> SignInStep {
    let mut step = SignInStep::start();
    for ok in outcomes {
        step = step.next(*ok);
    }
    step
}

#[test]
fn sign_in_all_succeed_with_popup() {
    assert_eq!(run(&[true; 7]), SignInStep::Done);
}

#[test]
fn sign_in_without_popup() {
    assert_eq!(run(&[true, true, true, true, true, false]), SignInStep::Done);
}

#[test]
fn sign_in_retries_submit() {
    assert_eq!(run(&[true, true, true, false, false, false]), SignInStep::Submit);
    assert_eq!(run(&[true, true, true, false, false, true, true, false]), SignInStep::Done);
}

#[test]
fn sign_in_fails_and_stays_failed() {
    assert_eq!(run(&[false]), SignInStep::Failed);
    assert_eq!(run(&[true, false, true, true]), SignInStep::Failed);
    assert_eq!(run(&[true, true, false]), SignInStep::Failed);
    assert_eq!(run(&[true, true, true, true, false]), SignInStep::Failed);
    assert_eq!(run(&[true, true, true, true, true, true, false]), SignInStep::Failed);
    assert!(SignInStep::Failed.is_finished());
    assert!(SignInStep::Done.is_finished());
    assert!(!SignInStep::Submit.is_finished());
    assert_eq!(SignInStep::Done.next(false), SignInStep::Done);
}

#[test]
fn choose_week_last_week_on_top() {
    // three folders, last week on top: week 1 is the bottom folder
    let c = choose_week(1, 0, 3, false);
    assert_eq!((c.requested, c.clamped, c.index), (1, false, 2));
    let c = choose_week(3, 0, 3, false);
    assert_eq!(c.index, 0);
    let c = choose_week(1, 1, 10, false);
    assert_eq!(c.index, 8);
    // past the last week the last week (on top) is taken
    let c = choose_week(7, 0, 3, false);
    assert_eq!((c.clamped, c.index), (true, 0));
}

#[test]
fn materials_selector_names_the_tab() {
    assert_eq!(
        materials_selector("Learning Materials"),
        "#courseMenuPalette_contents span[title='Learning Materials']"
    );
    assert_eq!(
        materials_selector("Course Content"),
        "#courseMenuPalette_contents span[title='Course Content']"
    );
}

fn download_run(outcomes: &[bool]) -> DownloadStep {
    let mut step = DownloadStep::start();
    for ok in outcomes {
        step = step.next(*ok);
    }
    step
}

#[test]
fn download_steps_in_order() {
    assert_eq!(download_run(&[true; 7]), DownloadStep::OpenWeek);
    assert_eq!(download_run(&[true; 10]), DownloadStep::MoveFiles);
    assert_eq!(download_run(&[true; 11]), DownloadStep::Done);
}

#[test]
fn download_stops_at_first_failure() {
    assert_eq!(download_run(&[true, false]), DownloadStep::Failed);
    assert_eq!(download_run(&[true, true, true, true, true, true, true, false, true, true]), DownloadStep::Failed);
    assert_eq!(download_run(&[true, true, true, true, true, true, true, true, true, false, true]), DownloadStep::Failed);
    assert!(DownloadStep::Failed.is_finished());
    assert!(!DownloadStep::MoveFiles.is_finished());
}
