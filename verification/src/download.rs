//! Decisions made while downloading a week's files: which course tab to open,
//! which week folder to take, and where that folder lives.
use crate::numeral::{decimal, parse_u8, parse_u8_spec, to_decimal};
use vstd::prelude::*;

verus! {

/// The CSS selector of the course tab shown at position `course_nth`: the tabs
/// are counted from 1 and one element precedes them, hence `course_nth + 1`.
pub fn module_selector(course_nth: u8) -> (css: String)
    requires
        course_nth < 255,
    ensures
        css@ == ".default-group:nth-child("@ + decimal((course_nth + 1) as nat) + ")"@,
{
    let n: u8 = course_nth + 1;
    let css = String::from_str(".default-group:nth-child(");
    let css = css.concat(to_decimal(n as u64).as_str());
    css.concat(")")
}

/// The folder number taken when none is given.
pub const DEFAULT_FOLDER: u8 = 1;

/// The folder number asked for on the command line: the number given, read
/// as a `u8` (`None` when it is not one), or the default when none is given.
pub fn folder_number(arg: Option<&str>) -> (r: Option<u8>)
    ensures
        arg is None ==> r == Some(DEFAULT_FOLDER),
        arg matches Some(s) ==> r == parse_u8_spec(s@),
{
    match arg {
        Some(s) => parse_u8(s),
        None => Some(DEFAULT_FOLDER),
    }
}

/// The week folder picked for a download.
pub struct WeekChoice {
    /// the folder number asked for, counted from the module's first week
    pub requested: u8,
    /// how many week folders were counted (as a `u8`)
    pub n_weeks: u8,
    /// whether the request was beyond the last folder and the last was taken
    pub clamped: bool,
    /// the position of the chosen folder in the list of week folders
    pub index: usize,
}

/// Picks the week folder for folder number `folder` of a module whose weeks
/// start at `week_start`, among `n_links` week folders listed from the top of
/// the page. The number asked for is `folder + week_start`; past the last
/// folder the last one is taken. The folder count is kept as a `u8`, that is
/// modulo 256. When the first week is on top (`ascending`) the k-th week is
/// the k-th folder from the top, else the k-th folder from the bottom.
pub fn choose_week(folder: u8, week_start: u8, n_links: usize, ascending: bool) -> (c: WeekChoice)
    requires
        folder + week_start <= 255,
        folder + week_start >= 1,
        n_links % 256 >= 1,
    ensures
        c.requested == folder + week_start,
        c.n_weeks == n_links % 256,
        c.clamped == (c.requested > c.n_weeks),
        c.index == (if ascending {
            (if c.clamped {
                c.n_weeks
            } else {
                c.requested
            }) - 1
        } else {
            c.n_weeks - (if c.clamped {
                c.n_weeks
            } else {
                c.requested
            })
        }),
        c.index < n_links,
{
    let requested: u8 = folder + week_start;
    let n_weeks: u8 = (n_links % 256) as u8;
    let clamped = requested > n_weeks;
    let week: u8 = if clamped {
        n_weeks
    } else {
        requested
    };
    let index: u8 = if ascending {
        week - 1
    } else {
        n_weeks - week
    };
    WeekChoice { requested, n_weeks, clamped, index: index as usize }
}

/// The CSS selector of the course menu entry of the materials tab named
/// `materials`.
pub fn materials_selector(materials: &str) -> (css: String)
    ensures
        css@ == "#courseMenuPalette_contents span[title='"@ + materials@ + "']"@,
{
    String::from_str("#courseMenuPalette_contents span[title='").concat(materials).concat("']")
}

/// The site the links of the materials pages are relative to.
pub open spec fn site_root() -> Seq<char> {
    "https://mel.np.edu.sg"@
}

/// The address of a week folder given by its link on the site.
pub fn week_url(link: &str) -> (url: String)
    ensures
        url@ == site_root() + link@,
{
    String::from_str("https://mel.np.edu.sg").concat(link)
}

/// Where a download stands, named by the browser action to perform next.
/// The actions run in this order; the first that fails ends the download
/// with its error and nothing after it runs.
#[derive(Clone, Copy, Debug, PartialEq, Eq, Structural)]
pub enum DownloadStep {
    /// wait for the course tab of the module
    FindModuleTab,
    /// scroll the course tab into view
    ScrollToModuleTab,
    /// click the course tab
    OpenModuleTab,
    /// switch into the course frame
    EnterFrame,
    /// open the course menu
    OpenMenu,
    /// open the materials tab
    OpenMaterials,
    /// collect the week folders
    ListWeeks,
    /// go to the chosen week folder
    OpenWeek,
    /// download the week's files
    DownloadFiles,
    /// download the week's items
    DownloadItems,
    /// move the downloads into the module's week directory
    MoveFiles,
    /// everything done
    Done,
    /// an action failed
    Failed,
}

/// The position of a step in the order of the actions (`Failed` is put last).
pub open spec fn download_position(step: DownloadStep) -> nat {
    match step {
        DownloadStep::FindModuleTab => 0,
        DownloadStep::ScrollToModuleTab => 1,
        DownloadStep::OpenModuleTab => 2,
        DownloadStep::EnterFrame => 3,
        DownloadStep::OpenMenu => 4,
        DownloadStep::OpenMaterials => 5,
        DownloadStep::ListWeeks => 6,
        DownloadStep::OpenWeek => 7,
        DownloadStep::DownloadFiles => 8,
        DownloadStep::DownloadItems => 9,
        DownloadStep::MoveFiles => 10,
        DownloadStep::Done => 11,
        DownloadStep::Failed => 12,
    }
}

/// Whether the download has ended, well or not.
pub open spec fn download_finished(step: DownloadStep) -> bool {
    step == DownloadStep::Done || step == DownloadStep::Failed
}

/// The step after `step` once its action succeeded (`ok`) or failed: the
/// next action in order, or `Failed`; an ended download stays as it is.
pub open spec fn download_next_spec(step: DownloadStep, ok: bool) -> DownloadStep {
    if download_finished(step) {
        step
    } else if !ok {
        DownloadStep::Failed
    } else {
        match step {
            DownloadStep::FindModuleTab => DownloadStep::ScrollToModuleTab,
            DownloadStep::ScrollToModuleTab => DownloadStep::OpenModuleTab,
            DownloadStep::OpenModuleTab => DownloadStep::EnterFrame,
            DownloadStep::EnterFrame => DownloadStep::OpenMenu,
            DownloadStep::OpenMenu => DownloadStep::OpenMaterials,
            DownloadStep::OpenMaterials => DownloadStep::ListWeeks,
            DownloadStep::ListWeeks => DownloadStep::OpenWeek,
            DownloadStep::OpenWeek => DownloadStep::DownloadFiles,
            DownloadStep::DownloadFiles => DownloadStep::DownloadItems,
            DownloadStep::DownloadItems => DownloadStep::MoveFiles,
            _ => DownloadStep::Done,
        }
    }
}

/// The step reached from `step` through the outcomes in `outcomes`, in order.
pub open spec fn download_run(step: DownloadStep, outcomes: Seq<bool>) -> DownloadStep
    decreases outcomes.len(),
{
    if outcomes.len() == 0 {
        step
    } else {
        download_run(download_next_spec(step, outcomes[0]), outcomes.drop_first())
    }
}

/// Whether every outcome in `outcomes` is a success.
pub open spec fn all_succeeded(outcomes: Seq<bool>) -> bool {
    forall|i: int| 0 <= i < outcomes.len() ==> #[trigger] outcomes[i]
}

impl DownloadStep {
    /// The step a download starts with.
    pub fn start() -> (s: DownloadStep)
        ensures
            s == DownloadStep::FindModuleTab,
    {
        DownloadStep::FindModuleTab
    }

    /// The step that follows this one once its action has succeeded (`ok`)
    /// or failed.
    pub fn next(&self, ok: bool) -> (s: DownloadStep)
        ensures
            s == download_next_spec(*self, ok),
            !download_finished(*self) && !ok ==> s == DownloadStep::Failed,
            !download_finished(*self) && ok ==> download_position(s) == download_position(*self) + 1,
    {
        match self {
            DownloadStep::Done => DownloadStep::Done,
            DownloadStep::Failed => DownloadStep::Failed,
            _ => if !ok {
                DownloadStep::Failed
            } else {
                match self {
                    DownloadStep::FindModuleTab => DownloadStep::ScrollToModuleTab,
                    DownloadStep::ScrollToModuleTab => DownloadStep::OpenModuleTab,
                    DownloadStep::OpenModuleTab => DownloadStep::EnterFrame,
                    DownloadStep::EnterFrame => DownloadStep::OpenMenu,
                    DownloadStep::OpenMenu => DownloadStep::OpenMaterials,
                    DownloadStep::OpenMaterials => DownloadStep::ListWeeks,
                    DownloadStep::ListWeeks => DownloadStep::OpenWeek,
                    DownloadStep::OpenWeek => DownloadStep::DownloadFiles,
                    DownloadStep::DownloadFiles => DownloadStep::DownloadItems,
                    DownloadStep::DownloadItems => DownloadStep::MoveFiles,
                    _ => DownloadStep::Done,
                }
            },
        }
    }

    /// Whether the download has ended.
    pub fn is_finished(&self) -> (b: bool)
        ensures
            b == download_finished(*self),
    {
        match self {
            DownloadStep::Done | DownloadStep::Failed => true,
            _ => false,
        }
    }
}

/// A failed download stays failed, whatever comes after.
pub proof fn lemma_download_failed_stays(outcomes: Seq<bool>)
    ensures
        download_run(DownloadStep::Failed, outcomes) == DownloadStep::Failed,
    decreases outcomes.len(),
{
    if outcomes.len() > 0 {
        lemma_download_failed_stays(outcomes.drop_first());
    }
}

/// From a step that has not ended, a run reaches a later step that has not
/// ended exactly when it is made of as many successes as there are steps in
/// between: every action before it ran, in order, and succeeded.
pub proof fn lemma_download_reaches(step: DownloadStep, outcomes: Seq<bool>, target: DownloadStep)
    requires
        !download_finished(step),
        !download_finished(target),
    ensures
        download_run(step, outcomes) == target <==> (all_succeeded(outcomes)
            && download_position(step) + outcomes.len() == download_position(target)),
    decreases outcomes.len(),
{
    if outcomes.len() > 0 {
        let next = download_next_spec(step, outcomes[0]);
        let rest = outcomes.drop_first();
        if !outcomes[0] {
            lemma_download_failed_stays(rest);
        } else if next == DownloadStep::Done {
            lemma_download_done_stays(rest);
        } else {
            lemma_download_reaches(next, rest, target);
            assert(all_succeeded(outcomes) <==> all_succeeded(rest)) by {
                if all_succeeded(rest) {
                    assert forall|i: int| 0 <= i < outcomes.len() implies #[trigger] outcomes[i] by {
                        if i > 0 {
                            assert(outcomes[i] == rest[i - 1]);
                        }
                    }
                }
                if all_succeeded(outcomes) {
                    assert forall|i: int| 0 <= i < rest.len() implies #[trigger] rest[i] by {
                        assert(rest[i] == outcomes[i + 1]);
                    }
                }
            }
        }
    }
}

/// A finished download stays done, whatever comes after.
pub proof fn lemma_download_done_stays(outcomes: Seq<bool>)
    ensures
        download_run(DownloadStep::Done, outcomes) == DownloadStep::Done,
    decreases outcomes.len(),
{
    if outcomes.len() > 0 {
        lemma_download_done_stays(outcomes.drop_first());
    }
}

/// The downloads are moved only after the week folder was opened and both
/// downloads succeeded: a run from the start reaches the move exactly when
/// its first ten actions all succeeded.
pub proof fn lemma_move_last(outcomes: Seq<bool>)
    ensures
        download_run(DownloadStep::FindModuleTab, outcomes) == DownloadStep::MoveFiles <==> (
        all_succeeded(outcomes) && outcomes.len() == 10),
{
    lemma_download_reaches(DownloadStep::FindModuleTab, outcomes, DownloadStep::MoveFiles);
}

} // verus!
