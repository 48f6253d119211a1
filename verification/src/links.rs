//! Links on a course's learning-materials page: which elements to look for,
//! how long to wait for them, and how a week folder's number is read.
use crate::pattern::{
    ascii_digit_run, ascii_non_digits, ends_digit_run, find_first, opens_with_week,
    regex_first_match,
};
use vstd::prelude::*;

verus! {

/// A link to a week folder (or to another entry of the materials list) and
/// the week number read from its title.
pub struct Folder {
    pub week_no: String,
    pub link: String,
}

/// The links of a materials page, sorted by kind.
pub struct Links {
    pub item_links: Vec<String>,
    pub file_links: Vec<String>,
    pub folder_links: Vec<String>,
    pub folder_week_links: Vec<Folder>,
}

/// The kinds of entry in a materials list.
pub enum FolderType {
    FolderWeek,
    Folder,
    Item,
    File,
}

/// The CSS selector of the links of each kind of entry.
pub open spec fn link_selector_spec(folder_type: FolderType) -> Seq<char> {
    match folder_type {
        FolderType::Item => "#content_listContainer img[alt='Item'] + div + div div.detailsValue a:nth-child(2)"@,
        FolderType::File => "#content_listContainer img[alt='File'] + div div a:nth-child(2)"@,
        _ => "#content_listContainer img[alt='Content Folder'] + div a"@,
    }
}

/// The CSS selector that finds the links of entries of `folder_type`.
pub fn link_selector(folder_type: &FolderType) -> (css: &'static str)
    ensures
        css@ == link_selector_spec(*folder_type),
{
    match folder_type {
        FolderType::Item => "#content_listContainer img[alt='Item'] + div + div div.detailsValue a:nth-child(2)",
        FolderType::File => "#content_listContainer img[alt='File'] + div div a:nth-child(2)",
        _ => "#content_listContainer img[alt='Content Folder'] + div a",
    }
}

/// How a link's text is tested before the link is kept: the needle, and
/// whether case is ignored and a match anywhere in the text is enough.
pub struct TextFilter {
    pub needle: String,
    pub case_insensitive: bool,
    pub partial: bool,
}

/// The text filter for links of `folder_type`: week folders must mention
/// "week" in any case; every other link is kept (the empty needle is found in
/// any text).
pub fn text_filter(folder_type: &FolderType) -> (f: TextFilter)
    ensures
        f.needle@ == (if *folder_type is FolderWeek {
            "week"@
        } else {
            ""@
        }),
        f.case_insensitive,
        f.partial,
{
    let needle = match folder_type {
        FolderType::FolderWeek => "week",
        _ => "",
    };
    TextFilter { needle: String::from_str(needle), case_insensitive: true, partial: true }
}

/// Seconds a query waits for an element when no wait is given.
pub const DEFAULT_TIMEOUT_SECS: u64 = 20;

/// Milliseconds between two polls of a query when no wait is given.
pub const DEFAULT_INTERVAL_MILLIS: u64 = 500;

/// The timeout (seconds) and poll interval (milliseconds) of a query: the two
/// values given, when exactly two are given, else the defaults.
pub fn wait_times(wait: &[u64]) -> (t: (u64, u64))
    ensures
        wait@.len() == 2 ==> t == (wait@[0], wait@[1]),
        wait@.len() != 2 ==> t == (DEFAULT_TIMEOUT_SECS, DEFAULT_INTERVAL_MILLIS),
{
    if wait.len() == 2 {
        (wait[0], wait[1])
    } else {
        (DEFAULT_TIMEOUT_SECS, DEFAULT_INTERVAL_MILLIS)
    }
}

/// The pattern that finds "Week <n>" in a folder title.
pub open spec fn week_pattern() -> Seq<char> {
    "[Ww]eek\\s*\\d+"@
}

/// The pattern that finds a run of digits.
pub open spec fn digits_pattern() -> Seq<char> {
    "\\d+"@
}

/// The title up to the end of its first "Week <n>", if it has one.
pub open spec fn week_prefix_spec(title: Seq<char>) -> Option<Seq<char>> {
    match regex_first_match(week_pattern(), title) {
        Some(parts) => Some(parts.0 + parts.1),
        None => None,
    }
}

/// The week number of a folder title: the first run of digits in the title up
/// to the end of its first "Week <n>".
pub open spec fn week_no_spec(title: Seq<char>) -> Option<Seq<char>> {
    match week_prefix_spec(title) {
        Some(prefix) => match regex_first_match(digits_pattern(), prefix) {
            Some(parts) => Some(parts.1),
            None => None,
        },
        None => None,
    }
}

/// Whether `part` occurs in `whole`.
pub open spec fn occurs_in(part: Seq<char>, whole: Seq<char>) -> bool {
    exists|i: int| 0 <= i <= whole.len() - part.len() && #[trigger] whole.subrange(i, i + part.len()) == part
}

/// The text before a match together with the match.
pub fn through_match(found: Option<(String, String, String)>) -> (r: Option<String>)
    ensures
        found is None ==> r is None,
        found matches Some(parts) ==> (r matches Some(s) && s@ == parts.0@ + parts.1@),
{
    match found {
        Some(parts) => {
            let (before, matched, _after) = parts;
            Some(before.concat(matched.as_str()))
        },
        None => None,
    }
}

/// The match alone.
pub fn matched_part(found: Option<(String, String, String)>) -> (r: Option<String>)
    ensures
        found is None ==> r is None,
        found matches Some(parts) ==> (r matches Some(s) && s@ == parts.1@),
{
    match found {
        Some(parts) => Some(parts.1),
        None => None,
    }
}

/// Reads the week number out of a week folder's title; `None` when the title
/// holds no "Week <n>".
/// The number always occurs in the title.
pub fn week_no_from_title(title: &str) -> (r: Option<String>)
    ensures
        week_no_spec(title@) is None ==> r is None,
        week_no_spec(title@) matches Some(w) ==> (r matches Some(s) && s@ == w),
        r matches Some(s) ==> occurs_in(s@, title@),
        forall|j: int|
            #![trigger title@.subrange(5, j)]
            opens_with_week(title@) && 5 < j <= title@.len() && ascii_digit_run(title@.subrange(5, j))
                && ends_digit_run(title@.skip(j)) ==> (r matches Some(s) && s@ == title@.subrange(
                5,
                j,
            )),
{
    let first = find_first("[Ww]eek\\s*\\d+", title);
    let ghost first_parts = first;
    let prefix = match through_match(first) {
        Some(p) => p,
        None => {
            proof {
                assert forall|j: int|
                    #![trigger title@.subrange(5, j)]
                    opens_with_week(title@) && 5 < j <= title@.len() && ascii_digit_run(
                        title@.subrange(5, j),
                    ) && ends_digit_run(title@.skip(j)) implies false by {
                    assert(title@.take(j) == title@.take(j));
                }
            }
            return None;
        },
    };
    let second = find_first("\\d+", prefix.as_str());
    let ghost second_parts = second;
    let r = matched_part(second);
    proof {
        if r is Some {
            let s = r->0;
            let p1 = first_parts->0;
            let p2 = second_parts->0;
            // the digits sit in the prefix, which opens the title
            assert(prefix@ == p1.0@ + p1.1@);
            assert(title@ == prefix@ + p1.2@);
            assert(prefix@ == p2.0@ + p2.1@ + p2.2@);
            let i = p2.0@.len() as int;
            assert(title@.subrange(i, i + s@.len()) =~= s@);
        }
        assert forall|j: int|
            #![trigger title@.subrange(5, j)]
            opens_with_week(title@) && 5 < j <= title@.len() && ascii_digit_run(title@.subrange(5, j))
                && ends_digit_run(title@.skip(j)) implies (r matches Some(s) && s@ == title@.subrange(
            5,
            j,
        )) by {
            assert(title@.take(j) == title@.take(j));
            let p1 = first_parts->0;
            assert(prefix@ =~= title@.take(j));
            assert(prefix@.skip(5) =~= title@.subrange(5, j));
            assert(ascii_non_digits(prefix@.take(5))) by {
                assert forall|i: int| 0 <= i < 5 implies (#[trigger] prefix@.take(5)[i] as u32) < 128
                    && !('0' <= prefix@.take(5)[i] && prefix@.take(5)[i] <= '9') by {
                    assert(prefix@.take(5)[i] == title@[i]);
                }
            }
            assert(prefix@.skip(5) == prefix@.skip(5));
        }
    }
    r
}

/// The folder for a link of `folder_type`: for a week folder the week number
/// is read from `title` (`None` when it has none), for any other kind the
/// week number is empty and `title` is not read.
pub fn make_folder(folder_type: &FolderType, link: String, title: &str) -> (r: Option<Folder>)
    ensures
        *folder_type is FolderWeek ==> (week_no_spec(title@) is None ==> r is None),
        *folder_type is FolderWeek ==> (week_no_spec(title@) matches Some(w) ==> (r matches Some(
            f) && f.week_no@ == w && f.link@ == link@)),
        !(*folder_type is FolderWeek) ==> (r matches Some(f) && f.week_no@ == Seq::<char>::empty()
            && f.link@ == link@),
        forall|j: int|
            #![trigger title@.subrange(5, j)]
            *folder_type is FolderWeek && opens_with_week(title@) && 5 < j <= title@.len()
                && ascii_digit_run(title@.subrange(5, j)) && ends_digit_run(title@.skip(j)) ==> (r matches Some(
                f) && f.week_no@ == title@.subrange(5, j) && f.link@ == link@),
{
    match folder_type {
        FolderType::FolderWeek => match week_no_from_title(title) {
            Some(week_no) => Some(Folder { week_no, link }),
            None => None,
        },
        _ => Some(Folder { week_no: String::new(), link }),
    }
}

} // verus!
