use mel_dl::links::{
    link_selector, make_folder, matched_part, text_filter, through_match, wait_times,
    week_no_from_title, FolderType,
};

#[test]
fn selectors_per_kind() {
    assert_eq!(
        link_selector(&FolderType::Item),
        "#content_listContainer img[alt='Item'] + div + div div.detailsValue a:nth-child(2)"
    );
    assert_eq!(
        link_selector(&FolderType::File),
        "#content_listContainer img[alt='File'] + div div a:nth-child(2)"
    );
    assert_eq!(
        link_selector(&FolderType::FolderWeek),
        "#content_listContainer img[alt='Content Folder'] + div a"
    );
    assert_eq!(
        link_selector(&FolderType::Folder),
        "#content_listContainer img[alt='Content Folder'] + div a"
    );
}

#[test]
fn text_filter_for_week_folders() {
    let f = text_filter(&FolderType::FolderWeek);
    assert_eq!(f.needle, "week");
    assert!(f.case_insensitive);
    assert!(f.partial);
    let g = text_filter(&FolderType::File);
    assert_eq!(g.needle, "");
    assert!(g.case_insensitive && g.partial);
}

#[test]
fn wait_times_uses_two_given_values() {
    assert_eq!(wait_times(&[40, 1000]), (40, 1000));
    assert_eq!(wait_times(&[0, 0]), (0, 0));
}

#[test]
fn wait_times_defaults_otherwise() {
    assert_eq!(wait_times(&[]), (20, 500));
    assert_eq!(wait_times(&[5]), (20, 500));
    assert_eq!(wait_times(&[1, 2, 3]), (20, 500));
}

#[test]
fn week_number_from_titles() {
    assert_eq!(week_no_from_title("Week 3").as_deref(), Some("3"));
    assert_eq!(week_no_from_title("week12: Arrays").as_deref(), Some("12"));
    assert_eq!(week_no_from_title("Lecture Notes Week  07 (updated)").as_deref(), Some("07"));
    assert_eq!(week_no_from_title("Week\t10 - Week 11").as_deref(), Some("10"));
}

#[test]
fn week_number_takes_first_digits_before_the_week() {
    // the first run of digits up to the end of "Week <n>" is taken
    assert_eq!(week_no_from_title("Topic 2 Week 5").as_deref(), Some("2"));
}

#[test]
fn week_number_missing() {
    assert_eq!(week_no_from_title("WEEK 3"), None);
    assert_eq!(week_no_from_title("Weekly quiz"), None);
    assert_eq!(week_no_from_title(""), None);
}

#[test]
fn through_match_and_matched_part() {
    let parts = Some(("ab".to_string(), "cd".to_string(), "ef".to_string()));
    assert_eq!(through_match(parts.clone()).as_deref(), Some("abcd"));
    assert_eq!(matched_part(parts).as_deref(), Some("cd"));
    assert_eq!(through_match(None), None);
    assert_eq!(matched_part(None), None);
}

#[test]
fn make_folder_for_week_and_others() {
    let f = make_folder(&FolderType::FolderWeek, "/ultra/w4".to_string(), "Week 4").unwrap();
    assert_eq!(f.week_no, "4");
    assert_eq!(f.link, "/ultra/w4");
    assert!(make_folder(&FolderType::FolderWeek, "/x".to_string(), "Notes").is_none());
    let g = make_folder(&FolderType::File, "/f".to_string(), "Week 9").unwrap();
    assert_eq!(g.week_no, "");
    assert_eq!(g.link, "/f");
}
