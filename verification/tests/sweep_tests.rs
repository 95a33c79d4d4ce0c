use file_sweep::args::Args;
use file_sweep::filter::{filter_args, get_extension_from_filename, Entry};
use file_sweep::run::{cli_parser, plan_entry, EntryAction, SweepRun};

fn args_with(
    extension: Vec<String>,
    name_contains: Option<String>,
    ignore_case: bool,
    delete: bool,
    dry_run: bool,
) -> Args {
    Args {
        path: ".".to_string(),
        extension,
        name_contains,
        ignore_case,
        delete,
        dry_run,
    }
}

fn file(name: &str) -> Entry {
    Entry {
        name: name.to_string(),
        path: name.to_string(),
        is_file: true,
    }
}

fn directory(name: &str) -> Entry {
    Entry {
        name: name.to_string(),
        path: name.to_string(),
        is_file: false,
    }
}

#[test]
fn get_extension_returns_jpg_for_simple_file() {
    let result = get_extension_from_filename("photo.jpg");
    assert_eq!(result, "jpg");
}

#[test]
fn get_extension_returns_last_extension_for_double_extension() {
    let result = get_extension_from_filename("a.tar.gz");
    assert_eq!(result, "gz");
}

#[test]
fn get_extension_returns_empty_for_file_without_extension() {
    let result = get_extension_from_filename("gitignore");
    assert_eq!(result, "");
}

#[test]
fn get_extension_returns_empty_for_dotfile() {
    let result = get_extension_from_filename(".env");
    assert_eq!(result, "");
}

#[test]
fn get_extension_returns_empty_for_trailing_dot() {
    assert_eq!(get_extension_from_filename("a."), "");
}

#[test]
fn get_extension_returns_empty_for_empty_name() {
    assert_eq!(get_extension_from_filename(""), "");
}

#[test]
fn get_extension_handles_leading_dot_with_later_extension() {
    assert_eq!(get_extension_from_filename(".tar.gz"), "gz");
}

#[test]
fn try_delete_files_does_not_remove_files_in_dry_run_mode() {
    let args = args_with(vec![], None, false, true, true);
    let action = plan_entry(&args, &file("a.txt"));
    assert_eq!(action, EntryAction::Print);
    assert_ne!(action, EntryAction::PrintAndDelete);
}

#[test]
fn deletes_only_files_matching_name_filter() {
    let args = args_with(vec![], Some("a".to_string()), false, true, false);
    assert_eq!(plan_entry(&args, &file("a.txt")), EntryAction::PrintAndDelete);
    assert_eq!(plan_entry(&args, &file("b.txt")), EntryAction::Skip);
}

#[test]
fn case_sensitive_matching_does_not_delete_when_pattern_differs() {
    let args = args_with(vec![], Some("aa".to_string()), false, true, false);
    assert_eq!(plan_entry(&args, &file("aA.txt")), EntryAction::Skip);
}

#[test]
fn case_insensitive_matching_deletes_file() {
    let args = args_with(vec![], Some("aa".to_string()), true, true, false);
    assert_eq!(plan_entry(&args, &file("aA.txt")), EntryAction::PrintAndDelete);
}

#[test]
fn try_delete_files_removes_all_files_when_delete_is_true() {
    let args = args_with(vec![], None, false, true, false);
    assert_eq!(plan_entry(&args, &file("a.txt")), EntryAction::PrintAndDelete);
    assert_eq!(plan_entry(&args, &file("b.txt")), EntryAction::PrintAndDelete);
}

#[test]
fn try_delete_files_does_not_delete_when_filter_changes_after_walker_creation() {
    let first = args_with(vec!["txt".to_string()], None, false, true, false);
    let entry = file("a.txt");
    // The entry passes the filter that was live when the walker was built...
    assert!(filter_args(&first, &entry));
    // ...but the filter is re-evaluated at consumption time, against the
    // configuration live then, and the entry no longer matches.
    let current = args_with(vec!["ttx".to_string()], None, false, true, false);
    assert_eq!(plan_entry(&current, &entry), EntryAction::Skip);
}

#[test]
fn directories_are_never_deleted() {
    let args = args_with(vec![], None, false, true, false);
    assert_eq!(plan_entry(&args, &directory("somedir")), EntryAction::Skip);
}

#[test]
fn extension_filter_keeps_only_listed_extensions() {
    let args = args_with(vec!["jpg".to_string()], None, false, true, false);
    assert_eq!(plan_entry(&args, &file("photo.jpg")), EntryAction::PrintAndDelete);
    assert_eq!(plan_entry(&args, &file("photo.png")), EntryAction::Skip);
    let several = args_with(
        vec!["png".to_string(), "jpg".to_string()],
        None,
        false,
        true,
        false,
    );
    assert_eq!(plan_entry(&several, &file("photo.jpg")), EntryAction::PrintAndDelete);
}

#[test]
fn extension_match_is_case_sensitive() {
    let args = args_with(vec!["JPG".to_string()], None, false, true, false);
    assert_eq!(plan_entry(&args, &file("photo.jpg")), EntryAction::Skip);
}

#[test]
fn empty_pattern_matches_every_name() {
    let args = args_with(vec![], Some(String::new()), false, true, false);
    assert_eq!(plan_entry(&args, &file("anything")), EntryAction::PrintAndDelete);
}

#[test]
fn pattern_longer_than_name_never_matches() {
    let args = args_with(vec![], Some("abcdef".to_string()), false, true, false);
    assert_eq!(plan_entry(&args, &file("abc")), EntryAction::Skip);
}

#[test]
fn matched_file_is_only_printed_without_delete_flag() {
    let args = args_with(vec![], None, false, false, true);
    assert_eq!(plan_entry(&args, &file("a.txt")), EntryAction::Print);
}

#[test]
fn matched_file_is_ignored_when_no_action_flag_is_set() {
    let args = args_with(vec![], None, false, false, false);
    assert_eq!(plan_entry(&args, &file("a.txt")), EntryAction::Skip);
}

#[test]
fn cli_parser_starts_a_run_only_when_asked_to_act() {
    let idle = args_with(vec![], None, false, false, false);
    assert!(cli_parser(&idle).is_none());
    let dry = args_with(vec![], None, false, false, true);
    let run = cli_parser(&dry).unwrap();
    assert_eq!(run.deleted, 0);
    let deleting = args_with(vec![], None, false, true, false);
    assert_eq!(cli_parser(&deleting).unwrap().deleted, 0);
}

#[test]
fn run_counts_only_successful_removals() {
    let mut run = SweepRun { deleted: 0 };
    run.record_deletion(true);
    run.record_deletion(false);
    run.record_deletion(true);
    assert_eq!(run.deleted, 2);
}

#[test]
fn finish_reports_a_count_only_when_delete_is_set() {
    let run = SweepRun { deleted: 3 };
    let deleting = args_with(vec![], None, false, true, false);
    assert_eq!(run.finish(&deleting), Some(3));
    let dry = args_with(vec![], None, false, false, true);
    assert_eq!(run.finish(&dry), None);
}

#[test]
fn second_pass_over_emptied_directory_reports_zero() {
    // After a first pass removed every file, the walk sees only directories:
    // nothing is planned for removal and the reported count is zero.
    let args = args_with(vec![], None, false, true, false);
    let run = cli_parser(&args).unwrap();
    for leftover in [directory("."), directory("sub")] {
        assert_eq!(plan_entry(&args, &leftover), EntryAction::Skip);
    }
    assert_eq!(run.finish(&args), Some(0));
}
