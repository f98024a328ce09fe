use darwin_slot::git::availability;
use darwin_slot::git::get_status;
use darwin_slot::git::query_answer;
use darwin_slot::git::status_from_text;
use darwin_slot::git::Availability;
use darwin_slot::git::GitStatus;
use darwin_slot::git::Query;

fn status(branch: &str, modified: usize, staged: usize, untracked: usize) -> GitStatus {
    GitStatus { branch: branch.to_string(), modified, untracked, staged }
}

#[test]
fn clean_means_no_outstanding_change() {
    assert!(status("main", 0, 0, 0).is_clean());
    assert!(!status("main", 1, 0, 0).is_clean());
    assert!(!status("main", 0, 1, 0).is_clean());
    assert!(!status("main", 0, 0, 1).is_clean());
    assert!(status("", 0, 0, 0).is_clean());
}

#[test]
fn available_means_clean_on_develop() {
    assert!(status("develop", 0, 0, 0).is_available());
    assert!(!status("develop", 1, 0, 0).is_available());
    assert!(!status("develop", 0, 1, 0).is_available());
    assert!(!status("develop", 0, 0, 1).is_available());
    assert!(!status("main", 0, 0, 0).is_available());
    assert!(!status("", 0, 0, 0).is_available());
    assert!(!status("Develop", 0, 0, 0).is_available());
    assert!(!status("develop ", 0, 0, 0).is_available());
}

#[test]
fn available_implies_clean_on_a_grid() {
    for branch in ["develop", "feature-x", "", "main"] {
        for modified in 0..3 {
            for staged in 0..3 {
                for untracked in 0..3 {
                    let s = status(branch, modified, staged, untracked);
                    if s.is_available() {
                        assert!(s.is_clean());
                    }
                }
            }
        }
    }
}

#[test]
fn availability_is_the_same_for_the_same_input() {
    for branch in ["develop", "feature-x", ""] {
        for modified in 0..2 {
            for untracked in 0..2 {
                let first = Some(status(branch, modified, 0, untracked));
                let second = first.clone();
                assert_eq!(availability(&first), availability(&second));
                assert_eq!(availability(&first), availability(&first));
            }
        }
    }
    assert_eq!(availability(&None), availability(&None));
}

#[test]
fn availability_has_three_verdicts() {
    assert_eq!(availability(&Some(status("develop", 0, 0, 0))), Availability::Available);
    assert_eq!(availability(&Some(status("develop", 0, 0, 1))), Availability::Occupied);
    assert_eq!(availability(&Some(status("main", 0, 0, 0))), Availability::Occupied);
    assert_eq!(availability(&Some(status("", 0, 0, 0))), Availability::Occupied);
    assert_eq!(availability(&None), Availability::Unreachable);
}

#[test]
fn occupied_scenario_feature_branch_with_one_modified() {
    let probe = Some(status("feature-x", 1, 0, 0));
    assert_eq!(availability(&probe), Availability::Occupied);
}

#[test]
fn available_scenario_clean_develop() {
    let probe = Some(status("develop", 0, 0, 0));
    assert_eq!(availability(&probe), Availability::Available);
}

#[test]
fn status_text_lists_what_is_outstanding() {
    assert_eq!(status("main", 0, 0, 0).status_text(), "clean");
    assert_eq!(status("main", 2, 0, 0).status_text(), "2 modified");
    assert_eq!(status("main", 0, 1, 0).status_text(), "1 staged");
    assert_eq!(status("main", 0, 0, 3).status_text(), "3 untracked");
    assert_eq!(status("main", 2, 1, 0).status_text(), "2 modified, 1 staged");
    assert_eq!(status("main", 2, 0, 3).status_text(), "2 modified, 3 untracked");
    assert_eq!(status("main", 0, 1, 3).status_text(), "1 staged, 3 untracked");
    assert_eq!(status("main", 2, 1, 3).status_text(), "2 modified, 1 staged, 3 untracked");
    assert_eq!(status("main", 10, 0, 125).status_text(), "10 modified, 125 untracked");
}

#[test]
fn status_from_text_trims_branch_and_counts_changes() {
    let found = status_from_text("feature-x\n", " M a.rs\n?? b.rs\nMM c.rs\n");
    assert_eq!(found, status("feature-x", 2, 1, 1));
    let clean = status_from_text("develop\n", "");
    assert_eq!(clean, status("develop", 0, 0, 0));
    assert!(clean.is_available());
    let detached = status_from_text("\n", "");
    assert_eq!(detached, status("", 0, 0, 0));
    assert!(!detached.is_available());
}

#[test]
fn get_status_needs_directory_and_both_answers() {
    let branch: &[u8] = b"develop\n";
    let changes: &[u8] = b"";
    assert_eq!(get_status(true, Some(branch), Some(changes)), Some(status("develop", 0, 0, 0)));
    assert_eq!(get_status(false, Some(branch), Some(changes)), None);
    assert_eq!(get_status(true, None, Some(changes)), None);
    assert_eq!(get_status(true, Some(branch), None), None);
    assert_eq!(get_status(true, None, None), None);
    assert_eq!(get_status(false, None, None), None);
}

#[test]
fn failed_query_has_no_answer() {
    let output: &[u8] = b"develop\n";
    assert_eq!(query_answer(true, true, output), Some(output));
    assert_eq!(query_answer(true, true, b""), Some(&b""[..]));
    assert_eq!(query_answer(true, false, output), None);
    assert_eq!(query_answer(false, true, output), None);
    assert_eq!(query_answer(false, false, output), None);
}

#[test]
fn slot_with_a_failed_query_is_unreachable() {
    let branch = query_answer(true, false, b"");
    let changes = query_answer(true, true, b"");
    let probe = get_status(true, branch, changes);
    assert_eq!(probe, None);
    assert_eq!(availability(&probe), Availability::Unreachable);
    let probe = get_status(true, query_answer(true, true, b"main\n"), query_answer(true, false, b""));
    assert_eq!(probe, None);
}

#[test]
fn missing_path_scenario_is_unreachable() {
    let probe = get_status(false, None, None);
    assert_eq!(probe, None);
    assert_eq!(availability(&probe), Availability::Unreachable);
}

#[test]
fn get_status_decodes_the_answers() {
    let branch: &[u8] = b"feature-x\n";
    let changes: &[u8] = b" M a\n?? b\n?? c\nA  d\n";
    assert_eq!(get_status(true, Some(branch), Some(changes)), Some(status("feature-x", 1, 1, 2)));
}

#[test]
fn get_status_replaces_invalid_bytes() {
    let branch: &[u8] = b"fix-\xff\n";
    let changes: &[u8] = b"\xff\xfe name\n";
    let found = get_status(true, Some(branch), Some(changes)).unwrap();
    assert_eq!(found.branch, "fix-\u{fffd}");
    assert_eq!((found.modified, found.staged, found.untracked), (1, 1, 0));
    let utf8: &[u8] = "caf\u{e9}\n".as_bytes();
    assert_eq!(get_status(true, Some(utf8), Some(b"")).unwrap().branch, "café");
}

#[test]
fn query_arguments_name_the_directory() {
    assert_eq!(Query::Branch.arguments("/tmp/slot"), vec!["-C", "/tmp/slot", "branch", "--show-current"]);
    assert_eq!(Query::Changes.arguments("/tmp/slot"), vec!["-C", "/tmp/slot", "status", "--porcelain"]);
}
