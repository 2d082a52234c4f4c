use mkfile::decide::{decide_path, file_content, PathDecision};
use mkfile::messages::{announce_message, done_message, exists_message, no_parent_message};
use mkfile::options::Options;
use mkfile::plan::{plan_run, RunPlan};

fn strings(items: &[&str]) -> Vec<String> {
    items.iter().map(|s| s.to_string()).collect()
}

fn plain() -> Options {
    Options {
        dry_run: false,
        verbose: false,
        create_parents: false,
        overwrite: false,
        default_text: None,
    }
}

#[test]
fn existing_target_skipped_without_overwrite() {
    let d = decide_path(&plain(), true, true);
    assert_eq!(d, PathDecision::SkipExists);
    assert_eq!(exists_message("x.txt"), "x.txt: Already exist");
}

#[test]
fn missing_parent_skipped_without_parents() {
    let d = decide_path(&plain(), false, false);
    assert_eq!(d, PathDecision::SkipNoParent);
    assert_eq!(no_parent_message("a/b.txt"), "a/b.txt: Parent does not exist");
}

#[test]
fn fresh_path_created() {
    let d = decide_path(&plain(), false, true);
    assert_eq!(d, PathDecision::Create { replace: false, make_parent: false });
}

#[test]
fn existing_target_replaced_with_overwrite() {
    let mut o = plain();
    o.overwrite = true;
    let d = decide_path(&o, true, true);
    assert_eq!(d, PathDecision::Create { replace: true, make_parent: false });
    assert_eq!(done_message("x.txt", true, false), "x.txt: Overwritten ");
}

#[test]
fn dry_run_only_announces() {
    let mut o = plain();
    o.dry_run = true;
    o.overwrite = true;
    o.create_parents = true;
    let d = decide_path(&o, true, false);
    assert_eq!(d, PathDecision::Announce { replace: true, with_parent: true });
    assert_eq!(
        announce_message("x.txt", true, true),
        "x.txt: To be overwritten with parent"
    );
    assert_eq!(announce_message("x.txt", false, false), "x.txt: To be created ");
}

#[test]
fn second_identical_run_skips_created_file() {
    let o = plain();
    let first = decide_path(&o, false, true);
    assert_eq!(first, PathDecision::Create { replace: false, make_parent: false });
    let second = decide_path(&o, true, true);
    assert_eq!(second, PathDecision::SkipExists);
}

#[test]
fn content_empty_without_default_text() {
    assert_eq!(file_content(&plain()), "");
}

#[test]
fn content_is_text_plus_newline() {
    let args = strings(&["-T", "hello", "x.txt"]);
    match plan_run(&args) {
        RunPlan::Process(o, paths) => {
            assert_eq!(paths, strings(&["x.txt"]));
            let d = decide_path(&o, false, true);
            assert_eq!(d, PathDecision::Create { replace: false, make_parent: false });
            assert_eq!(file_content(&o), "hello\n");
        }
        other => panic!("unexpected plan: {:?}", other),
    }
}

#[test]
fn verbose_parent_creation_scenario() {
    let args = strings(&["-v", "-p", "a/b/c.txt"]);
    match plan_run(&args) {
        RunPlan::Process(o, paths) => {
            assert!(o.verbose);
            assert!(o.create_parents);
            assert_eq!(paths, strings(&["a/b/c.txt"]));
            let d = decide_path(&o, false, false);
            assert_eq!(d, PathDecision::Create { replace: false, make_parent: true });
            assert_eq!(file_content(&o), "");
            assert_eq!(
                done_message("a/b/c.txt", false, true),
                "a/b/c.txt: Created with parent"
            );
        }
        other => panic!("unexpected plan: {:?}", other),
    }
}

#[test]
fn created_message_without_parent_keeps_trailing_space() {
    assert_eq!(done_message("x.txt", false, false), "x.txt: Created ");
}
