use scanhub::executor::{
    driver_arguments, mock_status, parse_parameters, plan_mock_scan, DriverRun, MockAction,
    RunStep, MAX_ATTEMPTS,
};
use scanhub::scans::{
    common_group, keys_are_unique, normalize_rotation, Scan, ScanDivider, ScanError, ScanGroup, ScanStatus,
};

fn run(exits: &[Option<i32>]) -> (u32, Option<ScanStatus>) {
    let mut r = DriverRun::new();
    let mut last = None;
    for e in exits {
        if r.done {
            break;
        }
        match r.record_attempt(*e) {
            RunStep::Retry => {}
            RunStep::Finish(s) => last = Some(s),
        }
    }
    (r.attempts, last)
}

fn params(v: &[(&str, &str)]) -> Vec<(String, String)> {
    v.iter().map(|(k, x)| (k.to_string(), x.to_string())).collect()
}

#[test]
fn failing_driver_fails_after_three_attempts() {
    let mut r = DriverRun::new();
    assert_eq!(r.record_attempt(Some(1)), RunStep::Retry);
    assert_eq!(r.record_attempt(Some(1)), RunStep::Retry);
    assert_eq!(r.record_attempt(Some(1)), RunStep::Finish(ScanStatus::Failed));
    assert_eq!(r.attempts, 3);
    assert_eq!(MAX_ATTEMPTS, 3);
    assert!(r.done);
}

#[test]
fn driver_failing_twice_then_succeeding_completes() {
    assert_eq!(run(&[Some(2), Some(2), Some(0)]), (3, Some(ScanStatus::Complete)));
}

#[test]
fn driver_success_first_time_completes_at_once() {
    assert_eq!(run(&[Some(0), Some(1), Some(1)]), (1, Some(ScanStatus::Complete)));
}

#[test]
fn spawn_failure_counts_as_failed_attempt() {
    assert_eq!(run(&[None, None, None, Some(0)]), (3, Some(ScanStatus::Failed)));
    assert_eq!(run(&[None, Some(0)]), (2, Some(ScanStatus::Complete)));
}

#[test]
fn driver_arguments_layout() {
    let p = params(&[("--resolution", "300"), ("--mode", "Color")]);
    let args = driver_arguments("pixma:1", &p, "./assets/scans/5.png");
    assert_eq!(
        args,
        vec![
            "--format", "png", "-d", "pixma:1", "--resolution", "300", "--mode", "Color", "-o",
            "./assets/scans/5.png"
        ]
    );
    let none = driver_arguments("d", &Vec::new(), "o.png");
    assert_eq!(none, vec!["--format", "png", "-d", "d", "-o", "o.png"]);
}

#[test]
fn mock_plan_choices() {
    assert!(matches!(plan_mock_scan(None), MockAction::CreateEmpty));
    assert!(matches!(plan_mock_scan(Some(Vec::new())), MockAction::CreateEmpty));
    let samples = vec!["a.png".to_string(), "b.png".to_string()];
    match plan_mock_scan(Some(samples.clone())) {
        MockAction::CopySample(s) => assert!(samples.contains(&s)),
        MockAction::CreateEmpty => panic!("a sample was expected"),
    }
    assert_eq!(mock_status(true), ScanStatus::Complete);
    assert_eq!(mock_status(false), ScanStatus::Failed);
}

#[test]
fn parameters_from_json() {
    let dup = parse_parameters("{\"--mode\":\"Gray\",\"--mode\":\"Color\"}").unwrap();
    assert_eq!(dup, params(&[("--mode", "Color")]));
    assert!(keys_are_unique(&dup));
    let mut p = parse_parameters("{\"--mode\":\"Color\",\"--resolution\":\"300\"}").unwrap();
    p.sort();
    assert_eq!(p, params(&[("--mode", "Color"), ("--resolution", "300")]));
    assert_eq!(parse_parameters("{}").unwrap(), Vec::new());
    assert_eq!(parse_parameters("[1, 2]"), Err(ScanError::BadParameters));
    assert_eq!(parse_parameters("not json"), Err(ScanError::BadParameters));
}

#[test]
fn status_text_round_trip() {
    for s in [ScanStatus::Pending, ScanStatus::Complete, ScanStatus::Failed] {
        assert_eq!(ScanStatus::from_text(&s.as_str().to_string()), Some(s));
    }
    assert_eq!(ScanStatus::Pending.as_str(), "PENDING");
    assert_eq!(ScanStatus::Complete.as_str(), "COMPLETE");
    assert_eq!(ScanStatus::Failed.as_str(), "FAILED");
    assert_eq!(ScanStatus::from_text(&"pending".to_string()), None);
}

#[test]
fn new_scan_is_pending_with_placeholder() {
    let s = Scan::pending("mock:scanner".to_string(), Vec::new(), 17);
    assert_eq!(s.id, None);
    assert_eq!(s.status, ScanStatus::Pending);
    assert_eq!(s.path.as_relative_path(), "scans/tmp.png");
    assert!(s.original_path.is_none());
    assert_eq!(s.rotation, 0);
    assert_eq!(s.scanned_at, 17);
}

#[test]
fn first_mock_scan_end_to_end() {
    let mut s = Scan::pending("mock:scanner".to_string(), Vec::new(), 0);
    s.id = Some(1);
    s.prepare_output(1, &Vec::new());
    assert!(matches!(plan_mock_scan(None), MockAction::CreateEmpty));
    s.finish(mock_status(true));
    assert_eq!(s.status, ScanStatus::Complete);
    assert_eq!(s.path.as_relative_path(), "scans/1.png");
    assert_eq!(s.original_path.as_ref().unwrap().as_relative_path(), "scans/1.png");
}

#[test]
fn retry_of_complete_job_takes_next_suffix() {
    let mut s = Scan::pending("mock:scanner".to_string(), Vec::new(), 0);
    s.id = Some(5);
    s.prepare_output(5, &Vec::new());
    s.finish(ScanStatus::Complete);
    assert_eq!(s.path.as_relative_path(), "scans/5.png");

    s.reset_for_retry("pixma:1".to_string(), params(&[("--mode", "Gray")]));
    assert_eq!(s.status, ScanStatus::Pending);
    assert_eq!(s.scanner, "pixma:1");
    s.prepare_output(5, &vec!["5.png".to_string()]);
    assert_eq!(s.path.as_relative_path(), "scans/5_1.png");
    assert_eq!(s.original_path.as_ref().unwrap().as_relative_path(), "scans/5.png");
    s.finish(ScanStatus::Failed);
    assert_eq!(s.status, ScanStatus::Failed);
    assert_eq!(s.id, Some(5));
}

#[test]
fn rescan_base_comes_from_original_path() {
    let mut s = Scan::pending("x".to_string(), Vec::new(), 0);
    s.id = Some(9);
    s.original_path = Some("scans/3.png".to_string().into());
    assert_eq!(s.output_base_name(9), "3");
    s.prepare_output(9, &vec!["3.png".to_string(), "3_1.png".to_string()]);
    assert_eq!(s.path.as_relative_path(), "scans/3_2.png");
    assert_eq!(s.original_path.as_ref().unwrap().as_relative_path(), "scans/3.png");
}

#[test]
fn rotation_is_normalized() {
    assert_eq!(normalize_rotation(0), 0);
    assert_eq!(normalize_rotation(90), 90);
    assert_eq!(normalize_rotation(360), 0);
    assert_eq!(normalize_rotation(450), 90);
    assert_eq!(normalize_rotation(-90), 270);
    assert_eq!(normalize_rotation(-720), 0);
    assert_eq!(normalize_rotation(i32::MIN), i32::MIN.rem_euclid(360) / 90 * 90);
    assert_eq!(normalize_rotation(270), 270);
    assert_eq!(normalize_rotation(45), 0);
    assert_eq!(normalize_rotation(135), 90);
    assert_eq!(normalize_rotation(-45), 270);
    assert_eq!(normalize_rotation(359), 270);
    let mut s = Scan::pending("x".to_string(), Vec::new(), 0);
    s.rotate(-180);
    assert_eq!(s.rotation, 180);
    s.rotate(100);
    assert_eq!(s.rotation, 90);
}

#[test]
fn duplicate_option_names_are_detected() {
    assert!(keys_are_unique(&Vec::new()));
    assert!(keys_are_unique(&params(&[("a", "1"), ("b", "1")])));
    assert!(!keys_are_unique(&params(&[("a", "1"), ("b", "2"), ("a", "3")])));
}

#[test]
fn common_group_of_scans() {
    assert_eq!(common_group(&Vec::new()), None);
    assert_eq!(common_group(&vec![Some(3), Some(3)]), Some(3));
    assert_eq!(common_group(&vec![Some(3), Some(4)]), None);
    assert_eq!(common_group(&vec![Some(3), None]), None);
    assert_eq!(common_group(&vec![None, None]), None);
}

#[test]
fn set_group_needs_stored_scan() {
    let g = ScanGroup::create("Batch".to_string(), "scanning".to_string());
    let mut s = Scan::pending("x".to_string(), Vec::new(), 0);
    assert_eq!(s.set_group(g.clone()), Err(ScanError::NotSaved));
    assert!(s.group.is_none());
    s.id = Some(2);
    assert_eq!(s.set_group(g), Ok(()));
    assert_eq!(s.group.as_ref().unwrap().title, "Batch");
}

#[test]
fn group_create_and_update() {
    let mut g = ScanGroup::create("Batch".to_string(), "scanning".to_string());
    assert_eq!(g.id, 0);
    assert!(g.is_new());
    assert_eq!(g.created_at, g.updated_at);
    assert!(g.comment.is_empty());
    assert!(g.tags.is_empty());
    g.apply_update(None, Some("finalized".to_string()), Some("ok".to_string()), None);
    assert_eq!(g.title, "Batch");
    assert_eq!(g.status, "finalized");
    assert_eq!(g.comment, "ok");
    g.apply_update(Some("T".to_string()), None, None, Some(vec!["a".to_string()]));
    assert_eq!(g.title, "T");
    assert_eq!(g.tags, vec!["a".to_string()]);
    g.touch(99);
    assert_eq!(g.updated_at, 99);
}

#[test]
fn divider_starts_unsaved() {
    let d = ScanDivider::new(42);
    assert_eq!(d.id, None);
    assert_eq!(d.ts, 42);
}
