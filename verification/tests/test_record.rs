use evolution_board::test_record::{
    manifest_counts, manifest_summary_counts, newest_first, result_word, run_stamp, test_dir, ManifestCounts, TestSummary,
};
use evolution_board::time::Timestamp;

fn summary(name: &str, timestamp: &str) -> TestSummary {
    TestSummary {
        dir_name: name.into(),
        timestamp: timestamp.into(),
        task: String::new(),
        result: "success".into(),
        duration_ms: 1,
    }
}

#[test]
fn run_stamps() {
    let t = Timestamp::from_micros(1_704_067_205_000_000).unwrap();
    let s = run_stamp(t);
    assert_eq!(s.dir_name, "2024-01-01-000005");
    assert_eq!(s.timestamp, "2024-01-01T00:00:05+00:00");
    assert_eq!(result_word(true), "success");
    assert_eq!(result_word(false), "failed");
    assert_eq!(test_dir("/r", "2024-01-01-000005"), "/r/tests/2024-01-01-000005");
}

#[test]
fn manifest_summary_defaults_and_truncation() {
    let c = manifest_counts(Some("fork"), Some(300), None, Some(7), Some(vec![Some("a".into()), None, Some("b".into())]));
    assert_eq!(c.work_mode, "fork");
    assert_eq!(c.reasoning_branches, 44);
    assert_eq!(c.domain_diversity, 0);
    assert_eq!(c.estimated_nodes, 7);
    assert_eq!(c.domain_tags, vec!["a", "b"]);
    let d = manifest_counts(None, None, None, None, None);
    assert_eq!(d.work_mode, "unknown");
    assert!(d.domain_tags.is_empty());
    let e = ManifestCounts::default();
    assert_eq!(e.work_mode, "unknown");
    assert_eq!(e.estimated_nodes, 0);
}

#[test]
fn listing_is_newest_first() {
    let r = newest_first(vec![
        summary("b", "2024-01-02T00:00:00+00:00"),
        summary("a", "2024-01-01T00:00:00+00:00"),
        summary("c", "2024-01-03T00:00:00+00:00"),
    ]);
    let names: Vec<&str> = r.iter().map(|s| s.dir_name.as_str()).collect();
    assert_eq!(names, vec!["c", "b", "a"]);
    assert!(newest_first(Vec::new()).is_empty());
}

#[test]
fn summary_of_plan_text() {
    let json = r#"{"work_mode":"Fork","complexity":{"reasoning_branches":3,"domain_diversity":258},"dispatch":{"estimated_nodes":5,"domain_tags":["db",1,"ui"]}}"#;
    let c = manifest_summary_counts(json);
    assert_eq!(c.work_mode, "Fork");
    assert_eq!(c.reasoning_branches, 3);
    assert_eq!(c.domain_diversity, 2);
    assert_eq!(c.estimated_nodes, 5);
    assert_eq!(c.domain_tags, vec!["db", "ui"]);
    let d = manifest_summary_counts("not json");
    assert_eq!(d.work_mode, "unknown");
    assert_eq!(d.estimated_nodes, 0);
    let e = manifest_summary_counts("{}");
    assert_eq!(e.work_mode, "unknown");
    assert!(e.domain_tags.is_empty());
}
