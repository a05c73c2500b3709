use nono_proxy::audit::{
    plan_rotation, rotated_file_name, LogFile, RotationStep, MAX_LOG_FILE_SIZE,
};
use std::collections::HashMap;

/// A log directory, by file name.
type Dir = HashMap<String, String>;

fn name(file: LogFile) -> String {
    match file {
        LogFile::Current => "network.jsonl".to_string(),
        LogFile::Rotated(i) => rotated_file_name(i),
    }
}

/// Carries a rotation out as a file system would.
fn rotate(dir: &mut Dir) {
    rotate_with_failures(dir, &[true; 4]);
}

/// Carries a rotation out, with only those steps succeeding that `done` says.
fn rotate_with_failures(dir: &mut Dir, done: &[bool]) {
    let size = dir.get("network.jsonl").map(|c| c.len() as u64);
    for (k, step) in plan_rotation(size, true).into_iter().enumerate() {
        if !done[k] {
            continue;
        }
        match step {
            RotationStep::Remove(file) => {
                dir.remove(&name(file));
            }
            RotationStep::Rename { from, to, .. } => {
                if let Some(content) = dir.remove(&name(from)) {
                    dir.insert(name(to), content);
                }
            }
        }
    }
}

fn dir(files: &[(&str, &str)]) -> Dir {
    files.iter().map(|(n, c)| (n.to_string(), c.to_string())).collect()
}

fn large_content() -> String {
    "x".repeat((MAX_LOG_FILE_SIZE as usize) + 1)
}

#[test]
fn rotation_triggers_when_file_exceeds_max_size() {
    let large_content = large_content();
    let mut dir = dir(&[("network.jsonl", &large_content)]);

    rotate(&mut dir);

    // Original should be gone, rotated to .1
    assert!(!dir.contains_key("network.jsonl"), "original file should be renamed");
    assert!(dir.contains_key("network.1.jsonl"), "rotated file should exist");
    assert_eq!(dir["network.1.jsonl"].len(), large_content.len());
}

#[test]
fn rotation_does_not_trigger_under_size_limit() {
    let mut dir = dir(&[("network.jsonl", "small content")]);

    rotate(&mut dir);

    assert!(dir.contains_key("network.jsonl"), "file should not be rotated");
    assert!(!dir.contains_key("network.1.jsonl"), "no rotated file should exist");
}

#[test]
fn rotation_shifts_existing_rotated_files() {
    let large_content = large_content();
    let mut dir = dir(&[
        ("network.1.jsonl", "old-1"),
        ("network.2.jsonl", "old-2"),
        ("network.jsonl", &large_content),
    ]);

    rotate(&mut dir);

    assert!(!dir.contains_key("network.jsonl"));
    assert_eq!(dir["network.1.jsonl"].len(), large_content.len());
    assert_eq!(dir["network.2.jsonl"], "old-1");
    assert_eq!(dir["network.3.jsonl"], "old-2");
}

#[test]
fn rotation_deletes_oldest_when_full() {
    let large_content = large_content();
    let mut dir = dir(&[
        ("network.1.jsonl", "old-1"),
        ("network.2.jsonl", "old-2"),
        ("network.3.jsonl", "old-3"),
        ("network.jsonl", &large_content),
    ]);

    rotate(&mut dir);

    // old-3 is gone, and old-2 has shifted into slot 3
    assert_eq!(dir["network.3.jsonl"], "old-2");
    assert_eq!(dir["network.2.jsonl"], "old-1");
    // Slot 1 now has the current log
    assert_eq!(dir["network.1.jsonl"].len(), large_content.len());
    assert_eq!(dir.len(), 3);
}

#[test]
fn rotation_deletes_oldest_where_nothing_moves_into_its_place() {
    let large_content = large_content();
    let mut dir = dir(&[
        ("network.1.jsonl", "old-1"),
        ("network.3.jsonl", "old-3"),
        ("network.4.jsonl", "foreign"),
        ("network.jsonl", &large_content),
    ]);

    rotate(&mut dir);

    assert_eq!(dir["network.1.jsonl"].len(), large_content.len());
    assert_eq!(dir["network.2.jsonl"], "old-1");
    assert!(!dir.contains_key("network.3.jsonl"));
    assert_eq!(dir["network.4.jsonl"], "foreign");
    assert_eq!(dir.len(), 3);
}

#[test]
fn a_failing_rotation_keeps_the_current_log() {
    let large_content = large_content();
    for failures in 0..16u32 {
        let done: Vec<bool> = (0..4).map(|k| failures & (1 << k) == 0).collect();
        let mut dir = dir(&[
            ("network.1.jsonl", "old-1"),
            ("network.2.jsonl", "old-2"),
            ("network.3.jsonl", "old-3"),
            ("network.4.jsonl", "foreign"),
            ("network.jsonl", &large_content),
        ]);

        rotate_with_failures(&mut dir, &done);

        let current = dir.get("network.jsonl") == Some(&large_content);
        let rotated = dir.get("network.1.jsonl") == Some(&large_content);
        assert!(current != rotated);
        assert_eq!(rotated, done[3]);
        assert_eq!(dir["network.4.jsonl"], "foreign");
        if let Some(second) = dir.get("network.2.jsonl") {
            assert!(second == "old-1" || second == "old-2");
        }
        if let Some(third) = dir.get("network.3.jsonl") {
            assert!(third == "old-2" || third == "old-3");
        }
    }
}

#[test]
fn rotation_plan_lists_the_steps_in_order() {
    let first = RotationStep::Remove(LogFile::Rotated(3));
    let shift = |from: u32| RotationStep::Rename {
        from: LogFile::Rotated(from),
        to: LogFile::Rotated(from + 1),
        only_if_present: true,
    };
    let last = RotationStep::Rename {
        from: LogFile::Current,
        to: LogFile::Rotated(1),
        only_if_present: false,
    };
    assert_eq!(plan_rotation(Some(10_485_761), true), vec![first, shift(2), shift(1), last]);
    assert_eq!(plan_rotation(Some(u64::MAX), true).len(), 4);
}

#[test]
fn rotation_needs_a_size_over_the_limit_and_a_parent() {
    assert!(plan_rotation(None, true).is_empty());
    assert!(plan_rotation(Some(0), true).is_empty());
    assert!(plan_rotation(Some(10_485_759), true).is_empty());
    assert!(plan_rotation(Some(10_485_760), true).is_empty());
    assert!(plan_rotation(Some(10_485_761), false).is_empty());
}

#[test]
fn rotated_files_are_named_by_number() {
    assert_eq!(rotated_file_name(1), "network.1.jsonl");
    assert_eq!(rotated_file_name(3), "network.3.jsonl");
    assert_eq!(rotated_file_name(0), "network.0.jsonl");
    assert_eq!(rotated_file_name(10), "network.10.jsonl");
    assert_eq!(rotated_file_name(u32::MAX), "network.4294967295.jsonl");
    for i in 0..20 {
        assert_ne!(rotated_file_name(i), "network.jsonl");
    }
}
