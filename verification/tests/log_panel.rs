use changqiao::widgets::log_panel::{
    is_log_file_name, latest_log_file, names_log_file, read_last_lines, LogFileStamp, LogPanel,
};

#[test]
fn recognizes_expected_log_file_name() {
    assert!(is_log_file_name("changqiao.log"));
    assert!(is_log_file_name("longbridge.2026-02-13.log"));
    assert!(!is_log_file_name("changqiao.txt"));
    assert!(!is_log_file_name("random.log"));
}

#[test]
fn accepts_expected_log_filenames() {
    assert!(is_log_file_name("changqiao.log"));
    assert!(is_log_file_name("changqiao.2026-02-12.log"));
    assert!(is_log_file_name("longbridge.log"));
    assert!(!is_log_file_name("changqiao.txt"));
    assert!(!is_log_file_name("other.log"));
}

#[test]
fn log_extension_ignores_case() {
    assert!(names_log_file("changqiao.LOG", Some("LOG")));
    assert!(names_log_file("longbridge.Log", Some("Log")));
    assert!(!names_log_file("changqiao.logs", Some("logs")));
    assert!(!names_log_file("changqiao", None));
    assert!(!names_log_file("other.log", Some("log")));
    assert!(is_log_file_name("changqiao.LOG"));
    assert!(!is_log_file_name("changqiao"));
}

#[test]
fn reads_last_lines_from_log_file() {
    let lines: Vec<String> = "line1\nline2\nline3\nline4\nline5\n"
        .lines()
        .map(|l| l.to_string())
        .collect();
    let lines = read_last_lines(lines, 2);
    assert_eq!(lines, vec!["line4".to_string(), "line5".to_string()]);
}

#[test]
fn last_lines_keep_at_least_one() {
    let lines = vec!["a".to_string(), "b".to_string()];
    assert_eq!(read_last_lines(lines.clone(), 0), vec!["b".to_string()]);
    assert_eq!(read_last_lines(lines.clone(), 2), lines);
    assert_eq!(read_last_lines(lines.clone(), 9), lines);
    assert_eq!(read_last_lines(Vec::new(), 3), Vec::<String>::new());
}

fn stamp(path: &str, modified: Option<u64>, size: u64) -> LogFileStamp {
    LogFileStamp { path: path.to_string(), modified, size }
}

#[test]
fn panel_reloads_only_what_changed() {
    let mut panel = LogPanel::new();
    assert!(!panel.is_visible());
    assert!(panel.lines().is_empty());
    assert!(panel.toggle());
    assert!(panel.is_visible());
    assert!(panel.is_outdated(&stamp("a.log", Some(1), 10)));

    let lines: Vec<String> = (0..150).map(|i| format!("line {i}")).collect();
    panel.refresh(Some((stamp("a.log", Some(1), 10), lines)));
    assert_eq!(panel.lines().len(), 100);
    assert_eq!(panel.lines()[0], "line 50");
    assert_eq!(panel.lines()[99], "line 149");
    assert!(panel.is_visible());
    assert!(!panel.is_outdated(&stamp("a.log", Some(1), 10)));
    assert!(panel.is_outdated(&stamp("a.log", Some(2), 10)));
    assert!(panel.is_outdated(&stamp("a.log", Some(1), 11)));
    assert!(panel.is_outdated(&stamp("b.log", Some(1), 10)));
    assert!(panel.is_outdated(&stamp("a.log", None, 10)));

    panel.refresh(None);
    assert!(panel.lines().is_empty());
    assert!(panel.is_outdated(&stamp("a.log", Some(1), 10)));
    assert!(!panel.set_visible(false));
    assert!(!panel.is_visible());
    assert!(!panel.toggle() == false);
}

#[test]
fn the_newest_log_file_is_the_first_with_the_latest_time() {
    assert_eq!(latest_log_file(&Vec::new()), None);
    assert_eq!(latest_log_file(&vec![stamp("a", None, 0)]), Some(0));
    let files = vec![
        stamp("a", Some(5), 0),
        stamp("b", None, 0),
        stamp("c", Some(9), 0),
        stamp("d", Some(9), 0),
        stamp("e", Some(1), 0),
    ];
    assert_eq!(latest_log_file(&files), Some(2));
    let unknown = vec![stamp("a", None, 0), stamp("b", None, 0)];
    assert_eq!(latest_log_file(&unknown), Some(0));
    let late = vec![stamp("a", None, 0), stamp("b", Some(0), 0)];
    assert_eq!(latest_log_file(&late), Some(1));
}
