use liftoff::countdown::countdown_lines;
use liftoff::networks::{ssid_line, ssid_lines, ScanError};
use liftoff::run;

fn countdown() -> Vec<String> {
    vec![
        "3!".to_string(),
        "2!".to_string(),
        "1!".to_string(),
        "LIFTOFF!!!".to_string(),
    ]
}

#[test]
fn countdown_is_fixed() {
    assert_eq!(countdown_lines(), countdown());
}

#[test]
fn ssid_line_prefixes_identifier() {
    assert_eq!(ssid_line("HomeNet"), "SSID: HomeNet".to_string());
}

#[test]
fn ssid_line_keeps_identifier_verbatim() {
    // No trimming, case-folding or re-encoding of the identifier.
    assert_eq!(ssid_line(" MiXeD net "), "SSID:  MiXeD net ".to_string());
    assert_eq!(ssid_line(""), "SSID: ".to_string());
}

#[test]
fn ssid_lines_keep_order_and_duplicates() {
    let ssids = vec![
        "b".to_string(),
        "a".to_string(),
        "b".to_string(),
    ];
    let lines = ssid_lines(&ssids);
    assert_eq!(
        lines,
        vec![
            "SSID: b".to_string(),
            "SSID: a".to_string(),
            "SSID: b".to_string(),
        ]
    );
}

#[test]
fn empty_scan_lists_nothing() {
    let t = run(Ok(Vec::new()));
    assert!(t.success);
    assert_eq!(t.lines, countdown());
}

#[test]
fn each_network_gets_one_line() {
    let ssids = vec!["one".to_string(), "two".to_string(), "three".to_string()];
    let t = run(Ok(ssids));
    assert!(t.success);
    assert_eq!(t.lines.len(), countdown().len() + 3);
    assert_eq!(t.lines[4], "SSID: one".to_string());
    assert_eq!(t.lines[5], "SSID: two".to_string());
    assert_eq!(t.lines[6], "SSID: three".to_string());
}

#[test]
fn failed_scan_keeps_only_countdown() {
    let t = run(Err(ScanError {
        message: "no wireless interface".to_string(),
    }));
    assert!(!t.success);
    assert_eq!(t.lines, countdown());
}

#[test]
fn repeated_runs_match() {
    let ssids = vec!["HomeNet".to_string(), "CafeWiFi".to_string()];
    let first = run(Ok(ssids.clone()));
    let second = run(Ok(ssids));
    assert_eq!(first.lines, second.lines);
    assert_eq!(first.success, second.success);
}

#[test]
fn liftoff_example() {
    let ssids = vec!["HomeNet".to_string(), "CafeWiFi".to_string()];
    let t = run(Ok(ssids));
    assert!(t.success);
    assert_eq!(
        t.lines,
        vec![
            "3!".to_string(),
            "2!".to_string(),
            "1!".to_string(),
            "LIFTOFF!!!".to_string(),
            "SSID: HomeNet".to_string(),
            "SSID: CafeWiFi".to_string(),
        ]
    );
}
