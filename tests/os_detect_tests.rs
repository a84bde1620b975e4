use os_detect::os_detect::{OsDetector, OsDetectorError, OsInfo, Probe, Step};
use os_detect::text::{after_first_char, contains_str, same_text, split_lines, trim, trim_quotes};

fn ok(s: &str) -> Result<String, String> {
    Ok(s.to_string())
}

fn failed(s: &str) -> Result<String, String> {
    Err(s.to_string())
}

/// Runs one detection attempt, answering the queries with `answers` in order.
fn detect(
    detector: &mut OsDetector,
    tag: &str,
    answers: &[Result<String, String>],
) -> (Result<OsInfo, OsDetectorError>, Vec<Probe>) {
    let mut outcomes: Vec<Result<String, String>> = Vec::new();
    let mut asked = Vec::new();
    loop {
        match detector.get_os_info(tag, "x86_64", &outcomes) {
            Step::Run(p) => {
                asked.push(p);
                outcomes.push(answers[outcomes.len()].clone());
            }
            Step::Done(r) => return (r, asked),
        }
    }
}

fn linux_answers() -> Vec<Result<String, String>> {
    vec![
        ok("PRETTY_NAME=\"Ubuntu 22.04.3 LTS\"\nNAME=\"Ubuntu\"\nVERSION_ID=\"22.04\"\nVERSION=\"22.04\"\n"),
        ok("5.15.0-91-generic\n"),
    ]
}

#[test]
fn test_detector_creation() {
    let detector = OsDetector::new();
    assert!(detector.cached_info().is_none());
}

#[test]
fn test_os_info_caching() {
    let mut detector = OsDetector::new();

    let (first_result, _) = detect(&mut detector, "linux", &linux_answers());
    assert!(first_result.is_ok());
    assert!(detector.cached_info().is_some());

    let (second_result, asked) = detect(&mut detector, "linux", &[]);
    assert!(second_result.is_ok());
    assert!(asked.is_empty());

    assert_eq!(
        format!("{:?}", first_result.unwrap()),
        format!("{:?}", second_result.unwrap())
    );
}

#[test]
fn cached_result_ignores_later_inputs() {
    let mut detector = OsDetector::new();
    let (first, _) = detect(&mut detector, "linux", &linux_answers());
    let first = first.unwrap();
    let step = detector.get_os_info("freebsd", "arm", &vec![failed("gone")]);
    match step {
        Step::Done(Ok(info)) => {
            assert_eq!(info.name, first.name);
            assert_eq!(info.version, first.version);
            assert_eq!(info.architecture, first.architecture);
            assert_eq!(info.additional_info, first.additional_info);
        }
        other => panic!("expected the cached record, got {:?}", other),
    }
}

#[test]
fn dispatch_asks_only_the_platform_queries() {
    let mut d = OsDetector::new();
    let (_, asked) = detect(&mut d, "windows", &[ok("Microsoft Windows [Version 10.0.19045]\r\n"), ok("")]);
    assert_eq!(asked, vec![Probe::WindowsVersion, Probe::WindowsSystemInfo]);
    let mut d = OsDetector::new();
    let (_, asked) = detect(&mut d, "linux", &linux_answers());
    assert_eq!(asked, vec![Probe::OsRelease, Probe::KernelRelease]);
    let mut d = OsDetector::new();
    let (_, asked) = detect(&mut d, "macos", &[ok("14.2.1\n"), ok("23C71\n")]);
    assert_eq!(asked, vec![Probe::MacProductVersion, Probe::MacBuildVersion]);
}

#[test]
fn unsupported_platform_fails_closed() {
    let mut d = OsDetector::new();
    for _ in 0..2 {
        let (r, asked) = detect(&mut d, "freebsd", &[]);
        assert!(asked.is_empty());
        match r {
            Err(OsDetectorError::UnsupportedOs(tag)) => assert_eq!(tag, "freebsd"),
            other => panic!("expected UnsupportedOs, got {:?}", other),
        }
        assert!(d.cached_info().is_none());
    }
}

#[test]
fn failure_is_not_cached() {
    let mut d = OsDetector::new();
    let (r, _) = detect(&mut d, "linux", &[failed("No such file or directory (os error 2)")]);
    match r {
        Err(OsDetectorError::CommandFailed(m)) => assert_eq!(m, "No such file or directory (os error 2)"),
        other => panic!("expected CommandFailed, got {:?}", other),
    }
    assert!(d.cached_info().is_none());
    let (r, asked) = detect(&mut d, "linux", &linux_answers());
    assert!(r.is_ok());
    assert_eq!(asked.len(), 2);
    assert!(d.cached_info().is_some());
}

#[test]
fn linux_fields_extracted() {
    let d = OsDetector::new();
    let outcomes = linux_answers();
    match d.get_linux_info("x86_64", &outcomes) {
        Step::Done(Ok(info)) => {
            assert_eq!(info.name, "Ubuntu");
            assert_eq!(info.version, "22.04");
            assert_eq!(info.architecture, "x86_64");
            assert_eq!(info.additional_info, Some("5.15.0-91-generic".to_string()));
        }
        other => panic!("unexpected {:?}", other),
    }
}

#[test]
fn linux_missing_name_is_empty() {
    let d = OsDetector::new();
    let outcomes = vec![ok("ID=arch\nPRETTY_NAME=\"Arch Linux\"\n"), ok("")];
    match d.get_linux_info("aarch64", &outcomes) {
        Step::Done(Ok(info)) => {
            assert_eq!(info.name, "");
            assert_eq!(info.version, "");
            assert_eq!(info.additional_info, Some(String::new()));
        }
        other => panic!("unexpected {:?}", other),
    }
}

#[test]
fn linux_last_matching_line_wins() {
    let d = OsDetector::new();
    let outcomes = vec![ok("NAME=\"First\"\r\nNAME=Second\r\nVERSION=\"1 (x)\""), ok("  6.1\t\n")];
    match d.get_linux_info("x86_64", &outcomes) {
        Step::Done(Ok(info)) => {
            assert_eq!(info.name, "Second");
            assert_eq!(info.version, "1 (x)");
            assert_eq!(info.additional_info, Some("6.1".to_string()));
        }
        other => panic!("unexpected {:?}", other),
    }
}

#[test]
fn linux_kernel_failure() {
    let d = OsDetector::new();
    let outcomes = vec![ok("NAME=Debian\n"), failed("uname missing")];
    match d.get_linux_info("x86_64", &outcomes) {
        Step::Done(Err(OsDetectorError::CommandFailed(m))) => assert_eq!(m, "uname missing"),
        other => panic!("unexpected {:?}", other),
    }
}

#[test]
fn windows_build_extracted() {
    let d = OsDetector::new();
    let outcomes = vec![
        ok("Microsoft Windows [Version 10.0.19045.3803]\r\n"),
        ok("Host Name:                 PC\r\nOS Name:                   Microsoft Windows 10 Pro\r\nOS Build:               19045\r\n"),
    ];
    match d.get_windows_info("x86_64", &outcomes) {
        Step::Done(Ok(info)) => {
            assert_eq!(info.name, "Windows");
            assert_eq!(info.version, "Microsoft Windows [Version 10.0.19045.3803]");
            assert_eq!(info.additional_info, Some("Build: 19045".to_string()));
        }
        other => panic!("unexpected {:?}", other),
    }
}

#[test]
fn windows_missing_build_line_is_unknown() {
    let d = OsDetector::new();
    let outcomes = vec![ok("\r\nMicrosoft Windows [Version 10.0.22631]\r\n"), ok("Host Name: PC\r\n")];
    match d.get_windows_info("x86_64", &outcomes) {
        Step::Done(Ok(info)) => {
            assert_eq!(info.version, "");
            assert_eq!(info.additional_info, Some("Build: Unknown".to_string()));
        }
        other => panic!("unexpected {:?}", other),
    }
}

#[test]
fn windows_empty_version_is_parse_error() {
    let d = OsDetector::new();
    match d.get_windows_info("x86_64", &vec![ok("")]) {
        Step::Done(Err(OsDetectorError::ParseError(m))) => {
            assert_eq!(m, "Unable to read Windows version")
        }
        other => panic!("unexpected {:?}", other),
    }
}

#[test]
fn windows_launch_failures() {
    let d = OsDetector::new();
    match d.get_windows_info("x86_64", &vec![failed("not found")]) {
        Step::Done(Err(OsDetectorError::CommandFailed(m))) => assert_eq!(m, "not found"),
        other => panic!("unexpected {:?}", other),
    }
    match d.get_windows_info("x86_64", &vec![ok("ver\n"), failed("denied")]) {
        Step::Done(Err(OsDetectorError::CommandFailed(m))) => assert_eq!(m, "denied"),
        other => panic!("unexpected {:?}", other),
    }
}

#[test]
fn macos_info() {
    let d = OsDetector::new();
    match d.get_macos_info("aarch64", &vec![ok("14.2.1\n"), ok("23C71\n")]) {
        Step::Done(Ok(info)) => {
            assert_eq!(info.name, "macOS");
            assert_eq!(info.version, "14.2.1");
            assert_eq!(info.architecture, "aarch64");
            assert_eq!(info.additional_info, Some("Build: 23C71".to_string()));
        }
        other => panic!("unexpected {:?}", other),
    }
    match d.get_macos_info("aarch64", &vec![ok("14.2.1\n"), failed("sw_vers missing")]) {
        Step::Done(Err(OsDetectorError::CommandFailed(m))) => assert_eq!(m, "sw_vers missing"),
        other => panic!("unexpected {:?}", other),
    }
    assert!(matches!(d.get_macos_info("aarch64", &vec![]), Step::Run(Probe::MacProductVersion)));
}

#[test]
fn os_info_copy_equals_original() {
    let info = OsInfo::new(
        "macOS".to_string(),
        "14.2.1".to_string(),
        "aarch64".to_string(),
        Some("Build: 23C71".to_string()),
    );
    let copy = info.clone();
    assert_eq!(copy.name, info.name);
    assert_eq!(copy.version, info.version);
    assert_eq!(copy.architecture, info.architecture);
    assert_eq!(copy.additional_info, info.additional_info);
    let bare = OsInfo::new("a".to_string(), String::new(), "b".to_string(), None);
    assert_eq!(bare.clone().additional_info, None);
}

#[test]
fn error_messages() {
    assert_eq!(
        OsDetectorError::CommandFailed("x".to_string()).message(),
        "Command execution failed: x"
    );
    assert_eq!(
        OsDetectorError::UnsupportedOs("freebsd".to_string()).message(),
        "Unsupported operating system: freebsd"
    );
    assert_eq!(
        OsDetectorError::ParseError("y".to_string()).message(),
        "Failed to parse system information: y"
    );
}

#[test]
fn text_helpers() {
    assert_eq!(split_lines(""), Vec::<String>::new());
    assert_eq!(split_lines("\n"), vec![String::new()]);
    assert_eq!(split_lines("a\r\nb\rc\n\nd\r"), vec!["a", "b\rc", "", "d\r"]);
    assert_eq!(trim(" \t\u{3000}x y\u{a0}\n"), "x y");
    assert_eq!(trim(" \t "), "");
    assert_eq!(trim_quotes("\"\"q\"\""), "q");
    assert!(contains_str("OS Build: 1", "OS Build"));
    assert!(!contains_str("OS Buil", "OS Build"));
    assert_eq!(after_first_char("a: b: c", ':'), " b: c");
    assert_eq!(after_first_char("abc", ':'), "");
    assert!(same_text("linux", "linux"));
    assert!(!same_text("linux", "Linux"));
}

#[test]
fn default_detector_is_empty() {
    let detector = OsDetector::default();
    assert!(detector.cached_info().is_none());
}
