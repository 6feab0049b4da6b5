use renegade_x_launcher::decimal::u64_to_decimal;
use renegade_x_launcher::game::{
    exit_report, failure_message, game_arguments, game_executable, ExitReport, Failure, LaunchInfo,
    Program, REDIST_FILE_NAME, REDIST_MIRROR_PATH,
};
use renegade_x_launcher::ping::{
    build_echo_request, internet_checksum, is_echo_reply, new_echo_request,
};
use renegade_x_launcher::progress::{
    progress_json, unit_label, DownloadMonitor, ProgressSnapshot,
};
use renegade_x_launcher::request::{prepare_request, user_agent, RequestError, SERVER_LIST_URI};
use renegade_x_launcher::update::{
    checked_update_status, digest_matches, known_update_status, launcher_outdated,
    launcher_update_offer, launcher_update_source, release_is_trusted, self_update_args,
    LauncherInfo, SourceError, UpdateState, SELF_UPDATE_EXECUTABLE, UNVERSIONED_REMOVED,
    UPDATE_EXTRACT_DIR,
};

fn template(id_hi: u8, id_lo: u8) -> Vec<u8> {
    let mut t = vec![
        0x08, 0x00, 0x00, 0x00, id_hi, id_lo, 0x00, 0x01, 0x02, 0x59, 0x9d, 0x5c, 0x00, 0x00, 0x00,
        0x00, 0x98, 0x61, 0x0c, 0x00, 0x00, 0x00, 0x00, 0x00,
    ];
    t.extend(0x10u8..0x38u8);
    t
}

#[test]
fn decimal_text_of_numbers() {
    assert_eq!(u64_to_decimal(0), "0");
    assert_eq!(u64_to_decimal(7), "7");
    assert_eq!(u64_to_decimal(10), "10");
    assert_eq!(u64_to_decimal(1234567890), "1234567890");
    assert_eq!(u64_to_decimal(u64::MAX), u64::MAX.to_string());
}

#[test]
fn checksum_of_known_words() {
    // 0x0001 + 0xf203 + 0xf4f5 + 0xf6f7 = 0x2ddf0, folded 0xddf2, complement 0x220d.
    assert_eq!(internet_checksum(&[0x00, 0x01, 0xf2, 0x03, 0xf4, 0xf5, 0xf6, 0xf7]), 0x220d);
    assert_eq!(internet_checksum(&[]), 0xffff);
    assert_eq!(internet_checksum(&[0xff, 0xff]), 0x0000);
}

#[test]
fn echo_request_has_its_checksum() {
    let packet = build_echo_request(0x12, 0x34);
    let mut expected = template(0x12, 0x34);
    expected[2] = 0xe2;
    expected[3] = 0xe0;
    assert_eq!(packet, expected);
    let packet = build_echo_request(0, 0);
    assert_eq!(packet[2], 0xf5);
    assert_eq!(packet[3], 0x14);
}

#[test]
fn finished_echo_request_verifies() {
    for (hi, lo) in [(0u8, 0u8), (0x12, 0x34), (0xff, 0xff), (0x80, 0x01)] {
        let packet = build_echo_request(hi, lo);
        assert_eq!(packet.len(), 64);
        assert_eq!(internet_checksum(&packet), 0);
    }
    let packet = new_echo_request();
    assert_eq!(packet.len(), 64);
    assert_eq!(internet_checksum(&packet), 0);
    let mut expected = template(packet[4], packet[5]);
    expected[2] = packet[2];
    expected[3] = packet[3];
    assert_eq!(packet, expected);
}

#[test]
fn genuine_reply_is_recognised() {
    let request = build_echo_request(1, 2);
    let mut reply = vec![0x45u8; 20];
    let mut header = request[..16].to_vec();
    header[0] = 0;
    reply.extend(header);
    reply.extend_from_slice(&request[16..]);
    reply.resize(100, 0);
    assert!(is_echo_reply(true, &reply, &request));
    assert!(!is_echo_reply(false, &reply, &request));
    reply[50] ^= 1;
    assert!(!is_echo_reply(true, &reply, &request));
    assert!(!is_echo_reply(true, &[0u8; 100], &request));
}

#[test]
fn speed_units() {
    assert_eq!(unit_label(1), "KB");
    assert_eq!(unit_label(0), "B");
    assert_eq!(unit_label(2), "MB");
    assert_eq!(unit_label(6), "EB");
    assert_eq!(unit_label(8), "YB");
}

#[test]
fn progress_report_text() {
    let p = ProgressSnapshot {
        hashes_checked: (3, 10),
        download_size: (2048, 4096),
        patch_files: (0, 7),
        finished_patching: false,
    };
    assert_eq!(
        progress_json(&p, "4.00 KB/s"),
        "{\"hash\": [3,10],\"download\": [2048.0,4096.0],\"patch\": [0,7],\"download_speed\": \"4.00 KB/s\"}"
    );
}

#[test]
fn monitor_reports_rates_until_finished() {
    let mut m = DownloadMonitor::new();
    assert!(m.is_running());
    let sizes = [(100u64, false), (1124, false), (1124, false), (5000, true)];
    let mut total = 0u64;
    for (size, finished) in sizes {
        let p = ProgressSnapshot {
            hashes_checked: (0, 0),
            download_size: (size, 5000),
            patch_files: (0, 0),
            finished_patching: finished,
        };
        total += m.observe(&p);
        assert_eq!(m.last_download_size, size);
    }
    assert!(!m.is_running());
    assert_eq!(total, 2 * 5000);
}

#[test]
fn update_status_words() {
    assert_eq!(known_update_status(UpdateState::UpToDate), Some("up_to_date"));
    assert_eq!(known_update_status(UpdateState::Full), Some("full"));
    assert_eq!(known_update_status(UpdateState::Resume), Some("resume"));
    assert_eq!(known_update_status(UpdateState::Delta), Some("update"));
    assert_eq!(known_update_status(UpdateState::Unknown), None);
    assert_eq!(checked_update_status(UpdateState::Delta), Some("patch"));
    assert_eq!(checked_update_status(UpdateState::UpToDate), Some("up_to_date"));
    assert_eq!(checked_update_status(UpdateState::Unknown), None);
}

fn info(version: &str, prompted: bool) -> LauncherInfo {
    LauncherInfo {
        version_name: version.to_string(),
        prompted,
        patch_url: "http://example.invalid/launcher.zip".to_string(),
        patch_hash: String::new(),
    }
}

#[test]
fn launcher_update_is_offered_once() {
    assert_eq!(launcher_update_offer("0.8.1", &info("0.9.0", false)), Some("0.9.0".to_string()));
    assert_eq!(launcher_update_offer("0.8.1", &info("0.9.0", true)), None);
    assert_eq!(launcher_update_offer("0.9.0", &info("0.9.0", false)), None);
    assert!(launcher_outdated("0.8.1", &info("0.9.0", true)));
    assert!(!launcher_outdated("0.9.0", &info("0.9.0", false)));
}

#[test]
fn release_hash_check() {
    let abc_hash = "BA7816BF8F01CFEA414140DE5DAE2223B00361A396177A9CB410FF61F20015AD";
    assert!(release_is_trusted(b"abc", abc_hash));
    assert!(!release_is_trusted(b"abd", abc_hash));
    assert!(!release_is_trusted(b"abc", &abc_hash.to_lowercase()));
    assert!(release_is_trusted(b"anything", ""));
    assert!(digest_matches(&[0xbe, 0xef, 0x01], "BEEF01"));
    assert!(!digest_matches(&[0xbe, 0xef, 0x01], "beef01"));
    assert!(digest_matches(&[], ""));
}

#[test]
fn self_update_arguments() {
    assert_eq!(
        self_update_args(4242, "C:/Games/Launcher"),
        vec!["--pid=4242".to_string(), "--target=C:/Games/Launcher".to_string()]
    );
}

#[test]
fn game_command_line() {
    assert_eq!(game_executable("C:/RenX", "64"), "C:/RenX/Binaries/Win64/UDK.exe");
    let li = LaunchInfo {
        player_name: "Havoc".to_string(),
        startup_movie_disabled: true,
        bit_version: "64".to_string(),
    };
    assert_eq!(
        game_arguments("1.2.3.4:7777", &li),
        vec![
            "1.2.3.4:7777".to_string(),
            "-ini:UDKGame:DefaultPlayer.Name=Havoc".to_string(),
            "-nomoviestartup".to_string(),
            "-UseAllAvailableCores".to_string(),
        ]
    );
    let li = LaunchInfo { startup_movie_disabled: false, ..li };
    assert_eq!(
        game_arguments("", &li),
        vec![
            "-ini:UDKGame:DefaultPlayer.Name=Havoc".to_string(),
            "-UseAllAvailableCores".to_string(),
        ]
    );
}

#[test]
fn exit_reports() {
    assert!(matches!(exit_report(Program::Game, true, Some(0)), ExitReport::Done));
    assert!(matches!(exit_report(Program::Game, false, None), ExitReport::NoExitCode));
    match exit_report(Program::Game, false, Some(-1073741819)) {
        ExitReport::Crashed(m) => assert_eq!(m, "The game exited in a crash: -1073741819"),
        other => panic!("unexpected {:?}", other),
    }
    match exit_report(Program::RedistInstaller, false, Some(i32::MIN)) {
        ExitReport::Crashed(m) => assert_eq!(m, "UE3Redist.exe exited in a crash: -2147483648"),
        other => panic!("unexpected {:?}", other),
    }
    match exit_report(Program::RedistInstaller, false, Some(3)) {
        ExitReport::Crashed(m) => assert_eq!(m, "UE3Redist.exe exited in a crash: 3"),
        other => panic!("unexpected {:?}", other),
    }
}

#[test]
fn failure_messages() {
    assert_eq!(failure_message(Failure::GameStart, "not found"), "Failed to open game: not found");
    assert_eq!(
        failure_message(Failure::RedistDownload, "timeout"),
        "Failed to download UE3Redist: timeout"
    );
    assert_eq!(failure_message(Failure::RedistWait, "x"), "Failed to wait for UE3Redist: x");
    assert_eq!(
        failure_message(Failure::RedistStart, "denied"),
        "Failed to open UE3 Redistributables: denied"
    );
}

#[test]
fn request_preparation() {
    assert_eq!(user_agent("0.9.0"), "RenX-Launcher (0.9.0)");
    assert!(SERVER_LIST_URI.starts_with("https://serverlist.renegade-x.com/"));
    let req = prepare_request(
        Some("https://example.invalid/news".to_string()),
        vec![
            (Some("Accept".to_string()), Some("text/plain".to_string())),
            (Some("User-Agent".to_string()), Some("other".to_string())),
        ],
        "0.9.0",
    )
    .unwrap();
    assert_eq!(req.uri, "https://example.invalid/news");
    assert_eq!(
        req.headers,
        vec![
            ("Accept".to_string(), "text/plain".to_string()),
            ("User-Agent".to_string(), "other".to_string()),
            ("User-Agent".to_string(), "RenX-Launcher (0.9.0)".to_string()),
        ]
    );
}

#[test]
fn request_errors_in_order() {
    let err = prepare_request(
        None,
        vec![(Some("A".to_string()), None), (None, Some("b".to_string()))],
        "1",
    )
    .err()
    .unwrap();
    assert_eq!(err, RequestError::MissingHeaderValue);
    assert_eq!(err.message(), "header value was empty.");
    let err = prepare_request(None, vec![(None, None)], "1").err().unwrap();
    assert_eq!(err, RequestError::MissingHeaderKey);
    assert_eq!(err.message(), "Key value was empty.");
    let err = prepare_request(None, vec![], "1").err().unwrap();
    assert_eq!(err, RequestError::MissingUrl);
    assert_eq!(err.message(), "Couldn't parse url as string.");
}

fn pair(k: &str, v: &str) -> (Option<String>, Option<String>) {
    (Some(k.to_string()), Some(v.to_string()))
}

#[test]
fn request_rejects_invalid_parts() {
    let url = || Some("https://example.invalid/x".to_string());
    let err = prepare_request(url(), vec![pair("bad name", "v"), (None, None)], "1").err().unwrap();
    assert_eq!(err, RequestError::InvalidHeaderName);
    assert_eq!(err.message(), "invalid HTTP header name");
    let err = prepare_request(url(), vec![pair("X-Ok", "a\nb")], "1").err().unwrap();
    assert_eq!(err, RequestError::InvalidHeaderValue);
    assert_eq!(err.message(), "failed to parse header value");
    let err = prepare_request(url(), vec![(Some("X-Ok".to_string()), None)], "1").err().unwrap();
    assert_eq!(err, RequestError::MissingHeaderValue);
    let err = prepare_request(url(), vec![], "1\u{7f}").err().unwrap();
    assert_eq!(err, RequestError::InvalidHeaderValue);
    let err = prepare_request(Some("http://exa mple.invalid/".to_string()), vec![pair("X-Ok", "v")], "1")
        .err()
        .unwrap();
    assert_eq!(err, RequestError::InvalidUri);
    assert_eq!(err.message(), "invalid URI");
    let err = prepare_request(None, vec![pair("X-Ok", "v")], "1\n").err().unwrap();
    assert_eq!(err, RequestError::InvalidHeaderValue);
}

#[test]
fn header_name_characters() {
    let url = || Some("https://example.invalid/x".to_string());
    for name in ["X-Ok", "\"quoted\"", "a!#$%&'*+-.^_`|~9Z"] {
        assert!(prepare_request(url(), vec![pair(name, "v")], "1").is_ok(), "{}", name);
    }
    for name in ["", "a:b", "a(b", "a/b", "\u{e9}", "a\tb", "{x}"] {
        assert_eq!(
            prepare_request(url(), vec![pair(name, "v")], "1").err(),
            Some(RequestError::InvalidHeaderName),
            "{}",
            name
        );
    }
    let long = "a".repeat(65535);
    assert!(prepare_request(url(), vec![pair(&long, "v")], "1").is_ok());
    let too_long = "a".repeat(65536);
    assert_eq!(
        prepare_request(url(), vec![pair(&too_long, "v")], "1").err(),
        Some(RequestError::InvalidHeaderName)
    );
}

#[test]
fn request_accepts_valid_parts() {
    let req = prepare_request(
        Some("http://example.invalid/a?b=c".to_string()),
        vec![pair("X-Tab", "a\tb"), pair("X-Text", "\u{e9}t\u{e9}")],
        "1.0",
    )
    .unwrap();
    assert_eq!(req.headers.len(), 3);
    assert_eq!(req.headers[1].1, "\u{e9}t\u{e9}");
}

#[test]
fn launcher_update_address_checks() {
    assert_eq!(launcher_update_source("https://example.invalid/launcher.zip"), Ok(()));
    assert_eq!(launcher_update_source("not a url"), Err(SourceError::InvalidUrl));
    assert_eq!(launcher_update_source(""), Err(SourceError::InvalidUrl));
    assert_eq!(
        launcher_update_source("http://example.invalid/a b.zip"),
        Err(SourceError::InvalidUri)
    );
}

#[test]
fn fixed_names() {
    assert_eq!(REDIST_MIRROR_PATH, "/redists/UE3Redist.exe");
    assert_eq!(REDIST_FILE_NAME, "UE3Redist.exe");
    assert_eq!(UNVERSIONED_REMOVED, "validate");
    assert_eq!(UPDATE_EXTRACT_DIR, "launcher_update_extracted/");
    assert_eq!(SELF_UPDATE_EXECUTABLE, "SelfUpdateExecutor.exe");
}
