use remote_work::{
    capture_args, choose_encoder_source, concat_args, data_directory, data_subdirectory,
    final_file_name, final_path, find_executable_entry, is_loopback_interface, manifest_path,
    render_decimal, segment_file_name, segment_record, still_file_name, text_contains,
    text_equal, total_traffic, CaptureInput, CaptureKind, DataDirEnv, DatabaseConfig,
    EncoderSource, InterfaceTraffic, NetworkCounters, Platform, RetryAction, RetryPolicy,
};

#[test]
fn decimal_rendering() {
    assert_eq!(render_decimal(0), "0");
    assert_eq!(render_decimal(7), "7");
    assert_eq!(render_decimal(1234567890), "1234567890");
    assert_eq!(render_decimal(u64::MAX), "18446744073709551615");
}

#[test]
fn substring_search() {
    assert!(text_contains("hello world", "o w"));
    assert!(text_contains("abc", ""));
    assert!(!text_contains("ab", "abc"));
    assert!(!text_contains("hello", "hol"));
    assert!(text_equal("same", "same"));
    assert!(!text_equal("same", "Same"));
}

#[test]
fn artifact_names() {
    assert_eq!(segment_file_name("s1", 0), "recording_s1_seg_0.mkv");
    assert_eq!(segment_file_name("s1", 10), "recording_s1_seg_10.mkv");
    assert_eq!(final_file_name("s1"), "recording_s1.mkv");
    assert_eq!(final_path("/r", "s1"), "/r/recording_s1.mkv");
    assert_eq!(manifest_path("/r"), "/r/temp_concat_list.txt");
    assert_eq!(still_file_name(CaptureKind::Snapshot, "s1", 1500), "snapshot_s1_1500.png");
    assert_eq!(still_file_name(CaptureKind::Screenshot, "s1", 0), "screenshot_s1_0.png");
}

#[test]
fn data_directories() {
    let none = DataDirEnv { custom: None, appdata: None, home: None, xdg_data_home: None };
    assert_eq!(data_directory(Platform::Unix, &none), "/tmp/remote-work-data");
    assert_eq!(data_directory(Platform::MacOs, &none), "/Users/Shared/remote-work-data");
    assert_eq!(data_directory(Platform::Windows, &none), "C:\\Users\\Public\\remote-work-data");
    let home = DataDirEnv { home: Some("/home/u".to_string()), ..none.clone() };
    assert_eq!(data_directory(Platform::Unix, &home), "/home/u/.local/share/remote-work");
    let xdg = DataDirEnv { xdg_data_home: Some("/x".to_string()), ..home.clone() };
    assert_eq!(data_directory(Platform::Unix, &xdg), "/x/remote-work");
    let custom = DataDirEnv { custom: Some("/c".to_string()), ..xdg.clone() };
    assert_eq!(data_directory(Platform::Unix, &custom), "/c");
    assert_eq!(data_subdirectory("/c", "recordings"), "/c/recordings");
}

#[test]
fn encoder_resolution_order() {
    assert_eq!(choose_encoder_source(true, true), EncoderSource::Bundled);
    assert_eq!(choose_encoder_source(false, true), EncoderSource::System);
    assert_eq!(choose_encoder_source(false, false), EncoderSource::Download);
}

#[test]
fn download_retries() {
    let p = RetryPolicy::encoder_download();
    assert_eq!(p.after_attempt(1, false), RetryAction::RetryAfter(2));
    assert_eq!(p.after_attempt(2, false), RetryAction::RetryAfter(2));
    assert_eq!(p.after_attempt(3, false), RetryAction::GiveUp);
    assert_eq!(p.after_attempt(2, true), RetryAction::Done);
}

#[test]
fn encoder_arguments() {
    let a = capture_args(&CaptureInput::X11 { display: ":0.0".to_string() }, "/o/seg.mkv");
    assert_eq!(
        a,
        vec![
            "-f", "x11grab", "-i", ":0.0", "-vcodec", "libx264", "-crf", "28", "-preset",
            "ultrafast", "-pix_fmt", "yuv420p", "-y", "/o/seg.mkv"
        ]
    );
    let g = capture_args(&CaptureInput::Gdi, "x");
    assert_eq!(&g[..4], &["-f", "gdigrab", "-i", "desktop"]);
    assert_eq!(&g[4..13], &a[4..13]);
    let m = capture_args(&CaptureInput::AvFoundation, "x");
    assert_eq!(&m[..4], &["-f", "avfoundation", "-i", "default"]);
    assert_eq!(
        concat_args("/l.txt", "/out.mkv"),
        vec!["-f", "concat", "-safe", "0", "-i", "/l.txt", "-c", "copy", "-y", "/out.mkv"]
    );
}

#[test]
fn archive_entry_lookup() {
    let names = vec![
        "ffmpeg/README.txt".to_string(),
        "ffmpeg/bin/FFMPEG.EXE".to_string(),
        "ffmpeg/bin/ffmpeg.exe".to_string(),
    ];
    assert_eq!(find_executable_entry(&names, "ffmpeg.exe"), Some(1));
    assert_eq!(find_executable_entry(&names, "ffprobe.exe"), None);
}

#[test]
fn database_settings() {
    let d = DatabaseConfig::with_defaults();
    assert_eq!(d.url(), "mysql://root:@localhost:3306/remote-xwork");
    let c = DatabaseConfig::load(Some("u".to_string()), Some("p".to_string()), None, Some("3307".to_string()), None);
    assert_eq!(c.url(), "mysql://u:p@localhost:3307/remote-xwork");
}

#[test]
fn segment_rows() {
    let r = segment_record("u".to_string(), None, "s", 3, "/d/x".to_string());
    assert_eq!(r.recording_id, 0);
    assert_eq!(r.segment_number, 3);
    assert_eq!(r.filename, "recording_s_seg_3.mkv");
    let r = segment_record("u".to_string(), Some(9), "s", 0, "/d/x".to_string());
    assert_eq!(r.recording_id, 9);
}

#[test]
fn network_totals() {
    let mut c = NetworkCounters::new();
    c.record(100, 5);
    c.record(u64::MAX, 1);
    assert_eq!((c.downloaded, c.uploaded), (u64::MAX, 6));
    assert!(is_loopback_interface("Loopback Pseudo-Interface 1"));
    assert!(is_loopback_interface("LO"));
    assert!(!is_loopback_interface("eth0"));
    let ifs = vec![
        InterfaceTraffic { name: "lo".to_string(), received: 1000, transmitted: 1000 },
        InterfaceTraffic { name: "eth0".to_string(), received: 10, transmitted: 20 },
        InterfaceTraffic { name: "wlan0".to_string(), received: 1, transmitted: 2 },
    ];
    assert_eq!(total_traffic(&ifs), (11, 22));
}
