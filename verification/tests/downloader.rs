use mir2_client::downloader::{format_bytes, format_speed};

#[test]
fn test_format_bytes() {
    assert_eq!(format_bytes(0), "0 B");
    assert_eq!(format_bytes(512), "512 B");
    assert_eq!(format_bytes(1024), "1.00 KB");
    assert_eq!(format_bytes(1024 * 1024), "1.00 MB");
    assert_eq!(format_bytes(1024 * 1024 * 1024), "1.00 GB");
}

fn float_format(bytes: u64) -> String {
    const KB: u64 = 1024;
    const MB: u64 = KB * 1024;
    const GB: u64 = MB * 1024;
    if bytes >= GB {
        format!("{:.2} GB", bytes as f64 / GB as f64)
    } else if bytes >= MB {
        format!("{:.2} MB", bytes as f64 / MB as f64)
    } else if bytes >= KB {
        format!("{:.2} KB", bytes as f64 / KB as f64)
    } else {
        format!("{} B", bytes)
    }
}

#[test]
fn format_bytes_matches_float_formatting() {
    let samples: Vec<u64> = vec![
        1, 1023, 1024, 1025, 1152, 1153, 1536, 2047, 10 * 1024 + 5, 1048575, 1048576, 1059062,
        1073741823, 1073741824, 5_000_000_000, 1 << 53, (1 << 53) + 1, (1 << 60) + 12345,
        u64::MAX - 1, u64::MAX,
    ];
    for b in samples {
        assert_eq!(format_bytes(b), float_format(b), "bytes = {}", b);
    }
    let mut x: u64 = 1;
    while x < u64::MAX / 3 {
        assert_eq!(format_bytes(x), float_format(x), "bytes = {}", x);
        assert_eq!(format_bytes(x + 7), float_format(x + 7), "bytes = {}", x + 7);
        x = x * 3 + 1;
    }
}

#[test]
fn format_bytes_rounds_ties_to_even() {
    assert_eq!(format_bytes(1152), "1.12 KB");
    assert_eq!(format_bytes(1034), "1.01 KB");
}

#[test]
fn format_speed_appends_per_second() {
    assert_eq!(format_speed(0), "0 B/s");
    assert_eq!(format_speed(2048), "2.00 KB/s");
}

use mir2_client::downloader::{batch_failure, concurrency_limit, DownloadProgress, DownloadSession};

#[test]
fn test_progress_percent() {
    let progress = DownloadProgress {
        file_name: "test.txt".to_string(),
        downloaded: 50,
        total: Some(100),
        speed: 0,
        completed: false,
        error: None,
    };
    assert_eq!(progress.percent(), 50);

    let progress_unknown = DownloadProgress {
        file_name: "test.txt".to_string(),
        downloaded: 50,
        total: None,
        speed: 0,
        completed: false,
        error: None,
    };
    assert_eq!(progress_unknown.percent(), 0);
}

fn float_percent(downloaded: u64, total: Option<u64>) -> u8 {
    if let Some(total) = total {
        if total > 0 {
            return ((downloaded as f64 / total as f64) * 100.0).min(100.0) as u8;
        }
    }
    0
}

fn progress(downloaded: u64, total: Option<u64>) -> DownloadProgress {
    DownloadProgress { file_name: String::new(), downloaded, total, speed: 0, completed: false, error: None }
}

#[test]
fn percent_matches_float_arithmetic() {
    let totals: Vec<u64> = vec![1, 3, 7, 100, 1000, 1023, 4097, 1 << 40, (1 << 53) + 1, u64::MAX / 3, u64::MAX];
    for &t in &totals {
        let mut samples: Vec<u64> = vec![0, 1, 2, t / 3, t / 2, t - 1, t, t.saturating_add(1), u64::MAX];
        for pct in 0..=100u64 {
            samples.push((t as u128 * pct as u128 / 100) as u64);
            samples.push(((t as u128 * pct as u128 / 100) as u64).saturating_add(1));
        }
        for d in samples {
            assert_eq!(progress(d, Some(t)).percent(), float_percent(d, Some(t)), "d = {}, t = {}", d, t);
        }
    }
    // 0.29 * 100.0 is 28.999999999999996 in floating point
    assert_eq!(progress(29, Some(100)).percent(), float_percent(29, Some(100)));
    assert_eq!(progress(29, Some(100)).percent(), 28);
    assert_eq!(progress(5, Some(0)).percent(), 0);
}

#[test]
fn download_session_reports() {
    let (mut s, first) = DownloadSession::start(String::from("a.zip"));
    assert_eq!(first.file_name, "a.zip");
    assert_eq!((first.downloaded, first.total, first.completed), (0, None, false));
    s.set_total(Some(300));
    let p1 = s.record_chunk(100, 7);
    assert_eq!((p1.downloaded, p1.total, p1.speed), (100, Some(300), 7));
    let p2 = s.record_chunk(150, 9);
    assert_eq!(p2.downloaded, 250);
    let done = s.finished();
    assert_eq!((done.downloaded, done.total, done.speed, done.completed), (250, Some(250), 0, true));
    let err = s.failed(String::from("HTTP error: 404 Not Found"));
    assert_eq!(err.error.as_deref(), Some("HTTP error: 404 Not Found"));
    assert_eq!(err.downloaded, 0);
}

#[test]
fn batch_limits_and_failures() {
    assert_eq!(concurrency_limit(0), 1);
    assert_eq!(concurrency_limit(4), 4);
    assert_eq!(batch_failure(0), None);
    assert_eq!(batch_failure(3).as_deref(), Some("3 download(s) failed"));
}

fn progress_of(downloaded: u64, total: u64) -> mir2_client::downloader::DownloadProgress {
    mir2_client::downloader::DownloadProgress {
        file_name: "f.bin".to_string(),
        downloaded,
        total: Some(total),
        speed: 0,
        completed: false,
        error: None,
    }
}

#[test]
fn percent_never_goes_back_and_reaches_hundred() {
    for total in [1u64, 3, 7, 100, 1023, 999_999_937, u64::MAX] {
        let mut last = 0u8;
        let step = if total < 2000 { 1 } else { total / 1000 };
        let mut d = 0u64;
        while d <= total {
            let p = progress_of(d, total).percent();
            assert!(p >= last, "total {} downloaded {}", total, d);
            assert!(p <= 100);
            last = p;
            match d.checked_add(step) {
                Some(n) => d = n,
                None => break,
            }
        }
        assert_eq!(progress_of(total, total).percent(), 100);
        assert_eq!(progress_of(total.saturating_add(5), total).percent(), 100);
    }
    assert_eq!(progress_of(1, 3).percent(), 33);
    assert_eq!(progress_of(2, 3).percent(), 66);
}
