use image_saver::dialog::save_dialog_config;
use image_saver::flow::{Action, Download, DownloadError, Event, Phase};
use image_saver::status::{is_success, push_decimal, push_reason, push_status};

fn fresh(url: &str) -> Download {
    let (d, a) = Download::start(url.to_string());
    assert!(matches!(a, Action::AskPath));
    assert!(matches!(d.phase, Phase::Choosing));
    d
}

fn finish_result(a: Action) -> Result<(), DownloadError> {
    match a {
        Action::Finish(r) => r,
        _ => panic!("expected the operation to finish"),
    }
}

#[test]
fn dialog_is_titled_and_filtered() {
    let c = save_dialog_config();
    assert_eq!(c.title, "Save image as");
    assert_eq!(c.filter_name, "Images");
    assert_eq!(c.extensions, vec!["png", "jpg", "jpeg", "webp", "gif", "bmp", "svg"]);
}

#[test]
fn success_range_is_2xx() {
    assert!(is_success(200));
    assert!(is_success(204));
    assert!(is_success(299));
    assert!(!is_success(199));
    assert!(!is_success(300));
    assert!(!is_success(404));
    assert!(!is_success(500));
    assert!(!is_success(0));
    assert!(!is_success(65535));
}

#[test]
fn decimal_digits() {
    let mut s = String::from("n=");
    push_decimal(&mut s, 0);
    assert_eq!(s, "n=0");
    let mut s = String::new();
    push_decimal(&mut s, 65535);
    assert_eq!(s, "65535");
    let mut s = String::new();
    push_decimal(&mut s, 100);
    assert_eq!(s, "100");
}

#[test]
fn status_shown_with_reason() {
    let mut s = String::new();
    push_status(&mut s, 404);
    assert_eq!(s, "404 Not Found");
    let mut s = String::new();
    push_status(&mut s, 500);
    assert_eq!(s, "500 Internal Server Error");
    let mut s = String::new();
    push_status(&mut s, 599);
    assert_eq!(s, "599 <unknown status code>");
    let mut s = String::new();
    push_status(&mut s, 42);
    assert_eq!(s, "42 <unknown status code>");
}

#[test]
fn error_messages() {
    assert_eq!(
        DownloadError::Unreachable("dns error".to_string()).message(),
        "Unable to reach URL: dns error"
    );
    assert_eq!(
        DownloadError::BadStatus(404).message(),
        "Download failed with status 404 Not Found"
    );
    assert_eq!(
        DownloadError::BodyRead("truncated".to_string()).message(),
        "Failed to read response body: truncated"
    );
    assert_eq!(
        DownloadError::SaveFailed("permission denied".to_string()).message(),
        "Failed to save file: permission denied"
    );
}

#[test]
fn full_run_writes_body_to_chosen_path() {
    let d = fresh("http://example.com/cat.png");
    let ev = Event::PathChosen(Some("/tmp/cat.png".to_string()));
    assert!(d.accepts(&ev));
    let (d, a) = d.step(ev);
    match a {
        Action::Fetch(url) => assert_eq!(url, "http://example.com/cat.png"),
        _ => panic!("expected a fetch"),
    }
    let (d, a) = d.step(Event::Response(Ok(200)));
    assert!(matches!(a, Action::ReadBody));
    let (d, a) = d.step(Event::Body(Ok(vec![137, 80, 78, 71])));
    match a {
        Action::Write { path, bytes } => {
            assert_eq!(path, "/tmp/cat.png");
            assert_eq!(bytes, vec![137, 80, 78, 71]);
        }
        _ => panic!("expected a write"),
    }
    assert!(matches!(d.phase, Phase::Writing));
    let (d, a) = d.step(Event::Saved(Ok(())));
    assert!(matches!(finish_result(a), Ok(())));
    assert!(matches!(d.phase, Phase::Finished));
}

#[test]
fn empty_body_is_written_as_empty_file() {
    let d = fresh("http://example.com/empty");
    let (d, _) = d.step(Event::PathChosen(Some("/tmp/empty.png".to_string())));
    let (d, _) = d.step(Event::Response(Ok(204)));
    let (_, a) = d.step(Event::Body(Ok(Vec::new())));
    match a {
        Action::Write { bytes, .. } => assert!(bytes.is_empty()),
        _ => panic!("expected a write"),
    }
}

#[test]
fn cancel_is_silent_success() {
    let d = fresh("http://example.com/cat.png");
    let (d, a) = d.step(Event::PathChosen(None));
    assert!(matches!(finish_result(a), Ok(())));
    assert!(matches!(d.phase, Phase::Finished));
    assert!(!d.accepts(&Event::Body(Ok(vec![1]))));
    assert!(!d.accepts(&Event::Saved(Ok(()))));
}

#[test]
fn unreachable_reports_reach() {
    let d = fresh("http://nowhere.invalid/");
    let (d, _) = d.step(Event::PathChosen(Some("/tmp/x.png".to_string())));
    let (d, a) = d.step(Event::Response(Err("connection refused".to_string())));
    let e = finish_result(a).unwrap_err();
    assert!(matches!(e, DownloadError::Unreachable(_)));
    assert!(e.message().contains("reach"));
    assert!(e.message().contains("connection refused"));
    assert!(matches!(d.phase, Phase::Finished));
}

#[test]
fn not_found_reports_code() {
    let d = fresh("http://example.com/missing.png");
    let (d, _) = d.step(Event::PathChosen(Some("/tmp/x.png".to_string())));
    let (d, a) = d.step(Event::Response(Ok(404)));
    let e = finish_result(a).unwrap_err();
    assert!(matches!(e, DownloadError::BadStatus(404)));
    assert!(e.message().contains("404"));
    assert!(matches!(d.phase, Phase::Finished));
}

#[test]
fn redirect_status_is_failure() {
    let d = fresh("http://example.com/moved");
    let (d, _) = d.step(Event::PathChosen(Some("/tmp/x.png".to_string())));
    let (_, a) = d.step(Event::Response(Ok(301)));
    let e = finish_result(a).unwrap_err();
    assert_eq!(e.message(), "Download failed with status 301 Moved Permanently");
}

#[test]
fn body_read_failure_reported() {
    let d = fresh("http://example.com/cat.png");
    let (d, _) = d.step(Event::PathChosen(Some("/tmp/x.png".to_string())));
    let (d, _) = d.step(Event::Response(Ok(200)));
    let (d, a) = d.step(Event::Body(Err("stream closed".to_string())));
    let e = finish_result(a).unwrap_err();
    assert!(matches!(e, DownloadError::BodyRead(_)));
    assert!(matches!(d.phase, Phase::Finished));
}

#[test]
fn save_failure_reported() {
    let d = fresh("http://example.com/cat.png");
    let (d, _) = d.step(Event::PathChosen(Some("/readonly/x.png".to_string())));
    let (d, _) = d.step(Event::Response(Ok(200)));
    let (d, _) = d.step(Event::Body(Ok(vec![1, 2, 3])));
    let (_, a) = d.step(Event::Saved(Err("read-only file system".to_string())));
    let e = finish_result(a).unwrap_err();
    assert_eq!(e.message(), "Failed to save file: read-only file system");
}

fn written_bytes(url: &str, path: &str, body: Vec<u8>) -> (String, Vec<u8>) {
    let d = fresh(url);
    let (d, _) = d.step(Event::PathChosen(Some(path.to_string())));
    let (d, _) = d.step(Event::Response(Ok(200)));
    match d.step(Event::Body(Ok(body))).1 {
        Action::Write { path, bytes } => (path, bytes),
        _ => panic!("expected a write"),
    }
}

#[test]
fn repeated_run_writes_identical_content() {
    let first = written_bytes("http://example.com/a.gif", "/tmp/a.gif", vec![71, 73, 70]);
    let second = written_bytes("http://example.com/a.gif", "/tmp/a.gif", vec![71, 73, 70]);
    assert_eq!(first, second);
    assert_eq!(second.1, vec![71, 73, 70]);
}

#[test]
fn events_out_of_order_are_not_accepted() {
    let d = fresh("http://example.com/");
    assert!(!d.accepts(&Event::Response(Ok(200))));
    let (d, _) = d.step(Event::PathChosen(Some("/tmp/p.png".to_string())));
    assert!(!d.accepts(&Event::PathChosen(None)));
    assert!(d.accepts(&Event::Response(Err(String::new()))));
}

#[test]
fn reason_or_placeholder() {
    let mut s = String::from("x ");
    push_reason(&mut s, Some("I'm a teapot"));
    assert_eq!(s, "x I'm a teapot");
    let mut s = String::new();
    push_reason(&mut s, None);
    assert_eq!(s, "<unknown status code>");
}
