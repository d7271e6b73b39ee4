use clumsy_loader::download::{backup_file_name, error_page_failure, is_error_page, DownloadSession};
use clumsy_loader::errors::ClientError;

#[test]
fn ten_equal_chunks_reach_the_expected_total() {
    let mut session = DownloadSession::begin(1000);
    for _ in 0..10 {
        session.record_chunk(100);
    }
    assert_eq!(session.downloaded, 1000);
    assert_eq!(session.total, 1000);
}

#[test]
fn size_mismatch_is_not_an_error() {
    let mut session = DownloadSession::begin(2000);
    for _ in 0..10 {
        session.record_chunk(100);
    }
    assert_eq!(session.downloaded, 1000);
    assert_eq!(session.total, 2000);
}

#[test]
fn progress_counts_each_chunk_exactly() {
    let mut session = DownloadSession::begin(500);
    let mut seen: u64 = 0;
    for len in [3u64, 0, 250, 7] {
        let before = session.downloaded;
        session.record_chunk(len);
        seen += len;
        assert!(session.downloaded >= before);
        assert_eq!(session.downloaded, seen);
    }
}

#[test]
fn html_content_type_is_an_error_page() {
    assert!(is_error_page(&Some("text/html".to_string())));
}

#[test]
fn binary_content_types_are_not_error_pages() {
    assert!(!is_error_page(&Some("application/gzip".to_string())));
    assert!(!is_error_page(&Some("application/octet-stream".to_string())));
    assert!(!is_error_page(&Some("text/htmlx".to_string())));
}

#[test]
fn missing_content_type_is_not_an_error_page() {
    assert!(!is_error_page(&None));
}

#[test]
fn error_page_failure_keeps_the_body_verbatim() {
    let e = error_page_failure("Backup not found".to_string());
    match e {
        ClientError::ServerReportedError(body) => assert_eq!(body, "Backup not found"),
        _ => panic!("wrong error kind"),
    }
}

#[test]
fn error_page_failure_message_names_the_body() {
    let e = error_page_failure("expired link".to_string());
    assert_eq!(e.message(), "Failed to download backup: expired link");
}

#[test]
fn destination_file_is_named_after_the_backup() {
    assert_eq!(
        backup_file_name("0b58858e-1ba7-4a2a-9e3c-07b3e7f7de71"),
        "0b58858e-1ba7-4a2a-9e3c-07b3e7f7de71.tar.gz"
    );
}

#[test]
fn cancelled_and_empty_messages() {
    assert_eq!(ClientError::Cancelled.message(), "Selection aborted");
    assert_eq!(ClientError::EmptyCollection.message(), "No items to select from");
    assert_eq!(
        ClientError::TransportError("connection reset".to_string()).message(),
        "connection reset"
    );
}
