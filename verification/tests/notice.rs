use ddns_updater::notice::Notice;
use ddns_updater::response::{ApiError, ApiResponse, DnsRecordResult, Failure, FailureKind};

fn failure(detail: &str) -> Failure {
    Failure { kind: FailureKind::Transport, detail: detail.to_string() }
}

#[test]
fn address_changed_line() {
    let notice = Notice::AddressChanged { from: "1.1.1.1".to_string(), to: "2.2.2.2".to_string() };
    assert_eq!(notice.message(), "IP change detected: 1.1.1.1 -> 2.2.2.2");
    assert!(!notice.is_error());
    let first = Notice::AddressChanged { from: String::new(), to: "2.2.2.2".to_string() };
    assert_eq!(first.message(), "IP change detected:  -> 2.2.2.2");
}

#[test]
fn address_unchanged_line() {
    let notice = Notice::AddressUnchanged { address: "1.1.1.1".to_string() };
    assert_eq!(notice.message(), "IP has not changed. Current IP: 1.1.1.1");
    assert!(!notice.is_error());
}

#[test]
fn resolve_failed_line() {
    let notice = Notice::ResolveFailed(failure("connection refused"));
    assert_eq!(notice.message(), "Error fetching external IP: connection refused");
    assert!(notice.is_error());
}

#[test]
fn update_failed_line() {
    let notice = Notice::UpdateFailed(failure("connection reset"));
    assert_eq!(notice.message(), "Error updating DNS record: connection reset");
    assert!(notice.is_error());
}

#[test]
fn record_updated_line() {
    let notice = Notice::RecordUpdated {
        name: "home.example.com".to_string(),
        content: "203.0.113.5".to_string(),
    };
    assert_eq!(
        notice.message(),
        "DNS record updated successfully: home.example.com -> 203.0.113.5"
    );
    assert!(!notice.is_error());
}

#[test]
fn update_rejected_line_lists_every_error() {
    let notice = Notice::UpdateRejected {
        errors: vec!["invalid token".to_string(), "zone locked".to_string()],
    };
    assert_eq!(notice.message(), "Failed to update DNS record: invalid token; zone locked");
    assert!(notice.is_error());
    let bare = Notice::UpdateRejected { errors: vec![] };
    assert_eq!(bare.message(), "Failed to update DNS record: ");
}

#[test]
fn answer_with_record_is_reported_as_updated() {
    let answer = ApiResponse {
        success: true,
        errors: vec![],
        result: Some(DnsRecordResult { name: "n".to_string(), content: "c".to_string() }),
    };
    match Notice::for_answer(&answer) {
        Some(Notice::RecordUpdated { name, content }) => {
            assert_eq!(name, "n");
            assert_eq!(content, "c");
        }
        other => panic!("unexpected notice {:?}", other),
    }
}

#[test]
fn accepted_answer_without_record_has_no_line() {
    let answer = ApiResponse {
        success: true,
        errors: vec![ApiError { message: "ignored".to_string() }],
        result: None,
    };
    assert!(Notice::for_answer(&answer).is_none());
}

#[test]
fn refused_answer_is_reported_with_its_errors() {
    let answer = ApiResponse {
        success: false,
        errors: vec![
            ApiError { message: "invalid token".to_string() },
            ApiError { message: "try later".to_string() },
        ],
        result: Some(DnsRecordResult { name: "n".to_string(), content: "c".to_string() }),
    };
    assert_eq!(answer.error_messages(), vec!["invalid token".to_string(), "try later".to_string()]);
    match Notice::for_answer(&answer) {
        Some(Notice::UpdateRejected { errors }) => {
            assert_eq!(errors, vec!["invalid token".to_string(), "try later".to_string()]);
        }
        other => panic!("unexpected notice {:?}", other),
    }
}
