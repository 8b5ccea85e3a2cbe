use news_letter::idempotency::persistence::SavedRecord;
use news_letter::routes::newsletters::{
    publish_newsletter, publish_step, success_message, FormData, PublishAction, PublishError,
    PublishEvent, PublishState,
};

fn form(key: &str) -> FormData {
    FormData {
        title: "Issue #1".to_string(),
        html_content: "<p>Hello</p>".to_string(),
        text_content: "Hello".to_string(),
        idempotency_key: key.to_string(),
    }
}

const SUCCESS: &str = "The newsletter issue has been accepted emals will go out shortly!";

#[test]
fn success_message_text() {
    assert_eq!(success_message(), SUCCESS);
}

#[test]
fn empty_key_is_a_bad_request() {
    let (state, action) = publish_newsletter(form(""));
    assert!(matches!(state, PublishState::Finished));
    match action {
        PublishAction::Fail(PublishError::BadRequest(m)) => {
            assert_eq!(m, "The idempotency key cannot be empty")
        }
        _ => panic!("expected a bad request"),
    }
}

#[test]
fn fresh_key_publishes_and_redirects() {
    let (state, action) = publish_newsletter(form("key-1"));
    match &action {
        PublishAction::ClaimKey { key } => assert_eq!(key.as_str(), "key-1"),
        _ => panic!("expected a claim"),
    }
    let (state, action) = publish_step(state, PublishEvent::KeyClaimed(Ok(1)));
    match &action {
        PublishAction::InsertIssue { issue } => {
            assert_eq!(issue.title, "Issue #1");
            assert_eq!(issue.text_content, "Hello");
            assert_eq!(issue.html_content, "<p>Hello</p>");
        }
        _ => panic!("expected the issue to be stored"),
    }
    let (state, action) = publish_step(state, PublishEvent::IssueInserted(Some(42)));
    assert!(matches!(action, PublishAction::EnqueueDeliveryTasks { issue_id: 42 }));
    let (state, action) = publish_step(state, PublishEvent::DeliveryTasksEnqueued(true));
    let stored = match action {
        PublishAction::SaveResponse { key, record } => {
            assert_eq!(key.as_str(), "key-1");
            assert_eq!(record.response_status_code, 303);
            assert_eq!(record.response_headers[0].name, "location");
            assert_eq!(record.response_headers[0].value, b"/admin/newsletters".to_vec());
            assert!(record.response_body.is_empty());
            record
        }
        _ => panic!("expected the response to be stored"),
    };
    let (state, action) = publish_step(state, PublishEvent::ResponseSaved(Ok(())));
    assert!(matches!(state, PublishState::Finished));
    match action {
        PublishAction::Respond { response, flash } => {
            assert_eq!(response.status(), 303);
            assert_eq!(response.headers()[0].value, b"/admin/newsletters".to_vec());
            assert_eq!(flash, SUCCESS);
        }
        _ => panic!("expected the redirect"),
    }

    // The same key again: the stored response is replayed.
    let (state, _) = publish_newsletter(form("key-1"));
    let (state, action) = publish_step(state, PublishEvent::KeyClaimed(Ok(0)));
    match &action {
        PublishAction::FetchSavedResponse { key } => assert_eq!(key.as_str(), "key-1"),
        _ => panic!("expected the saved response to be read"),
    }
    let (state, action) = publish_step(state, PublishEvent::SavedResponseFetched(Ok(Some(stored))));
    assert!(matches!(state, PublishState::Finished));
    match action {
        PublishAction::Respond { response, flash } => {
            assert_eq!(response.status(), 303);
            assert_eq!(response.headers()[0].name, "location");
            assert_eq!(response.headers()[0].value, b"/admin/newsletters".to_vec());
            assert_eq!(flash, SUCCESS);
        }
        _ => panic!("expected the replayed redirect"),
    }
}

fn internal_message(action: PublishAction) -> String {
    match action {
        PublishAction::Fail(PublishError::InternalError(m)) => m,
        _ => panic!("expected an internal error"),
    }
}

#[test]
fn claim_failure_is_internal_error() {
    let (state, _) = publish_newsletter(form("k"));
    let (state, action) = publish_step(state, PublishEvent::KeyClaimed(Err("db down".to_string())));
    assert!(matches!(state, PublishState::Finished));
    assert_eq!(internal_message(action), "db down");
}

#[test]
fn missing_saved_response_is_internal_error() {
    let (state, _) = publish_newsletter(form("k"));
    let (state, _) = publish_step(state, PublishEvent::KeyClaimed(Ok(0)));
    let (_, action) = publish_step(state, PublishEvent::SavedResponseFetched(Ok(None)));
    assert_eq!(internal_message(action), "We expected a saved response, we didn't find it");
}

#[test]
fn corrupt_saved_response_is_internal_error() {
    let (state, _) = publish_newsletter(form("k"));
    let (state, _) = publish_step(state, PublishEvent::KeyClaimed(Ok(0)));
    let record = SavedRecord { response_status_code: 42, response_headers: vec![], response_body: vec![] };
    let (_, action) = publish_step(state, PublishEvent::SavedResponseFetched(Ok(Some(record))));
    assert_eq!(internal_message(action), "invalid status code");
}

#[test]
fn issue_and_queue_failures_are_internal_errors() {
    let (state, _) = publish_newsletter(form("k"));
    let (state, _) = publish_step(state, PublishEvent::KeyClaimed(Ok(1)));
    let (_, action) = publish_step(state, PublishEvent::IssueInserted(None));
    assert_eq!(internal_message(action), "Failed to store newsletter issue details");

    let (state, _) = publish_newsletter(form("k"));
    let (state, _) = publish_step(state, PublishEvent::KeyClaimed(Ok(1)));
    let (state, _) = publish_step(state, PublishEvent::IssueInserted(Some(7)));
    let (_, action) = publish_step(state, PublishEvent::DeliveryTasksEnqueued(false));
    assert_eq!(internal_message(action), "Failed to enqueue delivery tasks");
}

#[test]
fn save_failure_is_internal_error() {
    let (state, _) = publish_newsletter(form("k"));
    let (state, _) = publish_step(state, PublishEvent::KeyClaimed(Ok(1)));
    let (state, _) = publish_step(state, PublishEvent::IssueInserted(Some(7)));
    let (state, _) = publish_step(state, PublishEvent::DeliveryTasksEnqueued(true));
    let (state, action) = publish_step(state, PublishEvent::ResponseSaved(Err("commit failed".to_string())));
    assert!(matches!(state, PublishState::Finished));
    assert_eq!(internal_message(action), "commit failed");
}
