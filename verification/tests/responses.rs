use markdown_mailer::error::{AssemblyError, FetchError, FetchStage, TransportError};
use markdown_mailer::response::{
    Response, STATUS_FETCH_FAILED, STATUS_NO_CONTENT, STATUS_SEND_FAILED, STATUS_SENT,
};

#[test]
fn status_texts() {
    assert_eq!(STATUS_SENT, "Email sent");
    assert_eq!(STATUS_FETCH_FAILED, "Failed to download attachment");
    assert_eq!(STATUS_SEND_FAILED, "Failed to send email");
    assert_eq!(STATUS_NO_CONTENT, "No email body or attachments provided");
}

#[test]
fn sent_has_no_error() {
    assert_eq!(Response::sent(), Response { status: "Email sent".to_string(), error: None });
}

#[test]
fn fetch_failure_carries_the_cause() {
    let error = FetchError { stage: FetchStage::Request, cause: "connection refused".to_string() };
    assert_eq!(
        Response::fetch_failed(error),
        Response {
            status: "Failed to download attachment".to_string(),
            error: Some("connection refused".to_string()),
        }
    );
}

#[test]
fn fetch_failure_of_the_body_has_the_same_status() {
    let error = FetchError { stage: FetchStage::Body, cause: "connection reset".to_string() };
    assert_eq!(
        Response::fetch_failed(error),
        Response {
            status: "Failed to download attachment".to_string(),
            error: Some("connection reset".to_string()),
        }
    );
}

#[test]
fn send_failure_carries_the_cause() {
    let error = TransportError { cause: "relay said no".to_string() };
    assert_eq!(
        Response::send_failed(error),
        Response {
            status: "Failed to send email".to_string(),
            error: Some("relay said no".to_string()),
        }
    );
}

#[test]
fn invalid_address_is_a_send_failure() {
    assert_eq!(
        Response::assembly_failed(AssemblyError::InvalidAddress),
        Response {
            status: "Failed to send email".to_string(),
            error: Some("invalid mail address".to_string()),
        }
    );
}

#[test]
fn empty_message_has_its_own_status_and_no_cause() {
    assert_eq!(
        Response::assembly_failed(AssemblyError::Empty),
        Response { status: "No email body or attachments provided".to_string(), error: None }
    );
}

#[test]
fn every_response_has_a_status() {
    let responses = vec![
        Response::sent(),
        Response::fetch_failed(FetchError { stage: FetchStage::Request, cause: String::new() }),
        Response::send_failed(TransportError { cause: String::new() }),
        Response::assembly_failed(AssemblyError::InvalidAddress),
        Response::assembly_failed(AssemblyError::Empty),
    ];
    for response in responses {
        assert!(!response.status.is_empty());
    }
}

#[test]
fn stage_names() {
    assert_eq!(FetchStage::Request.name(), "request");
    assert_eq!(FetchStage::Body.name(), "body");
}

#[test]
fn assembly_errors_describe_themselves() {
    assert_eq!(AssemblyError::InvalidAddress.describe(), "invalid mail address");
    assert_eq!(AssemblyError::Empty.describe(), "no email body or attachments provided");
}
