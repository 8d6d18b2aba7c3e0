use deurbel::discord::{is_success_status, outcome_of, Discord, DispatchOutcome, TransportReport};

#[test]
fn message_payload_without_embed() {
    let d = Discord::new(false);
    assert_eq!(
        d.message_payload("hello"),
        "{\"content\": \"hello\", \"tts\": false, \"embeds\": []}"
    );
}

#[test]
fn payload_with_tts_and_embed() {
    let d = Discord::new(true);
    assert_eq!(
        d.payload("ding", "{\"title\": \"dong\"}"),
        "{\"content\": \"ding\", \"tts\": true, \"embeds\": [{\"title\": \"dong\"}]}"
    );
}

#[test]
fn embed_payload_has_empty_content() {
    let d = Discord::new(false);
    assert_eq!(
        d.embed_payload("{}"),
        "{\"content\": \"\", \"tts\": false, \"embeds\": [{}]}"
    );
}

#[test]
fn status_204_is_delivered() {
    assert_eq!(outcome_of(TransportReport::Status(204)), DispatchOutcome::Delivered);
    assert_eq!(outcome_of(TransportReport::Status(200)), DispatchOutcome::Delivered);
}

#[test]
fn status_500_is_rejected() {
    let r = outcome_of(TransportReport::Status(500));
    assert_eq!(r, DispatchOutcome::RemoteRejected(500));
    assert!(r.captures_body());
    assert_eq!(outcome_of(TransportReport::Status(201)), DispatchOutcome::RemoteRejected(201));
}

#[test]
fn connection_reset_is_send_failed() {
    let r = outcome_of(TransportReport::SendError);
    assert_eq!(r, DispatchOutcome::SendFailed);
    assert!(!r.captures_body());
}

#[test]
fn request_error_is_build_failed() {
    assert_eq!(outcome_of(TransportReport::RequestError), DispatchOutcome::RequestBuildFailed);
}

#[test]
fn success_statuses() {
    assert!(is_success_status(200));
    assert!(is_success_status(204));
    assert!(!is_success_status(202));
    assert!(!is_success_status(404));
}
