use hula_ws::message::{
    classify, event_channel, emit_target, wants_ack, BusinessKind, EmitTarget, MessageProcessor,
    ValidationResult,
};

fn json(text: &str) -> serde_json::Value {
    serde_json::from_str(text).expect("test JSON must parse")
}

#[test]
fn test_message_validation() {
    let processor = MessageProcessor::new();

    let valid_msg = json(r#"{"type":"test","data":"some data"}"#);
    assert_eq!(processor.validate_message(&valid_msg), ValidationResult::Valid);

    let invalid_msg = json(r#"{"data":"some data"}"#);
    assert!(matches!(
        processor.validate_message(&invalid_msg),
        ValidationResult::Invalid(_)
    ));

    let invalid_msg2 = json(r#""not an object""#);
    assert!(matches!(
        processor.validate_message(&invalid_msg2),
        ValidationResult::Invalid(_)
    ));
}

#[test]
fn test_message_sanitization() {
    let processor = MessageProcessor::new();

    let sensitive_msg = json(
        r#"{"type":"login","password":"secret123","token":"abc123","data":"normal data"}"#,
    );

    let sanitized = processor.sanitize_message(sensitive_msg);
    assert_eq!(sanitized["password"], "***");
    assert_eq!(sanitized["token"], "***");
    assert_eq!(sanitized["data"], "normal data");
}

#[test]
fn sanitize_leaves_non_objects_alone() {
    let processor = MessageProcessor::new();
    let text_msg = json(r#""password""#);
    let sanitized = processor.sanitize_message(text_msg);
    assert_eq!(sanitized, json(r#""password""#));
}

#[test]
fn sanitize_masks_secret_and_key() {
    let processor = MessageProcessor::new();
    let msg = json(r#"{"secret":"s","key":"k","other":1}"#);
    let sanitized = processor.sanitize_message(msg);
    assert_eq!(sanitized["secret"], "***");
    assert_eq!(sanitized["key"], "***");
    assert_eq!(sanitized["other"], 1);
}

#[test]
fn classify_recognizes_every_discriminator() {
    let cases: Vec<(&str, BusinessKind)> = vec![
        ("loginQrCode", BusinessKind::LoginQrCode),
        ("waitingAuthorize", BusinessKind::WaitingAuthorize),
        ("loginSuccess", BusinessKind::LoginSuccess),
        ("receiveMessage", BusinessKind::ReceiveMessage),
        ("msgRecall", BusinessKind::MsgRecall),
        ("msgMarkItem", BusinessKind::MsgMarkItem),
        ("online", BusinessKind::Online),
        ("offline", BusinessKind::Offline),
        ("userStateChange", BusinessKind::UserStateChange),
        ("notifyEvent", BusinessKind::NotifyEvent),
        ("groupSetAdmin", BusinessKind::GroupSetAdmin),
        ("newApply", BusinessKind::NewApply),
        ("requestApprovalFriend", BusinessKind::RequestApprovalFriend),
        ("memberChange", BusinessKind::MemberChange),
        ("roomInfoChange", BusinessKind::RoomInfoChange),
        ("myRoomInfoChange", BusinessKind::MyRoomInfoChange),
        ("roomGroupNoticeMsg", BusinessKind::RoomGroupNoticeMsg),
        ("roomEditGroupNoticeMsg", BusinessKind::RoomEditGroupNoticeMsg),
        ("roomDissolution", BusinessKind::RoomDissolution),
        ("VideoCallRequest", BusinessKind::VideoCallRequest),
        ("CallAccepted", BusinessKind::CallAccepted),
        ("CallRejected", BusinessKind::CallRejected),
        ("RoomClosed", BusinessKind::RoomClosed),
        ("WEBRTC_SIGNAL", BusinessKind::WebrtcSignal),
        ("JoinVideo", BusinessKind::JoinVideo),
        ("LeaveVideo", BusinessKind::LeaveVideo),
        ("DROPPED", BusinessKind::Dropped),
        ("CANCEL", BusinessKind::Cancel),
        ("TIMEOUT", BusinessKind::Timeout),
        ("tokenExpired", BusinessKind::TokenExpired),
        ("invalidUser", BusinessKind::InvalidUser),
        ("deleteFriend", BusinessKind::DeleteFriend),
        ("feedSendMsg", BusinessKind::FeedSendMsg),
        ("feedNotify", BusinessKind::FeedNotify),
    ];
    for (discriminator, kind) in cases {
        assert_eq!(classify(discriminator), kind, "discriminator {}", discriminator);
    }
}

#[test]
fn classify_unrecognized_is_unknown() {
    assert_eq!(classify("somethingNew"), BusinessKind::Unknown);
    assert_eq!(classify(""), BusinessKind::Unknown);
    assert_eq!(classify("ReceiveMessage"), BusinessKind::Unknown);
}

#[test]
fn channels_and_targets_match_the_protocol() {
    assert_eq!(event_channel(BusinessKind::ReceiveMessage), "ws-receive-message");
    assert_eq!(event_channel(BusinessKind::Unknown), "ws-unknown-message");
    assert_eq!(event_channel(BusinessKind::TokenExpired), "ws-token-expired");
    assert_eq!(event_channel(BusinessKind::NotifyEvent), "ws-request-notify-event");
    assert_eq!(event_channel(BusinessKind::GroupSetAdmin), "ws-group-set-admin-success");
    assert_eq!(emit_target(BusinessKind::ReceiveMessage), EmitTarget::Home);
    assert_eq!(emit_target(BusinessKind::LoginQrCode), EmitTarget::Broadcast);
    assert_eq!(emit_target(BusinessKind::Unknown), EmitTarget::Broadcast);
    assert_eq!(emit_target(BusinessKind::VideoCallRequest), EmitTarget::Broadcast);
}

#[test]
fn only_receive_message_is_acknowledged() {
    assert!(wants_ack(BusinessKind::ReceiveMessage));
    assert!(!wants_ack(BusinessKind::MsgRecall));
    assert!(!wants_ack(BusinessKind::Unknown));
    assert!(!wants_ack(BusinessKind::Online));
}
