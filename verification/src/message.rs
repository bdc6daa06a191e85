//! Classification of inbound business frames: maps the `type` discriminator
//! of a decoded JSON frame to the named UI event it is forwarded under, and
//! says which frames demand an acknowledgment. Unknown discriminators are
//! forwarded under a generic unhandled-message event, never dropped.

use vstd::prelude::*;

verus! {

/// Compares two string slices by contents.
pub(crate) fn str_eq(a: &str, b: &str) -> (r: bool)
    ensures
        r == (a@ == b@),
{
    a.to_owned() == b.to_owned()
}

/// The recognized `type` discriminators of inbound business frames, plus a
/// catch-all for everything the protocol does not know yet.
#[derive(Clone, Copy, Debug, PartialEq, Eq, Structural)]
pub enum BusinessKind {
    /// Login QR code issued.
    LoginQrCode,
    /// Scanned, waiting for the user to authorize.
    WaitingAuthorize,
    /// Login completed.
    LoginSuccess,
    /// A chat message was delivered; the one kind that is acknowledged.
    ReceiveMessage,
    /// A message was recalled.
    MsgRecall,
    /// A message was liked or disliked.
    MsgMarkItem,
    /// A user came online.
    Online,
    /// A user went offline.
    Offline,
    /// A user's state changed.
    UserStateChange,
    /// A notification-bus event.
    NotifyEvent,
    /// A group admin was set.
    GroupSetAdmin,
    /// A new friend request arrived.
    NewApply,
    /// A friend request was approved.
    RequestApprovalFriend,
    /// Room membership changed.
    MemberChange,
    /// A room's info changed.
    RoomInfoChange,
    /// The caller's own room info changed.
    MyRoomInfoChange,
    /// A group notice was published.
    RoomGroupNoticeMsg,
    /// A group notice was edited.
    RoomEditGroupNoticeMsg,
    /// A room was dissolved.
    RoomDissolution,
    /// An incoming call request.
    VideoCallRequest,
    /// A call was accepted.
    CallAccepted,
    /// A call was rejected.
    CallRejected,
    /// A call room was closed.
    RoomClosed,
    /// WebRTC signaling data.
    WebrtcSignal,
    /// A user joined a video call.
    JoinVideo,
    /// A user left a video call.
    LeaveVideo,
    /// A call dropped.
    Dropped,
    /// A call was cancelled.
    Cancel,
    /// A call timed out.
    Timeout,
    /// The auth token expired.
    TokenExpired,
    /// The user is invalid.
    InvalidUser,
    /// A friend was deleted.
    DeleteFriend,
    /// A feed message arrived.
    FeedSendMsg,
    /// A feed like or comment arrived.
    FeedNotify,
    /// Any discriminator not listed above.
    Unknown,
}

/// Where a business event is published: to every window, or to the home
/// window alone.
#[derive(Clone, Copy, Debug, PartialEq, Eq, Structural)]
pub enum EmitTarget {
    /// Published to every window.
    Broadcast,
    /// Published to the home window alone.
    Home,
}

/// The business kind a `type` discriminator stands for. Opaque: callers learn
/// the kind from `classify`'s contract and reveal this function only where a
/// concrete discriminator must be classified.
#[verifier::opaque]
pub open spec fn classify_spec(t: Seq<char>) -> BusinessKind {
    if t == "loginQrCode"@ {
        BusinessKind::LoginQrCode
    } else if t == "waitingAuthorize"@ {
        BusinessKind::WaitingAuthorize
    } else if t == "loginSuccess"@ {
        BusinessKind::LoginSuccess
    } else if t == "receiveMessage"@ {
        BusinessKind::ReceiveMessage
    } else if t == "msgRecall"@ {
        BusinessKind::MsgRecall
    } else if t == "msgMarkItem"@ {
        BusinessKind::MsgMarkItem
    } else if t == "online"@ {
        BusinessKind::Online
    } else if t == "offline"@ {
        BusinessKind::Offline
    } else if t == "userStateChange"@ {
        BusinessKind::UserStateChange
    } else if t == "notifyEvent"@ {
        BusinessKind::NotifyEvent
    } else if t == "groupSetAdmin"@ {
        BusinessKind::GroupSetAdmin
    } else if t == "newApply"@ {
        BusinessKind::NewApply
    } else if t == "requestApprovalFriend"@ {
        BusinessKind::RequestApprovalFriend
    } else if t == "memberChange"@ {
        BusinessKind::MemberChange
    } else if t == "roomInfoChange"@ {
        BusinessKind::RoomInfoChange
    } else if t == "myRoomInfoChange"@ {
        BusinessKind::MyRoomInfoChange
    } else if t == "roomGroupNoticeMsg"@ {
        BusinessKind::RoomGroupNoticeMsg
    } else if t == "roomEditGroupNoticeMsg"@ {
        BusinessKind::RoomEditGroupNoticeMsg
    } else if t == "roomDissolution"@ {
        BusinessKind::RoomDissolution
    } else if t == "VideoCallRequest"@ {
        BusinessKind::VideoCallRequest
    } else if t == "CallAccepted"@ {
        BusinessKind::CallAccepted
    } else if t == "CallRejected"@ {
        BusinessKind::CallRejected
    } else if t == "RoomClosed"@ {
        BusinessKind::RoomClosed
    } else if t == "WEBRTC_SIGNAL"@ {
        BusinessKind::WebrtcSignal
    } else if t == "JoinVideo"@ {
        BusinessKind::JoinVideo
    } else if t == "LeaveVideo"@ {
        BusinessKind::LeaveVideo
    } else if t == "DROPPED"@ {
        BusinessKind::Dropped
    } else if t == "CANCEL"@ {
        BusinessKind::Cancel
    } else if t == "TIMEOUT"@ {
        BusinessKind::Timeout
    } else if t == "tokenExpired"@ {
        BusinessKind::TokenExpired
    } else if t == "invalidUser"@ {
        BusinessKind::InvalidUser
    } else if t == "deleteFriend"@ {
        BusinessKind::DeleteFriend
    } else if t == "feedSendMsg"@ {
        BusinessKind::FeedSendMsg
    } else if t == "feedNotify"@ {
        BusinessKind::FeedNotify
    } else {
        BusinessKind::Unknown
    }
}

/// Maps a `type` discriminator to its business kind. Total: every
/// discriminator classifies, unrecognized ones as `Unknown`.
pub fn classify(t: &str) -> (k: BusinessKind)
    ensures
        k == classify_spec(t@),
{
    proof {
        reveal(classify_spec);
    }
    if str_eq(t, "loginQrCode") {
        BusinessKind::LoginQrCode
    } else if str_eq(t, "waitingAuthorize") {
        BusinessKind::WaitingAuthorize
    } else if str_eq(t, "loginSuccess") {
        BusinessKind::LoginSuccess
    } else if str_eq(t, "receiveMessage") {
        BusinessKind::ReceiveMessage
    } else if str_eq(t, "msgRecall") {
        BusinessKind::MsgRecall
    } else if str_eq(t, "msgMarkItem") {
        BusinessKind::MsgMarkItem
    } else if str_eq(t, "online") {
        BusinessKind::Online
    } else if str_eq(t, "offline") {
        BusinessKind::Offline
    } else if str_eq(t, "userStateChange") {
        BusinessKind::UserStateChange
    } else if str_eq(t, "notifyEvent") {
        BusinessKind::NotifyEvent
    } else if str_eq(t, "groupSetAdmin") {
        BusinessKind::GroupSetAdmin
    } else if str_eq(t, "newApply") {
        BusinessKind::NewApply
    } else if str_eq(t, "requestApprovalFriend") {
        BusinessKind::RequestApprovalFriend
    } else if str_eq(t, "memberChange") {
        BusinessKind::MemberChange
    } else if str_eq(t, "roomInfoChange") {
        BusinessKind::RoomInfoChange
    } else if str_eq(t, "myRoomInfoChange") {
        BusinessKind::MyRoomInfoChange
    } else if str_eq(t, "roomGroupNoticeMsg") {
        BusinessKind::RoomGroupNoticeMsg
    } else if str_eq(t, "roomEditGroupNoticeMsg") {
        BusinessKind::RoomEditGroupNoticeMsg
    } else if str_eq(t, "roomDissolution") {
        BusinessKind::RoomDissolution
    } else if str_eq(t, "VideoCallRequest") {
        BusinessKind::VideoCallRequest
    } else if str_eq(t, "CallAccepted") {
        BusinessKind::CallAccepted
    } else if str_eq(t, "CallRejected") {
        BusinessKind::CallRejected
    } else if str_eq(t, "RoomClosed") {
        BusinessKind::RoomClosed
    } else if str_eq(t, "WEBRTC_SIGNAL") {
        BusinessKind::WebrtcSignal
    } else if str_eq(t, "JoinVideo") {
        BusinessKind::JoinVideo
    } else if str_eq(t, "LeaveVideo") {
        BusinessKind::LeaveVideo
    } else if str_eq(t, "DROPPED") {
        BusinessKind::Dropped
    } else if str_eq(t, "CANCEL") {
        BusinessKind::Cancel
    } else if str_eq(t, "TIMEOUT") {
        BusinessKind::Timeout
    } else if str_eq(t, "tokenExpired") {
        BusinessKind::TokenExpired
    } else if str_eq(t, "invalidUser") {
        BusinessKind::InvalidUser
    } else if str_eq(t, "deleteFriend") {
        BusinessKind::DeleteFriend
    } else if str_eq(t, "feedSendMsg") {
        BusinessKind::FeedSendMsg
    } else if str_eq(t, "feedNotify") {
        BusinessKind::FeedNotify
    } else {
        BusinessKind::Unknown
    }
}

/// The UI channel a business kind is published under.
pub open spec fn channel_spec(k: BusinessKind) -> Seq<char> {
    match k {
        BusinessKind::LoginQrCode => "ws-login-qr-code"@,
        BusinessKind::WaitingAuthorize => "ws-waiting-authorize"@,
        BusinessKind::LoginSuccess => "ws-login-success"@,
        BusinessKind::ReceiveMessage => "ws-receive-message"@,
        BusinessKind::MsgRecall => "ws-msg-recall"@,
        BusinessKind::MsgMarkItem => "ws-msg-mark-item"@,
        BusinessKind::Online => "ws-online"@,
        BusinessKind::Offline => "ws-offline"@,
        BusinessKind::UserStateChange => "ws-user-state-change"@,
        BusinessKind::NotifyEvent => "ws-request-notify-event"@,
        BusinessKind::GroupSetAdmin => "ws-group-set-admin-success"@,
        BusinessKind::NewApply => "ws-request-new-apply"@,
        BusinessKind::RequestApprovalFriend => "ws-request-approval-friend"@,
        BusinessKind::MemberChange => "ws-member-change"@,
        BusinessKind::RoomInfoChange => "ws-room-info-change"@,
        BusinessKind::MyRoomInfoChange => "ws-my-room-info-change"@,
        BusinessKind::RoomGroupNoticeMsg => "ws-room-group-notice-msg"@,
        BusinessKind::RoomEditGroupNoticeMsg => "ws-room-edit-group-notice-msg"@,
        BusinessKind::RoomDissolution => "ws-room-dissolution"@,
        BusinessKind::VideoCallRequest => "ws-video-call-request"@,
        BusinessKind::CallAccepted => "ws-call-accepted"@,
        BusinessKind::CallRejected => "ws-call-rejected"@,
        BusinessKind::RoomClosed => "ws-room-closed"@,
        BusinessKind::WebrtcSignal => "ws-webrtc-signal"@,
        BusinessKind::JoinVideo => "ws-join-video"@,
        BusinessKind::LeaveVideo => "ws-leave-video"@,
        BusinessKind::Dropped => "ws-dropped"@,
        BusinessKind::Cancel => "ws-cancel"@,
        BusinessKind::Timeout => "ws-timeout"@,
        BusinessKind::TokenExpired => "ws-token-expired"@,
        BusinessKind::InvalidUser => "ws-invalid-user"@,
        BusinessKind::DeleteFriend => "ws-delete-friend"@,
        BusinessKind::FeedSendMsg => "ws-feed-send-msg"@,
        BusinessKind::FeedNotify => "ws-feed-notify"@,
        BusinessKind::Unknown => "ws-unknown-message"@,
    }
}

/// The UI channel a business kind is published under.
pub fn event_channel(k: BusinessKind) -> (r: &'static str)
    ensures
        r@ == channel_spec(k),
{
    match k {
        BusinessKind::LoginQrCode => "ws-login-qr-code",
        BusinessKind::WaitingAuthorize => "ws-waiting-authorize",
        BusinessKind::LoginSuccess => "ws-login-success",
        BusinessKind::ReceiveMessage => "ws-receive-message",
        BusinessKind::MsgRecall => "ws-msg-recall",
        BusinessKind::MsgMarkItem => "ws-msg-mark-item",
        BusinessKind::Online => "ws-online",
        BusinessKind::Offline => "ws-offline",
        BusinessKind::UserStateChange => "ws-user-state-change",
        BusinessKind::NotifyEvent => "ws-request-notify-event",
        BusinessKind::GroupSetAdmin => "ws-group-set-admin-success",
        BusinessKind::NewApply => "ws-request-new-apply",
        BusinessKind::RequestApprovalFriend => "ws-request-approval-friend",
        BusinessKind::MemberChange => "ws-member-change",
        BusinessKind::RoomInfoChange => "ws-room-info-change",
        BusinessKind::MyRoomInfoChange => "ws-my-room-info-change",
        BusinessKind::RoomGroupNoticeMsg => "ws-room-group-notice-msg",
        BusinessKind::RoomEditGroupNoticeMsg => "ws-room-edit-group-notice-msg",
        BusinessKind::RoomDissolution => "ws-room-dissolution",
        BusinessKind::VideoCallRequest => "ws-video-call-request",
        BusinessKind::CallAccepted => "ws-call-accepted",
        BusinessKind::CallRejected => "ws-call-rejected",
        BusinessKind::RoomClosed => "ws-room-closed",
        BusinessKind::WebrtcSignal => "ws-webrtc-signal",
        BusinessKind::JoinVideo => "ws-join-video",
        BusinessKind::LeaveVideo => "ws-leave-video",
        BusinessKind::Dropped => "ws-dropped",
        BusinessKind::Cancel => "ws-cancel",
        BusinessKind::Timeout => "ws-timeout",
        BusinessKind::TokenExpired => "ws-token-expired",
        BusinessKind::InvalidUser => "ws-invalid-user",
        BusinessKind::DeleteFriend => "ws-delete-friend",
        BusinessKind::FeedSendMsg => "ws-feed-send-msg",
        BusinessKind::FeedNotify => "ws-feed-notify",
        BusinessKind::Unknown => "ws-unknown-message",
    }
}

/// Where a business kind is published.
pub open spec fn emit_target_spec(k: BusinessKind) -> EmitTarget {
    match k {
        BusinessKind::LoginQrCode => EmitTarget::Broadcast,
        BusinessKind::WaitingAuthorize => EmitTarget::Broadcast,
        BusinessKind::LoginSuccess => EmitTarget::Home,
        BusinessKind::ReceiveMessage => EmitTarget::Home,
        BusinessKind::MsgRecall => EmitTarget::Home,
        BusinessKind::MsgMarkItem => EmitTarget::Home,
        BusinessKind::Online => EmitTarget::Home,
        BusinessKind::Offline => EmitTarget::Home,
        BusinessKind::UserStateChange => EmitTarget::Home,
        BusinessKind::NotifyEvent => EmitTarget::Home,
        BusinessKind::GroupSetAdmin => EmitTarget::Home,
        BusinessKind::NewApply => EmitTarget::Home,
        BusinessKind::RequestApprovalFriend => EmitTarget::Home,
        BusinessKind::MemberChange => EmitTarget::Home,
        BusinessKind::RoomInfoChange => EmitTarget::Home,
        BusinessKind::MyRoomInfoChange => EmitTarget::Home,
        BusinessKind::RoomGroupNoticeMsg => EmitTarget::Home,
        BusinessKind::RoomEditGroupNoticeMsg => EmitTarget::Home,
        BusinessKind::RoomDissolution => EmitTarget::Home,
        BusinessKind::VideoCallRequest => EmitTarget::Broadcast,
        BusinessKind::CallAccepted => EmitTarget::Broadcast,
        BusinessKind::CallRejected => EmitTarget::Broadcast,
        BusinessKind::RoomClosed => EmitTarget::Broadcast,
        BusinessKind::WebrtcSignal => EmitTarget::Broadcast,
        BusinessKind::JoinVideo => EmitTarget::Broadcast,
        BusinessKind::LeaveVideo => EmitTarget::Broadcast,
        BusinessKind::Dropped => EmitTarget::Broadcast,
        BusinessKind::Cancel => EmitTarget::Broadcast,
        BusinessKind::Timeout => EmitTarget::Broadcast,
        BusinessKind::TokenExpired => EmitTarget::Broadcast,
        BusinessKind::InvalidUser => EmitTarget::Broadcast,
        BusinessKind::DeleteFriend => EmitTarget::Broadcast,
        BusinessKind::FeedSendMsg => EmitTarget::Home,
        BusinessKind::FeedNotify => EmitTarget::Home,
        BusinessKind::Unknown => EmitTarget::Broadcast,
    }
}

/// Where a business kind is published.
pub fn emit_target(k: BusinessKind) -> (r: EmitTarget)
    ensures
        r == emit_target_spec(k),
{
    match k {
        BusinessKind::LoginQrCode => EmitTarget::Broadcast,
        BusinessKind::WaitingAuthorize => EmitTarget::Broadcast,
        BusinessKind::VideoCallRequest => EmitTarget::Broadcast,
        BusinessKind::CallAccepted => EmitTarget::Broadcast,
        BusinessKind::CallRejected => EmitTarget::Broadcast,
        BusinessKind::RoomClosed => EmitTarget::Broadcast,
        BusinessKind::WebrtcSignal => EmitTarget::Broadcast,
        BusinessKind::JoinVideo => EmitTarget::Broadcast,
        BusinessKind::LeaveVideo => EmitTarget::Broadcast,
        BusinessKind::Dropped => EmitTarget::Broadcast,
        BusinessKind::Cancel => EmitTarget::Broadcast,
        BusinessKind::Timeout => EmitTarget::Broadcast,
        BusinessKind::TokenExpired => EmitTarget::Broadcast,
        BusinessKind::InvalidUser => EmitTarget::Broadcast,
        BusinessKind::DeleteFriend => EmitTarget::Broadcast,
        BusinessKind::Unknown => EmitTarget::Broadcast,
        _ => EmitTarget::Home,
    }
}

/// Whether delivery of this kind is acknowledged back over the wire.
pub open spec fn wants_ack_spec(k: BusinessKind) -> bool {
    k == BusinessKind::ReceiveMessage
}

/// Whether delivery of this kind is acknowledged back over the wire.
pub fn wants_ack(k: BusinessKind) -> (r: bool)
    ensures
        r == wants_ack_spec(k),
{
    match k {
        BusinessKind::ReceiveMessage => true,
        _ => false,
    }
}

/// Outcome of routing one message through the processor.
#[derive(Clone, Copy, Debug, PartialEq, Eq, Structural)]
pub enum ProcessResult {
    /// The discriminator was recognized and routed.
    Handled,
    /// The discriminator was not recognized; forwarded as unhandled.
    Unhandled,
}

/// Outcome of checking a message's basic shape.
#[derive(Debug, PartialEq)]
pub enum ValidationResult {
    /// The message is a JSON object with a `type` field.
    Valid,
    /// The message is malformed; says why.
    Invalid(String),
}

/// Checks and scrubs inbound messages before they are handed on. The checks
/// look inside opaque JSON values, so their outcomes are established by the
/// tests rather than stated in contracts.
pub struct MessageProcessor {}

impl MessageProcessor {
    /// An empty processor.
    pub fn new() -> (r: Self) {
        MessageProcessor {  }
    }

    /// A message must be a JSON object carrying a `type` field; anything else
    /// is rejected with a reason.
    pub fn validate_message(&self, message: &serde_json::Value) -> ValidationResult {
        if !crate::ext::json_is_object(message) {
            return ValidationResult::Invalid("Message must be an object".to_owned());
        }
        if crate::ext::json_get(message, "type").is_none() {
            return ValidationResult::Invalid("Message must have a 'type' field".to_owned());
        }
        ValidationResult::Valid
    }

    /// Masks the values of well-known sensitive keys with `***` when the
    /// message is an object holding them; other messages pass unchanged.
    pub fn sanitize_message(&self, message: serde_json::Value) -> serde_json::Value {
        let mut message = message;
        if crate::ext::json_get(&message, "password").is_some() {
            crate::ext::json_set_string(&mut message, "password", "***");
        }
        if crate::ext::json_get(&message, "token").is_some() {
            crate::ext::json_set_string(&mut message, "token", "***");
        }
        if crate::ext::json_get(&message, "secret").is_some() {
            crate::ext::json_set_string(&mut message, "secret", "***");
        }
        if crate::ext::json_get(&message, "key").is_some() {
            crate::ext::json_set_string(&mut message, "key", "***");
        }
        message
    }
}

} // verus!
