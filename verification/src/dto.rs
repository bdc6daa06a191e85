//! Request and response shapes of the command surface around the core —
//! chat-history queries, the file manager, message marks, room members and
//! the AI stream — with the small pure parsers the chat-history and file
//! queries use. Database access and the commands themselves belong to the
//! application shell.

use crate::message::str_eq;
use vstd::prelude::*;

verus! {

/// Chat-history query, as the UI sends it.
#[derive(Clone, Debug)]
pub struct ChatHistoryQueryParam {
    /// The room searched.
    pub room_id: String,
    /// Message-kind filter: `all`, `image` or `file`.
    pub message_type: Option<String>,
    /// Text searched for.
    pub search_keyword: Option<String>,
    /// Sort direction: `asc` or `desc`.
    pub sort_order: Option<String>,
    /// Time window searched.
    pub date_range: Option<DateRange>,
    /// Page requested.
    pub pagination: PaginationParam,
}

/// A closed time window, in milliseconds since the Unix epoch.
#[derive(Clone, Copy, Debug)]
pub struct DateRange {
    /// Window start, when bounded.
    pub start_time: Option<i64>,
    /// Window end, when bounded.
    pub end_time: Option<i64>,
}

/// A page request.
#[derive(Clone, Copy, Debug)]
pub struct PaginationParam {
    /// 1-based page number.
    pub page: u32,
    /// Entries per page.
    pub page_size: u32,
}

/// Chat-history query after parsing, as the repository layer consumes it.
#[derive(Clone, Debug)]
pub struct ChatHistoryQueryCondition {
    /// The room searched.
    pub room_id: String,
    /// The logged-in user.
    pub login_uid: String,
    /// Message-type ids to keep; `None` keeps every type.
    pub message_type: Option<Vec<u8>>,
    /// Text searched for.
    pub search_keyword: Option<String>,
    /// Sort direction.
    pub sort_order: SortOrder,
    /// Time window searched.
    pub date_range: Option<DateRange>,
    /// Page requested.
    pub pagination: PaginationParam,
}

/// Sort direction of a chat-history query.
#[derive(Clone, Copy, Debug, PartialEq, Eq, Structural)]
pub enum SortOrder {
    /// Oldest first.
    Asc,
    /// Newest first.
    Desc,
}

/// Parses the message-kind filter of a chat-history query: `image` keeps
/// image and video message types, `file` keeps file messages, anything else
/// (`all` included) keeps every type.
pub fn parse_message_type(message_type: &Option<String>) -> (r: Option<Vec<u8>>)
    ensures
        match message_type {
            Some(t) => if t@ == "image"@ {
                r matches Some(ids) && ids@ == seq![3u8, 6u8]
            } else if t@ == "file"@ {
                r matches Some(ids) && ids@ == seq![4u8]
            } else {
                r is None
            },
            None => r is None,
        },
{
    match message_type {
        Some(msg_type) => {
            if str_eq(msg_type.as_str(), "image") {
                let ids = vec![3u8, 6u8];
                proof {
                    assert(ids@ =~= seq![3u8, 6u8]);
                }
                Some(ids)
            } else if str_eq(msg_type.as_str(), "file") {
                let ids = vec![4u8];
                proof {
                    assert(ids@ =~= seq![4u8]);
                }
                Some(ids)
            } else {
                None
            }
        },
        None => None,
    }
}

/// Parses the sort direction of a chat-history query: `asc` sorts oldest
/// first, anything else (absent included) newest first.
pub fn parse_sort_order(sort_order: &Option<String>) -> (r: SortOrder)
    ensures
        r == (match sort_order {
            Some(o) => if o@ == "asc"@ {
                SortOrder::Asc
            } else {
                SortOrder::Desc
            },
            None => SortOrder::Desc,
        }),
{
    match sort_order {
        Some(order) => {
            if str_eq(order.as_str(), "asc") {
                SortOrder::Asc
            } else {
                SortOrder::Desc
            }
        },
        None => SortOrder::Desc,
    }
}

/// One file as the file manager lists it.
#[derive(Clone, Debug)]
pub struct FileInfo {
    /// Message id the file came with.
    pub id: String,
    /// File name.
    pub file_name: String,
    /// Size in bytes.
    pub file_size: i64,
    /// Kind: `file`, `video` or `unknown`.
    pub file_type: String,
    /// When it was uploaded.
    pub upload_time: String,
    /// Who sent it.
    pub sender: UserInfo,
    /// Where to download it, when known.
    pub download_url: Option<String>,
    /// Whether it was downloaded already, when known.
    pub is_downloaded: Option<bool>,
    /// Transfer status: `uploading`, `completed`, `expired` or `downloading`.
    pub status: String,
    /// Thumbnail location, when one exists.
    pub thumbnail_url: Option<String>,
}

/// A user as the file manager lists senders.
#[derive(Clone, Debug)]
pub struct UserInfo {
    /// User id.
    pub id: String,
    /// Display name.
    pub name: String,
    /// Avatar location.
    pub avatar: String,
    /// Whether the user is online, when known.
    pub is_online: Option<bool>,
}

/// Files grouped under one calendar day.
#[derive(Clone, Debug)]
pub struct TimeGroup {
    /// The day, as a sortable date.
    pub date: String,
    /// The day, as the UI shows it.
    pub display_date: String,
    /// The day's files.
    pub files: Vec<FileInfo>,
}

/// One entry of the file manager's navigation rail.
#[derive(Clone, Debug)]
pub struct NavigationItem {
    /// Stable key.
    pub key: String,
    /// Label the UI shows.
    pub label: String,
    /// Icon name.
    pub icon: String,
    /// Whether the entry is selected.
    pub active: bool,
}

/// File query, as the UI sends it.
#[derive(Clone, Debug)]
pub struct FileQueryParam {
    /// Which rail entry is queried: `myFiles`, `senders` or `sessions`.
    pub navigation_type: String,
    /// Sender filter, when set.
    pub selected_user: Option<String>,
    /// Text searched for.
    pub search_keyword: Option<String>,
    /// Room filter, when set.
    pub room_id: Option<String>,
    /// 1-based page number.
    pub page: u32,
    /// Entries per page.
    pub page_size: u32,
}

/// File query response.
#[derive(Clone, Debug)]
pub struct FileQueryResponse {
    /// The page's files, grouped by day.
    pub time_grouped_files: Vec<TimeGroup>,
    /// The senders seen on the page.
    pub user_list: Vec<UserInfo>,
    /// Whether more pages follow.
    pub has_more: bool,
    /// The page returned.
    pub current_page: u32,
}

/// The file kind a message type stands for: type 4 is a file, type 6 a
/// video, anything else unknown.
pub fn get_file_type_from_message_type(message_type: u8) -> (r: String)
    ensures
        r@ == (if message_type == 4 {
            "file"@
        } else if message_type == 6 {
            "video"@
        } else {
            "unknown"@
        }),
{
    if message_type == 4 {
        "file".to_owned()
    } else if message_type == 6 {
        "video".to_owned()
    } else {
        "unknown".to_owned()
    }
}

/// A message's sender.
#[derive(Clone, Debug)]
pub struct FromUser {
    /// User id.
    pub uid: String,
    /// Display name, when known.
    pub nickname: Option<String>,
}

/// Link preview of a URL found in a message.
#[derive(Clone, Debug)]
pub struct UrlInfo {
    /// Page title.
    pub title: Option<String>,
    /// Page description.
    pub description: Option<String>,
    /// Preview image location.
    pub image: Option<String>,
}

/// One entry of a merged (forwarded) message.
#[derive(Clone, Debug)]
pub struct MergeMessage {
    /// The entry's text.
    pub content: Option<String>,
    /// When it was written.
    pub created_time: Option<i64>,
    /// Who wrote it.
    pub name: Option<String>,
}

/// A reaction mark on a message.
#[derive(Clone, Copy, Debug)]
pub struct MessageMark {
    /// How many users set it.
    pub count: u32,
    /// Whether the caller set it.
    pub user_marked: bool,
}

/// Parameters of the message-sync command.
#[derive(Clone, Debug)]
pub struct SyncMessagesParam {
    /// Whether to sync asynchronously.
    pub async_data: Option<bool>,
    /// Whether to sync from the beginning.
    pub full_sync: Option<bool>,
    /// User to sync for, when not the logged-in one.
    pub uid: Option<String>,
}

/// Request to set or clear a reaction mark.
#[derive(Clone, Debug)]
pub struct ChatMessageMarkReq {
    /// The marked message.
    pub msg_id: String,
    /// Which mark.
    pub mark_type: i32,
    /// Set or clear.
    pub act_type: u8,
    /// Who marks.
    pub uid: String,
    /// How many users have set the mark.
    pub mark_count: u32,
}

/// Request to hide or show a contact.
#[derive(Clone, Debug)]
pub struct HideContactRequest {
    /// The contact's room.
    pub room_id: String,
    /// Hide when true, show when false.
    pub hide: bool,
}

/// One room member, as the member list shows it.
#[derive(Clone, Debug)]
pub struct RoomMemberResponse {
    /// Member id.
    pub id: String,
    /// The room.
    pub room_id: Option<String>,
    /// The member's user id.
    pub uid: Option<String>,
    /// The member's account name.
    pub account: Option<String>,
    /// The member's nickname in the room.
    pub my_name: Option<String>,
    /// Activity status.
    pub active_status: Option<u8>,
    /// Role in the room.
    pub group_role: Option<i64>,
    /// Location, when shared.
    pub loc_place: Option<String>,
    /// When the member last acted.
    pub last_opt_time: i64,
    /// When the member joined.
    pub create_time: Option<i64>,
    /// Display name.
    pub name: String,
    /// Avatar location.
    pub avatar: Option<String>,
}

/// One event of an AI response stream.
#[derive(Clone, Debug)]
pub struct SseStreamEvent {
    /// Kind: `chunk`, `done` or `error`.
    pub event_type: String,
    /// Data carried by a chunk.
    pub data: Option<String>,
    /// Error text carried by an error.
    pub error: Option<String>,
    /// Which request the event belongs to.
    pub request_id: String,
}

/// Request to send a message to the AI assistant.
#[derive(Clone, Debug)]
pub struct AiMessageRequest {
    /// The conversation written in.
    pub conversation_id: String,
    /// The message text.
    pub content: String,
    /// Whether to send conversation context along.
    pub use_context: Option<bool>,
    /// Whether to ask for reasoning output.
    pub reasoning_enabled: Option<bool>,
}

} // verus!
