//! The events and values that the host hands a plugin.

use vstd::prelude::*;

verus! {

/// The kind of a live-room message, by the host's numbering.
#[derive(Debug, Clone, Copy, PartialEq, Eq, Structural)]
pub enum MsgType {
    Comment,
    GiftSend,
    GiftTop,
    Welcome,
    LiveStart,
    LiveEnd,
    Unknown,
    WelcomeGuard,
    GuardBuy,
    SuperChat,
    Interact,
    Warning,
    WatchedChange,
    OpConnectionEnd,
    Other(i32),
}

impl MsgType {
    /// The message kind that the host's number `value` stands for; numbers
    /// without a name of their own are kept as `Other`.
    pub open spec fn spec_from_raw(value: i32) -> MsgType {
        if value == 0 {
            MsgType::Comment
        } else if value == 1 {
            MsgType::GiftSend
        } else if value == 2 {
            MsgType::GiftTop
        } else if value == 3 {
            MsgType::Welcome
        } else if value == 4 {
            MsgType::LiveStart
        } else if value == 5 {
            MsgType::LiveEnd
        } else if value == 6 {
            MsgType::Unknown
        } else if value == 7 {
            MsgType::WelcomeGuard
        } else if value == 8 {
            MsgType::GuardBuy
        } else if value == 9 {
            MsgType::SuperChat
        } else if value == 10 {
            MsgType::Interact
        } else if value == 11 {
            MsgType::Warning
        } else if value == 12 {
            MsgType::WatchedChange
        } else if value == 13 {
            MsgType::OpConnectionEnd
        } else {
            MsgType::Other(value)
        }
    }

    /// The host's number for a message kind.
    pub open spec fn spec_as_raw(self) -> i32 {
        match self {
            MsgType::Comment => 0,
            MsgType::GiftSend => 1,
            MsgType::GiftTop => 2,
            MsgType::Welcome => 3,
            MsgType::LiveStart => 4,
            MsgType::LiveEnd => 5,
            MsgType::Unknown => 6,
            MsgType::WelcomeGuard => 7,
            MsgType::GuardBuy => 8,
            MsgType::SuperChat => 9,
            MsgType::Interact => 10,
            MsgType::Warning => 11,
            MsgType::WatchedChange => 12,
            MsgType::OpConnectionEnd => 13,
            MsgType::Other(value) => value,
        }
    }

    /// A value that `from_raw` can give: `Other` only for numbers without a
    /// name of their own.
    pub open spec fn is_canonical(self) -> bool {
        match self {
            MsgType::Other(value) => !(0 <= value <= 13),
            _ => true,
        }
    }

    /// Reads the host's number for a message kind.
    pub fn from_raw(value: i32) -> (res: Self)
        ensures
            res == Self::spec_from_raw(value),
    {
        match value {
            0 => Self::Comment,
            1 => Self::GiftSend,
            2 => Self::GiftTop,
            3 => Self::Welcome,
            4 => Self::LiveStart,
            5 => Self::LiveEnd,
            6 => Self::Unknown,
            7 => Self::WelcomeGuard,
            8 => Self::GuardBuy,
            9 => Self::SuperChat,
            10 => Self::Interact,
            11 => Self::Warning,
            12 => Self::WatchedChange,
            13 => Self::OpConnectionEnd,
            other => Self::Other(other),
        }
    }

    /// The host's number for this message kind.
    pub fn as_raw(self) -> (res: i32)
        ensures
            res == self.spec_as_raw(),
    {
        match self {
            Self::Comment => 0,
            Self::GiftSend => 1,
            Self::GiftTop => 2,
            Self::Welcome => 3,
            Self::LiveStart => 4,
            Self::LiveEnd => 5,
            Self::Unknown => 6,
            Self::WelcomeGuard => 7,
            Self::GuardBuy => 8,
            Self::SuperChat => 9,
            Self::Interact => 10,
            Self::Warning => 11,
            Self::WatchedChange => 12,
            Self::OpConnectionEnd => 13,
            Self::Other(value) => value,
        }
    }
}

/// Reading a number and writing it back gives the number; writing a kind and
/// reading it back gives the kind exactly when `from_raw` can give that kind.
pub proof fn lemma_msg_type_raw_round_trip(value: i32, kind: MsgType)
    ensures
        MsgType::spec_from_raw(value).spec_as_raw() == value,
        MsgType::spec_from_raw(value).is_canonical(),
        MsgType::spec_from_raw(kind.spec_as_raw()) == kind <==> kind.is_canonical(),
{
}

/// The host's numbering of message kinds: 0 comment, 1 gift sent, 2 gift
/// ranking, 3 welcome, 4 live start, 5 live end, 6 unknown, 7 guard welcome,
/// 8 guard bought, 9 Super Chat, 10 interaction, 11 warning, 12 watched
/// count, 13 connection ended; every other number is kept as `Other`. Both
/// directions follow the table.
pub proof fn lemma_msg_type_numbering(value: i32)
    ensures
        MsgType::spec_from_raw(0) == MsgType::Comment,
        MsgType::spec_from_raw(1) == MsgType::GiftSend,
        MsgType::spec_from_raw(2) == MsgType::GiftTop,
        MsgType::spec_from_raw(3) == MsgType::Welcome,
        MsgType::spec_from_raw(4) == MsgType::LiveStart,
        MsgType::spec_from_raw(5) == MsgType::LiveEnd,
        MsgType::spec_from_raw(6) == MsgType::Unknown,
        MsgType::spec_from_raw(7) == MsgType::WelcomeGuard,
        MsgType::spec_from_raw(8) == MsgType::GuardBuy,
        MsgType::spec_from_raw(9) == MsgType::SuperChat,
        MsgType::spec_from_raw(10) == MsgType::Interact,
        MsgType::spec_from_raw(11) == MsgType::Warning,
        MsgType::spec_from_raw(12) == MsgType::WatchedChange,
        MsgType::spec_from_raw(13) == MsgType::OpConnectionEnd,
        !(0 <= value <= 13) ==> MsgType::spec_from_raw(value) == MsgType::Other(value),
        MsgType::Comment.spec_as_raw() == 0,
        MsgType::GiftSend.spec_as_raw() == 1,
        MsgType::GiftTop.spec_as_raw() == 2,
        MsgType::Welcome.spec_as_raw() == 3,
        MsgType::LiveStart.spec_as_raw() == 4,
        MsgType::LiveEnd.spec_as_raw() == 5,
        MsgType::Unknown.spec_as_raw() == 6,
        MsgType::WelcomeGuard.spec_as_raw() == 7,
        MsgType::GuardBuy.spec_as_raw() == 8,
        MsgType::SuperChat.spec_as_raw() == 9,
        MsgType::Interact.spec_as_raw() == 10,
        MsgType::Warning.spec_as_raw() == 11,
        MsgType::WatchedChange.spec_as_raw() == 12,
        MsgType::OpConnectionEnd.spec_as_raw() == 13,
        MsgType::Other(value).spec_as_raw() == value,
{
}

/// The kind of an interaction with the room, by the host's numbering, where
/// zero means that the message is no interaction.
#[derive(Debug, Clone, Copy, PartialEq, Eq, Structural)]
pub enum InteractType {
    Enter,
    Follow,
    Share,
    SpecialFollow,
    MutualFollow,
    Like,
    Other(i32),
}

impl InteractType {
    /// The interaction that the host's number `value` stands for: none for
    /// zero, and `Other` for numbers without a name of their own.
    pub open spec fn spec_from_raw(value: i32) -> Option<InteractType> {
        if value == 0 {
            None
        } else if value == 1 {
            Some(InteractType::Enter)
        } else if value == 2 {
            Some(InteractType::Follow)
        } else if value == 3 {
            Some(InteractType::Share)
        } else if value == 4 {
            Some(InteractType::SpecialFollow)
        } else if value == 5 {
            Some(InteractType::MutualFollow)
        } else if value == 6 {
            Some(InteractType::Like)
        } else {
            Some(InteractType::Other(value))
        }
    }

    /// The host's number for an interaction.
    pub open spec fn spec_as_raw(self) -> i32 {
        match self {
            InteractType::Enter => 1,
            InteractType::Follow => 2,
            InteractType::Share => 3,
            InteractType::SpecialFollow => 4,
            InteractType::MutualFollow => 5,
            InteractType::Like => 6,
            InteractType::Other(value) => value,
        }
    }

    /// A value that `from_raw` can give: `Other` only for non-zero numbers
    /// without a name of their own.
    pub open spec fn is_canonical(self) -> bool {
        match self {
            InteractType::Other(value) => !(0 <= value <= 6),
            _ => true,
        }
    }

    /// Reads the host's number for an interaction.
    pub fn from_raw(value: i32) -> (res: Option<Self>)
        ensures
            res == Self::spec_from_raw(value),
    {
        match value {
            0 => None,
            1 => Some(Self::Enter),
            2 => Some(Self::Follow),
            3 => Some(Self::Share),
            4 => Some(Self::SpecialFollow),
            5 => Some(Self::MutualFollow),
            6 => Some(Self::Like),
            other => Some(Self::Other(other)),
        }
    }

    /// The host's number for this interaction.
    pub fn as_raw(self) -> (res: i32)
        ensures
            res == self.spec_as_raw(),
    {
        match self {
            Self::Enter => 1,
            Self::Follow => 2,
            Self::Share => 3,
            Self::SpecialFollow => 4,
            Self::MutualFollow => 5,
            Self::Like => 6,
            Self::Other(value) => value,
        }
    }
}

/// Zero reads as no interaction and every other number reads as one that
/// writes back to it; writing an interaction and reading it back gives it
/// exactly when `from_raw` can give it.
pub proof fn lemma_interact_type_raw_round_trip(value: i32, kind: InteractType)
    ensures
        InteractType::spec_from_raw(value) is None <==> value == 0,
        InteractType::spec_from_raw(value) matches Some(k) ==> k.spec_as_raw() == value
            && k.is_canonical(),
        InteractType::spec_from_raw(kind.spec_as_raw()) == Some(kind) <==> kind.is_canonical(),
{
}

/// The host's numbering of interactions: 0 none, 1 entering, 2 following,
/// 3 sharing, 4 special follow, 5 mutual follow, 6 like; every other number
/// is kept as `Other`. Both directions follow the table.
pub proof fn lemma_interact_type_numbering(value: i32)
    ensures
        InteractType::spec_from_raw(0) == None::<InteractType>,
        InteractType::spec_from_raw(1) == Some(InteractType::Enter),
        InteractType::spec_from_raw(2) == Some(InteractType::Follow),
        InteractType::spec_from_raw(3) == Some(InteractType::Share),
        InteractType::spec_from_raw(4) == Some(InteractType::SpecialFollow),
        InteractType::spec_from_raw(5) == Some(InteractType::MutualFollow),
        InteractType::spec_from_raw(6) == Some(InteractType::Like),
        !(0 <= value <= 6) ==> InteractType::spec_from_raw(value) == Some(
            InteractType::Other(value),
        ),
        InteractType::Enter.spec_as_raw() == 1,
        InteractType::Follow.spec_as_raw() == 2,
        InteractType::Share.spec_as_raw() == 3,
        InteractType::SpecialFollow.spec_as_raw() == 4,
        InteractType::MutualFollow.spec_as_raw() == 5,
        InteractType::Like.spec_as_raw() == 6,
        InteractType::Other(value).spec_as_raw() == value,
{
}

/// What a plugin tells the host about itself.
#[derive(Debug, Clone)]
pub struct PluginMetadata {
    pub name: &'static str,
    pub author: &'static str,
    pub contact: &'static str,
    pub version: &'static str,
    pub description: &'static str,
}

/// The state of the host when it calls a lifecycle method of the plugin.
#[derive(Debug, Clone, Copy, PartialEq, Eq, Structural)]
pub struct PluginContext {
    pub room_id: Option<i32>,
    pub status: bool,
    pub debug_mode: bool,
}

/// Why the host lost its connection to the room, when it says.
#[derive(Debug, Clone)]
pub struct DisconnectEvent {
    pub error: Option<String>,
}

/// One entry of the gift ranking of a room.
#[derive(Debug, Clone)]
pub struct GiftRank {
    pub user_name: Option<String>,
    pub coin: Option<String>,
    pub uid: i32,
    pub uid_long: i64,
    pub uid_str: Option<String>,
}

/// One message from the live room.
#[derive(Debug, Clone)]
pub struct Danmaku {
    pub msg_type: MsgType,
    pub interact_type: Option<InteractType>,
    pub comment_text: Option<String>,
    pub comment_user: Option<String>,
    pub user_name: Option<String>,
    pub user_id: i32,
    pub user_id_long: i64,
    pub user_id_str: Option<String>,
    pub user_guard_level: i32,
    pub gift_user: Option<String>,
    pub gift_name: Option<String>,
    pub gift_num: Option<String>,
    pub gift_count: i32,
    pub gift_rcost: Option<String>,
    pub gift_ranking: Vec<GiftRank>,
    pub is_admin: bool,
    pub is_vip: bool,
    pub room_id: Option<String>,
    pub raw_data: Option<String>,
    pub json_version: i32,
    pub price: Option<String>,
    pub sc_keep_time: i32,
    pub watched_count: i64,
    pub raw_data_jtoken: Option<String>,
}

/// The text of an optional string.
pub open spec fn text_of(s: Option<String>) -> Option<Seq<char>> {
    match s {
        Some(t) => Some(t@),
        None => None,
    }
}

} // verus!
