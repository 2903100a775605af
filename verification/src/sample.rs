//! The sample plugin: it counts comments, gifts and Super Chats, answers
//! `!ping`, and reports what it saw. Each callback decides which host calls
//! to make; making them is up to the caller.

use vstd::prelude::*;
use crate::model::{Danmaku, DisconnectEvent, InteractType, MsgType, PluginContext, PluginMetadata};
use crate::host::{add_dm, call_views, concat, log, HostCall, HostCallView};
use crate::text::{
    ascii_lower, chars_of, decimal_i32, decimal_spec, decimal_u64, signed_decimal_spec,
    to_ascii_lower, trim, trim_spec,
};
use crate::version::{all_digits, decimal_value, lemma_decimal_spelling_reads_back};

verus! {

/// What the sample plugin has counted since it was started.
#[derive(Debug, Clone, Copy, PartialEq, Eq, Structural)]
pub struct SamplePlugin {
    pub comments: u64,
    pub gifts: u64,
    pub super_chats: u64,
    pub latest_room_count: Option<u32>,
}

/// A text, or `default` when there is none.
pub open spec fn or_spec(s: Option<String>, default: Seq<char>) -> Seq<char> {
    match s {
        Some(t) => t@,
        None => default,
    }
}

fn or_text(s: &Option<String>, default: &str) -> (res: String)
    ensures
        res@ == or_spec(*s, default@),
{
    match s {
        Some(t) => String::from_str(t.as_str()),
        None => String::from_str(default),
    }
}

/// `!ping` in any ASCII case.
pub open spec fn is_ping(text: Seq<char>) -> bool {
    text.len() == 5 && ascii_lower(text[0]) == '!' && ascii_lower(text[1]) == 'p' && ascii_lower(
        text[2],
    ) == 'i' && ascii_lower(text[3]) == 'n' && ascii_lower(text[4]) == 'g'
}

fn check_ping(text: &str) -> (res: bool)
    ensures
        res == is_ping(trim_spec(text@)),
{
    let t = trim(&chars_of(text));
    t.len() == 5 && to_ascii_lower(t[0]) == '!' && to_ascii_lower(t[1]) == 'p' && to_ascii_lower(
        t[2],
    ) == 'i' && to_ascii_lower(t[3]) == 'n' && to_ascii_lower(t[4]) == 'g'
}

/// How many gifts a gift message counts for: its count, at least one.
pub open spec fn gift_count_spec(count: i32) -> u64 {
    if count < 1 {
        1
    } else {
        count as u64
    }
}

/// The uptime part of a summary.
pub open spec fn uptime_spec(uptime_secs: Option<u64>) -> Seq<char> {
    match uptime_secs {
        Some(s) => "uptime="@ + decimal_spec(s as nat) + "s"@,
        None => "uptime=not-started"@,
    }
}

/// The summary of what the plugin counted.
pub open spec fn summary_spec(p: SamplePlugin, uptime_secs: Option<u64>) -> Seq<char> {
    uptime_spec(uptime_secs) + ", comments="@ + decimal_spec(p.comments as nat) + ", gifts="@
        + decimal_spec(p.gifts as nat) + ", super_chats="@ + decimal_spec(p.super_chats as nat)
        + ", latest_room_count="@ + match p.latest_room_count {
        Some(c) => decimal_spec(c as nat),
        None => "unknown"@,
    }
}

/// A summary begins with `uptime=`, then the whole uptime in seconds as a
/// decimal number that reads back as that uptime, then `s` and the comment
/// count; with no uptime it begins `uptime=not-started`.
pub proof fn lemma_summary_reports_uptime(p: SamplePlugin, secs: u64)
    ensures
        summary_spec(p, Some(secs)).take(7) == "uptime="@,
        summary_spec(p, Some(secs)).subrange(7, 7 + decimal_spec(secs as nat).len() as int)
            == decimal_spec(secs as nat),
        all_digits(decimal_spec(secs as nat)),
        decimal_value(decimal_spec(secs as nat)) == secs,
        summary_spec(p, Some(secs)).subrange(
            7 + decimal_spec(secs as nat).len() as int,
            7 + decimal_spec(secs as nat).len() as int + 12,
        ) == "s, comments="@,
        summary_spec(p, None).take(18) == "uptime=not-started"@,
{
    lemma_decimal_spelling_reads_back(secs as nat);
    reveal_strlit("uptime=");
    reveal_strlit("s");
    reveal_strlit(", comments=");
    reveal_strlit("s, comments=");
    reveal_strlit("uptime=not-started");
    let d = decimal_spec(secs as nat);
    let u = "uptime="@ + d + "s"@;
    let rest = ", comments="@ + decimal_spec(p.comments as nat) + ", gifts="@ + decimal_spec(
        p.gifts as nat,
    ) + ", super_chats="@ + decimal_spec(p.super_chats as nat) + ", latest_room_count="@
        + match p.latest_room_count {
        Some(c) => decimal_spec(c as nat),
        None => "unknown"@,
    };
    let all = summary_spec(p, Some(secs));
    assert(all =~= "uptime="@ + d + "s"@ + rest);
    assert(all.take(7) =~= "uptime="@);
    assert(all.subrange(7, 7 + d.len() as int) =~= d);
    assert(all.subrange(7 + d.len() as int, 7 + d.len() as int + 12) =~= "s, comments="@);
    let none = summary_spec(p, None);
    assert(none.take(18) =~= "uptime=not-started"@);
}

/// The calls made for a comment.
pub open spec fn comment_calls(danmaku: Danmaku) -> Seq<HostCallView> {
    let user = or_spec(danmaku.user_name, "unknown"@);
    let text = or_spec(danmaku.comment_text, ""@);
    seq![HostCallView::Log("[comment] "@ + user + ": "@ + text)] + if is_ping(trim_spec(text)) {
        seq![HostCallView::AddDm("pong, "@ + user, false)]
    } else {
        Seq::empty()
    }
}

/// The calls made for a gift.
pub open spec fn gift_calls(danmaku: Danmaku) -> Seq<HostCallView> {
    seq![
        HostCallView::Log(
            "[gift] "@ + or_spec(danmaku.user_name, "unknown"@) + " sent "@ + or_spec(
                danmaku.gift_name,
                "gift"@,
            ) + " x"@ + decimal_spec(gift_count_spec(danmaku.gift_count) as nat),
        ),
    ]
}

/// The calls made for a Super Chat.
pub open spec fn super_chat_calls(danmaku: Danmaku) -> Seq<HostCallView> {
    let user = or_spec(danmaku.user_name, "unknown"@);
    let price = or_spec(danmaku.price, "?"@);
    let text = or_spec(danmaku.comment_text, ""@);
    seq![
        HostCallView::Log("[super chat] "@ + user + " paid "@ + price + ": "@ + text),
        HostCallView::AddDm("SC from "@ + user + ": "@ + text, true),
    ]
}

/// The calls made for an interaction.
pub open spec fn interact_calls(danmaku: Danmaku) -> Seq<HostCallView> {
    let user = or_spec(danmaku.user_name, "unknown"@);
    match danmaku.interact_type {
        Some(InteractType::Follow) => seq![HostCallView::Log("[follow] "@ + user + " followed"@)],
        Some(InteractType::Share) => seq![
            HostCallView::Log("[share] "@ + user + " shared the room"@),
        ],
        Some(InteractType::Like) => seq![HostCallView::Log("[like] "@ + user + " liked"@)],
        _ => Seq::empty(),
    }
}

/// The message that the sample plugin logs and shows when it starts.
pub const STARTED: &'static str = "Sample Rust plugin started";

impl SamplePlugin {
    /// A plugin that has counted nothing.
    pub open spec fn new_spec() -> SamplePlugin {
        SamplePlugin { comments: 0, gifts: 0, super_chats: 0, latest_room_count: None }
    }

    /// A plugin that has counted nothing.
    pub fn new() -> (res: Self)
        ensures
            res == Self::new_spec(),
    {
        SamplePlugin { comments: 0, gifts: 0, super_chats: 0, latest_room_count: None }
    }

    /// What the sample plugin tells the host about itself.
    pub fn metadata(&self) -> (res: PluginMetadata)
        ensures
            res.name@ == "Rust Sample Danmuji Plugin"@,
            res.author@ == "danmuji-sdk-rs"@,
            res.contact@ == ""@,
            res.version@ == "v0.1.0"@,
            res.description@ == "Sample Rust plugin for Bilibili Danmuji"@,
    {
        PluginMetadata {
            name: "Rust Sample Danmuji Plugin",
            author: "danmuji-sdk-rs",
            contact: "",
            version: "v0.1.0",
            description: "Sample Rust plugin for Bilibili Danmuji",
        }
    }

    /// The summary of what was counted; `uptime_secs` is the time since
    /// the start, when the plugin was started.
    pub fn summary(&self, uptime_secs: Option<u64>) -> (res: String)
        ensures
            res@ == summary_spec(*self, uptime_secs),
    {
        let mut out = match uptime_secs {
            Some(s) => {
                let a = concat("uptime=", decimal_u64(s).as_str());
                concat(a.as_str(), "s")
            },
            None => String::from_str("uptime=not-started"),
        };
        out.append(", comments=");
        out.append(decimal_u64(self.comments).as_str());
        out.append(", gifts=");
        out.append(decimal_u64(self.gifts).as_str());
        out.append(", super_chats=");
        out.append(decimal_u64(self.super_chats).as_str());
        out.append(", latest_room_count=");
        match self.latest_room_count {
            Some(c) => out.append(decimal_u64(c as u64).as_str()),
            None => out.append("unknown"),
        }
        out
    }

    /// Counts a comment, logs it, and answers `!ping` (in any ASCII case,
    /// surrounding whitespace ignored) with a pong to its author.
    pub fn handle_comment(&mut self, danmaku: &Danmaku) -> (res: Vec<HostCall>)
        requires
            old(self).comments < u64::MAX,
        ensures
            *final(self) == (SamplePlugin { comments: (old(self).comments + 1) as u64, ..*old(self) }),
            call_views(res@) == comment_calls(*danmaku),
    {
        self.comments = self.comments + 1;
        let user = or_text(&danmaku.user_name, "unknown");
        let text = or_text(&danmaku.comment_text, "");
        let mut calls: Vec<HostCall> = Vec::new();
        let line = concat(concat(concat("[comment] ", user.as_str()).as_str(), ": ").as_str(), text.as_str());
        log(&mut calls, line);
        if check_ping(text.as_str()) {
            add_dm(&mut calls, concat("pong, ", user.as_str()), false);
        }
        calls
    }

    /// Counts a gift message (as its count, at least one) and logs it.
    pub fn handle_gift(&mut self, danmaku: &Danmaku) -> (res: Vec<HostCall>)
        requires
            old(self).gifts + gift_count_spec(danmaku.gift_count) <= u64::MAX,
        ensures
            *final(self) == (SamplePlugin {
                gifts: (old(self).gifts + gift_count_spec(danmaku.gift_count)) as u64,
                ..*old(self)
            }),
            call_views(res@) == gift_calls(*danmaku),
    {
        let count: u64 = if danmaku.gift_count < 1 { 1 } else { danmaku.gift_count as u64 };
        self.gifts = self.gifts + count;
        let user = or_text(&danmaku.user_name, "unknown");
        let gift_name = or_text(&danmaku.gift_name, "gift");
        let mut calls: Vec<HostCall> = Vec::new();
        let a = concat(concat("[gift] ", user.as_str()).as_str(), " sent ");
        let b = concat(concat(a.as_str(), gift_name.as_str()).as_str(), " x");
        log(&mut calls, concat(b.as_str(), decimal_u64(count).as_str()));
        calls
    }

    /// Counts a Super Chat, logs it with its price and shows it.
    pub fn handle_super_chat(&mut self, danmaku: &Danmaku) -> (res: Vec<HostCall>)
        requires
            old(self).super_chats < u64::MAX,
        ensures
            *final(self) == (SamplePlugin {
                super_chats: (old(self).super_chats + 1) as u64,
                ..*old(self)
            }),
            call_views(res@) == super_chat_calls(*danmaku),
    {
        self.super_chats = self.super_chats + 1;
        let user = or_text(&danmaku.user_name, "unknown");
        let price = or_text(&danmaku.price, "?");
        let text = or_text(&danmaku.comment_text, "");
        let mut calls: Vec<HostCall> = Vec::new();
        let a = concat(concat("[super chat] ", user.as_str()).as_str(), " paid ");
        let b = concat(concat(a.as_str(), price.as_str()).as_str(), ": ");
        log(&mut calls, concat(b.as_str(), text.as_str()));
        let c = concat(concat("SC from ", user.as_str()).as_str(), ": ");
        add_dm(&mut calls, concat(c.as_str(), text.as_str()), true);
        calls
    }

    /// Logs follows, shares and likes; other interactions pass silently.
    pub fn handle_interact(&self, danmaku: &Danmaku) -> (res: Vec<HostCall>)
        ensures
            call_views(res@) == interact_calls(*danmaku),
    {
        let user = or_text(&danmaku.user_name, "unknown");
        let mut calls: Vec<HostCall> = Vec::new();
        match danmaku.interact_type {
            Some(InteractType::Follow) => {
                log(&mut calls, concat(concat("[follow] ", user.as_str()).as_str(), " followed"));
            },
            Some(InteractType::Share) => {
                log(
                    &mut calls,
                    concat(concat("[share] ", user.as_str()).as_str(), " shared the room"),
                );
            },
            Some(InteractType::Like) => {
                log(&mut calls, concat(concat("[like] ", user.as_str()).as_str(), " liked"));
            },
            _ => {},
        }
        assert(call_views(calls@) =~= match danmaku.interact_type {
            Some(InteractType::Follow) => seq![
                HostCallView::Log("[follow] "@ + user@ + " followed"@),
            ],
            Some(InteractType::Share) => seq![
                HostCallView::Log("[share] "@ + user@ + " shared the room"@),
            ],
            Some(InteractType::Like) => seq![HostCallView::Log("[like] "@ + user@ + " liked"@)],
            _ => Seq::empty(),
        });
        calls
    }

    /// Resets the counts, announces the start, and logs the room when the
    /// host is in one.
    pub fn start(&mut self, ctx: PluginContext) -> (res: Vec<HostCall>)
        ensures
            *final(self) == SamplePlugin::new_spec(),
            call_views(res@) == seq![
                HostCallView::Log(STARTED@),
                HostCallView::AddDm(STARTED@, true),
            ] + match ctx.room_id {
                Some(r) => seq![HostCallView::Log("Current room: "@ + signed_decimal_spec(r as int))],
                None => Seq::empty(),
            },
    {
        self.comments = 0;
        self.gifts = 0;
        self.super_chats = 0;
        self.latest_room_count = None;
        let mut calls: Vec<HostCall> = Vec::new();
        log(&mut calls, String::from_str(STARTED));
        add_dm(&mut calls, String::from_str(STARTED), true);
        match ctx.room_id {
            Some(room_id) => {
                log(&mut calls, concat("Current room: ", decimal_i32(room_id).as_str()));
            },
            None => {},
        }
        calls
    }

    /// Logs the summary when the plugin stops.
    pub fn stop(&self, uptime_secs: Option<u64>) -> (res: Vec<HostCall>)
        ensures
            call_views(res@) == seq![
                HostCallView::Log("Sample Rust plugin stopped. "@ + summary_spec(*self, uptime_secs)),
            ],
    {
        let mut calls: Vec<HostCall> = Vec::new();
        log(&mut calls, concat("Sample Rust plugin stopped. ", self.summary(uptime_secs).as_str()));
        calls
    }

    /// Logs and shows the summary when the user opens the settings.
    pub fn admin(&self, uptime_secs: Option<u64>) -> (res: Vec<HostCall>)
        ensures
            call_views(res@) == seq![
                HostCallView::Log("Admin summary: "@ + summary_spec(*self, uptime_secs)),
                HostCallView::AddDm(summary_spec(*self, uptime_secs), true),
            ],
    {
        let summary = self.summary(uptime_secs);
        let mut calls: Vec<HostCall> = Vec::new();
        log(&mut calls, concat("Admin summary: ", summary.as_str()));
        add_dm(&mut calls, summary, true);
        calls
    }

    /// Logs the room that the host connected to.
    pub fn connected(&self, room_id: i32) -> (res: Vec<HostCall>)
        ensures
            call_views(res@) == seq![
                HostCallView::Log("Connected to room "@ + signed_decimal_spec(room_id as int)),
            ],
    {
        let mut calls: Vec<HostCall> = Vec::new();
        log(&mut calls, concat("Connected to room ", decimal_i32(room_id).as_str()));
        calls
    }

    /// Logs a lost connection, with its reason when the host gives one.
    pub fn disconnected(&self, event: &DisconnectEvent) -> (res: Vec<HostCall>)
        ensures
            call_views(res@) == seq![
                HostCallView::Log(
                    match event.error {
                        Some(e) => "Disconnected: "@ + e@,
                        None => "Disconnected"@,
                    },
                ),
            ],
    {
        let mut calls: Vec<HostCall> = Vec::new();
        match &event.error {
            Some(error) => log(&mut calls, concat("Disconnected: ", error.as_str())),
            None => log(&mut calls, String::from_str("Disconnected")),
        }
        calls
    }

    /// Remembers and logs the number of viewers.
    pub fn room_count(&mut self, user_count: u32) -> (res: Vec<HostCall>)
        ensures
            *final(self) == (SamplePlugin { latest_room_count: Some(user_count), ..*old(self) }),
            call_views(res@) == seq![
                HostCallView::Log("Room count changed: "@ + decimal_spec(user_count as nat)),
            ],
    {
        self.latest_room_count = Some(user_count);
        let mut calls: Vec<HostCall> = Vec::new();
        log(&mut calls, concat("Room count changed: ", decimal_u64(user_count as u64).as_str()));
        calls
    }

    /// The counts fit for the message: counting it does not overflow.
    pub open spec fn can_count(self, danmaku: Danmaku) -> bool {
        match danmaku.msg_type {
            MsgType::Comment => self.comments < u64::MAX,
            MsgType::GiftSend | MsgType::GuardBuy => self.gifts + gift_count_spec(
                danmaku.gift_count,
            ) <= u64::MAX,
            MsgType::SuperChat => self.super_chats < u64::MAX,
            _ => true,
        }
    }

    /// Handles one message from the room: comments, gifts and guard buys,
    /// Super Chats and interactions go to their handlers; the start and end
    /// of a live are logged; other messages pass silently.
    pub fn danmaku(&mut self, danmaku: &Danmaku) -> (res: Vec<HostCall>)
        requires
            old(self).can_count(*danmaku),
        ensures
            match danmaku.msg_type {
                MsgType::Comment => *final(self) == (SamplePlugin {
                    comments: (old(self).comments + 1) as u64,
                    ..*old(self)
                }),
                MsgType::GiftSend | MsgType::GuardBuy => *final(self) == (SamplePlugin {
                    gifts: (old(self).gifts + gift_count_spec(danmaku.gift_count)) as u64,
                    ..*old(self)
                }),
                MsgType::SuperChat => *final(self) == (SamplePlugin {
                    super_chats: (old(self).super_chats + 1) as u64,
                    ..*old(self)
                }),
                _ => *final(self) == *old(self),
            },
            danmaku.msg_type == MsgType::Comment ==> call_views(res@) == comment_calls(*danmaku),
            danmaku.msg_type is GiftSend || danmaku.msg_type is GuardBuy ==> call_views(res@)
                == gift_calls(*danmaku),
            danmaku.msg_type == MsgType::SuperChat ==> call_views(res@) == super_chat_calls(*danmaku),
            danmaku.msg_type == MsgType::Interact ==> call_views(res@) == interact_calls(*danmaku),
            danmaku.msg_type == MsgType::LiveStart ==> call_views(res@) == seq![
                HostCallView::Log("Live started"@),
            ],
            danmaku.msg_type == MsgType::LiveEnd ==> call_views(res@) == seq![
                HostCallView::Log("Live ended"@),
            ],
            !(danmaku.msg_type is Comment || danmaku.msg_type is GiftSend
                || danmaku.msg_type is GuardBuy || danmaku.msg_type is SuperChat
                || danmaku.msg_type is Interact || danmaku.msg_type is LiveStart
                || danmaku.msg_type is LiveEnd) ==> res@.len() == 0,
    {
        match danmaku.msg_type {
            MsgType::Comment => self.handle_comment(danmaku),
            MsgType::GiftSend | MsgType::GuardBuy => self.handle_gift(danmaku),
            MsgType::SuperChat => self.handle_super_chat(danmaku),
            MsgType::Interact => self.handle_interact(danmaku),
            MsgType::LiveStart => {
                let mut calls: Vec<HostCall> = Vec::new();
                log(&mut calls, String::from_str("Live started"));
                calls
            },
            MsgType::LiveEnd => {
                let mut calls: Vec<HostCall> = Vec::new();
                log(&mut calls, String::from_str("Live ended"));
                calls
            },
            _ => Vec::new(),
        }
    }
}

} // verus!
