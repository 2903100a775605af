//! The minimal example plugin: it announces its lifecycle and logs every
//! comment. Each callback decides which host calls to make.

use vstd::prelude::*;
use crate::host::{add_dm, call_views, concat, log, HostCall, HostCallView};
use crate::model::{Danmaku, DisconnectEvent, MsgType, PluginContext, PluginMetadata};
use crate::sample::or_spec;
use crate::text::{decimal_i32, decimal_spec, decimal_u64, signed_decimal_spec};

verus! {

/// The minimal example plugin; it keeps no state.
#[derive(Debug, Clone, Copy, PartialEq, Eq, Structural)]
pub struct ExamplePlugin;

impl ExamplePlugin {
    /// What the example plugin tells the host about itself.
    pub fn metadata(&self) -> (res: PluginMetadata)
        ensures
            res.name@ == "Rust Example Plugin"@,
            res.author@ == "Rust"@,
            res.contact@ == ""@,
            res.version@ == "v0.1.0"@,
            res.description@ == "Example plugin implemented in Rust"@,
    {
        PluginMetadata {
            name: "Rust Example Plugin",
            author: "Rust",
            contact: "",
            version: "v0.1.0",
            description: "Example plugin implemented in Rust",
        }
    }

    /// Announces the start and logs the room when the host is in one.
    pub fn start(&self, ctx: PluginContext) -> (res: Vec<HostCall>)
        ensures
            call_views(res@) == seq![
                HostCallView::Log("Rust plugin started"@),
                HostCallView::AddDm("Rust plugin started"@, true),
            ] + match ctx.room_id {
                Some(r) => seq![HostCallView::Log("Current room: "@ + signed_decimal_spec(r as int))],
                None => Seq::empty(),
            },
    {
        let mut calls: Vec<HostCall> = Vec::new();
        log(&mut calls, String::from_str("Rust plugin started"));
        add_dm(&mut calls, String::from_str("Rust plugin started"), true);
        match ctx.room_id {
            Some(room_id) => log(&mut calls, concat("Current room: ", decimal_i32(room_id).as_str())),
            None => {},
        }
        calls
    }

    /// Logs the stop.
    pub fn stop(&self) -> (res: Vec<HostCall>)
        ensures
            call_views(res@) == seq![HostCallView::Log("Rust plugin stopped"@)],
    {
        let mut calls: Vec<HostCall> = Vec::new();
        log(&mut calls, String::from_str("Rust plugin stopped"));
        calls
    }

    /// Logs the opening of the settings and greets on the overlay.
    pub fn admin(&self) -> (res: Vec<HostCall>)
        ensures
            call_views(res@) == seq![
                HostCallView::Log("Rust plugin admin opened"@),
                HostCallView::AddDm("Hello from Rust"@, true),
            ],
    {
        let mut calls: Vec<HostCall> = Vec::new();
        log(&mut calls, String::from_str("Rust plugin admin opened"));
        add_dm(&mut calls, String::from_str("Hello from Rust"), true);
        calls
    }

    /// Logs the room that the host connected to.
    pub fn connected(&self, room_id: i32) -> (res: Vec<HostCall>)
        ensures
            call_views(res@) == seq![
                HostCallView::Log("Connected to room "@ + signed_decimal_spec(room_id as int)),
            ],
    {
        let mut calls: Vec<HostCall> = Vec::new();
        log(&mut calls, concat("Connected to room ", decimal_i32(room_id).as_str()));
        calls
    }

    /// Logs a lost connection, with its reason when the host gives one.
    pub fn disconnected(&self, event: &DisconnectEvent) -> (res: Vec<HostCall>)
        ensures
            call_views(res@) == seq![
                HostCallView::Log(
                    match event.error {
                        Some(e) => "Disconnected: "@ + e@,
                        None => "Disconnected"@,
                    },
                ),
            ],
    {
        let mut calls: Vec<HostCall> = Vec::new();
        match &event.error {
            Some(error) => log(&mut calls, concat("Disconnected: ", error.as_str())),
            None => log(&mut calls, String::from_str("Disconnected")),
        }
        calls
    }

    /// Logs the number of viewers.
    pub fn room_count(&self, user_count: u32) -> (res: Vec<HostCall>)
        ensures
            call_views(res@) == seq![
                HostCallView::Log("Room count: "@ + decimal_spec(user_count as nat)),
            ],
    {
        let mut calls: Vec<HostCall> = Vec::new();
        log(&mut calls, concat("Room count: ", decimal_u64(user_count as u64).as_str()));
        calls
    }

    /// Logs every comment as `user: text`; other messages pass silently.
    pub fn danmaku(&self, danmaku: &Danmaku) -> (res: Vec<HostCall>)
        ensures
            call_views(res@) == if danmaku.msg_type == MsgType::Comment {
                seq![
                    HostCallView::Log(
                        or_spec(danmaku.user_name, "unknown"@) + ": "@ + or_spec(
                            danmaku.comment_text,
                            ""@,
                        ),
                    ),
                ]
            } else {
                Seq::empty()
            },
    {
        let mut calls: Vec<HostCall> = Vec::new();
        if danmaku.msg_type == MsgType::Comment {
            let user = match &danmaku.user_name {
                Some(u) => u.as_str(),
                None => "unknown",
            };
            let text = match &danmaku.comment_text {
                Some(t) => t.as_str(),
                None => "",
            };
            log(&mut calls, concat(concat(user, ": ").as_str(), text));
        }
        assert(call_views(calls@) =~= if danmaku.msg_type == MsgType::Comment {
            seq![
                HostCallView::Log(
                    or_spec(danmaku.user_name, "unknown"@) + ": "@ + or_spec(
                        danmaku.comment_text,
                        ""@,
                    ),
                ),
            ]
        } else {
            Seq::empty()
        });
        calls
    }
}

} // verus!
