use danmuji::example::ExamplePlugin;
use danmuji::host::HostCall;
use danmuji::model::{Danmaku, DisconnectEvent, InteractType, MsgType, PluginContext};
use danmuji::sample::SamplePlugin;

fn danmaku(msg_type: MsgType) -> Danmaku {
    Danmaku {
        msg_type,
        interact_type: None,
        comment_text: None,
        comment_user: None,
        user_name: None,
        user_id: 0,
        user_id_long: 0,
        user_id_str: None,
        user_guard_level: 0,
        gift_user: None,
        gift_name: None,
        gift_num: None,
        gift_count: 0,
        gift_rcost: None,
        gift_ranking: vec![],
        is_admin: false,
        is_vip: false,
        room_id: None,
        raw_data: None,
        json_version: 0,
        price: None,
        sc_keep_time: 0,
        watched_count: 0,
        raw_data_jtoken: None,
    }
}

fn calls(calls: Vec<HostCall>) -> Vec<String> {
    calls
        .into_iter()
        .map(|c| match c {
            HostCall::Log(s) => format!("log:{s}"),
            HostCall::AddDm { text, fullscreen } => format!("dm:{fullscreen}:{text}"),
        })
        .collect()
}

#[test]
fn sample_counts_and_summarises() {
    let mut plugin = SamplePlugin::new();
    let ctx = PluginContext { room_id: Some(-5), status: true, debug_mode: false };
    assert_eq!(
        calls(plugin.start(ctx)),
        vec![
            "log:Sample Rust plugin started",
            "dm:true:Sample Rust plugin started",
            "log:Current room: -5"
        ]
    );

    let mut comment = danmaku(MsgType::Comment);
    comment.user_name = Some("alice".into());
    comment.comment_text = Some("  !PiNg \n".into());
    assert_eq!(
        calls(plugin.danmaku(&comment)),
        vec!["log:[comment] alice:   !PiNg \n", "dm:false:pong, alice"]
    );

    let mut quiet = danmaku(MsgType::Comment);
    quiet.comment_text = Some("!pingg".into());
    assert_eq!(calls(plugin.danmaku(&quiet)), vec!["log:[comment] unknown: !pingg"]);

    let mut gift = danmaku(MsgType::GiftSend);
    gift.user_name = Some("bob".into());
    gift.gift_name = Some("flower".into());
    gift.gift_count = 3;
    assert_eq!(calls(plugin.danmaku(&gift)), vec!["log:[gift] bob sent flower x3"]);
    let mut guard = danmaku(MsgType::GuardBuy);
    guard.gift_count = -2;
    assert_eq!(calls(plugin.danmaku(&guard)), vec!["log:[gift] unknown sent gift x1"]);

    let mut sc = danmaku(MsgType::SuperChat);
    sc.user_name = Some("carol".into());
    sc.price = Some("30".into());
    sc.comment_text = Some("hi".into());
    assert_eq!(
        calls(plugin.danmaku(&sc)),
        vec!["log:[super chat] carol paid 30: hi", "dm:true:SC from carol: hi"]
    );

    let mut follow = danmaku(MsgType::Interact);
    follow.interact_type = Some(InteractType::Follow);
    follow.user_name = Some("dan".into());
    assert_eq!(calls(plugin.danmaku(&follow)), vec!["log:[follow] dan followed"]);
    let mut share = danmaku(MsgType::Interact);
    share.interact_type = Some(InteractType::Share);
    assert_eq!(calls(plugin.danmaku(&share)), vec!["log:[share] unknown shared the room"]);
    let mut like = danmaku(MsgType::Interact);
    like.interact_type = Some(InteractType::Like);
    assert_eq!(calls(plugin.danmaku(&like)), vec!["log:[like] unknown liked"]);
    let mut enter = danmaku(MsgType::Interact);
    enter.interact_type = Some(InteractType::Enter);
    assert!(calls(plugin.danmaku(&enter)).is_empty());

    assert_eq!(calls(plugin.danmaku(&danmaku(MsgType::LiveStart))), vec!["log:Live started"]);
    assert_eq!(calls(plugin.danmaku(&danmaku(MsgType::LiveEnd))), vec!["log:Live ended"]);
    assert!(calls(plugin.danmaku(&danmaku(MsgType::Warning))).is_empty());

    assert_eq!(calls(plugin.room_count(321)), vec!["log:Room count changed: 321"]);
    assert_eq!(plugin.comments, 2);
    assert_eq!(plugin.gifts, 4);
    assert_eq!(plugin.super_chats, 1);
    assert_eq!(
        plugin.summary(Some(42)),
        "uptime=42s, comments=2, gifts=4, super_chats=1, latest_room_count=321"
    );
    assert_eq!(
        calls(plugin.stop(Some(42))),
        vec!["log:Sample Rust plugin stopped. uptime=42s, comments=2, gifts=4, super_chats=1, latest_room_count=321"]
    );
    let fresh = SamplePlugin::new();
    assert_eq!(
        calls(fresh.admin(None)),
        vec![
            "log:Admin summary: uptime=not-started, comments=0, gifts=0, super_chats=0, latest_room_count=unknown",
            "dm:true:uptime=not-started, comments=0, gifts=0, super_chats=0, latest_room_count=unknown"
        ]
    );
    assert_eq!(calls(fresh.connected(12345)), vec!["log:Connected to room 12345"]);
    assert_eq!(
        calls(fresh.disconnected(&DisconnectEvent { error: Some("timeout".into()) })),
        vec!["log:Disconnected: timeout"]
    );
    assert_eq!(calls(fresh.disconnected(&DisconnectEvent { error: None })), vec!["log:Disconnected"]);
    assert_eq!(plugin.metadata().name, "Rust Sample Danmuji Plugin");
}

#[test]
fn sample_start_resets_counts() {
    let mut plugin = SamplePlugin { comments: 5, gifts: 6, super_chats: 7, latest_room_count: Some(1) };
    let out = calls(plugin.start(PluginContext { room_id: None, status: false, debug_mode: false }));
    assert_eq!(out.len(), 2);
    assert_eq!(plugin, SamplePlugin::new());
}

#[test]
fn example_plugin_logs_comments() {
    let plugin = ExamplePlugin;
    let mut comment = danmaku(MsgType::Comment);
    comment.user_name = Some("eve".into());
    comment.comment_text = Some("hello".into());
    assert_eq!(calls(plugin.danmaku(&comment)), vec!["log:eve: hello"]);
    assert_eq!(calls(plugin.danmaku(&danmaku(MsgType::Comment))), vec!["log:unknown: "]);
    assert!(calls(plugin.danmaku(&danmaku(MsgType::GiftSend))).is_empty());
    assert_eq!(
        calls(plugin.start(PluginContext { room_id: Some(7), status: true, debug_mode: true })),
        vec!["log:Rust plugin started", "dm:true:Rust plugin started", "log:Current room: 7"]
    );
    assert_eq!(calls(plugin.stop()), vec!["log:Rust plugin stopped"]);
    assert_eq!(calls(plugin.admin()), vec!["log:Rust plugin admin opened", "dm:true:Hello from Rust"]);
    assert_eq!(calls(plugin.room_count(9)), vec!["log:Room count: 9"]);
    assert_eq!(calls(plugin.connected(-1)), vec!["log:Connected to room -1"]);
    assert_eq!(plugin.metadata().author, "Rust");
}
