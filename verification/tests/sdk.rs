use danmuji::ffi::{FfiDanmaku, FfiGiftRank, FfiPluginContext, FfiStr};
use danmuji::host::{Host, HostRead, HostReadAction};
use danmuji::model::{InteractType, MsgType, PluginContext, PluginMetadata};

#[test]
fn ffi_str_round_trips_utf8() {
    let text = "hello";
    let ffi = FfiStr::borrowed(text);

    let decoded = ffi.to_string_lossy();

    assert_eq!(decoded.as_deref(), Some(text));
}

#[test]
fn null_ffi_str_is_none() {
    let decoded = FfiStr::null().to_string_lossy();

    assert!(decoded.is_none());
}

#[test]
fn ffi_str_round_trips_non_ascii() {
    let text = "B站弹幕姬 ✓";
    assert_eq!(FfiStr::borrowed(text).to_string_lossy().as_deref(), Some(text));
}

#[test]
fn ffi_str_replaces_invalid_utf8() {
    let ffi = FfiStr { bytes: Some(vec![b'a', 0xff, b'b']) };
    assert_eq!(ffi.to_string_lossy().as_deref(), Some("a\u{fffd}b"));
}

/// A host that answers every call with the plugin path, as the bridge does.
fn host_plugin_path_callback(buffer: &mut Vec<u8>) -> usize {
    let path = b"/tmp/example_plugin.dll";
    if buffer.len() >= path.len() {
        buffer[..path.len()].copy_from_slice(path);
    }
    path.len()
}

/// Runs a host-string read against `answer`, which fills the buffer it is
/// given and returns the length it reports.
fn run_read(mut answer: impl FnMut(&mut Vec<u8>) -> usize) -> (Option<Vec<u8>>, usize) {
    let (mut state, mut action) = HostRead::start();
    let mut buffer: Vec<u8> = Vec::new();
    let mut calls = 0;
    loop {
        match action {
            HostReadAction::Done(bytes) => return (bytes, calls),
            HostReadAction::Call { buffer_len } => {
                buffer.resize(buffer_len, 0);
                calls += 1;
                let written = answer(&mut buffer);
                let (next, next_action) = state.step(written, buffer.clone());
                state = next;
                action = next_action;
            }
        }
    }
}

#[test]
fn plugin_path_uses_host_callback() {
    let host = Host::new();

    let (read, calls) = run_read(host_plugin_path_callback);
    assert_eq!(calls, 2);

    assert_eq!(
        host.plugin_path(read.clone()),
        Some("/tmp/example_plugin.dll".to_string())
    );
    assert_eq!(host.plugin_dir(read), Some("/tmp".to_string()));
}

#[test]
fn host_read_with_no_string_is_none() {
    let (read, calls) = run_read(|_| 0);
    assert_eq!(read, None);
    assert_eq!(calls, 1);
    let host = Host::default();
    assert_eq!(host.plugin_path(None), None);
    assert_eq!(host.plugin_dir(None), None);
}

#[test]
fn plugin_dir_of_a_bare_file_name_is_empty_and_of_a_root_is_none() {
    let host = Host::new();
    assert_eq!(
        host.plugin_dir(Some(b"plugin.dll".to_vec())),
        Some(String::new())
    );
    assert_eq!(host.plugin_dir(Some(b"/".to_vec())), None);
    assert_eq!(host.plugin_dir(Some(Vec::new())), None);
}

#[test]
fn plugin_dir_of_an_absolute_path_is_the_text_before_its_last_slash() {
    let host = Host::new();
    assert_eq!(
        host.plugin_dir(Some(b"/a/b/plugin.dll".to_vec())),
        Some("/a/b".to_string())
    );
    assert_eq!(
        host.plugin_dir(Some(b"/plugin.dll".to_vec())),
        Some("/".to_string())
    );
}

#[test]
fn host_read_retries_once_when_the_string_grows() {
    let mut len = 4;
    let (read, calls) = run_read(|buffer: &mut Vec<u8>| {
        let text = b"abcdefgh";
        let n = len;
        if buffer.len() >= n {
            buffer[..n].copy_from_slice(&text[..n]);
        }
        len = 8;
        n
    });
    assert_eq!(calls, 3);
    assert_eq!(read, Some(b"abcdefgh".to_vec()));
}

#[test]
fn host_read_gives_up_when_the_string_keeps_growing() {
    let mut len = 4;
    let (read, calls) = run_read(|_| {
        len += 4;
        len
    });
    assert_eq!(calls, 3);
    assert_eq!(read, None);
}

#[test]
fn msg_type_numbers_round_trip() {
    assert_eq!(MsgType::from_raw(0), MsgType::Comment);
    assert_eq!(MsgType::from_raw(9), MsgType::SuperChat);
    assert_eq!(MsgType::from_raw(13), MsgType::OpConnectionEnd);
    assert_eq!(MsgType::from_raw(14), MsgType::Other(14));
    assert_eq!(MsgType::from_raw(-1), MsgType::Other(-1));
    for value in -3..20 {
        assert_eq!(MsgType::from_raw(value).as_raw(), value);
    }
    assert_eq!(MsgType::GuardBuy.as_raw(), 8);
    assert_eq!(MsgType::Other(3).as_raw(), 3);
    assert_eq!(MsgType::from_raw(MsgType::Other(3).as_raw()), MsgType::Welcome);
}

#[test]
fn interact_type_numbers_round_trip() {
    assert_eq!(InteractType::from_raw(0), None);
    assert_eq!(InteractType::from_raw(1), Some(InteractType::Enter));
    assert_eq!(InteractType::from_raw(6), Some(InteractType::Like));
    assert_eq!(InteractType::from_raw(7), Some(InteractType::Other(7)));
    for value in -3..20 {
        if value != 0 {
            assert_eq!(InteractType::from_raw(value).unwrap().as_raw(), value);
        }
    }
    assert_eq!(InteractType::Follow.as_raw(), 2);
    assert_eq!(InteractType::from_raw(InteractType::Other(0).as_raw()), None);
}

#[test]
fn metadata_crosses_the_bridge_as_bytes() {
    let metadata = PluginMetadata {
        name: "Rust Plugin",
        author: "",
        contact: "c",
        version: "v1",
        description: "描述",
    };
    let ffi = metadata.into_ffi();
    assert_eq!(ffi.name.bytes, Some(b"Rust Plugin".to_vec()));
    assert_eq!(ffi.author.bytes, Some(Vec::new()));
    assert_eq!(ffi.contact.bytes, Some(b"c".to_vec()));
    assert_eq!(ffi.version.bytes, Some(b"v1".to_vec()));
    assert_eq!(ffi.description.to_string_lossy().as_deref(), Some("描述"));
}

#[test]
fn plugin_context_reads_flags() {
    let ctx = PluginContext::from(FfiPluginContext { has_room_id: 1, room_id: 42, status: 2, debug_mode: 0 });
    assert_eq!(ctx, PluginContext { room_id: Some(42), status: true, debug_mode: false });
    let ctx: PluginContext = FfiPluginContext { has_room_id: 0, room_id: 42, status: 0, debug_mode: -1 }.into();
    assert_eq!(ctx, PluginContext { room_id: None, status: false, debug_mode: true });
}

fn text(s: &str) -> FfiStr {
    FfiStr::borrowed(s)
}

fn sample_ffi_danmaku(ranking: Option<Vec<FfiGiftRank>>) -> FfiDanmaku {
    FfiDanmaku {
        msg_type: 1,
        interact_type: 2,
        comment_text: text("hi"),
        comment_user: FfiStr::null(),
        user_name: text("alice"),
        user_id: 7,
        user_id_long: 7_000_000_000,
        user_id_str: text("7"),
        user_guard_level: 3,
        gift_user: text("alice"),
        gift_name: text("辣条"),
        gift_num: text("5"),
        gift_count: 5,
        gift_rcost: FfiStr::null(),
        gift_ranking: ranking,
        is_admin: 1,
        is_vip: 0,
        room_id: text("1000"),
        raw_data: FfiStr::null(),
        json_version: 2,
        price: text("30"),
        sc_keep_time: 60,
        watched_count: 123,
        raw_data_jtoken: FfiStr::null(),
    }
}

#[test]
fn danmaku_converts_every_field() {
    let rank = FfiGiftRank { user_name: text("bob"), coin: text("100"), uid: 1, uid_long: 2, uid_str: FfiStr::null() };
    let d = sample_ffi_danmaku(Some(vec![rank])).to_model();
    assert_eq!(d.msg_type, MsgType::GiftSend);
    assert_eq!(d.interact_type, Some(InteractType::Follow));
    assert_eq!(d.comment_text.as_deref(), Some("hi"));
    assert_eq!(d.comment_user, None);
    assert_eq!(d.user_name.as_deref(), Some("alice"));
    assert_eq!(d.user_id, 7);
    assert_eq!(d.user_id_long, 7_000_000_000);
    assert_eq!(d.gift_name.as_deref(), Some("辣条"));
    assert_eq!(d.gift_count, 5);
    assert!(d.is_admin);
    assert!(!d.is_vip);
    assert_eq!(d.room_id.as_deref(), Some("1000"));
    assert_eq!(d.price.as_deref(), Some("30"));
    assert_eq!(d.watched_count, 123);
    assert_eq!(d.gift_ranking.len(), 1);
    assert_eq!(d.gift_ranking[0].user_name.as_deref(), Some("bob"));
    assert_eq!(d.gift_ranking[0].coin.as_deref(), Some("100"));
    assert_eq!(d.gift_ranking[0].uid_long, 2);
    assert_eq!(d.gift_ranking[0].uid_str, None);
}

#[test]
fn danmaku_without_ranking_has_empty_ranking() {
    assert!(sample_ffi_danmaku(None).to_model().gift_ranking.is_empty());
    assert!(sample_ffi_danmaku(Some(Vec::new())).to_model().gift_ranking.is_empty());
}
