//! The values that cross the boundary to the .NET bridge, held as plain
//! data: a string is its bytes (or nothing, where the bridge passes a null
//! pointer), and a list is a vector (or nothing, for a null pointer). The
//! conversions into the event model live here.

use vstd::prelude::*;
use vstd::string::StringSliceAdditionalSpecFns;
use vstd::utf8::{decode_utf8, encode_utf8_decode_utf8, encode_utf8_valid_utf8, valid_utf8};
use crate::hashing::append_bytes;
use crate::model::{
    text_of, Danmaku, GiftRank, InteractType, MsgType, PluginContext, PluginMetadata,
};

verus! {

/// The text that `String::from_utf8_lossy` makes of `bytes`.
pub uninterp spec fn utf8_lossy_spec(bytes: Seq<u8>) -> Seq<char>;

/// Decodes bytes as UTF-8, putting U+FFFD for each invalid sequence.
///
/// Calls `String::from_utf8_lossy` and takes the owned string. The contract
/// names the result `utf8_lossy_spec` of the bytes, and says that bytes
/// that are valid UTF-8 decode to exactly the characters they encode, as the
/// documentation says of valid input.
#[verifier::external_body]
fn decode_lossy(bytes: &[u8]) -> (res: String)
    ensures
        res@ == utf8_lossy_spec(bytes@),
        valid_utf8(bytes@) ==> res@ == decode_utf8(bytes@),
{
    String::from_utf8_lossy(bytes).into_owned()
}

/// A string handed across the bridge: its UTF-8 bytes, or `None` where the
/// bridge passes a null pointer.
#[derive(Debug, Clone)]
pub struct FfiStr {
    pub bytes: Option<Vec<u8>>,
}

/// The text that a bridge string decodes to.
pub open spec fn ffi_str_text(s: FfiStr) -> Option<Seq<char>> {
    match s.bytes {
        Some(b) => Some(utf8_lossy_spec(b@)),
        None => None,
    }
}

impl FfiStr {
    /// The null string.
    pub fn null() -> (res: Self)
        ensures
            res.bytes is None,
    {
        FfiStr { bytes: None }
    }

    /// The bytes of `value`: its UTF-8 encoding, which reads back as
    /// `value`.
    pub fn borrowed(value: &str) -> (res: Self)
        ensures
            res.bytes matches Some(b) && b@ == value.spec_bytes() && valid_utf8(b@) && decode_utf8(b@)
                == value@,
    {
        let mut bytes: Vec<u8> = Vec::new();
        append_bytes(&mut bytes, value.as_bytes());
        proof {
            encode_utf8_valid_utf8(value@);
            encode_utf8_decode_utf8(value@);
        }
        FfiStr { bytes: Some(bytes) }
    }

    /// The text of this string, with invalid UTF-8 replaced, or `None` for
    /// the null string.
    pub fn to_string_lossy(self) -> (res: Option<String>)
        ensures
            text_of(res) == ffi_str_text(self),
            self.bytes matches Some(b) ==> (valid_utf8(b@) ==> text_of(res) == Some(decode_utf8(b@))),
    {
        match self.bytes {
            None => None,
            Some(b) => Some(decode_lossy(b.as_slice())),
        }
    }
}

/// Plugin metadata as the bridge reads it.
#[derive(Debug, Clone)]
pub struct FfiPluginMetadata {
    pub name: FfiStr,
    pub author: FfiStr,
    pub contact: FfiStr,
    pub version: FfiStr,
    pub description: FfiStr,
}

impl PluginMetadata {
    /// The metadata as bridge strings.
    pub fn into_ffi(self) -> (res: FfiPluginMetadata)
        ensures
            res.name.bytes matches Some(b) && b@ == self.name.spec_bytes(),
            res.author.bytes matches Some(b) && b@ == self.author.spec_bytes(),
            res.contact.bytes matches Some(b) && b@ == self.contact.spec_bytes(),
            res.version.bytes matches Some(b) && b@ == self.version.spec_bytes(),
            res.description.bytes matches Some(b) && b@ == self.description.spec_bytes(),
    {
        FfiPluginMetadata {
            name: FfiStr::borrowed(self.name),
            author: FfiStr::borrowed(self.author),
            contact: FfiStr::borrowed(self.contact),
            version: FfiStr::borrowed(self.version),
            description: FfiStr::borrowed(self.description),
        }
    }
}

/// The host state as the bridge passes it: flags as integers, non-zero
/// meaning set.
#[derive(Debug, Clone, Copy, PartialEq, Eq, Structural)]
pub struct FfiPluginContext {
    pub has_room_id: i32,
    pub room_id: i32,
    pub status: i32,
    pub debug_mode: i32,
}

/// The host state that the bridge's integers stand for: the room id only
/// where the bridge says there is one, and each flag set when its integer
/// is non-zero.
pub open spec fn plugin_context_of(value: FfiPluginContext) -> PluginContext {
    PluginContext {
        room_id: if value.has_room_id != 0 { Some(value.room_id) } else { None },
        status: value.status != 0,
        debug_mode: value.debug_mode != 0,
    }
}

impl From<FfiPluginContext> for PluginContext {
    fn from(value: FfiPluginContext) -> (res: Self) {
        PluginContext {
            room_id: if value.has_room_id != 0 { Some(value.room_id) } else { None },
            status: value.status != 0,
            debug_mode: value.debug_mode != 0,
        }
    }
}

impl vstd::std_specs::convert::FromSpecImpl<FfiPluginContext> for PluginContext {
    open spec fn obeys_from_spec() -> bool {
        true
    }

    open spec fn from_spec(value: FfiPluginContext) -> PluginContext {
        plugin_context_of(value)
    }
}

/// One gift-ranking entry as the bridge passes it.
#[derive(Debug, Clone)]
pub struct FfiGiftRank {
    pub user_name: FfiStr,
    pub coin: FfiStr,
    pub uid: i32,
    pub uid_long: i64,
    pub uid_str: FfiStr,
}

/// The model entry that a bridge gift-ranking entry stands for.
pub open spec fn gift_rank_matches(m: GiftRank, f: FfiGiftRank) -> bool {
    &&& text_of(m.user_name) == ffi_str_text(f.user_name)
    &&& text_of(m.coin) == ffi_str_text(f.coin)
    &&& m.uid == f.uid
    &&& m.uid_long == f.uid_long
    &&& text_of(m.uid_str) == ffi_str_text(f.uid_str)
}

impl FfiGiftRank {
    /// The model entry: strings decoded, numbers kept.
    pub fn to_model(self) -> (res: GiftRank)
        ensures
            gift_rank_matches(res, self),
    {
        GiftRank {
            user_name: self.user_name.to_string_lossy(),
            coin: self.coin.to_string_lossy(),
            uid: self.uid,
            uid_long: self.uid_long,
            uid_str: self.uid_str.to_string_lossy(),
        }
    }
}

/// One live-room message as the bridge passes it: flags as integers, kinds
/// as the host's numbers, and the gift ranking as a list (`None` where the
/// bridge passes a null pointer).
#[derive(Debug, Clone)]
pub struct FfiDanmaku {
    pub msg_type: i32,
    pub interact_type: i32,
    pub comment_text: FfiStr,
    pub comment_user: FfiStr,
    pub user_name: FfiStr,
    pub user_id: i32,
    pub user_id_long: i64,
    pub user_id_str: FfiStr,
    pub user_guard_level: i32,
    pub gift_user: FfiStr,
    pub gift_name: FfiStr,
    pub gift_num: FfiStr,
    pub gift_count: i32,
    pub gift_rcost: FfiStr,
    pub gift_ranking: Option<Vec<FfiGiftRank>>,
    pub is_admin: i32,
    pub is_vip: i32,
    pub room_id: FfiStr,
    pub raw_data: FfiStr,
    pub json_version: i32,
    pub price: FfiStr,
    pub sc_keep_time: i32,
    pub watched_count: i64,
    pub raw_data_jtoken: FfiStr,
}

/// The gift-ranking entries that the bridge passed.
pub open spec fn ffi_ranking(r: Option<Vec<FfiGiftRank>>) -> Seq<FfiGiftRank> {
    match r {
        Some(v) => v@,
        None => Seq::empty(),
    }
}

/// The model message that a bridge message stands for.
pub open spec fn danmaku_matches(m: Danmaku, f: FfiDanmaku) -> bool {
    &&& m.msg_type == MsgType::spec_from_raw(f.msg_type)
    &&& m.interact_type == InteractType::spec_from_raw(f.interact_type)
    &&& text_of(m.comment_text) == ffi_str_text(f.comment_text)
    &&& text_of(m.comment_user) == ffi_str_text(f.comment_user)
    &&& text_of(m.user_name) == ffi_str_text(f.user_name)
    &&& m.user_id == f.user_id
    &&& m.user_id_long == f.user_id_long
    &&& text_of(m.user_id_str) == ffi_str_text(f.user_id_str)
    &&& m.user_guard_level == f.user_guard_level
    &&& text_of(m.gift_user) == ffi_str_text(f.gift_user)
    &&& text_of(m.gift_name) == ffi_str_text(f.gift_name)
    &&& text_of(m.gift_num) == ffi_str_text(f.gift_num)
    &&& m.gift_count == f.gift_count
    &&& text_of(m.gift_rcost) == ffi_str_text(f.gift_rcost)
    &&& m.gift_ranking@.len() == ffi_ranking(f.gift_ranking).len()
    &&& forall|i: int|
        0 <= i < m.gift_ranking@.len() ==> gift_rank_matches(
            #[trigger] m.gift_ranking@[i],
            ffi_ranking(f.gift_ranking)[i],
        )
    &&& m.is_admin == (f.is_admin != 0)
    &&& m.is_vip == (f.is_vip != 0)
    &&& text_of(m.room_id) == ffi_str_text(f.room_id)
    &&& text_of(m.raw_data) == ffi_str_text(f.raw_data)
    &&& m.json_version == f.json_version
    &&& text_of(m.price) == ffi_str_text(f.price)
    &&& m.sc_keep_time == f.sc_keep_time
    &&& m.watched_count == f.watched_count
    &&& text_of(m.raw_data_jtoken) == ffi_str_text(f.raw_data_jtoken)
}

fn ranking_to_model(ranking: Option<Vec<FfiGiftRank>>) -> (res: Vec<GiftRank>)
    ensures
        res@.len() == ffi_ranking(ranking).len(),
        forall|i: int|
            0 <= i < res@.len() ==> gift_rank_matches(#[trigger] res@[i], ffi_ranking(ranking)[i]),
{
    let mut out: Vec<GiftRank> = Vec::new();
    match ranking {
        None => {},
        Some(v) => {
            let ghost orig = v@;
            let mut rest = v;
            while rest.len() > 0
                invariant
                    out@.len() + rest@.len() == orig.len(),
                    rest@ == orig.skip(out@.len() as int),
                    forall|i: int|
                        0 <= i < out@.len() ==> gift_rank_matches(#[trigger] out@[i], orig[i]),
                decreases rest@.len(),
            {
                let ghost k = out@.len() as int;
                let rank = rest.remove(0);
                assert(rank == orig[k]);
                out.push(rank.to_model());
                assert(rest@ =~= orig.skip(k + 1));
            }
        },
    }
    out
}

impl FfiDanmaku {
    /// The model message: kinds read from their numbers, strings decoded,
    /// flags set when non-zero, and the gift ranking converted entry by entry
    /// (empty where the bridge passed none).
    pub fn to_model(self) -> (res: Danmaku)
        ensures
            danmaku_matches(res, self),
    {
        Danmaku {
            msg_type: MsgType::from_raw(self.msg_type),
            interact_type: InteractType::from_raw(self.interact_type),
            comment_text: self.comment_text.to_string_lossy(),
            comment_user: self.comment_user.to_string_lossy(),
            user_name: self.user_name.to_string_lossy(),
            user_id: self.user_id,
            user_id_long: self.user_id_long,
            user_id_str: self.user_id_str.to_string_lossy(),
            user_guard_level: self.user_guard_level,
            gift_user: self.gift_user.to_string_lossy(),
            gift_name: self.gift_name.to_string_lossy(),
            gift_num: self.gift_num.to_string_lossy(),
            gift_count: self.gift_count,
            gift_rcost: self.gift_rcost.to_string_lossy(),
            gift_ranking: ranking_to_model(self.gift_ranking),
            is_admin: self.is_admin != 0,
            is_vip: self.is_vip != 0,
            room_id: self.room_id.to_string_lossy(),
            raw_data: self.raw_data.to_string_lossy(),
            json_version: self.json_version,
            price: self.price.to_string_lossy(),
            sc_keep_time: self.sc_keep_time,
            watched_count: self.watched_count,
            raw_data_jtoken: self.raw_data_jtoken.to_string_lossy(),
        }
    }
}

} // verus!
