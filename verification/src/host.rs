//! The handle through which a plugin talks to the host, and the protocol by
//! which a string is read from the host.
//!
//! The host writes a string into a buffer that the plugin provides and
//! answers with the length the string needs. The plugin first asks with no
//! buffer to learn that length, then asks with a buffer of that size, and
//! asks once more with a larger buffer if the string grew in between. The
//! calls themselves cross the bridge; the decisions between them are made
//! here.

use vstd::prelude::*;
use crate::ffi::{utf8_lossy_spec, FfiStr};
use crate::model::text_of;
use crate::paths::{is_bare_name, is_plain_absolute, plain_parent};
use vstd::utf8::{decode_utf8, valid_utf8};

verus! {

/// The handle through which a plugin calls the host.
#[derive(Debug, Clone, Copy)]
pub struct Host;

impl Host {
    /// The handle.
    pub fn new() -> (res: Self)
        ensures
            res == Host,
    {
        Host
    }
}

impl Default for Host {
    fn default() -> (res: Self)
        ensures
            res == Host,
    {
        Host::new()
    }
}

/// Where a read of a host string stands.
#[derive(Debug, Clone, Copy, PartialEq, Eq, Structural)]
pub enum HostRead {
    /// The host was asked, with no buffer, how long the string is.
    Measuring,
    /// The host was asked to fill a buffer of `len` bytes.
    Filling { len: usize },
    /// The string had grown; the host was asked again with `len` bytes.
    Refilling { len: usize },
}

/// What to do next in a read of a host string.
#[derive(Debug)]
pub enum HostReadAction {
    /// Call the host with a buffer of `buffer_len` bytes (no buffer at all
    /// for zero), keeping what the buffer held before and padding with zeros.
    Call { buffer_len: usize },
    /// The read is over: the bytes of the string, or `None` when the host
    /// has none or did not keep to the protocol.
    Done(Option<Vec<u8>>),
}

impl HostRead {
    /// The size of the buffer that the pending call was made with.
    pub open spec fn buffer_len(self) -> usize {
        match self {
            HostRead::Measuring => 0,
            HostRead::Filling { len } => len,
            HostRead::Refilling { len } => len,
        }
    }

    /// How a read reacts to the host's answer `written` after the pending
    /// call, where `buffer` is what the buffer then holds.
    pub open spec fn step_spec(self, written: usize, buffer: Seq<u8>) -> (
        Option<HostRead>,
        Option<Option<Seq<u8>>>,
        usize,
    ) {
        match self {
            HostRead::Measuring => if written == 0 {
                (None, Some(None), 0)
            } else {
                (Some(HostRead::Filling { len: written }), None, written)
            },
            HostRead::Filling { len } => if written == 0 {
                (None, Some(None), 0)
            } else if written > len {
                (Some(HostRead::Refilling { len: written }), None, written)
            } else {
                (None, Some(Some(buffer.take(written as int))), 0)
            },
            HostRead::Refilling { len } => if written == 0 || written > len {
                (None, Some(None), 0)
            } else {
                (None, Some(Some(buffer.take(written as int))), 0)
            },
        }
    }

    /// Starts a read: ask the host, with no buffer, how long the string is.
    pub fn start() -> (res: (HostRead, HostReadAction))
        ensures
            res.0 == HostRead::Measuring,
            res.1 matches HostReadAction::Call { buffer_len } && buffer_len == 0,
    {
        (HostRead::Measuring, HostReadAction::Call { buffer_len: 0 })
    }

    /// Takes the host's answer to the pending call: `written` is the length
    /// it reported and `buffer` what the buffer holds afterwards. A zero
    /// length ends the read with nothing; a length that does not fit the
    /// buffer asks again with a buffer of that length, once; otherwise the
    /// read ends with the first `written` bytes of the buffer.
    pub fn step(self, written: usize, buffer: Vec<u8>) -> (res: (HostRead, HostReadAction))
        requires
            buffer@.len() == self.buffer_len(),
        ensures
            ({
                let (next, done, call_len) = self.step_spec(written, buffer@);
                match res.1 {
                    HostReadAction::Call { buffer_len } => next == Some(res.0) && done is None
                        && buffer_len == call_len,
                    HostReadAction::Done(bytes) => next is None && done == Some(
                        match bytes {
                            Some(b) => Some(b@),
                            None => None,
                        },
                    ),
                }
            }),
    {
        match self {
            HostRead::Measuring => {
                if written == 0 {
                    (self, HostReadAction::Done(None))
                } else {
                    (HostRead::Filling { len: written }, HostReadAction::Call { buffer_len: written })
                }
            },
            HostRead::Filling { len } => {
                if written == 0 {
                    (self, HostReadAction::Done(None))
                } else if written > len {
                    (
                        HostRead::Refilling { len: written },
                        HostReadAction::Call { buffer_len: written },
                    )
                } else {
                    let mut bytes = buffer;
                    bytes.truncate(written);
                    (self, HostReadAction::Done(Some(bytes)))
                }
            },
            HostRead::Refilling { len } => {
                if written == 0 || written > len {
                    (self, HostReadAction::Done(None))
                } else {
                    let mut bytes = buffer;
                    bytes.truncate(written);
                    (self, HostReadAction::Done(Some(bytes)))
                }
            },
        }
    }
}

/// How far a read has come: each call that does not end the read moves it
/// one stage on.
pub open spec fn read_stage(r: HostRead) -> int {
    match r {
        HostRead::Measuring => 0,
        HostRead::Filling { .. } => 1,
        HostRead::Refilling { .. } => 2,
    }
}

/// Every read of a host string ends after at most three calls: an answer
/// either ends the read or moves it to a later stage, and an answer in the
/// last stage always ends it.
pub proof fn lemma_host_read_ends(r: HostRead, written: usize, buffer: Seq<u8>)
    ensures
        r.step_spec(written, buffer).0 matches Some(next) ==> read_stage(next) == read_stage(r) + 1
            && r.step_spec(written, buffer).1 is None,
        r.step_spec(written, buffer).0 is None ==> r.step_spec(written, buffer).1 is Some,
        read_stage(r) == 2 ==> r.step_spec(written, buffer).0 is None,
{
}

/// The text that a host string read ends with: its bytes decoded, invalid
/// UTF-8 replaced.
pub open spec fn host_text(bytes: Option<Vec<u8>>) -> Option<Seq<char>> {
    match bytes {
        Some(b) => Some(utf8_lossy_spec(b@)),
        None => None,
    }
}

/// The parent directory of a path.
///
/// Calls `std::path::Path::parent` and converts the result to a string.
/// It states what the documentation says and what holds on every platform:
/// the empty path and a path that is only a root have no parent, a relative
/// path of one component has the empty path as its parent, and an absolute
/// path of plain components (`/foo/bar`) has as its parent the text before
/// its last `/` (`/foo`), or `/` for a path of one component (`/foo`).
/// What the parent is of other paths (with `\`, a drive, `.` or `..`
/// components, repeated or trailing slashes) depends on the platform's
/// path syntax, and the contract leaves it unsaid.
#[verifier::external_body]
fn path_parent(path: &str) -> (res: Option<String>)
    ensures
        path@.len() == 0 ==> res is None,
        path@ == seq!['/'] ==> res is None,
        is_bare_name(path@) ==> res is Some && res.unwrap()@.len() == 0,
        is_plain_absolute(path@) ==> res is Some && res.unwrap()@ == plain_parent(path@),
{
    std::path::Path::new(path).parent().map(|p| p.to_string_lossy().into_owned())
}

impl Host {
    /// The path of the plugin's DLL, from the bytes that the host-string read
    /// of the plugin path ended with.
    pub fn plugin_path(&self, read: Option<Vec<u8>>) -> (res: Option<String>)
        ensures
            text_of(res) == host_text(read),
            read matches Some(b) ==> (valid_utf8(b@) ==> text_of(res) == Some(decode_utf8(b@))),
    {
        match read {
            None => None,
            Some(bytes) => FfiStr { bytes: Some(bytes) }.to_string_lossy(),
        }
    }

    /// The directory of the plugin's DLL: the parent of `plugin_path`, and
    /// nothing where the host gave no path or the path has no parent.
    pub fn plugin_dir(&self, read: Option<Vec<u8>>) -> (res: Option<String>)
        ensures
            host_text(read) is None ==> res is None,
            host_text(read) matches Some(p) && p.len() == 0 ==> res is None,
            host_text(read) matches Some(p) && p == seq!['/'] ==> res is None,
            host_text(read) matches Some(p) && is_bare_name(p) ==> (res matches Some(d) && d@.len()
                == 0),
            host_text(read) matches Some(p) ==> (is_plain_absolute(p) ==> (res matches Some(d) && d@
                == plain_parent(p))),
            read matches Some(b) ==> (valid_utf8(b@) && is_plain_absolute(decode_utf8(b@)) ==> (
            res matches Some(d) && d@ == plain_parent(decode_utf8(b@)))),
    {
        match self.plugin_path(read) {
            None => None,
            Some(path) => path_parent(path.as_str()),
        }
    }
}

/// A call from the plugin to the host.
#[derive(Debug)]
pub enum HostCall {
    /// Write a line to the host's log.
    Log(String),
    /// Show a message on the live-comment overlay.
    AddDm { text: String, fullscreen: bool },
}

/// What a host call says.
pub enum HostCallView {
    Log(Seq<char>),
    AddDm(Seq<char>, bool),
}

/// What a host call says.
pub open spec fn call_view(c: HostCall) -> HostCallView {
    match c {
        HostCall::Log(s) => HostCallView::Log(s@),
        HostCall::AddDm { text, fullscreen } => HostCallView::AddDm(text@, fullscreen),
    }
}

/// What a list of host calls says.
pub open spec fn call_views(calls: Seq<HostCall>) -> Seq<HostCallView> {
    calls.map_values(|c: HostCall| call_view(c))
}

pub(crate) fn log(calls: &mut Vec<HostCall>, text: String)
    ensures
        call_views(final(calls)@) == call_views(old(calls)@).push(HostCallView::Log(text@)),
{
    let ghost before = calls@;
    let ghost t = text@;
    calls.push(HostCall::Log(text));
    assert(call_views(calls@) =~= call_views(before).push(HostCallView::Log(t)));
}

pub(crate) fn add_dm(calls: &mut Vec<HostCall>, text: String, fullscreen: bool)
    ensures
        call_views(final(calls)@) == call_views(old(calls)@).push(
            HostCallView::AddDm(text@, fullscreen),
        ),
{
    let ghost before = calls@;
    let ghost t = text@;
    calls.push(HostCall::AddDm { text, fullscreen });
    assert(call_views(calls@) =~= call_views(before).push(HostCallView::AddDm(t, fullscreen)));
}

pub(crate) fn concat(a: &str, b: &str) -> (res: String)
    ensures
        res@ == a@ + b@,
{
    let mut out = String::from_str(a);
    out.append(b);
    out
}

} // verus!
