//! The screen-cast streams a desktop portal reports: decoding the nested
//! D-Bus values of its `Start` response.

use vstd::prelude::*;
use crate::text::{contains_seq, contains_str, decimal, str_equal, u64_to_string};

verus! {

/// A D-Bus value as the decoding reads it: what it gives as a signed or
/// unsigned integer, as a string, and, for containers (structs, arrays,
/// dictionaries, variants), its elements in order.
pub struct DbusValue {
    pub signed: Option<i64>,
    pub unsigned: Option<u64>,
    pub text: Option<String>,
    pub is_container: bool,
    pub children: Vec<DbusValue>,
}

/// What the portal says about one stream.
#[derive(Debug, Clone, Copy)]
pub struct PwStreamInfo {
    /// PipeWire node id.
    pub path: u64,
    /// `1` for a monitor, `2` for a window, `0` when not given.
    pub source_type: u64,
    /// Logical `(x, y)` of a monitor stream.
    pub position: Option<(i32, i32)>,
    /// Logical `(width, height)` of the stream.
    pub size: Option<(i32, i32)>,
}

/// The integer leaves of a value, depth first: a value that is an integer
/// is one leaf; otherwise a container's leaves are those of its elements.
pub open spec fn ints_of(v: DbusValue) -> Seq<i64>
    decreases v, 1nat,
{
    match v.signed {
        Some(i) => seq![i],
        None => if v.is_container {
            ints_of_all(v.children@, v.children@.len() as int)
        } else {
            Seq::empty()
        },
    }
}

/// The integer leaves of the first `n` values.
pub open spec fn ints_of_all(vs: Seq<DbusValue>, n: int) -> Seq<i64>
    decreases vs, 0nat, n,
{
    if n <= 0 || n > vs.len() {
        Seq::empty()
    } else {
        ints_of_all(vs, n - 1) + ints_of(vs[n - 1])
    }
}

/// A `(ii)` value: exactly two integer leaves, each taken as `i32`.
pub open spec fn spec_extract_ii(v: DbusValue) -> Option<(i32, i32)> {
    let ints = ints_of(v);
    if ints.len() == 2 {
        Some((ints[0] as i32, ints[1] as i32))
    } else {
        None
    }
}

fn collect_ints(arg: &DbusValue, out: &mut Vec<i64>)
    ensures
        final(out)@ == old(out)@ + ints_of(*arg),
    decreases arg,
{
    match arg.signed {
        Some(i) => {
            out.push(i);
            assert(final(out)@ =~= old(out)@ + seq![i]);
        },
        None => {
            if arg.is_container {
                let ghost start = out@;
                let mut k: usize = 0;
                while k < arg.children.len()
                    invariant
                        k <= arg.children@.len(),
                        arg.signed is None,
                        arg.is_container,
                        out@ == start + ints_of_all(arg.children@, k as int),
                    decreases arg.children@.len() - k,
                {
                    assert(decreases_to!(arg => arg.children));
                    assert(decreases_to!(arg.children => arg.children@));
                    assert(decreases_to!(arg.children@ => arg.children@[k as int]));
                    collect_ints(&arg.children[k], out);
                    k = k + 1;
                    assert(out@ =~= start + ints_of_all(arg.children@, k as int));
                }
            } else {
                assert(out@ =~= old(out)@ + Seq::<i64>::empty());
            }
        },
    }
}

/// Reads a D-Bus `(ii)` value (as the portal reports `position` and `size`),
/// looking through any container layers.
pub fn extract_ii(arg: &DbusValue) -> (r: Option<(i32, i32)>)
    ensures
        r == spec_extract_ii(*arg),
{
    let mut ints: Vec<i64> = Vec::new();
    collect_ints(arg, &mut ints);
    assert(ints@ =~= ints_of(*arg));
    if ints.len() == 2 {
        Some((ints[0] as i32, ints[1] as i32))
    } else {
        None
    }
}

pub open spec fn text_of(v: DbusValue) -> Option<Seq<char>> {
    match v.text {
        Some(s) => Some(s@),
        None => None,
    }
}

/// The string keys among the first `n` elements of a dictionary's
/// key/value list: the elements at even positions that are strings.
pub open spec fn string_keys(cs: Seq<DbusValue>, n: int) -> Seq<Seq<char>>
    decreases n,
{
    if n <= 0 {
        Seq::empty()
    } else if (n - 1) % 2 == 0 && text_of(cs[n - 1]) is Some {
        string_keys(cs, n - 1).push(text_of(cs[n - 1])->0)
    } else {
        string_keys(cs, n - 1)
    }
}

/// The values among the first `n` elements: the elements at odd positions.
pub open spec fn odd_values(cs: Seq<DbusValue>, n: int) -> Seq<DbusValue>
    decreases n,
{
    if n <= 0 {
        Seq::empty()
    } else if (n - 1) % 2 == 1 {
        odd_values(cs, n - 1).push(cs[n - 1])
    } else {
        odd_values(cs, n - 1)
    }
}

/// The value paired with the last of the first `n` keys named `name`; keys
/// and values are paired in order.
pub open spec fn lookup(keys: Seq<Seq<char>>, values: Seq<DbusValue>, name: Seq<char>, n: int) -> Option<
    DbusValue,
>
    decreases n,
{
    if n <= 0 {
        None
    } else if keys[n - 1] == name {
        Some(values[n - 1])
    } else {
        lookup(keys, values, name, n - 1)
    }
}

/// The attribute named `name` of a stream's attribute list.
pub open spec fn attribute(attrs: Seq<DbusValue>, name: Seq<char>) -> Option<DbusValue> {
    let keys = string_keys(attrs, attrs.len() as int);
    let values = odd_values(attrs, attrs.len() as int);
    let n = if keys.len() <= values.len() {
        keys.len()
    } else {
        values.len()
    };
    lookup(keys, values, name, n as int)
}

/// One stream: its node id and its attributes; a stream that is not a
/// container of at least these two, whose id is not unsigned, or whose
/// `source_type` is given but not unsigned, is left out.
pub open spec fn spec_stream_info(v: DbusValue) -> Option<PwStreamInfo> {
    if !v.is_container || v.children@.len() < 1 {
        None
    } else if v.children@[0].unsigned is None {
        None
    } else if v.children@.len() < 2 || !v.children@[1].is_container {
        None
    } else {
        let attrs = v.children@[1].children@;
        let source_type = match attribute(attrs, "source_type"@) {
            None => Some(0u64),
            Some(t) => t.unsigned,
        };
        match source_type {
            None => None,
            Some(st) => Some(
                PwStreamInfo {
                    path: v.children@[0].unsigned->0,
                    source_type: st,
                    position: match attribute(attrs, "position"@) {
                        Some(p) => spec_extract_ii(p),
                        None => None,
                    },
                    size: match attribute(attrs, "size"@) {
                        Some(p) => spec_extract_ii(p),
                        None => None,
                    },
                },
            ),
        }
    }
}

/// The streams decoded from the first `n` stream values, in order.
pub open spec fn streams_upto(vs: Seq<DbusValue>, n: int) -> Seq<PwStreamInfo>
    decreases n,
{
    if n <= 0 {
        Seq::empty()
    } else {
        match spec_stream_info(vs[n - 1]) {
            Some(s) => streams_upto(vs, n - 1).push(s),
            None => streams_upto(vs, n - 1),
        }
    }
}

/// The streams of a `Start` response's `streams` result: the result holds
/// (through one container layer) the list of streams.
pub open spec fn spec_streams(streams: Option<DbusValue>) -> Seq<PwStreamInfo> {
    match streams {
        None => Seq::empty(),
        Some(s) => if !s.is_container || s.children@.len() == 0 {
            Seq::empty()
        } else {
            let list = s.children@[0];
            if !list.is_container {
                Seq::empty()
            } else {
                streams_upto(list.children@, list.children@.len() as int)
            }
        },
    }
}

fn find_attribute<'a>(attrs: &'a Vec<DbusValue>, name: &str) -> (r: Option<&'a DbusValue>)
    ensures
        match attribute(attrs@, name@) {
            Some(v) => r is Some && *r->0 == v,
            None => r is None,
        },
{
    let mut keys: Vec<&String> = Vec::new();
    let mut values: Vec<&DbusValue> = Vec::new();
    let mut i: usize = 0;
    while i < attrs.len()
        invariant
            i <= attrs@.len(),
            keys@.len() == string_keys(attrs@, i as int).len(),
            forall|k: int| 0 <= k < keys@.len() ==> #[trigger] keys@[k]@ == string_keys(attrs@, i as int)[k],
            values@.len() == odd_values(attrs@, i as int).len(),
            forall|k: int| 0 <= k < values@.len() ==> *#[trigger] values@[k] == odd_values(attrs@, i as int)[k],
        decreases attrs@.len() - i,
    {
        if i % 2 == 0 {
            match &attrs[i].text {
                Some(s) => keys.push(s),
                None => {},
            }
        } else {
            values.push(&attrs[i]);
        }
        i = i + 1;
    }
    let n = if keys.len() <= values.len() {
        keys.len()
    } else {
        values.len()
    };
    let ghost sk = string_keys(attrs@, attrs@.len() as int);
    let ghost ov = odd_values(attrs@, attrs@.len() as int);
    let mut k = n;
    while k > 0
        invariant
            k <= n,
            n <= keys@.len(),
            n <= values@.len(),
            keys@.len() == sk.len(),
            values@.len() == ov.len(),
            forall|j: int| 0 <= j < keys@.len() ==> #[trigger] keys@[j]@ == sk[j],
            forall|j: int| 0 <= j < values@.len() ==> *#[trigger] values@[j] == ov[j],
            attribute(attrs@, name@) == lookup(sk, ov, name@, k as int),
        decreases k,
    {
        if str_equal(keys[k - 1].as_str(), name) {
            return Some(values[k - 1]);
        }
        k = k - 1;
    }
    None
}

fn stream_info(v: &DbusValue) -> (r: Option<PwStreamInfo>)
    ensures
        r == spec_stream_info(*v),
{
    if !v.is_container || v.children.len() < 1 {
        return None;
    }
    let path = match v.children[0].unsigned {
        Some(p) => p,
        None => {
            return None;
        },
    };
    if v.children.len() < 2 || !v.children[1].is_container {
        return None;
    }
    let attrs = &v.children[1].children;
    let source_type = match find_attribute(attrs, "source_type") {
        None => 0u64,
        Some(t) => match t.unsigned {
            Some(st) => st,
            None => {
                return None;
            },
        },
    };
    let position = match find_attribute(attrs, "position") {
        Some(p) => extract_ii(p),
        None => None,
    };
    let size = match find_attribute(attrs, "size") {
        Some(p) => extract_ii(p),
        None => None,
    };
    Some(PwStreamInfo { path, source_type, position, size })
}

/// Decodes the streams of a portal `Start` response from its `streams`
/// result (`None` when the response has none). Streams that do not decode
/// are left out; a malformed list gives no streams.
pub fn streams_from_response(streams: Option<&DbusValue>) -> (r: Vec<PwStreamInfo>)
    ensures
        r@ == spec_streams(match streams {
            Some(s) => Some(*s),
            None => None,
        }),
{
    let s = match streams {
        Some(s) => s,
        None => {
            return Vec::new();
        },
    };
    if !s.is_container || s.children.len() == 0 {
        return Vec::new();
    }
    let list = &s.children[0];
    if !list.is_container {
        return Vec::new();
    }
    let mut out: Vec<PwStreamInfo> = Vec::new();
    let mut i: usize = 0;
    while i < list.children.len()
        invariant
            i <= list.children@.len(),
            out@ == streams_upto(list.children@, i as int),
        decreases list.children@.len() - i,
    {
        match stream_info(&list.children[i]) {
            Some(info) => out.push(info),
            None => {},
        }
        i = i + 1;
    }
    out
}

/// `Pipewire <kind>, path: <node id>`, the kind being `Desktop` for a
/// monitor, `Window` for a window and `Unknown` otherwise.
pub fn pipewire_capturable_name(source_type: u64, path: u64) -> (s: String)
    ensures
        s@ == "Pipewire "@ + (if source_type == 1 {
            "Desktop"@
        } else if source_type == 2 {
            "Window"@
        } else {
            "Unknown"@
        }) + ", path: "@ + decimal(path as nat),
{
    let mut s = String::from_str("Pipewire ");
    if source_type == 1 {
        s.append("Desktop");
    } else if source_type == 2 {
        s.append("Window");
    } else {
        s.append("Unknown");
    }
    s.append(", path: ");
    let p = u64_to_string(path);
    s.append(p.as_str());
    s
}

/// The portal requests that negotiate a screen cast, in order.
#[derive(Debug, Clone, Copy, PartialEq, Eq, Structural)]
pub enum PortalRequest {
    CreateSession,
    SelectDevices,
    SelectSources,
    Start,
}

/// Portal interfaces a request goes to.
#[derive(Debug, Clone, Copy, PartialEq, Eq, Structural)]
pub enum PortalInterface {
    RemoteDesktop,
    ScreenCast,
}

/// The remote-desktop portal (which also lets input devices be chosen) is
/// used on GNOME only; elsewhere the screen-cast portal alone.
pub fn uses_remote_desktop(desktop_session: Option<&str>) -> (r: bool)
    ensures
        r == (match desktop_session {
            Some(s) => contains_seq(s@, "gnome"@),
            None => false,
        }),
{
    match desktop_session {
        Some(s) => contains_str(s, "gnome"),
        None => false,
    }
}

/// Capturing the cursor under KDE Plasma can crash the desktop: the user is
/// warned when both hold.
pub fn warn_cursor_on_plasma(desktop_session: Option<&str>, capture_cursor: bool) -> (r: bool)
    ensures
        r == (capture_cursor && match desktop_session {
            Some(s) => contains_seq(s@, "plasma"@),
            None => false,
        }),
{
    if !capture_cursor {
        return false;
    }
    match desktop_session {
        Some(s) => contains_str(s, "plasma"),
        None => false,
    }
}

pub open spec fn spec_next_request(after: PortalRequest, remote_desktop: bool) -> Option<
    PortalRequest,
> {
    match after {
        PortalRequest::CreateSession => if remote_desktop {
            Some(PortalRequest::SelectDevices)
        } else {
            Some(PortalRequest::SelectSources)
        },
        PortalRequest::SelectDevices => Some(PortalRequest::SelectSources),
        PortalRequest::SelectSources => Some(PortalRequest::Start),
        PortalRequest::Start => None,
    }
}

/// The request that follows the answer to `after`: devices are selected only
/// for a remote-desktop session; the answer to `Start` ends the negotiation.
pub fn next_request(after: PortalRequest, remote_desktop: bool) -> (r: Option<PortalRequest>)
    ensures
        r == spec_next_request(after, remote_desktop),
{
    match after {
        PortalRequest::CreateSession => if remote_desktop {
            Some(PortalRequest::SelectDevices)
        } else {
            Some(PortalRequest::SelectSources)
        },
        PortalRequest::SelectDevices => Some(PortalRequest::SelectSources),
        PortalRequest::SelectSources => Some(PortalRequest::Start),
        PortalRequest::Start => None,
    }
}

/// The interface a request goes to: sessions are created and started on the
/// remote-desktop interface when it is used, devices are selected there, and
/// sources are always selected on the screen-cast interface.
pub fn request_interface(req: PortalRequest, remote_desktop: bool) -> (i: PortalInterface)
    ensures
        i == (match req {
            PortalRequest::SelectDevices => PortalInterface::RemoteDesktop,
            PortalRequest::SelectSources => PortalInterface::ScreenCast,
            _ => if remote_desktop {
                PortalInterface::RemoteDesktop
            } else {
                PortalInterface::ScreenCast
            },
        }),
{
    match req {
        PortalRequest::SelectDevices => PortalInterface::RemoteDesktop,
        PortalRequest::SelectSources => PortalInterface::ScreenCast,
        _ => if remote_desktop {
            PortalInterface::RemoteDesktop
        } else {
            PortalInterface::ScreenCast
        },
    }
}

/// The negotiation asks for the sources exactly once and ends with `Start`,
/// whichever interface is used.
pub proof fn negotiation_reaches_start(remote_desktop: bool)
    ensures
        ({
            let first = spec_next_request(PortalRequest::CreateSession, remote_desktop)->0;
            if remote_desktop {
                first == PortalRequest::SelectDevices && spec_next_request(first, remote_desktop)
                    == Some(PortalRequest::SelectSources)
            } else {
                first == PortalRequest::SelectSources
            }
        }),
        spec_next_request(PortalRequest::SelectSources, remote_desktop) == Some(
            PortalRequest::Start,
        ),
        spec_next_request(PortalRequest::Start, remote_desktop) is None,
{
}

/// Permissions persist until explicitly revoked.
pub const PERSIST_MODE: u32 = 2;

/// The cursor is embedded in the stream (`2`) when captured, hidden (`1`)
/// otherwise.
pub fn cursor_mode(capture_cursor: bool) -> (m: u32)
    ensures
        m == (if capture_cursor {
            2u32
        } else {
            1u32
        }),
{
    if capture_cursor {
        2
    } else {
        1
    }
}

/// A random number drawn from the operating system's random source, through
/// `rand::rngs::SysRng` and its `TryRng::try_next_u64`, or `None` when that
/// source reports an error.
///
/// Nothing is claimed of the number: it depends on chance alone.
#[verifier::external_body]
fn random_number() -> (n: Option<u64>) {
    rand::TryRng::try_next_u64(&mut rand::rngs::SysRng).ok()
}

/// The request token for the number `t`: `weylus` followed by `t` in decimal.
pub fn token_for(t: u64) -> (s: String)
    ensures
        s@ == "weylus"@ + decimal(t as nat),
{
    let mut s = String::from_str("weylus");
    let d = u64_to_string(t);
    s.append(d.as_str());
    s
}

/// A fresh request token: `weylus` followed by a number drawn at random, or
/// `None` when no random number could be drawn.
pub fn handle_token() -> (r: Option<String>)
    ensures
        r matches Some(s) ==> exists|t: u64| s@ == "weylus"@ + decimal(t as nat),
{
    match random_number() {
        Some(t) => {
            let s = token_for(t);
            Some(s)
        },
        None => None,
    }
}

/// Why a portal answer could not be used.
#[derive(Debug, Clone, Copy, PartialEq, Eq, Structural)]
pub enum PortalError {
    /// The answer to `CreateSession` holds no `session_handle`.
    NoSessionHandle,
    /// Its `session_handle` is not a string.
    SessionHandleNotString,
    /// No pipe or no stream was obtained.
    NoScreenCapture,
}

/// The session handle of the answer to `CreateSession`, given its
/// `session_handle` result.
pub fn session_handle(result: Option<&DbusValue>) -> (r: Result<String, PortalError>)
    ensures
        match result {
            None => r == Err::<String, PortalError>(PortalError::NoSessionHandle),
            Some(v) => match text_of(*v) {
                Some(t) => r is Ok && r->Ok_0@ == t,
                None => r == Err::<String, PortalError>(PortalError::SessionHandleNotString),
            },
        },
{
    match result {
        None => Err(PortalError::NoSessionHandle),
        Some(v) => match &v.text {
            Some(t) => Ok(t.clone()),
            None => Err(PortalError::SessionHandleNotString),
        },
    }
}

/// The restore token of the answer to `Start`, if it holds one as a string.
pub fn restore_token(result: Option<&DbusValue>) -> (r: Option<String>)
    ensures
        match result {
            Some(v) => match text_of(*v) {
                Some(t) => r is Some && r->0@ == t,
                None => r is None,
            },
            None => r is None,
        },
{
    match result {
        Some(v) => match &v.text {
            Some(t) => Some(t.clone()),
            None => None,
        },
        None => None,
    }
}

/// The negotiation succeeded when it yielded the PipeWire pipe and at least
/// one stream.
pub fn screen_capture_outcome(has_pipe: bool, n_streams: usize) -> (r: Result<(), PortalError>)
    ensures
        r is Ok <==> has_pipe && n_streams > 0,
        r is Err ==> r == Err::<(), PortalError>(PortalError::NoScreenCapture),
{
    if has_pipe && n_streams > 0 {
        Ok(())
    } else {
        Err(PortalError::NoScreenCapture)
    }
}

} // verus!
