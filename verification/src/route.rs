//! Which operation a request asks for: the pairing of method and path.

use actix_router::Quoter;
use vstd::prelude::*;
use vstd::string::*;

verus! {

/// The method of a request.
#[derive(Clone, Copy, Debug, PartialEq, Eq, Structural)]
pub enum Method {
    Get,
    Post,
    Put,
    Patch,
    Delete,
    /// Any method that the directory has no use for.
    Other,
}

/// The method that a name stands for. Names are in capitals, as they are
/// on the wire.
pub open spec fn method_of(name: Seq<char>) -> Method {
    if name == "GET"@ {
        Method::Get
    } else if name == "POST"@ {
        Method::Post
    } else if name == "PUT"@ {
        Method::Put
    } else if name == "PATCH"@ {
        Method::Patch
    } else if name == "DELETE"@ {
        Method::Delete
    } else {
        Method::Other
    }
}

/// The operation that a request asks for, with the username from its path.
#[derive(Debug)]
pub enum Route {
    /// `GET /`
    Probe,
    /// `POST /add_user`
    Create,
    /// `GET /get_user/{username}`
    GetByUsername { username: String },
    /// `GET /get_all_users`
    ListAll,
    /// `PUT` or `PATCH /update/{username}`
    Update { username: String },
    /// `DELETE` or `GET /delete_user/{username}`
    Delete { username: String },
}

/// What a route is.
pub enum RouteView {
    Probe,
    Create,
    GetByUsername { username: Seq<char> },
    ListAll,
    Update { username: Seq<char> },
    Delete { username: Seq<char> },
}

impl DeepView for Route {
    type V = RouteView;

    open spec fn deep_view(&self) -> RouteView {
        match self {
            Route::Probe => RouteView::Probe,
            Route::Create => RouteView::Create,
            Route::GetByUsername { username } => RouteView::GetByUsername { username: username@ },
            Route::ListAll => RouteView::ListAll,
            Route::Update { username } => RouteView::Update { username: username@ },
            Route::Delete { username } => RouteView::Delete { username: username@ },
        }
    }
}

/// One segment of a path: at least one character, none of them a slash.
pub open spec fn is_segment(text: Seq<char>) -> bool {
    text.len() > 0 && forall|i: int| 0 <= i < text.len() ==> text[i] != '/'
}

/// The segment that follows `prefix` in `path`, where the path is the prefix
/// and one segment after it.
pub open spec fn segment_after(path: Seq<char>, prefix: Seq<char>) -> Option<Seq<char>> {
    if prefix.is_prefix_of(path) && is_segment(path.skip(prefix.len() as int)) {
        Some(path.skip(prefix.len() as int))
    } else {
        None
    }
}

/// The route that method and path pair with, the username as the path has
/// it; `None` where they pair with no operation. Paths are compared
/// character by character, and a slash at the end is no part of a route.
pub open spec fn written_route_of(method: Method, path: Seq<char>) -> Option<RouteView> {
    if path == "/"@ {
        if method == Method::Get {
            Some(RouteView::Probe)
        } else {
            None
        }
    } else if path == "/add_user"@ {
        if method == Method::Post {
            Some(RouteView::Create)
        } else {
            None
        }
    } else if path == "/get_all_users"@ {
        if method == Method::Get {
            Some(RouteView::ListAll)
        } else {
            None
        }
    } else if let Some(username) = segment_after(path, "/get_user/"@) {
        if method == Method::Get {
            Some(RouteView::GetByUsername { username })
        } else {
            None
        }
    } else if let Some(username) = segment_after(path, "/update/"@) {
        if method == Method::Put || method == Method::Patch {
            Some(RouteView::Update { username })
        } else {
            None
        }
    } else if let Some(username) = segment_after(path, "/delete_user/"@) {
        if method == Method::Delete || method == Method::Get {
            Some(RouteView::Delete { username })
        } else {
            None
        }
    } else {
        None
    }
}

/// The bytes of a segment after its percent-encoded bytes were decoded,
/// `None` where the segment holds nothing to decode.
pub uninterp spec fn requoted(segment: Seq<char>) -> Option<Seq<u8>>;

/// The text that bytes stand for in UTF-8, each ill-formed part of them
/// replaced by U+FFFD.
pub uninterp spec fn utf8_lossy(bytes: Seq<u8>) -> Seq<char>;

/// A segment with its percent-encoding taken off: the text of the decoded
/// bytes, or the segment itself where it holds nothing to decode.
pub open spec fn unescaped(segment: Seq<char>) -> Seq<char> {
    match requoted(segment) {
        Some(bytes) => utf8_lossy(bytes),
        None => segment,
    }
}

/// A route with the percent-encoding taken off its username.
pub open spec fn with_unescaped(route: RouteView) -> RouteView {
    match route {
        RouteView::GetByUsername { username } => RouteView::GetByUsername {
            username: unescaped(username),
        },
        RouteView::Update { username } => RouteView::Update { username: unescaped(username) },
        RouteView::Delete { username } => RouteView::Delete { username: unescaped(username) },
        other => other,
    }
}

/// The route of a request, `None` where method and path pair with no
/// operation. The username is the segment of the path, decoded after the
/// path was matched: an encoded slash is part of the username.
pub open spec fn route_of(method: Method, path: Seq<char>) -> Option<RouteView> {
    match written_route_of(method, path) {
        Some(route) => Some(with_unescaped(route)),
        None => None,
    }
}

/// `actix_router::Quoter::requote` of a quoter that protects no byte, on the
/// segment's bytes: every well-formed `%XX` becomes the byte it names,
/// everything else stays. `None` where there was nothing to decode.
#[verifier::external_body]
fn requote(segment: &str) -> (bytes: Option<Vec<u8>>)
    ensures
        match bytes {
            Some(decoded) => requoted(segment@) == Some(decoded@),
            None => requoted(segment@) is None,
        },
{
    Quoter::new(b"", b"").requote(segment.as_bytes())
}

/// `String::from_utf8_lossy`, made an owned string: the text of the bytes,
/// with U+FFFD where they are no UTF-8.
#[verifier::external_body]
fn lossy_text(bytes: Vec<u8>) -> (text: String)
    ensures
        text@ == utf8_lossy(bytes@),
{
    String::from_utf8_lossy(&bytes).into_owned()
}

/// Takes the percent-encoding off a segment of a path.
pub fn unescape(segment: String) -> (text: String)
    ensures
        text@ == unescaped(segment@),
{
    match requote(segment.as_str()) {
        Some(bytes) => lossy_text(bytes),
        None => segment,
    }
}

/// Whether `path` begins with `prefix`.
fn begins_with(path: &str, prefix: &str) -> (begins: bool)
    ensures
        begins == prefix@.is_prefix_of(path@),
{
    let length = prefix.unicode_len();
    if path.unicode_len() < length {
        return false;
    }
    let mut i: usize = 0;
    while i < length
        invariant
            length == prefix@.len(),
            length <= path@.len(),
            i <= length,
            forall|j: int| 0 <= j < i ==> path@[j] == prefix@[j],
        decreases length - i,
    {
        if path.get_char(i) != prefix.get_char(i) {
            assert(path@.subrange(0, length as int)[i as int] != prefix@[i as int]);
            return false;
        }
        i += 1;
    }
    assert(prefix@ =~= path@.subrange(0, length as int));
    true
}

/// Whether `path` is exactly `whole`.
fn is_exactly(path: &str, whole: &str) -> (same: bool)
    ensures
        same == (path@ == whole@),
{
    if path.unicode_len() != whole.unicode_len() {
        return false;
    }
    let begins = begins_with(path, whole);
    assert(begins ==> path@ =~= whole@);
    begins
}

/// Reads the name of a method.
pub fn method_named(name: &str) -> (method: Method)
    ensures
        method == method_of(name@),
{
    if is_exactly(name, "GET") {
        Method::Get
    } else if is_exactly(name, "POST") {
        Method::Post
    } else if is_exactly(name, "PUT") {
        Method::Put
    } else if is_exactly(name, "PATCH") {
        Method::Patch
    } else if is_exactly(name, "DELETE") {
        Method::Delete
    } else {
        Method::Other
    }
}

/// The one segment that follows `prefix` in `path`, if that is what the path
/// is made of.
fn take_segment(path: &str, prefix: &str) -> (segment: Option<String>)
    ensures
        segment.deep_view() == segment_after(path@, prefix@),
{
    if !begins_with(path, prefix) {
        return None;
    }
    let start = prefix.unicode_len();
    let end = path.unicode_len();
    let rest = path.substring_char(start, end);
    assert(rest@ =~= path@.skip(start as int));
    let length = end - start;
    if length == 0 {
        return None;
    }
    let mut i: usize = 0;
    while i < length
        invariant
            length == rest@.len(),
            rest@ == path@.skip(start as int),
            start == prefix@.len(),
            i <= length,
            forall|j: int| 0 <= j < i ==> rest@[j] != '/',
        decreases length - i,
    {
        if rest.get_char(i) == '/' {
            assert(path@.skip(start as int)[i as int] == '/');
            return None;
        }
        i += 1;
    }
    Some(String::from_str(rest))
}

/// Pairs method and path with an operation and leaves the username as the
/// path has it.
pub fn match_route(method: Method, path: &str) -> (route: Option<Route>)
    ensures
        route.deep_view() == written_route_of(method, path@),
{
    if is_exactly(path, "/") {
        return match method {
            Method::Get => Some(Route::Probe),
            _ => None,
        };
    }
    if is_exactly(path, "/add_user") {
        return match method {
            Method::Post => Some(Route::Create),
            _ => None,
        };
    }
    if is_exactly(path, "/get_all_users") {
        return match method {
            Method::Get => Some(Route::ListAll),
            _ => None,
        };
    }
    if let Some(username) = take_segment(path, "/get_user/") {
        return match method {
            Method::Get => Some(Route::GetByUsername { username }),
            _ => None,
        };
    }
    if let Some(username) = take_segment(path, "/update/") {
        return match method {
            Method::Put | Method::Patch => Some(Route::Update { username }),
            _ => None,
        };
    }
    if let Some(username) = take_segment(path, "/delete_user/") {
        return match method {
            Method::Delete | Method::Get => Some(Route::Delete { username }),
            _ => None,
        };
    }
    None
}

/// Finds the operation that a request asks for, from its method and the
/// path of its URL: the path is matched as it is written, and the username
/// is decoded afterwards.
pub fn resolve(method: Method, path: &str) -> (route: Option<Route>)
    ensures
        route.deep_view() == route_of(method, path@),
{
    match match_route(method, path) {
        Some(Route::GetByUsername { username }) => Some(
            Route::GetByUsername { username: unescape(username) },
        ),
        Some(Route::Update { username }) => Some(Route::Update { username: unescape(username) }),
        Some(Route::Delete { username }) => Some(Route::Delete { username: unescape(username) }),
        other => other,
    }
}

} // verus!
