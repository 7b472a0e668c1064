//! The read-only HTTP surface: which requests are served, and what each
//! answer holds.
//!
//! The gateway reads the session store and never changes it. What it read is
//! handed to the functions of this module as plain values: the ids found in
//! the data directory, or the content of one session file (`None` where the
//! file does not exist).

use vstd::prelude::*;
use vstd::string::StrSliceExecFns;
use vstd::string::StringExecFns;
use crate::page::{page_text, render, PageKind};
use crate::session::{is_generated_id, is_plain_name, lines_of, option_view};
use crate::session::lemma_generated_id_is_plain;
use crate::text::{concat_all, concat_text, has_char, join_with, same_text, split_on, split_text};
use crate::text::{lemma_join_split, lemma_split_join, lemma_split_nonempty};

verus! {

/// The first segment of every served path.
pub const ROOT_SEGMENT: &'static str = "tull";

/// The second segment of the HTML routes.
pub const WEB_SEGMENT: &'static str = "web";

/// The second segment of the JSON routes.
pub const API_SEGMENT: &'static str = "api";

/// The second segment of the plain text routes.
pub const RAW_SEGMENT: &'static str = "raw";

/// The only method that is served.
pub const GET_METHOD: &'static str = "GET";

/// What a JSON body holds before the list.
pub const JSON_BODY_OPEN: &'static str = "{\"data\":";

/// What a JSON body holds after the list.
pub const JSON_BODY_CLOSE: &'static str = "}";

/// The body of the answer to a request with another method than GET.
pub const METHOD_NOT_ALLOWED_TEXT: &'static str = "HTTP method not allowed";

/// The three representations in which sessions are served.
#[derive(Clone, Copy, Debug, PartialEq, Eq, Structural)]
pub enum Surface {
    /// Pages for a browser.
    Web,
    /// JSON.
    Api,
    /// Plain text.
    Raw,
}

/// The content types of the answers.
#[derive(Clone, Copy, Debug, PartialEq, Eq, Structural)]
pub enum ContentType {
    /// `text/html; charset=utf-8`
    Html,
    /// `application/json`
    Json,
    /// `text/plain; charset=utf-8`
    Text,
}

/// One of the six routes: the listing of a surface, or one session on it.
#[derive(Clone, Debug, PartialEq, Eq)]
pub struct Route {
    pub surface: Surface,
    /// The id of the session, or `None` for the listing.
    pub session: Option<String>,
}

/// A route as contracts see it.
pub struct RouteView {
    pub surface: Surface,
    pub session: Option<Seq<char>>,
}

impl View for Route {
    type V = RouteView;

    open spec fn view(&self) -> RouteView {
        RouteView {
            surface: self.surface,
            session: match self.session {
                Some(id) => Some(id@),
                None => None,
            },
        }
    }
}

/// An answer of the gateway.
#[derive(Clone, Debug, PartialEq, Eq)]
pub struct Response {
    pub status: u16,
    /// The content type, or `None` for an answer without one.
    pub content_type: Option<ContentType>,
    pub body: String,
}

/// An answer as contracts see it.
pub struct ResponseView {
    pub status: u16,
    pub content_type: Option<ContentType>,
    pub body: Seq<char>,
}

impl View for Response {
    type V = ResponseView;

    open spec fn view(&self) -> ResponseView {
        ResponseView { status: self.status, content_type: self.content_type, body: self.body@ }
    }
}

/// What becomes of a request before anything is read.
#[derive(Clone, Debug, PartialEq, Eq)]
pub enum Dispatch {
    /// The request is for this route.
    Serve(Route),
    /// The path is none of the six.
    NotFound,
    /// The method is not GET.
    MethodNotAllowed,
}

/// The JSON text that `serde_json` writes for a list of texts, or `None`
/// where it reports an error.
pub uninterp spec fn json_array_text(items: Seq<Seq<char>>) -> Option<Seq<char>>;

/// The segments of a request path. One slash at the start is skipped; the
/// rest is split at every slash; a path that ends in a slash has no empty
/// segment for it.
pub open spec fn path_segments(path: Seq<char>) -> Seq<Seq<char>> {
    let rest = if path.len() > 0 && path[0] == '/' {
        path.skip(1)
    } else {
        path
    };
    let parts = split_on(rest, '/');
    if parts.last().len() == 0 {
        parts.drop_last()
    } else {
        parts
    }
}

/// The segment that names a surface.
pub open spec fn surface_segment(surface: Surface) -> Seq<char> {
    match surface {
        Surface::Web => WEB_SEGMENT@,
        Surface::Api => API_SEGMENT@,
        Surface::Raw => RAW_SEGMENT@,
    }
}

/// The surface that a segment names, if any.
pub open spec fn surface_named(segment: Seq<char>) -> Option<Surface> {
    if segment == WEB_SEGMENT@ {
        Some(Surface::Web)
    } else if segment == API_SEGMENT@ {
        Some(Surface::Api)
    } else if segment == RAW_SEGMENT@ {
        Some(Surface::Raw)
    } else {
        None
    }
}

/// The route of a path: `tull`, then a surface, then at most one more
/// segment, the id, which is not empty.
pub open spec fn route_of(path: Seq<char>) -> Option<RouteView> {
    let segments = path_segments(path);
    if segments.len() == 2 && segments[0] == ROOT_SEGMENT@ && surface_named(segments[1]) is Some {
        Some(RouteView { surface: surface_named(segments[1])->0, session: None })
    } else if segments.len() == 3 && segments[0] == ROOT_SEGMENT@ && surface_named(
        segments[1],
    ) is Some && segments[2].len() > 0 {
        Some(RouteView { surface: surface_named(segments[1])->0, session: Some(segments[2]) })
    } else {
        None
    }
}

/// The path under which a route is served.
pub open spec fn path_of(route: RouteView) -> Seq<char> {
    let listing = seq![ROOT_SEGMENT@, surface_segment(route.surface)];
    match route.session {
        Some(id) => seq!['/'] + join_with(listing.push(id), '/'),
        None => seq!['/'] + join_with(listing, '/'),
    }
}

/// An answer with status 200, the given content type and body.
pub open spec fn ok_response(content_type: ContentType, body: Seq<char>) -> ResponseView {
    ResponseView { status: 200, content_type: Some(content_type), body }
}

/// The JSON answer for a list: the list under the name `data`, or an empty
/// answer with status 500 where the list could not be written.
pub open spec fn json_response(encoded: Option<Seq<char>>) -> ResponseView {
    match encoded {
        Some(list) => ok_response(ContentType::Json, JSON_BODY_OPEN@ + list + JSON_BODY_CLOSE@),
        None => ResponseView { status: 500, content_type: None, body: Seq::<char>::empty() },
    }
}

/// The answer to a path that is not served.
pub open spec fn not_found_response() -> ResponseView {
    ResponseView { status: 404, content_type: None, body: Seq::<char>::empty() }
}

/// The answer to a method that is not served.
pub open spec fn method_not_allowed_response() -> ResponseView {
    ResponseView {
        status: 405,
        content_type: Some(ContentType::Text),
        body: METHOD_NOT_ALLOWED_TEXT@,
    }
}

/// The lines shown for a session: those of its file, or none at all where
/// the file does not exist.
pub open spec fn shown_lines(content: Option<Seq<char>>) -> Seq<Seq<char>> {
    match content {
        Some(c) => lines_of(c),
        None => Seq::<Seq<char>>::empty(),
    }
}

/// The plain text shown for a session: its lines joined by line feeds, or
/// nothing where the file does not exist.
pub open spec fn raw_text(content: Option<Seq<char>>) -> Seq<char> {
    match content {
        Some(c) => join_with(lines_of(c), '\n'),
        None => Seq::<char>::empty(),
    }
}

/// The answer of a listing route, given the ids in the data directory. The
/// plain text listing writes the ids one after another with nothing between
/// them.
pub open spec fn listing_response(surface: Surface, ids: Seq<Seq<char>>) -> ResponseView {
    match surface {
        Surface::Web => ok_response(ContentType::Html, page_text(PageKind::SessionList, ids)),
        Surface::Api => json_response(json_array_text(ids)),
        Surface::Raw => ok_response(ContentType::Text, concat_all(ids)),
    }
}

/// The answer of a session route, given the content of the session's file.
/// An unknown session is answered like an empty one, never with an error.
pub open spec fn session_response(surface: Surface, content: Option<Seq<char>>) -> ResponseView {
    match surface {
        Surface::Web => ok_response(
            ContentType::Html,
            page_text(PageKind::SessionLog, shown_lines(content)),
        ),
        Surface::Api => json_response(json_array_text(shown_lines(content))),
        Surface::Raw => ok_response(ContentType::Text, raw_text(content)),
    }
}

/// The error type of `serde_json`.
#[verifier::external_type_specification]
#[verifier::external_body]
pub struct ExJsonError(serde_json::Error);

/// `serde_json::to_string` on a list of texts. The text that it writes
/// depends on the list alone, and is named rather than described.
#[verifier::external_body]
fn json_array(items: &Vec<String>) -> (written: Result<String, serde_json::Error>)
    ensures
        match written {
            Ok(text) => json_array_text(items.deep_view()) == Some(text@),
            Err(_) => json_array_text(items.deep_view()) is None,
        },
{
    serde_json::to_string(items)
}

/// The header value of a content type.
pub fn content_type_header(content_type: ContentType) -> (value: &'static str)
    ensures
        value@ == match content_type {
            ContentType::Html => "text/html; charset=utf-8"@,
            ContentType::Json => "application/json"@,
            ContentType::Text => "text/plain; charset=utf-8"@,
        },
{
    match content_type {
        ContentType::Html => "text/html; charset=utf-8",
        ContentType::Json => "application/json",
        ContentType::Text => "text/plain; charset=utf-8",
    }
}

/// The segment that names a surface.
pub fn segment_of(surface: Surface) -> (segment: &'static str)
    ensures
        segment@ == surface_segment(surface),
{
    match surface {
        Surface::Web => WEB_SEGMENT,
        Surface::Api => API_SEGMENT,
        Surface::Raw => RAW_SEGMENT,
    }
}

/// The path under which the listing of a surface is served.
pub fn listing_path(surface: Surface) -> (path: String)
    ensures
        path@ == path_of(RouteView { surface, session: None }),
{
    let mut path = String::new();
    path.push('/');
    path.append(ROOT_SEGMENT);
    path.push('/');
    path.append(segment_of(surface));
    proof {
        let parts = seq![ROOT_SEGMENT@, surface_segment(surface)];
        assert(parts.drop_last() =~= seq![ROOT_SEGMENT@]);
        assert(join_with(seq![ROOT_SEGMENT@], '/') == ROOT_SEGMENT@);
        assert(join_with(parts, '/') == ROOT_SEGMENT@.push('/') + surface_segment(surface));
        assert(path@ =~= seq!['/'] + join_with(parts, '/'));
    }
    path
}

/// The path under which a session is served on a surface.
pub fn session_route_path(surface: Surface, id: &str) -> (path: String)
    ensures
        path@ == path_of(RouteView { surface, session: Some(id@) }),
{
    let mut path = listing_path(surface);
    path.push('/');
    path.append(id);
    proof {
        let listing = seq![ROOT_SEGMENT@, surface_segment(surface)];
        let parts = listing.push(id@);
        assert(parts.drop_last() =~= listing);
        assert(path@ =~= seq!['/'] + join_with(parts, '/'));
    }
    path
}

/// The names of the segments hold no slash, and name three surfaces.
pub proof fn lemma_segment_names(surface: Surface)
    ensures
        !has_char(ROOT_SEGMENT@, '/'),
        !has_char(surface_segment(surface), '/'),
        surface_segment(surface).len() > 0,
        surface_named(surface_segment(surface)) == Some(surface),
{
    reveal_strlit("tull");
    reveal_strlit("web");
    reveal_strlit("api");
    reveal_strlit("raw");
    assert(WEB_SEGMENT@[0] == 'w' && API_SEGMENT@[0] == 'a' && RAW_SEGMENT@[0] == 'r');
}

/// Every route is served under its own path: the path of a listing leads to
/// that listing, and the path of a session whose id is a plain name leads
/// to that session, on the same surface.
pub proof fn lemma_route_of_path(route: RouteView)
    requires
        route.session matches Some(id) ==> is_plain_name(id),
    ensures
        route_of(path_of(route)) == Some(route),
{
    lemma_segment_names(route.surface);
    let listing = seq![ROOT_SEGMENT@, surface_segment(route.surface)];
    let parts = match route.session {
        Some(id) => listing.push(id),
        None => listing,
    };
    let joined = join_with(parts, '/');
    let path = path_of(route);
    assert(path == seq!['/'] + joined);
    assert(path.skip(1) =~= joined);
    assert forall|k: int| 0 <= k < parts.len() implies !has_char(#[trigger] parts[k], '/') by {}
    lemma_split_join(parts, '/');
    assert(path_segments(path) == parts);
}

/// Every generated id can be asked for: on each surface, the path made of
/// the id leads to the session of that id.
pub proof fn lemma_generated_id_is_served(surface: Surface, id: Seq<char>)
    requires
        is_generated_id(id),
    ensures
        route_of(path_of(RouteView { surface, session: Some(id) })) == Some(
            RouteView { surface, session: Some(id) },
        ),
{
    lemma_generated_id_is_plain(id);
    lemma_route_of_path(RouteView { surface, session: Some(id) });
}

/// A path that ends in one slash is served like the path without it.
pub proof fn lemma_trailing_slash(path: Seq<char>)
    requires
        path.len() > 0,
        path.last() != '/',
    ensures
        route_of(path.push('/')) == route_of(path),
{
    let rest = if path[0] == '/' {
        path.skip(1)
    } else {
        path
    };
    let longer = path.push('/');
    let longer_rest = if longer[0] == '/' {
        longer.skip(1)
    } else {
        longer
    };
    assert(longer_rest =~= rest.push('/'));
    assert(longer_rest.drop_last() =~= rest);
    lemma_split_nonempty(rest, '/');
    let parts = split_on(rest, '/');
    assert(split_on(longer_rest, '/') == parts.push(Seq::<char>::empty()));
    assert(parts.push(Seq::<char>::empty()).drop_last() =~= parts);
    if rest.len() == 0 {
        assert(path.len() == 1 && path[0] == '/');
    } else {
        assert(rest.last() == path.last());
        assert(parts.last().len() > 0) by {
            let before = split_on(rest.drop_last(), '/');
            lemma_split_nonempty(rest.drop_last(), '/');
        }
    }
}

/// No request for one of the six routes is answered with status 404,
/// whatever was read: an unknown session is no error.
pub proof fn lemma_never_not_found(
    surface: Surface,
    ids: Seq<Seq<char>>,
    content: Option<Seq<char>>,
)
    ensures
        listing_response(surface, ids).status != 404,
        session_response(surface, content).status != 404,
        surface != Surface::Api ==> listing_response(surface, ids).status == 200
            && session_response(surface, content).status == 200,
{
}

/// The plain text of a session is the content of its file, unchanged.
pub proof fn lemma_raw_text_is_content(content: Seq<char>)
    ensures
        raw_text(Some(content)) == content,
{
    lemma_join_split(content, '\n');
}

/// The surface that a segment names, if any.
pub fn surface_for(segment: &str) -> (surface: Option<Surface>)
    ensures
        surface == surface_named(segment@),
{
    if same_text(segment, WEB_SEGMENT) {
        Some(Surface::Web)
    } else if same_text(segment, API_SEGMENT) {
        Some(Surface::Api)
    } else if same_text(segment, RAW_SEGMENT) {
        Some(Surface::Raw)
    } else {
        None
    }
}

/// The segments of a request path.
pub fn segments_of(path: &str) -> (segments: Vec<String>)
    ensures
        segments.deep_view() == path_segments(path@),
{
    let n = path.unicode_len();
    let rest = if n > 0 && path.get_char(0) == '/' {
        path.substring_char(1, n)
    } else {
        path
    };
    proof {
        assert(path@.subrange(1, n as int) =~= path@.skip(1));
        lemma_split_nonempty(rest@, '/');
    }
    let mut segments = split_text(rest, '/');
    let ghost parts = segments.deep_view();
    let last = segments.len() - 1;
    assert(segments[last as int]@ == parts[last as int]);
    if segments[last].as_str().is_empty() {
        segments.pop();
        assert(segments.deep_view() =~= parts.drop_last());
    }
    segments
}

/// The route of a path, or `None` where the path is none of the six.
pub fn route(path: &str) -> (found: Option<Route>)
    ensures
        match found {
            Some(r) => route_of(path@) == Some(r@),
            None => route_of(path@) is None,
        },
{
    let mut segments = segments_of(path);
    let ghost all = segments.deep_view();
    let count = segments.len();
    if count < 2 || count > 3 {
        return None;
    }
    assert(segments[0]@ == all[0] && segments[1]@ == all[1]);
    if !same_text(segments[0].as_str(), ROOT_SEGMENT) {
        return None;
    }
    let surface = match surface_for(segments[1].as_str()) {
        Some(surface) => surface,
        None => {
            return None;
        },
    };
    if count == 2 {
        return Some(Route { surface, session: None });
    }
    assert(segments[2]@ == all[2]);
    let id = segments.pop().unwrap();
    if id.as_str().is_empty() {
        return None;
    }
    Some(Route { surface, session: Some(id) })
}

/// What becomes of a request with the given method and path.
pub fn dispatch(method: &str, path: &str) -> (outcome: Dispatch)
    ensures
        match outcome {
            Dispatch::Serve(r) => method@ == GET_METHOD@ && route_of(path@) == Some(r@),
            Dispatch::NotFound => method@ == GET_METHOD@ && route_of(path@) is None,
            Dispatch::MethodNotAllowed => method@ != GET_METHOD@,
        },
{
    if !same_text(method, GET_METHOD) {
        return Dispatch::MethodNotAllowed;
    }
    match route(path) {
        Some(found) => Dispatch::Serve(found),
        None => Dispatch::NotFound,
    }
}

/// The answer to a path that is not served: status 404 and nothing else.
pub fn not_found_reply() -> (response: Response)
    ensures
        response@ == not_found_response(),
{
    Response { status: 404, content_type: None, body: String::new() }
}

/// The answer to a method that is not served: status 405 and a short text.
pub fn method_not_allowed_reply() -> (response: Response)
    ensures
        response@ == method_not_allowed_response(),
{
    Response {
        status: 405,
        content_type: Some(ContentType::Text),
        body: String::from_str(METHOD_NOT_ALLOWED_TEXT),
    }
}

/// An HTML answer.
pub fn html_reply(body: String) -> (response: Response)
    ensures
        response@ == ok_response(ContentType::Html, body@),
{
    Response { status: 200, content_type: Some(ContentType::Html), body }
}

/// A plain text answer.
pub fn text_reply(body: String) -> (response: Response)
    ensures
        response@ == ok_response(ContentType::Text, body@),
{
    Response { status: 200, content_type: Some(ContentType::Text), body }
}

/// The JSON answer for a list that was written as `encoded`, or that could
/// not be written (`None`).
pub fn json_reply(encoded: Option<String>) -> (response: Response)
    ensures
        response@ == json_response(
            match encoded {
                Some(list) => Some(list@),
                None => None,
            },
        ),
{
    match encoded {
        Some(list) => {
            let mut body = String::from_str(JSON_BODY_OPEN);
            body.append(list.as_str());
            body.append(JSON_BODY_CLOSE);
            Response { status: 200, content_type: Some(ContentType::Json), body }
        },
        None => Response { status: 500, content_type: None, body: String::new() },
    }
}

/// The JSON answer for a list of texts.
pub fn json_list_reply(items: &Vec<String>) -> (response: Response)
    ensures
        response@ == json_response(json_array_text(items.deep_view())),
{
    match json_array(items) {
        Ok(list) => json_reply(Some(list)),
        Err(_) => json_reply(None),
    }
}

/// The lines shown for a session.
pub fn lines_to_show(content: Option<&str>) -> (lines: Vec<String>)
    ensures
        lines.deep_view() == shown_lines(option_view(content)),
{
    match content {
        Some(c) => split_text(c, '\n'),
        None => {
            let lines: Vec<String> = Vec::new();
            assert(lines.deep_view() =~= Seq::<Seq<char>>::empty());
            lines
        },
    }
}

/// `GET /tull/web`: the page that lists the sessions.
pub fn session_list_web(ids: &Vec<String>) -> (response: Response)
    ensures
        response@ == listing_response(Surface::Web, ids.deep_view()),
{
    html_reply(render(PageKind::SessionList, ids))
}

/// `GET /tull/web/{id}`: the page of one session.
pub fn session_logs_web(content: Option<&str>) -> (response: Response)
    ensures
        response@ == session_response(Surface::Web, option_view(content)),
{
    let lines = lines_to_show(content);
    html_reply(render(PageKind::SessionLog, &lines))
}

/// `GET /tull/api`: the ids of the sessions as JSON.
pub fn session_list_api(ids: &Vec<String>) -> (response: Response)
    ensures
        response@ == listing_response(Surface::Api, ids.deep_view()),
{
    json_list_reply(ids)
}

/// `GET /tull/api/{id}`: the lines of one session as JSON.
pub fn session_logs_api(content: Option<&str>) -> (response: Response)
    ensures
        response@ == session_response(Surface::Api, option_view(content)),
{
    let lines = lines_to_show(content);
    json_list_reply(&lines)
}

/// `GET /tull/raw`: the ids of the sessions, written one after another.
pub fn session_list_raw(ids: &Vec<String>) -> (response: Response)
    ensures
        response@ == listing_response(Surface::Raw, ids.deep_view()),
{
    text_reply(concat_text(ids))
}

/// `GET /tull/raw/{id}`: the lines of one session, joined by line feeds.
pub fn session_logs_raw(content: Option<&str>) -> (response: Response)
    ensures
        response@ == session_response(Surface::Raw, option_view(content)),
        content matches Some(c) ==> response.body@ == c@,
{
    match content {
        Some(c) => {
            proof {
                lemma_join_split(c@, '\n');
            }
            text_reply(String::from_str(c))
        },
        None => text_reply(String::new()),
    }
}

/// The answer of the listing route of a surface.
pub fn respond_listing(surface: Surface, ids: &Vec<String>) -> (response: Response)
    ensures
        response@ == listing_response(surface, ids.deep_view()),
{
    match surface {
        Surface::Web => session_list_web(ids),
        Surface::Api => session_list_api(ids),
        Surface::Raw => session_list_raw(ids),
    }
}

/// The answer of the session route of a surface.
pub fn respond_session(surface: Surface, content: Option<&str>) -> (response: Response)
    ensures
        response@ == session_response(surface, option_view(content)),
{
    match surface {
        Surface::Web => session_logs_web(content),
        Surface::Api => session_logs_api(content),
        Surface::Raw => session_logs_raw(content),
    }
}

} // verus!
