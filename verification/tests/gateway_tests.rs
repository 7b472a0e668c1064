use tull::gateway::{
    content_type_header, dispatch, json_list_reply, json_reply, listing_path,
    method_not_allowed_reply, not_found_reply, respond_listing, respond_session, route,
    segments_of, session_list_api, session_list_raw, session_list_web, session_logs_api,
    session_logs_raw, session_logs_web, session_route_path, surface_for, ContentType, Dispatch,
    Route, Surface,
};
use tull::page::{render, shown, PageKind};

fn strings(items: &[&str]) -> Vec<String> {
    items.iter().map(|s| s.to_string()).collect()
}

fn listing(surface: Surface) -> Option<Route> {
    Some(Route { surface, session: None })
}

fn session(surface: Surface, id: &str) -> Option<Route> {
    Some(Route { surface, session: Some(id.to_string()) })
}

#[test]
fn the_six_routes() {
    assert_eq!(route("/tull/web"), listing(Surface::Web));
    assert_eq!(route("/tull/api"), listing(Surface::Api));
    assert_eq!(route("/tull/raw"), listing(Surface::Raw));
    assert_eq!(route("/tull/web/abc"), session(Surface::Web, "abc"));
    assert_eq!(route("/tull/api/abc"), session(Surface::Api, "abc"));
    assert_eq!(route("/tull/raw/abc"), session(Surface::Raw, "abc"));
}

#[test]
fn one_trailing_slash_is_ignored() {
    assert_eq!(route("/tull/api/"), listing(Surface::Api));
    assert_eq!(route("/tull/raw/abc/"), session(Surface::Raw, "abc"));
}

#[test]
fn leading_slash_may_be_missing() {
    assert_eq!(route("tull/web"), listing(Surface::Web));
    assert_eq!(route("tull/web/x"), session(Surface::Web, "x"));
}

#[test]
fn other_paths_are_not_served() {
    for path in [
        "",
        "/",
        "/tull",
        "/tull/",
        "/web",
        "/tull/other",
        "/tull/API",
        "/Tull/api",
        "/tull/api//",
        "/tull//api",
        "//tull/api",
        "/tull/api/a/b",
        "/tull/api/a//",
        "/x/tull/api",
        "/tull/webx",
        "/tull/we",
    ] {
        assert_eq!(route(path), None, "{:?}", path);
    }
}

#[test]
fn session_id_is_taken_as_written() {
    assert_eq!(route("/tull/api/a%20b"), session(Surface::Api, "a%20b"));
    assert_eq!(route("/tull/api/.."), session(Surface::Api, ".."));
    assert_eq!(
        route("/tull/web/0f8fad5b-d9cb-469f-a165-70867728950e"),
        session(Surface::Web, "0f8fad5b-d9cb-469f-a165-70867728950e")
    );
}

#[test]
fn segments_of_paths() {
    assert_eq!(segments_of("/tull/web"), strings(&["tull", "web"]));
    assert_eq!(segments_of("/tull/web/"), strings(&["tull", "web"]));
    assert_eq!(segments_of("/tull/web//"), strings(&["tull", "web", ""]));
    assert_eq!(segments_of("/"), strings(&[]));
    assert_eq!(segments_of(""), strings(&[]));
    assert_eq!(segments_of("//a"), strings(&["", "a"]));
}

#[test]
fn surface_names() {
    assert_eq!(surface_for("web"), Some(Surface::Web));
    assert_eq!(surface_for("api"), Some(Surface::Api));
    assert_eq!(surface_for("raw"), Some(Surface::Raw));
    assert_eq!(surface_for(""), None);
    assert_eq!(surface_for("Web"), None);
    assert_eq!(surface_for("tull"), None);
}

#[test]
fn paths_of_routes_lead_back_to_them() {
    for surface in [Surface::Web, Surface::Api, Surface::Raw] {
        assert_eq!(route(&listing_path(surface)), listing(surface));
        assert_eq!(route(&session_route_path(surface, "abc-1")), session(surface, "abc-1"));
    }
    assert_eq!(listing_path(Surface::Api), "/tull/api");
    assert_eq!(session_route_path(Surface::Web, "s1"), "/tull/web/s1");
}

#[test]
fn only_get_is_served() {
    assert_eq!(dispatch("GET", "/tull/api"), Dispatch::Serve(Route { surface: Surface::Api, session: None }));
    assert_eq!(dispatch("GET", "/nothing"), Dispatch::NotFound);
    assert_eq!(dispatch("POST", "/tull/api"), Dispatch::MethodNotAllowed);
    assert_eq!(dispatch("HEAD", "/tull/api"), Dispatch::MethodNotAllowed);
    assert_eq!(dispatch("get", "/tull/api"), Dispatch::MethodNotAllowed);
    assert_eq!(dispatch("DELETE", "/nothing"), Dispatch::MethodNotAllowed);
}

#[test]
fn answers_to_what_is_not_served() {
    let missing = not_found_reply();
    assert_eq!(missing.status, 404);
    assert_eq!(missing.content_type, None);
    assert_eq!(missing.body, "");
    let refused = method_not_allowed_reply();
    assert_eq!(refused.status, 405);
    assert_eq!(refused.content_type, Some(ContentType::Text));
    assert_eq!(refused.body, "HTTP method not allowed");
}

#[test]
fn content_type_headers() {
    assert_eq!(content_type_header(ContentType::Html), "text/html; charset=utf-8");
    assert_eq!(content_type_header(ContentType::Json), "application/json");
    assert_eq!(content_type_header(ContentType::Text), "text/plain; charset=utf-8");
}

#[test]
fn api_listing_holds_exactly_the_ids() {
    let response = session_list_api(&strings(&["b-session", "a-session"]));
    assert_eq!(response.status, 200);
    assert_eq!(response.content_type, Some(ContentType::Json));
    assert_eq!(response.body, "{\"data\":[\"b-session\",\"a-session\"]}");
}

#[test]
fn api_listing_of_empty_directory() {
    assert_eq!(session_list_api(&strings(&[])).body, "{\"data\":[]}");
}

#[test]
fn api_session_that_does_not_exist_is_empty() {
    let response = session_logs_api(None);
    assert_eq!(response.status, 200);
    assert_eq!(response.content_type, Some(ContentType::Json));
    assert_eq!(response.body, "{\"data\":[]}");
}

#[test]
fn api_session_holds_its_lines() {
    let response = session_logs_api(Some("a\nb"));
    assert_eq!(response.status, 200);
    assert_eq!(response.body, "{\"data\":[\"a\",\"b\"]}");
}

#[test]
fn api_session_after_final_line_feed_has_empty_last_line() {
    assert_eq!(session_logs_api(Some("a\nb\n")).body, "{\"data\":[\"a\",\"b\",\"\"]}");
    assert_eq!(session_logs_api(Some("")).body, "{\"data\":[\"\"]}");
}

#[test]
fn json_texts_are_escaped() {
    let response = json_list_reply(&strings(&["say \"hi\"", "back\\slash", "tab\there", "é"]));
    assert_eq!(
        response.body,
        "{\"data\":[\"say \\\"hi\\\"\",\"back\\\\slash\",\"tab\\there\",\"é\"]}"
    );
}

#[test]
fn json_reply_frames_the_list() {
    let framed = json_reply(Some("[1]".to_string()));
    assert_eq!(framed.status, 200);
    assert_eq!(framed.content_type, Some(ContentType::Json));
    assert_eq!(framed.body, "{\"data\":[1]}");
}

#[test]
fn json_reply_without_list_is_an_empty_server_error() {
    let failed = json_reply(None);
    assert_eq!(failed.status, 500);
    assert_eq!(failed.content_type, None);
    assert_eq!(failed.body, "");
}

#[test]
fn raw_listing_runs_the_ids_together() {
    let response = session_list_raw(&strings(&["abc", "def"]));
    assert_eq!(response.status, 200);
    assert_eq!(response.content_type, Some(ContentType::Text));
    assert_eq!(response.body, "abcdef");
    assert_eq!(session_list_raw(&strings(&[])).body, "");
}

#[test]
fn raw_session_is_its_lines_joined() {
    let response = session_logs_raw(Some("a\nb"));
    assert_eq!(response.status, 200);
    assert_eq!(response.content_type, Some(ContentType::Text));
    assert_eq!(response.body, "a\nb");
    assert_eq!(session_logs_raw(Some("a\nb\n")).body, "a\nb\n");
}

#[test]
fn raw_session_that_does_not_exist_is_empty() {
    let response = session_logs_raw(None);
    assert_eq!(response.status, 200);
    assert_eq!(response.body, "");
}

#[test]
fn web_session_that_does_not_exist_is_a_placeholder_with_status_200() {
    let response = session_logs_web(None);
    assert_eq!(response.status, 200);
    assert_eq!(response.content_type, Some(ContentType::Html));
    assert!(response.body.contains("Session not found."));
    assert!(!response.body.contains("<pre>"));
}

#[test]
fn web_session_shows_its_lines() {
    let response = session_logs_web(Some("first\nsecond"));
    assert_eq!(response.status, 200);
    assert_eq!(response.content_type, Some(ContentType::Html));
    assert!(response.body.contains("<pre>first\nsecond\n</pre>"));
    assert!(!response.body.contains("Session not found."));
}

#[test]
fn web_session_that_is_empty_is_not_a_missing_one() {
    let response = session_logs_web(Some(""));
    assert!(response.body.contains("<pre>"));
    assert!(!response.body.contains("Session not found."));
}

#[test]
fn web_session_is_loaded_again_every_five_seconds() {
    for content in [None, Some("a")] {
        let body = session_logs_web(content).body;
        assert!(body.contains("<meta http-equiv=\"refresh\" content=\"5\">"));
    }
}

#[test]
fn web_session_escapes_markup() {
    let body = session_logs_web(Some("<b>bold</b> & more")).body;
    assert!(body.contains("&lt;b&gt;bold&lt;/b&gt; &amp; more"));
    assert!(!body.contains("<b>"));
}

#[test]
fn web_listing_links_every_session() {
    let response = session_list_web(&strings(&["abc", "def"]));
    assert_eq!(response.status, 200);
    assert_eq!(response.content_type, Some(ContentType::Html));
    assert!(response.body.contains("<li><a href=\"/tull/web/abc\">abc</a></li>"));
    assert!(response.body.contains("<li><a href=\"/tull/web/def\">def</a></li>"));
    assert!(response.body.find("abc").unwrap() < response.body.find("def").unwrap());
}

#[test]
fn web_listing_of_empty_directory_has_no_links() {
    let body = session_list_web(&strings(&[])).body;
    assert!(body.contains("<ul>"));
    assert!(!body.contains("<li>"));
}

#[test]
fn render_is_the_body_of_the_pages() {
    let ids = strings(&["one"]);
    assert_eq!(render(PageKind::SessionList, &ids), session_list_web(&ids).body);
    let lines = strings(&["a", "b"]);
    assert_eq!(render(PageKind::SessionLog, &lines), session_logs_web(Some("a\nb")).body);
}

#[test]
fn rendering_error_is_shown_as_its_text() {
    assert_eq!(shown(Ok("<p>page</p>".to_string())), "<p>page</p>");
    assert_eq!(shown(Err("Error rendering".to_string())), "Error rendering");
}

#[test]
fn respond_picks_the_surface() {
    let ids = strings(&["abc"]);
    assert_eq!(respond_listing(Surface::Web, &ids), session_list_web(&ids));
    assert_eq!(respond_listing(Surface::Api, &ids), session_list_api(&ids));
    assert_eq!(respond_listing(Surface::Raw, &ids), session_list_raw(&ids));
    for content in [None, Some("x\ny\n")] {
        assert_eq!(respond_session(Surface::Web, content), session_logs_web(content));
        assert_eq!(respond_session(Surface::Api, content), session_logs_api(content));
        assert_eq!(respond_session(Surface::Raw, content), session_logs_raw(content));
    }
}

#[test]
fn unknown_session_is_never_an_error() {
    for surface in [Surface::Web, Surface::Api, Surface::Raw] {
        assert_eq!(respond_session(surface, None).status, 200);
    }
}
