//! The two HTML pages of the gateway, rendered from Handlebars templates.

use vstd::prelude::*;

verus! {

/// The template of the page that lists the sessions: one link per id, to
/// the page of that session.
pub const SESSION_LIST_TEMPLATE: &'static str =
    "<!DOCTYPE html>\n<html>\n<head>\n<meta charset=\"utf-8\">\n<title>Sessions</title>\n</head>\n<body>\n<h1>Sessions</h1>\n<ul>\n{{#each session_ids}}<li><a href=\"/tull/web/{{this}}\">{{this}}</a></li>\n{{/each}}</ul>\n</body>\n</html>\n";

/// The template of the page that shows one session. The page asks the
/// browser to load it again every five seconds, and shows a placeholder
/// where there are no lines at all, which is how an unknown session reads.
pub const SESSION_LOG_TEMPLATE: &'static str =
    "<!DOCTYPE html>\n<html>\n<head>\n<meta charset=\"utf-8\">\n<meta http-equiv=\"refresh\" content=\"5\">\n<title>Session log</title>\n</head>\n<body>\n{{#if logs}}<pre>{{#each logs}}{{this}}\n{{/each}}</pre>{{else}}<p>Session not found.</p>{{/if}}\n</body>\n</html>\n";

/// The name under which the session list template finds its items.
pub const SESSION_LIST_KEY: &'static str = "session_ids";

/// The name under which the session log template finds its items.
pub const SESSION_LOG_KEY: &'static str = "logs";

/// The pages that the gateway renders.
#[derive(Clone, Copy, Debug, PartialEq, Eq, Structural)]
pub enum PageKind {
    /// The list of all sessions.
    SessionList,
    /// The lines of one session.
    SessionLog,
}

/// What Handlebars makes of a template and of data that hold one list of
/// texts under one key: the rendered text, or the text of the error.
pub uninterp spec fn template_output(
    template: Seq<char>,
    key: Seq<char>,
    items: Seq<Seq<char>>,
) -> Result<Seq<char>, Seq<char>>;

/// The template of a page.
pub open spec fn template_of(kind: PageKind) -> Seq<char> {
    match kind {
        PageKind::SessionList => SESSION_LIST_TEMPLATE@,
        PageKind::SessionLog => SESSION_LOG_TEMPLATE@,
    }
}

/// The key of a page's items.
pub open spec fn key_of(kind: PageKind) -> Seq<char> {
    match kind {
        PageKind::SessionList => SESSION_LIST_KEY@,
        PageKind::SessionLog => SESSION_LOG_KEY@,
    }
}

/// What is shown for the outcome of a rendering: the page, or in its place
/// the text of the error.
pub open spec fn shown_text(outcome: Result<Seq<char>, Seq<char>>) -> Seq<char> {
    match outcome {
        Ok(text) => text,
        Err(reason) => reason,
    }
}

/// The text of a page with the given items.
pub open spec fn page_text(kind: PageKind, items: Seq<Seq<char>>) -> Seq<char> {
    shown_text(template_output(template_of(kind), key_of(kind), items))
}

/// The view of the outcome of a rendering.
pub open spec fn outcome_view(outcome: Result<String, String>) -> Result<Seq<char>, Seq<char>> {
    match outcome {
        Ok(text) => Ok(text@),
        Err(reason) => Err(reason@),
    }
}

/// `handlebars::Handlebars::render_template` on a registry fresh from
/// `Handlebars::new`, with data that hold `items` under `key`. The result
/// depends on the template and the data alone, and is named rather than
/// described. An error is handed back as the text that its `Display` writes.
/// Only the two templates of this module are admitted: both are known to be
/// rendered without recursion.
#[verifier::external_body]
fn render_template(template: &str, key: &str, items: &Vec<String>) -> (outcome: Result<
    String,
    String,
>)
    requires
        template@ == SESSION_LIST_TEMPLATE@ || template@ == SESSION_LOG_TEMPLATE@,
    ensures
        outcome_view(outcome) == template_output(template@, key@, items.deep_view()),
{
    let mut data = std::collections::BTreeMap::new();
    data.insert(key, items);
    handlebars::Handlebars::new().render_template(template, &data).map_err(|e| e.to_string())
}

/// What is shown for the outcome of a rendering: the page, or in its place
/// the text of the error.
pub fn shown(outcome: Result<String, String>) -> (text: String)
    ensures
        text@ == shown_text(outcome_view(outcome)),
{
    match outcome {
        Ok(text) => text,
        Err(reason) => reason,
    }
}

/// Renders a page with the given items.
pub fn render(kind: PageKind, items: &Vec<String>) -> (html: String)
    ensures
        html@ == page_text(kind, items.deep_view()),
{
    let outcome = match kind {
        PageKind::SessionList => render_template(SESSION_LIST_TEMPLATE, SESSION_LIST_KEY, items),
        PageKind::SessionLog => render_template(SESSION_LOG_TEMPLATE, SESSION_LOG_KEY, items),
    };
    shown(outcome)
}

} // verus!
