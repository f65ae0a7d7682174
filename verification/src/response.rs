//! What the host answers for a result.
//!
//! The transport builds the response; the choices it follows are made here:
//! the value of the action-tracing header, the target of a redirect, the
//! status to answer with, and the message of the response that stands in for
//! a missing backend.

use crate::interp::{GraphResult, GraphResultView};
use crate::text::{
    chars_of, contains, copy_string, decimal, has_prefix, has_substring, opt_str, push_decimal,
    push_str, starts_with, str_eq, string_from_chars,
};
use vstd::prelude::*;

verus! {

/// The status of a blocking response where the configured one is no HTTP
/// status.
pub const STATUS_FORBIDDEN: u16 = 403;

/// The status of a redirect where the configured one is no HTTP status.
pub const STATUS_FOUND: u16 = 302;

/// The action label of a request that was sent to the default backend
/// because the graph could not be loaded.
pub open spec fn load_failure_label() -> Seq<char> {
    "failopen:graph_load_error"@
}

/// The value of the action-tracing header after the graph could not be
/// loaded.
pub fn load_failure() -> (r: String)
    ensures
        r@ == load_failure_label(),
{
    copy_string("failopen:graph_load_error")
}

/// The action label of a result: `blocked`, `routed:` and the backend's name,
/// `redirect:` and the status, `allowed`, or `nomatch`.
pub open spec fn action_label_of(result: GraphResultView) -> Seq<char> {
    match result {
        GraphResultView::Block { .. } => "blocked"@,
        GraphResultView::Route(backend) => "routed:"@ + backend.name,
        GraphResultView::Redirect { status_code, .. } => "redirect:"@ + decimal(status_code as nat),
        GraphResultView::Allow => "allowed"@,
        GraphResultView::NoMatch => "nomatch"@,
    }
}

/// The action label of a request that was sent to the default backend
/// because the backend `name` failed.
pub open spec fn backend_failure_label(name: Seq<char>) -> Seq<char> {
    "failopen:backend_error:"@ + name
}

/// The value of the action-tracing header for a result.
pub fn action_label(result: &GraphResult) -> (r: String)
    ensures
        r@ == action_label_of(result@),
{
    match result {
        GraphResult::Block { .. } => copy_string("blocked"),
        GraphResult::Route(backend) => {
            let mut out: Vec<char> = Vec::new();
            push_str(&mut out, "routed:");
            push_str(&mut out, backend.name.as_str());
            string_from_chars(&out)
        },
        GraphResult::Redirect { status_code, .. } => {
            let mut out: Vec<char> = Vec::new();
            push_str(&mut out, "redirect:");
            push_decimal(&mut out, *status_code as u128);
            string_from_chars(&out)
        },
        GraphResult::Allow => copy_string("allowed"),
        GraphResult::NoMatch => copy_string("nomatch"),
    }
}

/// The value of the action-tracing header after the backend `name` failed.
pub fn backend_failure(name: &str) -> (r: String)
    ensures
        r@ == backend_failure_label(name@),
{
    let mut out: Vec<char> = Vec::new();
    push_str(&mut out, "failopen:backend_error:");
    push_str(&mut out, name);
    string_from_chars(&out)
}

/// The status to answer with: the configured one where it is an HTTP status
/// (from 100 to 999), else the fallback.
pub open spec fn status_or(code: u16, fallback: u16) -> u16 {
    if 100 <= code <= 999 {
        code
    } else {
        fallback
    }
}

/// The status to answer with.
pub fn response_status(code: u16, fallback: u16) -> (r: u16)
    ensures
        r == status_or(code, fallback),
{
    if 100 <= code && code <= 999 {
        code
    } else {
        fallback
    }
}

/// The target of a redirect. Where the redirect keeps the query string and
/// the request has one, it is added to the URL: after `&` where the URL holds
/// a `?`, after `?` where it holds none.
pub open spec fn redirect_target(
    url: Seq<char>,
    query: Option<Seq<char>>,
    preserve_query: bool,
) -> Seq<char> {
    match query {
        Some(q) => if preserve_query {
            if has_substring(url, seq!['?']) {
                url + seq!['&'] + q
            } else {
                url + seq!['?'] + q
            }
        } else {
            url
        },
        None => url,
    }
}

/// Builds the `Location` of a redirect. `query` is the request's query string
/// without its `?`, `None` where the request has none.
pub fn redirect_location(url: &str, query: Option<&str>, preserve_query: bool) -> (r: String)
    ensures
        r@ == redirect_target(url@, opt_str(query), preserve_query),
{
    match query {
        Some(q) => {
            if preserve_query {
                let mut out = chars_of(url);
                let mut mark: Vec<char> = Vec::new();
                mark.push('?');
                proof {
                    assert(mark@ =~= seq!['?']);
                }
                if contains(&out, &mark) {
                    out.push('&');
                } else {
                    out.push('?');
                }
                push_str(&mut out, q);
                string_from_chars(&out)
            } else {
                copy_string(url)
            }
        },
        None => copy_string(url),
    }
}

/// The message of the response that stands in where no backend takes the
/// request, by the reason.
pub open spec fn missing_backend_message(reason: Seq<char>) -> Seq<char> {
    if reason == "allowed"@ {
        "No backend configured. Add a Backend node to your graph to route traffic."@
    } else if reason == "nomatch"@ {
        "No matching rule in graph. Ensure your graph has a complete path from Request to Backend."@
    } else if has_prefix(reason, "failopen:"@) {
        "Graph evaluation error. Check your graph configuration."@
    } else {
        "Backend not configured."@
    }
}

/// The message of the response that stands in where no backend takes the
/// request.
pub fn unconfigured_message(reason: &str) -> (r: String)
    ensures
        r@ == missing_backend_message(reason@),
{
    if str_eq(reason, "allowed") {
        copy_string("No backend configured. Add a Backend node to your graph to route traffic.")
    } else if str_eq(reason, "nomatch") {
        copy_string(
            "No matching rule in graph. Ensure your graph has a complete path from Request to \
             Backend.",
        )
    } else if starts_with(&chars_of(reason), &chars_of("failopen:")) {
        copy_string("Graph evaluation error. Check your graph configuration.")
    } else {
        copy_string("Backend not configured.")
    }
}

} // verus!
