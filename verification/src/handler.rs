//! The request handler: every request gets the same HTML page.

use axum::body::Body;
use axum::http::Request;
use axum::response::Html;
use vstd::prelude::*;

verus! {

/// `axum::http::Request`, carried through unread.
#[verifier::external_type_specification]
#[verifier::external_body]
#[verifier::reject_recursive_types(T)]
pub struct ExRequest<T>(Request<T>);

/// `axum::body::Body`, carried through unread.
#[verifier::external_type_specification]
#[verifier::external_body]
pub struct ExBody(Body);

/// `axum::response::Html`, the marker that makes a body an HTML response.
#[verifier::external_type_specification]
#[verifier::external_body]
#[verifier::reject_recursive_types(T)]
pub struct ExHtml<T>(Html<T>);

/// The text that an `Html` value wraps (its public field).
pub uninterp spec fn html_content(page: Html<&'static str>) -> Seq<char>;

/// The page that the service answers with.
pub const GREETING: &'static str = "<h1>Hello, World!</h1>";

/// Wraps `content` with the tuple constructor `axum::response::Html`.
///
/// Trusted: the value holds exactly the text that it was made from.
#[verifier::external_body]
fn html(content: &'static str) -> (page: Html<&'static str>)
    ensures
        html_content(page) == content@,
{
    Html(content)
}

/// Whether `page` is the answer that the handler owes to `request`: the
/// greeting, whatever the request holds.
pub open spec fn answers(request: Request<Body>, page: Html<&'static str>) -> bool {
    html_content(page) == GREETING@
}

/// Answers a request.
///
/// Nothing of the request is read: whatever its method, path, headers and
/// body, the answer is the greeting, marked as HTML.
pub fn handler(request: Request<Body>) -> (page: Html<&'static str>)
    ensures
        answers(request, page),
{
    html(GREETING)
}

/// Any two answers of the handler hold the same text: the answer depends
/// neither on the request nor on what was answered before. In particular
/// the same request, sent again, is answered with the same page.
pub proof fn lemma_answers_never_differ(
    first_request: Request<Body>,
    first_page: Html<&'static str>,
    second_request: Request<Body>,
    second_page: Html<&'static str>,
)
    requires
        answers(first_request, first_page),
        answers(second_request, second_page),
    ensures
        html_content(first_page) == html_content(second_page),
{
}

} // verus!
