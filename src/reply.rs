//! Answering a request: from method and path to status, content type and body.

use vstd::prelude::*;
use crate::config::str_equal;
use crate::routes::{Route, route_for, registered_paths, hello_body, complex_body, resolve,
    helloworld, complexdata, lemma_routed_iff_registered};

verus! {

/// The request method, as far as routing tells methods apart.
#[derive(PartialEq, Eq, Structural, Clone, Copy, Debug)]
pub enum Method {
    Get,
    Head,
    Post,
    Put,
    Delete,
    Patch,
    Options,
    Trace,
    Connect,
    Other,
}

/// The method named by `s`; names are case-sensitive.
pub open spec fn method_named(s: Seq<char>) -> Method {
    if s == "GET"@ {
        Method::Get
    } else if s == "HEAD"@ {
        Method::Head
    } else if s == "POST"@ {
        Method::Post
    } else if s == "PUT"@ {
        Method::Put
    } else if s == "DELETE"@ {
        Method::Delete
    } else if s == "PATCH"@ {
        Method::Patch
    } else if s == "OPTIONS"@ {
        Method::Options
    } else if s == "TRACE"@ {
        Method::Trace
    } else if s == "CONNECT"@ {
        Method::Connect
    } else {
        Method::Other
    }
}

impl Method {
    /// Reads a method from its name on the request line.
    pub fn from_name(s: &str) -> (r: Method)
        ensures
            r == method_named(s@),
    {
        if str_equal(s, "GET") {
            Method::Get
        } else if str_equal(s, "HEAD") {
            Method::Head
        } else if str_equal(s, "POST") {
            Method::Post
        } else if str_equal(s, "PUT") {
            Method::Put
        } else if str_equal(s, "DELETE") {
            Method::Delete
        } else if str_equal(s, "PATCH") {
            Method::Patch
        } else if str_equal(s, "OPTIONS") {
            Method::Options
        } else if str_equal(s, "TRACE") {
            Method::Trace
        } else if str_equal(s, "CONNECT") {
            Method::Connect
        } else {
            Method::Other
        }
    }
}

/// The media type of a reply body.
#[derive(PartialEq, Eq, Structural, Clone, Copy, Debug)]
pub enum ContentType {
    PlainText,
    Json,
}

/// The header value of a content type.
pub open spec fn content_type_text(c: ContentType) -> Seq<char> {
    match c {
        ContentType::PlainText => "text/plain; charset=utf-8"@,
        ContentType::Json => "application/json"@,
    }
}

impl ContentType {
    /// The `Content-Type` header value.
    pub fn header_value(&self) -> (r: &'static str)
        ensures
            r@ == content_type_text(*self),
    {
        match self {
            ContentType::PlainText => "text/plain; charset=utf-8",
            ContentType::Json => "application/json",
        }
    }
}

/// The content type each route answers with: the API document is JSON, the
/// other handlers answer text.
pub open spec fn route_content_type(r: Route) -> ContentType {
    match r {
        Route::ApiDocs => ContentType::Json,
        Route::HelloWorld => ContentType::PlainText,
        Route::ComplexData => ContentType::PlainText,
    }
}

impl Route {
    /// The content type answered on this route.
    pub fn content_type(&self) -> (r: ContentType)
        ensures
            r == route_content_type(*self),
    {
        match self {
            Route::ApiDocs => ContentType::Json,
            _ => ContentType::PlainText,
        }
    }
}

/// The body a route's handler produces, given the serialised API document.
pub open spec fn route_body(r: Route, doc: Seq<char>) -> Seq<char> {
    match r {
        Route::ApiDocs => doc,
        Route::HelloWorld => hello_body(),
        Route::ComplexData => complex_body(),
    }
}

/// Success, for a registered route asked with GET or HEAD.
pub const STATUS_OK: u16 = 200;

/// An unregistered path.
pub const STATUS_NOT_FOUND: u16 = 404;

/// A registered path asked with a method other than GET or HEAD.
pub const STATUS_METHOD_NOT_ALLOWED: u16 = 405;

/// The status answered to method `m` on path `p`.
pub open spec fn status_for(m: Method, p: Seq<char>) -> u16 {
    match route_for(p) {
        None => STATUS_NOT_FOUND,
        Some(_) => if m == Method::Get || m == Method::Head {
            STATUS_OK
        } else {
            STATUS_METHOD_NOT_ALLOWED
        },
    }
}

/// The content type answered to method `m` on path `p`; none without a body.
pub open spec fn content_type_for(m: Method, p: Seq<char>) -> Option<ContentType> {
    match route_for(p) {
        Some(r) => if m == Method::Get || m == Method::Head {
            Some(route_content_type(r))
        } else {
            None
        },
        None => None,
    }
}

/// The body answered to method `m` on path `p`; HEAD gets the headers alone.
pub open spec fn body_for(m: Method, p: Seq<char>, doc: Seq<char>) -> Seq<char> {
    match route_for(p) {
        Some(r) => if m == Method::Get {
            route_body(r, doc)
        } else {
            Seq::empty()
        },
        None => Seq::empty(),
    }
}

/// A reply: status code, content type (absent when there is no body) and body.
pub struct Reply {
    pub status: u16,
    pub content_type: Option<ContentType>,
    pub body: String,
}

/// `r` is the reply owed to method `m` on path `p`, with `doc` the serialised
/// API document.
pub open spec fn is_reply_to(r: Reply, m: Method, p: Seq<char>, doc: Seq<char>) -> bool {
    &&& r.status == status_for(m, p)
    &&& r.content_type == content_type_for(m, p)
    &&& r.body@ == body_for(m, p, doc)
}

/// Answers method `method` on `path`. `doc_json` is the serialised API
/// document, served on its own route. Unregistered paths get 404.
pub fn respond(method: Method, path: &str, doc_json: &str) -> (r: Reply)
    ensures
        is_reply_to(r, method, path@, doc_json@),
        !registered_paths().contains(path@) ==> r.status == STATUS_NOT_FOUND,
        registered_paths().contains(path@) && method == Method::Get ==> r.status == STATUS_OK,
{
    proof {
        lemma_routed_iff_registered(path@);
    }
    match resolve(path) {
        None => Reply { status: STATUS_NOT_FOUND, content_type: None, body: String::new() },
        Some(route) => {
            let content_type = route.content_type();
            match method {
                Method::Get => {
                    let body = match route {
                        Route::ApiDocs => doc_json.to_owned(),
                        Route::HelloWorld => helloworld(),
                        Route::ComplexData => complexdata(),
                    };
                    Reply { status: STATUS_OK, content_type: Some(content_type), body }
                },
                Method::Head => Reply {
                    status: STATUS_OK,
                    content_type: Some(content_type),
                    body: String::new(),
                },
                _ => Reply {
                    status: STATUS_METHOD_NOT_ALLOWED,
                    content_type: None,
                    body: String::new(),
                },
            }
        },
    }
}

/// Repeating a request gives the same reply: status, content type and body
/// depend on the method, the path and the document alone, and no call
/// changes any of them.
pub proof fn lemma_replies_repeatable(
    r1: Reply,
    r2: Reply,
    m: Method,
    p: Seq<char>,
    doc: Seq<char>,
)
    requires
        is_reply_to(r1, m, p, doc),
        is_reply_to(r2, m, p, doc),
    ensures
        r1.status == r2.status,
        r1.content_type == r2.content_type,
        r1.body@ == r2.body@,
{
}

/// A path that the table does not register is answered 404 whatever the
/// method, with no body.
pub proof fn lemma_unregistered_not_found(r: Reply, m: Method, p: Seq<char>, doc: Seq<char>)
    requires
        is_reply_to(r, m, p, doc),
        !registered_paths().contains(p),
    ensures
        r.status == STATUS_NOT_FOUND,
        r.content_type is None,
        r.body@.len() == 0,
{
    lemma_routed_iff_registered(p);
}

} // verus!
