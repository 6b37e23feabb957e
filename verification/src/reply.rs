use vstd::prelude::*;

verus! {

/// The HTTP statuses the server answers with.
#[derive(PartialEq, Eq, Structural)]
pub enum Status {
    Success,
    Created,
    Found,
    BadRequest,
    Unauthorized,
    ServerError,
}

impl Status {
    /// The numeric status code.
    pub fn code(&self) -> (c: u16)
        ensures
            c == self.code_spec(),
    {
        match self {
            Status::Success => 200,
            Status::Created => 201,
            Status::Found => 302,
            Status::BadRequest => 400,
            Status::Unauthorized => 401,
            Status::ServerError => 500,
        }
    }

    pub open spec fn code_spec(&self) -> u16 {
        match self {
            Status::Success => 200,
            Status::Created => 201,
            Status::Found => 302,
            Status::BadRequest => 400,
            Status::Unauthorized => 401,
            Status::ServerError => 500,
        }
    }
}

/// The name of the session cookie.
pub const SESSION_COOKIE_NAME: &'static str = "chainpost_jwt";

/// The session cookie (named `SESSION_COOKIE_NAME`) set on a reply.
pub struct SessionCookie {
    pub value: String,
    pub path: String,
    pub http_only: bool,
    pub same_site_strict: bool,
}

/// The templated pages of the site.
pub enum Page {
    Auth { domain: String },
    Home { uid: String, display: String },
    Post,
    Profile { uid: String },
    Search,
}

/// What a reply carries.
pub enum Body {
    Empty,
    Html(String),
    Page(Page),
    /// A file download with the given form-field and file names.
    Attachment { name: String, file_name: String, content_type: String, bytes: Vec<u8> },
}

/// A reply to an HTTP request.
pub struct Reply {
    pub status: Status,
    /// The `Location` header.
    pub location: Option<String>,
    /// The `HX-Redirect` header.
    pub hx_redirect: Option<String>,
    pub cookie: Option<SessionCookie>,
    pub body: Body,
}

/// The reply has this status, no header, no cookie and no body.
pub open spec fn is_bare(r: Reply, status: Status) -> bool {
    &&& r.status == status
    &&& r.location is None
    &&& r.hx_redirect is None
    &&& r.cookie is None
    &&& r.body is Empty
}

/// The reply sends the client to `target` with `302 Found`.
pub open spec fn is_redirect(r: Reply, target: Seq<char>) -> bool {
    &&& r.status == Status::Found
    &&& r.location matches Some(l) && l@ == target
    &&& r.hx_redirect is None
    &&& r.cookie is None
    &&& r.body is Empty
}

/// The reply has this status and this HTML fragment, and nothing else.
pub open spec fn is_html(r: Reply, status: Status, html: Seq<char>) -> bool {
    &&& r.status == status
    &&& r.location is None
    &&& r.hx_redirect is None
    &&& r.cookie is None
    &&& r.body matches Body::Html(h) && h@ == html
}

/// The reply is `200 OK` showing a page and nothing else.
pub open spec fn is_page(r: Reply) -> bool {
    &&& r.status == Status::Success
    &&& r.location is None
    &&& r.hx_redirect is None
    &&& r.cookie is None
    &&& r.body is Page
}

/// A reply with only a status.
pub fn bare(status: Status) -> (r: Reply)
    ensures
        is_bare(r, status),
{
    Reply { status, location: None, hx_redirect: None, cookie: None, body: Body::Empty }
}

/// A `302 Found` reply to `target`.
pub fn redirect(target: &str) -> (r: Reply)
    ensures
        is_redirect(r, target@),
{
    Reply {
        status: Status::Found,
        location: Some(target.to_string()),
        hx_redirect: None,
        cookie: None,
        body: Body::Empty,
    }
}

/// A reply carrying an HTML fragment.
pub fn html(status: Status, fragment: &str) -> (r: Reply)
    ensures
        is_html(r, status, fragment@),
{
    Reply {
        status,
        location: None,
        hx_redirect: None,
        cookie: None,
        body: Body::Html(fragment.to_string()),
    }
}

/// A `200 OK` reply showing a page.
pub fn page(p: Page) -> (r: Reply)
    ensures
        is_page(r),
        r.body == Body::Page(p),
{
    Reply { status: Status::Success, location: None, hx_redirect: None, cookie: None, body: Body::Page(p) }
}

} // verus!
