use vstd::prelude::*;
use vstd::utf8::*;
use crate::reply::{Body, Page, Reply, Status, bare, is_bare, is_page, is_redirect, page, redirect};
use crate::services::AuthError;
use crate::text::{home_display, home_display_spec, DISPLAY_PREFIX_BYTES};

verus! {

/// The query of the profile page.
pub struct AppProfileParams {
    pub uid: String,
}

/// Where an unauthenticated visitor of a members' page is sent.
pub open spec fn login_path() -> Seq<char> {
    "/app/auth"@
}

/// `GET /`: sends the visitor on to the home page.
pub fn redirect_to_app_home() -> (r: Reply)
    ensures
        is_redirect(r, "/app/home"@),
{
    redirect("/app/home")
}

/// `GET /app/auth`: the sign-in page for the configured domain.
pub fn app_auth(domain: String) -> (r: Reply)
    ensures
        is_page(r),
        r.body matches Body::Page(Page::Auth { domain: d }) && d@ == domain@,
{
    page(Page::Auth { domain })
}

/// `GET /app/home`. `uid` is the user id taken from the session token,
/// asked for only once the request is authenticated.
pub fn app_home(authorized: bool, uid: Option<Result<String, AuthError>>) -> (r: Reply)
    requires
        authorized == uid is Some,
        uid matches Some(Ok(u)) ==> is_char_boundary(encode_utf8(u@), DISPLAY_PREFIX_BYTES as int),
    ensures
        !authorized ==> is_redirect(r, login_path()),
        uid matches Some(Ok(u)) ==> is_page(r) && (r.body matches Body::Page(
            Page::Home { uid: shown, display },
        ) && shown@ == u@ && display@ == home_display_spec(u@)),
        uid matches Some(Err(_)) ==> is_bare(r, Status::ServerError),
{
    match uid {
        None => redirect("/app/auth"),
        Some(Ok(u)) => {
            let display = home_display(u.as_str());
            page(Page::Home { uid: u, display })
        },
        Some(Err(_)) => bare(Status::ServerError),
    }
}

/// `GET /app/post`: the page to write a post, for authenticated visitors.
pub fn app_post(authorized: bool) -> (r: Reply)
    ensures
        !authorized ==> is_redirect(r, login_path()),
        authorized ==> is_page(r) && r.body == Body::Page(Page::Post),
{
    if !authorized {
        redirect("/app/auth")
    } else {
        page(Page::Post)
    }
}

/// `GET /app/profile?uid=..`: the profile page of a user.
pub fn app_profile(params: &AppProfileParams) -> (r: Reply)
    ensures
        is_page(r),
        r.body matches Body::Page(Page::Profile { uid }) && uid@ == params.uid@,
{
    page(Page::Profile { uid: params.uid.clone() })
}

/// `GET /app/search`: the search page.
pub fn app_search() -> (r: Reply)
    ensures
        is_page(r),
        r.body == Body::Page(Page::Search),
{
    page(Page::Search)
}

} // verus!
