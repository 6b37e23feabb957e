use vstd::prelude::*;
use vstd::utf8::*;
use vstd::string::*;
use crate::db::{Statement, delete_post, deletes_post};
use crate::render::{PostRow, post_cards, reached_rows_well_formed, render_posts, row_well_formed, rows_view};
use crate::reply::{
    Body, Reply, SessionCookie, Status, bare, html, is_bare, is_html,
};
use crate::services::AuthError;
use crate::sheet::{csv_export, posts_csv};
use crate::text::{is_blank, text_is_blank};

verus! {

/// The query sent to the signature-validation service.
pub struct ApiAuthCardanoParams {
    pub signature: String,
    pub key: String,
}

/// The answer of the signature-validation service.
pub struct FunctionCardanoValidateSignatureResponse {
    pub uid: String,
    pub valid_signature: bool,
}

/// The query of `GET /api/post`: whose posts to list.
pub struct GetApiPostParams {
    pub uid: String,
}

/// The query of `DELETE /api/post`: which post to delete.
pub struct DeletePostParams {
    pub id: usize,
}

/// The query of `GET /api/postcsv`: whose posts to export.
pub struct PostCsvParams {
    pub uid: String,
}

/// The form of `POST /api/post`.
pub struct PostForm {
    pub post_text: String,
}

/// A database request that failed.
pub enum DbError {
    Failed,
}

// ---------------------------------------------------------------- logout

/// `GET /api/logout`: empties the session cookie and tells the client to go
/// to the sign-in page.
pub fn api_logout() -> (r: Reply)
    ensures
        r.status == Status::Success,
        r.location is None,
        r.hx_redirect matches Some(h) && h@ == "/app/auth"@,
        r.cookie matches Some(c) && c.value@ == Seq::<char>::empty() && c.path@ == "/"@
            && c.http_only && !c.same_site_strict,
        r.body is Empty,
{
    let cookie = SessionCookie {
        value: String::new(),
        path: "/".to_string(),
        http_only: true,
        same_site_strict: false,
    };
    Reply {
        status: Status::Success,
        location: None,
        hx_redirect: Some("/app/auth".to_string()),
        cookie: Some(cookie),
        body: Body::Empty,
    }
}

// ---------------------------------------------------------------- delete

/// What `DELETE /api/post` does.
pub enum DeletePlan {
    /// Answer at once.
    Refuse(Reply),
    /// Run the statement, whatever its outcome, then answer.
    Delete { statement: Statement, then: Reply },
}

/// `DELETE /api/post?id=..`: authenticated requests delete the post and get
/// `200 OK`; others get `401 Unauthorized`.
pub fn api_delete_post(authorized: bool, params: &DeletePostParams) -> (plan: DeletePlan)
    ensures
        !authorized ==> (plan matches DeletePlan::Refuse(r) && is_bare(r, Status::Unauthorized)),
        authorized ==> (plan matches DeletePlan::Delete { statement, then } && deletes_post(
            statement,
            params.id,
        ) && is_bare(then, Status::Success)),
{
    if !authorized {
        DeletePlan::Refuse(bare(Status::Unauthorized))
    } else {
        DeletePlan::Delete { statement: delete_post(params.id), then: bare(Status::Success) }
    }
}

// ---------------------------------------------------------------- listing

/// `GET /api/post?uid=..`: the cards of the posts read for the queried user,
/// as seen by `viewer`; `500` when the read failed or a row holds no text
/// content.
pub fn api_get_post(rows: &Result<Vec<PostRow>, DbError>, viewer: &String) -> (r: Reply)
    requires
        rows matches Ok(rs) ==> reached_rows_well_formed(rows_view(rs@)),
    ensures
        rows is Err ==> is_bare(r, Status::ServerError),
        rows matches Ok(rs) ==> match post_cards(rows_view(rs@), viewer@) {
            Some(h) => is_html(r, Status::Success, h),
            None => is_bare(r, Status::ServerError),
        },
{
    match rows {
        Ok(rs) => match render_posts(rs, viewer) {
            Some(h) => Reply {
                status: Status::Success,
                location: None,
                hx_redirect: None,
                cookie: None,
                body: Body::Html(h),
            },
            None => bare(Status::ServerError),
        },
        Err(_) => bare(Status::ServerError),
    }
}

/// `GET /api/postcsv?uid=..`: the posts read for the user as a CSV file
/// `posts.csv`, always produced.
pub fn api_post_csv(rows: &Vec<PostRow>) -> (r: Option<Reply>)
    requires
        forall|i: int| 0 <= i < rows@.len() ==> row_well_formed(#[trigger] rows@[i]@),
    ensures
        r is Some,
        r matches Some(reply) ==> {
            &&& reply.status == Status::Success
            &&& reply.location is None
            &&& reply.hx_redirect is None
            &&& reply.cookie is None
            &&& reply.body matches Body::Attachment { name, file_name, content_type, bytes }
                && name@ == "file"@ && file_name@ == "posts.csv"@ && content_type@ == "text/csv"@
                && bytes@ == csv_export(rows_view(rows@))
        },
{
    match posts_csv(rows) {
        Some(bytes) => Some(
            Reply {
                status: Status::Success,
                location: None,
                hx_redirect: None,
                cookie: None,
                body: Body::Attachment {
                    name: "file".to_string(),
                    file_name: "posts.csv".to_string(),
                    content_type: "text/csv".to_string(),
                    bytes,
                },
            },
        ),
        None => None,
    }
}

// ---------------------------------------------------------------- new post

/// The largest post, in bytes of UTF-8.
pub const MAX_POST_BYTES: usize = 300;

/// How the text of a new post is judged before anything else happens.
#[derive(PartialEq, Eq, Structural)]
pub enum PostTextVerdict {
    /// Nothing but white space.
    Blank,
    /// More than 300 bytes.
    TooLong,
    Acceptable,
}

/// The verdict on the text of a new post: blank text is refused first, then
/// text longer than 300 bytes of UTF-8.
pub open spec fn post_text_verdict(text: Seq<char>) -> PostTextVerdict {
    if is_blank(text) {
        PostTextVerdict::Blank
    } else if encode_utf8(text).len() > MAX_POST_BYTES {
        PostTextVerdict::TooLong
    } else {
        PostTextVerdict::Acceptable
    }
}

/// Judges the text of a new post.
pub fn judge_post_text(text: &str) -> (v: PostTextVerdict)
    ensures
        v == post_text_verdict(text@),
{
    if text_is_blank(text) {
        PostTextVerdict::Blank
    } else if text.as_bytes().len() > MAX_POST_BYTES {
        PostTextVerdict::TooLong
    } else {
        PostTextVerdict::Acceptable
    }
}

/// Where `POST /api/post` stands.
pub enum PostStage {
    /// The text passed; waiting to learn whether the request is
    /// authenticated.
    CheckingAuth { text: String },
    /// Authenticated; waiting for the user id in the session token.
    ResolvingUid { text: String },
    /// Waiting for the store of the post.
    Storing,
    /// Answered.
    Done,
}

/// What the outside world reports back to `POST /api/post`.
pub enum PostEvent {
    AuthChecked(bool),
    UidResolved(Result<String, AuthError>),
    Stored(bool),
}

/// What `POST /api/post` asks the outside world to do next.
pub enum PostAction {
    /// Check the session cookie.
    CheckAuth,
    /// Take the user id from the session token.
    ResolveUid,
    /// Store a post with this content for this user.
    Store { content: String, uid: String },
    /// Answer the request.
    Respond(Reply),
}

/// The reply to a blank post.
pub open spec fn blank_post_message() -> Seq<char> {
    "<p class='error'>Post cannot be empty!</p>"@
}

/// The reply to an overlong post.
pub open spec fn long_post_message() -> Seq<char> {
    "<p class='success'> Post text is greater than 300!</p>"@
}

/// The reply once the post is stored.
pub open spec fn stored_post_message() -> Seq<char> {
    "<p class='success'> Post created successfully!</p>"@
}

/// The reply when the store failed.
pub open spec fn failed_post_message() -> Seq<char> {
    "<p class='success'> Error when creating post, try again!</p>"@
}

/// The events each stage can receive. The user id must be there once the
/// request is authenticated: the handler stops (panics) otherwise.
pub open spec fn post_event_fits(stage: PostStage, event: PostEvent) -> bool {
    match stage {
        PostStage::CheckingAuth { .. } => event is AuthChecked,
        PostStage::ResolvingUid { .. } => event matches PostEvent::UidResolved(Ok(_)),
        PostStage::Storing => event is Stored,
        PostStage::Done => false,
    }
}

/// How far `POST /api/post` has come; every step moves it further on.
pub open spec fn post_progress(stage: PostStage) -> nat {
    match stage {
        PostStage::CheckingAuth { .. } => 1,
        PostStage::ResolvingUid { .. } => 2,
        PostStage::Storing => 3,
        PostStage::Done => 4,
    }
}

/// How `POST /api/post` starts on a submitted text: blank text is answered
/// `200` with an error message, text over 300 bytes `200` with a notice,
/// acceptable text goes on to the authentication check.
pub open spec fn post_start_spec(submitted: Seq<char>, out: (PostStage, PostAction)) -> bool {
    &&& (out.1 is Respond <==> out.0 is Done)
    &&& post_text_verdict(submitted) == PostTextVerdict::Blank ==> (out.0 is Done && (
        out.1 matches PostAction::Respond(r) && is_html(r, Status::Success, blank_post_message())))
    &&& post_text_verdict(submitted) == PostTextVerdict::TooLong ==> (out.0 is Done && (
        out.1 matches PostAction::Respond(r) && is_html(r, Status::Success, long_post_message())))
    &&& post_text_verdict(submitted) == PostTextVerdict::Acceptable ==> (
        out.0 matches PostStage::CheckingAuth { text } && text@ == submitted && out.1 is CheckAuth)
}

/// Starts `POST /api/post` with the submitted form.
pub fn api_post_start(form: &PostForm) -> (out: (PostStage, PostAction))
    ensures
        post_start_spec(form.post_text@, out),
{
    match judge_post_text(form.post_text.as_str()) {
        PostTextVerdict::Blank => (
            PostStage::Done,
            PostAction::Respond(html(Status::Success, "<p class='error'>Post cannot be empty!</p>")),
        ),
        PostTextVerdict::TooLong => (
            PostStage::Done,
            PostAction::Respond(
                html(Status::Success, "<p class='success'> Post text is greater than 300!</p>"),
            ),
        ),
        PostTextVerdict::Acceptable => (
            PostStage::CheckingAuth { text: form.post_text.clone() },
            PostAction::CheckAuth,
        ),
    }
}

/// What one step of `POST /api/post` does: it always moves on, it answers
/// exactly when it is done, and for each stage and event:
/// - unauthenticated: `401`;
/// - authenticated: take the user id from the token;
/// - user id known: store the submitted text under it;
/// - stored: `201` with a success message; store failed: `200` with an
///   error message.
pub open spec fn post_step_spec(stage: PostStage, event: PostEvent, out: (PostStage, PostAction)) -> bool {
    &&& post_progress(out.0) > post_progress(stage)
    &&& (out.1 is Respond <==> out.0 is Done)
    &&& (stage is CheckingAuth && event == PostEvent::AuthChecked(false)) ==> (out.0 is Done && (
        out.1 matches PostAction::Respond(r) && is_bare(r, Status::Unauthorized)))
    &&& stage matches PostStage::CheckingAuth { text } ==> (event == PostEvent::AuthChecked(true)
        ==> (out.0 matches PostStage::ResolvingUid { text: t } && t@ == text@ && out.1 is ResolveUid))
    &&& stage matches PostStage::ResolvingUid { text } ==> (event matches PostEvent::UidResolved(Ok(u))
        ==> (out.0 is Storing && (out.1 matches PostAction::Store { content, uid }
        && content@ == text@ && uid@ == u@)))
    &&& (stage is Storing && event == PostEvent::Stored(true)) ==> (out.0 is Done && (
        out.1 matches PostAction::Respond(r) && is_html(r, Status::Created, stored_post_message())))
    &&& (stage is Storing && event == PostEvent::Stored(false)) ==> (out.0 is Done && (
        out.1 matches PostAction::Respond(r) && is_html(r, Status::Success, failed_post_message())))
}

/// Moves `POST /api/post` one step on: unauthenticated requests get `401`,
/// authenticated ones have the post stored under their user id and get
/// `201` once it is stored, or a `200` message when the store failed.
pub fn api_post_step(stage: PostStage, event: PostEvent) -> (out: (PostStage, PostAction))
    requires
        post_event_fits(stage, event),
    ensures
        post_step_spec(stage, event, out),
{
    match stage {
        PostStage::CheckingAuth { text } => match event {
            PostEvent::AuthChecked(true) => (PostStage::ResolvingUid { text }, PostAction::ResolveUid),
            _ => (PostStage::Done, PostAction::Respond(bare(Status::Unauthorized))),
        },
        PostStage::ResolvingUid { text } => match event {
            PostEvent::UidResolved(Ok(uid)) => (
                PostStage::Storing,
                PostAction::Store { content: text, uid },
            ),
            _ => (PostStage::Done, PostAction::Respond(bare(Status::ServerError))),
        },
        _ => match event {
            PostEvent::Stored(true) => (
                PostStage::Done,
                PostAction::Respond(
                    html(Status::Created, "<p class='success'> Post created successfully!</p>"),
                ),
            ),
            _ => (
                PostStage::Done,
                PostAction::Respond(
                    html(
                        Status::Success,
                        "<p class='success'> Error when creating post, try again!</p>",
                    ),
                ),
            ),
        },
    }
}

// ---------------------------------------------------------------- sign-in

/// Where `GET /api/auth/cardano` stands.
pub enum LoginStage {
    /// Waiting for the signature-validation service.
    Validating,
    /// The signature is valid for `uid`; waiting for the session token.
    Minting { uid: String },
    /// Waiting to learn whether `uid` is already registered.
    LookingUp { uid: String, token: String },
    /// Waiting for the registration of a new user.
    Registering { token: String },
    /// Answered.
    Done,
}

/// What the outside world reports back to the sign-in handler.
pub enum LoginEvent {
    /// The service could not be reached, or its answer could not be read.
    ValidatorFailed,
    /// The service answered.
    Validated(FunctionCardanoValidateSignatureResponse),
    /// The session token, or `None` when it could not be minted.
    Minted(Option<String>),
    /// The number of users found with the uid, or `None` when the lookup
    /// failed.
    LookedUp(Option<usize>),
    /// Whether the new user was stored.
    Registered(bool),
}

/// What the sign-in handler asks the outside world to do next.
pub enum LoginAction {
    /// Ask the signature-validation service about this query.
    Validate { query: ApiAuthCardanoParams },
    /// Mint a session token for this user.
    Mint { uid: String },
    /// Look the user up.
    LookUp { uid: String },
    /// Register the user.
    Register { uid: String },
    /// Answer the request.
    Respond(Reply),
}

/// The events each stage can receive.
pub open spec fn login_event_fits(stage: LoginStage, event: LoginEvent) -> bool {
    match stage {
        LoginStage::Validating => event is ValidatorFailed || event is Validated,
        LoginStage::Minting { .. } => event is Minted,
        LoginStage::LookingUp { .. } => event is LookedUp,
        LoginStage::Registering { .. } => event is Registered,
        LoginStage::Done => false,
    }
}

/// The reply that signs the client in: `200 OK` setting the session cookie
/// to `token`, HTTP-only, same-site strict, for the whole site.
pub open spec fn signs_in(r: Reply, token: Seq<char>) -> bool {
    &&& r.status == Status::Success
    &&& r.location is None
    &&& r.hx_redirect is None
    &&& r.cookie matches Some(c) && c.value@ == token && c.path@ == "/"@ && c.http_only
        && c.same_site_strict
    &&& r.body is Empty
}

fn sign_in(token: String) -> (r: Reply)
    ensures
        signs_in(r, token@),
{
    let cookie = SessionCookie {
        value: token,
        path: "/".to_string(),
        http_only: true,
        same_site_strict: true,
    };
    Reply { status: Status::Success, location: None, hx_redirect: None, cookie: Some(cookie), body: Body::Empty }
}

/// How far the sign-in has come; every step moves it further on.
pub open spec fn login_progress(stage: LoginStage) -> nat {
    match stage {
        LoginStage::Validating => 0,
        LoginStage::Minting { .. } => 1,
        LoginStage::LookingUp { .. } => 2,
        LoginStage::Registering { .. } => 3,
        LoginStage::Done => 4,
    }
}

/// The session token the sign-in holds, once it has minted one.
pub open spec fn held_token(stage: LoginStage) -> Option<Seq<char>> {
    match stage {
        LoginStage::LookingUp { token, .. } => Some(token@),
        LoginStage::Registering { token } => Some(token@),
        _ => None,
    }
}

/// Starts `GET /api/auth/cardano`: the request's query goes, unchanged, to
/// the validation service.
pub fn api_auth_cardano_start(params: ApiAuthCardanoParams) -> (out: (LoginStage, LoginAction))
    ensures
        out.0 is Validating,
        out.1 matches LoginAction::Validate { query } && query.signature@ == params.signature@
            && query.key@ == params.key@,
{
    (LoginStage::Validating, LoginAction::Validate { query: params })
}

/// What one step of the sign-in does: it always moves on, it answers
/// exactly when it is done, a cookie is only ever set to the token the
/// sign-in holds, and for each stage and event:
/// - the validation service failed: `500`;
/// - invalid signature: `400`;
/// - valid signature: mint a token for the uid the service vouched for;
/// - token minted: look that uid up; not minted: `500`;
/// - no such user: register it; known user: sign in; lookup failed: `500`;
/// - registered: sign in; registration failed: `500`.
pub open spec fn login_step_spec(stage: LoginStage, event: LoginEvent, out: (LoginStage, LoginAction)) -> bool {
    &&& login_progress(out.0) > login_progress(stage)
    &&& (out.1 is Respond <==> out.0 is Done)
    &&& out.1 matches LoginAction::Respond(r) ==> (r.cookie matches Some(c) ==> (r.status
        == Status::Success && held_token(stage) == Some(c.value@)))
    &&& event is ValidatorFailed ==> (out.0 is Done && (out.1 matches LoginAction::Respond(r)
        && is_bare(r, Status::ServerError)))
    &&& event matches LoginEvent::Validated(answer) ==> (!answer.valid_signature ==> (out.0 is Done
        && (out.1 matches LoginAction::Respond(r) && is_bare(r, Status::BadRequest))))
    &&& event matches LoginEvent::Validated(answer) ==> (answer.valid_signature ==> (
        out.0 matches LoginStage::Minting { uid } && uid@ == answer.uid@ && (
        out.1 matches LoginAction::Mint { uid: m } && m@ == answer.uid@)))
    &&& stage matches LoginStage::Minting { uid } ==> (event matches LoginEvent::Minted(Some(token))
        ==> (out.0 matches LoginStage::LookingUp { uid: u, token: t } && u@ == uid@ && t@
        == token@ && (out.1 matches LoginAction::LookUp { uid: l } && l@ == uid@)))
    &&& event == LoginEvent::Minted(None) ==> (out.0 is Done && (out.1 matches LoginAction::Respond(r)
        && is_bare(r, Status::ServerError)))
    &&& stage matches LoginStage::LookingUp { uid, token } ==> (event == LoginEvent::LookedUp(Some(0))
        ==> (out.0 matches LoginStage::Registering { token: t } && t@ == token@ && (
        out.1 matches LoginAction::Register { uid: u } && u@ == uid@)))
    &&& stage matches LoginStage::LookingUp { uid, token } ==> (event matches LoginEvent::LookedUp(Some(n))
        ==> (n > 0 ==> (out.0 is Done && (out.1 matches LoginAction::Respond(r) && signs_in(r, token@)))))
    &&& event == LoginEvent::LookedUp(None) ==> (out.0 is Done && (out.1 matches LoginAction::Respond(r)
        && is_bare(r, Status::ServerError)))
    &&& stage matches LoginStage::Registering { token } ==> (event == LoginEvent::Registered(true)
        ==> (out.0 is Done && (out.1 matches LoginAction::Respond(r) && signs_in(r, token@))))
    &&& event == LoginEvent::Registered(false) ==> (out.0 is Done && (out.1 matches LoginAction::Respond(r)
        && is_bare(r, Status::ServerError)))
}

/// Moves the sign-in one step on. An invalid signature is answered `400`;
/// a valid one gets a session token, the user is registered when not yet
/// known, and the client is signed in with the token. Every failure on the
/// way is answered `500`.
pub fn api_auth_cardano_step(stage: LoginStage, event: LoginEvent) -> (out: (LoginStage, LoginAction))
    requires
        login_event_fits(stage, event),
    ensures
        login_step_spec(stage, event, out),
{
    match stage {
        LoginStage::Validating => match event {
            LoginEvent::Validated(answer) => {
                if answer.valid_signature {
                    let uid = answer.uid;
                    let requested = uid.clone();
                    (LoginStage::Minting { uid }, LoginAction::Mint { uid: requested })
                } else {
                    (LoginStage::Done, LoginAction::Respond(bare(Status::BadRequest)))
                }
            },
            _ => (LoginStage::Done, LoginAction::Respond(bare(Status::ServerError))),
        },
        LoginStage::Minting { uid } => match event {
            LoginEvent::Minted(Some(token)) => {
                let requested = uid.clone();
                (LoginStage::LookingUp { uid, token }, LoginAction::LookUp { uid: requested })
            },
            _ => (LoginStage::Done, LoginAction::Respond(bare(Status::ServerError))),
        },
        LoginStage::LookingUp { uid, token } => match event {
            LoginEvent::LookedUp(Some(found)) => {
                if found == 0 {
                    (LoginStage::Registering { token }, LoginAction::Register { uid })
                } else {
                    (LoginStage::Done, LoginAction::Respond(sign_in(token)))
                }
            },
            _ => (LoginStage::Done, LoginAction::Respond(bare(Status::ServerError))),
        },
        _ => match stage {
            LoginStage::Registering { token } => match event {
                LoginEvent::Registered(true) => (LoginStage::Done, LoginAction::Respond(sign_in(token))),
                _ => (LoginStage::Done, LoginAction::Respond(bare(Status::ServerError))),
            },
            _ => (LoginStage::Done, LoginAction::Respond(bare(Status::ServerError))),
        },
    }
}

} // verus!
