use chainpost::api::{
    api_auth_cardano_start, api_auth_cardano_step, api_delete_post, api_get_post, api_logout,
    api_post_csv, api_post_start, api_post_step, judge_post_text, ApiAuthCardanoParams, DbError, DeletePlan,
    DeletePostParams, FunctionCardanoValidateSignatureResponse, LoginAction, LoginEvent,
    LoginStage, PostAction, PostEvent, PostForm, PostStage, PostTextVerdict,
};
use chainpost::claims::{mint_claims, token_claims, TOKEN_LIFETIME_SECS};
use chainpost::db::{create_post, create_post_at, create_user, delete_post, get_posts_by_uid, get_user_by_uid, register_user, SqlValue};
use chainpost::pages::{app_auth, app_home, app_post, app_profile, app_search, redirect_to_app_home, AppProfileParams};
use chainpost::render::{render_posts, Cell};
use chainpost::reply::{Body, Page, Reply, Status};
use chainpost::services::{check_auth, check_auth_at, get_uid_from_jwt, valid_jwt, valid_jwt_at, AuthError, TokenCheck};
use chainpost::sheet::posts_csv;
use chainpost::text::{decimal_string, home_display, text_is_blank};

fn html_of(r: &Reply) -> &str {
    match &r.body {
        Body::Html(h) => h.as_str(),
        _ => panic!("not an HTML reply"),
    }
}

fn respond(a: PostAction) -> Reply {
    match a {
        PostAction::Respond(r) => r,
        _ => panic!("expected a reply"),
    }
}

fn login_reply(a: LoginAction) -> Reply {
    match a {
        LoginAction::Respond(r) => r,
        _ => panic!("expected a reply"),
    }
}

fn row(id: i64, content: &str, owner: &str, stamp: i64) -> Vec<Cell> {
    vec![
        Cell::Integer(id),
        Cell::Text(content.to_string()),
        Cell::Text(owner.to_string()),
        Cell::Integer(stamp),
    ]
}

#[test]
fn test_mint_jwt() {
    let now: i64 = 1_700_000_000;
    let claims = token_claims("Super Fake ID", now);
    assert_eq!(&claims.iss, "chainpost");
    assert_eq!(claims.exp, claims.iat + 12 * 60 * 60);
    assert_eq!(claims.nbf, claims.iat);
    assert_eq!(claims.sub, "Super Fake ID");
    assert_eq!(claims.aud, "https://chainpost.social/");
    assert_eq!(claims.iat, 1_700_000_000usize);
    assert_eq!(TOKEN_LIFETIME_SECS, 43200);
}

#[test]
fn test_api_post() {
    let form = PostForm { post_text: String::from("Fake Post") };
    let (stage, action) = api_post_start(&form);
    assert!(matches!(action, PostAction::CheckAuth));
    let authorized = check_auth(&None);
    assert!(!authorized);
    let (stage, action) = api_post_step(stage, PostEvent::AuthChecked(authorized));
    assert!(matches!(stage, PostStage::Done));
    let reply = respond(action);
    assert_eq!(reply.status.code(), 401);
    assert!(matches!(reply.body, Body::Empty));
}

#[test]
fn test_api_auth_cardano() {
    let params = ApiAuthCardanoParams {
        signature: "INVALID_SIGNATURE".to_string(),
        key: "INVALID_KEY".to_string(),
    };
    let (stage, action) = api_auth_cardano_start(params);
    assert!(matches!(&action, LoginAction::Validate { query } if query.signature == "INVALID_SIGNATURE" && query.key == "INVALID_KEY"));
    let answer = FunctionCardanoValidateSignatureResponse {
        uid: String::new(),
        valid_signature: false,
    };
    let (stage, action) = api_auth_cardano_step(stage, LoginEvent::Validated(answer));
    assert!(matches!(stage, LoginStage::Done));
    let reply = login_reply(action);
    assert_eq!(reply.status.code(), 400);
    assert!(reply.cookie.is_none());
}

#[test]
fn sign_in_of_a_new_user_registers_then_sets_the_cookie() {
    let (stage, _) = api_auth_cardano_start(ApiAuthCardanoParams { signature: "sig".to_string(), key: "key".to_string() });
    let answer = FunctionCardanoValidateSignatureResponse {
        uid: "addr_test1".to_string(),
        valid_signature: true,
    };
    let (stage, action) = api_auth_cardano_step(stage, LoginEvent::Validated(answer));
    match action {
        LoginAction::Mint { uid } => assert_eq!(uid, "addr_test1"),
        _ => panic!("expected a mint"),
    }
    let (stage, action) = api_auth_cardano_step(stage, LoginEvent::Minted(Some("tok.en.sig".to_string())));
    match action {
        LoginAction::LookUp { uid } => assert_eq!(uid, "addr_test1"),
        _ => panic!("expected a lookup"),
    }
    let (stage, action) = api_auth_cardano_step(stage, LoginEvent::LookedUp(Some(0)));
    match action {
        LoginAction::Register { uid } => assert_eq!(uid, "addr_test1"),
        _ => panic!("expected a registration"),
    }
    let (stage, action) = api_auth_cardano_step(stage, LoginEvent::Registered(true));
    assert!(matches!(stage, LoginStage::Done));
    let reply = login_reply(action);
    assert_eq!(reply.status.code(), 200);
    let cookie = reply.cookie.expect("cookie");
    assert_eq!(cookie.value, "tok.en.sig");
    assert_eq!(cookie.path, "/");
    assert!(cookie.http_only);
    assert!(cookie.same_site_strict);
}

#[test]
fn sign_in_of_a_known_user_sets_the_cookie_at_once() {
    let stage = LoginStage::LookingUp { uid: "u".to_string(), token: "t".to_string() };
    let (stage, action) = api_auth_cardano_step(stage, LoginEvent::LookedUp(Some(1)));
    assert!(matches!(stage, LoginStage::Done));
    let reply = login_reply(action);
    assert_eq!(reply.status.code(), 200);
    assert_eq!(reply.cookie.expect("cookie").value, "t");
}

#[test]
fn sign_in_failures_answer_500() {
    let (_, a) = api_auth_cardano_step(LoginStage::Validating, LoginEvent::ValidatorFailed);
    assert_eq!(login_reply(a).status.code(), 500);
    let (_, a) = api_auth_cardano_step(LoginStage::Minting { uid: "u".to_string() }, LoginEvent::Minted(None));
    assert_eq!(login_reply(a).status.code(), 500);
    let (_, a) = api_auth_cardano_step(
        LoginStage::LookingUp { uid: "u".to_string(), token: "t".to_string() },
        LoginEvent::LookedUp(None),
    );
    assert_eq!(login_reply(a).status.code(), 500);
    let (_, a) = api_auth_cardano_step(LoginStage::Registering { token: "t".to_string() }, LoginEvent::Registered(false));
    let r = login_reply(a);
    assert_eq!(r.status.code(), 500);
    assert!(r.cookie.is_none());
}

#[test]
fn blank_and_long_posts_are_refused() {
    let (_, a) = api_post_start(&PostForm { post_text: " \t\n\u{3000} ".to_string() });
    let r = respond(a);
    assert_eq!(r.status.code(), 200);
    assert_eq!(html_of(&r), "<p class='error'>Post cannot be empty!</p>");
    let (_, a) = api_post_start(&PostForm { post_text: "x".repeat(301) });
    let r = respond(a);
    assert_eq!(r.status.code(), 200);
    assert_eq!(html_of(&r), "<p class='success'> Post text is greater than 300!</p>");
    assert!(judge_post_text(&"x".repeat(300)) == PostTextVerdict::Acceptable);
    // 150 two-byte characters are 300 bytes; one more is too long.
    assert!(judge_post_text(&"é".repeat(150)) == PostTextVerdict::Acceptable);
    assert!(judge_post_text(&"é".repeat(151)) == PostTextVerdict::TooLong);
    assert!(judge_post_text(&" ".repeat(400)) == PostTextVerdict::Blank);
    assert!(text_is_blank(""));
    assert!(!text_is_blank("  a "));
}

#[test]
fn accepted_post_is_stored_under_the_token_uid() {
    let (stage, _) = api_post_start(&PostForm { post_text: " hello ".to_string() });
    let (stage, action) = api_post_step(stage, PostEvent::AuthChecked(true));
    assert!(matches!(action, PostAction::ResolveUid));
    let (stage, action) = api_post_step(stage, PostEvent::UidResolved(Ok("alice".to_string())));
    match action {
        PostAction::Store { content, uid } => {
            assert_eq!(content, " hello ");
            assert_eq!(uid, "alice");
        }
        _ => panic!("expected a store"),
    }
    let (_, action) = api_post_step(PostStage::Storing, PostEvent::Stored(true));
    let r = respond(action);
    assert_eq!(r.status.code(), 201);
    assert_eq!(html_of(&r), "<p class='success'> Post created successfully!</p>");
    let (_, action) = api_post_step(stage, PostEvent::Stored(false));
    let r = respond(action);
    assert_eq!(r.status.code(), 200);
    assert_eq!(html_of(&r), "<p class='success'> Error when creating post, try again!</p>");
}

#[test]
fn token_checks() {
    let claims = token_claims("alice", 1000);
    let check = TokenCheck::Decoded(claims);
    assert!(check_auth_at(&Some(TokenCheck::Decoded(token_claims("alice", 1000))), 1000 + 43200));
    assert!(!check_auth_at(&Some(TokenCheck::Decoded(token_claims("alice", 1000))), 1000 + 43201));
    assert!(!check_auth_at(&Some(TokenCheck::Rejected), 0));
    assert!(!check_auth_at(&Some(TokenCheck::SecretMissing), 0));
    assert!(!check_auth_at(&None, 0));
    assert!(valid_jwt_at(&TokenCheck::SecretMissing, 0) == Err(AuthError::SecretMissing));
    assert!(valid_jwt_at(&TokenCheck::Rejected, 0) == Ok(false));
    assert!(valid_jwt_at(&TokenCheck::Decoded(token_claims("alice", 1000)), 1000) == Ok(true));
    assert!(valid_jwt_at(&TokenCheck::Decoded(token_claims("alice", 1000)), 50_000) == Ok(false));
    assert_eq!(get_uid_from_jwt(&check).ok(), Some("alice".to_string()));
    assert!(get_uid_from_jwt(&TokenCheck::Rejected) == Err(AuthError::InvalidToken));
    assert!(get_uid_from_jwt(&TokenCheck::SecretMissing) == Err(AuthError::SecretMissing));
}

#[test]
fn statements() {
    let s = create_post_at("hi".to_string(), "alice".to_string(), 1_700_000_000);
    assert_eq!(s.sql, "INSERT INTO posts (content, uid, creation_timestamp) VALUES (?, ?, ?)");
    assert!(matches!(&s.args[..], [SqlValue::Text(c), SqlValue::Text(u), SqlValue::Integer(1_700_000_000)] if c == "hi" && u == "alice"));
    let s = get_posts_by_uid("bob");
    assert_eq!(s.sql, "SELECT * FROM posts WHERE uid = ? ORDER BY creation_timestamp DESC");
    assert!(matches!(&s.args[..], [SqlValue::Text(u)] if u == "bob"));
    let s = delete_post(7);
    assert_eq!(s.sql, "DELETE FROM posts WHERE id = ?");
    assert!(matches!(&s.args[..], [SqlValue::Integer(7)]));
    let s = create_user("carol".to_string(), Some("Carol".to_string()), None, 5);
    assert_eq!(s.sql, "INSERT INTO users (uid, display_name, email, registration_timestamp) VALUES (?, ?, ?, ?)");
    assert!(matches!(&s.args[..], [SqlValue::Text(u), SqlValue::Text(d), SqlValue::Null, SqlValue::Integer(5)] if u == "carol" && d == "Carol"));
    let s = register_user("dave".to_string());
    assert_eq!(s.sql, "INSERT INTO users (uid, display_name, email, registration_timestamp) VALUES (?, ?, ?, ?)");
    assert!(matches!(&s.args[..], [SqlValue::Text(u), SqlValue::Null, SqlValue::Null, SqlValue::Integer(t)] if u == "dave" && *t > 1_600_000_000));
    let s = get_user_by_uid("erin");
    assert_eq!(s.sql, "SELECT * FROM users WHERE uid = ?");
    assert!(matches!(&s.args[..], [SqlValue::Text(u)] if u == "erin"));
}

#[test]
fn decimal_formatting() {
    assert_eq!(decimal_string(0), "0");
    assert_eq!(decimal_string(7), "7");
    assert_eq!(decimal_string(10), "10");
    assert_eq!(decimal_string(1_700_000_000), "1700000000");
    assert_eq!(decimal_string(usize::MAX), usize::MAX.to_string());
}

#[test]
fn rendering_own_and_foreign_posts() {
    let viewer = "alice".to_string();
    let rows = vec![row(1, "hello", "alice", 100), row(2, "hi", "bob", 200)];
    let html = render_posts(&rows, &viewer).expect("html");
    let first = "<div id=\"post-1\"class=\"max-w-sm mx-auto mb-5 bg-dark-200 rounded-lg overflow-hidden shadow-lg\"><div class=\"p-4 flex items-center justify-center h-40\"><p class=\"text-primary-500 text-center\">hello</p></div><div class=\"px-4 py-2 bg-gray-100\"><div class=\"flex justify-between items-center\"><div><p class=\"text-xs whitespace-normal text-primary-500\">Posted by: <span class=\"font-semibold\">alice</span></p><p class=\"text-xs text-primary-500\">Posted at: <span class=\"font-semibold\">100</span></p></div></div></div><button hx-delete=\"/api/post?id=1\" hx-method=\"delete\" hx-target=\"#post-1\" hx-swap=\"outerHTML\" class=\"bg-red-500 hover:bg-red-700 text-white font-bold py-1 px-2 rounded text-xs\">Delete</button></div>";
    let second = "<div id=\"post-2\"class=\"max-w-sm mx-auto mb-5 bg-dark-200 rounded-lg overflow-hidden shadow-lg\"><div class=\"p-4 flex items-center justify-center h-40\"><p class=\"text-primary-500 text-center\">hi</p></div><div class=\"px-4 py-2 bg-gray-100\"><div class=\"flex justify-between items-center\"><div><p class=\"text-xs whitespace-normal text-primary-500\">Posted by: <span class=\"font-semibold\">bob</span></p><p class=\"text-xs text-primary-500\">Posted at: <span class=\"font-semibold\">200</span></p></div></div></div></div>";
    assert_eq!(html, format!("{}{}", first, second));
    let one = render_posts(&vec![row(1, "hello", "alice", 100)], &viewer).expect("html");
    let two = render_posts(&vec![row(2, "hi", "bob", 200)], &viewer).expect("html");
    assert_eq!(html, format!("{}{}", one, two));
    assert_eq!(render_posts(&vec![], &viewer).expect("html"), "");
}

#[test]
fn rendering_missing_columns() {
    let viewer = "x".to_string();
    let rows = vec![vec![Cell::Null, Cell::Text("c".to_string()), Cell::Null, Cell::Real]];
    let html = render_posts(&rows, &viewer).expect("html");
    assert!(html.starts_with("<div id=\"post-error\"class="));
    assert!(html.contains("Posted by: <span class=\"font-semibold\">Not Found</span>"));
    assert!(html.contains("Posted at: <span class=\"font-semibold\">Not Found</span>"));
    assert!(!html.contains("Delete"));
    let bad = vec![row(1, "a", "x", 1), vec![Cell::Integer(2), Cell::Integer(3), Cell::Null, Cell::Null]];
    assert!(render_posts(&bad, &viewer).is_none());
    let cut_short = vec![vec![Cell::Integer(2), Cell::Null, Cell::Null, Cell::Null], vec![Cell::Null]];
    assert!(render_posts(&cut_short, &viewer).is_none());
    let reply = api_get_post(&Ok(bad), &viewer);
    assert_eq!(reply.status.code(), 500);
    let reply = api_get_post(&Err(DbError::Failed), &viewer);
    assert_eq!(reply.status.code(), 500);
    let reply = api_get_post(&Ok(vec![row(3, "z", "x", 4)]), &viewer);
    assert_eq!(reply.status.code(), 200);
    assert!(html_of(&reply).contains("hx-delete=\"/api/post?id=3\""));
}

#[test]
fn csv_export_of_posts() {
    let rows = vec![row(1, "hello, world", "alice", 100), vec![Cell::Null, Cell::Null, Cell::Blob(vec![1]), Cell::Real]];
    let bytes = posts_csv(&rows).expect("csv");
    assert_eq!(
        String::from_utf8(bytes).unwrap(),
        "ID,Content,Owner,Creation Timestamp\n1,\"hello, world\",alice,100\nNone,None,None,None\n"
    );
    let empty = posts_csv(&vec![]).expect("csv");
    assert_eq!(String::from_utf8(empty).unwrap(), "ID,Content,Owner,Creation Timestamp\n");
    let reply = api_post_csv(&vec![row(2, "x", "y", 3)]).expect("reply");
    assert_eq!(reply.status.code(), 200);
    match reply.body {
        Body::Attachment { name, file_name, content_type, bytes } => {
            assert_eq!(name, "file");
            assert_eq!(file_name, "posts.csv");
            assert_eq!(content_type, "text/csv");
            assert_eq!(String::from_utf8(bytes).unwrap(), "ID,Content,Owner,Creation Timestamp\n2,x,y,3\n");
        }
        _ => panic!("expected an attachment"),
    }
}

#[test]
fn logout_and_redirects() {
    let r = api_logout();
    assert_eq!(r.status.code(), 200);
    assert_eq!(r.hx_redirect.as_deref(), Some("/app/auth"));
    let c = r.cookie.expect("cookie");
    assert_eq!(c.value, "");
    assert_eq!(c.path, "/");
    assert!(c.http_only);
    assert!(!c.same_site_strict);
    let r = redirect_to_app_home();
    assert_eq!(r.status.code(), 302);
    assert_eq!(r.location.as_deref(), Some("/app/home"));
}

#[test]
fn delete_needs_authentication() {
    match api_delete_post(false, &DeletePostParams { id: 3 }) {
        DeletePlan::Refuse(r) => assert_eq!(r.status.code(), 401),
        _ => panic!("expected a refusal"),
    }
    match api_delete_post(true, &DeletePostParams { id: 3 }) {
        DeletePlan::Delete { statement, then } => {
            assert_eq!(statement.sql, "DELETE FROM posts WHERE id = ?");
            assert_eq!(then.status.code(), 200);
        }
        _ => panic!("expected a delete"),
    }
}

#[test]
fn pages() {
    let r = app_home(false, None);
    assert_eq!(r.status.code(), 302);
    assert_eq!(r.location.as_deref(), Some("/app/auth"));
    let uid = "addr1qxyz0123456789abcdef".to_string();
    let r = app_home(true, Some(Ok(uid.clone())));
    assert_eq!(r.status.code(), 200);
    match r.body {
        Body::Page(Page::Home { uid: u, display }) => {
            assert_eq!(u, uid);
            assert_eq!(display, "addr1qxyz012345...");
        }
        _ => panic!("expected the home page"),
    }
    let r = app_home(true, Some(Err(AuthError::InvalidToken)));
    assert_eq!(r.status.code(), 500);
    assert_eq!(home_display("ééééééé4567890123"), "ééééééé4...");
    assert_eq!(app_post(false).location.as_deref(), Some("/app/auth"));
    assert!(matches!(app_post(true).body, Body::Page(Page::Post)));
    match app_profile(&AppProfileParams { uid: "bob".to_string() }).body {
        Body::Page(Page::Profile { uid }) => assert_eq!(uid, "bob"),
        _ => panic!("expected the profile page"),
    }
    assert!(matches!(app_search().body, Body::Page(Page::Search)));
    match app_auth("example.org".to_string()).body {
        Body::Page(Page::Auth { domain }) => assert_eq!(domain, "example.org"),
        _ => panic!("expected the sign-in page"),
    }
    assert!(Status::Found.code() == 302 && Status::Created.code() == 201);
}

#[test]
fn checks_against_the_clock() {
    let fresh = mint_claims("alice");
    assert_eq!(fresh.sub, "alice");
    assert_eq!(fresh.exp, fresh.iat + 43200);
    assert_eq!(fresh.nbf, fresh.iat);
    assert!(fresh.iat > 1_600_000_000);
    assert!(check_auth(&Some(TokenCheck::Decoded(mint_claims("alice")))));
    assert!(!check_auth(&Some(TokenCheck::Decoded(token_claims("alice", 1000)))));
    assert!(!check_auth(&Some(TokenCheck::Rejected)));
    assert!(!check_auth(&None));
    assert!(valid_jwt(&TokenCheck::Decoded(mint_claims("bob"))) == Ok(true));
    assert!(valid_jwt(&TokenCheck::Decoded(token_claims("bob", 1000))) == Ok(false));
    assert!(valid_jwt(&TokenCheck::SecretMissing) == Err(AuthError::SecretMissing));
    let s = create_post("hi".to_string(), "alice".to_string());
    assert_eq!(s.sql, "INSERT INTO posts (content, uid, creation_timestamp) VALUES (?, ?, ?)");
    assert!(matches!(&s.args[..], [SqlValue::Text(c), SqlValue::Text(u), SqlValue::Integer(t)] if c == "hi" && u == "alice" && *t > 1_600_000_000));
}

fn attachment_bytes(reply: Reply) -> Vec<u8> {
    match reply.body {
        Body::Attachment { bytes, .. } => bytes,
        _ => panic!("expected an attachment"),
    }
}

#[test]
fn csv_export_exact_bytes() {
    let empty = api_post_csv(&vec![]).expect("reply");
    assert_eq!(empty.status.code(), 200);
    assert_eq!(attachment_bytes(empty), b"ID,Content,Owner,Creation Timestamp\n".to_vec());
    let one = api_post_csv(&vec![row(1, "a,b", "u", 5)]).expect("reply");
    assert_eq!(attachment_bytes(one), b"ID,Content,Owner,Creation Timestamp\n1,\"a,b\",u,5\n".to_vec());
}

#[test]
fn csv_export_reads_back() {
    let rows = vec![
        row(1, "plain", "alice", 10),
        row(2, "comma, \"quoted\"\nand a new line\r", "bob", 20),
        vec![Cell::Integer(3), Cell::Text(String::new()), Cell::Null, Cell::Text("t".to_string())],
    ];
    let bytes = attachment_bytes(api_post_csv(&rows).expect("reply"));
    let mut reader = csv::ReaderBuilder::new().has_headers(false).from_reader(bytes.as_slice());
    let records: Vec<Vec<String>> = reader
        .records()
        .map(|r| r.expect("record").iter().map(|f| f.to_string()).collect())
        .collect();
    let expected: Vec<Vec<String>> = vec![
        vec!["ID", "Content", "Owner", "Creation Timestamp"],
        vec!["1", "plain", "alice", "10"],
        vec!["2", "comma, \"quoted\"\nand a new line\r", "bob", "20"],
        vec!["3", "", "None", "None"],
    ]
    .into_iter()
    .map(|r| r.into_iter().map(|f| f.to_string()).collect())
    .collect();
    assert_eq!(records, expected);
}
