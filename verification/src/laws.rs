use vstd::prelude::*;
use vstd::utf8::decode_utf8;
use crate::claims::{TokenClaims, TOKEN_LIFETIME_SECS, minted_claims_spec};
use crate::services::{AuthError, TokenCheck, check_auth_spec, uid_of};
use crate::api::{
    LoginAction, LoginEvent, LoginStage, PostAction, PostEvent, PostStage, PostTextVerdict,
    held_token, login_event_fits, login_progress, login_step_spec, post_event_fits,
    post_progress, post_start_spec, post_step_spec, post_text_verdict,
};
use crate::reply::{Status, is_bare};
use crate::render::{Cell, card_body, card_footer, cell_number, cell_text, delete_button, number_or, post_card, post_cards};
use crate::reading::{export_reads_back, read_records};
use crate::text::decimal;
use crate::sheet::{csv_body, csv_export, csv_fields, csv_header, csv_record_bytes};

verus! {

/// A token minted for `uid` at Unix time `issued` lets its bearer in at
/// every time `now` from the epoch up to twelve hours after issue, and at no
/// later time.
pub proof fn minted_token_lifetime(uid: Seq<char>, issued: i64, claims: TokenClaims, now: i64)
    requires
        claims.fields() == minted_claims_spec(uid, issued),
        0 <= issued,
        issued + TOKEN_LIFETIME_SECS <= usize::MAX,
        0 <= now <= usize::MAX,
    ensures
        check_auth_spec(Some(TokenCheck::Decoded(claims)), now) <==> now <= issued
            + TOKEN_LIFETIME_SECS,
{
}

/// The claims of a token depend on nothing but the user id and the second
/// of issue: two tokens minted for the same uid in the same second carry
/// the same claims.
pub proof fn minted_claims_depend_only_on_uid_and_time(
    uid: Seq<char>,
    issued: i64,
    first: TokenClaims,
    second: TokenClaims,
)
    requires
        first.fields() == minted_claims_spec(uid, issued),
        second.fields() == minted_claims_spec(uid, issued),
    ensures
        first.fields() == second.fields(),
{
}

/// A token minted for `uid` yields `uid` back as the user id.
pub proof fn minted_token_identifies_holder(uid: Seq<char>, issued: i64, claims: TokenClaims)
    requires
        claims.fields() == minted_claims_spec(uid, issued),
    ensures
        uid_of(TokenCheck::Decoded(claims)) == Ok::<Seq<char>, AuthError>(uid),
{
}

/// Whenever a session cookie lets a request in, its token yields a user id.
pub proof fn authenticated_requests_have_a_uid(check: TokenCheck, now: i64)
    requires
        check_auth_spec(Some(check), now),
    ensures
        uid_of(check) is Ok,
{
}

/// A request without a session cookie is never let in.
pub proof fn no_cookie_no_entry(now: i64)
    ensures
        !check_auth_spec(None, now),
{
}

/// Expiry is final: a cookie that lets a request in at `later` also does
/// at any earlier time (both times within `usize`).
pub proof fn acceptance_is_closed_downwards(check: TokenCheck, earlier: i64, later: i64)
    requires
        0 <= earlier <= later <= usize::MAX,
        check_auth_spec(Some(check), later),
    ensures
        check_auth_spec(Some(check), earlier),
{
}

/// The listing of two batches of rows is the listing of the first followed
/// by that of the second; it fails exactly when either fails.
pub proof fn listing_of_concatenation(a: Seq<Seq<Cell>>, b: Seq<Seq<Cell>>, viewer: Seq<char>)
    ensures
        post_cards(a + b, viewer) == match (post_cards(a, viewer), post_cards(b, viewer)) {
            (Some(x), Some(y)) => Some(x + y),
            _ => None::<Seq<char>>,
        },
    decreases b.len(),
{
    if b.len() == 0 {
        assert(a + b =~= a);
        assert(post_cards(b, viewer) == Some(Seq::<char>::empty()));
        if let Some(x) = post_cards(a, viewer) {
            assert(x + Seq::<char>::empty() =~= x);
        }
    } else {
        assert((a + b).drop_last() =~= a + b.drop_last());
        assert((a + b).last() == b.last());
        listing_of_concatenation(a, b.drop_last(), viewer);
        if let (Some(x), Some(y)) = (post_cards(a, viewer), post_cards(b.drop_last(), viewer)) {
            if let Some(c) = post_card(b.last(), viewer) {
                assert(x + y + c =~= x + (y + c));
            }
        }
    }
}

/// A listing holds one card per row: a single row is listed as its card.
pub proof fn listing_of_one_row(row: Seq<Cell>, viewer: Seq<char>)
    ensures
        post_cards(seq![row], viewer) == post_card(row, viewer),
{
    assert(seq![row].drop_last() =~= Seq::<Seq<Cell>>::empty());
    assert(post_cards(Seq::<Seq<Cell>>::empty(), viewer) == Some(Seq::<char>::empty()));
    if let Some(c) = post_card(row, viewer) {
        assert(Seq::<char>::empty() + c =~= c);
    }
}

proof fn body_of_concatenation(a: Seq<Seq<Cell>>, b: Seq<Seq<Cell>>)
    ensures
        csv_body(a + b) == csv_body(a) + csv_body(b),
    decreases b.len(),
{
    if b.len() == 0 {
        assert(a + b =~= a);
        assert(csv_body(a) + csv_body(b) =~= csv_body(a));
    } else {
        assert((a + b).drop_last() =~= a + b.drop_last());
        assert((a + b).last() == b.last());
        body_of_concatenation(a, b.drop_last());
        assert(csv_body(a + b) =~= csv_body(a) + csv_body(b));
    }
}

/// The export of two batches of rows is the export of the first followed by
/// the records of the second: the header comes once, then one record per
/// row, in order.
pub proof fn export_of_concatenation(a: Seq<Seq<Cell>>, b: Seq<Seq<Cell>>)
    ensures
        csv_export(a + b) == csv_export(a) + csv_body(b),
        csv_export(Seq::empty()) == csv_record_bytes(csv_header()),
{
    body_of_concatenation(a, b);
    assert(csv_export(a + b) =~= csv_export(a) + csv_body(b));
    assert(csv_record_bytes(csv_header()) + Seq::<u8>::empty() =~= csv_record_bytes(csv_header()));
}

/// A single row is exported as the header and that row's record.
pub proof fn export_of_one_row(row: Seq<Cell>)
    ensures
        csv_export(seq![row]) == csv_record_bytes(csv_header()) + csv_record_bytes(csv_fields(row)),
{
    assert(seq![row].drop_last() =~= Seq::<Seq<Cell>>::empty());
    assert(csv_body(Seq::<Seq<Cell>>::empty()) == Seq::<u8>::empty());
    assert(Seq::<u8>::empty() + csv_record_bytes(csv_fields(row)) =~= csv_record_bytes(csv_fields(row)));
}

/// A run of the sign-in handler: it starts waiting for the validation
/// service, and each step answers an event that fits the stage reached.
pub open spec fn login_run(
    stages: Seq<LoginStage>,
    events: Seq<LoginEvent>,
    actions: Seq<LoginAction>,
) -> bool {
    &&& stages.len() == events.len() + 1
    &&& actions.len() == events.len()
    &&& stages[0] is Validating
    &&& forall|i: int|
        #![trigger events[i]]
        0 <= i < events.len() ==> login_event_fits(stages[i], events[i]) && login_step_spec(
            stages[i],
            events[i],
            (stages[i + 1], actions[i]),
        )
}

/// The run began with the service vouching for a signature, a token being
/// asked for the uid it vouched for, and that token being `token`.
pub open spec fn vouched_and_minted(
    events: Seq<LoginEvent>,
    actions: Seq<LoginAction>,
    token: Seq<char>,
) -> bool {
    &&& events.len() >= 2
    &&& events[0] matches LoginEvent::Validated(answer) && answer.valid_signature && (
    actions[0] matches LoginAction::Mint { uid } && uid@ == answer.uid@)
    &&& events[1] matches LoginEvent::Minted(Some(minted)) && minted@ == token
}

proof fn login_run_history(
    stages: Seq<LoginStage>,
    events: Seq<LoginEvent>,
    actions: Seq<LoginAction>,
    n: int,
)
    requires
        login_run(stages, events, actions),
        0 <= n <= events.len(),
    ensures
        login_progress(stages[n]) >= n,
        stages[n] is Minting ==> n == 1,
        held_token(stages[n]) matches Some(t) ==> (n >= 2 && vouched_and_minted(
            events.take(n),
            actions.take(n),
            t,
        )),
    decreases n,
{
    if n > 0 {
        login_run_history(stages, events, actions, n - 1);
        let i = n - 1;
        assert(login_event_fits(stages[i], events[i]));
        assert(login_step_spec(stages[i], events[i], (stages[i + 1], actions[i])));
        if held_token(stages[n]) is Some {
            if n >= 3 {
                assert(events.take(n).take(n - 1) =~= events.take(n - 1));
                assert(events.take(n)[0] == events.take(n - 1)[0]);
                assert(events.take(n)[1] == events.take(n - 1)[1]);
                assert(actions.take(n)[0] == actions.take(n - 1)[0]);
            }
        }
    }
}

/// Signing in sets a session cookie only at the end of a run in which the
/// validation service vouched for the signature, a token was minted for the
/// uid it vouched for, and the cookie carries exactly that token.
pub proof fn sign_in_cookie_carries_the_minted_token(
    stages: Seq<LoginStage>,
    events: Seq<LoginEvent>,
    actions: Seq<LoginAction>,
    i: int,
)
    requires
        login_run(stages, events, actions),
        0 <= i < actions.len(),
        actions[i] matches LoginAction::Respond(r) && r.cookie is Some,
    ensures
        actions[i] matches LoginAction::Respond(r) && (r.status == Status::Success && (
        r.cookie matches Some(c) && vouched_and_minted(events, actions, c.value@))),
{
    login_run_history(stages, events, actions, i);
    assert(login_event_fits(stages[i], events[i]));
    let t = held_token(stages[i])->0;
    assert(events.take(i)[0] == events[0]);
    assert(events.take(i)[1] == events[1]);
    assert(actions.take(i)[0] == actions[0]);
}

/// The sign-in answers exactly once: after at most four events, and only at
/// its last step.
pub proof fn sign_in_answers_once(
    stages: Seq<LoginStage>,
    events: Seq<LoginEvent>,
    actions: Seq<LoginAction>,
)
    requires
        login_run(stages, events, actions),
    ensures
        events.len() <= 4,
        forall|i: int| 0 <= i < actions.len() - 1 ==> !(#[trigger] actions[i] is Respond),
{
    if events.len() > 0 {
        let last = events.len() - 1;
        login_run_history(stages, events, actions, last);
        assert(login_event_fits(stages[last], events[last]));
    }
    assert forall|i: int| 0 <= i < actions.len() - 1 implies !(#[trigger] actions[i] is Respond) by {
        assert(login_event_fits(stages[i + 1], events[i + 1]));
        assert(login_step_spec(stages[i], events[i], (stages[i + 1], actions[i])));
    }
}

/// A run of `POST /api/post` on a submitted text: its start, then steps
/// that each answer an event fitting the stage reached.
pub open spec fn post_run(
    submitted: Seq<char>,
    stages: Seq<PostStage>,
    events: Seq<PostEvent>,
    actions: Seq<PostAction>,
) -> bool {
    &&& stages.len() == events.len() + 1
    &&& actions.len() == events.len() + 1
    &&& post_start_spec(submitted, (stages[0], actions[0]))
    &&& forall|i: int|
        #![trigger events[i]]
        0 <= i < events.len() ==> post_event_fits(stages[i], events[i]) && post_step_spec(
            stages[i],
            events[i],
            (stages[i + 1], actions[i + 1]),
        )
}

/// A post is stored only with exactly the submitted text, only when that
/// text is acceptable, only after the request was found authenticated, and
/// under the user id taken from its token.
pub proof fn posts_are_stored_only_as_submitted_and_authenticated(
    submitted: Seq<char>,
    stages: Seq<PostStage>,
    events: Seq<PostEvent>,
    actions: Seq<PostAction>,
    i: int,
)
    requires
        post_run(submitted, stages, events, actions),
        0 <= i < actions.len(),
        actions[i] is Store,
    ensures
        i == 2,
        post_text_verdict(submitted) == PostTextVerdict::Acceptable,
        events[0] == PostEvent::AuthChecked(true),
        actions[i] matches PostAction::Store { content, uid } && content@ == submitted && (
        events[1] matches PostEvent::UidResolved(Ok(u)) && u@ == uid@),
{
    if post_text_verdict(submitted) != PostTextVerdict::Acceptable {
        assert(stages[0] is Done);
        if events.len() > 0 {
            assert(post_event_fits(stages[0], events[0]));
        }
    }
    assert(events.len() >= 1 ==> post_event_fits(stages[0], events[0]));
    assert(events.len() >= 1 ==> post_step_spec(stages[0], events[0], (stages[1], actions[1])));
    assert(events.len() >= 2 ==> post_event_fits(stages[1], events[1]));
    assert(events.len() >= 2 ==> post_step_spec(stages[1], events[1], (stages[2], actions[2])));
    assert(events.len() >= 3 ==> post_event_fits(stages[2], events[2]));
    assert(events.len() >= 3 ==> post_step_spec(stages[2], events[2], (stages[3], actions[3])));
    assert(events.len() >= 4 ==> post_event_fits(stages[3], events[3]));
}

/// An unauthenticated request to post is answered `401` and stores nothing.
pub proof fn unauthenticated_posts_are_refused(
    submitted: Seq<char>,
    stages: Seq<PostStage>,
    events: Seq<PostEvent>,
    actions: Seq<PostAction>,
)
    requires
        post_run(submitted, stages, events, actions),
        events.len() >= 1,
        events[0] == PostEvent::AuthChecked(false),
    ensures
        events.len() == 1,
        actions[1] matches PostAction::Respond(r) && is_bare(r, Status::Unauthorized),
        forall|i: int| 0 <= i < actions.len() ==> !(#[trigger] actions[i] is Store),
{
    assert(post_event_fits(stages[0], events[0]));
    assert(post_step_spec(stages[0], events[0], (stages[1], actions[1])));
    if events.len() > 1 {
        assert(post_event_fits(stages[1], events[1]));
    }
}

/// A post's card carries a delete button exactly when the viewer owns the
/// post: when the owner column holds the viewer's uid, the button for the
/// post's id stands between the footer and the closing tag; otherwise the
/// card is its body, its footer and the closing tag, with no button.
pub proof fn delete_button_only_for_the_owner(row: Seq<Cell>, viewer: Seq<char>)
    requires
        row.len() >= 4,
        row[1] is Text,
    ensures
        cell_text(row[2]) == Some(viewer) ==> post_card(row, viewer) == Some(
            card_body(cell_number(row[0]), cell_text(row[1])->0) + card_footer(
                cell_text(row[2]),
                cell_number(row[3]),
            ) + delete_button(number_or(cell_number(row[0]), "None"@)) + "</div>"@,
        ),
        cell_text(row[2]) != Some(viewer) ==> post_card(row, viewer) == Some(
            card_body(cell_number(row[0]), cell_text(row[1])->0) + card_footer(
                cell_text(row[2]),
                cell_number(row[3]),
            ) + "</div>"@,
        ),
{
    let front = card_body(cell_number(row[0]), cell_text(row[1])->0) + card_footer(
        cell_text(row[2]),
        cell_number(row[3]),
    );
    assert(front + Seq::<char>::empty() =~= front);
}

/// The export carries every post whole: read back, the record of each row
/// holds its id and timestamp in decimal and its content and owner text
/// unchanged, each `None` where the cell does not hold that kind of value;
/// the header comes first.
pub proof fn export_carries_every_field_whole(rows: Seq<Seq<Cell>>, i: int)
    requires
        0 <= i < rows.len(),
    ensures
        ({
            let records = read_records(decode_utf8(csv_export(rows)), rows.len() + 1, 4);
            &&& records.len() == rows.len() + 1
            &&& records[0] == seq!["ID"@, "Content"@, "Owner"@, "Creation Timestamp"@]
            &&& records[i + 1].len() == 4
            &&& (rows[i][0] matches Cell::Integer(v) ==> records[i + 1][0] == decimal((v as usize) as nat))
            &&& (!(rows[i][0] is Integer) ==> records[i + 1][0] == "None"@)
            &&& (rows[i][1] matches Cell::Text(t) ==> records[i + 1][1] == t@)
            &&& (!(rows[i][1] is Text) ==> records[i + 1][1] == "None"@)
            &&& (rows[i][2] matches Cell::Text(t) ==> records[i + 1][2] == t@)
            &&& (!(rows[i][2] is Text) ==> records[i + 1][2] == "None"@)
            &&& (rows[i][3] matches Cell::Integer(v) ==> records[i + 1][3] == decimal((v as usize) as nat))
            &&& (!(rows[i][3] is Integer) ==> records[i + 1][3] == "None"@)
        }),
{
    export_reads_back(rows);
    let records = read_records(decode_utf8(csv_export(rows)), rows.len() + 1, 4);
    assert(records[i + 1] == csv_fields(rows[i]));
    assert(records[0] == csv_header());
}

} // verus!
