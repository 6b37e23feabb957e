use vstd::prelude::*;
use crate::text::{decimal, decimal_string};

verus! {

/// A value stored in one column of a row read back from the database.
/// A floating-point value is kept only as the fact that it is one: nothing
/// here reads its number.
pub enum Cell {
    Null,
    Integer(i64),
    Real,
    Text(String),
    Blob(Vec<u8>),
}

/// A row of the `posts` table as read back: id, content, owner uid,
/// creation timestamp, in that column order.
pub type PostRow = Vec<Cell>;

/// The number stored in an integer cell, read as `usize` (`value as usize`).
pub open spec fn cell_number(c: Cell) -> Option<usize> {
    match c {
        Cell::Integer(v) => Some(v as usize),
        _ => None,
    }
}

/// The text stored in a text cell.
pub open spec fn cell_text(c: Cell) -> Option<Seq<char>> {
    match c {
        Cell::Text(t) => Some(t@),
        _ => None,
    }
}

/// `n.map_or(fallback, |v| v.to_string())` for a number.
pub open spec fn number_or(n: Option<usize>, fallback: Seq<char>) -> Seq<char> {
    match n {
        Some(v) => decimal(v as nat),
        None => fallback,
    }
}

/// `t.map_or(fallback, |v| v)` for a text.
pub open spec fn text_or(t: Option<Seq<char>>, fallback: Seq<char>) -> Seq<char> {
    match t {
        Some(v) => v,
        None => fallback,
    }
}

/// A row has the four columns the handlers index into.
pub open spec fn row_well_formed(row: Seq<Cell>) -> bool {
    row.len() >= 4
}

/// A row that has all four columns and text in its content column.
pub open spec fn has_text_content(row: Seq<Cell>) -> bool {
    row.len() >= 4 && row[1] is Text
}

/// Every row the listing reaches has its four columns: the listing reads a
/// row only while all rows before it had text content.
pub open spec fn reached_rows_well_formed(rows: Seq<Seq<Cell>>) -> bool {
    forall|i: int|
        #![trigger rows[i]]
        0 <= i < rows.len() && (forall|j: int| 0 <= j < i ==> has_text_content(#[trigger] rows[j]))
            ==> row_well_formed(rows[i])
}

/// The delete button shown under a post that belongs to the viewer.
pub open spec fn delete_button(id: Seq<char>) -> Seq<char> {
    "<button hx-delete=\"/api/post?id="@ + id
        + "\" hx-method=\"delete\" hx-target=\"#post-"@ + id
        + "\" hx-swap=\"outerHTML\" class=\"bg-red-500 hover:bg-red-700 text-white font-bold py-1 px-2 rounded text-xs\">Delete</button>"@
}

/// The top part of a card: the post's anchor and its content.
pub open spec fn card_body(id: Option<usize>, content: Seq<char>) -> Seq<char> {
    "<div id=\"post-"@ + number_or(id, "error"@)
        + "\"class=\"max-w-sm mx-auto mb-5 bg-dark-200 rounded-lg overflow-hidden shadow-lg\"><div class=\"p-4 flex items-center justify-center h-40\"><p class=\"text-primary-500 text-center\">"@
        + content + "</p></div>"@
}

/// The footer of a card: who posted it and when.
pub open spec fn card_footer(owner: Option<Seq<char>>, stamp: Option<usize>) -> Seq<char> {
    "<div class=\"px-4 py-2 bg-gray-100\"><div class=\"flex justify-between items-center\"><div><p class=\"text-xs whitespace-normal text-primary-500\">Posted by: <span class=\"font-semibold\">"@
        + text_or(owner, "Not Found"@)
        + "</span></p><p class=\"text-xs text-primary-500\">Posted at: <span class=\"font-semibold\">"@
        + number_or(stamp, "Not Found"@) + "</span></p></div></div></div>"@
}

/// The delete button when `viewer` owns the post, nothing otherwise.
pub open spec fn card_controls(id: Option<usize>, owner: Option<Seq<char>>, viewer: Seq<char>) -> Seq<char> {
    if owner == Some(viewer) {
        delete_button(number_or(id, "None"@))
    } else {
        Seq::empty()
    }
}

/// The card that shows one post: its content, its owner and its time, and,
/// when `viewer` owns it, a delete button; `None` when the content column
/// holds no text.
pub open spec fn post_card(row: Seq<Cell>, viewer: Seq<char>) -> Option<Seq<char>> {
    let id = cell_number(row[0]);
    let owner = cell_text(row[2]);
    let stamp = cell_number(row[3]);
    match cell_text(row[1]) {
        Some(content) => Some(
            card_body(id, content) + card_footer(owner, stamp) + card_controls(id, owner, viewer)
                + "</div>"@,
        ),
        None => None,
    }
}

/// The cards of all rows, in order; `None` as soon as one row has no text
/// content.
pub open spec fn post_cards(rows: Seq<Seq<Cell>>, viewer: Seq<char>) -> Option<Seq<char>>
    decreases rows.len(),
{
    if rows.len() == 0 {
        Some(Seq::empty())
    } else {
        match post_cards(rows.drop_last(), viewer) {
            Some(front) => match post_card(rows.last(), viewer) {
                Some(card) => Some(front + card),
                None => None,
            },
            None => None,
        }
    }
}

/// The plain views of a list of rows.
pub open spec fn rows_view(rows: Seq<PostRow>) -> Seq<Seq<Cell>> {
    rows.map_values(|r: PostRow| r@)
}

/// Once the cards of a prefix fail, the cards of the whole list fail.
proof fn lemma_cards_fail_forward(rows: Seq<Seq<Cell>>, viewer: Seq<char>, n: int)
    requires
        0 <= n <= rows.len(),
        post_cards(rows.take(n), viewer) is None,
    ensures
        post_cards(rows, viewer) is None,
    decreases rows.len() - n,
{
    if n < rows.len() {
        assert(rows.take(n + 1).drop_last() == rows.take(n));
        lemma_cards_fail_forward(rows, viewer, n + 1);
    } else {
        assert(rows.take(n) == rows);
    }
}

fn number_of(c: &Cell) -> (n: Option<usize>)
    ensures
        n == cell_number(*c),
{
    match c {
        Cell::Integer(v) => Some(*v as usize),
        _ => None,
    }
}

fn text_of(c: &Cell) -> (t: Option<&String>)
    ensures
        t matches Some(s) ==> cell_text(*c) == Some(s@),
        t is None ==> cell_text(*c) is None,
{
    match c {
        Cell::Text(s) => Some(s),
        _ => None,
    }
}

fn append_number_or(out: &mut String, n: Option<usize>, fallback: &str)
    ensures
        final(out)@ == old(out)@ + number_or(n, fallback@),
{
    match n {
        Some(v) => {
            let digits = decimal_string(v);
            out.append(digits.as_str());
        },
        None => out.append(fallback),
    }
}

fn append_text_or(out: &mut String, t: Option<&String>, fallback: &str)
    ensures
        final(out)@ == old(out)@ + text_or(
            match t {
                Some(s) => Some(s@),
                None => None,
            },
            fallback@,
        ),
{
    match t {
        Some(s) => out.append(s.as_str()),
        None => out.append(fallback),
    }
}

/// Appends the card of one post to `out`; returns `false`, leaving `out` in
/// an unspecified state, when the content column holds no text.
fn append_post_card(out: &mut String, row: &PostRow, viewer: &String) -> (ok: bool)
    requires
        row_well_formed(row@),
    ensures
        ok == (post_card(row@, viewer@) is Some),
        ok ==> final(out)@ == old(out)@ + post_card(row@, viewer@)->0,
{
    let ghost start = out@;
    let id = number_of(&row[0]);
    let owner = text_of(&row[2]);
    let stamp = number_of(&row[3]);
    match text_of(&row[1]) {
        Some(content) => {
            let ghost owner_spec = cell_text(row@[2]);
            let ghost s0 = out@;
            out.append("<div id=\"post-");
            append_number_or(out, id, "error");
            out.append(
                "\"class=\"max-w-sm mx-auto mb-5 bg-dark-200 rounded-lg overflow-hidden shadow-lg\"><div class=\"p-4 flex items-center justify-center h-40\"><p class=\"text-primary-500 text-center\">",
            );
            out.append(content.as_str());
            out.append("</p></div>");
            assert(out@ =~= s0 + card_body(id, content@));
            let ghost s1 = out@;
            out.append(
                "<div class=\"px-4 py-2 bg-gray-100\"><div class=\"flex justify-between items-center\"><div><p class=\"text-xs whitespace-normal text-primary-500\">Posted by: <span class=\"font-semibold\">",
            );
            append_text_or(out, owner, "Not Found");
            out.append(
                "</span></p><p class=\"text-xs text-primary-500\">Posted at: <span class=\"font-semibold\">",
            );
            append_number_or(out, stamp, "Not Found");
            out.append("</span></p></div></div></div>");
            assert(out@ =~= s1 + card_footer(owner_spec, stamp));
            let ghost s2 = out@;
            let owned_by_viewer = match owner {
                Some(o) => String::eq(o, viewer),
                None => false,
            };
            if owned_by_viewer {
                out.append("<button hx-delete=\"/api/post?id=");
                append_number_or(out, id, "None");
                out.append("\" hx-method=\"delete\" hx-target=\"#post-");
                append_number_or(out, id, "None");
                out.append(
                    "\" hx-swap=\"outerHTML\" class=\"bg-red-500 hover:bg-red-700 text-white font-bold py-1 px-2 rounded text-xs\">Delete</button>",
                );
            }
            assert(out@ =~= s2 + card_controls(id, owner_spec, viewer@));
            out.append("</div>");
            assert(out@ =~= start + post_card(row@, viewer@)->0);
            true
        },
        None => false,
    }
}

/// Renders the posts of a user as the HTML fragment the post list shows;
/// `None` when some row holds no text in its content column.
pub fn render_posts(rows: &Vec<PostRow>, viewer: &String) -> (html: Option<String>)
    requires
        reached_rows_well_formed(rows_view(rows@)),
    ensures
        html matches Some(h) ==> post_cards(rows_view(rows@), viewer@) == Some(h@),
        html is None ==> post_cards(rows_view(rows@), viewer@) is None,
{
    let mut out = String::new();
    let mut i: usize = 0;
    while i < rows.len()
        invariant
            i <= rows@.len(),
            reached_rows_well_formed(rows_view(rows@)),
            forall|j: int| 0 <= j < i ==> has_text_content(#[trigger] rows_view(rows@)[j]),
            post_cards(rows_view(rows@).take(i as int), viewer@) == Some(out@),
        decreases rows@.len() - i,
    {
        let ghost front = rows_view(rows@).take(i as int);
        assert(rows_view(rows@).take(i + 1).drop_last() == front);
        assert(rows_view(rows@).take(i + 1).last() == rows@[i as int]@);
        if !append_post_card(&mut out, &rows[i], viewer) {
            proof {
                lemma_cards_fail_forward(rows_view(rows@), viewer@, i + 1);
            }
            return None;
        }
        i = i + 1;
    }
    assert(rows_view(rows@).take(rows@.len() as int) == rows_view(rows@));
    Some(out)
}

} // verus!
