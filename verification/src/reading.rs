use vstd::prelude::*;
use vstd::utf8::*;
use crate::render::Cell;
use crate::sheet::{
    csv_body, csv_export, csv_field_chars, csv_fields, csv_header, csv_joined, csv_needs_quotes,
    csv_record_chars, csv_special, doubled_quotes,
};

verus! {

// The CSV quoting rules read backwards: a document is taken apart from its
// end, field by field and record by record. Each reader returns what is
// left in front of what it read.

/// Reads an unquoted field that ends `s`: everything after the last comma
/// or newline, prepended to `acc`. What is left keeps that separator.
pub open spec fn read_plain(s: Seq<char>, acc: Seq<char>) -> (Seq<char>, Seq<char>)
    decreases s.len(),
{
    if s.len() == 0 || s.last() == ',' || s.last() == '\n' {
        (s, acc)
    } else {
        read_plain(s.drop_last(), seq![s.last()] + acc)
    }
}

/// Reads the inside of a quoted field that ends `s` (its closing quote
/// already taken off), a doubled quote standing for one quote, up to its
/// opening quote, prepended to `acc`. What is left is in front of the
/// opening quote.
pub open spec fn read_quoted(s: Seq<char>, acc: Seq<char>) -> (Seq<char>, Seq<char>)
    decreases s.len(),
{
    if s.len() == 0 {
        (s, acc)
    } else if s.last() == '"' {
        if s.len() >= 2 && s[s.len() - 2] == '"' {
            read_quoted(s.drop_last().drop_last(), seq!['"'] + acc)
        } else {
            (s.drop_last(), acc)
        }
    } else {
        read_quoted(s.drop_last(), seq![s.last()] + acc)
    }
}

/// Reads the field that ends `s`: quoted when `s` ends with a quote.
pub open spec fn read_last_field(s: Seq<char>) -> (Seq<char>, Seq<char>) {
    if s.len() > 0 && s.last() == '"' {
        read_quoted(s.drop_last(), Seq::empty())
    } else {
        read_plain(s, Seq::empty())
    }
}

/// Reads the last `n` comma-separated fields of `s`, in order; what is left
/// is in front of the first of them.
pub open spec fn read_fields(s: Seq<char>, n: nat) -> (Seq<char>, Seq<Seq<char>>)
    decreases n,
{
    if n == 0 {
        (s, Seq::empty())
    } else {
        let last = read_last_field(s);
        if n == 1 {
            (last.0, seq![last.1])
        } else {
            let front = read_fields(last.0.drop_last(), (n - 1) as nat);
            (front.0, front.1.push(last.1))
        }
    }
}

/// Reads the last `count` records of `width` fields each, every record
/// ended by a newline, in order.
pub open spec fn read_records(s: Seq<char>, count: nat, width: nat) -> Seq<Seq<Seq<char>>>
    decreases count,
{
    if count == 0 {
        Seq::empty()
    } else {
        let last = read_fields(s.drop_last(), width);
        read_records(last.0, (count - 1) as nat, width).push(last.1)
    }
}

/// The characters of the export: the header record, then one record per
/// row.
pub open spec fn csv_export_chars(rows: Seq<Seq<Cell>>) -> Seq<char>
    decreases rows.len(),
{
    if rows.len() == 0 {
        csv_record_chars(csv_header())
    } else {
        csv_export_chars(rows.drop_last()) + csv_record_chars(csv_fields(rows.last()))
    }
}

/// `s` can stand in front of a field: it is empty or ends with a separator.
pub open spec fn field_boundary(s: Seq<char>) -> bool {
    s.len() == 0 || s.last() == ',' || s.last() == '\n'
}

proof fn lemma_read_plain(q: Seq<char>, f: Seq<char>, acc: Seq<char>)
    requires
        forall|i: int| 0 <= i < f.len() ==> !csv_special(#[trigger] f[i]),
    ensures
        read_plain(q + f, acc) == read_plain(q, f + acc),
    decreases f.len(),
{
    if f.len() == 0 {
        assert(q + f =~= q);
        assert(f + acc =~= acc);
    } else {
        let s = q + f;
        assert(s.last() == f.last());
        assert(!csv_special(f[f.len() - 1]));
        assert(s.drop_last() =~= q + f.drop_last());
        lemma_read_plain(q, f.drop_last(), seq![f.last()] + acc);
        assert(f.drop_last() + (seq![f.last()] + acc) =~= f + acc);
    }
}

proof fn lemma_read_quoted(q: Seq<char>, f: Seq<char>, acc: Seq<char>)
    ensures
        read_quoted(q + doubled_quotes(f), acc) == read_quoted(q, f + acc),
    decreases f.len(),
{
    if f.len() == 0 {
        assert(q + doubled_quotes(f) =~= q);
        assert(f + acc =~= acc);
    } else {
        let front = f.drop_last();
        let c = f.last();
        let s = q + doubled_quotes(f);
        lemma_read_quoted(q, front, seq![c] + acc);
        assert(front + (seq![c] + acc) =~= f + acc);
        if c == '"' {
            assert(s =~= (q + doubled_quotes(front)) + seq!['"', '"']);
            assert(s.drop_last().drop_last() =~= q + doubled_quotes(front));
        } else {
            assert(s =~= (q + doubled_quotes(front)) + seq![c]);
            assert(s.drop_last() =~= q + doubled_quotes(front));
        }
    }
}

/// A written field reads back as itself, whatever stands in front of it.
proof fn lemma_read_field(p: Seq<char>, f: Seq<char>)
    requires
        field_boundary(p),
    ensures
        read_last_field(p + csv_field_chars(f)) == (p, f),
{
    if csv_needs_quotes(f) {
        let s = p + csv_field_chars(f);
        let q = p + seq!['"'];
        assert(s =~= (q + doubled_quotes(f)) + seq!['"']);
        assert(s.drop_last() =~= q + doubled_quotes(f));
        lemma_read_quoted(q, f, Seq::empty());
        assert(f + Seq::<char>::empty() =~= f);
        assert(q.drop_last() =~= p);
        if q.len() >= 2 {
            assert(q[q.len() - 2] == p.last());
        }
    } else {
        assert forall|i: int| 0 <= i < f.len() implies !csv_special(#[trigger] f[i]) by {
            if csv_special(f[i]) {
                assert(csv_needs_quotes(f));
            }
        }
        lemma_read_plain(p, f, Seq::empty());
        assert(f + Seq::<char>::empty() =~= f);
        if f.len() > 0 {
            assert((p + f).last() == f[f.len() - 1]);
        } else {
            assert(p + f =~= p);
        }
    }
}

/// The joined fields of a record read back as the fields.
proof fn lemma_read_fields(p: Seq<char>, fields: Seq<Seq<char>>)
    requires
        field_boundary(p),
        fields.len() >= 1,
    ensures
        read_fields(p + csv_joined(fields), fields.len()) == (p, fields),
    decreases fields.len(),
{
    let n = fields.len();
    if n == 1 {
        lemma_read_field(p, fields[0]);
        assert(seq![fields[0]] =~= fields);
    } else {
        let front = fields.drop_last();
        let q = p + csv_joined(front) + seq![','];
        assert(p + csv_joined(fields) =~= q + csv_field_chars(fields.last()));
        lemma_read_field(q, fields.last());
        assert(q.drop_last() =~= p + csv_joined(front));
        lemma_read_fields(p, front);
        assert(front.push(fields.last()) =~= fields);
    }
}

proof fn lemma_joined_nonempty(fields: Seq<Seq<char>>)
    requires
        fields.len() >= 2,
    ensures
        csv_joined(fields).len() > 0,
{
}

/// A record of four fields reads back as its fields; what is left is what
/// stood in front of it.
proof fn lemma_read_record(p: Seq<char>, fields: Seq<Seq<char>>)
    requires
        field_boundary(p),
        fields.len() == 4,
    ensures
        read_fields((p + csv_record_chars(fields)).drop_last(), 4) == (p, fields),
{
    lemma_joined_nonempty(fields);
    assert((p + csv_record_chars(fields)).drop_last() =~= p + csv_joined(fields));
    lemma_read_fields(p, fields);
}

/// The export's characters read back as the header, then each row's
/// record.
proof fn lemma_read_export_chars(rows: Seq<Seq<Cell>>)
    ensures
        read_records(csv_export_chars(rows), rows.len() + 1, 4) == seq![csv_header()]
            + rows.map_values(|r: Seq<Cell>| csv_fields(r)),
    decreases rows.len(),
{
    if rows.len() == 0 {
        let e = Seq::<char>::empty();
        assert(e + csv_record_chars(csv_header()) =~= csv_record_chars(csv_header()));
        lemma_read_record(e, csv_header());
        assert(seq![csv_header()] + rows.map_values(|r: Seq<Cell>| csv_fields(r)) =~= seq![
            csv_header(),
        ]);
        assert(read_records(e, 0, 4) =~= Seq::<Seq<Seq<char>>>::empty());
    } else {
        let front = rows.drop_last();
        let d = csv_export_chars(front);
        lemma_export_chars_ends_with_newline(front);
        lemma_read_record(d, csv_fields(rows.last()));
        lemma_read_export_chars(front);
        assert(rows.map_values(|r: Seq<Cell>| csv_fields(r)) =~= front.map_values(
            |r: Seq<Cell>| csv_fields(r),
        ).push(csv_fields(rows.last())));
        assert(seq![csv_header()] + rows.map_values(|r: Seq<Cell>| csv_fields(r)) =~= (seq![
            csv_header(),
        ] + front.map_values(|r: Seq<Cell>| csv_fields(r))).push(csv_fields(rows.last())));
    }
}

proof fn lemma_export_chars_ends_with_newline(rows: Seq<Seq<Cell>>)
    ensures
        csv_export_chars(rows).len() > 0,
        csv_export_chars(rows).last() == '\n',
    decreases rows.len(),
{
    if rows.len() > 0 {
        lemma_export_chars_ends_with_newline(rows.drop_last());
    }
}

proof fn lemma_encode_concat(a: Seq<char>, b: Seq<char>)
    ensures
        encode_utf8(a + b) == encode_utf8(a) + encode_utf8(b),
    decreases a.len(),
{
    if a.len() == 0 {
        assert(a + b =~= b);
        assert(encode_utf8(a) + encode_utf8(b) =~= encode_utf8(b));
    } else {
        assert((a + b).drop_first() =~= a.drop_first() + b);
        assert((a + b)[0] == a[0]);
        lemma_encode_concat(a.drop_first(), b);
        assert(encode_scalar(a[0] as u32) + (encode_utf8(a.drop_first()) + encode_utf8(b))
            =~= (encode_scalar(a[0] as u32) + encode_utf8(a.drop_first())) + encode_utf8(b));
    }
}

/// The exported bytes are the UTF-8 encoding of the export's characters.
proof fn lemma_export_is_encoded(rows: Seq<Seq<Cell>>)
    ensures
        csv_export(rows) == encode_utf8(csv_export_chars(rows)),
    decreases rows.len(),
{
    if rows.len() == 0 {
        assert(csv_body(rows) =~= Seq::<u8>::empty());
        assert(csv_export(rows) =~= encode_utf8(csv_record_chars(csv_header())));
    } else {
        let front = rows.drop_last();
        lemma_export_is_encoded(front);
        lemma_encode_concat(csv_export_chars(front), csv_record_chars(csv_fields(rows.last())));
        assert(csv_export(rows) =~= csv_export(front) + encode_utf8(
            csv_record_chars(csv_fields(rows.last())),
        ));
    }
}

/// The export reads back, by the CSV quoting rules, as the header record and
/// then each row's record, in order: whatever commas, quotes or line breaks
/// the fields hold come back unchanged.
pub proof fn export_reads_back(rows: Seq<Seq<Cell>>)
    ensures
        read_records(decode_utf8(csv_export(rows)), rows.len() + 1, 4) == seq![csv_header()]
            + rows.map_values(|r: Seq<Cell>| csv_fields(r)),
{
    lemma_export_is_encoded(rows);
    encode_utf8_decode_utf8(csv_export_chars(rows));
    lemma_read_export_chars(rows);
}

} // verus!
