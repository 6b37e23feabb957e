use vstd::prelude::*;
use crate::render::{Cell, PostRow, cell_number, cell_text, number_or, text_or, row_well_formed, rows_view};
use crate::text::decimal_string;

verus! {

/// A `csv::Writer` with default settings that writes into an in-memory
/// vector; it is reached only through the functions below.
#[verifier::external_body]
pub struct CsvSheet {
    writer: csv::Writer<Vec<u8>>,
}

/// The bytes a CSV writer over a `Vec<u8>` has produced so far: what its
/// inner vector holds plus what it still buffers.
pub uninterp spec fn csv_written(w: CsvSheet) -> Seq<u8>;

/// Whether the writer stands between two records, with no field of an
/// unfinished record written.
pub uninterp spec fn csv_between_records(w: CsvSheet) -> bool;

/// The number of fields of the first record the writer completed (`None`
/// before any): a writer that is not flexible refuses a record of another
/// width.
pub uninterp spec fn csv_record_width(w: CsvSheet) -> Option<nat>;

/// The characters that make a field need quotes under the writer's default
/// settings: the delimiter, the quote, and the two line-ending characters.
pub open spec fn csv_special(c: char) -> bool {
    c == ',' || c == '"' || c == '\r' || c == '\n'
}

/// A field is quoted exactly when it holds a special character.
pub open spec fn csv_needs_quotes(field: Seq<char>) -> bool {
    exists|i: int| 0 <= i < field.len() && csv_special(#[trigger] field[i])
}

/// The field with each quote doubled.
pub open spec fn doubled_quotes(field: Seq<char>) -> Seq<char>
    decreases field.len(),
{
    if field.len() == 0 {
        Seq::empty()
    } else {
        doubled_quotes(field.drop_last()) + if field.last() == '"' {
            seq!['"', '"']
        } else {
            seq![field.last()]
        }
    }
}

/// A field as written: in quotes, with its quotes doubled, when it needs
/// quotes; as it is otherwise.
pub open spec fn csv_field_chars(field: Seq<char>) -> Seq<char> {
    if csv_needs_quotes(field) {
        seq!['"'] + doubled_quotes(field) + seq!['"']
    } else {
        field
    }
}

/// The written fields, separated by commas.
pub open spec fn csv_joined(fields: Seq<Seq<char>>) -> Seq<char>
    decreases fields.len(),
{
    if fields.len() == 0 {
        Seq::empty()
    } else if fields.len() == 1 {
        csv_field_chars(fields[0])
    } else {
        csv_joined(fields.drop_last()) + seq![','] + csv_field_chars(fields.last())
    }
}

/// The bytes that `csv::Writer::write_record`, with the writer's default
/// settings, writes for a record: the joined fields (a pair of quotes where
/// they come to nothing), then a newline, in UTF-8.
pub open spec fn csv_record_bytes(fields: Seq<Seq<char>>) -> Seq<u8> {
    vstd::utf8::encode_utf8(csv_record_chars(fields))
}

/// The characters of a written record: the joined fields (a pair of quotes
/// where they come to nothing), then a newline.
pub open spec fn csv_record_chars(fields: Seq<Seq<char>>) -> Seq<char> {
    let body = csv_joined(fields);
    (if body.len() == 0 { seq!['"', '"'] } else { body }) + seq!['\n']
}

/// The plain view of a record.
pub open spec fn record_view(record: Seq<String>) -> Seq<Seq<char>> {
    record.map_values(|f: String| f@)
}

/// `csv::Writer::from_writer(vec![])`: a writer with default settings
/// (not flexible) over an empty vector; it has produced nothing, stands
/// before its first record and has no record width yet.
#[verifier::external_body]
fn csv_writer_new() -> (w: CsvSheet)
    ensures
        csv_written(w) == Seq::<u8>::empty(),
        csv_between_records(w),
        csv_record_width(w) is None,
{
    CsvSheet { writer: csv::Writer::from_writer(Vec::new()) }
}

/// `csv::Writer::write_record`: on success the record's bytes (fields,
/// delimiters, terminator) follow what was written before, the writer
/// stands between records again, and the record width is this record's.
/// Writing into a vector does not fail, so the one error left is a record
/// whose width differs from the width already set: the call succeeds
/// whenever no width is set or the record has that width. Nothing else is
/// said of a failed call.
#[verifier::external_body]
fn csv_write_record(w: &mut CsvSheet, record: &Vec<String>) -> (r: Result<(), ()>)
    requires
        csv_between_records(*old(w)),
    ensures
        (csv_record_width(*old(w)) is None || csv_record_width(*old(w)) == Some(record@.len() as nat))
            ==> r is Ok,
        r is Ok ==> csv_record_width(*final(w)) == Some(record@.len() as nat),
        r is Ok ==> csv_written(*final(w)) == csv_written(*old(w)) + csv_record_bytes(
            record_view(record@),
        ),
        r is Ok ==> csv_between_records(*final(w)),
{
    w.writer.write_record(record).map_err(|_e| ())
}

/// `csv::Writer::flush`: moves buffered bytes into the vector, which does
/// not fail; the bytes produced, the record boundary and the record width
/// are unchanged.
#[verifier::external_body]
fn csv_flush(w: &mut CsvSheet) -> (r: Result<(), ()>)
    ensures
        r is Ok,
        csv_record_width(*final(w)) == csv_record_width(*old(w)),
        r is Ok ==> csv_written(*final(w)) == csv_written(*old(w)),
        r is Ok ==> csv_between_records(*final(w)) == csv_between_records(*old(w)),
{
    w.writer.flush().map_err(|_e| ())
}

/// `csv::Writer::into_inner`: flushes into the vector, which does not
/// fail, and hands back the vector holding every byte the writer produced.
#[verifier::external_body]
fn csv_into_inner(w: CsvSheet) -> (r: Result<Vec<u8>, ()>)
    ensures
        r is Ok,
        r matches Ok(bytes) ==> bytes@ == csv_written(w),
{
    w.writer.into_inner().map_err(|_e| ())
}

/// The header record of the post export.
pub open spec fn csv_header() -> Seq<Seq<char>> {
    seq!["ID"@, "Content"@, "Owner"@, "Creation Timestamp"@]
}

/// The export record of one post: id, content, owner, creation timestamp,
/// each `None` when the column does not hold the expected kind of value.
pub open spec fn csv_fields(row: Seq<Cell>) -> Seq<Seq<char>> {
    seq![
        number_or(cell_number(row[0]), "None"@),
        text_or(cell_text(row[1]), "None"@),
        text_or(cell_text(row[2]), "None"@),
        number_or(cell_number(row[3]), "None"@),
    ]
}

/// The encoded records of the rows, in order.
pub open spec fn csv_body(rows: Seq<Seq<Cell>>) -> Seq<u8>
    decreases rows.len(),
{
    if rows.len() == 0 {
        Seq::empty()
    } else {
        csv_body(rows.drop_last()) + csv_record_bytes(csv_fields(rows.last()))
    }
}

/// The whole export: the header record, then one record per row.
pub open spec fn csv_export(rows: Seq<Seq<Cell>>) -> Seq<u8> {
    csv_record_bytes(csv_header()) + csv_body(rows)
}

fn number_field(c: &Cell) -> (f: String)
    ensures
        f@ == number_or(cell_number(*c), "None"@),
{
    match c {
        Cell::Integer(v) => decimal_string(*v as usize),
        _ => "None".to_string(),
    }
}

fn text_field(c: &Cell) -> (f: String)
    ensures
        f@ == text_or(cell_text(*c), "None"@),
{
    match c {
        Cell::Text(t) => t.clone(),
        _ => "None".to_string(),
    }
}

/// The export record of one row.
pub fn csv_record(row: &PostRow) -> (record: Vec<String>)
    requires
        row_well_formed(row@),
    ensures
        record@.len() == 4,
        record_view(record@) == csv_fields(row@),
{
    let mut record: Vec<String> = Vec::new();
    record.push(number_field(&row[0]));
    record.push(text_field(&row[1]));
    record.push(text_field(&row[2]));
    record.push(number_field(&row[3]));
    assert(record_view(record@) =~= csv_fields(row@));
    record
}

fn header_record() -> (record: Vec<String>)
    ensures
        record@.len() == 4,
        record_view(record@) == csv_header(),
{
    let mut record: Vec<String> = Vec::new();
    record.push("ID".to_string());
    record.push("Content".to_string());
    record.push("Owner".to_string());
    record.push("Creation Timestamp".to_string());
    assert(record_view(record@) =~= csv_header());
    record
}

/// Writes the posts of a user as a CSV document: a header record, then one
/// record per row. Every record has four fields, so the writer never
/// refuses one, and the document is always produced.
pub fn posts_csv(rows: &Vec<PostRow>) -> (doc: Option<Vec<u8>>)
    requires
        forall|i: int| 0 <= i < rows@.len() ==> row_well_formed(#[trigger] rows@[i]@),
    ensures
        doc matches Some(bytes) && bytes@ == csv_export(rows_view(rows@)),
{
    let mut writer = csv_writer_new();
    let header = header_record();
    if csv_write_record(&mut writer, &header).is_err() {
        return None;
    }
    let mut i: usize = 0;
    while i < rows.len()
        invariant
            i <= rows@.len(),
            forall|k: int| 0 <= k < rows@.len() ==> row_well_formed(#[trigger] rows@[k]@),
            csv_between_records(writer),
            csv_record_width(writer) == Some(4nat),
            csv_written(writer) == csv_record_bytes(csv_header()) + csv_body(
                rows_view(rows@).take(i as int),
            ),
        decreases rows@.len() - i,
    {
        let record = csv_record(&rows[i]);
        if csv_write_record(&mut writer, &record).is_err() {
            return None;
        }
        assert(rows_view(rows@).take(i + 1).drop_last() == rows_view(rows@).take(i as int));
        assert(rows_view(rows@).take(i + 1).last() == rows@[i as int]@);
        i = i + 1;
    }
    assert(rows_view(rows@).take(rows@.len() as int) == rows_view(rows@));
    if csv_flush(&mut writer).is_err() {
        return None;
    }
    match csv_into_inner(writer) {
        Ok(bytes) => Some(bytes),
        Err(_) => None,
    }
}

} // verus!
