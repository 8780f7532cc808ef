use vstd::prelude::*;
use vstd::seq_lib::lemma_flatten_concat;
use crate::model::Message;

verus! {

/// A character that forces the CSV writer to quote the field holding it.
pub open spec fn is_csv_special(c: char) -> bool {
    c == ',' || c == '"' || c == '\r' || c == '\n'
}

pub open spec fn needs_quotes(f: Seq<char>) -> bool {
    exists|i: int| 0 <= i < f.len() && is_csv_special(#[trigger] f[i])
}

/// `f` with each double quote written twice.
pub open spec fn doubled_quotes(f: Seq<char>) -> Seq<char>
    decreases f.len(),
{
    if f.len() == 0 {
        Seq::empty()
    } else {
        doubled_quotes(f.drop_last()) + if f.last() == '"' {
            seq!['"', '"']
        } else {
            seq![f.last()]
        }
    }
}

/// A field as the writer puts it down: as it is, or quoted with its quotes
/// doubled where it holds a delimiter, a quote, CR or LF.
pub open spec fn csv_field(f: Seq<char>) -> Seq<char> {
    if needs_quotes(f) {
        seq!['"'] + doubled_quotes(f) + seq!['"']
    } else {
        f
    }
}

/// The fields written in turn, separated by commas.
pub open spec fn joined_fields(fields: Seq<Seq<char>>) -> Seq<char>
    decreases fields.len(),
{
    if fields.len() == 0 {
        Seq::empty()
    } else if fields.len() == 1 {
        csv_field(fields[0])
    } else {
        joined_fields(fields.drop_last()) + seq![','] + csv_field(fields.last())
    }
}

/// One CSV record under the writer's default settings: the joined fields and
/// a line feed; a record that would be blank is written as two quotes.
pub open spec fn csv_record_of(fields: Seq<Seq<char>>) -> Seq<char> {
    if joined_fields(fields).len() == 0 {
        seq!['"', '"', '\n']
    } else {
        joined_fields(fields) + seq!['\n']
    }
}

/// Relies on csv::Writer::write_record and Writer::into_inner: a fresh writer
/// over a byte buffer writes exactly one record of the given fields. The
/// buffer's writes cannot fail, a first record has no field count to match,
/// and the bytes are the fields' UTF-8 with ASCII quotes, commas and a line
/// feed added, so every step succeeds.
#[verifier::external_body]
fn csv_record(fields: &Vec<String>) -> (r: Result<String, ()>)
    ensures
        r is Ok,
        r matches Ok(s) ==> s@ == csv_record_of(fields@.map_values(|f: String| f@)),
{
    let mut writer = csv::Writer::from_writer(Vec::new());
    match writer.write_record(fields.iter()) {
        Ok(()) => {},
        Err(_) => return Err(()),
    }
    match writer.into_inner() {
        Ok(bytes) => String::from_utf8(bytes).map_err(|_| ()),
        Err(_) => Err(()),
    }
}

/// The sender's name, or the empty text where the message has no sender.
pub open spec fn sender_column(m: Message) -> Seq<char> {
    match m.sender {
        Some(s) => s@,
        None => Seq::empty(),
    }
}

/// The attachment's name, or the empty text where the message has none.
pub open spec fn attachment_column(m: Message) -> Seq<char> {
    match m.attachment {
        Some(a) => a.name@,
        None => Seq::empty(),
    }
}

/// The four columns of a message's row: timestamp, sender, body, attachment.
pub open spec fn row_fields(m: Message) -> Seq<Seq<char>> {
    seq![m.date@, sender_column(m), m.body@, attachment_column(m)]
}

/// The record that one message becomes.
pub open spec fn row_of(m: Message) -> Seq<char> {
    csv_record_of(row_fields(m))
}

/// The records of a page, one per message, in the page's order.
pub open spec fn rows_of(page: Seq<Message>) -> Seq<Seq<char>> {
    page.map_values(|m: Message| row_of(m))
}

/// The text a page encodes to: its rows one after the other, no header.
pub open spec fn encoded_page(page: Seq<Message>) -> Seq<char> {
    rows_of(page).flatten()
}

/// Why a page could not be encoded.
#[derive(Debug, PartialEq, Eq, Structural)]
pub enum EncodeError {
    /// The CSV writer refused the record of the message at this position.
    Record(usize),
}

/// The four columns of a message, a missing sender or attachment giving an
/// empty column.
pub fn message_fields(m: &Message) -> (r: Vec<String>)
    ensures
        r@.len() == 4,
        r@.map_values(|f: String| f@) == row_fields(*m),
{
    let sender = match &m.sender {
        Some(s) => s.clone(),
        None => String::new(),
    };
    let attachment = match &m.attachment {
        Some(a) => a.name.clone(),
        None => String::new(),
    };
    let r = vec![m.date.clone(), sender, m.body.clone(), attachment];
    assert(r@.map_values(|f: String| f@) =~= row_fields(*m));
    r
}

/// Encodes a page, one CSV record per message in the page's order. An empty
/// page encodes to the empty text. Every field can be encoded, a missing
/// sender or attachment included, so the encoding always succeeds.
pub fn encode_messages(page: &Vec<Message>) -> (r: Result<String, EncodeError>)
    ensures
        r matches Ok(s) && s@ == encoded_page(page@),
        page@.len() == 0 ==> (r matches Ok(s) && s@.len() == 0),
{
    let mut out = String::new();
    let mut i: usize = 0;
    while i < page.len()
        invariant
            i <= page@.len(),
            out@ == encoded_page(page@.subrange(0, i as int)),
        decreases page@.len() - i,
    {
        let fields = message_fields(&page[i]);
        let row = match csv_record(&fields) {
            Ok(row) => row,
            Err(()) => return Err(EncodeError::Record(i)),
        };
        proof {
            let before = page@.subrange(0, i as int);
            let after = page@.subrange(0, i + 1);
            assert(after =~= before.push(page@[i as int]));
            assert(rows_of(after) =~= rows_of(before).push(row_of(page@[i as int])));
            rows_of(before).lemma_flatten_push(row_of(page@[i as int]));
        }
        out.append(row.as_str());
        i = i + 1;
    }
    assert(page@.subrange(0, i as int) =~= page@);
    Ok(out)
}

/// Each message of a page becomes exactly one record of four fields,
/// timestamp, sender, body and attachment name, and the records follow the
/// page's order.
pub proof fn lemma_one_record_per_message(page: Seq<Message>)
    ensures
        rows_of(page).len() == page.len(),
        encoded_page(page) == rows_of(page).flatten(),
        forall|i: int|
            0 <= i < page.len() ==> {
                &&& #[trigger] rows_of(page)[i] == csv_record_of(row_fields(page[i]))
                &&& row_fields(page[i]).len() == 4
                &&& row_fields(page[i])[0] == page[i].date@
                &&& row_fields(page[i])[1] == sender_column(page[i])
                &&& row_fields(page[i])[2] == page[i].body@
                &&& row_fields(page[i])[3] == attachment_column(page[i])
            },
{
}

/// An empty page encodes to nothing, so appending it leaves a log unchanged.
pub proof fn lemma_empty_page_appends_nothing(log: Seq<char>)
    ensures
        encoded_page(Seq::empty()).len() == 0,
        log + encoded_page(Seq::empty()) == log,
{
    assert(rows_of(Seq::<Message>::empty()) =~= Seq::empty());
    assert(log + encoded_page(Seq::empty()) =~= log);
}

/// Pages appended one after the other give the encoding of all their
/// messages in order.
pub proof fn lemma_pages_accumulate(first: Seq<Message>, second: Seq<Message>)
    ensures
        encoded_page(first) + encoded_page(second) == encoded_page(first + second),
{
    assert(rows_of(first + second) =~= rows_of(first) + rows_of(second));
    lemma_flatten_concat(rows_of(first), rows_of(second));
}

/// A message with no sender has an empty sender column; one with no
/// attachment has an empty attachment column.
pub proof fn lemma_missing_fields_are_empty(m: Message)
    ensures
        m.sender is None ==> row_fields(m)[1].len() == 0,
        m.attachment is None ==> row_fields(m)[3].len() == 0,
{
}

} // verus!
