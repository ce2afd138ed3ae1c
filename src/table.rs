//! Rendering of entries as CSV: one header row per feed, one row per entry,
//! every field quoted, the indicator column defanged and tags joined by `:`.

use crate::records::{IocEntry, UrlEntry};
use crate::text::{decimal, defang, defanged, int_text, join_tags, joined_tags};
use csv::{QuoteStyle, WriterBuilder};
use vstd::prelude::*;
use vstd::string::*;

verus! {

/// A field's characters with every `"` doubled.
pub open spec fn doubled_quotes(f: Seq<char>) -> Seq<char>
    decreases f.len(),
{
    if f.len() == 0 {
        f
    } else {
        doubled_quotes(f.drop_last()) + if f.last() == '"' { seq!['"', '"'] } else { seq![f.last()] }
    }
}

/// A field between quotes, inner quotes doubled.
pub open spec fn quoted_field(f: Seq<char>) -> Seq<char> {
    seq!['"'] + doubled_quotes(f) + seq!['"']
}

/// Quoted fields separated by commas.
pub open spec fn joined_fields(fields: Seq<Seq<char>>) -> Seq<char>
    decreases fields.len(),
{
    if fields.len() == 0 {
        Seq::empty()
    } else if fields.len() == 1 {
        quoted_field(fields[0])
    } else {
        joined_fields(fields.drop_last()) + seq![','] + quoted_field(fields.last())
    }
}

/// One CSV record with every field quoted, ended by a newline.
pub open spec fn csv_line(fields: Seq<Seq<char>>) -> Seq<char> {
    joined_fields(fields) + seq!['\n']
}

/// The lines of all records, one after the other.
pub open spec fn csv_text(rows: Seq<Seq<Seq<char>>>) -> Seq<char>
    decreases rows.len(),
{
    if rows.len() == 0 {
        Seq::empty()
    } else {
        csv_text(rows.drop_last()) + csv_line(rows.last())
    }
}

/// Relies on csv's `Writer::write_record` under a `WriterBuilder` with
/// `QuoteStyle::Always` and otherwise default settings (`,` delimiter, `"`
/// quote doubled inside fields, `\n` terminator), writing one record into a
/// fresh in-memory writer, then `Writer::into_inner`. Writing into a `Vec<u8>`
/// cannot fail, one record cannot trip the field-count check, and UTF-8 fields
/// with ASCII quoting stay UTF-8. A record with no fields is written
/// differently (as `""`), so it is not admitted.
#[verifier::external_body]
fn encode_record(fields: &Vec<String>) -> (r: String)
    requires
        fields@.len() > 0,
    ensures
        r@ == csv_line(fields.deep_view()),
{
    let mut w = WriterBuilder::new().quote_style(QuoteStyle::Always).from_writer(Vec::new());
    w.write_record(fields).expect("writing to memory cannot fail");
    let bytes = w.into_inner().expect("flushing to memory cannot fail");
    String::from_utf8(bytes).expect("quoted UTF-8 fields stay UTF-8")
}

fn owned(s: &str) -> (r: String)
    ensures
        r@ == s@,
{
    String::from_str(s)
}

/// Column names of the URL feed's CSV.
pub open spec fn url_header() -> Seq<Seq<char>> {
    seq![
        "url_id"@, "url"@, "url_status"@, "dateadded"@, "reporter"@, "threat"@, "tags"@,
    ]
}

/// Column names of the indicator feed's CSV.
pub open spec fn ioc_header() -> Seq<Seq<char>> {
    seq![
        "id"@, "ioc"@, "threat_type"@, "threat_type_desc"@, "ioc_type"@, "ioc_type_desc"@,
        "malware"@, "malware_printable"@, "malware_alias"@, "malware_malpedia"@,
        "confidence_level"@, "first_seen"@, "reporter"@, "tags"@,
    ]
}

/// The CSV fields of a URL entry.
pub open spec fn url_row(e: UrlEntry) -> Seq<Seq<char>> {
    seq![
        e.url_id@, defanged(e.url@), e.url_status@, e.dateadded.text@, e.reporter@, e.threat@,
        joined_tags(e.tags.deep_view()),
    ]
}

/// The CSV fields of an indicator entry.
pub open spec fn ioc_row(e: IocEntry) -> Seq<Seq<char>> {
    seq![
        e.id@, defanged(e.ioc@), e.threat_type@, e.threat_type_desc@, e.ioc_type@,
        e.ioc_type_desc@, e.malware@, e.malware_printable@, e.malware_alias@,
        e.malware_malpedia@, decimal(e.confidence_level as int), e.first_seen.text@, e.reporter@,
        joined_tags(e.tags.deep_view()),
    ]
}

/// The rows of a URL CSV document: the header, then one row per entry.
pub open spec fn url_rows(entries: Seq<UrlEntry>) -> Seq<Seq<Seq<char>>> {
    seq![url_header()] + entries.map_values(|e: UrlEntry| url_row(e))
}

/// The rows of an indicator CSV document: the header, then one row per entry.
pub open spec fn ioc_rows(entries: Seq<IocEntry>) -> Seq<Seq<Seq<char>>> {
    seq![ioc_header()] + entries.map_values(|e: IocEntry| ioc_row(e))
}

/// The header row of the URL feed.
pub fn url_header_fields() -> (r: Vec<String>)
    ensures
        r.deep_view() == url_header(),
{
    let r = vec![
        owned("url_id"), owned("url"), owned("url_status"), owned("dateadded"),
        owned("reporter"), owned("threat"), owned("tags"),
    ];
    assert(r.deep_view() =~= url_header());
    r
}

/// The header row of the indicator feed.
pub fn ioc_header_fields() -> (r: Vec<String>)
    ensures
        r.deep_view() == ioc_header(),
{
    let r = vec![
        owned("id"), owned("ioc"), owned("threat_type"), owned("threat_type_desc"),
        owned("ioc_type"), owned("ioc_type_desc"), owned("malware"), owned("malware_printable"),
        owned("malware_alias"), owned("malware_malpedia"), owned("confidence_level"),
        owned("first_seen"), owned("reporter"), owned("tags"),
    ];
    assert(r.deep_view() =~= ioc_header());
    r
}

/// The CSV fields of one URL entry.
pub fn url_fields(e: &UrlEntry) -> (r: Vec<String>)
    ensures
        r.deep_view() == url_row(*e),
{
    let r = vec![
        owned(e.url_id.as_str()), defang(e.url.as_str()), owned(e.url_status.as_str()),
        owned(e.dateadded.text.as_str()), owned(e.reporter.as_str()), owned(e.threat.as_str()),
        join_tags(&e.tags),
    ];
    assert(r.deep_view() =~= url_row(*e));
    r
}

/// The CSV fields of one indicator entry.
pub fn ioc_fields(e: &IocEntry) -> (r: Vec<String>)
    ensures
        r.deep_view() == ioc_row(*e),
{
    let r = vec![
        owned(e.id.as_str()), defang(e.ioc.as_str()), owned(e.threat_type.as_str()),
        owned(e.threat_type_desc.as_str()), owned(e.ioc_type.as_str()),
        owned(e.ioc_type_desc.as_str()), owned(e.malware.as_str()),
        owned(e.malware_printable.as_str()), owned(e.malware_alias.as_str()),
        owned(e.malware_malpedia.as_str()), int_text(e.confidence_level),
        owned(e.first_seen.text.as_str()), owned(e.reporter.as_str()), join_tags(&e.tags),
    ];
    assert(r.deep_view() =~= ioc_row(*e));
    r
}

/// The CSV document for URL entries: the header, then one row per
/// entry, in order.
pub fn url_csv(entries: &Vec<UrlEntry>) -> (r: String)
    ensures
        r@ == csv_text(url_rows(entries@)),
{
    let ghost rows = url_rows(entries@);
    let mut out = encode_record(&url_header_fields());
    proof {
        let first = rows.subrange(0, 1);
        assert(first.drop_last() =~= Seq::<Seq<Seq<char>>>::empty());
        assert(csv_text(first.drop_last()) == Seq::<char>::empty());
        assert(first.last() == url_header());
        assert(csv_text(first) =~= Seq::<char>::empty() + csv_line(url_header()));
        assert(out@ =~= csv_text(first));
    }
    let mut i: usize = 0;
    while i < entries.len()
        invariant
            i <= entries@.len(),
            rows == url_rows(entries@),
            out@ == csv_text(rows.subrange(0, i + 1)),
        decreases entries@.len() - i,
    {
        let fields = url_fields(&entries[i]);
        assert(fields@.len() == fields.deep_view().len());
        let line = encode_record(&fields);
        out.append(line.as_str());
        assert(rows.subrange(0, i + 2).drop_last() =~= rows.subrange(0, i + 1));
        i = i + 1;
    }
    assert(rows.subrange(0, i + 1) =~= rows);
    out
}

/// The CSV document for indicator entries: the header, then one row per
/// entry, in order.
pub fn ioc_csv(entries: &Vec<IocEntry>) -> (r: String)
    ensures
        r@ == csv_text(ioc_rows(entries@)),
{
    let ghost rows = ioc_rows(entries@);
    let mut out = encode_record(&ioc_header_fields());
    proof {
        let first = rows.subrange(0, 1);
        assert(first.drop_last() =~= Seq::<Seq<Seq<char>>>::empty());
        assert(csv_text(first.drop_last()) == Seq::<char>::empty());
        assert(first.last() == ioc_header());
        assert(csv_text(first) =~= Seq::<char>::empty() + csv_line(ioc_header()));
        assert(out@ =~= csv_text(first));
    }
    let mut i: usize = 0;
    while i < entries.len()
        invariant
            i <= entries@.len(),
            rows == ioc_rows(entries@),
            out@ == csv_text(rows.subrange(0, i + 1)),
        decreases entries@.len() - i,
    {
        let fields = ioc_fields(&entries[i]);
        assert(fields@.len() == fields.deep_view().len());
        let line = encode_record(&fields);
        out.append(line.as_str());
        assert(rows.subrange(0, i + 2).drop_last() =~= rows.subrange(0, i + 1));
        i = i + 1;
    }
    assert(rows.subrange(0, i + 1) =~= rows);
    out
}

} // verus!
