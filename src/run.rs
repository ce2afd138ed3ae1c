//! The decisions of one run: which feed, what request, which output mode,
//! and what that mode renders.

use crate::filter::{kept_iocs, kept_urls, IocFilter, UrlFilter};
use crate::records::{IocEntry, UrlEntry};
use crate::table::{csv_text, ioc_csv, ioc_rows, url_csv, url_rows};
use crate::text::{contains_text, has_substring};
use vstd::prelude::*;
use vstd::string::*;

verus! {

/// The two feeds.
#[derive(Debug, Clone, Copy, PartialEq, Eq, Structural)]
pub enum Feed {
    /// The URL-reputation feed.
    Urlhaus,
    /// The indicator-of-compromise feed.
    Threatfox,
}

/// The feed an `--api` value selects: any value holding `threatfox` selects
/// the indicator feed, every other value the URL feed.
pub open spec fn feed_of(api: Seq<char>) -> Feed {
    if has_substring(api, "threatfox"@) { Feed::Threatfox } else { Feed::Urlhaus }
}

/// Selects the feed from the `--api` value.
pub fn select_feed(api: &str) -> (r: Feed)
    ensures
        r == feed_of(api@),
{
    if contains_text(api, "threatfox") { Feed::Threatfox } else { Feed::Urlhaus }
}

/// How a request's fields are encoded.
#[derive(Debug, Clone, Copy, PartialEq, Eq, Structural)]
pub enum Encoding {
    /// A JSON object body.
    Json,
    /// A form-encoded body.
    Form,
}

/// The one request a run sends: a POST to `endpoint` with `fields`.
#[derive(Debug)]
pub struct FeedRequest {
    pub endpoint: String,
    pub encoding: Encoding,
    pub fields: Vec<(String, String)>,
}

/// The request fields a feed sends for a tag.
pub open spec fn request_fields(feed: Feed, tag: Seq<char>) -> Seq<(Seq<char>, Seq<char>)> {
    match feed {
        Feed::Threatfox => seq![("query"@, "taginfo"@), ("tag"@, tag), ("limit"@, "1000"@)],
        Feed::Urlhaus => seq![("tag"@, tag)],
    }
}

/// The endpoint of a feed.
pub open spec fn endpoint_of(feed: Feed) -> Seq<char> {
    match feed {
        Feed::Threatfox => "https://threatfox-api.abuse.ch/api/v1/"@,
        Feed::Urlhaus => "https://urlhaus-api.abuse.ch/v1/tag"@,
    }
}

/// The request for `tag` on `feed`: a JSON body for the indicator feed, a
/// form for the URL feed.
pub fn feed_request(feed: Feed, tag: &str) -> (r: FeedRequest)
    ensures
        r.endpoint@ == endpoint_of(feed),
        r.encoding == (if feed == Feed::Threatfox { Encoding::Json } else { Encoding::Form }),
        r.fields.deep_view() == request_fields(feed, tag@),
{
    match feed {
        Feed::Threatfox => {
            let fields = vec![
                (String::from_str("query"), String::from_str("taginfo")),
                (String::from_str("tag"), String::from_str(tag)),
                (String::from_str("limit"), String::from_str("1000")),
            ];
            assert(fields.deep_view() =~= request_fields(feed, tag@));
            FeedRequest {
                endpoint: String::from_str("https://threatfox-api.abuse.ch/api/v1/"),
                encoding: Encoding::Json,
                fields,
            }
        },
        Feed::Urlhaus => {
            let fields = vec![(String::from_str("tag"), String::from_str(tag))];
            assert(fields.deep_view() =~= request_fields(feed, tag@));
            FeedRequest {
                endpoint: String::from_str("https://urlhaus-api.abuse.ch/v1/tag"),
                encoding: Encoding::Form,
                fields,
            }
        },
    }
}

/// The three ways of emitting results.
#[derive(Debug, Clone, Copy, PartialEq, Eq, Structural)]
pub enum OutputFormat {
    /// Pretty JSON of the full entry list, to a file.
    Json,
    /// Quoted CSV of the filtered entries, to a file.
    Csv,
    /// One debug line per filtered entry on the console.
    Console,
}

/// What `str::to_lowercase` gives for `s`.
pub uninterp spec fn lowercase_of(s: Seq<char>) -> Seq<char>;

/// Relies on `str::to_lowercase`: the lowercase mapping depends on the
/// characters alone.
#[verifier::external_body]
fn lowercase(s: &str) -> (r: String)
    ensures
        r@ == lowercase_of(s@),
{
    s.to_lowercase()
}

/// The mode a lowercased format flag names: `json`, `csv`, or anything else
/// for the console.
pub open spec fn format_named(lowered: Seq<char>) -> OutputFormat {
    if lowered == "json"@ {
        OutputFormat::Json
    } else if lowered == "csv"@ {
        OutputFormat::Csv
    } else {
        OutputFormat::Console
    }
}

/// The mode of an already lowercased flag.
pub fn format_of_lowered(lowered: &str) -> (r: OutputFormat)
    ensures
        r == format_named(lowered@),
{
    let s = String::from_str(lowered);
    if s == String::from_str("json") {
        OutputFormat::Json
    } else if s == String::from_str("csv") {
        OutputFormat::Csv
    } else {
        OutputFormat::Console
    }
}

/// The mode the `--format` flag selects, compared without regard to case;
/// no flag means the console.
pub fn format_from_flag(flag: Option<&str>) -> (r: OutputFormat)
    ensures
        flag is None ==> r == OutputFormat::Console,
        flag matches Some(f) ==> r == format_named(lowercase_of(f@)),
{
    match flag {
        None => OutputFormat::Console,
        Some(f) => {
            let lowered = lowercase(f);
            format_of_lowered(lowered.as_str())
        },
    }
}

/// What a run of the URL feed emits.
#[derive(Debug)]
pub enum UrlOutput {
    /// The complete entry list, for pretty JSON.
    Json(Vec<UrlEntry>),
    /// The CSV document of the filtered entries.
    Csv(String),
    /// The filtered entries, one console line each.
    Console(Vec<UrlEntry>),
}

/// What a run of the indicator feed emits.
#[derive(Debug)]
pub enum IocOutput {
    /// The complete entry list, for pretty JSON.
    Json(Vec<IocEntry>),
    /// The CSV document of the filtered entries.
    Csv(String),
    /// The filtered entries, one console line each.
    Console(Vec<IocEntry>),
}

/// Decides what a URL-feed run emits. JSON mode takes every entry, unfiltered;
/// CSV and console modes take the entries that pass `f`.
pub fn plan_url_output(format: OutputFormat, entries: Vec<UrlEntry>, f: &UrlFilter) -> (r: UrlOutput)
    ensures
        format == OutputFormat::Json ==> (r matches UrlOutput::Json(all) && all@ == entries@),
        format == OutputFormat::Csv ==> (r matches UrlOutput::Csv(t) && t@ == csv_text(
            url_rows(kept_urls(entries@, *f)),
        )),
        format == OutputFormat::Console ==> (r matches UrlOutput::Console(kept) && kept@
            == kept_urls(entries@, *f)),
{
    match format {
        OutputFormat::Json => UrlOutput::Json(entries),
        OutputFormat::Csv => {
            let kept = f.apply(entries);
            UrlOutput::Csv(url_csv(&kept))
        },
        OutputFormat::Console => UrlOutput::Console(f.apply(entries)),
    }
}

/// Decides what an indicator-feed run emits. JSON mode takes every entry, unfiltered;
/// CSV and console modes take the entries that pass `f`.
pub fn plan_ioc_output(format: OutputFormat, entries: Vec<IocEntry>, f: &IocFilter) -> (r: IocOutput)
    ensures
        format == OutputFormat::Json ==> (r matches IocOutput::Json(all) && all@ == entries@),
        format == OutputFormat::Csv ==> (r matches IocOutput::Csv(t) && t@ == csv_text(
            ioc_rows(kept_iocs(entries@, *f)),
        )),
        format == OutputFormat::Console ==> (r matches IocOutput::Console(kept) && kept@
            == kept_iocs(entries@, *f)),
{
    match format {
        OutputFormat::Json => IocOutput::Json(entries),
        OutputFormat::Csv => {
            let kept = f.apply(entries);
            IocOutput::Csv(ioc_csv(&kept))
        },
        OutputFormat::Console => IocOutput::Console(f.apply(entries)),
    }
}

} // verus!
