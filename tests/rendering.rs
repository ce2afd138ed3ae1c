use abuse_feed::filter::{IocFilter, UrlFilter};
use abuse_feed::records::{IocEntry, UrlEntry};
use abuse_feed::run::{
    feed_request, format_from_flag, format_of_lowered, plan_ioc_output, plan_url_output,
    select_feed, Encoding, Feed, IocOutput, OutputFormat, UrlOutput,
};
use abuse_feed::stamp::{date_bound, Stamp};
use abuse_feed::table::{ioc_csv, ioc_fields, url_csv, url_fields};

fn url_entry(id: &str, url: &str, status: &str, reporter: &str, when: &str) -> UrlEntry {
    UrlEntry {
        url_id: id.to_string(),
        url: url.to_string(),
        url_status: status.to_string(),
        dateadded: Stamp::from_feed(when).unwrap(),
        reporter: reporter.to_string(),
        threat: "malware_download".to_string(),
        tags: vec!["emotet".to_string(), "epoch5".to_string()],
        urlhaus_reference: format!("https://urlhaus.abuse.ch/url/{}/", id),
    }
}

fn ioc_entry(id: &str, ioc_type: &str) -> IocEntry {
    IocEntry {
        id: id.to_string(),
        ioc: "http://bad.example/\"q\"".to_string(),
        threat_type: "payload_delivery".to_string(),
        threat_type_desc: "Indicator that serves a payload".to_string(),
        ioc_type: ioc_type.to_string(),
        ioc_type_desc: "URL".to_string(),
        malware: "win.emotet".to_string(),
        malware_printable: "Emotet".to_string(),
        malware_alias: "Geodo".to_string(),
        malware_malpedia: "https://malpedia.example/win.emotet".to_string(),
        confidence_level: -5,
        first_seen: Stamp::from_feed("2024-01-02 03:04:05").unwrap(),
        reporter: "abuse_ch".to_string(),
        tags: vec!["a".to_string(), "b".to_string()],
    }
}

#[test]
fn csv_two_rows_three_lines_quoted_and_defanged() {
    let entries = vec![
        url_entry("10", "http://one.example/a", "online", "r1", "2024-01-02 03:04:05"),
        url_entry("11", "https://two.example/http", "offline", "r2", "2024-01-02 04:00:00"),
    ];
    let doc = url_csv(&entries);
    let lines: Vec<&str> = doc.lines().collect();
    assert_eq!(lines.len(), 3);
    assert_eq!(lines[0], "\"url_id\",\"url\",\"url_status\",\"dateadded\",\"reporter\",\"threat\",\"tags\"");
    assert_eq!(
        lines[1],
        "\"10\",\"hxxp://one.example/a\",\"online\",\"2024-01-02 03:04:05 UTC\",\"r1\",\"malware_download\",\"emotet:epoch5\""
    );
    assert_eq!(
        lines[2],
        "\"11\",\"hxxps://two.example/hxxp\",\"offline\",\"2024-01-02 04:00:00 UTC\",\"r2\",\"malware_download\",\"emotet:epoch5\""
    );
    assert!(doc.ends_with('\n'));
}

#[test]
fn csv_of_no_entries_is_header_only() {
    let doc = url_csv(&Vec::new());
    assert_eq!(doc, "\"url_id\",\"url\",\"url_status\",\"dateadded\",\"reporter\",\"threat\",\"tags\"\n");
}

#[test]
fn ioc_csv_quotes_doubles_and_formats() {
    let doc = ioc_csv(&vec![ioc_entry("7", "url")]);
    let lines: Vec<&str> = doc.lines().collect();
    assert_eq!(lines.len(), 2);
    assert_eq!(
        lines[0],
        "\"id\",\"ioc\",\"threat_type\",\"threat_type_desc\",\"ioc_type\",\"ioc_type_desc\",\"malware\",\"malware_printable\",\"malware_alias\",\"malware_malpedia\",\"confidence_level\",\"first_seen\",\"reporter\",\"tags\""
    );
    assert_eq!(
        lines[1],
        "\"7\",\"hxxp://bad.example/\"\"q\"\"\",\"payload_delivery\",\"Indicator that serves a payload\",\"url\",\"URL\",\"win.emotet\",\"Emotet\",\"Geodo\",\"https://malpedia.example/win.emotet\",\"-5\",\"2024-01-02 03:04:05 UTC\",\"abuse_ch\",\"a:b\""
    );
}

#[test]
fn row_fields_follow_schema_order() {
    let e = url_entry("3", "http://x", "online", "me", "2024-01-02 03:04:05");
    assert_eq!(
        url_fields(&e),
        vec!["3", "hxxp://x", "online", "2024-01-02 03:04:05 UTC", "me", "malware_download", "emotet:epoch5"]
    );
    let i = ioc_entry("9", "domain");
    let f = ioc_fields(&i);
    assert_eq!(f.len(), 14);
    assert_eq!(f[1], "hxxp://bad.example/\"q\"");
    assert_eq!(f[10], "-5");
    assert_eq!(f[13], "a:b");
}

#[test]
fn api_value_selects_feed() {
    assert_eq!(select_feed("threatfox"), Feed::Threatfox);
    assert_eq!(select_feed("my-threatfox-mirror"), Feed::Threatfox);
    assert_eq!(select_feed("urlhaus"), Feed::Urlhaus);
    assert_eq!(select_feed("ThreatFox"), Feed::Urlhaus);
    assert_eq!(select_feed(""), Feed::Urlhaus);
}

#[test]
fn requests_have_feed_specific_shape() {
    let r = feed_request(Feed::Threatfox, "emotet");
    assert_eq!(r.endpoint, "https://threatfox-api.abuse.ch/api/v1/");
    assert_eq!(r.encoding, Encoding::Json);
    assert_eq!(
        r.fields,
        vec![
            ("query".to_string(), "taginfo".to_string()),
            ("tag".to_string(), "emotet".to_string()),
            ("limit".to_string(), "1000".to_string()),
        ]
    );
    let u = feed_request(Feed::Urlhaus, "qakbot");
    assert_eq!(u.endpoint, "https://urlhaus-api.abuse.ch/v1/tag");
    assert_eq!(u.encoding, Encoding::Form);
    assert_eq!(u.fields, vec![("tag".to_string(), "qakbot".to_string())]);
}

#[test]
fn format_flag_is_case_insensitive() {
    assert_eq!(format_from_flag(None), OutputFormat::Console);
    assert_eq!(format_from_flag(Some("JSON")), OutputFormat::Json);
    assert_eq!(format_from_flag(Some("Csv")), OutputFormat::Csv);
    assert_eq!(format_from_flag(Some("xml")), OutputFormat::Console);
    assert_eq!(format_of_lowered("json"), OutputFormat::Json);
    assert_eq!(format_of_lowered("JSON"), OutputFormat::Console);
}

fn sample() -> Vec<UrlEntry> {
    vec![
        url_entry("1", "http://a.example", "online", "r", "2024-01-02 01:00:00"),
        url_entry("2", "http://b.example", "offline", "r", "2024-01-02 02:00:00"),
        url_entry("3", "http://c.example", "online", "r", "2023-12-31 02:00:00"),
    ]
}

#[test]
fn json_mode_keeps_every_entry_unfiltered() {
    let f = UrlFilter::from_days(true, true, "nobody".to_string(), "20240102", "20240102", 0);
    match plan_url_output(OutputFormat::Json, sample(), &f) {
        UrlOutput::Json(all) => {
            let ids: Vec<String> = all.iter().map(|e| e.url_id.clone()).collect();
            assert_eq!(ids, vec!["1", "2", "3"]);
        }
        other => panic!("unexpected plan {:?}", other),
    }
    let g = IocFilter::from_days(String::new(), "url".to_string(), "20240102", "20240102", 0);
    match plan_ioc_output(OutputFormat::Json, vec![ioc_entry("1", "url")], &g) {
        IocOutput::Json(all) => assert_eq!(all.len(), 1),
        other => panic!("unexpected plan {:?}", other),
    }
}

#[test]
fn console_mode_takes_filtered_entries() {
    let f = UrlFilter::from_days(false, false, String::new(), "20240102", "20240103", 0);
    match plan_url_output(OutputFormat::Console, sample(), &f) {
        UrlOutput::Console(kept) => {
            let ids: Vec<String> = kept.iter().map(|e| e.url_id.clone()).collect();
            assert_eq!(ids, vec!["1", "2"]);
        }
        other => panic!("unexpected plan {:?}", other),
    }
}

#[test]
fn csv_mode_today_online_only() {
    let today = "20240102";
    let now = date_bound(today, 0);
    let f = UrlFilter::from_days(false, true, String::new(), today, today, now);
    let entries = vec![
        url_entry("1", "http://a.example", "online", "r", "2024-01-02 00:00:00"),
        url_entry("2", "http://b.example", "offline", "r", "2024-01-02 00:00:00"),
        url_entry("3", "https://c.example", "online", "r", "2024-01-02 00:00:00"),
        url_entry("4", "http://d.example", "online", "r", "2024-01-01 23:59:59"),
    ];
    let r = feed_request(select_feed("urlhaus"), "emotet");
    assert_eq!(r.fields[0].1, "emotet");
    match plan_url_output(format_from_flag(Some("csv")), entries, &f) {
        UrlOutput::Csv(doc) => {
            let lines: Vec<&str> = doc.lines().collect();
            assert_eq!(lines.len(), 3);
            assert_eq!(
                lines[1],
                "\"1\",\"hxxp://a.example\",\"online\",\"2024-01-02 00:00:00 UTC\",\"r\",\"malware_download\",\"emotet:epoch5\""
            );
            assert_eq!(
                lines[2],
                "\"3\",\"hxxps://c.example\",\"online\",\"2024-01-02 00:00:00 UTC\",\"r\",\"malware_download\",\"emotet:epoch5\""
            );
        }
        other => panic!("unexpected plan {:?}", other),
    }
}
