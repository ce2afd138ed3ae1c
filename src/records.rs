//! The two record families the feeds return, and their envelopes.

use crate::stamp::Stamp;
use vstd::prelude::*;

verus! {

/// One entry of the URL-reputation feed.
#[derive(Debug)]
pub struct UrlEntry {
    pub url_id: String,
    pub url: String,
    pub url_status: String,
    pub dateadded: Stamp,
    pub reporter: String,
    pub threat: String,
    pub tags: Vec<String>,
    pub urlhaus_reference: String,
}

/// The URL-reputation feed's answer to a tag query.
#[derive(Debug)]
pub struct UrlResponse {
    pub query_status: String,
    pub firstseen: Stamp,
    pub lastseen: Stamp,
    pub url_count: String,
    pub urls: Vec<UrlEntry>,
}

/// One entry of the indicator-of-compromise feed.
#[derive(Debug)]
pub struct IocEntry {
    pub id: String,
    pub ioc: String,
    pub threat_type: String,
    pub threat_type_desc: String,
    pub ioc_type: String,
    pub ioc_type_desc: String,
    pub malware: String,
    pub malware_printable: String,
    pub malware_alias: String,
    pub malware_malpedia: String,
    pub confidence_level: i32,
    pub first_seen: Stamp,
    pub reporter: String,
    pub tags: Vec<String>,
}

/// The indicator feed's answer to a tag query.
#[derive(Debug)]
pub struct IocResponse {
    pub query_status: String,
    pub data: Vec<IocEntry>,
}

} // verus!
