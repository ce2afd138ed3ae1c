//! The conjunctive filters applied to a feed's entries: status, reporter,
//! indicator type and date window.

use crate::records::{IocEntry, UrlEntry};
use crate::stamp::{date_bound, day_bound, in_date_range, within};
use crate::text::{contains_text, has_substring};
use vstd::prelude::*;
use vstd::string::*;

verus! {

/// The status text `online`.
pub open spec fn online_chars() -> Seq<char> {
    seq!['o', 'n', 'l', 'i', 'n', 'e']
}

/// The status text `offline`.
pub open spec fn offline_chars() -> Seq<char> {
    seq!['o', 'f', 'f', 'l', 'i', 'n', 'e']
}

/// A status passes when it is `online` and online entries are kept, or
/// `offline` and offline entries are kept. Any other status never passes.
pub open spec fn status_kept(status: Seq<char>, exclude_online: bool, exclude_offline: bool) -> bool {
    (status == online_chars() && !exclude_online) || (status == offline_chars() && !exclude_offline)
}

/// The status predicate of the URL feed.
pub fn status_passes(status: &String, exclude_online: bool, exclude_offline: bool) -> (r: bool)
    ensures
        r == status_kept(status@, exclude_online, exclude_offline),
{
    let online = String::from_str("online");
    let offline = String::from_str("offline");
    proof {
        reveal_strlit("online");
        reveal_strlit("offline");
        assert("online"@ =~= online_chars());
        assert("offline"@ =~= offline_chars());
    }
    (*status == online && !exclude_online) || (*status == offline && !exclude_offline)
}

/// The operator's choices for the URL feed, with the date window already
/// turned into millisecond bounds.
#[derive(Debug)]
pub struct UrlFilter {
    pub exclude_online: bool,
    pub exclude_offline: bool,
    pub reporter: String,
    pub from_ms: i64,
    pub to_ms: i64,
}

/// The operator's choices for the indicator feed.
#[derive(Debug)]
pub struct IocFilter {
    pub reporter: String,
    pub exclude_ioc: String,
    pub from_ms: i64,
    pub to_ms: i64,
}

/// Whether a URL entry survives the filter.
pub open spec fn url_kept(e: UrlEntry, f: UrlFilter) -> bool {
    &&& status_kept(e.url_status@, f.exclude_online, f.exclude_offline)
    &&& has_substring(e.reporter@, f.reporter@)
    &&& within(e.dateadded.millis as int, f.from_ms as int, f.to_ms as int)
}

/// Whether an indicator entry survives the filter.
pub open spec fn ioc_kept(e: IocEntry, f: IocFilter) -> bool {
    &&& has_substring(e.reporter@, f.reporter@)
    &&& !has_substring(e.ioc_type@, f.exclude_ioc@)
    &&& within(e.first_seen.millis as int, f.from_ms as int, f.to_ms as int)
}

/// The URL entries that survive `f`, in the order given.
pub open spec fn kept_urls(entries: Seq<UrlEntry>, f: UrlFilter) -> Seq<UrlEntry> {
    entries.filter(|e: UrlEntry| url_kept(e, f))
}

/// The indicator entries that survive `f`, in the order given.
pub open spec fn kept_iocs(entries: Seq<IocEntry>, f: IocFilter) -> Seq<IocEntry> {
    entries.filter(|e: IocEntry| ioc_kept(e, f))
}

impl UrlFilter {
    /// Builds the filter from the operator's `YYYYMMDD` days; a day that does
    /// not parse becomes `now_ms`.
    pub fn from_days(
        exclude_online: bool,
        exclude_offline: bool,
        reporter: String,
        date_from: &str,
        date_to: &str,
        now_ms: i64,
    ) -> (r: UrlFilter)
        ensures
            r.exclude_online == exclude_online,
            r.exclude_offline == exclude_offline,
            r.reporter == reporter,
            r.from_ms == day_bound(date_from@, now_ms),
            r.to_ms == day_bound(date_to@, now_ms),
    {
        UrlFilter {
            exclude_online,
            exclude_offline,
            reporter,
            from_ms: date_bound(date_from, now_ms),
            to_ms: date_bound(date_to, now_ms),
        }
    }

    /// The filter's verdict on one entry.
    pub fn passes(&self, e: &UrlEntry) -> (r: bool)
        ensures
            r == url_kept(*e, *self),
    {
        status_passes(&e.url_status, self.exclude_online, self.exclude_offline)
            && contains_text(e.reporter.as_str(), self.reporter.as_str())
            && in_date_range(e.dateadded.millis, self.from_ms, self.to_ms)
    }

    /// The entries that pass, in the order given.
    pub fn apply(&self, entries: Vec<UrlEntry>) -> (r: Vec<UrlEntry>)
        ensures
            r@ == kept_urls(entries@, *self),
    {
        let ghost all = entries@;
        let ghost pred = |e: UrlEntry| url_kept(e, *self);
        let mut rest = entries;
        let mut out: Vec<UrlEntry> = Vec::new();
        let ghost mut k: int = 0;
        proof {
            reveal(Seq::filter);
            assert(all.subrange(0, 0).filter(pred) =~= Seq::<UrlEntry>::empty());
        }
        while rest.len() > 0
            invariant
                0 <= k <= all.len(),
                rest@ == all.subrange(k, all.len() as int),
                out@ == all.subrange(0, k).filter(pred),
                pred == (|e: UrlEntry| url_kept(e, *self)),
            decreases rest@.len(),
        {
            let e = rest.remove(0);
            proof {
                assert(e == all[k]);
                assert(all.subrange(0, k + 1).drop_last() =~= all.subrange(0, k));
                assert(all.subrange(0, k + 1).last() == e);
                reveal(Seq::filter);
            }
            if self.passes(&e) {
                out.push(e);
            }
            proof {
                k = k + 1;
                assert(rest@ =~= all.subrange(k, all.len() as int));
            }
        }
        assert(all.subrange(0, k) =~= all);
        out
    }
}

impl IocFilter {
    /// Builds the filter from the operator's `YYYYMMDD` days; a day that does
    /// not parse becomes `now_ms`.
    pub fn from_days(
        reporter: String,
        exclude_ioc: String,
        date_from: &str,
        date_to: &str,
        now_ms: i64,
    ) -> (r: IocFilter)
        ensures
            r.reporter == reporter,
            r.exclude_ioc == exclude_ioc,
            r.from_ms == day_bound(date_from@, now_ms),
            r.to_ms == day_bound(date_to@, now_ms),
    {
        IocFilter {
            reporter,
            exclude_ioc,
            from_ms: date_bound(date_from, now_ms),
            to_ms: date_bound(date_to, now_ms),
        }
    }

    /// The filter's verdict on one entry.
    pub fn passes(&self, e: &IocEntry) -> (r: bool)
        ensures
            r == ioc_kept(*e, *self),
    {
        contains_text(e.reporter.as_str(), self.reporter.as_str())
            && !contains_text(e.ioc_type.as_str(), self.exclude_ioc.as_str())
            && in_date_range(e.first_seen.millis, self.from_ms, self.to_ms)
    }

    /// The entries that pass, in the order given.
    pub fn apply(&self, entries: Vec<IocEntry>) -> (r: Vec<IocEntry>)
        ensures
            r@ == kept_iocs(entries@, *self),
    {
        let ghost all = entries@;
        let ghost pred = |e: IocEntry| ioc_kept(e, *self);
        let mut rest = entries;
        let mut out: Vec<IocEntry> = Vec::new();
        let ghost mut k: int = 0;
        proof {
            reveal(Seq::filter);
            assert(all.subrange(0, 0).filter(pred) =~= Seq::<IocEntry>::empty());
        }
        while rest.len() > 0
            invariant
                0 <= k <= all.len(),
                rest@ == all.subrange(k, all.len() as int),
                out@ == all.subrange(0, k).filter(pred),
                pred == (|e: IocEntry| ioc_kept(e, *self)),
            decreases rest@.len(),
        {
            let e = rest.remove(0);
            proof {
                assert(e == all[k]);
                assert(all.subrange(0, k + 1).drop_last() =~= all.subrange(0, k));
                assert(all.subrange(0, k + 1).last() == e);
                reveal(Seq::filter);
            }
            if self.passes(&e) {
                out.push(e);
            }
            proof {
                k = k + 1;
                assert(rest@ =~= all.subrange(k, all.len() as int));
            }
        }
        assert(all.subrange(0, k) =~= all);
        out
    }
}

/// With neither status excluded, `online` and `offline` entries pass the
/// status predicate and every other status fails it.
pub proof fn status_nothing_excluded(status: Seq<char>)
    ensures
        status_kept(status, false, false) <==> (status == online_chars() || status == offline_chars()),
{
}

/// The empty reporter text occurs in every reporter field.
pub proof fn empty_reporter_matches(reporter: Seq<char>)
    ensures
        has_substring(reporter, Seq::<char>::empty()),
{
    let p = Seq::<char>::empty();
    assert(reporter.subrange(0int, 0int + p.len()) =~= p);
}

/// With an empty reporter text the reporter clause constrains nothing; with
/// any reporter text, every URL entry that survives holds it in its reporter.
pub proof fn url_reporter_filter(entries: Seq<UrlEntry>, f: UrlFilter)
    ensures
        f.reporter@.len() == 0 ==> forall|e: UrlEntry| #[trigger] url_kept(e, f) == (
            status_kept(e.url_status@, f.exclude_online, f.exclude_offline)
            && within(e.dateadded.millis as int, f.from_ms as int, f.to_ms as int)),
        forall|i: int| 0 <= i < kept_urls(entries, f).len()
            ==> has_substring(#[trigger] kept_urls(entries, f)[i].reporter@, f.reporter@),
{
    if f.reporter@.len() == 0 {
        assert forall|e: UrlEntry| #[trigger] url_kept(e, f) == (
            status_kept(e.url_status@, f.exclude_online, f.exclude_offline)
            && within(e.dateadded.millis as int, f.from_ms as int, f.to_ms as int)) by {
            empty_reporter_matches(e.reporter@);
            assert(f.reporter@ =~= Seq::<char>::empty());
        }
    }
    broadcast use vstd::seq_lib::group_filter_ensures;
}

/// The same for the indicator feed: an empty reporter text constrains
/// nothing, and every surviving entry holds the reporter text.
pub proof fn ioc_reporter_filter(entries: Seq<IocEntry>, f: IocFilter)
    ensures
        f.reporter@.len() == 0 ==> forall|e: IocEntry| #[trigger] ioc_kept(e, f) == (
            !has_substring(e.ioc_type@, f.exclude_ioc@)
            && within(e.first_seen.millis as int, f.from_ms as int, f.to_ms as int)),
        forall|i: int| 0 <= i < kept_iocs(entries, f).len()
            ==> has_substring(#[trigger] kept_iocs(entries, f)[i].reporter@, f.reporter@),
{
    if f.reporter@.len() == 0 {
        assert forall|e: IocEntry| #[trigger] ioc_kept(e, f) == (
            !has_substring(e.ioc_type@, f.exclude_ioc@)
            && within(e.first_seen.millis as int, f.from_ms as int, f.to_ms as int)) by {
            empty_reporter_matches(e.reporter@);
            assert(f.reporter@ =~= Seq::<char>::empty());
        }
    }
    broadcast use vstd::seq_lib::group_filter_ensures;
}

} // verus!
