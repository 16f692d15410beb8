//! Visitor history: anonymous visitors, their per-page view sessions, and the
//! report-ingestion path that feeds the engagement tracker.
//!
//! A report carries the visitor id, the entity addressed (a page
//! classification code, plus an object id for categories, items and tags),
//! the page URL and title, and the measured scroll height (in hundredths) and
//! seconds.  Whether the report is a continuation — the visitor already has a
//! session row for this URL — decides whether the totals are counted.

use vstd::prelude::*;
use vstd::pervasive::VecAdditionalExecFns;
use crate::errors::Error;
use crate::stat::{
    can_report, plus_category_stat, plus_item_stat, plus_page_stat, plus_tag_stat, report_row,
    store_table, table_report, EntityKind, StatStore,
};
use crate::text::dec_nat;
use crate::websocket::{event_json, spec_broadcast, ConnectionView, Server};

verus! {

/// An anonymous visitor, identified by a cookie-held id: the device class,
/// the geolocated place names resolved when the visitor was first seen, and
/// the visitor's own cumulative totals.  `created` is in epoch seconds.
#[derive(Clone, Debug)]
pub struct CookieUser {
    pub id: i32,
    pub ip: String,
    pub device: i16,
    pub city_ru: Option<String>,
    pub city_en: Option<String>,
    pub region_ru: Option<String>,
    pub region_en: Option<String>,
    pub country_ru: Option<String>,
    pub country_en: Option<String>,
    pub height: i64,
    pub seconds: i32,
    pub created: i64,
}

/// One visitor's view session on one page: the last reported totals and the
/// page's classification.  `created` is in epoch seconds.
#[derive(Clone, Debug)]
pub struct CookieStat {
    pub id: i32,
    pub user_id: i32,
    pub page: i16,
    pub link: String,
    pub title: String,
    pub height: i64,
    pub seconds: i32,
    pub created: i64,
    pub template: String,
}

/// The session fields a history endpoint answers with.
#[derive(Clone, Debug)]
pub struct HistoryResponse {
    pub id: i32,
    pub link: String,
    pub title: String,
    pub height: i64,
    pub seconds: i32,
    pub template: String,
}

/// The visitor fields an object-history endpoint answers with.
#[derive(Clone, Debug)]
pub struct ObjectResponse {
    pub id: i32,
    pub ip: String,
    pub device: i16,
    pub city_ru: Option<String>,
    pub city_en: Option<String>,
    pub region_ru: Option<String>,
    pub region_en: Option<String>,
    pub country_ru: Option<String>,
    pub country_en: Option<String>,
}

/// One inbound view report, as the web layer hands it over: plain values
/// only, with the scroll height already converted to hundredths.
#[derive(Clone, Debug)]
pub struct HistoryData {
    pub user_id: i32,
    pub object_id: i32,
    pub page_id: i16,
    pub link: String,
    pub title: String,
    pub height: i64,
    pub seconds: i32,
    pub template: String,
}

/// The visitor and session tables.
pub struct HistoryStore {
    pub cookie_users: Vec<CookieUser>,
    pub cookie_stats: Vec<CookieStat>,
    pub next_stat_id: i32,
}

/// Whether some visitor carries this id.
pub open spec fn has_user(users: Seq<CookieUser>, id: i32) -> bool {
    exists|i: int| 0 <= i < users.len() && users[i].id == id
}

/// The visitor that carries this id.
pub open spec fn user_of(users: Seq<CookieUser>, id: i32) -> CookieUser {
    users[choose|i: int| 0 <= i < users.len() && users[i].id == id]
}

/// Whether the visitor already has a session row for this URL: the report is
/// then a continuation.
pub open spec fn is_continuation(stats: Seq<CookieStat>, user_id: i32, link: Seq<char>) -> bool {
    exists|i: int| 0 <= i < stats.len() && stats[i].user_id == user_id && stats[i].link@ == link
}

/// The visitor's session row for this URL.
pub open spec fn session_of(stats: Seq<CookieStat>, user_id: i32, link: Seq<char>) -> CookieStat {
    stats[choose|i: int|
        0 <= i < stats.len() && stats[i].user_id == user_id && stats[i].link@ == link]
}

/// A session row refreshed by a continuation report: the same row identity
/// and (visitor, URL) pair, carrying the newly reported fields.
pub open spec fn refreshed_session(s: CookieStat, data: HistoryData, created: i64) -> CookieStat {
    CookieStat {
        id: s.id,
        user_id: s.user_id,
        page: data.page_id,
        link: data.link,
        title: data.title,
        height: data.height,
        seconds: data.seconds,
        created,
        template: data.template,
    }
}

/// The session table after a continuation report: the pair's one row is
/// refreshed in place.
pub open spec fn sessions_after(stats: Seq<CookieStat>, data: HistoryData, created: i64) -> Seq<
    CookieStat,
> {
    stats.map_values(
        |s: CookieStat|
            (if s.user_id == data.user_id && s.link@ == data.link@ {
                refreshed_session(s, data, created)
            } else {
                s
            }),
    )
}

/// The visitor table after a report: a continuation adds the reported totals
/// to the visitor's own counters.
pub open spec fn users_after(
    users: Seq<CookieUser>,
    id: i32,
    height: i64,
    seconds: i32,
    cont: bool,
) -> Seq<CookieUser> {
    if cont {
        users.map_values(
            |u: CookieUser|
                (if u.id == id {
                    CookieUser {
                        height: (u.height + height) as i64,
                        seconds: (u.seconds + seconds) as i32,
                        ..u
                    }
                } else {
                    u
                }),
        )
    } else {
        users
    }
}

impl HistoryStore {
    /// Well-formed: visitor ids are unique, session ids sit below the
    /// allocation counter, and each (visitor, URL) pair has at most one
    /// session row.
    pub open spec fn wf(&self) -> bool {
        &&& forall|i: int, j: int|
            0 <= i < j < self.cookie_users@.len() ==> self.cookie_users@[i].id
                != self.cookie_users@[j].id
        &&& forall|i: int|
            0 <= i < self.cookie_stats@.len() ==> #[trigger] self.cookie_stats@[i].id
                < self.next_stat_id
        &&& forall|i: int, j: int|
            0 <= i < j < self.cookie_stats@.len() ==> !(self.cookie_stats@[i].user_id
                == self.cookie_stats@[j].user_id && self.cookie_stats@[i].link@
                == self.cookie_stats@[j].link@)
    }

    pub fn new() -> (s: HistoryStore)
        ensures
            s.wf(),
            s.cookie_users@ =~= Seq::<CookieUser>::empty(),
            s.cookie_stats@ =~= Seq::<CookieStat>::empty(),
            s.next_stat_id == 1,
    {
        HistoryStore { cookie_users: Vec::new(), cookie_stats: Vec::new(), next_stat_id: 1 }
    }

    /// Adds a visitor with this id and profile, for the web layer to call
    /// when a cookie-held id is not yet known here.
    pub fn add_user(&mut self, user: CookieUser)
        requires
            old(self).wf(),
            !has_user(old(self).cookie_users@, user.id),
        ensures
            final(self).wf(),
            final(self).cookie_users@ == old(self).cookie_users@.push(user),
            final(self).cookie_stats@ == old(self).cookie_stats@,
            final(self).next_stat_id == old(self).next_stat_id,
    {
        self.cookie_users.push(user);
        proof {
            assert(self.cookie_users@ =~= old(self).cookie_users@.push(user));
        }
    }
}

/// One page of a listing: `limit` rows starting `offset` rows in, clipped to
/// the ends of the list.
pub open spec fn page_slice<T>(s: Seq<T>, offset: int, limit: int) -> Seq<T>
    recommends
        offset >= 0,
        limit >= 0,
{
    let off = if offset > s.len() {
        s.len() as int
    } else {
        offset
    };
    let end = if offset + limit > s.len() {
        s.len() as int
    } else {
        offset + limit
    };
    if end < off {
        s.subrange(off, off)
    } else {
        s.subrange(off, end)
    }
}

/// The visitor's view sessions, in table order (the table grows in creation
/// order, so the reverse is newest first).
pub open spec fn sessions_of(stats: Seq<CookieStat>, user_id: i32) -> Seq<CookieStat> {
    stats.filter(|s: CookieStat| s.user_id == user_id)
}

/// Collecting one more session row.
proof fn lemma_sessions_push(stats: Seq<CookieStat>, user_id: i32, s: CookieStat)
    ensures
        sessions_of(stats.push(s), user_id) == if s.user_id == user_id {
            sessions_of(stats, user_id).push(s)
        } else {
            sessions_of(stats, user_id)
        },
{
    reveal(Seq::filter);
    assert(stats.push(s).drop_last() =~= stats);
}

/// The visitors that have reported anything at all: the listing shows only
/// rows with totals.
pub open spec fn active_visitors(users: Seq<CookieUser>) -> Seq<CookieUser> {
    users.filter(|u: CookieUser| u.seconds != 0 && u.height != 0)
}

/// Collecting one more visitor row.
proof fn lemma_active_push(users: Seq<CookieUser>, u: CookieUser)
    ensures
        active_visitors(users.push(u)) == if u.seconds != 0 && u.height != 0 {
            active_visitors(users).push(u)
        } else {
            active_visitors(users)
        },
{
    reveal(Seq::filter);
    assert(users.push(u).drop_last() =~= users);
}

fn clone_stat(s: &CookieStat) -> (r: CookieStat)
    ensures
        r == *s,
{
    CookieStat {
        id: s.id,
        user_id: s.user_id,
        page: s.page,
        link: s.link.clone(),
        title: s.title.clone(),
        height: s.height,
        seconds: s.seconds,
        created: s.created,
        template: s.template.clone(),
    }
}

fn clone_opt(s: &Option<String>) -> (r: Option<String>)
    ensures
        r == *s,
{
    match s {
        Some(x) => Some(x.clone()),
        None => None,
    }
}

fn clone_user(u: &CookieUser) -> (r: CookieUser)
    ensures
        r == *u,
{
    CookieUser {
        id: u.id,
        ip: u.ip.clone(),
        device: u.device,
        city_ru: clone_opt(&u.city_ru),
        city_en: clone_opt(&u.city_en),
        region_ru: clone_opt(&u.region_ru),
        region_en: clone_opt(&u.region_en),
        country_ru: clone_opt(&u.country_ru),
        country_en: clone_opt(&u.country_en),
        height: u.height,
        seconds: u.seconds,
        created: u.created,
    }
}

/// The bounds of one page over a list of this length, as run-time indexes.
fn page_bounds(len: usize, offset: i64, limit: i64) -> (r: (usize, usize))
    requires
        offset >= 0,
        limit >= 0,
    ensures
        r.0 == if offset > len {
            len as int
        } else {
            offset as int
        },
        r.1 == if offset + limit > len {
            len as int
        } else {
            offset + limit
        },
        r.0 <= r.1 <= len,
{
    let off: usize = if (offset as u64) > (len as u64) {
        len
    } else {
        offset as usize
    };
    let remaining = len - off;
    let take: usize = if (limit as u64) > (remaining as u64) {
        remaining
    } else {
        limit as usize
    };
    (off, off + take)
}

/// The index of the visitor that carries this id.
fn find_user_index(users: &Vec<CookieUser>, id: i32) -> (r: Option<usize>)
    ensures
        match r {
            Some(i) => i < users@.len() && users@[i as int].id == id,
            None => !has_user(users@, id),
        },
{
    let n = users.len();
    let mut i: usize = 0;
    while i < n
        invariant
            i <= n,
            n == users@.len(),
            forall|j: int| 0 <= j < i ==> #[trigger] users@[j].id != id,
        decreases n - i,
    {
        if users[i].id == id {
            return Some(i);
        }
        i = i + 1;
    }
    None
}

/// Whether the visitor already has a session row for this URL.
fn find_session_index(stats: &Vec<CookieStat>, user_id: i32, link: &String) -> (r: Option<usize>)
    ensures
        match r {
            Some(i) => i < stats@.len() && stats@[i as int].user_id == user_id
                && stats@[i as int].link@ == link@,
            None => !is_continuation(stats@, user_id, link@),
        },
{
    let n = stats.len();
    let mut i: usize = 0;
    while i < n
        invariant
            i <= n,
            n == stats@.len(),
            forall|j: int|
                0 <= j < i ==> !(stats@[j].user_id == user_id && stats@[j].link@ == link@),
        decreases n - i,
    {
        if stats[i].user_id == user_id && stats[i].link.eq(link) {
            proof {
                assert(stats@[i as int].user_id == user_id && stats@[i as int].link@ == link@);
            }
            return Some(i);
        }
        i = i + 1;
    }
    None
}

/// In a session table with unique (visitor, URL) pairs, the row found at a
/// matching index is the pair's session row.
proof fn lemma_session_of_at(stats: Seq<CookieStat>, i: int, user_id: i32, link: Seq<char>)
    requires
        forall|p: int, q: int|
            0 <= p < q < stats.len() ==> !(stats[p].user_id == stats[q].user_id && stats[p].link@
                == stats[q].link@),
        0 <= i < stats.len(),
        stats[i].user_id == user_id,
        stats[i].link@ == link,
    ensures
        is_continuation(stats, user_id, link),
        session_of(stats, user_id, link) == stats[i],
{
    let c = choose|k: int|
        0 <= k < stats.len() && stats[k].user_id == user_id && stats[k].link@ == link;
    if c != i {
        assert(!(stats[c].user_id == stats[i].user_id && stats[c].link@ == stats[i].link@));
        assert(false);
    }
}

/// Which engagement table a report addresses.  With an object id, the page
/// classification code picks the category, item or tag table; an unknown
/// code means no engagement update.  Without an object id the report is for
/// one of the fixed site pages.
pub open spec fn report_kind(object_id: i32, page_id: i16) -> Option<EntityKind> {
    if object_id > 0 {
        if page_id == 42 || page_id == 62 || page_id == 72 || page_id == 82 || page_id == 92
            || page_id == 9 {
            Some(EntityKind::Category)
        } else if page_id == 43 || page_id == 63 || page_id == 73 || page_id == 83 || page_id
            == 93 {
            Some(EntityKind::Item)
        } else if page_id == 32 {
            Some(EntityKind::Tag)
        } else {
            None
        }
    } else {
        Some(EntityKind::Page)
    }
}

/// The content-type code behind a page classification code: blog, service,
/// store, wiki, work or help pages in turn.
pub open spec fn object_types_code(page_id: i16) -> i16 {
    if page_id == 42 || page_id == 43 {
        1
    } else if page_id == 62 || page_id == 63 {
        2
    } else if page_id == 72 || page_id == 73 {
        3
    } else if page_id == 82 || page_id == 83 {
        4
    } else if page_id == 92 || page_id == 93 {
        5
    } else if page_id == 9 {
        6
    } else {
        0
    }
}

/// The key of the row a report addresses.
pub open spec fn report_key(data: HistoryData) -> i32 {
    if data.object_id > 0 {
        data.object_id
    } else {
        data.page_id as i32
    }
}

/// The content-type code a report would seed a fresh row with.
pub open spec fn report_types(data: HistoryData) -> i16 {
    if data.object_id > 0 {
        if data.page_id == 32 {
            0
        } else {
            object_types_code(data.page_id)
        }
    } else {
        data.page_id
    }
}

/// The event name broadcast for a report.
pub open spec fn report_event_name(kind: EntityKind) -> Seq<char> {
    if kind == EntityKind::Page {
        "end_page_view"@
    } else {
        "end_object_view"@
    }
}

/// The subject id broadcast for a report: the page classification code for
/// page reports, the row's content-type code for categories and items, and
/// the tag's own id for tags.
pub open spec fn report_event_subject(stats: StatStore, data: HistoryData, cont: bool) -> int {
    match report_kind(data.object_id, data.page_id) {
        Some(EntityKind::Page) => data.page_id as int,
        Some(EntityKind::Tag) => data.object_id as int,
        Some(kind) => report_row(
            store_table(stats, kind),
            report_key(data),
            report_types(data),
            data.height,
            data.seconds,
            cont,
        ).types as int,
        None => 0,
    }
}

/// The headroom one report needs: a fresh session id, room in the visitor's
/// own counters when the report is a continuation, and room in the counters
/// of the addressed engagement row.
pub open spec fn can_record(
    hist: HistoryStore,
    stats: StatStore,
    data: HistoryData,
) -> bool {
    let cont = is_continuation(hist.cookie_stats@, data.user_id, data.link@);
    &&& (!cont ==> hist.next_stat_id < i32::MAX)
    &&& (has_user(hist.cookie_users@, data.user_id) && cont ==> {
        let u = user_of(hist.cookie_users@, data.user_id);
        &&& i64::MIN <= u.height + data.height <= i64::MAX
        &&& i32::MIN <= u.seconds + data.seconds <= i32::MAX
    })
    &&& match report_kind(data.object_id, data.page_id) {
        Some(kind) => can_report(
            store_table(stats, kind),
            report_key(data),
            data.height,
            data.seconds,
            cont,
        ),
        None => true,
    }
}

/// Whether a session row holds what a report recorded, under a given id and
/// time.
pub open spec fn row_matches(row: CookieStat, id: i32, data: HistoryData, created: i64) -> bool {
    &&& row.id == id
    &&& row.user_id == data.user_id
    &&& row.page == data.page_id
    &&& row.link@ == data.link@
    &&& row.title@ == data.title@
    &&& row.height == data.height
    &&& row.seconds == data.seconds
    &&& row.created == created
    &&& row.template@ == data.template@
}

/// Everything one recorded report changes, given the time `created` stamped
/// on the session row.  A report for an unknown visitor changes nothing and
/// fails with the not-found error.  Any other report keeps one session row
/// per (visitor, URL) pair — a continuation refreshes the pair's row in
/// place, a first visit appends a fresh one — adds a continuation's totals
/// to the visitor, applies the engagement update rule to exactly the
/// addressed table, and broadcasts the resulting concurrent-viewer count.
pub open spec fn create_history_post(
    hist0: HistoryStore,
    hist1: HistoryStore,
    stats0: StatStore,
    stats1: StatStore,
    conns0: Seq<ConnectionView>,
    conns1: Seq<ConnectionView>,
    data: HistoryData,
    r: Result<CookieStat, Error>,
    created: i64,
) -> bool {
    if !has_user(hist0.cookie_users@, data.user_id) {
        &&& r is Err
        &&& r->Err_0 is NotFound
        &&& r->Err_0->NotFound_0@ == "Record not found"@
        &&& hist1 == hist0
        &&& stats1 == stats0
        &&& conns1 == conns0
    } else {
        let cont = is_continuation(hist0.cookie_stats@, data.user_id, data.link@);
        &&& r is Ok
        &&& (if cont {
            &&& hist1.next_stat_id == hist0.next_stat_id
            &&& r->Ok_0 == refreshed_session(
                session_of(hist0.cookie_stats@, data.user_id, data.link@),
                data,
                created,
            )
            &&& hist1.cookie_stats@ == sessions_after(hist0.cookie_stats@, data, created)
        } else {
            &&& hist1.next_stat_id == hist0.next_stat_id + 1
            &&& row_matches(r->Ok_0, hist0.next_stat_id, data, created)
            &&& hist1.cookie_stats@ == hist0.cookie_stats@.push(r->Ok_0)
        })
        &&& hist1.cookie_users@ == users_after(
            hist0.cookie_users@,
            data.user_id,
            data.height,
            data.seconds,
            cont,
        )
        &&& match report_kind(data.object_id, data.page_id) {
            Some(kind) => {
                &&& store_table(stats1, kind) == table_report(
                    store_table(stats0, kind),
                    report_key(data),
                    report_types(data),
                    data.height,
                    data.seconds,
                    cont,
                )
                &&& (forall|k: EntityKind|
                    k != kind ==> #[trigger] store_table(stats1, k) == store_table(stats0, k))
                &&& conns1 == spec_broadcast(
                    conns0,
                    event_json(
                        report_event_name(kind),
                        report_event_subject(stats0, data, cont),
                        dec_nat(
                            report_row(
                                store_table(stats0, kind),
                                report_key(data),
                                report_types(data),
                                data.height,
                                data.seconds,
                                cont,
                            ).now_u as int,
                        ),
                    ),
                )
            },
            None => stats1 == stats0 && conns1 == conns0,
        }
    }
}

/// One page of the visitor's sessions, newest first.
fn sessions_page(stats: &Vec<CookieStat>, user_id: i32, limit: i64, offset: i64) -> (r: Vec<
    CookieStat,
>)
    requires
        limit >= 0,
        offset >= 0,
    ensures
        r@ == page_slice(sessions_of(stats@, user_id).reverse(), offset as int, limit as int),
{
    let mut filtered: Vec<CookieStat> = Vec::new();
    let n = stats.len();
    let mut i: usize = 0;
    while i < n
        invariant
            i <= n,
            n == stats@.len(),
            filtered@ == sessions_of(stats@.take(i as int), user_id),
        decreases n - i,
    {
        proof {
            assert(stats@.take(i + 1 as int) =~= stats@.take(i as int).push(stats@[i as int]));
            lemma_sessions_push(stats@.take(i as int), user_id, stats@[i as int]);
        }
        if stats[i].user_id == user_id {
            let row = clone_stat(&stats[i]);
            filtered.push(row);
        }
        i = i + 1;
    }
    proof {
        assert(stats@.take(n as int) =~= stats@);
    }
    let m = filtered.len();
    let mut rev: Vec<CookieStat> = Vec::new();
    let mut j: usize = m;
    while j > 0
        invariant
            j <= m,
            m == filtered@.len(),
            rev@.len() == m - j,
            forall|k: int| 0 <= k < rev@.len() ==> rev@[k] == filtered@[m - 1 - k],
        decreases j,
    {
        j = j - 1;
        let row = clone_stat(&filtered[j]);
        rev.push(row);
    }
    proof {
        assert(rev@ =~= filtered@.reverse());
    }
    let len = rev.len();
    let bounds = page_bounds(len, offset, limit);
    let mut out: Vec<CookieStat> = Vec::new();
    let mut idx: usize = bounds.0;
    while idx < bounds.1
        invariant
            bounds.0 <= idx <= bounds.1 <= len,
            len == rev@.len(),
            out@ == rev@.subrange(bounds.0 as int, idx as int),
        decreases bounds.1 - idx,
    {
        proof {
            assert(rev@.subrange(bounds.0 as int, idx + 1 as int) =~= rev@.subrange(
                bounds.0 as int,
                idx as int,
            ).push(rev@[idx as int]));
        }
        let row = clone_stat(&rev[idx]);
        out.push(row);
        idx = idx + 1;
    }
    proof {
        assert(out@ =~= page_slice(
            sessions_of(stats@, user_id).reverse(),
            offset as int,
            limit as int,
        ));
    }
    out
}

/// One page of the active visitors, newest first.
fn visitors_page(users: &Vec<CookieUser>, limit: i64, offset: i64) -> (r: Vec<CookieUser>)
    requires
        limit >= 0,
        offset >= 0,
    ensures
        r@ == page_slice(active_visitors(users@).reverse(), offset as int, limit as int),
{
    let mut filtered: Vec<CookieUser> = Vec::new();
    let n = users.len();
    let mut i: usize = 0;
    while i < n
        invariant
            i <= n,
            n == users@.len(),
            filtered@ == active_visitors(users@.take(i as int)),
        decreases n - i,
    {
        proof {
            assert(users@.take(i + 1 as int) =~= users@.take(i as int).push(users@[i as int]));
            lemma_active_push(users@.take(i as int), users@[i as int]);
        }
        if users[i].seconds != 0 && users[i].height != 0 {
            let row = clone_user(&users[i]);
            filtered.push(row);
        }
        i = i + 1;
    }
    proof {
        assert(users@.take(n as int) =~= users@);
    }
    let m = filtered.len();
    let mut rev: Vec<CookieUser> = Vec::new();
    let mut j: usize = m;
    while j > 0
        invariant
            j <= m,
            m == filtered@.len(),
            rev@.len() == m - j,
            forall|k: int| 0 <= k < rev@.len() ==> rev@[k] == filtered@[m - 1 - k],
        decreases j,
    {
        j = j - 1;
        let row = clone_user(&filtered[j]);
        rev.push(row);
    }
    proof {
        assert(rev@ =~= filtered@.reverse());
    }
    let len = rev.len();
    let bounds = page_bounds(len, offset, limit);
    let mut out: Vec<CookieUser> = Vec::new();
    let mut idx: usize = bounds.0;
    while idx < bounds.1
        invariant
            bounds.0 <= idx <= bounds.1 <= len,
            len == rev@.len(),
            out@ == rev@.subrange(bounds.0 as int, idx as int),
        decreases bounds.1 - idx,
    {
        proof {
            assert(rev@.subrange(bounds.0 as int, idx + 1 as int) =~= rev@.subrange(
                bounds.0 as int,
                idx as int,
            ).push(rev@[idx as int]));
        }
        let row = clone_user(&rev[idx]);
        out.push(row);
        idx = idx + 1;
    }
    proof {
        assert(out@ =~= page_slice(active_visitors(users@).reverse(), offset as int, limit as int));
    }
    out
}

impl CookieStat {
    /// One page of the visitor's sessions, newest first.
    pub fn get_stat_items(stats: &Vec<CookieStat>, user_id: i32, limit: i64, offset: i64) -> (r:
        Result<Vec<CookieStat>, Error>)
        requires
            limit >= 0,
            offset >= 0,
        ensures
            r is Ok,
            r->Ok_0@ == page_slice(
                sessions_of(stats@, user_id).reverse(),
                offset as int,
                limit as int,
            ),
    {
        Ok(sessions_page(stats, user_id, limit, offset))
    }

    /// One numbered page of the visitor's sessions, with the number of the
    /// next page when one more session lies past this page's window, and
    /// zero otherwise.  Pages past the first start twenty rows apart.
    pub fn get_stat_list(stats: &Vec<CookieStat>, user_id: i32, page: i32, limit: i32) -> (r:
        Result<(Vec<CookieStat>, i32), Error>)
        requires
            limit >= 0,
            limit < i32::MAX,
            0 <= page < i32::MAX,
            (page as int) * (limit as int) + 1 <= i32::MAX,
            page > 1 ==> (page as int - 1) * 20 <= i32::MAX,
        ensures
            r is Ok,
            ({
                let all = sessions_of(stats@, user_id).reverse();
                let step: int = if page > 1 {
                    (page - 1) * 20
                } else {
                    0
                };
                let have_next: int = if page > 1 {
                    page * limit + 1
                } else {
                    limit + 1
                };
                &&& r->Ok_0.0@ == page_slice(all, step, limit as int)
                &&& r->Ok_0.1 == if have_next < all.len() {
                    page + 1
                } else {
                    0
                }
            }),
    {
        let mut next_page_number: i32 = 0;
        let have_next: i32;
        let object_list: Vec<CookieStat>;
        if page > 1 {
            let step = (page - 1) * 20;
            have_next = page * limit + 1;
            object_list = sessions_page(stats, user_id, limit as i64, step as i64);
        } else {
            have_next = limit + 1;
            object_list = sessions_page(stats, user_id, limit as i64, 0);
        }
        let peek = sessions_page(stats, user_id, 1, have_next as i64);
        if peek.len() > 0 {
            next_page_number = page + 1;
        }
        Ok((object_list, next_page_number))
    }
}

impl CookieUser {
    /// One page of the visitors that have reported totals, newest first.
    pub fn get_users(users: &Vec<CookieUser>, limit: i64, offset: i64) -> (r: Vec<CookieUser>)
        requires
            limit >= 0,
            offset >= 0,
        ensures
            r@ == page_slice(active_visitors(users@).reverse(), offset as int, limit as int),
    {
        visitors_page(users, limit, offset)
    }

    /// One numbered page of the visitor listing, with the number of the next
    /// page when one more visitor lies past this page's window, and zero
    /// otherwise.  Pages past the first start twenty rows apart.
    pub fn get_users_list(users: &Vec<CookieUser>, page: i32, limit: i32) -> (r: (
        Vec<CookieUser>,
        i32,
    ))
        requires
            limit >= 0,
            limit < i32::MAX,
            0 <= page < i32::MAX,
            (page as int) * (limit as int) + 1 <= i32::MAX,
            page > 1 ==> (page as int - 1) * 20 <= i32::MAX,
        ensures
            ({
                let all = active_visitors(users@).reverse();
                let step: int = if page > 1 {
                    (page - 1) * 20
                } else {
                    0
                };
                let have_next: int = if page > 1 {
                    page * limit + 1
                } else {
                    limit + 1
                };
                &&& r.0@ == page_slice(all, step, limit as int)
                &&& r.1 == if have_next < all.len() {
                    page + 1
                } else {
                    0
                }
            }),
    {
        let mut next_page_number: i32 = 0;
        let have_next: i32;
        let object_list: Vec<CookieUser>;
        if page > 1 {
            let step = (page - 1) * 20;
            have_next = page * limit + 1;
            object_list = visitors_page(users, limit as i64, step as i64);
        } else {
            have_next = limit + 1;
            object_list = visitors_page(users, limit as i64, 0);
        }
        let peek = visitors_page(users, 1, have_next as i64);
        if peek.len() > 0 {
            next_page_number = page + 1;
        }
        (object_list, next_page_number)
    }
}

/// Which engagement table a report addresses, resolved at run time.
pub fn kind_of_report(object_id: i32, page_id: i16) -> (r: Option<EntityKind>)
    ensures
        r == report_kind(object_id, page_id),
{
    if object_id > 0 {
        match page_id {
            42 | 62 | 72 | 82 | 92 | 9 => Some(EntityKind::Category),
            43 | 63 | 73 | 83 | 93 => Some(EntityKind::Item),
            32 => Some(EntityKind::Tag),
            _ => None,
        }
    } else {
        Some(EntityKind::Page)
    }
}

/// Whether a report can be recorded as it stands: the run-time check of
/// [`can_record`], for callers that cannot know the stores' headroom ahead
/// of time.
pub fn report_fits(hist: &HistoryStore, stats: &StatStore, data: &HistoryData) -> (r: bool)
    requires
        hist.wf(),
        stats.wf(),
    ensures
        r == can_record(*hist, *stats, *data),
{
    let cont = match find_session_index(&hist.cookie_stats, data.user_id, &data.link) {
        Some(i) => {
            proof {
                assert(hist.cookie_stats@[i as int].user_id == data.user_id);
                assert(hist.cookie_stats@[i as int].link@ == data.link@);
            }
            true
        },
        None => false,
    };
    if !cont && hist.next_stat_id == i32::MAX {
        return false;
    }
    if cont {
        match find_user_index(&hist.cookie_users, data.user_id) {
            Some(i) => {
                let u = &hist.cookie_users[i];
                proof {
                    lemma_user_of_at(&hist.cookie_users, i, data.user_id);
                }
                if (data.height > 0 && u.height > i64::MAX - data.height) || (data.height < 0
                    && u.height < i64::MIN - data.height) {
                    return false;
                }
                if (data.seconds > 0 && u.seconds > i32::MAX - data.seconds) || (data.seconds < 0
                    && u.seconds < i32::MIN - data.seconds) {
                    return false;
                }
            },
            None => {},
        }
    }
    match kind_of_report(data.object_id, data.page_id) {
        Some(kind) => {
            let key = if data.object_id > 0 {
                data.object_id
            } else {
                data.page_id as i32
            };
            if cont {
                match stats.find_stat(kind, key) {
                    Some(row) => {
                        if row.view == i32::MAX {
                            return false;
                        }
                        if (data.height > 0 && row.height > i64::MAX - data.height) || (data.height
                            < 0 && row.height < i64::MIN - data.height) {
                            return false;
                        }
                        if (data.seconds > 0 && row.seconds > i32::MAX - data.seconds) || (
                        data.seconds < 0 && row.seconds < i32::MIN - data.seconds) {
                            return false;
                        }
                    },
                    None => {},
                }
            }
        },
        None => {},
    }
    true
}

/// In a visitor table with unique ids, the visitor found at a matching index
/// is the visitor of that id.
proof fn lemma_user_of_at(users: &Vec<CookieUser>, i: usize, id: i32)
    requires
        forall|p: int, q: int|
            0 <= p < q < users@.len() ==> users@[p].id != users@[q].id,
        i < users@.len(),
        users@[i as int].id == id,
    ensures
        has_user(users@, id),
        user_of(users@, id) == users@[i as int],
{
    let c = choose|k: int| 0 <= k < users@.len() && users@[k].id == id;
    if c != i as int {
        assert(users@[c].id == users@[i as int].id);
        assert(false);
    }
}

/// Relies on std's `SystemTime::now` and `SystemTime::duration_since`: the
/// whole seconds since the Unix epoch, with a clock that reads before the
/// epoch answered as zero, so the call cannot fail.  Nothing is assumed of
/// the value.
#[verifier::external_body]
fn now_epoch_seconds() -> u64 {
    match std::time::SystemTime::now().duration_since(std::time::UNIX_EPOCH) {
        Ok(d) => d.as_secs(),
        Err(_) => 0,
    }
}

/// The timestamp stamped on session rows: three hours ahead of the given
/// time, saturating at the end of the representable range.
fn session_timestamp(now: u64) -> (r: i64)
    ensures
        r == if now + 10800 <= i64::MAX {
            now + 10800
        } else {
            i64::MAX as int
        },
{
    if now <= (i64::MAX - 10800) as u64 {
        (now as i64) + 10800
    } else {
        i64::MAX
    }
}

/// The content-type code behind a page classification code.
fn object_types_code_of(page_id: i16) -> (r: i16)
    ensures
        r == object_types_code(page_id),
{
    if page_id == 42 || page_id == 43 {
        1
    } else if page_id == 62 || page_id == 63 {
        2
    } else if page_id == 72 || page_id == 73 {
        3
    } else if page_id == 82 || page_id == 83 {
        4
    } else if page_id == 92 || page_id == 93 {
        5
    } else if page_id == 9 {
        6
    } else {
        0
    }
}

/// Records one view report at a given session-row time: resolves the
/// visitor, classifies the report, adds a continuation's totals to the
/// visitor, applies the engagement rule, broadcasts the event, and writes
/// the (visitor, URL) pair's one session row: refreshed in place on a
/// continuation, appended on a first visit.
pub fn create_history_at(
    hist: &mut HistoryStore,
    stats: &mut StatStore,
    srv: &mut Server,
    data: &HistoryData,
    created: i64,
) -> (r: Result<CookieStat, Error>)
    requires
        old(hist).wf(),
        old(stats).wf(),
        old(srv).wf(),
        can_record(*old(hist), *old(stats), *data),
    ensures
        final(hist).wf(),
        final(stats).wf(),
        final(srv).wf(),
        final(srv).next_id == old(srv).next_id,
        create_history_post(
            *old(hist),
            *final(hist),
            *old(stats),
            *final(stats),
            old(srv).conns(),
            final(srv).conns(),
            *data,
            r,
            created,
        ),
{
    let uidx = match find_user_index(&hist.cookie_users, data.user_id) {
        Some(i) => i,
        None => {
            return Err(Error::NotFound(String::from_str("Record not found")));
        },
    };
    let session_idx = find_session_index(&hist.cookie_stats, data.user_id, &data.link);
    let cont = match session_idx {
        Some(i) => {
            proof {
                lemma_session_of_at(hist.cookie_stats@, i as int, data.user_id, data.link@);
            }
            true
        },
        None => false,
    };
    if cont {
        let ghost users0 = hist.cookie_users@;
        let mut entry = CookieUser {
            id: 0,
            ip: String::new(),
            device: 0,
            city_ru: None,
            city_en: None,
            region_ru: None,
            region_en: None,
            country_ru: None,
            country_en: None,
            height: 0,
            seconds: 0,
            created: 0,
        };
        proof {
            self_user_headroom(&hist.cookie_users, uidx, data);
        }
        hist.cookie_users.set_and_swap(uidx, &mut entry);
        entry.height = entry.height + data.height;
        entry.seconds = entry.seconds + data.seconds;
        hist.cookie_users.set(uidx, entry);
        proof {
            assert forall|j: int| 0 <= j < users0.len() implies hist.cookie_users@[j]
                == users_after(users0, data.user_id, data.height, data.seconds, true)[j] by {
                if j != uidx as int {
                    assert(users0[j].id != users0[uidx as int].id);
                }
            }
            assert(hist.cookie_users@ =~= users_after(
                users0,
                data.user_id,
                data.height,
                data.seconds,
                true,
            ));
        }
    }
    if data.object_id > 0 {
        let code = object_types_code_of(data.page_id);
        match data.page_id {
            42 | 62 | 72 | 82 | 92 | 9 => {
                plus_category_stat(stats, srv, data.object_id, code, data.height, data.seconds, cont);
            },
            43 | 63 | 73 | 83 | 93 => {
                plus_item_stat(stats, srv, data.object_id, code, data.height, data.seconds, cont);
            },
            32 => {
                plus_tag_stat(stats, srv, data.object_id, data.height, data.seconds, cont);
            },
            _ => {},
        }
    } else {
        plus_page_stat(stats, srv, data.page_id, data.height, data.seconds, cont);
    }
    match session_idx {
        Some(i) => {
            let ghost stats0 = hist.cookie_stats@;
            let mut entry = CookieStat {
                id: 0,
                user_id: 0,
                page: 0,
                link: String::new(),
                title: String::new(),
                height: 0,
                seconds: 0,
                created: 0,
                template: String::new(),
            };
            hist.cookie_stats.set_and_swap(i, &mut entry);
            let row = CookieStat {
                id: entry.id,
                user_id: entry.user_id,
                page: data.page_id,
                link: data.link.clone(),
                title: data.title.clone(),
                height: data.height,
                seconds: data.seconds,
                created,
                template: data.template.clone(),
            };
            let answer = CookieStat {
                id: entry.id,
                user_id: entry.user_id,
                page: data.page_id,
                link: data.link.clone(),
                title: data.title.clone(),
                height: data.height,
                seconds: data.seconds,
                created,
                template: data.template.clone(),
            };
            hist.cookie_stats.set(i, row);
            proof {
                assert(answer == refreshed_session(stats0[i as int], *data, created));
                assert forall|j: int| 0 <= j < stats0.len() implies hist.cookie_stats@[j]
                    == sessions_after(stats0, *data, created)[j] by {
                    if j != i as int {
                        assert(!(stats0[j].user_id == stats0[i as int].user_id && stats0[j].link@
                            == stats0[i as int].link@));
                    }
                }
                assert(hist.cookie_stats@ =~= sessions_after(stats0, *data, created));
            }
            Ok(answer)
        },
        None => {
            let id = hist.next_stat_id;
            hist.next_stat_id = hist.next_stat_id + 1;
            let row = CookieStat {
                id,
                user_id: data.user_id,
                page: data.page_id,
                link: data.link.clone(),
                title: data.title.clone(),
                height: data.height,
                seconds: data.seconds,
                created,
                template: data.template.clone(),
            };
            let answer = CookieStat {
                id,
                user_id: data.user_id,
                page: data.page_id,
                link: data.link.clone(),
                title: data.title.clone(),
                height: data.height,
                seconds: data.seconds,
                created,
                template: data.template.clone(),
            };
            hist.cookie_stats.push(row);
            proof {
                assert(hist.cookie_stats@ =~= old(hist).cookie_stats@.push(answer));
            }
            Ok(answer)
        },
    }
}

/// Spells out the headroom `can_record` grants on the visitor's counters at
/// the index the lookup found.
proof fn self_user_headroom(users: &Vec<CookieUser>, uidx: usize, data: &HistoryData)
    requires
        forall|i: int, j: int|
            0 <= i < j < users@.len() ==> users@[i].id != users@[j].id,
        uidx < users@.len(),
        users@[uidx as int].id == data.user_id,
        has_user(users@, data.user_id) ==> {
            let u = user_of(users@, data.user_id);
            &&& i64::MIN <= u.height + data.height <= i64::MAX
            &&& i32::MIN <= u.seconds + data.seconds <= i32::MAX
        },
    ensures
        i64::MIN <= users@[uidx as int].height + data.height <= i64::MAX,
        i32::MIN <= users@[uidx as int].seconds + data.seconds <= i32::MAX,
{
    assert(has_user(users@, data.user_id));
    let c = choose|i: int| 0 <= i < users@.len() && users@[i].id == data.user_id;
    if c != uidx as int {
        assert(users@[c].id == users@[uidx as int].id);
        assert(false);
    }
}

/// Records one view report, stamping the session row three hours ahead of
/// the clock as the site's local convention has it.
pub fn create_history(
    hist: &mut HistoryStore,
    stats: &mut StatStore,
    srv: &mut Server,
    data: &HistoryData,
) -> (r: Result<CookieStat, Error>)
    requires
        old(hist).wf(),
        old(stats).wf(),
        old(srv).wf(),
        can_record(*old(hist), *old(stats), *data),
    ensures
        final(hist).wf(),
        final(stats).wf(),
        final(srv).wf(),
        final(srv).next_id == old(srv).next_id,
        exists|created: i64|
            create_history_post(
                *old(hist),
                *final(hist),
                *old(stats),
                *final(stats),
                old(srv).conns(),
                final(srv).conns(),
                *data,
                r,
                created,
            ),
{
    let now = now_epoch_seconds();
    let stamp = session_timestamp(now);
    create_history_at(hist, stats, srv, data, stamp)
}

} // verus!

