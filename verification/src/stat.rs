//! Engagement tracker: per-entity view statistics.
//!
//! Four kinds of entity carry a view-statistics row: the fixed site pages
//! (keyed by a small page classification code), categories, content items and
//! tags (keyed by their own ids).  A client view report either creates the
//! row lazily or applies the update rule for a view-end report; the resulting
//! concurrent-viewer count is broadcast to every live connection.
//!
//! Scroll heights are stored as fixed-point hundredths, so a stored height is
//! always exact at two decimal places and repeated accumulation cannot drift.

use vstd::prelude::*;
use vstd::pervasive::VecAdditionalExecFns;
use crate::text::{dec_nat, u64_to_dec_string};
use crate::websocket::{event_json, spec_broadcast, MessageToClient, Server};

verus! {

/// One view-statistics row.  `key` is the entity id (for page rows the page
/// classification code), `types` the content-type code used as the subject of
/// outbound events, `view` the monotonic view counter, `height` the
/// cumulative scroll depth in hundredths, `seconds` the cumulative time on
/// page, and `now_u` the number of viewers currently on the entity.
#[derive(Clone, Copy, Debug, PartialEq, Eq, Structural)]
pub struct ViewStat {
    pub key: i32,
    pub types: i16,
    pub view: i32,
    pub height: i64,
    pub seconds: i32,
    pub now_u: i16,
}

/// Whether some row carries this key.
pub open spec fn has_row(rows: Seq<ViewStat>, key: i32) -> bool {
    exists|i: int| 0 <= i < rows.len() && rows[i].key == key
}

/// The row that carries this key.
pub open spec fn row_of(rows: Seq<ViewStat>, key: i32) -> ViewStat {
    rows[choose|i: int| 0 <= i < rows.len() && rows[i].key == key]
}

/// Well-formed table: keys are unique and no concurrent-viewer counter is
/// negative.
pub open spec fn table_wf(rows: Seq<ViewStat>) -> bool {
    &&& forall|i: int, j: int| 0 <= i < j < rows.len() ==> rows[i].key != rows[j].key
    &&& forall|i: int| 0 <= i < rows.len() ==> #[trigger] rows[i].now_u >= 0
}

/// The row created by the first report for a never-before-seen entity: one
/// view, the reported totals, and no outstanding viewer.
pub open spec fn fresh_row(key: i32, types: i16, height: i64, seconds: i32) -> ViewStat {
    ViewStat { key, types, view: 1, height, seconds, now_u: 0 }
}

/// The view-end update rule for an existing row.  With viewers outstanding
/// the report ends one view: a continuation also counts the view and adds the
/// reported totals, any other report only releases the viewer.  With no
/// viewer outstanding a continuation is a plain accumulation and anything
/// else changes nothing.
pub open spec fn apply_end(r: ViewStat, height: i64, seconds: i32, cont: bool) -> ViewStat {
    if r.now_u > 0 {
        if cont {
            ViewStat {
                key: r.key,
                types: r.types,
                view: (r.view + 1) as i32,
                height: (r.height + height) as i64,
                seconds: (r.seconds + seconds) as i32,
                now_u: (r.now_u - 1) as i16,
            }
        } else {
            ViewStat {
                key: r.key,
                types: r.types,
                view: r.view,
                height: r.height,
                seconds: r.seconds,
                now_u: (r.now_u - 1) as i16,
            }
        }
    } else if cont {
        ViewStat {
            key: r.key,
            types: r.types,
            view: (r.view + 1) as i32,
            height: (r.height + height) as i64,
            seconds: (r.seconds + seconds) as i32,
            now_u: r.now_u,
        }
    } else {
        r
    }
}

/// The table after one report: the matching row is updated, or a fresh row is
/// appended when the entity had none.
pub open spec fn table_report(
    rows: Seq<ViewStat>,
    key: i32,
    types: i16,
    height: i64,
    seconds: i32,
    cont: bool,
) -> Seq<ViewStat> {
    if has_row(rows, key) {
        rows.map_values(
            |r: ViewStat|
                (if r.key == key {
                    apply_end(r, height, seconds, cont)
                } else {
                    r
                }),
        )
    } else {
        rows.push(fresh_row(key, types, height, seconds))
    }
}

/// The entity's row after one report.
pub open spec fn report_row(
    rows: Seq<ViewStat>,
    key: i32,
    types: i16,
    height: i64,
    seconds: i32,
    cont: bool,
) -> ViewStat {
    if has_row(rows, key) {
        apply_end(row_of(rows, key), height, seconds, cont)
    } else {
        fresh_row(key, types, height, seconds)
    }
}

/// The machine-width headroom a continuation report needs: the counters the
/// rule adds to must not overflow their columns.
pub open spec fn can_report(
    rows: Seq<ViewStat>,
    key: i32,
    height: i64,
    seconds: i32,
    cont: bool,
) -> bool {
    has_row(rows, key) && cont ==> {
        let r = row_of(rows, key);
        &&& r.view < i32::MAX
        &&& i64::MIN <= r.height + height <= i64::MAX
        &&& i32::MIN <= r.seconds + seconds <= i32::MAX
    }
}

/// The view-start update rule: one more viewer on the entity; an unseen
/// entity gets an empty row holding only that viewer.
pub open spec fn table_start(rows: Seq<ViewStat>, key: i32, types: i16) -> Seq<ViewStat> {
    if has_row(rows, key) {
        rows.map_values(
            |r: ViewStat|
                (if r.key == key {
                    ViewStat { now_u: (r.now_u + 1) as i16, ..r }
                } else {
                    r
                }),
        )
    } else {
        rows.push(ViewStat { key, types, view: 0, height: 0, seconds: 0, now_u: 1 })
    }
}

/// The headroom a view-start needs.
pub open spec fn can_start(rows: Seq<ViewStat>, key: i32) -> bool {
    has_row(rows, key) ==> row_of(rows, key).now_u < i16::MAX
}

/// The four tables that carry view statistics.
pub struct StatStore {
    pub pages: Vec<ViewStat>,
    pub categories: Vec<ViewStat>,
    pub items: Vec<ViewStat>,
    pub tags: Vec<ViewStat>,
}

/// Which table a report addresses.
#[derive(Clone, Copy, Debug, PartialEq, Eq, Structural)]
pub enum EntityKind {
    Page,
    Category,
    Item,
    Tag,
}

/// The selected table of a store.
pub open spec fn store_table(s: StatStore, kind: EntityKind) -> Seq<ViewStat> {
    match kind {
        EntityKind::Page => s.pages@,
        EntityKind::Category => s.categories@,
        EntityKind::Item => s.items@,
        EntityKind::Tag => s.tags@,
    }
}

impl StatStore {
    /// Well-formed: each table is.
    pub open spec fn wf(&self) -> bool {
        &&& table_wf(self.pages@)
        &&& table_wf(self.categories@)
        &&& table_wf(self.items@)
        &&& table_wf(self.tags@)
    }

    pub fn new() -> (s: StatStore)
        ensures
            s.wf(),
            s.pages@ =~= Seq::<ViewStat>::empty(),
            s.categories@ =~= Seq::<ViewStat>::empty(),
            s.items@ =~= Seq::<ViewStat>::empty(),
            s.tags@ =~= Seq::<ViewStat>::empty(),
    {
        StatStore {
            pages: Vec::new(),
            categories: Vec::new(),
            items: Vec::new(),
            tags: Vec::new(),
        }
    }

    /// A copy of the selected entity's row, if one exists.
    pub fn find_stat(&self, kind: EntityKind, key: i32) -> (r: Option<ViewStat>)
        requires
            self.wf(),
        ensures
            match r {
                Some(row) => has_row(store_table(*self, kind), key) && row == row_of(
                    store_table(*self, kind),
                    key,
                ),
                None => !has_row(store_table(*self, kind), key),
            },
    {
        let table = match kind {
            EntityKind::Page => &self.pages,
            EntityKind::Category => &self.categories,
            EntityKind::Item => &self.items,
            EntityKind::Tag => &self.tags,
        };
        let idx = table_find(table, key);
        match idx {
            Some(i) => {
                proof {
                    lemma_row_of_at(table@, key, i as int);
                }
                Some(table[i])
            },
            None => None,
        }
    }

    /// Marks a view as started: one more concurrent viewer on the entity.
    pub fn start_view(&mut self, kind: EntityKind, key: i32, types: i16)
        requires
            old(self).wf(),
            can_start(store_table(*old(self), kind), key),
        ensures
            final(self).wf(),
            store_table(*final(self), kind) == table_start(
                store_table(*old(self), kind),
                key,
                types,
            ),
            kind != EntityKind::Page ==> final(self).pages@ == old(self).pages@,
            kind != EntityKind::Category ==> final(self).categories@ == old(self).categories@,
            kind != EntityKind::Item ==> final(self).items@ == old(self).items@,
            kind != EntityKind::Tag ==> final(self).tags@ == old(self).tags@,
    {
        let table = match kind {
            EntityKind::Page => &mut self.pages,
            EntityKind::Category => &mut self.categories,
            EntityKind::Item => &mut self.items,
            EntityKind::Tag => &mut self.tags,
        };
        table_apply_start(table, key, types);
    }
}

/// The index of the row that carries a key.
fn table_find(rows: &Vec<ViewStat>, key: i32) -> (r: Option<usize>)
    ensures
        match r {
            Some(i) => i < rows@.len() && rows@[i as int].key == key,
            None => !has_row(rows@, key),
        },
{
    let n = rows.len();
    let mut i: usize = 0;
    while i < n
        invariant
            i <= n,
            n == rows@.len(),
            forall|j: int| 0 <= j < i ==> #[trigger] rows@[j].key != key,
        decreases n - i,
    {
        if rows[i].key == key {
            return Some(i);
        }
        i = i + 1;
    }
    None
}

/// In a table with unique keys, the row found at a matching index is the row
/// of that key.
proof fn lemma_row_of_at(rows: Seq<ViewStat>, key: i32, i: int)
    requires
        forall|p: int, q: int| 0 <= p < q < rows.len() ==> rows[p].key != rows[q].key,
        0 <= i < rows.len(),
        rows[i].key == key,
    ensures
        has_row(rows, key),
        row_of(rows, key) == rows[i],
{
    let c = choose|j: int| 0 <= j < rows.len() && rows[j].key == key;
    if c != i {
        assert(rows[c].key == rows[i].key);
        assert(false);
    }
}

/// Applies the report rule to one table and returns the row after the update.
fn table_apply_report(
    rows: &mut Vec<ViewStat>,
    key: i32,
    types: i16,
    height: i64,
    seconds: i32,
    cont: bool,
) -> (after: ViewStat)
    requires
        table_wf(old(rows)@),
        can_report(old(rows)@, key, height, seconds, cont),
    ensures
        final(rows)@ == table_report(old(rows)@, key, types, height, seconds, cont),
        table_wf(final(rows)@),
        after == report_row(old(rows)@, key, types, height, seconds, cont),
        after.now_u >= 0,
{
    let idx = table_find(rows, key);
    match idx {
        Some(i) => {
            proof {
                lemma_row_of_at(rows@, key, i as int);
            }
            let r = rows[i];
            let updated = if r.now_u > 0 {
                if cont {
                    ViewStat {
                        key: r.key,
                        types: r.types,
                        view: r.view + 1,
                        height: r.height + height,
                        seconds: r.seconds + seconds,
                        now_u: r.now_u - 1,
                    }
                } else {
                    ViewStat { now_u: r.now_u - 1, ..r }
                }
            } else if cont {
                ViewStat {
                    view: r.view + 1,
                    height: r.height + height,
                    seconds: r.seconds + seconds,
                    ..r
                }
            } else {
                r
            };
            rows.set(i, updated);
            proof {
                assert(updated == apply_end(r, height, seconds, cont));
                assert forall|j: int| 0 <= j < rows@.len() && j != i as int implies old(
                    rows,
                )@[j].key != key by {
                    assert(old(rows)@[j].key != old(rows)@[i as int].key);
                }
                assert(rows@ =~= table_report(old(rows)@, key, types, height, seconds, cont));
            }
            updated
        },
        None => {
            let created = ViewStat { key, types, view: 1, height, seconds, now_u: 0 };
            rows.push(created);
            proof {
                assert(rows@ =~= table_report(old(rows)@, key, types, height, seconds, cont));
            }
            created
        },
    }
}

/// Applies the view-start rule to one table.
fn table_apply_start(rows: &mut Vec<ViewStat>, key: i32, types: i16)
    requires
        table_wf(old(rows)@),
        can_start(old(rows)@, key),
    ensures
        final(rows)@ == table_start(old(rows)@, key, types),
        table_wf(final(rows)@),
{
    let idx = table_find(rows, key);
    match idx {
        Some(i) => {
            proof {
                lemma_row_of_at(rows@, key, i as int);
            }
            let r = rows[i];
            let updated = ViewStat { now_u: r.now_u + 1, ..r };
            rows.set(i, updated);
            proof {
                assert forall|j: int| 0 <= j < rows@.len() && j != i as int implies old(
                    rows,
                )@[j].key != key by {
                    assert(old(rows)@[j].key != old(rows)@[i as int].key);
                }
                assert(rows@ =~= table_start(old(rows)@, key, types));
            }
        },
        None => {
            rows.push(ViewStat { key, types, view: 0, height: 0, seconds: 0, now_u: 1 });
            proof {
                assert(rows@ =~= table_start(old(rows)@, key, types));
            }
        },
    }
}

/// Records a view report for one of the fixed site pages and broadcasts the
/// page's remaining concurrent-viewer count as an `end_page_view` event.  The
/// page row is keyed by the page classification code itself.
pub fn plus_page_stat(
    store: &mut StatStore,
    srv: &mut Server,
    types: i16,
    height: i64,
    seconds: i32,
    is_update_needed: bool,
)
    requires
        old(store).wf(),
        old(srv).wf(),
        can_report(old(store).pages@, types as i32, height, seconds, is_update_needed),
    ensures
        final(store).wf(),
        final(srv).wf(),
        final(store).pages@ == table_report(
            old(store).pages@,
            types as i32,
            types,
            height,
            seconds,
            is_update_needed,
        ),
        final(store).categories@ == old(store).categories@,
        final(store).items@ == old(store).items@,
        final(store).tags@ == old(store).tags@,
        final(srv).next_id == old(srv).next_id,
        final(srv).conns() == spec_broadcast(
            old(srv).conns(),
            event_json(
                "end_page_view"@,
                types as int,
                dec_nat(
                    report_row(
                        old(store).pages@,
                        types as i32,
                        types,
                        height,
                        seconds,
                        is_update_needed,
                    ).now_u as int,
                ),
            ),
        ),
{
    let after = table_apply_report(
        &mut store.pages,
        types as i32,
        types,
        height,
        seconds,
        is_update_needed,
    );
    let payload = u64_to_dec_string(after.now_u as u64);
    let msg = MessageToClient::new("end_page_view", types as i32, payload);
    srv.broadcast(&msg);
}

/// Records a view report for a category and broadcasts the remaining
/// concurrent-viewer count as an `end_object_view` event tagged with the
/// category's content-type code.  `types` seeds the code when the report
/// creates the row.
pub fn plus_category_stat(
    store: &mut StatStore,
    srv: &mut Server,
    id: i32,
    types: i16,
    height: i64,
    seconds: i32,
    is_update_needed: bool,
)
    requires
        old(store).wf(),
        old(srv).wf(),
        can_report(old(store).categories@, id, height, seconds, is_update_needed),
    ensures
        final(store).wf(),
        final(srv).wf(),
        final(store).categories@ == table_report(
            old(store).categories@,
            id,
            types,
            height,
            seconds,
            is_update_needed,
        ),
        final(store).pages@ == old(store).pages@,
        final(store).items@ == old(store).items@,
        final(store).tags@ == old(store).tags@,
        final(srv).next_id == old(srv).next_id,
        final(srv).conns() == spec_broadcast(
            old(srv).conns(),
            event_json(
                "end_object_view"@,
                report_row(
                    old(store).categories@,
                    id,
                    types,
                    height,
                    seconds,
                    is_update_needed,
                ).types as int,
                dec_nat(
                    report_row(
                        old(store).categories@,
                        id,
                        types,
                        height,
                        seconds,
                        is_update_needed,
                    ).now_u as int,
                ),
            ),
        ),
{
    let after = table_apply_report(
        &mut store.categories,
        id,
        types,
        height,
        seconds,
        is_update_needed,
    );
    let payload = u64_to_dec_string(after.now_u as u64);
    let msg = MessageToClient::new("end_object_view", after.types as i32, payload);
    srv.broadcast(&msg);
}

/// Records a view report for a content item; otherwise as
/// [`plus_category_stat`].
pub fn plus_item_stat(
    store: &mut StatStore,
    srv: &mut Server,
    id: i32,
    types: i16,
    height: i64,
    seconds: i32,
    is_update_needed: bool,
)
    requires
        old(store).wf(),
        old(srv).wf(),
        can_report(old(store).items@, id, height, seconds, is_update_needed),
    ensures
        final(store).wf(),
        final(srv).wf(),
        final(store).items@ == table_report(
            old(store).items@,
            id,
            types,
            height,
            seconds,
            is_update_needed,
        ),
        final(store).pages@ == old(store).pages@,
        final(store).categories@ == old(store).categories@,
        final(store).tags@ == old(store).tags@,
        final(srv).next_id == old(srv).next_id,
        final(srv).conns() == spec_broadcast(
            old(srv).conns(),
            event_json(
                "end_object_view"@,
                report_row(old(store).items@, id, types, height, seconds, is_update_needed).types
                    as int,
                dec_nat(
                    report_row(
                        old(store).items@,
                        id,
                        types,
                        height,
                        seconds,
                        is_update_needed,
                    ).now_u as int,
                ),
            ),
        ),
{
    let after = table_apply_report(&mut store.items, id, types, height, seconds, is_update_needed);
    let payload = u64_to_dec_string(after.now_u as u64);
    let msg = MessageToClient::new("end_object_view", after.types as i32, payload);
    srv.broadcast(&msg);
}

/// Records a view report for a tag and broadcasts the remaining
/// concurrent-viewer count as an `end_object_view` event tagged with the
/// tag's own id.  Tag rows carry no content-type code.
pub fn plus_tag_stat(
    store: &mut StatStore,
    srv: &mut Server,
    id: i32,
    height: i64,
    seconds: i32,
    is_update_needed: bool,
)
    requires
        old(store).wf(),
        old(srv).wf(),
        can_report(old(store).tags@, id, height, seconds, is_update_needed),
    ensures
        final(store).wf(),
        final(srv).wf(),
        final(store).tags@ == table_report(
            old(store).tags@,
            id,
            0,
            height,
            seconds,
            is_update_needed,
        ),
        final(store).pages@ == old(store).pages@,
        final(store).categories@ == old(store).categories@,
        final(store).items@ == old(store).items@,
        final(srv).next_id == old(srv).next_id,
        final(srv).conns() == spec_broadcast(
            old(srv).conns(),
            event_json(
                "end_object_view"@,
                id as int,
                dec_nat(
                    report_row(old(store).tags@, id, 0, height, seconds, is_update_needed).now_u
                        as int,
                ),
            ),
        ),
{
    let after = table_apply_report(&mut store.tags, id, 0, height, seconds, is_update_needed);
    let payload = u64_to_dec_string(after.now_u as u64);
    let msg = MessageToClient::new("end_object_view", id, payload);
    srv.broadcast(&msg);
}

/// The first report for an entity with no row creates one holding exactly one
/// view, the reported totals, and no outstanding viewer.
pub proof fn lemma_first_report_creates(
    rows: Seq<ViewStat>,
    key: i32,
    types: i16,
    height: i64,
    seconds: i32,
    cont: bool,
)
    requires
        !has_row(rows, key),
    ensures
        report_row(rows, key, types, height, seconds, cont).view == 1,
        report_row(rows, key, types, height, seconds, cont).now_u == 0,
        report_row(rows, key, types, height, seconds, cont).height == height,
        report_row(rows, key, types, height, seconds, cont).seconds == seconds,
        table_report(rows, key, types, height, seconds, cont) == rows.push(
            fresh_row(key, types, height, seconds),
        ),
{
}

/// A continuation report on a row with no outstanding viewer counts exactly
/// one more view and leaves the concurrent-viewer counter at zero.
pub proof fn lemma_continuation_counts_view(
    rows: Seq<ViewStat>,
    key: i32,
    types: i16,
    height: i64,
    seconds: i32,
)
    requires
        table_wf(rows),
        has_row(rows, key),
        row_of(rows, key).now_u == 0,
        can_report(rows, key, height, seconds, true),
    ensures
        report_row(rows, key, types, height, seconds, true).view == row_of(rows, key).view + 1,
        report_row(rows, key, types, height, seconds, true).now_u == 0,
        report_row(rows, key, types, height, seconds, true).height == row_of(rows, key).height
            + height,
        report_row(rows, key, types, height, seconds, true).seconds == row_of(rows, key).seconds
            + seconds,
{
}

/// A report on a row with outstanding viewers releases exactly one of them;
/// only a continuation also counts the view and adds the reported totals.
pub proof fn lemma_end_view_decrements(
    rows: Seq<ViewStat>,
    key: i32,
    types: i16,
    height: i64,
    seconds: i32,
    cont: bool,
)
    requires
        table_wf(rows),
        has_row(rows, key),
        row_of(rows, key).now_u > 0,
        can_report(rows, key, height, seconds, cont),
    ensures
        report_row(rows, key, types, height, seconds, cont).now_u == row_of(rows, key).now_u - 1,
        cont ==> report_row(rows, key, types, height, seconds, cont).view == row_of(
            rows,
            key,
        ).view + 1,
        !cont ==> report_row(rows, key, types, height, seconds, cont).view == row_of(
            rows,
            key,
        ).view && report_row(rows, key, types, height, seconds, cont).height == row_of(
            rows,
            key,
        ).height && report_row(rows, key, types, height, seconds, cont).seconds == row_of(
            rows,
            key,
        ).seconds,
{
}

/// The report rule keeps every table well formed; in particular no
/// concurrent-viewer counter is ever driven below zero, because the rule only
/// decrements a counter it has seen to be positive.
pub proof fn lemma_report_preserves_wf(
    rows: Seq<ViewStat>,
    key: i32,
    types: i16,
    height: i64,
    seconds: i32,
    cont: bool,
)
    requires
        table_wf(rows),
    ensures
        table_wf(table_report(rows, key, types, height, seconds, cont)),
        forall|i: int|
            0 <= i < table_report(rows, key, types, height, seconds, cont).len()
                ==> #[trigger] table_report(rows, key, types, height, seconds, cont)[i].now_u >= 0,
{
    let out = table_report(rows, key, types, height, seconds, cont);
    assert forall|i: int| 0 <= i < out.len() implies #[trigger] out[i].now_u >= 0 && out[i].key
        == if i < rows.len() {
        rows[i].key
    } else {
        key
    } by {
        if i < rows.len() {
            assert(rows[i].now_u >= 0);
        }
    }
}

/// The view-start rule keeps every table well formed too.
pub proof fn lemma_start_preserves_wf(rows: Seq<ViewStat>, key: i32, types: i16)
    requires
        table_wf(rows),
        can_start(rows, key),
    ensures
        table_wf(table_start(rows, key, types)),
{
    let out = table_start(rows, key, types);
    assert forall|i: int| 0 <= i < out.len() implies #[trigger] out[i].now_u >= 0 && out[i].key
        == if i < rows.len() {
        rows[i].key
    } else {
        key
    } by {
        if i < rows.len() {
            assert(rows[i].now_u >= 0);
        }
    }
}

/// Two reports on a fresh entity accumulate their heights and seconds
/// exactly: heights are stored in hundredths, so the first stored value is
/// already exact at two decimal places when the second report adds to it.
pub proof fn lemma_two_reports_accumulate(
    rows: Seq<ViewStat>,
    key: i32,
    types: i16,
    h1: i64,
    s1: i32,
    c1: bool,
    h2: i64,
    s2: i32,
)
    requires
        table_wf(rows),
        !has_row(rows, key),
        i64::MIN <= h1 + h2 <= i64::MAX,
        i32::MIN <= s1 + s2 <= i32::MAX,
    ensures
        ({
            let rows1 = table_report(rows, key, types, h1, s1, c1);
            let after = report_row(rows1, key, types, h2, s2, true);
            after.height == h1 + h2 && after.seconds == s1 + s2 && after.view == 2 && after.now_u
                == 0
        }),
{
    let rows1 = table_report(rows, key, types, h1, s1, c1);
    let created = fresh_row(key, types, h1, s1);
    assert(rows1 == rows.push(created));
    assert(rows1[rows.len() as int] == created);
    assert(has_row(rows1, key));
    let c = choose|i: int| 0 <= i < rows1.len() && rows1[i].key == key;
    if c != rows.len() as int {
        assert(rows1[c] == rows[c]);
        assert(false);
    }
    assert(row_of(rows1, key) == created);
}

} // verus!
