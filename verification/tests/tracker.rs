use sitestat::stat::{
    plus_category_stat, plus_item_stat, plus_page_stat, plus_tag_stat, EntityKind, StatStore,
    ViewStat,
};
use sitestat::websocket::Server;

fn hundredths(h: f64) -> i64 {
    (h * 100.0).round() as i64
}

fn row(store: &StatStore, kind: EntityKind, key: i32) -> ViewStat {
    store.find_stat(kind, key).expect("row should exist")
}

#[test]
fn first_report_creates_row() {
    let mut store = StatStore::new();
    let mut srv = Server::new();
    plus_item_stat(&mut store, &mut srv, 42, 1, hundredths(120.5), 30, false);
    let r = row(&store, EntityKind::Item, 42);
    assert_eq!(r.view, 1);
    assert_eq!(r.now_u, 0);
    assert_eq!(r.height, 12050);
    assert_eq!(r.seconds, 30);
    assert_eq!(r.types, 1);
}

#[test]
fn continuation_with_no_viewer_counts_a_view() {
    let mut store = StatStore::new();
    let mut srv = Server::new();
    plus_category_stat(&mut store, &mut srv, 7, 2, 100, 10, false);
    plus_category_stat(&mut store, &mut srv, 7, 2, 250, 20, true);
    let r = row(&store, EntityKind::Category, 7);
    assert_eq!(r.view, 2);
    assert_eq!(r.now_u, 0);
    assert_eq!(r.height, 350);
    assert_eq!(r.seconds, 30);
}

#[test]
fn continuation_with_viewers_counts_and_releases() {
    let mut store = StatStore::new();
    let mut srv = Server::new();
    plus_item_stat(&mut store, &mut srv, 5, 1, 100, 10, false);
    store.start_view(EntityKind::Item, 5, 1);
    store.start_view(EntityKind::Item, 5, 1);
    assert_eq!(row(&store, EntityKind::Item, 5).now_u, 2);
    plus_item_stat(&mut store, &mut srv, 5, 1, 50, 5, true);
    let r = row(&store, EntityKind::Item, 5);
    assert_eq!(r.now_u, 1);
    assert_eq!(r.view, 2);
    assert_eq!(r.height, 150);
    assert_eq!(r.seconds, 15);
}

#[test]
fn non_continuation_only_releases_a_viewer() {
    let mut store = StatStore::new();
    let mut srv = Server::new();
    plus_item_stat(&mut store, &mut srv, 5, 1, 100, 10, false);
    store.start_view(EntityKind::Item, 5, 1);
    plus_item_stat(&mut store, &mut srv, 5, 1, 999, 99, false);
    let r = row(&store, EntityKind::Item, 5);
    assert_eq!(r.now_u, 0);
    assert_eq!(r.view, 1);
    assert_eq!(r.height, 100);
    assert_eq!(r.seconds, 10);
}

#[test]
fn non_continuation_with_no_viewer_changes_nothing() {
    let mut store = StatStore::new();
    let mut srv = Server::new();
    plus_tag_stat(&mut store, &mut srv, 3, 100, 10, false);
    plus_tag_stat(&mut store, &mut srv, 3, 200, 20, false);
    let r = row(&store, EntityKind::Tag, 3);
    assert_eq!(r.view, 1);
    assert_eq!(r.now_u, 0);
    assert_eq!(r.height, 100);
    assert_eq!(r.seconds, 10);
}

#[test]
fn counter_never_negative_under_driven_interleavings() {
    // Drive a long pseudo-random interleaving of view-starts and view-ends
    // (both kinds) against one entity from a single thread; the counter must
    // never be observed negative, however the reports are mixed.
    let mut store = StatStore::new();
    let mut srv = Server::new();
    plus_item_stat(&mut store, &mut srv, 1, 1, 1, 1, false);
    let mut seed: u64 = 0x2545F4914F6CDD1D;
    let mut expected: i16 = 0;
    for _ in 0..1000 {
        seed = seed.wrapping_mul(6364136223846793005).wrapping_add(1442695040888963407);
        match seed >> 62 {
            0 => {
                store.start_view(EntityKind::Item, 1, 1);
                expected += 1;
            }
            1 => {
                plus_item_stat(&mut store, &mut srv, 1, 1, 1, 1, true);
                expected = if expected > 0 { expected - 1 } else { 0 };
            }
            _ => {
                plus_item_stat(&mut store, &mut srv, 1, 1, 1, 1, false);
                expected = if expected > 0 { expected - 1 } else { 0 };
            }
        }
        let now_u = row(&store, EntityKind::Item, 1).now_u;
        assert!(now_u >= 0);
        assert_eq!(now_u, expected);
    }
}

#[test]
fn counter_never_negative_under_interleaving() {
    let mut store = StatStore::new();
    let mut srv = Server::new();
    plus_page_stat(&mut store, &mut srv, 1, 10, 1, false);
    // Alternate starts and ends, with more ends than starts: the counter
    // must never be observed negative.
    let steps: Vec<(bool, bool)> = vec![
        (true, false),
        (false, true),
        (false, false),
        (true, false),
        (true, false),
        (false, true),
        (false, false),
        (false, true),
        (false, false),
        (false, true),
    ];
    for (start, cont) in steps {
        if start {
            store.start_view(EntityKind::Page, 1, 1);
        } else {
            plus_page_stat(&mut store, &mut srv, 1, 10, 1, cont);
        }
        assert!(row(&store, EntityKind::Page, 1).now_u >= 0);
    }
}

#[test]
fn heights_accumulate_in_hundredths() {
    let mut store = StatStore::new();
    let mut srv = Server::new();
    plus_item_stat(&mut store, &mut srv, 9, 1, hundredths(120.5), 30, false);
    plus_item_stat(&mut store, &mut srv, 9, 1, hundredths(80.25), 15, true);
    let r = row(&store, EntityKind::Item, 9);
    assert_eq!(r.height, hundredths(120.5) + hundredths(80.25));
    assert_eq!(r.height, 20075);
    assert_eq!(r.height as f64 / 100.0, 200.75);
    assert_eq!(r.seconds, 45);
    assert_eq!(r.view, 2);
}

#[test]
fn page_rows_are_keyed_by_classification_code() {
    let mut store = StatStore::new();
    let mut srv = Server::new();
    plus_page_stat(&mut store, &mut srv, 1, 10, 1, false);
    plus_page_stat(&mut store, &mut srv, 2, 20, 2, false);
    plus_page_stat(&mut store, &mut srv, 1, 30, 3, true);
    assert_eq!(row(&store, EntityKind::Page, 1).view, 2);
    assert_eq!(row(&store, EntityKind::Page, 2).view, 1);
    assert!(store.find_stat(EntityKind::Page, 3).is_none());
}

#[test]
fn tables_are_independent() {
    let mut store = StatStore::new();
    let mut srv = Server::new();
    plus_category_stat(&mut store, &mut srv, 4, 1, 10, 1, false);
    plus_item_stat(&mut store, &mut srv, 4, 1, 20, 2, false);
    plus_tag_stat(&mut store, &mut srv, 4, 30, 3, false);
    assert_eq!(row(&store, EntityKind::Category, 4).height, 10);
    assert_eq!(row(&store, EntityKind::Item, 4).height, 20);
    assert_eq!(row(&store, EntityKind::Tag, 4).height, 30);
    assert!(store.find_stat(EntityKind::Page, 4).is_none());
}

#[test]
fn report_broadcasts_new_count_to_every_connection() {
    let mut store = StatStore::new();
    let mut srv = Server::new();
    let a = srv.register();
    let b = srv.register();
    plus_item_stat(&mut store, &mut srv, 42, 1, 100, 10, false);
    store.start_view(EntityKind::Item, 42, 1);
    store.start_view(EntityKind::Item, 42, 1);
    plus_item_stat(&mut store, &mut srv, 42, 1, 50, 5, false);
    let frames_a = srv.drain_outbox(a);
    let frames_b = srv.drain_outbox(b);
    assert_eq!(frames_a.len(), 2);
    assert_eq!(frames_a, frames_b);
    assert_eq!(
        frames_a[0],
        "{\"event\":\"end_object_view\",\"subject_id\":1,\"payload\":\"0\"}"
    );
    assert_eq!(
        frames_a[1],
        "{\"event\":\"end_object_view\",\"subject_id\":1,\"payload\":\"1\"}"
    );
}
