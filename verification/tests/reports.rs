use sitestat::errors::Error;
use sitestat::history::{
    create_history, create_history_at, CookieUser, HistoryData, HistoryStore,
};
use sitestat::stat::{EntityKind, StatStore};
use sitestat::websocket::Server;

fn visitor(id: i32) -> CookieUser {
    CookieUser {
        id,
        ip: String::from("127.0.0.1"),
        device: 1,
        city_ru: None,
        city_en: Some(String::from("Samara")),
        region_ru: None,
        region_en: None,
        country_ru: None,
        country_en: None,
        height: 0,
        seconds: 0,
        created: 0,
    }
}

fn report(user_id: i32, object_id: i32, page_id: i16, height: i64, seconds: i32) -> HistoryData {
    HistoryData {
        user_id,
        object_id,
        page_id,
        link: String::from("/blog/42/"),
        title: String::from("A post"),
        height,
        seconds,
        template: String::from("rhythm"),
    }
}

fn hundredths(h: f64) -> i64 {
    (h * 100.0).round() as i64
}

#[test]
fn unknown_visitor_is_not_found() {
    let mut hist = HistoryStore::new();
    let mut stats = StatStore::new();
    let mut srv = Server::new();
    let r = create_history_at(&mut hist, &mut stats, &mut srv, &report(5, 42, 43, 100, 1), 0);
    match r {
        Err(Error::NotFound(m)) => assert_eq!(m, "Record not found"),
        _ => panic!("expected the not-found error"),
    }
    assert_eq!(hist.cookie_stats.len(), 0);
    assert!(stats.find_stat(EntityKind::Item, 42).is_none());
}

#[test]
fn fresh_entity_report_scenario() {
    // A first report for visitor 5 on item 42 under page code 43.
    let mut hist = HistoryStore::new();
    let mut stats = StatStore::new();
    let mut srv = Server::new();
    let conn = srv.register();
    hist.add_user(visitor(5));
    let r = create_history_at(
        &mut hist,
        &mut stats,
        &mut srv,
        &report(5, 42, 43, hundredths(120.5), 30),
        1000,
    );
    let row = r.expect("the report should be recorded");
    assert_eq!(row.user_id, 5);
    assert_eq!(row.page, 43);
    assert_eq!(row.height, 12050);
    assert_eq!(row.seconds, 30);
    assert_eq!(row.created, 1000);
    let stat = stats.find_stat(EntityKind::Item, 42).expect("the row should exist");
    assert_eq!(stat.view, 1);
    assert_eq!(stat.now_u, 0);
    assert_eq!(stat.height, 12050);
    assert_eq!(stat.seconds, 30);
    let frames = srv.drain_outbox(conn);
    assert_eq!(frames.len(), 1);
    let v: serde_json::Value = serde_json::from_str(&frames[0]).unwrap();
    assert_eq!(v["event"].as_str(), Some("end_object_view"));
    assert_eq!(v["subject_id"].as_i64(), Some(stat.types as i64));
    assert_eq!(v["payload"].as_str(), Some("0"));
}

#[test]
fn second_report_continues_the_session() {
    // The same visitor reports the same URL again: a continuation.
    let mut hist = HistoryStore::new();
    let mut stats = StatStore::new();
    let mut srv = Server::new();
    hist.add_user(visitor(5));
    create_history_at(
        &mut hist,
        &mut stats,
        &mut srv,
        &report(5, 42, 43, hundredths(120.5), 30),
        1000,
    )
    .unwrap();
    create_history_at(
        &mut hist,
        &mut stats,
        &mut srv,
        &report(5, 42, 43, hundredths(80.25), 15),
        1010,
    )
    .unwrap();
    let stat = stats.find_stat(EntityKind::Item, 42).unwrap();
    assert_eq!(stat.view, 2);
    assert_eq!(stat.height, 20075);
    assert_eq!(stat.seconds, 45);
    // The continuation also adds the totals to the visitor's own counters.
    let u = &hist.cookie_users[0];
    assert_eq!(u.height, hundredths(80.25));
    assert_eq!(u.seconds, 15);
    // One session row per (visitor, URL) pair: the second report refreshed
    // the first row in place.
    assert_eq!(hist.cookie_stats.len(), 1);
    let session = &hist.cookie_stats[0];
    assert_eq!(session.id, 1);
    assert_eq!(session.height, hundredths(80.25));
    assert_eq!(session.seconds, 15);
    assert_eq!(session.created, 1010);
}

#[test]
fn a_pair_keeps_one_refreshed_session_row() {
    let mut hist = HistoryStore::new();
    let mut stats = StatStore::new();
    let mut srv = Server::new();
    hist.add_user(visitor(5));
    let first = create_history_at(&mut hist, &mut stats, &mut srv, &report(5, 0, 1, 100, 10), 50)
        .unwrap();
    let second = create_history_at(&mut hist, &mut stats, &mut srv, &report(5, 0, 1, 300, 20), 60)
        .unwrap();
    let third = create_history_at(&mut hist, &mut stats, &mut srv, &report(5, 0, 1, 700, 30), 70)
        .unwrap();
    assert_eq!(hist.cookie_stats.len(), 1);
    assert_eq!(first.id, second.id);
    assert_eq!(second.id, third.id);
    assert_eq!(hist.cookie_stats[0].height, 700);
    assert_eq!(hist.cookie_stats[0].seconds, 30);
    assert_eq!(hist.cookie_stats[0].created, 70);
}

#[test]
fn first_visit_leaves_visitor_totals_alone() {
    let mut hist = HistoryStore::new();
    let mut stats = StatStore::new();
    let mut srv = Server::new();
    hist.add_user(visitor(5));
    create_history_at(&mut hist, &mut stats, &mut srv, &report(5, 42, 43, 100, 30), 0).unwrap();
    let u = &hist.cookie_users[0];
    assert_eq!(u.height, 0);
    assert_eq!(u.seconds, 0);
}

#[test]
fn page_level_report_uses_the_page_event() {
    let mut hist = HistoryStore::new();
    let mut stats = StatStore::new();
    let mut srv = Server::new();
    let conn = srv.register();
    hist.add_user(visitor(5));
    create_history_at(&mut hist, &mut stats, &mut srv, &report(5, 0, 1, 100, 30), 0).unwrap();
    let stat = stats.find_stat(EntityKind::Page, 1).unwrap();
    assert_eq!(stat.view, 1);
    let frames = srv.drain_outbox(conn);
    let v: serde_json::Value = serde_json::from_str(&frames[0]).unwrap();
    assert_eq!(v["event"].as_str(), Some("end_page_view"));
    assert_eq!(v["subject_id"].as_i64(), Some(1));
}

#[test]
fn category_and_tag_codes_route_to_their_tables() {
    let mut hist = HistoryStore::new();
    let mut stats = StatStore::new();
    let mut srv = Server::new();
    hist.add_user(visitor(5));
    create_history_at(&mut hist, &mut stats, &mut srv, &report(5, 8, 62, 100, 30), 0).unwrap();
    create_history_at(&mut hist, &mut stats, &mut srv, &report(5, 9, 32, 100, 30), 0).unwrap();
    let cat = stats.find_stat(EntityKind::Category, 8).unwrap();
    assert_eq!(cat.types, 2);
    assert!(stats.find_stat(EntityKind::Tag, 9).is_some());
    assert!(stats.find_stat(EntityKind::Item, 8).is_none());
}

#[test]
fn unknown_page_code_records_only_the_session() {
    let mut hist = HistoryStore::new();
    let mut stats = StatStore::new();
    let mut srv = Server::new();
    let conn = srv.register();
    hist.add_user(visitor(5));
    let r = create_history_at(&mut hist, &mut stats, &mut srv, &report(5, 42, 99, 100, 30), 0);
    assert!(r.is_ok());
    assert_eq!(hist.cookie_stats.len(), 1);
    assert!(stats.find_stat(EntityKind::Category, 42).is_none());
    assert!(stats.find_stat(EntityKind::Item, 42).is_none());
    assert_eq!(srv.drain_outbox(conn).len(), 0);
}

#[test]
fn session_rows_get_sequential_ids() {
    let mut hist = HistoryStore::new();
    let mut stats = StatStore::new();
    let mut srv = Server::new();
    hist.add_user(visitor(5));
    let mut on_home = report(5, 0, 1, 1, 1);
    on_home.link = String::from("/");
    let a = create_history_at(&mut hist, &mut stats, &mut srv, &report(5, 0, 2, 1, 1), 0).unwrap();
    let b = create_history_at(&mut hist, &mut stats, &mut srv, &on_home, 0).unwrap();
    assert_eq!(a.id, 1);
    assert_eq!(b.id, 2);
    assert_eq!(hist.cookie_stats.len(), 2);
}

#[test]
fn clocked_report_stamps_a_later_time() {
    let mut hist = HistoryStore::new();
    let mut stats = StatStore::new();
    let mut srv = Server::new();
    hist.add_user(visitor(5));
    let row = create_history(&mut hist, &mut stats, &mut srv, &report(5, 0, 1, 1, 1)).unwrap();
    // The stamp sits three hours ahead of the wall clock; any plausible
    // present-day clock stays far above this bound.
    assert!(row.created > 10800);
}
