use sitestat::history::{CookieStat, CookieUser};

fn session(id: i32, user_id: i32, link: &str) -> CookieStat {
    CookieStat {
        id,
        user_id,
        page: 1,
        link: String::from(link),
        title: String::from("t"),
        height: 100,
        seconds: 10,
        created: id as i64,
        template: String::from("rhythm"),
    }
}

fn visitor(id: i32, height: i64, seconds: i32) -> CookieUser {
    CookieUser {
        id,
        ip: String::from("127.0.0.1"),
        device: 1,
        city_ru: None,
        city_en: None,
        region_ru: None,
        region_en: None,
        country_ru: None,
        country_en: None,
        height,
        seconds,
        created: id as i64,
    }
}

#[test]
fn stat_items_come_newest_first_for_one_visitor() {
    let stats = vec![
        session(1, 5, "/a/"),
        session(2, 6, "/b/"),
        session(3, 5, "/c/"),
        session(4, 5, "/d/"),
    ];
    let rows = CookieStat::get_stat_items(&stats, 5, 10, 0).unwrap();
    let ids: Vec<i32> = rows.iter().map(|r| r.id).collect();
    assert_eq!(ids, vec![4, 3, 1]);
}

#[test]
fn stat_items_window_by_limit_and_offset() {
    let stats: Vec<CookieStat> = (1..=7).map(|i| session(i, 5, "/x/")).collect();
    let rows = CookieStat::get_stat_items(&stats, 5, 2, 1).unwrap();
    let ids: Vec<i32> = rows.iter().map(|r| r.id).collect();
    assert_eq!(ids, vec![6, 5]);
    assert!(CookieStat::get_stat_items(&stats, 5, 3, 100).unwrap().is_empty());
    assert!(CookieStat::get_stat_items(&stats, 9, 3, 0).unwrap().is_empty());
}

#[test]
fn stat_list_reports_the_next_page() {
    let stats: Vec<CookieStat> = (1..=7).map(|i| session(i, 5, "/x/")).collect();
    let (rows, next) = CookieStat::get_stat_list(&stats, 5, 1, 5).unwrap();
    assert_eq!(rows.len(), 5);
    assert_eq!(next, 2);
    let (rows2, next2) = CookieStat::get_stat_list(&stats, 5, 2, 5).unwrap();
    // Pages past the first start twenty rows in, past the end of this list.
    assert_eq!(rows2.len(), 0);
    assert_eq!(next2, 0);
}

#[test]
fn stat_list_last_page_has_no_next() {
    let stats: Vec<CookieStat> = (1..=3).map(|i| session(i, 5, "/x/")).collect();
    let (rows, next) = CookieStat::get_stat_list(&stats, 5, 1, 5).unwrap();
    assert_eq!(rows.len(), 3);
    assert_eq!(next, 0);
}

#[test]
fn user_listing_skips_visitors_without_totals() {
    let users = vec![
        visitor(1, 0, 0),
        visitor(2, 100, 10),
        visitor(3, 100, 0),
        visitor(4, 0, 10),
        visitor(5, 50, 5),
    ];
    let rows = CookieUser::get_users(&users, 10, 0);
    let ids: Vec<i32> = rows.iter().map(|r| r.id).collect();
    assert_eq!(ids, vec![5, 2]);
}

#[test]
fn user_listing_pages_like_the_sessions() {
    let users: Vec<CookieUser> = (1..=6).map(|i| visitor(i, 100, 10)).collect();
    let (rows, next) = CookieUser::get_users_list(&users, 1, 4);
    let ids: Vec<i32> = rows.iter().map(|r| r.id).collect();
    assert_eq!(ids, vec![6, 5, 4, 3]);
    assert_eq!(next, 2);
}
