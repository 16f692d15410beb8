use sitestat::auth::{find_user, find_user_candidate, LoginUser2, SessionUser, User};
use sitestat::errors::{AuthError, Error, ErrorResponse};
use sitestat::item::{get_categories_for_types, Cat, Categories, Category, Help, Service};
use sitestat::media::NewFile;
use sitestat::order::NewOrderFile;
use sitestat::serve::{get_level_ru, Serve};
use sitestat::tag::{Tag, TagItems, TagStore};
use sitestat::utils::get_categories_2;

fn user(id: i32, username: &str, password: &str, perm: i16) -> User {
    User {
        id,
        username: String::from(username),
        email: String::from("u@example.com"),
        password: String::from(password),
        bio: None,
        image: None,
        perm,
    }
}

fn category(id: i32, name: &str, types: i16) -> Categories {
    Categories {
        id,
        name: String::from(name),
        description: None,
        position: 0,
        image: None,
        count: 0,
        view: 0,
        height: 0,
        seconds: 0,
        types,
        slug: String::from(name),
        now_u: 0,
    }
}

fn tag(id: i32, name: &str, count: i16) -> Tag {
    Tag {
        id,
        name: String::from(name),
        position: 0,
        count,
        user_id: 1,
        view: 0,
        height: 0,
        seconds: 0,
        now_u: 0,
    }
}

fn link(tag_id: i32, item_id: i32, types: i16) -> TagItems {
    TagItems { id: 0, tag_id, item_id, types, created: 0 }
}

#[test]
fn superusers_sit_above_permission_59() {
    assert!(user(1, "root", "x", 60).is_superuser());
    assert!(!user(2, "staff", "x", 59).is_superuser());
}

#[test]
fn login_resolves_the_last_account_under_a_username() {
    let users = vec![
        user(1, "ivan", "old-hash", 10),
        user(2, "anna", "hash-a", 10),
        user(3, "ivan", "new-hash", 10),
    ];
    let idx = find_user_candidate(&users, &String::from("ivan")).unwrap();
    assert_eq!(idx, 2);
    assert_eq!(users[idx].password, "new-hash");
    let data = LoginUser2 { username: String::from("ivan"), password: String::from("pw") };
    let su: SessionUser = find_user(&users, &data, true).unwrap();
    assert_eq!(su.id, 3);
    assert_eq!(su.username, "ivan");
}

#[test]
fn login_fails_without_a_match() {
    let users = vec![user(1, "ivan", "h", 10)];
    let missing = LoginUser2 { username: String::from("oleg"), password: String::from("pw") };
    match find_user(&users, &missing, true) {
        Err(AuthError::NotFound(m)) => assert_eq!(m, "User not found"),
        _ => panic!("expected the not-found error"),
    }
    let wrong_pw = LoginUser2 { username: String::from("ivan"), password: String::from("pw") };
    assert!(find_user(&users, &wrong_pw, false).is_err());
}

#[test]
fn images_fall_back_to_the_placeholder() {
    let with = Service {
        id: 1,
        slug: String::from("s"),
        image: Some(String::from("/media/s.png")),
        is_active: true,
        title: String::from("S"),
        description: None,
    };
    let without = Service { image: None, ..with.clone() };
    assert_eq!(with.get_image(), "/media/s.png");
    assert_eq!(without.get_image(), "/static/images/img.jpg");
}

#[test]
fn tags_come_back_in_table_order_for_the_right_item() {
    let store = TagStore {
        tags: vec![tag(1, "rust", 3), tag(2, "webdev", 5), tag(3, "design", 1)],
        links: vec![link(3, 7, 2), link(1, 7, 2), link(2, 7, 3), link(1, 8, 2)],
    };
    let item = Service {
        id: 7,
        slug: String::from("svc"),
        image: None,
        is_active: true,
        title: String::from("Svc"),
        description: None,
    };
    let tags = item.get_tags(&store);
    let names: Vec<&str> = tags.iter().map(|t| t.name.as_str()).collect();
    assert_eq!(names, vec!["rust", "design"]);
    assert_eq!(tags[0].count, 3);
}

#[test]
fn an_item_with_no_links_has_no_tags() {
    let store = TagStore { tags: vec![tag(1, "rust", 3)], links: vec![] };
    let item = Service {
        id: 7,
        slug: String::from("svc"),
        image: None,
        is_active: true,
        title: String::from("Svc"),
        description: None,
    };
    assert!(item.get_tags(&store).is_empty());
}

#[test]
fn help_articles_resolve_their_category() {
    let cats = vec![category(1, "faq", 6), category(2, "guides", 6)];
    let links = vec![
        Category { id: 1, categories_id: 2, item_id: 10, types: 6 },
        Category { id: 2, categories_id: 1, item_id: 10, types: 6 },
    ];
    let help = Help { id: 10, is_active: true, title: String::from("H"), content: None };
    let cat = help.get_category(&cats, &links);
    assert_eq!(cat.name, "guides");
}

#[test]
fn category_lists_split_by_content_type() {
    let cats = vec![
        category(1, "blogcat", 1),
        category(2, "svccat", 2),
        category(3, "storecat", 3),
        category(4, "wikicat", 4),
        category(5, "workcat", 5),
        category(6, "helpcat", 6),
        category(7, "svccat2", 2),
    ];
    let lists = get_categories_2(&cats);
    let names = |v: &Vec<Cat>| v.iter().map(|c| c.name.clone()).collect::<Vec<String>>();
    assert_eq!(names(&lists.0), vec!["svccat", "svccat2"]);
    assert_eq!(names(&lists.1), vec!["storecat"]);
    assert_eq!(names(&lists.2), vec!["blogcat"]);
    assert_eq!(names(&lists.3), vec!["wikicat"]);
    assert_eq!(names(&lists.4), vec!["workcat"]);
    assert_eq!(names(&lists.5), vec!["helpcat"]);
    assert_eq!(
        get_categories_for_types(&cats, 9).len(),
        0
    );
}

#[test]
fn new_files_start_with_zero_counters() {
    let f = NewFile::create(1, 2, 3, 4, String::from("/media/a.png"));
    assert_eq!(f.user_id, 1);
    assert_eq!(f.item_id, 2);
    assert_eq!(f.item_types, 3);
    assert_eq!(f.types, 4);
    assert_eq!(f.src, "/media/a.png");
    assert!(f.description.is_none());
    assert_eq!((f.position, f.view, f.seconds), (0, 0, 0));
}

#[test]
fn new_order_files_carry_their_order() {
    let f = NewOrderFile::create(9, String::from("/media/o.pdf"));
    assert_eq!(f.order_id, 9);
    assert_eq!(f.src, "/media/o.pdf");
}

#[test]
fn levels_render_their_russian_names() {
    assert_eq!(get_level_ru(0), "Бюджетно");
    assert_eq!(get_level_ru(4), "Экспертно");
    assert_eq!(get_level_ru(9), "Непонятно");
}

#[test]
fn man_hours_render_with_the_declined_word() {
    let serve = Serve {
        id: 1,
        name: String::from("opt"),
        description: None,
        position: 0,
        serve_categories: 1,
        price: 100,
        man_hours: 5,
        is_default: true,
        user_id: 1,
        tech_cat_id: 1,
        height: 0,
        seconds: 0,
        serve_id: None,
        view: 0,
    };
    assert_eq!(serve.get_hours(), "5 часов");
    let one = Serve { man_hours: 21, ..serve.clone() };
    assert_eq!(one.get_hours(), "21 час");
    let few = Serve { man_hours: 3, ..serve };
    assert_eq!(few.get_hours(), "3 часа");
}

#[test]
fn errors_compare_and_carry_messages() {
    let a = Error::NotFound(String::from("x"));
    let b = Error::NotFound(String::from("x"));
    let c = Error::Forbidden;
    assert!(a == b);
    assert!(a != c);
    let auth = AuthError::AuthenticationError(String::from("bad session"));
    assert_eq!(auth.message(), "bad session");
    let resp = ErrorResponse::from_message("boom");
    assert_eq!(resp.errors, vec![String::from("boom")]);
}
