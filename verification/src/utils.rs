//! Small shared helpers: the order-price discount bands, Russian count
//! pluralization, and the category lists the site's layouts show.

use vstd::prelude::*;
use vstd::string::*;
use crate::item::{cats_of_type, cats_rendered, Cat, Categories, get_categories_for_types};
use crate::text::{dec_int, i64_to_dec_string};

verus! {

/// The per-request counters behind a status endpoint.
#[derive(Clone, Debug)]
pub struct IndexResponse {
    pub server_id: usize,
    pub request_count: usize,
    pub messages: Vec<String>,
}

/// Discount on an accumulated order price, by price band: ten percent above
/// three million, seven percent above two million, five percent above one
/// million, and none below that.  Prices right at a band boundary fall
/// through every band and earn no discount.
pub fn get_price_acc_values(price: &i32) -> (acc: Option<i32>)
    requires
        *price <= 214_748_364,
    ensures
        *price > 3_000_000 ==> acc == Some(((*price * 10) / 100) as i32),
        2_000_000 < *price < 3_000_000 ==> acc == Some(((*price * 7) / 100) as i32),
        1_000_000 < *price < 2_000_000 ==> acc == Some(((*price * 5) / 100) as i32),
        (*price <= 1_000_000 || *price == 2_000_000 || *price == 3_000_000) ==> acc is None,
{
    if *price > 3_000_000 {
        let acc = (*price * 10) / 100;
        Some(acc)
    } else if *price > 2_000_000 && *price < 3_000_000 {
        let acc = (*price * 7) / 100;
        Some(acc)
    } else if *price > 1_000_000 && *price < 2_000_000 {
        let acc = (*price * 5) / 100;
        Some(acc)
    } else {
        None
    }
}

/// The word that follows a count in Russian: the first form after counts
/// ending in 1 (but not 11), the second after counts ending in 2 to 4 (but
/// not 12 to 14), the third otherwise — negative counts included.
pub open spec fn ru_plural_word(
    count: int,
    word1: Seq<char>,
    word2: Seq<char>,
    word3: Seq<char>,
) -> Seq<char> {
    if count < 0 {
        word3
    } else {
        let a = count % 10;
        let b = count % 100;
        if a == 1 && b != 11 {
            word1
        } else if 2 <= a <= 4 && (b < 10 || b >= 20) {
            word2
        } else {
            word3
        }
    }
}

/// Renders a count followed by its correctly declined Russian word.
pub fn get_count_for_ru(count: i16, word1: String, word2: String, word3: String) -> (r: String)
    ensures
        r@ == dec_int(count as int) + ru_plural_word(count as int, word1@, word2@, word3@),
{
    let count_str = i64_to_dec_string(count as i64);
    if count < 0 {
        return count_str.concat(word3.as_str());
    }
    let a = count % 10;
    let b = count % 100;
    if a == 1 && b != 11 {
        count_str.concat(word1.as_str())
    } else if a >= 2 && a <= 4 && (b < 10 || b >= 20) {
        count_str.concat(word2.as_str())
    } else {
        count_str.concat(word3.as_str())
    }
}

/// The six category lists the site's layouts show, in the order the
/// templates expect: services, store products, blog posts, wiki articles,
/// works, help articles.
pub fn get_categories_2(cats: &Vec<Categories>) -> (r: (
    Vec<Cat>,
    Vec<Cat>,
    Vec<Cat>,
    Vec<Cat>,
    Vec<Cat>,
    Vec<Cat>,
))
    ensures
        cats_rendered(r.0@) == cats_of_type(cats@, 2),
        cats_rendered(r.1@) == cats_of_type(cats@, 3),
        cats_rendered(r.2@) == cats_of_type(cats@, 1),
        cats_rendered(r.3@) == cats_of_type(cats@, 4),
        cats_rendered(r.4@) == cats_of_type(cats@, 5),
        cats_rendered(r.5@) == cats_of_type(cats@, 6),
{
    let service_cats = get_categories_for_types(cats, 2);
    let store_cats = get_categories_for_types(cats, 3);
    let blog_cats = get_categories_for_types(cats, 1);
    let wiki_cats = get_categories_for_types(cats, 4);
    let work_cats = get_categories_for_types(cats, 5);
    let help_cats = get_categories_for_types(cats, 6);
    (service_cats, store_cats, blog_cats, wiki_cats, work_cats, help_cats)
}

} // verus!
