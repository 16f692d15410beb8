//! The option tree behind custom-service orders: technology categories hold
//! option categories, which hold priced options (serve rows); options can
//! carry variants of themselves.

use vstd::prelude::*;
use vstd::string::*;
use crate::utils::{get_count_for_ru, ru_plural_word};
use crate::text::dec_int;

verus! {

/// A priced option.  Scroll heights are in hundredths.
#[derive(Clone, Debug)]
pub struct Serve {
    pub id: i32,
    pub name: String,
    pub description: Option<String>,
    pub position: i16,
    pub serve_categories: i32,
    pub price: i32,
    pub man_hours: i16,
    pub is_default: bool,
    pub user_id: i32,
    pub tech_cat_id: i32,
    pub height: i64,
    pub seconds: i32,
    pub serve_id: Option<i32>,
    pub view: i32,
}

/// The option fields a variant picker renders.
#[derive(Clone, Debug)]
pub struct ServeVar {
    pub id: i32,
    pub name: String,
    pub price: i32,
    pub man_hours: i16,
    pub is_default: bool,
}

impl Serve {
    /// The option's man-hours, rendered with the correctly declined Russian
    /// word for "hours".
    pub fn get_hours(&self) -> (r: String)
        ensures
            r@ == dec_int(self.man_hours as int) + ru_plural_word(
                self.man_hours as int,
                " час"@,
                " часа"@,
                " часов"@,
            ),
    {
        get_count_for_ru(
            self.man_hours,
            String::from_str(" час"),
            String::from_str(" часа"),
            String::from_str(" часов"),
        )
    }
}

/// The fields an option can be edited through.
#[derive(Clone, Debug)]
pub struct EditServe {
    pub name: String,
    pub description: Option<String>,
    pub position: i16,
    pub serve_categories: i32,
    pub price: i32,
    pub man_hours: i16,
    pub is_default: bool,
}

/// An option form, as a multipart payload carries it.
#[derive(Clone, Debug)]
pub struct ServeForm {
    pub name: String,
    pub description: String,
    pub position: i16,
    pub serve_categories: i32,
    pub price: i32,
    pub man_hours: i16,
    pub is_default: bool,
    pub serve_id: Option<i32>,
}

/// One option-to-item link; `types` is the item's content-type code.
#[derive(Clone, Copy, Debug)]
pub struct ServeItems {
    pub id: i32,
    pub serve_id: i32,
    pub item_id: i32,
    pub types: i16,
}

/// The insertable form of an option-to-item link.
#[derive(Clone, Copy, Debug)]
pub struct NewServeItems {
    pub serve_id: i32,
    pub item_id: i32,
    pub types: i16,
}

/// One technology-category-to-item link; `is_active` tells an open choice
/// from a closed one.
#[derive(Clone, Copy, Debug)]
pub struct TechCategoriesItem {
    pub id: i32,
    pub category_id: i32,
    pub item_id: i32,
    pub types: i16,
    pub is_active: i16,
}

/// The insertable form of a technology-category-to-item link.
#[derive(Clone, Copy, Debug)]
pub struct NewTechCategoriesItem {
    pub category_id: i32,
    pub item_id: i32,
    pub types: i16,
    pub is_active: i16,
}

/// The level names a technology category renders as.
pub open spec fn level_name_ru(level: i16) -> Seq<char> {
    if level == 0 {
        "Бюджетно"@
    } else if level == 1 {
        "Обычно"@
    } else if level == 2 {
        "Средне"@
    } else if level == 3 {
        "Сложно"@
    } else if level == 4 {
        "Экспертно"@
    } else {
        "Непонятно"@
    }
}

/// The Russian name of a technology category's complexity level.
pub fn get_level_ru(level: i16) -> (r: String)
    ensures
        r@ == level_name_ru(level),
{
    if level == 0 {
        String::from_str("Бюджетно")
    } else if level == 1 {
        String::from_str("Обычно")
    } else if level == 2 {
        String::from_str("Средне")
    } else if level == 3 {
        String::from_str("Сложно")
    } else if level == 4 {
        String::from_str("Экспертно")
    } else {
        String::from_str("Непонятно")
    }
}

} // verus!
