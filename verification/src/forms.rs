//! The shapes of the site's submitted forms, as the web layer decodes them
//! from multipart payloads.

use vstd::prelude::*;

verus! {

/// One uploaded file: its submitted name and where it was stored.
#[derive(Clone, Debug)]
pub struct UploadedFiles {
    pub name: String,
    pub path: String,
}

/// A feedback form.
#[derive(Clone, Debug)]
pub struct FeedbackForm {
    pub username: String,
    pub email: String,
    pub message: String,
}

/// A category form.
#[derive(Clone, Debug)]
pub struct CategoriesForm {
    pub name: String,
    pub description: String,
    pub position: i16,
    pub image: String,
    pub level: i16,
    pub types: i16,
    pub slug: String,
}

/// A free-content form.
#[derive(Clone, Debug)]
pub struct ContentForm {
    pub content: Option<String>,
}

/// An item form, with the category, tag and option links it selects.
#[derive(Clone, Debug)]
pub struct ItemForms {
    pub title: String,
    pub description: Option<String>,
    pub link: Option<String>,
    pub main_image: Option<String>,
    pub category_list: Vec<i32>,
    pub tags_list: Vec<i32>,
    pub serve_list: Vec<i32>,
    pub close_tech_cats_list: Vec<i32>,
    pub position: i16,
    pub types: i16,
    pub slug: String,
}

/// An order form, with the options it selects and the files it attaches.
#[derive(Clone, Debug)]
pub struct OrderForms {
    pub title: String,
    pub types: i16,
    pub object_id: i32,
    pub username: String,
    pub description: Option<String>,
    pub email: String,
    pub files: Vec<String>,
    pub serve_list: Vec<i32>,
}

/// A file-upload form.
#[derive(Clone, Debug)]
pub struct FileForm {
    pub item_types: i16,
    pub types: i16,
    pub files: Vec<String>,
}

/// An option-category form.
#[derive(Clone, Debug)]
pub struct ServeCategoriesForm {
    pub name: String,
    pub description: String,
    pub tech_categories: i32,
    pub position: i16,
    pub default_price: i32,
}

} // verus!
