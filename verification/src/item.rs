//! Content items and their categories: blog posts, services, store products,
//! wiki articles, works and help articles, with the getters list pages use.

use vstd::prelude::*;
use vstd::string::*;
use crate::tag::{rendered, tags_of_item, SmallTag, TagStore};

verus! {

/// The image behind an optional image field: a stored path, or the site's
/// placeholder.
pub open spec fn image_or_default(image: Option<String>) -> Seq<char> {
    match image {
        Some(s) => s@,
        None => "/static/images/img.jpg"@,
    }
}

fn image_of(image: &Option<String>) -> (r: String)
    ensures
        r@ == image_or_default(*image),
{
    match image {
        Some(s) => s.clone(),
        None => String::from_str("/static/images/img.jpg"),
    }
}

/// The category fields list pages render.
#[derive(Clone, Debug)]
pub struct Cat {
    pub name: String,
    pub slug: String,
    pub count: i16,
    pub id: i32,
    pub image: Option<String>,
}

impl Cat {
    pub fn get_image(&self) -> (r: String)
        ensures
            r@ == image_or_default(self.image),
    {
        image_of(&self.image)
    }
}

/// The smallest category rendering.
#[derive(Clone, Debug)]
pub struct SmallCat {
    pub name: String,
    pub slug: String,
    pub count: i16,
}

/// A category row.  Scroll heights are in hundredths; `types` is the
/// content-type code of the items the category holds.
#[derive(Clone, Debug)]
pub struct Categories {
    pub id: i32,
    pub name: String,
    pub description: Option<String>,
    pub position: i16,
    pub image: Option<String>,
    pub count: i16,
    pub view: i32,
    pub height: i64,
    pub seconds: i32,
    pub types: i16,
    pub slug: String,
    pub now_u: i16,
}

/// The fields a category can be edited through.
#[derive(Clone, Debug)]
pub struct EditCategories {
    pub name: String,
    pub description: Option<String>,
    pub position: i16,
    pub image: Option<String>,
    pub slug: String,
}

/// A blog post.  `created` is in epoch seconds.
#[derive(Clone, Debug)]
pub struct Blog {
    pub id: i32,
    pub slug: String,
    pub image: Option<String>,
    pub is_active: bool,
    pub title: String,
    pub created: i64,
    pub description: Option<String>,
}

impl Blog {
    pub fn get_image(&self) -> (r: String)
        ensures
            r@ == image_or_default(self.image),
    {
        image_of(&self.image)
    }

    pub fn get_tags(&self, store: &TagStore) -> (r: Vec<SmallTag>)
        ensures
            rendered(r@) == tags_of_item(store.tags@, store.links@, self.id, 1),
    {
        store.tags_for_item(self.id, 1)
    }
}

/// A service.
#[derive(Clone, Debug)]
pub struct Service {
    pub id: i32,
    pub slug: String,
    pub image: Option<String>,
    pub is_active: bool,
    pub title: String,
    pub description: Option<String>,
}

impl Service {
    pub fn get_image(&self) -> (r: String)
        ensures
            r@ == image_or_default(self.image),
    {
        image_of(&self.image)
    }

    pub fn get_tags(&self, store: &TagStore) -> (r: Vec<SmallTag>)
        ensures
            rendered(r@) == tags_of_item(store.tags@, store.links@, self.id, 2),
    {
        store.tags_for_item(self.id, 2)
    }
}

/// A store product.
#[derive(Clone, Debug)]
pub struct Store {
    pub id: i32,
    pub slug: String,
    pub image: Option<String>,
    pub is_active: bool,
    pub title: String,
    pub description: Option<String>,
    pub price: i32,
    pub price_acc: Option<i32>,
}

impl Store {
    pub fn get_image(&self) -> (r: String)
        ensures
            r@ == image_or_default(self.image),
    {
        image_of(&self.image)
    }

    pub fn get_tags(&self, store: &TagStore) -> (r: Vec<SmallTag>)
        ensures
            rendered(r@) == tags_of_item(store.tags@, store.links@, self.id, 3),
    {
        store.tags_for_item(self.id, 3)
    }
}

/// A wiki article.  `created` is in epoch seconds.
#[derive(Clone, Debug)]
pub struct Wiki {
    pub id: i32,
    pub slug: String,
    pub image: Option<String>,
    pub is_active: bool,
    pub title: String,
    pub description: Option<String>,
    pub created: i64,
}

impl Wiki {
    pub fn get_image(&self) -> (r: String)
        ensures
            r@ == image_or_default(self.image),
    {
        image_of(&self.image)
    }

    pub fn get_tags(&self, store: &TagStore) -> (r: Vec<SmallTag>)
        ensures
            rendered(r@) == tags_of_item(store.tags@, store.links@, self.id, 4),
    {
        store.tags_for_item(self.id, 4)
    }
}

/// A published work.
#[derive(Clone, Debug)]
pub struct Work {
    pub id: i32,
    pub slug: String,
    pub image: Option<String>,
    pub is_active: bool,
    pub title: String,
    pub description: Option<String>,
}

impl Work {
    pub fn get_image(&self) -> (r: String)
        ensures
            r@ == image_or_default(self.image),
    {
        image_of(&self.image)
    }

    pub fn get_tags(&self, store: &TagStore) -> (r: Vec<SmallTag>)
        ensures
            rendered(r@) == tags_of_item(store.tags@, store.links@, self.id, 5),
    {
        store.tags_for_item(self.id, 5)
    }
}

/// One category-to-item link; `types` is the item's content-type code.
#[derive(Clone, Copy, Debug)]
pub struct Category {
    pub id: i32,
    pub categories_id: i32,
    pub item_id: i32,
    pub types: i16,
}

/// The insertable form of a category-to-item link.
#[derive(Clone, Copy, Debug)]
pub struct NewCategory {
    pub categories_id: i32,
    pub item_id: i32,
    pub types: i16,
}

/// The category id of the first link that attaches an item of this content
/// type to a category.
pub open spec fn first_link_category(links: Seq<Category>, item_id: i32, types: i16) -> Option<
    i32,
>
    decreases links.len(),
{
    if links.len() == 0 {
        None
    } else if links[0].item_id == item_id && links[0].types == types {
        Some(links[0].categories_id)
    } else {
        first_link_category(links.drop_first(), item_id, types)
    }
}

/// Whether some category carries this id.
pub open spec fn has_category(cats: Seq<Categories>, id: i32) -> bool {
    exists|i: int| 0 <= i < cats.len() && cats[i].id == id
}

/// The category that carries this id.
pub open spec fn category_of(cats: Seq<Categories>, id: i32) -> Categories {
    cats[choose|i: int| 0 <= i < cats.len() && cats[i].id == id]
}

/// In a table with unique ids, the category found at a matching index is the
/// category of that id.
proof fn lemma_category_of_at(cats: Seq<Categories>, id: i32, i: int)
    requires
        category_ids_unique(cats),
        0 <= i < cats.len(),
        cats[i].id == id,
    ensures
        has_category(cats, id),
        category_of(cats, id) == cats[i],
{
    let c = choose|k: int| 0 <= k < cats.len() && cats[k].id == id;
    if c != i {
        assert(cats[c].id == cats[i].id);
        assert(false);
    }
}

/// Unique category ids.
pub open spec fn category_ids_unique(cats: Seq<Categories>) -> bool {
    forall|i: int, j: int| 0 <= i < j < cats.len() ==> cats[i].id != cats[j].id
}

/// The category id of an item's first link, resolved by a scan.
fn find_link_category(links: &Vec<Category>, item_id: i32, types: i16) -> (r: Option<i32>)
    ensures
        r == first_link_category(links@, item_id, types),
{
    let n = links.len();
    let mut i: usize = 0;
    proof {
        assert(links@.skip(0) =~= links@);
    }
    while i < n
        invariant
            i <= n,
            n == links@.len(),
            first_link_category(links@, item_id, types) == first_link_category(
                links@.skip(i as int),
                item_id,
                types,
            ),
        decreases n - i,
    {
        proof {
            assert(links@.skip(i as int)[0] == links@[i as int]);
            assert(links@.skip(i as int).drop_first() =~= links@.skip(i + 1 as int));
        }
        let l = links[i];
        if l.item_id == item_id && l.types == types {
            return Some(l.categories_id);
        }
        i = i + 1;
    }
    proof {
        assert(links@.skip(n as int).len() == 0);
    }
    None
}

/// A help article.
#[derive(Clone, Debug)]
pub struct Help {
    pub id: i32,
    pub is_active: bool,
    pub title: String,
    pub content: Option<String>,
}

impl Help {
    /// The category this help article is filed under: the first link for the
    /// article resolved against the category table.
    pub fn get_category(&self, cats: &Vec<Categories>, links: &Vec<Category>) -> (r: SmallCat)
        requires
            category_ids_unique(cats@),
            first_link_category(links@, self.id, 6) is Some,
            has_category(cats@, first_link_category(links@, self.id, 6)->0),
        ensures
            ({
                let c = category_of(cats@, first_link_category(links@, self.id, 6)->0);
                r.name@ == c.name@ && r.slug@ == c.slug@ && r.count == c.count
            }),
    {
        let cid = match find_link_category(links, self.id, 6) {
            Some(c) => c,
            None => {
                proof {
                    assert(false);
                }
                0
            },
        };
        let n = cats.len();
        let mut i: usize = 0;
        while i < n
            invariant
                i <= n,
                n == cats@.len(),
                forall|j: int| 0 <= j < i ==> #[trigger] cats@[j].id != cid,
                category_ids_unique(cats@),
                has_category(cats@, cid),
                Some(cid) == first_link_category(links@, self.id, 6),
            decreases n - i,
        {
            if cats[i].id == cid {
                proof {
                    lemma_category_of_at(cats@, cid, i as int);
                }
                return SmallCat {
                    name: cats[i].name.clone(),
                    slug: cats[i].slug.clone(),
                    count: cats[i].count,
                };
            }
            i = i + 1;
        }
        proof {
            assert(false);
        }
        SmallCat { name: String::new(), slug: String::new(), count: 0 }
    }

    pub fn get_tags(&self, store: &TagStore) -> (r: Vec<SmallTag>)
        ensures
            rendered(r@) == tags_of_item(store.tags@, store.links@, self.id, 6),
    {
        store.tags_for_item(self.id, 6)
    }
}

/// The item fields a featured-item strip renders.
#[derive(Clone, Debug)]
pub struct FeaturedItem {
    pub slug: String,
    pub title: String,
}

/// The fields an item can be edited through.
#[derive(Clone, Debug)]
pub struct EditItem {
    pub title: String,
    pub description: Option<String>,
    pub link: Option<String>,
    pub image: Option<String>,
    pub position: i16,
    pub slug: String,
}

/// The mathematical value of one category rendering.
pub open spec fn cat_value(c: Cat) -> (Seq<char>, Seq<char>, i16, i32, Option<Seq<char>>) {
    (c.name@, c.slug@, c.count, c.id, c.image.deep_view())
}

/// The mathematical value of a rendered category list.
pub open spec fn cats_rendered(s: Seq<Cat>) -> Seq<(Seq<char>, Seq<char>, i16, i32, Option<
    Seq<char>,
>)> {
    s.map_values(|c: Cat| cat_value(c))
}

/// The categories of one content type, in table order, rendered for a list
/// page.
pub open spec fn cats_of_type(cats: Seq<Categories>, types: i16) -> Seq<(Seq<char>, Seq<char>,
    i16, i32, Option<Seq<char>>)> {
    cats.filter(|c: Categories| c.types == types).map_values(
        |c: Categories| (c.name@, c.slug@, c.count, c.id, c.image.deep_view()),
    )
}

/// Rendering one more category onto the end of the table.
proof fn lemma_cats_of_type_push(cats: Seq<Categories>, types: i16, c: Categories)
    ensures
        cats_of_type(cats.push(c), types) == if c.types == types {
            cats_of_type(cats, types).push((c.name@, c.slug@, c.count, c.id, c.image.deep_view()))
        } else {
            cats_of_type(cats, types)
        },
{
    reveal(Seq::filter);
    assert(cats.push(c).drop_last() =~= cats);
    if c.types == types {
        assert(cats_of_type(cats.push(c), types) =~~= cats_of_type(cats, types).push(
            (c.name@, c.slug@, c.count, c.id, c.image.deep_view()),
        ));
    } else {
        assert(cats_of_type(cats.push(c), types) =~~= cats_of_type(cats, types));
    }
}

/// The categories of one content type, rendered for a list page.
pub fn get_categories_for_types(cats: &Vec<Categories>, types: i16) -> (r: Vec<Cat>)
    ensures
        cats_rendered(r@) == cats_of_type(cats@, types),
{
    let mut out: Vec<Cat> = Vec::new();
    let n = cats.len();
    let mut i: usize = 0;
    while i < n
        invariant
            i <= n,
            n == cats@.len(),
            cats_rendered(out@) == cats_of_type(cats@.take(i as int), types),
        decreases n - i,
    {
        proof {
            assert(cats@.take(i + 1 as int) =~= cats@.take(i as int).push(cats@[i as int]));
            lemma_cats_of_type_push(cats@.take(i as int), types, cats@[i as int]);
        }
        let c = &cats[i];
        if c.types == types {
            let image = match &c.image {
                Some(s) => Some(s.clone()),
                None => None,
            };
            let cat = Cat {
                name: c.name.clone(),
                slug: c.slug.clone(),
                count: c.count,
                id: c.id,
                image,
            };
            out.push(cat);
            proof {
                assert(cats_rendered(out@) =~~= cats_of_type(cats@.take(i + 1 as int), types));
            }
        } else {
            proof {
                assert(cats_rendered(out@) =~~= cats_of_type(cats@.take(i + 1 as int), types));
            }
        }
        i = i + 1;
    }
    proof {
        assert(cats@.take(n as int) =~= cats@);
    }
    out
}

} // verus!
