//! Tags and their links to content items.

use vstd::prelude::*;

verus! {

/// The tag fields list pages render.
#[derive(Clone, Debug)]
pub struct SmallTag {
    pub name: String,
    pub count: i16,
}

/// A tag row.  Scroll heights are in hundredths.
#[derive(Clone, Debug)]
pub struct Tag {
    pub id: i32,
    pub name: String,
    pub position: i16,
    pub count: i16,
    pub user_id: i32,
    pub view: i32,
    pub height: i64,
    pub seconds: i32,
    pub now_u: i16,
}

/// The fields a tag can be edited through.
#[derive(Clone, Debug)]
pub struct EditTag {
    pub name: String,
    pub position: i16,
}

/// One tag-to-item link; `types` is the item's content-type code.
/// `created` is in epoch seconds.
#[derive(Clone, Debug)]
pub struct TagItems {
    pub id: i32,
    pub tag_id: i32,
    pub item_id: i32,
    pub types: i16,
    pub created: i64,
}

/// The tag table and the links that attach tags to items.
pub struct TagStore {
    pub tags: Vec<Tag>,
    pub links: Vec<TagItems>,
}

/// Whether a link attaches this tag to this item under this content type.
pub open spec fn has_link(links: Seq<TagItems>, tag_id: i32, item_id: i32, types: i16) -> bool {
    exists|i: int|
        0 <= i < links.len() && links[i].tag_id == tag_id && links[i].item_id == item_id
            && links[i].types == types
}

/// The rendered form of one tag.
pub open spec fn small_of(t: Tag) -> (Seq<char>, i16) {
    (t.name@, t.count)
}

/// The mathematical value of a rendered tag list.
pub open spec fn rendered(s: Seq<SmallTag>) -> Seq<(Seq<char>, i16)> {
    s.map_values(|s: SmallTag| (s.name@, s.count))
}

/// The tags attached to one item, in tag-table order, rendered.
pub open spec fn tags_of_item(
    tags: Seq<Tag>,
    links: Seq<TagItems>,
    item_id: i32,
    types: i16,
) -> Seq<(Seq<char>, i16)> {
    tags.filter(|t: Tag| has_link(links, t.id, item_id, types)).map_values(|t: Tag| small_of(t))
}

/// Whether a link attaches this tag to this item.
fn link_exists(links: &Vec<TagItems>, tag_id: i32, item_id: i32, types: i16) -> (r: bool)
    ensures
        r == has_link(links@, tag_id, item_id, types),
{
    let n = links.len();
    let mut i: usize = 0;
    while i < n
        invariant
            i <= n,
            n == links@.len(),
            forall|j: int|
                0 <= j < i ==> !(links@[j].tag_id == tag_id && links@[j].item_id == item_id
                    && links@[j].types == types),
        decreases n - i,
    {
        let l = &links[i];
        if l.tag_id == tag_id && l.item_id == item_id && l.types == types {
            proof {
                assert(links@[i as int].tag_id == tag_id && links@[i as int].item_id == item_id
                    && links@[i as int].types == types);
            }
            return true;
        }
        i = i + 1;
    }
    false
}

/// Rendering one more tag onto the end of the table.
proof fn lemma_item_tags_push(
    tags: Seq<Tag>,
    links: Seq<TagItems>,
    item_id: i32,
    types: i16,
    t: Tag,
)
    ensures
        tags_of_item(tags.push(t), links, item_id, types) == if has_link(
            links,
            t.id,
            item_id,
            types,
        ) {
            tags_of_item(tags, links, item_id, types).push(small_of(t))
        } else {
            tags_of_item(tags, links, item_id, types)
        },
{
    reveal(Seq::filter);
    assert(tags.push(t).drop_last() =~= tags);
    if has_link(links, t.id, item_id, types) {
        assert(tags_of_item(tags.push(t), links, item_id, types) =~~= tags_of_item(
            tags,
            links,
            item_id,
            types,
        ).push(small_of(t)));
    } else {
        assert(tags_of_item(tags.push(t), links, item_id, types) =~~= tags_of_item(
            tags,
            links,
            item_id,
            types,
        ));
    }
}

impl TagStore {
    pub fn new() -> (s: TagStore)
        ensures
            s.tags@ =~= Seq::<Tag>::empty(),
            s.links@ =~= Seq::<TagItems>::empty(),
    {
        TagStore { tags: Vec::new(), links: Vec::new() }
    }

    /// The tags attached to one item under one content-type code, rendered
    /// for a page, in tag-table order.
    pub fn tags_for_item(&self, item_id: i32, types: i16) -> (r: Vec<SmallTag>)
        ensures
            rendered(r@) == tags_of_item(self.tags@, self.links@, item_id, types),
    {
        let mut out: Vec<SmallTag> = Vec::new();
        let n = self.tags.len();
        let mut i: usize = 0;
        while i < n
            invariant
                i <= n,
                n == self.tags@.len(),
                rendered(out@) == tags_of_item(
                    self.tags@.take(i as int),
                    self.links@,
                    item_id,
                    types,
                ),
            decreases n - i,
        {
            proof {
                assert(self.tags@.take(i + 1 as int) =~= self.tags@.take(i as int).push(
                    self.tags@[i as int],
                ));
                lemma_item_tags_push(
                    self.tags@.take(i as int),
                    self.links@,
                    item_id,
                    types,
                    self.tags@[i as int],
                );
            }
            let t = &self.tags[i];
            if link_exists(&self.links, t.id, item_id, types) {
                let small = SmallTag { name: t.name.clone(), count: t.count };
                out.push(small);
                proof {
                    assert(rendered(out@) =~~= tags_of_item(
                        self.tags@.take(i + 1 as int),
                        self.links@,
                        item_id,
                        types,
                    ));
                }
            } else {
                proof {
                    assert(rendered(out@) =~~= tags_of_item(
                        self.tags@.take(i + 1 as int),
                        self.links@,
                        item_id,
                        types,
                    ));
                }
            }
            i = i + 1;
        }
        proof {
            assert(self.tags@.take(n as int) =~= self.tags@);
        }
        out
    }
}

} // verus!
