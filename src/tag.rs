//! Tag records attached to a source file, and the idempotent insertion of the
//! tags that the tagging service returns.
use vstd::prelude::*;
use crate::store::{StoreError, MAX_ID};
use crate::text::{
    ascii_lower_text, lemma_slug_chars_keeps, lemma_slug_chars_lower, lemma_trimmed_keeps, slug_filter, slug_of,
    to_lowercase, trim,
};

verus! {

/// The mathematical form of a tag record.
pub struct TagView {
    pub id: int,
    pub source: Seq<char>,
    pub tag: Seq<char>,
    pub slug: Seq<char>,
}

/// A tag attached to a source file, with its slug for searching.
#[derive(Debug)]
pub struct Model {
    pub id: i32,
    pub source_filename: String,
    pub tag: String,
    pub slug: String,
}

impl View for Model {
    type V = TagView;

    open spec fn view(&self) -> TagView {
        TagView { id: self.id as int, source: self.source_filename@, tag: self.tag@, slug: self.slug@ }
    }
}

impl Clone for Model {
    fn clone(&self) -> (r: Self)
        ensures
            r@ == self@,
    {
        Model {
            id: self.id,
            source_filename: self.source_filename.clone(),
            tag: self.tag.clone(),
            slug: self.slug.clone(),
        }
    }
}

/// Some row of `rows` is for `source` and has this slug or this text.
pub open spec fn is_dup(rows: Seq<TagView>, source: Seq<char>, tag: Seq<char>, slug: Seq<char>) -> bool {
    exists|i: int| 0 <= i < rows.len() && #[trigger] matches_tag(rows[i], source, tag, slug)
}

/// The row is for `source` and has this slug or this text.
pub open spec fn matches_tag(row: TagView, source: Seq<char>, tag: Seq<char>, slug: Seq<char>) -> bool {
    row.source == source && (row.slug == slug || row.tag == tag)
}

impl Model {
    /// Normalises a tag: trimmed, lower-cased, whitespace turned into dashes,
    /// and anything but ASCII letters, digits and dashes removed.
    /// A slug holds only lower-case ASCII letters, digits and dashes, and a tag
    /// already written that way is its own slug.
    pub fn normalize_tag(tag: &str) -> (r: String)
        ensures
            r@ == slug_of(tag@),
            ascii_lower_text(r@),
            ascii_lower_text(tag@) ==> r@ == tag@,
    {
        let t = trim(tag);
        let l = to_lowercase(t.as_str());
        let r = slug_filter(l.as_str());
        proof {
            lemma_slug_chars_lower(l@);
            if ascii_lower_text(tag@) {
                lemma_trimmed_keeps(tag@);
                lemma_slug_chars_keeps(tag@);
            }
        }
        r
    }

    /// A new tag record (id 0 until it is stored) with the slug of `tag`.
    pub fn new(source_filename: String, tag: String) -> (r: Model)
        ensures
            r@ == (TagView { id: 0, source: source_filename@, tag: tag@, slug: slug_of(tag@) }),
    {
        let slug = Model::normalize_tag(tag.as_str());
        Model { id: 0, source_filename, tag, slug }
    }

    /// Whether the store already holds a tag for the same source file with the
    /// same slug or the same text.
    pub fn is_duplicate(&self, store: &TagStore) -> (r: bool)
        ensures
            r == is_dup(store@.rows, self.source_filename@, self.tag@, self.slug@),
    {
        let rows = store.rows();
        let mut i: usize = 0;
        while i < rows.len()
            invariant
                rows@.map_values(|m: Model| m@) == store@.rows,
                i <= rows.len(),
                forall|k: int| 0 <= k < i ==> !#[trigger] matches_tag(store@.rows[k], self.source_filename@, self.tag@, self.slug@),
            decreases rows.len() - i,
        {
            let row = &rows[i];
            assert(row@ == store@.rows[i as int]);
            if row.source_filename == self.source_filename && (row.slug == self.slug || row.tag == self.tag) {
                assert(matches_tag(store@.rows[i as int], self.source_filename@, self.tag@, self.slug@));
                return true;
            }
            i = i + 1;
        }
        false
    }
}

/// The mathematical form of the tag table.
pub struct TagStoreView {
    pub rows: Seq<TagView>,
    pub next_id: int,
}

/// The table after offering one tag for `source`: a new row with the next id,
/// unless a matching tag is already there or the ids are used up.
pub open spec fn add_tag(s: TagStoreView, source: Seq<char>, tag: Seq<char>) -> TagStoreView {
    if is_dup(s.rows, source, tag, slug_of(tag)) || s.next_id > MAX_ID {
        s
    } else {
        TagStoreView {
            rows: s.rows.push(TagView { id: s.next_id, source, tag, slug: slug_of(tag) }),
            next_id: s.next_id + 1,
        }
    }
}

/// The table after offering each of `tags` for `source`, in order.
pub open spec fn add_tags(s: TagStoreView, source: Seq<char>, tags: Seq<Seq<char>>) -> TagStoreView
    decreases tags.len(),
{
    if tags.len() == 0 {
        s
    } else {
        add_tag(add_tags(s, source, tags.drop_last()), source, tags.last())
    }
}

/// Offering tags never removes a match and never lowers the next id.
proof fn lemma_add_tags_grows(s: TagStoreView, source: Seq<char>, tags: Seq<Seq<char>>)
    ensures
        add_tags(s, source, tags).next_id >= s.next_id,
        add_tags(s, source, tags).rows.len() >= s.rows.len(),
        forall|k: int| 0 <= k < s.rows.len() ==> add_tags(s, source, tags).rows[k] == s.rows[k],
    decreases tags.len(),
{
    if tags.len() > 0 {
        lemma_add_tags_grows(s, source, tags.drop_last());
    }
}

/// A match that holds before offering tags still holds after.
proof fn lemma_dup_kept(s: TagStoreView, source: Seq<char>, tags: Seq<Seq<char>>, src: Seq<char>, t: Seq<char>)
    requires
        is_dup(s.rows, src, t, slug_of(t)),
    ensures
        is_dup(add_tags(s, source, tags).rows, src, t, slug_of(t)),
{
    lemma_add_tags_grows(s, source, tags);
    let i = choose|i: int| 0 <= i < s.rows.len() && #[trigger] matches_tag(s.rows[i], src, t, slug_of(t));
    assert(matches_tag(add_tags(s, source, tags).rows[i], src, t, slug_of(t)));
}

/// After offering `tags`, each of them matches a stored row, unless the ids
/// ran out.
proof fn lemma_all_offered(s: TagStoreView, source: Seq<char>, tags: Seq<Seq<char>>)
    ensures
        forall|k: int| 0 <= k < tags.len() ==> is_dup(add_tags(s, source, tags).rows, source, #[trigger] tags[k], slug_of(tags[k]))
            || add_tags(s, source, tags).next_id > MAX_ID,
    decreases tags.len(),
{
    if tags.len() > 0 {
        let prev = add_tags(s, source, tags.drop_last());
        let last = tags.last();
        let after = add_tags(s, source, tags);
        lemma_all_offered(s, source, tags.drop_last());
        assert forall|k: int| 0 <= k < tags.len() implies is_dup(after.rows, source, #[trigger] tags[k], slug_of(tags[k]))
            || after.next_id > MAX_ID by {
            let one = seq![last];
            assert(one.drop_last() =~= Seq::<Seq<char>>::empty());
            assert(add_tags(prev, source, one.drop_last()) == prev);
            assert(one.last() == last);
            assert(add_tags(prev, source, one) == after);
            lemma_add_tags_grows(prev, source, one);
            if k < tags.len() - 1 {
                assert(tags[k] == tags.drop_last()[k]);
                if is_dup(prev.rows, source, tags[k], slug_of(tags[k])) {
                    lemma_dup_kept(prev, source, one, source, tags[k]);
                }
            } else if !is_dup(prev.rows, source, last, slug_of(last)) && prev.next_id <= MAX_ID {
                let n = prev.rows.len() as int;
                assert(matches_tag(after.rows[n], source, last, slug_of(last)));
            }
        }
    }
}

/// Offering tags that all match stored rows (or once the ids ran out) changes nothing.
proof fn lemma_offer_settled(s: TagStoreView, source: Seq<char>, tags: Seq<Seq<char>>)
    requires
        forall|k: int| 0 <= k < tags.len() ==> is_dup(s.rows, source, #[trigger] tags[k], slug_of(tags[k]))
            || s.next_id > MAX_ID,
    ensures
        add_tags(s, source, tags) == s,
    decreases tags.len(),
{
    if tags.len() > 0 {
        assert forall|k: int| 0 <= k < tags.drop_last().len() implies is_dup(s.rows, source, #[trigger] tags.drop_last()[k], slug_of(tags.drop_last()[k]))
            || s.next_id > MAX_ID by {
            assert(tags.drop_last()[k] == tags[k]);
        }
        lemma_offer_settled(s, source, tags.drop_last());
        assert(tags.last() == tags[tags.len() - 1]);
    }
}

/// Offering the same tags for the same source a second time adds no row: the
/// table is exactly as the first offer left it.
pub proof fn lemma_tagging_idempotent(s: TagStoreView, source: Seq<char>, tags: Seq<Seq<char>>)
    ensures
        add_tags(add_tags(s, source, tags), source, tags) == add_tags(s, source, tags),
{
    lemma_all_offered(s, source, tags);
    lemma_offer_settled(add_tags(s, source, tags), source, tags);
}

/// Ids positive, strictly increasing in insertion order and below the next id.
pub open spec fn tag_table_ok(s: TagStoreView) -> bool {
    &&& 0 < s.next_id <= MAX_ID + 1
    &&& forall|i: int| 0 <= i < s.rows.len() ==> 0 < #[trigger] s.rows[i].id < s.next_id
    &&& forall|i: int, j: int| 0 <= i < j < s.rows.len() ==> s.rows[i].id < s.rows[j].id
}

/// The tag records, in the order they were inserted.
pub struct TagStore {
    rows: Vec<Model>,
    next_id: i64,
}

impl View for TagStore {
    type V = TagStoreView;

    closed spec fn view(&self) -> TagStoreView {
        TagStoreView { rows: self.rows@.map_values(|m: Model| m@), next_id: self.next_id as int }
    }
}

impl TagStore {
    pub open spec fn wf(&self) -> bool {
        tag_table_ok(self@)
    }

    /// An empty table.
    pub fn new() -> (r: TagStore)
        ensures
            r.wf(),
            r@.rows.len() == 0,
            r@.next_id == 1,
    {
        let r = TagStore { rows: Vec::new(), next_id: 1 };
        assert(r@.rows =~= Seq::<TagView>::empty());
        r
    }

    /// Takes over the rows of a loaded table, in id order. Refused with
    /// `Inconsistent` exactly when their ids are not positive and strictly
    /// increasing (the next id is one above the last row's).
    pub fn from_rows(rows: Vec<Model>) -> (r: Result<TagStore, StoreError>)
        ensures
            match r {
                Ok(s) => s.wf() && s@.rows == rows@.map_values(|m: Model| m@) && s@.next_id == (
                if rows@.len() == 0 { 1 } else { rows@.last().id + 1 }),
                Err(e) => e == StoreError::Inconsistent && !tag_table_ok(TagStoreView {
                    rows: rows@.map_values(|m: Model| m@),
                    next_id: if rows@.len() == 0 { 1 } else { rows@.last().id + 1 },
                }),
            },
    {
        let ghost views = rows@.map_values(|m: Model| m@);
        let n = rows.len();
        let mut i: usize = 0;
        while i < n
            invariant
                n == rows@.len(),
                views == rows@.map_values(|m: Model| m@),
                i <= n,
                forall|k: int| 0 <= k < i ==> 0 < #[trigger] views[k].id,
                forall|k: int, l: int| 0 <= k < l < i ==> views[k].id < views[l].id,
            decreases n - i,
        {
            assert(views[i as int].id == rows@[i as int].id);
            if i > 0 {
                assert(views[i - 1].id == rows@[i - 1].id);
            }
            if rows[i].id <= 0 || (i > 0 && rows[i - 1].id >= rows[i].id) {
                proof {
                    let v = TagStoreView { rows: views, next_id: if n == 0 { 1 } else { rows@.last().id + 1 } };
                    if tag_table_ok(v) {
                        assert(0 < v.rows[i as int].id);
                        if i > 0 {
                            assert(v.rows[i - 1].id < v.rows[i as int].id);
                        }
                    }
                }
                return Err(StoreError::Inconsistent);
            }
            i = i + 1;
        }
        let next_id: i64 = if n == 0 { 1 } else { rows[n - 1].id as i64 + 1 };
        proof {
            if n > 0 {
                assert(views[n - 1].id == rows@[n - 1].id);
                assert forall|k: int| 0 <= k < views.len() implies 0 < #[trigger] views[k].id < next_id by {
                    if k < n - 1 {
                        assert(views[k].id < views[n - 1].id);
                    }
                }
            }
        }
        let s = TagStore { rows, next_id };
        assert(s@.rows == views);
        Ok(s)
    }

    /// The rows, in insertion order.
    pub fn rows(&self) -> (r: &Vec<Model>)
        ensures
            r@.map_values(|m: Model| m@) == self@.rows,
    {
        &self.rows
    }

    /// Offers one tag for `source`: stored with its slug and the next id unless
    /// a tag with the same slug or text is already there for that source.
    /// Answers whether a row was added.
    pub fn add(&mut self, source: &String, tag: &String) -> (r: bool)
        requires
            old(self).wf(),
        ensures
            final(self).wf(),
            final(self)@ == add_tag(old(self)@, source@, tag@),
            r == (final(self)@.rows.len() > old(self)@.rows.len()),
    {
        let candidate = Model::new(source.clone(), tag.clone());
        if candidate.is_duplicate(self) || self.next_id > MAX_ID {
            return false;
        }
        let row = Model { id: self.next_id as i32, ..candidate };
        let ghost before = self@.rows;
        self.rows.push(row);
        self.next_id = self.next_id + 1;
        assert(self@.rows =~= before.push(row@));
        true
    }

    /// Offers each of `tags` for `source`, in order; a tag that matches a stored
    /// one (the same slug or text for that source, including one stored earlier
    /// in this call) is skipped. Answers how many rows were added.
    pub fn add_all(&mut self, source: &String, tags: &Vec<String>) -> (r: usize)
        requires
            old(self).wf(),
        ensures
            final(self).wf(),
            final(self)@ == add_tags(old(self)@, source@, tags@.map_values(|t: String| t@)),
            r == final(self)@.rows.len() - old(self)@.rows.len(),
    {
        let ghost texts = tags@.map_values(|t: String| t@);
        let mut added: usize = 0;
        let mut i: usize = 0;
        while i < tags.len()
            invariant
                texts == tags@.map_values(|t: String| t@),
                i <= tags.len(),
                self.wf(),
                self@ == add_tags(old(self)@, source@, texts.take(i as int)),
                added == self@.rows.len() - old(self)@.rows.len(),
                added <= i,
            decreases tags.len() - i,
        {
            proof {
                assert(texts.take(i + 1).drop_last() =~= texts.take(i as int));
            }
            if self.add(source, &tags[i]) {
                added = added + 1;
            }
            i = i + 1;
        }
        assert(texts.take(i as int) =~= texts);
        added
    }
}

} // verus!
