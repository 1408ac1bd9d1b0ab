//! The index of the library's items, by identity and by content hash. Only
//! live items, those not in the trash, count as being there.

use vstd::prelude::*;
use crate::model::SourceKind;
use crate::text::same_text;

verus! {

/// What the index keeps of one item.
#[derive(Debug)]
pub struct IndexEntry {
    pub source: SourceKind,
    pub source_id: String,
    /// The content hash of the item's file; `None` where none is recorded.
    pub content_hash: Option<String>,
    /// Whether the item is in the trash.
    pub trashed: bool,
}

/// The mathematical view of an `IndexEntry`.
pub struct EntryView {
    pub source: SourceKind,
    pub source_id: Seq<char>,
    pub content_hash: Option<Seq<char>>,
    pub trashed: bool,
}

impl DeepView for IndexEntry {
    type V = EntryView;

    open spec fn deep_view(&self) -> EntryView {
        EntryView {
            source: self.source,
            source_id: self.source_id@,
            content_hash: self.content_hash.deep_view(),
            trashed: self.trashed,
        }
    }
}

/// Why an item cannot enter the index.
#[derive(Clone, Copy, Debug, PartialEq, Eq, Structural)]
pub enum Duplicate {
    /// A live item has the same source and id.
    Identity,
    /// No live item has the identity, but one has the same content hash.
    Hash,
}

/// Whether some live item has the given source and id.
pub open spec fn holds_identity(s: Seq<EntryView>, source: SourceKind, id: Seq<char>) -> bool {
    exists|i: int|
        #![trigger s[i]]
        0 <= i < s.len() && !s[i].trashed && s[i].source == source && s[i].source_id == id
}

/// Whether some live item has the given content hash.
pub open spec fn holds_hash(s: Seq<EntryView>, hash: Seq<char>) -> bool {
    exists|i: int|
        #![trigger s[i]]
        0 <= i < s.len() && !s[i].trashed && s[i].content_hash == Some(hash)
}

/// No two live items share an identity.
pub open spec fn identities_distinct(s: Seq<EntryView>) -> bool {
    forall|i: int, j: int|
        #![trigger s[i], s[j]]
        0 <= i < j < s.len() && !s[i].trashed && !s[j].trashed ==> !(s[i].source == s[j].source
            && s[i].source_id == s[j].source_id)
}

/// No two live items share a content hash. Items without a recorded hash
/// share none.
pub open spec fn hashes_distinct(s: Seq<EntryView>) -> bool {
    forall|i: int, j: int|
        #![trigger s[i], s[j]]
        0 <= i < j < s.len() && !s[i].trashed && !s[j].trashed ==> !(s[i].content_hash is Some
            && s[i].content_hash == s[j].content_hash)
}

/// Whether some live item has the content hash of `e`, if `e` has one.
pub open spec fn hash_taken(s: Seq<EntryView>, e: EntryView) -> bool {
    e.content_hash is Some && holds_hash(s, e.content_hash->0)
}

/// Whether a live item stands in the way of `e`: none does where `e` is in
/// the trash itself.
pub open spec fn duplicates(s: Seq<EntryView>, e: EntryView) -> bool {
    !e.trashed && (holds_identity(s, e.source, e.source_id) || hash_taken(s, e))
}

/// The entries after an attempt to add `e`: unchanged where a live item
/// stands in its way, else with `e` at the end.
pub open spec fn inserted(s: Seq<EntryView>, e: EntryView) -> Seq<EntryView> {
    if duplicates(s, e) {
        s
    } else {
        s.push(e)
    }
}

/// Adding an entry never makes two entries share an identity or a hash.
pub proof fn lemma_inserted_distinct(s: Seq<EntryView>, e: EntryView)
    requires
        identities_distinct(s),
        hashes_distinct(s),
    ensures
        identities_distinct(inserted(s, e)),
        hashes_distinct(inserted(s, e)),
{
    let t = inserted(s, e);
    if t != s {
        assert forall|i: int, j: int|
            0 <= i < j < t.len() && !(#[trigger] t[i]).trashed && !(#[trigger] t[j]).trashed implies !(
        t[i].source == t[j].source && t[i].source_id == t[j].source_id) by {
            if j == s.len() {
                assert(t[i] == s[i]);
            } else {
                assert(t[i] == s[i] && t[j] == s[j]);
            }
        }
        assert forall|i: int, j: int|
            0 <= i < j < t.len() && !(#[trigger] t[i]).trashed && !(#[trigger] t[j]).trashed implies !(
        t[i].content_hash is Some && t[i].content_hash == t[j].content_hash) by {
            if j == s.len() {
                assert(t[i] == s[i]);
            } else {
                assert(t[i] == s[i] && t[j] == s[j]);
            }
        }
    }
}

/// The items of the library as the dedup checks see them.
#[derive(Debug)]
pub struct DedupIndex {
    entries: Vec<IndexEntry>,
}

impl DeepView for DedupIndex {
    type V = Seq<EntryView>;

    closed spec fn deep_view(&self) -> Seq<EntryView> {
        self.entries.deep_view()
    }
}

impl DedupIndex {
    /// No two live items share an identity, and no two share a content hash.
    pub open spec fn wf(&self) -> bool {
        identities_distinct(self.deep_view()) && hashes_distinct(self.deep_view())
    }

    /// The index of an empty library.
    pub fn new() -> (index: DedupIndex)
        ensures
            index.deep_view() == Seq::<EntryView>::empty(),
            index.wf(),
    {
        let index = DedupIndex { entries: Vec::new() };
        assert(index.deep_view() =~= Seq::<EntryView>::empty());
        index
    }

    /// The number of items, those in the trash included.
    pub fn len(&self) -> (n: usize)
        ensures
            n == self.deep_view().len(),
    {
        self.entries.len()
    }

    /// Whether a live item has this source and id.
    pub fn has_identity(&self, source: SourceKind, id: &str) -> (found: bool)
        ensures
            found == holds_identity(self.deep_view(), source, id@),
    {
        let mut i: usize = 0;
        while i < self.entries.len()
            invariant
                i <= self.entries.len(),
                forall|k: int|
                    #![trigger self.deep_view()[k]]
                    0 <= k < i ==> !(!self.deep_view()[k].trashed && self.deep_view()[k].source
                        == source && self.deep_view()[k].source_id == id@),
            decreases self.entries.len() - i,
        {
            let e = &self.entries[i];
            assert(self.deep_view()[i as int] == e.deep_view());
            if !e.trashed && e.source == source && same_text(e.source_id.as_str(), id) {
                return true;
            }
            i += 1;
        }
        false
    }

    /// Whether a live item has this content hash.
    pub fn has_hash(&self, hash: &str) -> (found: bool)
        ensures
            found == holds_hash(self.deep_view(), hash@),
    {
        let mut i: usize = 0;
        while i < self.entries.len()
            invariant
                i <= self.entries.len(),
                forall|k: int|
                    #![trigger self.deep_view()[k]]
                    0 <= k < i ==> !(!self.deep_view()[k].trashed
                        && self.deep_view()[k].content_hash == Some(hash@)),
            decreases self.entries.len() - i,
        {
            let e = &self.entries[i];
            assert(self.deep_view()[i as int] == e.deep_view());
            let same = match &e.content_hash {
                Some(h) => same_text(h.as_str(), hash),
                None => false,
            };
            if !e.trashed && same {
                return true;
            }
            i += 1;
        }
        false
    }

    /// Adds an item. A live item is refused where a live item has its
    /// identity, else where one has its content hash; an item in the trash is
    /// always taken.
    pub fn insert(&mut self, entry: IndexEntry) -> (r: Result<(), Duplicate>)
        requires
            old(self).wf(),
        ensures
            final(self).wf(),
            final(self).deep_view() == inserted(old(self).deep_view(), entry.deep_view()),
            r is Ok <==> !duplicates(old(self).deep_view(), entry.deep_view()),
            r == Err::<(), Duplicate>(Duplicate::Identity) <==> !entry.trashed && holds_identity(
                old(self).deep_view(),
                entry.source,
                entry.source_id@,
            ),
            r == Err::<(), Duplicate>(Duplicate::Hash) <==> !entry.trashed && !holds_identity(
                old(self).deep_view(),
                entry.source,
                entry.source_id@,
            ) && hash_taken(old(self).deep_view(), entry.deep_view()),
    {
        proof {
            lemma_inserted_distinct(self.deep_view(), entry.deep_view());
        }
        if !entry.trashed {
            if self.has_identity(entry.source, entry.source_id.as_str()) {
                return Err(Duplicate::Identity);
            }
            let taken = match &entry.content_hash {
                Some(h) => self.has_hash(h.as_str()),
                None => false,
            };
            if taken {
                return Err(Duplicate::Hash);
            }
        }
        let ghost before = self.deep_view();
        self.entries.push(entry);
        assert(self.deep_view() =~= before.push(entry.deep_view()));
        Ok(())
    }
}

} // verus!
