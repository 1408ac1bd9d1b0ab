//! The data that moves through one sync run, each type with its mathematical view.

use vstd::prelude::*;
use crate::text::same_text;

verus! {

/// A site that favorites come from. `E621` is the trusted source: content first
/// seen on `FurAffinity` is replaced by the same content from `E621`.
#[derive(Clone, Copy, Debug, PartialEq, Eq, Structural)]
pub enum SourceKind {
    E621,
    FurAffinity,
}

impl SourceKind {
    /// Whether this is the higher-trust source, which also answers look-ups by content hash.
    pub open spec fn trusted(self) -> bool {
        self is E621
    }

    /// The name under which items of this source are stored.
    pub open spec fn spec_name(self) -> Seq<char> {
        match self {
            SourceKind::E621 => "e621"@,
            SourceKind::FurAffinity => "furaffinity"@,
        }
    }

    /// The short mark of this source inside file names.
    pub open spec fn spec_file_tag(self) -> Seq<char> {
        match self {
            SourceKind::E621 => "e621"@,
            SourceKind::FurAffinity => "fa"@,
        }
    }

    /// The source that a stored name stands for.
    pub open spec fn named(name: Seq<char>) -> Option<SourceKind> {
        if name == SourceKind::E621.spec_name() {
            Some(SourceKind::E621)
        } else if name == SourceKind::FurAffinity.spec_name() {
            Some(SourceKind::FurAffinity)
        } else {
            None
        }
    }

    /// The source that a stored name stands for; `None` for any other name.
    pub fn from_name(name: &str) -> (k: Option<SourceKind>)
        ensures
            k == SourceKind::named(name@),
    {
        if same_text(name, "e621") {
            Some(SourceKind::E621)
        } else if same_text(name, "furaffinity") {
            Some(SourceKind::FurAffinity)
        } else {
            None
        }
    }

    /// Whether this is the higher-trust source.
    pub fn is_trusted(self) -> (b: bool)
        ensures
            b == self.trusted(),
    {
        match self {
            SourceKind::E621 => true,
            SourceKind::FurAffinity => false,
        }
    }

    /// The name under which items of this source are stored.
    pub fn name(self) -> (s: &'static str)
        ensures
            s@ == self.spec_name(),
    {
        match self {
            SourceKind::E621 => "e621",
            SourceKind::FurAffinity => "furaffinity",
        }
    }

    /// The short mark of this source inside file names.
    pub fn file_tag(self) -> (s: &'static str)
        ensures
            s@ == self.spec_file_tag(),
    {
        match self {
            SourceKind::E621 => "e621",
            SourceKind::FurAffinity => "fa",
        }
    }
}

/// The audience rating of a piece of media.
#[derive(Clone, Copy, Debug, PartialEq, Eq, Structural)]
pub enum Rating {
    Safe,
    Questionable,
    Explicit,
}

/// The category of a tag.
#[derive(Clone, Copy, Debug, PartialEq, Eq, Structural)]
pub enum TagCategory {
    General,
    Species,
    Character,
    Artist,
    Meta,
    Lore,
    Copyright,
}

/// A reference found on a listing page: a source and the id it gives the post.
#[derive(Debug)]
pub struct Candidate {
    pub source: SourceKind,
    pub source_id: String,
}

/// The mathematical view of a `Candidate`.
pub struct CandidateView {
    pub source: SourceKind,
    pub source_id: Seq<char>,
}

impl DeepView for Candidate {
    type V = CandidateView;

    open spec fn deep_view(&self) -> CandidateView {
        CandidateView { source: self.source, source_id: self.source_id@ }
    }
}

/// Tags by category, as the structured source reports them.
#[derive(Debug)]
pub struct E621Tags {
    pub general: Vec<String>,
    pub species: Vec<String>,
    pub character: Vec<String>,
    pub artist: Vec<String>,
    pub meta: Vec<String>,
    pub lore: Vec<String>,
    pub copyright: Vec<String>,
}

/// The mathematical view of `E621Tags`.
pub struct TagsView {
    pub general: Seq<Seq<char>>,
    pub species: Seq<Seq<char>>,
    pub character: Seq<Seq<char>>,
    pub artist: Seq<Seq<char>>,
    pub meta: Seq<Seq<char>>,
    pub lore: Seq<Seq<char>>,
    pub copyright: Seq<Seq<char>>,
}

impl DeepView for E621Tags {
    type V = TagsView;

    open spec fn deep_view(&self) -> TagsView {
        TagsView {
            general: self.general.deep_view(),
            species: self.species.deep_view(),
            character: self.character.deep_view(),
            artist: self.artist.deep_view(),
            meta: self.meta.deep_view(),
            lore: self.lore.deep_view(),
            copyright: self.copyright.deep_view(),
        }
    }
}

/// The metadata of one post as the structured source delivers it.
#[derive(Debug)]
pub struct E621PostInput {
    pub id: i64,
    pub file_url: String,
    pub file_ext: String,
    pub file_md5: Option<String>,
    pub rating: Option<String>,
    pub fav_count: Option<i64>,
    pub score_total: Option<i64>,
    pub created_at: Option<String>,
    pub sources: Vec<String>,
    pub tags: E621Tags,
}

/// The mathematical view of an `E621PostInput`.
pub struct PostView {
    pub id: i64,
    pub file_url: Seq<char>,
    pub file_ext: Seq<char>,
    pub file_md5: Option<Seq<char>>,
    pub rating: Option<Seq<char>>,
    pub fav_count: Option<i64>,
    pub score_total: Option<i64>,
    pub created_at: Option<Seq<char>>,
    pub sources: Seq<Seq<char>>,
    pub tags: TagsView,
}

impl DeepView for E621PostInput {
    type V = PostView;

    open spec fn deep_view(&self) -> PostView {
        PostView {
            id: self.id,
            file_url: self.file_url@,
            file_ext: self.file_ext@,
            file_md5: self.file_md5.deep_view(),
            rating: self.rating.deep_view(),
            fav_count: self.fav_count,
            score_total: self.score_total,
            created_at: self.created_at.deep_view(),
            sources: self.sources.deep_view(),
            tags: self.tags.deep_view(),
        }
    }
}

/// What is known of one candidate once its detail is resolved.
#[derive(Debug)]
pub struct MediaDetail {
    /// Where the media bytes are; `None` where the source withholds the file.
    pub download_url: Option<String>,
    pub ext: String,
    /// The content hash that the source states, if it states one.
    pub declared_hash: Option<String>,
    pub rating: Option<Rating>,
    pub fav_count: Option<i64>,
    pub score_total: Option<i64>,
    pub created_at: Option<String>,
    pub tags: E621Tags,
    pub source_urls: Vec<String>,
}

/// The mathematical view of a `MediaDetail`.
pub struct DetailView {
    pub download_url: Option<Seq<char>>,
    pub ext: Seq<char>,
    pub declared_hash: Option<Seq<char>>,
    pub rating: Option<Rating>,
    pub fav_count: Option<i64>,
    pub score_total: Option<i64>,
    pub created_at: Option<Seq<char>>,
    pub tags: TagsView,
    pub source_urls: Seq<Seq<char>>,
}

impl DeepView for MediaDetail {
    type V = DetailView;

    open spec fn deep_view(&self) -> DetailView {
        DetailView {
            download_url: self.download_url.deep_view(),
            ext: self.ext@,
            declared_hash: self.declared_hash.deep_view(),
            rating: self.rating,
            fav_count: self.fav_count,
            score_total: self.score_total,
            created_at: self.created_at.deep_view(),
            tags: self.tags.deep_view(),
            source_urls: self.source_urls.deep_view(),
        }
    }
}

/// One entry of a listing page. An entry without a usable id has no candidate;
/// the structured source delivers the detail together with the listing.
#[derive(Debug)]
pub struct Listed {
    pub candidate: Option<Candidate>,
    pub detail: Option<MediaDetail>,
}

/// The mathematical view of a `Listed`.
pub struct ListedView {
    pub candidate: Option<CandidateView>,
    pub detail: Option<DetailView>,
}

impl DeepView for Listed {
    type V = ListedView;

    open spec fn deep_view(&self) -> ListedView {
        ListedView { candidate: self.candidate.deep_view(), detail: self.detail.deep_view() }
    }
}

/// A post of the trusted source that holds the content looked up.
#[derive(Debug)]
pub struct Found {
    pub candidate: Candidate,
    pub detail: MediaDetail,
}

/// The mathematical view of a `Found`.
pub struct FoundView {
    pub candidate: CandidateView,
    pub detail: DetailView,
}

impl DeepView for Found {
    type V = FoundView;

    open spec fn deep_view(&self) -> FoundView {
        FoundView { candidate: self.candidate.deep_view(), detail: self.detail.deep_view() }
    }
}

/// A tag to create if missing and to link to the item.
#[derive(Debug)]
pub struct TagLink {
    pub name: String,
    pub category: TagCategory,
}

/// The mathematical view of a `TagLink`.
pub struct TagLinkView {
    pub name: Seq<char>,
    pub category: TagCategory,
}

impl DeepView for TagLink {
    type V = TagLinkView;

    open spec fn deep_view(&self) -> TagLinkView {
        TagLinkView { name: self.name@, category: self.category }
    }
}

/// Everything the writer needs to persist one item: the file and, in one
/// transaction, the item row with its tag and source links.
#[derive(Debug)]
pub struct PersistPlan {
    pub source: SourceKind,
    pub source_id: String,
    pub content_hash: String,
    pub remote_url: String,
    pub file_stem: String,
    pub ext: String,
    pub rating: Option<Rating>,
    pub fav_count: Option<i64>,
    pub score_total: Option<i64>,
    pub created_at: Option<String>,
    pub added_at: String,
    /// The artist under whose name the item is filed, where one is recorded.
    pub primary_artist: Option<String>,
    pub tags: Vec<TagLink>,
    pub source_urls: Vec<String>,
    pub bytes: Vec<u8>,
    /// Whether the item stands in for a candidate of the lower-trust source.
    pub upgrade: bool,
}

/// The mathematical view of a `PersistPlan`.
pub struct PlanView {
    pub source: SourceKind,
    pub source_id: Seq<char>,
    pub content_hash: Seq<char>,
    pub remote_url: Seq<char>,
    pub file_stem: Seq<char>,
    pub ext: Seq<char>,
    pub rating: Option<Rating>,
    pub fav_count: Option<i64>,
    pub score_total: Option<i64>,
    pub created_at: Option<Seq<char>>,
    pub added_at: Seq<char>,
    pub primary_artist: Option<Seq<char>>,
    pub tags: Seq<TagLinkView>,
    pub source_urls: Seq<Seq<char>>,
    pub bytes: Seq<u8>,
    pub upgrade: bool,
}

impl DeepView for PersistPlan {
    type V = PlanView;

    open spec fn deep_view(&self) -> PlanView {
        PlanView {
            source: self.source,
            source_id: self.source_id@,
            content_hash: self.content_hash@,
            remote_url: self.remote_url@,
            file_stem: self.file_stem@,
            ext: self.ext@,
            rating: self.rating,
            fav_count: self.fav_count,
            score_total: self.score_total,
            created_at: self.created_at.deep_view(),
            added_at: self.added_at@,
            primary_artist: self.primary_artist.deep_view(),
            tags: self.tags.deep_view(),
            source_urls: self.source_urls.deep_view(),
            bytes: self.bytes@,
            upgrade: self.upgrade,
        }
    }
}

} // verus!
