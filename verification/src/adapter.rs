//! The structured source: what its posts mean to the run, and where to ask.

use vstd::prelude::*;
use crate::model::{
    Candidate, CandidateView, DetailView, E621PostInput, Found, FoundView, Listed, ListedView,
    MediaDetail, PostView, Rating, SourceKind,
};
use crate::naming::{clean_tag, cleaned_tag};
use crate::text::{
    chars_of, decimal, lowercase, lowercased, numeral, push_str, same_text,
    signed_decimal, signed_numeral, string_of,
};

verus! {

/// The number of posts asked for with each listing page.
pub const LISTING_LIMIT: u32 = 320;

/// The rating that a text names, in any case: a letter or the full word.
pub open spec fn rating_of(s: Seq<char>) -> Option<Rating> {
    let l = lowercased(s);
    if l == "s"@ || l == "safe"@ {
        Some(Rating::Safe)
    } else if l == "q"@ || l == "questionable"@ {
        Some(Rating::Questionable)
    } else if l == "e"@ || l == "explicit"@ {
        Some(Rating::Explicit)
    } else {
        None
    }
}

/// The letter under which a rating is stored.
pub open spec fn rating_letter(r: Rating) -> Seq<char> {
    match r {
        Rating::Safe => "s"@,
        Rating::Questionable => "q"@,
        Rating::Explicit => "e"@,
    }
}

/// The detail that a post of the structured source carries. A post with an
/// empty file URL withholds its file.
pub open spec fn detail_of_post(p: PostView) -> DetailView {
    DetailView {
        download_url: if p.file_url.len() == 0 {
            None
        } else {
            Some(p.file_url)
        },
        ext: cleaned_tag(p.file_ext),
        declared_hash: p.file_md5,
        rating: match p.rating {
            Some(r) => rating_of(r),
            None => None,
        },
        fav_count: p.fav_count,
        score_total: p.score_total,
        created_at: p.created_at,
        tags: p.tags,
        source_urls: p.sources,
    }
}

/// The listing entry for a post. A post with id 0 has no usable id.
pub open spec fn listed_of_post(p: PostView) -> ListedView {
    ListedView {
        candidate: if p.id == 0 {
            None
        } else {
            Some(
                CandidateView { source: SourceKind::E621, source_id: signed_numeral(p.id as int) },
            )
        },
        detail: Some(detail_of_post(p)),
    }
}

/// A post as the answer to a look-up by content hash. Where the post names
/// no extension, the file counts as `jpg`.
pub open spec fn found_of_post(p: PostView) -> FoundView {
    let d = detail_of_post(p);
    FoundView {
        candidate: CandidateView {
            source: SourceKind::E621,
            source_id: signed_numeral(p.id as int),
        },
        detail: DetailView {
            ext: if d.ext.len() == 0 {
                "jpg"@
            } else {
                d.ext
            },
            ..d
        },
    }
}

/// The tag query that lists a user's favorites, newest post first.
pub open spec fn favorites_query(username: Seq<char>) -> Seq<char> {
    "fav:"@ + username + " order:id_desc"@
}

/// Where the trusted source answers a look-up by content hash.
pub open spec fn lookup_url_of(hash: Seq<char>) -> Seq<char> {
    "https://e621.net/posts.json?tags=md5:"@ + hash
}

/// Reads a rating from a letter or a word, in any case.
pub fn parse_rating(s: &str) -> (r: Option<Rating>)
    ensures
        r == rating_of(s@),
{
    let l = lowercase(s);
    if same_text(l.as_str(), "s") || same_text(l.as_str(), "safe") {
        Some(Rating::Safe)
    } else if same_text(l.as_str(), "q") || same_text(l.as_str(), "questionable") {
        Some(Rating::Questionable)
    } else if same_text(l.as_str(), "e") || same_text(l.as_str(), "explicit") {
        Some(Rating::Explicit)
    } else {
        None
    }
}

/// The letter under which a rating is stored.
pub fn rating_code(r: Rating) -> (s: &'static str)
    ensures
        s@ == rating_letter(r),
{
    match r {
        Rating::Safe => "s",
        Rating::Questionable => "q",
        Rating::Explicit => "e",
    }
}

/// The detail that a post carries.
pub fn detail_from_post(post: E621PostInput) -> (d: MediaDetail)
    ensures
        d.deep_view() == detail_of_post(post.deep_view()),
{
    let ext = clean_tag(post.file_ext.as_str());
    let rating = match &post.rating {
        Some(r) => parse_rating(r.as_str()),
        None => None,
    };
    let download_url = if post.file_url.as_str().unicode_len() == 0 {
        None
    } else {
        Some(post.file_url)
    };
    MediaDetail {
        download_url,
        ext,
        declared_hash: post.file_md5,
        rating,
        fav_count: post.fav_count,
        score_total: post.score_total,
        created_at: post.created_at,
        tags: post.tags,
        source_urls: post.sources,
    }
}

/// The listing entry for a post of the structured source.
pub fn listed_from_post(post: E621PostInput) -> (l: Listed)
    ensures
        l.deep_view() == listed_of_post(post.deep_view()),
{
    let candidate = if post.id == 0 {
        None
    } else {
        let id = signed_decimal(post.id);
        Some(Candidate { source: SourceKind::E621, source_id: string_of(&id) })
    };
    let detail = detail_from_post(post);
    Listed { candidate, detail: Some(detail) }
}

/// A post as the answer to a look-up by content hash.
pub fn found_from_post(post: E621PostInput) -> (f: Found)
    ensures
        f.deep_view() == found_of_post(post.deep_view()),
{
    let id = signed_decimal(post.id);
    let candidate = Candidate { source: SourceKind::E621, source_id: string_of(&id) };
    let mut detail = detail_from_post(post);
    if detail.ext.as_str().unicode_len() == 0 {
        detail.ext = "jpg".to_string();
    }
    Found { candidate, detail }
}

/// The tag query that lists a user's favorites.
pub fn make_favorites_query(username: &str) -> (out: String)
    ensures
        out@ == favorites_query(username@),
{
    let mut v = chars_of("fav:");
    push_str(&mut v, username);
    push_str(&mut v, " order:id_desc");
    string_of(&v)
}

/// Where the trusted source answers a look-up by content hash.
pub fn lookup_url(hash: &str) -> (out: String)
    ensures
        out@ == lookup_url_of(hash@),
{
    let mut v = chars_of("https://e621.net/posts.json?tags=md5:");
    push_str(&mut v, hash);
    string_of(&v)
}

/// The decimal text of a page number or a limit, as a query parameter.
pub fn number_text(n: u32) -> (out: String)
    ensures
        out@ == numeral(n as nat),
{
    let v = decimal(n as u64);
    string_of(&v)
}

} // verus!
