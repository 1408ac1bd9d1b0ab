//! The library on disk and its housekeeping: what is shown, kept and asked
//! of the user, as far as it is a matter of rules and not of reading or writing.

use vstd::prelude::*;
use vstd::utf8::encode_utf8;
use crate::digest::{content_hash, content_hash_of};
use crate::naming::{clean_tag, cleaned_tag};
use crate::text::{chars_of, push_str, same_text, string_of, trim, trimmed};

verus! {

/// The settings of the application.
#[derive(Debug)]
pub struct AppConfig {
    pub library_root: Option<String>,
}

impl AppConfig {
    /// The settings before a library root is chosen.
    pub fn new() -> (c: AppConfig)
        ensures
            c.library_root is None,
    {
        AppConfig { library_root: None }
    }
}

/// One item as the views show it.
#[derive(Debug)]
pub struct ItemDto {
    pub item_id: i64,
    pub source: String,
    pub source_id: String,
    pub remote_url: Option<String>,
    pub file_abs: String,
    pub ext: Option<String>,
    pub tags: Vec<String>,
    pub artists: Vec<String>,
    pub sources: Vec<String>,
    pub rating: Option<String>,
    pub fav_count: Option<i64>,
    pub score_total: Option<i64>,
    pub timestamp: Option<String>,
    pub added_at: String,
}

/// A candidate that could not be archived, kept for the user to follow up.
#[derive(Debug)]
pub struct UnavailableDto {
    pub source: String,
    pub source_id: String,
    pub seen_at: String,
    pub reason: String,
    pub sources: Vec<String>,
}

/// What is shown of the structured source's credentials.
#[derive(Debug)]
pub struct E621CredInfo {
    pub username: Option<String>,
    pub has_api_key: bool,
}

/// What is shown of the scraped source's credentials.
#[derive(Debug)]
pub struct FaCredInfo {
    pub has_creds: bool,
}

/// The credentials to store after the user has entered them.
#[derive(Debug)]
pub struct CredentialUpdate {
    pub username: String,
    /// The new key; `None` keeps the key that is stored.
    pub api_key: Option<String>,
}

/// The user name was empty.
#[derive(Clone, Copy, Debug, PartialEq, Eq, Structural)]
pub struct EmptyUsername;

/// The parts of a text between its separators; none for the empty text.
pub open spec fn fields(s: Seq<char>, sep: char) -> Seq<Seq<char>> {
    if s.len() == 0 {
        Seq::empty()
    } else {
        fields_from(s, sep, 0, Seq::empty())
    }
}

/// The parts of `s` from position `i` on, where `cur` is the part begun before `i`.
pub open spec fn fields_from(s: Seq<char>, sep: char, i: int, cur: Seq<char>) -> Seq<Seq<char>>
    decreases s.len() - i,
{
    if i < 0 || i >= s.len() {
        seq![cur]
    } else if s[i] == sep {
        seq![cur] + fields_from(s, sep, i + 1, Seq::empty())
    } else {
        fields_from(s, sep, i + 1, cur.push(s[i]))
    }
}

/// The texts of a list, trimmed, without those that are only white space.
pub open spec fn kept_trimmed(list: Seq<Seq<char>>) -> Seq<Seq<char>>
    decreases list.len(),
{
    if list.len() == 0 {
        Seq::empty()
    } else {
        let before = kept_trimmed(list.drop_last());
        let t = trimmed(list.last());
        if t.len() == 0 {
            before
        } else {
            before.push(t)
        }
    }
}

/// The tag names of a list as they are stored, without those that clean to nothing.
pub open spec fn kept_tags(list: Seq<Seq<char>>) -> Seq<Seq<char>>
    decreases list.len(),
{
    if list.len() == 0 {
        Seq::empty()
    } else {
        let before = kept_tags(list.drop_last());
        let t = cleaned_tag(list.last());
        if t.len() == 0 {
            before
        } else {
            before.push(t)
        }
    }
}

/// The name of the cached thumbnail of a media file: the content hash of the
/// file's relative path in UTF-8, as a JPEG.
pub open spec fn thumbnail_name_of(file_rel: Seq<char>) -> Seq<char> {
    content_hash_of(encode_utf8(file_rel)) + ".jpg"@
}

/// Whether an extension names a video.
pub open spec fn video_ext(ext: Seq<char>) -> bool {
    ext == "mp4"@ || ext == "webm"@
}

/// Whether an extension names media of which no still thumbnail is made.
pub open spec fn moving_ext(ext: Seq<char>) -> bool {
    video_ext(ext) || ext == "gif"@
}

/// Whether the trusted source's answer to "make this a favorite" means that
/// the post is a favorite now: any success, or 422 for one that was already.
pub open spec fn favorite_ok(status: u16) -> bool {
    200 <= status <= 299 || status == 422
}

/// Checks what the user entered as credentials: the name must not be empty
/// once trimmed; a blank key keeps the stored one.
pub fn plan_credentials(username: &str, api_key: &str) -> (r: Result<CredentialUpdate, EmptyUsername>)
    ensures
        r is Err <==> trimmed(username@).len() == 0,
        r matches Ok(u) ==> {
            &&& u.username@ == trimmed(username@)
            &&& u.api_key.deep_view() == (if trimmed(api_key@).len() == 0 {
                None
            } else {
                Some(trimmed(api_key@))
            })
        },
{
    let name = trim(&chars_of(username));
    if name.len() == 0 {
        return Err(EmptyUsername);
    }
    let key = trim(&chars_of(api_key));
    let api_key = if key.len() == 0 {
        None
    } else {
        Some(string_of(&key))
    };
    Ok(CredentialUpdate { username: string_of(&name), api_key })
}

/// The source links of an item as they are stored.
pub fn clean_sources(urls: &Vec<String>) -> (out: Vec<String>)
    ensures
        out.deep_view() == kept_trimmed(urls.deep_view()),
{
    let mut out: Vec<String> = Vec::new();
    let mut i: usize = 0;
    assert(urls.deep_view().take(0) =~= Seq::empty());
    assert(out.deep_view() =~= Seq::empty());
    while i < urls.len()
        invariant
            i <= urls.len(),
            out.deep_view() == kept_trimmed(urls.deep_view().take(i as int)),
        decreases urls.len() - i,
    {
        let ghost upto = urls.deep_view().take(i + 1);
        let ghost before = out.deep_view();
        assert(upto.drop_last() =~= urls.deep_view().take(i as int));
        assert(upto.last() == urls@[i as int]@);
        let t = trim(&chars_of(urls[i].as_str()));
        if t.len() > 0 {
            out.push(string_of(&t));
            assert(out.deep_view() =~= before.push(t@));
        }
        i += 1;
    }
    assert(urls.deep_view().take(urls.len() as int) =~= urls.deep_view());
    out
}

/// The tag names of an item as they are stored.
pub fn clean_tags(tags: &Vec<String>) -> (out: Vec<String>)
    ensures
        out.deep_view() == kept_tags(tags.deep_view()),
{
    let mut out: Vec<String> = Vec::new();
    let mut i: usize = 0;
    assert(tags.deep_view().take(0) =~= Seq::empty());
    assert(out.deep_view() =~= Seq::empty());
    while i < tags.len()
        invariant
            i <= tags.len(),
            out.deep_view() == kept_tags(tags.deep_view().take(i as int)),
        decreases tags.len() - i,
    {
        let ghost upto = tags.deep_view().take(i + 1);
        let ghost before = out.deep_view();
        assert(upto.drop_last() =~= tags.deep_view().take(i as int));
        assert(upto.last() == tags@[i as int]@);
        let t = clean_tag(tags[i].as_str());
        if t.as_str().unicode_len() > 0 {
            out.push(t);
            assert(out.deep_view() =~= before.push(t@));
        }
        i += 1;
    }
    assert(tags.deep_view().take(tags.len() as int) =~= tags.deep_view());
    out
}

/// Splits a text at each separator; the empty text has no parts.
pub fn split_fields(s: &str, sep: char) -> (out: Vec<String>)
    ensures
        out.deep_view() == fields(s@, sep),
{
    let v = chars_of(s);
    let mut out: Vec<String> = Vec::new();
    assert(out.deep_view() =~= Seq::empty());
    if v.len() == 0 {
        return out;
    }
    let mut cur: Vec<char> = Vec::new();
    let mut i: usize = 0;
    assert(Seq::<Seq<char>>::empty() + fields_from(v@, sep, 0, cur@) =~= fields_from(
        v@,
        sep,
        0,
        cur@,
    ));
    while i < v.len()
        invariant
            i <= v.len(),
            fields(s@, sep) == out.deep_view() + fields_from(v@, sep, i as int, cur@),
            v@ == s@,
            v.len() > 0,
        decreases v.len() - i,
    {
        let ghost before = out.deep_view();
        if v[i] == sep {
            out.push(string_of(&cur));
            assert(out.deep_view() =~= before.push(cur@));
            assert(before + (seq![cur@] + fields_from(v@, sep, i + 1, Seq::empty()))
                =~= out.deep_view() + fields_from(v@, sep, i + 1, Seq::empty()));
            cur = Vec::new();
        } else {
            cur.push(v[i]);
        }
        i += 1;
    }
    let ghost before = out.deep_view();
    out.push(string_of(&cur));
    assert(out.deep_view() =~= before + seq![cur@]);
    out
}

/// The name of the cached thumbnail of the media file at `file_rel`: the
/// content hash of the path's bytes, as a JPEG.
pub fn thumbnail_name(file_rel: &str) -> (out: String)
    ensures
        out@ == thumbnail_name_of(file_rel@),
{
    let hash = content_hash(file_rel.as_bytes());
    let mut v = chars_of(hash.as_str());
    push_str(&mut v, ".jpg");
    string_of(&v)
}

/// Whether an extension names a video.
pub fn is_video_ext(ext: &str) -> (b: bool)
    ensures
        b == video_ext(ext@),
{
    same_text(ext, "mp4") || same_text(ext, "webm")
}

/// Whether an extension names media of which no still thumbnail is made.
pub fn is_moving_ext(ext: &str) -> (b: bool)
    ensures
        b == moving_ext(ext@),
{
    is_video_ext(ext) || same_text(ext, "gif")
}

/// Whether the trusted source has the post as a favorite after the request.
pub fn favorite_accepted(status: u16) -> (b: bool)
    ensures
        b == favorite_ok(status),
{
    (200 <= status && status <= 299) || status == 422
}

/// The directories of a library, relative to its root.
pub fn layout_dirs() -> (dirs: Vec<&'static str>)
    ensures
        dirs@.len() == 6,
        dirs@[0]@ == "db"@,
        dirs@[1]@ == "media"@,
        dirs@[2]@ == "cache/thumbs"@,
        dirs@[3]@ == "cache/previews"@,
        dirs@[4]@ == ".trash/media"@,
        dirs@[5]@ == ".trash/cache"@,
{
    let mut dirs: Vec<&'static str> = Vec::new();
    dirs.push("db");
    dirs.push("media");
    dirs.push("cache/thumbs");
    dirs.push("cache/previews");
    dirs.push(".trash/media");
    dirs.push(".trash/cache");
    dirs
}

} // verus!
