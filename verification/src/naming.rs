//! Names: artist slugs, file names and the places of files inside the library.

use vstd::prelude::*;
use crate::model::{SourceKind, TagCategory, TagLink, TagLinkView, E621Tags, TagsView};
use crate::text::{
    chars_of, decimal, lowercase, lowercased, numeral, push_chars, push_str, remove_chars,
    replace_char, replaced, same_text, string_of, trim, trimmed, without,
};

verus! {

/// Characters that never appear in a slug.
pub open spec fn forbidden() -> Seq<char> {
    seq!['<', '>', ';', ':', '"', '/', '\\', '|', '?', '*']
}

/// The slug of an artist name: trimmed, lower case, spaces as underscores,
/// forbidden characters dropped; `unknown_artist` where nothing is left.
pub open spec fn slug(s: Seq<char>) -> Seq<char> {
    let cleaned = without(replaced(lowercased(trimmed(s)), ' ', '_'), forbidden());
    if cleaned.len() == 0 {
        "unknown_artist"@
    } else {
        cleaned
    }
}

/// Artist tags that name no artist.
pub open spec fn denied(a: Seq<char>) -> bool {
    a == "sound_warning"@ || a == "conditional_dnp"@
}

/// The first artist tag that names an artist, `unknown_artist` if there is none.
pub open spec fn primary_artist(artists: Seq<Seq<char>>) -> Seq<char>
    decreases artists.len(),
{
    if artists.len() == 0 {
        "unknown_artist"@
    } else if !denied(artists.first()) {
        artists.first()
    } else {
        primary_artist(artists.drop_first())
    }
}

/// A tag name as it is stored: trimmed and in lower case.
pub open spec fn cleaned_tag(s: Seq<char>) -> Seq<char> {
    lowercased(trimmed(s))
}

/// The links for the names of one category, in order; names that clean to
/// nothing are left out.
pub open spec fn tag_links(names: Seq<Seq<char>>, category: TagCategory) -> Seq<TagLinkView>
    decreases names.len(),
{
    if names.len() == 0 {
        Seq::empty()
    } else {
        let before = tag_links(names.drop_last(), category);
        let name = cleaned_tag(names.last());
        if name.len() == 0 {
            before
        } else {
            before.push(TagLinkView { name, category })
        }
    }
}

/// The links for all tags of a post, category by category.
pub open spec fn all_tag_links(tags: TagsView) -> Seq<TagLinkView> {
    tag_links(tags.general, TagCategory::General) + tag_links(tags.species, TagCategory::Species)
        + tag_links(tags.character, TagCategory::Character) + tag_links(
        tags.artist,
        TagCategory::Artist,
    ) + tag_links(tags.meta, TagCategory::Meta) + tag_links(tags.lore, TagCategory::Lore)
        + tag_links(tags.copyright, TagCategory::Copyright)
}

/// The links for the names of one category as they are delivered.
pub open spec fn delivered_links(names: Seq<Seq<char>>, category: TagCategory) -> Seq<TagLinkView> {
    Seq::new(names.len(), |i: int| TagLinkView { name: names[i], category })
}

/// The links for all tags of a post as they are delivered, category by
/// category.
pub open spec fn all_delivered_links(tags: TagsView) -> Seq<TagLinkView> {
    delivered_links(tags.general, TagCategory::General) + delivered_links(
        tags.species,
        TagCategory::Species,
    ) + delivered_links(tags.character, TagCategory::Character) + delivered_links(
        tags.artist,
        TagCategory::Artist,
    ) + delivered_links(tags.meta, TagCategory::Meta) + delivered_links(
        tags.lore,
        TagCategory::Lore,
    ) + delivered_links(tags.copyright, TagCategory::Copyright)
}

/// The tag links of an item. A post that the structured source lists is
/// linked to its tags as delivered; a scraped submission, and a post that
/// stands in for one, to its tags cleaned.
pub open spec fn item_tag_links(tags: TagsView, source: SourceKind, upgrade: bool) -> Seq<
    TagLinkView,
> {
    if source.trusted() && !upgrade {
        all_delivered_links(tags)
    } else {
        all_tag_links(tags)
    }
}

/// The file name without extension: artist slug, source mark and id.
pub open spec fn file_stem(artist_slug: Seq<char>, source: SourceKind, source_id: Seq<char>) -> Seq<
    char,
> {
    artist_slug + "_"@ + source.spec_file_tag() + "_"@ + source_id
}

/// The artist part of a scraped submission's file name: its first artist
/// tag in lower case, with underscores for spaces; `unknown` where it has
/// none.
pub open spec fn scraped_artist(artists: Seq<Seq<char>>) -> Seq<char> {
    lowercased(
        replaced(
            if artists.len() > 0 {
                artists.first()
            } else {
                "unknown"@
            },
            ' ',
            '_',
        ),
    )
}

/// The file name without extension of an item: artist, source mark and id
/// for a post that its source lists, the artist a slug for the structured
/// source; source mark and id alone for a post that stands in for a
/// candidate of the other source.
pub open spec fn item_stem(
    source: SourceKind,
    source_id: Seq<char>,
    artists: Seq<Seq<char>>,
    upgrade: bool,
) -> Seq<char> {
    if upgrade {
        source.spec_file_tag() + "_"@ + source_id
    } else if source.trusted() {
        file_stem(slug(primary_artist(artists)), source, source_id)
    } else {
        file_stem(scraped_artist(artists), source, source_id)
    }
}

/// The artist under whose name an item is filed. It is recorded for the
/// posts that the structured source lists.
pub open spec fn filed_artist(source: SourceKind, artists: Seq<Seq<char>>, upgrade: bool) -> Option<
    Seq<char>,
> {
    if source.trusted() && !upgrade {
        Some(slug(primary_artist(artists)))
    } else {
        None
    }
}

/// The file name to try at the given attempt: the plain name first, then the
/// name with `_dup` and the attempt's number.
pub open spec fn file_name_at(stem: Seq<char>, ext: Seq<char>, attempt: u32) -> Seq<char> {
    if attempt == 0 {
        stem + "."@ + ext
    } else {
        stem + "_dup"@ + numeral(attempt as nat) + "."@ + ext
    }
}

/// The path of a media file relative to the library root, with `/` between its parts.
pub open spec fn media_path_of(file_name: Seq<char>) -> Seq<char> {
    "media/"@ + replaced(file_name, '\\', '/')
}

/// The path of the library's database below `root`.
pub open spec fn db_path_of(root: Seq<char>) -> Seq<char> {
    root + "/db/library.sqlite"@
}

fn forbidden_chars() -> (v: Vec<char>)
    ensures
        v@ == forbidden(),
{
    let mut v: Vec<char> = Vec::new();
    v.push('<');
    v.push('>');
    v.push(';');
    v.push(':');
    v.push('"');
    v.push('/');
    v.push('\\');
    v.push('|');
    v.push('?');
    v.push('*');
    assert(v@ =~= forbidden());
    v
}

/// Trims a text and puts it in lower case.
pub fn clean_tag(s: &str) -> (out: String)
    ensures
        out@ == cleaned_tag(s@),
{
    let v = chars_of(s);
    let t = trim(&v);
    let ts = string_of(&t);
    lowercase(ts.as_str())
}

/// The slug of an artist name, safe inside a file name.
pub fn sanitize_slug(s: &str) -> (out: String)
    ensures
        out@ == slug(s@),
{
    let low = clean_tag(s);
    let lv = chars_of(low.as_str());
    let underscored = replace_char(&lv, ' ', '_');
    let banned = forbidden_chars();
    let cleaned = remove_chars(&underscored, &banned);
    if cleaned.len() == 0 {
        "unknown_artist".to_string()
    } else {
        string_of(&cleaned)
    }
}

fn is_denied(a: &str) -> (r: bool)
    ensures
        r == denied(a@),
{
    same_text(a, "sound_warning") || same_text(a, "conditional_dnp")
}

/// The artist under whose name a post is filed.
pub fn pick_primary_artist(artists: &[String]) -> (out: String)
    ensures
        out@ == primary_artist(artists.deep_view()),
{
    let mut i: usize = 0;
    assert(artists.deep_view().skip(0) =~= artists.deep_view());
    while i < artists.len()
        invariant
            i <= artists.len(),
            primary_artist(artists.deep_view()) == primary_artist(
                artists.deep_view().skip(i as int),
            ),
        decreases artists.len() - i,
    {
        let ghost rest = artists.deep_view().skip(i as int);
        assert(rest.first() == artists@[i as int]@);
        if !is_denied(artists[i].as_str()) {
            return artists[i].clone();
        }
        assert(rest.drop_first() =~= artists.deep_view().skip(i + 1));
        i += 1;
    }
    assert(artists.deep_view().skip(i as int).len() == 0);
    "unknown_artist".to_string()
}

/// Appends to `out` the links for the names of one category.
pub fn push_tag_links(out: &mut Vec<TagLink>, names: &Vec<String>, category: TagCategory)
    ensures
        final(out).deep_view() == old(out).deep_view() + tag_links(names.deep_view(), category),
{
    let mut i: usize = 0;
    assert(names.deep_view().take(0) =~= Seq::empty());
    assert(old(out).deep_view() + Seq::<TagLinkView>::empty() =~= old(out).deep_view());
    while i < names.len()
        invariant
            i <= names.len(),
            out.deep_view() == old(out).deep_view() + tag_links(
                names.deep_view().take(i as int),
                category,
            ),
        decreases names.len() - i,
    {
        let ghost upto = names.deep_view().take(i + 1);
        let ghost before = out.deep_view();
        assert(upto.drop_last() =~= names.deep_view().take(i as int));
        assert(upto.last() == names@[i as int]@);
        let name = clean_tag(names[i].as_str());
        if name.as_str().unicode_len() > 0 {
            out.push(TagLink { name, category });
            assert(out.deep_view() =~= before.push(TagLinkView { name: name@, category }));
            assert(out.deep_view() =~= old(out).deep_view() + tag_links(upto, category));
        }
        i += 1;
    }
    assert(names.deep_view().take(names.len() as int) =~= names.deep_view());
}

/// The tags of a post as links to create, category by category.
pub fn plan_tag_links(tags: &E621Tags) -> (out: Vec<TagLink>)
    ensures
        out.deep_view() == all_tag_links(tags.deep_view()),
{
    let mut out: Vec<TagLink> = Vec::new();
    assert(out.deep_view() =~= Seq::empty());
    push_tag_links(&mut out, &tags.general, TagCategory::General);
    push_tag_links(&mut out, &tags.species, TagCategory::Species);
    push_tag_links(&mut out, &tags.character, TagCategory::Character);
    push_tag_links(&mut out, &tags.artist, TagCategory::Artist);
    push_tag_links(&mut out, &tags.meta, TagCategory::Meta);
    push_tag_links(&mut out, &tags.lore, TagCategory::Lore);
    push_tag_links(&mut out, &tags.copyright, TagCategory::Copyright);
    assert(out.deep_view() =~= all_tag_links(tags.deep_view()));
    out
}

/// Appends to `out` the links for the names of one category as delivered.
pub fn push_delivered_links(out: &mut Vec<TagLink>, names: &Vec<String>, category: TagCategory)
    ensures
        final(out).deep_view() == old(out).deep_view() + delivered_links(
            names.deep_view(),
            category,
        ),
{
    let mut i: usize = 0;
    assert(old(out).deep_view() + delivered_links(names.deep_view().take(0), category) =~= old(
        out,
    ).deep_view());
    while i < names.len()
        invariant
            i <= names.len(),
            out.deep_view() == old(out).deep_view() + delivered_links(
                names.deep_view().take(i as int),
                category,
            ),
        decreases names.len() - i,
    {
        let ghost before = out.deep_view();
        let name = names[i].clone();
        out.push(TagLink { name, category });
        assert(out.deep_view() =~= before.push(TagLinkView { name: names@[i as int]@, category }));
        assert(out.deep_view() =~= old(out).deep_view() + delivered_links(
            names.deep_view().take(i + 1),
            category,
        ));
        i += 1;
    }
    assert(names.deep_view().take(names.len() as int) =~= names.deep_view());
}

/// The tags of a post as links to create, as delivered.
pub fn plan_delivered_links(tags: &E621Tags) -> (out: Vec<TagLink>)
    ensures
        out.deep_view() == all_delivered_links(tags.deep_view()),
{
    let mut out: Vec<TagLink> = Vec::new();
    assert(out.deep_view() =~= Seq::empty());
    push_delivered_links(&mut out, &tags.general, TagCategory::General);
    push_delivered_links(&mut out, &tags.species, TagCategory::Species);
    push_delivered_links(&mut out, &tags.character, TagCategory::Character);
    push_delivered_links(&mut out, &tags.artist, TagCategory::Artist);
    push_delivered_links(&mut out, &tags.meta, TagCategory::Meta);
    push_delivered_links(&mut out, &tags.lore, TagCategory::Lore);
    push_delivered_links(&mut out, &tags.copyright, TagCategory::Copyright);
    assert(out.deep_view() =~= all_delivered_links(tags.deep_view()));
    out
}

/// The tag links of an item.
pub fn plan_item_links(tags: &E621Tags, source: SourceKind, upgrade: bool) -> (out: Vec<TagLink>)
    ensures
        out.deep_view() == item_tag_links(tags.deep_view(), source, upgrade),
{
    if source.is_trusted() && !upgrade {
        plan_delivered_links(tags)
    } else {
        plan_tag_links(tags)
    }
}

/// The file name without extension for an item.
pub fn make_file_stem(artist_slug: &str, source: SourceKind, source_id: &str) -> (out: String)
    ensures
        out@ == file_stem(artist_slug@, source, source_id@),
{
    let mut v = chars_of(artist_slug);
    push_str(&mut v, "_");
    push_str(&mut v, source.file_tag());
    push_str(&mut v, "_");
    push_str(&mut v, source_id);
    string_of(&v)
}

/// The file name without extension of an item.
pub fn make_item_stem(source: SourceKind, source_id: &str, artists: &Vec<String>, upgrade: bool) -> (out:
    String)
    ensures
        out@ == item_stem(source, source_id@, artists.deep_view(), upgrade),
{
    if upgrade {
        let mut v = chars_of(source.file_tag());
        push_str(&mut v, "_");
        push_str(&mut v, source_id);
        string_of(&v)
    } else if source.is_trusted() {
        let first = pick_primary_artist(artists.as_slice());
        let artist = sanitize_slug(first.as_str());
        make_file_stem(artist.as_str(), source, source_id)
    } else {
        let named = if artists.len() > 0 {
            assert(artists.deep_view().first() == artists@[0]@);
            chars_of(artists[0].as_str())
        } else {
            chars_of("unknown")
        };
        let underscored = replace_char(&named, ' ', '_');
        let text = string_of(&underscored);
        let artist = lowercase(text.as_str());
        make_file_stem(artist.as_str(), source, source_id)
    }
}

/// The artist under whose name an item is filed.
pub fn file_artist(source: SourceKind, artists: &Vec<String>, upgrade: bool) -> (out: Option<String>)
    ensures
        out.deep_view() == filed_artist(source, artists.deep_view(), upgrade),
{
    if source.is_trusted() && !upgrade {
        let first = pick_primary_artist(artists.as_slice());
        Some(sanitize_slug(first.as_str()))
    } else {
        None
    }
}

/// The file name to try at `attempt`; the writer raises `attempt` while the
/// name is taken on disk.
pub fn file_name(stem: &str, ext: &str, attempt: u32) -> (out: String)
    ensures
        out@ == file_name_at(stem@, ext@, attempt),
{
    let mut v = chars_of(stem);
    if attempt != 0 {
        push_str(&mut v, "_dup");
        let n = decimal(attempt as u64);
        push_chars(&mut v, &n);
    }
    push_str(&mut v, ".");
    push_str(&mut v, ext);
    string_of(&v)
}

/// The path of a media file relative to the library root.
pub fn media_path(file_name: &str) -> (out: String)
    ensures
        out@ == media_path_of(file_name@),
{
    let name = chars_of(file_name);
    let fixed = replace_char(&name, '\\', '/');
    let mut v = chars_of("media/");
    push_chars(&mut v, &fixed);
    string_of(&v)
}

/// The path of the library's database below `root`.
pub fn db_path(root: &str) -> (out: String)
    ensures
        out@ == db_path_of(root@),
{
    let mut v = chars_of(root);
    push_str(&mut v, "/db/library.sqlite");
    string_of(&v)
}

/// Whether a name is among those taken.
pub open spec fn is_taken(taken: Seq<Seq<char>>, name: Seq<char>) -> bool {
    exists|k: int| 0 <= k < taken.len() && #[trigger] taken[k] == name
}

/// The name under which a file is written before it is moved to its place.
pub open spec fn temp_name_of(file_name: Seq<char>) -> Seq<char> {
    file_name + ".part"@
}

fn name_taken(taken: &Vec<String>, name: &str) -> (r: bool)
    ensures
        r == is_taken(taken.deep_view(), name@),
{
    let mut k: usize = 0;
    while k < taken.len()
        invariant
            k <= taken.len(),
            forall|j: int| 0 <= j < k ==> #[trigger] taken.deep_view()[j] != name@,
        decreases taken.len() - k,
    {
        assert(taken.deep_view()[k as int] == taken@[k as int]@);
        if same_text(taken[k].as_str(), name) {
            return true;
        }
        k += 1;
    }
    false
}

/// The first attempt whose file name is not taken, with that name; `None`
/// where the names of the attempts 0 to `taken.len()` are all taken.
pub fn first_free_name(stem: &str, ext: &str, taken: &Vec<String>) -> (r: Option<(u32, String)>)
    ensures
        match r {
            Some((attempt, name)) => {
                &&& name@ == file_name_at(stem@, ext@, attempt)
                &&& !is_taken(taken.deep_view(), name@)
                &&& forall|m: u32|
                    m < attempt ==> is_taken(
                        taken.deep_view(),
                        #[trigger] file_name_at(stem@, ext@, m),
                    )
            },
            None => forall|m: u32|
                m <= taken.len() ==> is_taken(
                    taken.deep_view(),
                    #[trigger] file_name_at(stem@, ext@, m),
                ),
        },
{
    let mut attempt: u32 = 0;
    loop
        invariant
            attempt <= taken.len(),
            forall|m: u32|
                m < attempt ==> is_taken(
                    taken.deep_view(),
                    #[trigger] file_name_at(stem@, ext@, m),
                ),
        decreases taken.len() - attempt,
    {
        let name = file_name(stem, ext, attempt);
        if !name_taken(taken, name.as_str()) {
            return Some((attempt, name));
        }
        if attempt == u32::MAX || attempt as usize >= taken.len() {
            return None;
        }
        attempt += 1;
    }
}

/// The name under which a file is written before it is moved to its place.
pub fn temp_name(file_name: &str) -> (out: String)
    ensures
        out@ == temp_name_of(file_name@),
{
    let mut v = chars_of(file_name);
    push_str(&mut v, ".part");
    string_of(&v)
}

} // verus!
