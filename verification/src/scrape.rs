//! The scraped source: what its pages mean to the run, and where to ask.

use vstd::prelude::*;
use vstd::utf8::encode_utf8;
use crate::model::{
    Candidate, CandidateView, DetailView, E621Tags, Listed, ListedView, MediaDetail, Rating,
    SourceKind, TagsView,
};
use crate::naming::{clean_tag, cleaned_tag};
use crate::text::{
    after_last, chars_of, decimal, find_from, find_sub, numeral, push_chars, push_str,
    replace_char, replaced, same_text, string_of, strip_all, stripped, tail_after_last, trim,
    trimmed,
};

verus! {

/// For each element of the page `html` that the CSS selector matches, in
/// document order, the value of its attribute `attr`, as the `scraper` crate
/// finds them; `None` where the selector is not valid CSS.
pub uninterp spec fn selected_attrs(html: Seq<char>, selector: Seq<char>, attr: Seq<char>)
    -> Option<Seq<Option<Seq<char>>>>;

/// For each element of the page `html` that the CSS selector matches, in
/// document order, the text inside it, as the `scraper` crate finds them;
/// `None` where the selector is not valid CSS.
pub uninterp spec fn selected_texts(html: Seq<char>, selector: Seq<char>) -> Option<
    Seq<Seq<char>>,
>;

/// The greatest length in bytes of a page that is handed to the parser.
/// The parser keeps its texts in buffers whose arithmetic fails beyond 2^31
/// bytes, and a text can come out three times as long as its source; a
/// page of this length stays below that.
pub const MAX_PAGE_BYTES: usize = 0x2000_0000;

/// Whether a page is short enough to be parsed.
pub open spec fn page_fits(html: Seq<char>) -> bool {
    encode_utf8(html).len() <= MAX_PAGE_BYTES
}

/// Parses the page with `scraper::Html::parse_document` and the selector with
/// `scraper::Selector::parse`, walks `Html::select` and reads each element's
/// attribute with `Element::attr`. Trusted: the outcome is a function of the
/// three texts alone. The page must be short enough for the parser's buffers.
#[verifier::external_body]
fn select_attr(html: &str, selector: &str, attr: &str) -> (out: Option<Vec<Option<String>>>)
    requires
        page_fits(html@),
    ensures
        out.deep_view() == selected_attrs(html@, selector@, attr@),
{
    let parsed = scraper::Selector::parse(selector).ok()?;
    let document = scraper::Html::parse_document(html);
    Some(document.select(&parsed).map(|e| e.value().attr(attr).map(|v| v.to_string())).collect())
}

/// Parses the page and the selector as `select_attr` does, and gathers each
/// matched element's text with `ElementRef::text`. Trusted: the outcome is a
/// function of the two texts alone. The page must be short enough for the
/// parser's buffers.
#[verifier::external_body]
fn select_text(html: &str, selector: &str) -> (out: Option<Vec<String>>)
    requires
        page_fits(html@),
    ensures
        out.deep_view() == selected_texts(html@, selector@),
{
    let parsed = scraper::Selector::parse(selector).ok()?;
    let document = scraper::Html::parse_document(html);
    Some(document.select(&parsed).map(|e| e.text().collect::<String>()).collect())
}

/// The attribute values that a selector finds on a page. A page that is too
/// long to be parsed, and a selector that is not valid, find nothing.
pub open spec fn found_attrs(html: Seq<char>, selector: Seq<char>, attr: Seq<char>) -> Seq<
    Option<Seq<char>>,
> {
    if page_fits(html) {
        or_none(selected_attrs(html, selector, attr))
    } else {
        Seq::empty()
    }
}

/// The texts that a selector finds on a page. A page that is too long to be
/// parsed, and a selector that is not valid, find nothing.
pub open spec fn found_texts(html: Seq<char>, selector: Seq<char>) -> Seq<Seq<char>> {
    if page_fits(html) {
        or_none(selected_texts(html, selector))
    } else {
        Seq::empty()
    }
}

/// Whether a page is short enough to be parsed.
pub fn fits(html: &str) -> (b: bool)
    ensures
        b == page_fits(html@),
{
    html.as_bytes().len() <= MAX_PAGE_BYTES
}

fn find_attrs(html: &str, selector: &str, attr: &str) -> (out: Vec<Option<String>>)
    ensures
        out.deep_view() == found_attrs(html@, selector@, attr@),
{
    let found = if fits(html) {
        select_attr(html, selector, attr)
    } else {
        None
    };
    match found {
        Some(v) => v,
        None => {
            let v: Vec<Option<String>> = Vec::new();
            assert(v.deep_view() =~= Seq::empty());
            v
        },
    }
}

fn find_texts(html: &str, selector: &str) -> (out: Vec<String>)
    ensures
        out.deep_view() == found_texts(html@, selector@),
{
    let found = if fits(html) {
        select_text(html, selector)
    } else {
        None
    };
    match found {
        Some(v) => v,
        None => no_texts(),
    }
}

/// What the selectors find on a submission page.
#[derive(Debug)]
pub struct RawDetail {
    /// The `href` of each download link.
    pub download_hrefs: Vec<Option<String>>,
    /// The text of each tag link.
    pub tag_texts: Vec<String>,
    /// The texts that may name the artist, the likeliest first.
    pub artist_texts: Vec<String>,
    /// The text of each rating mark.
    pub rating_texts: Vec<String>,
}

/// The mathematical view of a `RawDetail`.
pub struct RawDetailView {
    pub download_hrefs: Seq<Option<Seq<char>>>,
    pub tag_texts: Seq<Seq<char>>,
    pub artist_texts: Seq<Seq<char>>,
    pub rating_texts: Seq<Seq<char>>,
}

impl DeepView for RawDetail {
    type V = RawDetailView;

    open spec fn deep_view(&self) -> RawDetailView {
        RawDetailView {
            download_hrefs: self.download_hrefs.deep_view(),
            tag_texts: self.tag_texts.deep_view(),
            artist_texts: self.artist_texts.deep_view(),
            rating_texts: self.rating_texts.deep_view(),
        }
    }
}

/// The listing entries for the `id` attributes of a favorites page: each id
/// without its `sid-` mark; figures without an id are left out.
pub open spec fn listing_of(ids: Seq<Option<Seq<char>>>) -> Seq<ListedView>
    decreases ids.len(),
{
    if ids.len() == 0 {
        Seq::empty()
    } else {
        let before = listing_of(ids.drop_last());
        match ids.last() {
            Some(a) => {
                let id = stripped(a, "sid-"@);
                if id.len() == 0 {
                    before
                } else {
                    before.push(
                        ListedView {
                            candidate: Some(
                                CandidateView { source: SourceKind::FurAffinity, source_id: id },
                            ),
                            detail: None,
                        },
                    )
                }
            },
            None => before,
        }
    }
}

/// The first of the texts that is more than white space, trimmed.
pub open spec fn first_named(texts: Seq<Seq<char>>) -> Option<Seq<char>>
    decreases texts.len(),
{
    if texts.len() == 0 {
        None
    } else if trimmed(texts.first()).len() > 0 {
        Some(trimmed(texts.first()))
    } else {
        first_named(texts.drop_first())
    }
}

/// The artist's folder in a download link: what stands between `/art/` and
/// the next `/`.
pub open spec fn artist_in_url(url: Seq<char>) -> Option<Seq<char>> {
    match find_from(url, "/art/"@, 0) {
        Some(i) => {
            let rest = url.skip(i + "/art/"@.len());
            match find_from(rest, "/"@, 0) {
                Some(j) => Some(rest.take(j)),
                None => None,
            }
        },
        None => None,
    }
}

/// The download link of a submission page: the first link's `href` behind
/// `https:`; none where the page has no download link.
pub open spec fn download_of(hrefs: Seq<Option<Seq<char>>>) -> Option<Seq<char>> {
    if hrefs.len() == 0 {
        None
    } else {
        Some(
            "https:"@ + match hrefs.first() {
                Some(h) => h,
                None => Seq::empty(),
            },
        )
    }
}

/// The artist of a submission: the first text that names one, else the
/// folder in the download link, else `unknown`; spaces become underscores.
pub open spec fn artist_of(raw: RawDetailView) -> Seq<char> {
    let named = match first_named(raw.artist_texts) {
        Some(a) => a,
        None => match download_of(raw.download_hrefs) {
            Some(url) => match artist_in_url(url) {
                Some(a) => a,
                None => "unknown"@,
            },
            None => "unknown"@,
        },
    };
    replaced(named, ' ', '_')
}

/// The rating of a submission: `adult` is explicit, `mature` questionable,
/// anything else safe.
pub open spec fn rating_from_mark(marks: Seq<Seq<char>>) -> Rating {
    if marks.len() == 0 {
        Rating::Safe
    } else {
        let m = cleaned_tag(marks.first());
        if m == "adult"@ {
            Rating::Explicit
        } else if m == "mature"@ {
            Rating::Questionable
        } else {
            Rating::Safe
        }
    }
}

/// The detail of a submission, from what the selectors find on its page.
pub open spec fn detail_of_raw(raw: RawDetailView, page_url: Seq<char>) -> DetailView {
    let download_url = download_of(raw.download_hrefs);
    DetailView {
        download_url,
        ext: match download_url {
            Some(u) => after_last(u, '.'),
            None => Seq::empty(),
        },
        declared_hash: None,
        rating: Some(rating_from_mark(raw.rating_texts)),
        fav_count: None,
        score_total: None,
        created_at: None,
        tags: TagsView {
            general: raw.tag_texts,
            species: Seq::empty(),
            character: Seq::empty(),
            artist: seq![artist_of(raw)],
            meta: Seq::empty(),
            lore: Seq::empty(),
            copyright: Seq::empty(),
        },
        source_urls: seq![page_url],
    }
}

/// A selection that failed counts as one that found nothing.
pub open spec fn or_none<A>(found: Option<Seq<A>>) -> Seq<A> {
    match found {
        Some(s) => s,
        None => Seq::empty(),
    }
}

/// The first of the texts found, if there is one.
pub open spec fn head(found: Seq<Seq<char>>) -> Seq<Seq<char>> {
    if found.len() == 0 {
        Seq::empty()
    } else {
        seq![found.first()]
    }
}

/// What the selectors find on the submission page `html`.
pub open spec fn raw_of_page(html: Seq<char>) -> RawDetailView {
    RawDetailView {
        download_hrefs: found_attrs(html, "div.download > a"@, "href"@),
        tag_texts: found_texts(html, "section.tags-row span.tags a"@),
        artist_texts: head(found_texts(html, "div.submission-id-sub-container a strong"@))
            + head(found_texts(html, "div.submission-id-sub-container a[href*='/user/']"@))
            + head(found_texts(html, ".submission-sidebar .user-name"@)),
        rating_texts: found_texts(html, "div.rating span"@),
    }
}

/// The address of a favorites page; pages count from 1.
pub open spec fn listing_url_of(page: u32) -> Seq<char> {
    if page <= 1 {
        "https://www.furaffinity.net/controls/favorites/"@
    } else {
        "https://www.furaffinity.net/controls/favorites/"@ + numeral(page as nat) + "/"@
    }
}

/// The address of a submission page.
pub open spec fn view_url_of(id: Seq<char>) -> Seq<char> {
    "https://www.furaffinity.net/view/"@ + id + "/"@
}

/// The session cookies as one header value.
pub open spec fn cookie_header_of(a: Seq<char>, b: Seq<char>) -> Seq<char> {
    "a="@ + a + "; b="@ + b
}

/// The listing entries for the `id` attributes of a favorites page.
pub fn entries_from_ids(ids: &Vec<Option<String>>) -> (out: Vec<Listed>)
    ensures
        out.deep_view() == listing_of(ids.deep_view()),
{
    let mark = chars_of("sid-");
    let mut out: Vec<Listed> = Vec::new();
    let mut i: usize = 0;
    assert(ids.deep_view().take(0) =~= Seq::empty());
    assert(out.deep_view() =~= Seq::empty());
    while i < ids.len()
        invariant
            i <= ids.len(),
            mark@ == "sid-"@,
            out.deep_view() == listing_of(ids.deep_view().take(i as int)),
        decreases ids.len() - i,
    {
        let ghost upto = ids.deep_view().take(i + 1);
        let ghost before = out.deep_view();
        assert(upto.drop_last() =~= ids.deep_view().take(i as int));
        assert(upto.last() == ids@[i as int].deep_view());
        match &ids[i] {
            Some(a) => {
                let chars = chars_of(a.as_str());
                let id = strip_all(&chars, &mark);
                if id.len() > 0 {
                    let l = Listed {
                        candidate: Some(
                            Candidate { source: SourceKind::FurAffinity, source_id: string_of(&id) },
                        ),
                        detail: None,
                    };
                    out.push(l);
                    assert(out.deep_view() =~= before.push(l.deep_view()));
                }
            },
            None => {},
        }
        i += 1;
    }
    assert(ids.deep_view().take(ids.len() as int) =~= ids.deep_view());
    out
}

/// The candidates that a favorites page lists. A page on which nothing is
/// found, and a page that is too long to be parsed, list none.
pub fn listing_entries(html: &str) -> (out: Vec<Listed>)
    ensures
        out.deep_view() == listing_of(found_attrs(html@, "figure.t-image"@, "id"@)),
{
    let ids = find_attrs(html, "figure.t-image", "id");
    entries_from_ids(&ids)
}

fn pick_named(texts: &Vec<String>) -> (out: Option<Vec<char>>)
    ensures
        match out {
            Some(a) => first_named(texts.deep_view()) == Some(a@),
            None => first_named(texts.deep_view()) is None,
        },
{
    let mut i: usize = 0;
    assert(texts.deep_view().skip(0) =~= texts.deep_view());
    while i < texts.len()
        invariant
            i <= texts.len(),
            first_named(texts.deep_view()) == first_named(texts.deep_view().skip(i as int)),
        decreases texts.len() - i,
    {
        let ghost rest = texts.deep_view().skip(i as int);
        assert(rest.first() == texts@[i as int]@);
        let chars = chars_of(texts[i].as_str());
        let t = trim(&chars);
        if t.len() > 0 {
            return Some(t);
        }
        assert(rest.drop_first() =~= texts.deep_view().skip(i + 1));
        i += 1;
    }
    assert(texts.deep_view().skip(i as int).len() == 0);
    None
}

fn pick_from_url(url: &Vec<char>) -> (out: Option<Vec<char>>)
    ensures
        match out {
            Some(a) => artist_in_url(url@) == Some(a@),
            None => artist_in_url(url@) is None,
        },
{
    let folder = chars_of("/art/");
    let slash = chars_of("/");
    match find_sub(url, &folder) {
        Some(i) => {
            let mut rest: Vec<char> = Vec::new();
            let total: usize = url.len();
            assert(i + folder@.len() <= total);
            let mut k: usize = i + folder.len();
            while k < url.len()
                invariant
                    i + folder.len() <= k <= url.len(),
                    rest@ == url@.subrange(i + folder.len(), k as int),
                decreases url.len() - k,
            {
                rest.push(url[k]);
                assert(url@.subrange(i + folder.len(), k as int).push(url@[k as int])
                    =~= url@.subrange(i + folder.len(), k + 1));
                k += 1;
            }
            assert(rest@ =~= url@.skip(i + folder.len()));
            match find_sub(&rest, &slash) {
                Some(j) => {
                    let mut name: Vec<char> = Vec::new();
                    let mut m: usize = 0;
                    while m < j
                        invariant
                            m <= j <= rest.len(),
                            name@ == rest@.take(m as int),
                        decreases j - m,
                    {
                        name.push(rest[m]);
                        assert(rest@.take(m as int).push(rest@[m as int]) =~= rest@.take(m + 1));
                        m += 1;
                    }
                    Some(name)
                },
                None => None,
            }
        },
        None => None,
    }
}

fn pick_download(hrefs: &Vec<Option<String>>) -> (out: Option<Vec<char>>)
    ensures
        match out {
            Some(u) => download_of(hrefs.deep_view()) == Some(u@),
            None => download_of(hrefs.deep_view()) is None,
        },
{
    if hrefs.len() == 0 {
        None
    } else {
        let mut v = chars_of("https:");
        assert(hrefs.deep_view().first() == hrefs@[0].deep_view());
        match &hrefs[0] {
            Some(h) => {
                push_str(&mut v, h.as_str());
            },
            None => {
                assert(v@ + Seq::<char>::empty() =~= v@);
            },
        }
        Some(v)
    }
}

fn pick_rating(marks: &Vec<String>) -> (r: Rating)
    ensures
        r == rating_from_mark(marks.deep_view()),
{
    if marks.len() == 0 {
        Rating::Safe
    } else {
        assert(marks.deep_view().first() == marks@[0]@);
        let m = clean_tag(marks[0].as_str());
        if same_text(m.as_str(), "adult") {
            Rating::Explicit
        } else if same_text(m.as_str(), "mature") {
            Rating::Questionable
        } else {
            Rating::Safe
        }
    }
}

fn no_texts() -> (v: Vec<String>)
    ensures
        v.deep_view() == Seq::<Seq<char>>::empty(),
{
    let v: Vec<String> = Vec::new();
    assert(v.deep_view() =~= Seq::<Seq<char>>::empty());
    v
}

/// The detail of a submission, from what the selectors find on its page.
pub fn detail_from_raw(raw: RawDetail, page_url: String) -> (d: MediaDetail)
    ensures
        d.deep_view() == detail_of_raw(raw.deep_view(), page_url@),
{
    let download = pick_download(&raw.download_hrefs);
    let named = match pick_named(&raw.artist_texts) {
        Some(a) => a,
        None => {
            let from_url = match &download {
                Some(u) => pick_from_url(u),
                None => None,
            };
            match from_url {
                Some(a) => a,
                None => chars_of("unknown"),
            }
        },
    };
    let artist = replace_char(&named, ' ', '_');
    let rating = pick_rating(&raw.rating_texts);
    let ext = match &download {
        Some(u) => string_of(&tail_after_last(u, '.')),
        None => String::new(),
    };
    let download_url = match &download {
        Some(u) => Some(string_of(u)),
        None => None,
    };
    let mut artists: Vec<String> = Vec::new();
    artists.push(string_of(&artist));
    assert(artists.deep_view() =~= seq![artist_of(raw.deep_view())]);
    let mut source_urls: Vec<String> = Vec::new();
    source_urls.push(page_url);
    assert(source_urls.deep_view() =~= seq![page_url@]);
    MediaDetail {
        download_url,
        ext,
        declared_hash: None,
        rating: Some(rating),
        fav_count: None,
        score_total: None,
        created_at: None,
        tags: E621Tags {
            general: raw.tag_texts,
            species: no_texts(),
            character: no_texts(),
            artist: artists,
            meta: no_texts(),
            lore: no_texts(),
            copyright: no_texts(),
        },
        source_urls,
    }
}

fn push_head(out: &mut Vec<String>, found: Vec<String>)
    ensures
        final(out).deep_view() == old(out).deep_view() + head(found.deep_view()),
{
    let mut v = found;
    let ghost before = out.deep_view();
    if v.len() > 0 {
        let ghost all = v.deep_view();
        let first = v.swap_remove(0);
        assert(first@ == all.first());
        out.push(first);
        assert(out.deep_view() =~= before + seq![all.first()]);
    } else {
        assert(before + Seq::<Seq<char>>::empty() =~= before);
    }
}

/// What the selectors find on a submission page. On a page that is too long
/// to be parsed they find nothing.
pub fn read_page(html: &str) -> (raw: RawDetail)
    ensures
        raw.deep_view() == raw_of_page(html@),
{
    let download_hrefs = find_attrs(html, "div.download > a", "href");
    let tag_texts = find_texts(html, "section.tags-row span.tags a");
    let mut artist_texts: Vec<String> = Vec::new();
    assert(artist_texts.deep_view() =~= Seq::empty());
    push_head(&mut artist_texts, find_texts(html, "div.submission-id-sub-container a strong"));
    push_head(
        &mut artist_texts,
        find_texts(html, "div.submission-id-sub-container a[href*='/user/']"),
    );
    push_head(&mut artist_texts, find_texts(html, ".submission-sidebar .user-name"));
    assert(artist_texts.deep_view() =~= raw_of_page(html@).artist_texts);
    let rating_texts = find_texts(html, "div.rating span");
    RawDetail { download_hrefs, tag_texts, artist_texts, rating_texts }
}

/// The detail of the submission whose page is `html` and stands at `page_url`.
pub fn parse_detail(html: &str, page_url: String) -> (d: MediaDetail)
    ensures
        d.deep_view() == detail_of_raw(raw_of_page(html@), page_url@),
{
    detail_from_raw(read_page(html), page_url)
}

/// The address of a favorites page.
pub fn listing_url(page: u32) -> (out: String)
    ensures
        out@ == listing_url_of(page),
{
    let mut v = chars_of("https://www.furaffinity.net/controls/favorites/");
    if page > 1 {
        let n = decimal(page as u64);
        push_chars(&mut v, &n);
        push_str(&mut v, "/");
    }
    string_of(&v)
}

/// The address of a submission page.
pub fn view_url(id: &str) -> (out: String)
    ensures
        out@ == view_url_of(id@),
{
    let mut v = chars_of("https://www.furaffinity.net/view/");
    push_str(&mut v, id);
    push_str(&mut v, "/");
    string_of(&v)
}

/// The session cookies as one header value.
pub fn cookie_header(a: &str, b: &str) -> (out: String)
    ensures
        out@ == cookie_header_of(a@, b@),
{
    let mut v = chars_of("a=");
    push_str(&mut v, a);
    push_str(&mut v, "; b=");
    push_str(&mut v, b);
    string_of(&v)
}

} // verus!
