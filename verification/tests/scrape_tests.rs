use tailburrow::model::{Rating, SourceKind};
use tailburrow::scrape::{
    cookie_header, detail_from_raw, entries_from_ids, fits, listing_entries, listing_url, parse_detail,
    read_page, view_url, RawDetail,
};

const LISTING: &str = r#"<html><body>
<section class="gallery">
  <figure id="sid-101" class="r-general t-image"><a href="/view/101/">one</a></figure>
  <figure id="sid-202" class="r-adult t-image"><a href="/view/202/">two</a></figure>
  <figure class="t-image"><a href="/view/0/">no id</a></figure>
  <figure id="sid-" class="t-image"></figure>
  <figure id="sid-303" class="t-text"><a href="/view/303/">a story</a></figure>
</section>
</body></html>"#;

const SUBMISSION: &str = r#"<html><body>
<div class="submission-id-sub-container">
  <a href="/user/somefox/"><strong>  Some Fox </strong></a>
</div>
<div class="download"><a href="//d.furaffinity.net/art/somefox/1700000000/1700000000.somefox_picture.png">Download</a></div>
<div class="rating"><span class="rating-box inline adult"> Adult </span></div>
<section class="tags-row">
  <span class="tags"><a href="/search/@keywords fox">Fox</a></span>
  <span class="tags"><a href="/search/@keywords tail"> Fluffy Tail </a></span>
</section>
</body></html>"#;

fn strings(v: &[&str]) -> Vec<String> {
    v.iter().map(|s| s.to_string()).collect()
}

fn ids_of(list: &[tailburrow::model::Listed]) -> Vec<String> {
    list.iter()
        .map(|l| l.candidate.as_ref().map(|c| c.source_id.clone()).unwrap_or_default())
        .collect()
}

#[test]
fn listing_entries_reads_the_figure_ids() {
    let list = listing_entries(LISTING);
    assert_eq!(ids_of(&list), strings(&["101", "202"]));
    for l in &list {
        assert_eq!(l.candidate.as_ref().unwrap().source, SourceKind::FurAffinity);
        assert!(l.detail.is_none());
    }
}

#[test]
fn listing_entries_of_a_page_without_figures_is_empty() {
    assert!(listing_entries("<html><body><p>nothing here</p></body></html>").is_empty());
    assert!(listing_entries("").is_empty());
}

#[test]
fn entries_from_ids_strips_the_mark_and_drops_the_empty() {
    let ids = vec![
        Some("sid-5".to_string()),
        None,
        Some("sid-".to_string()),
        Some("77".to_string()),
        Some("".to_string()),
        Some("sid-sid-9".to_string()),
    ];
    assert_eq!(ids_of(&entries_from_ids(&ids)), strings(&["5", "77", "9"]));
    assert!(entries_from_ids(&vec![]).is_empty());
}

#[test]
fn read_page_finds_what_the_selectors_name() {
    let raw = read_page(SUBMISSION);
    assert_eq!(
        raw.download_hrefs,
        vec![Some(
            "//d.furaffinity.net/art/somefox/1700000000/1700000000.somefox_picture.png".to_string()
        )]
    );
    assert_eq!(raw.tag_texts, strings(&["Fox", " Fluffy Tail "]));
    assert_eq!(raw.artist_texts, strings(&["  Some Fox ", "  Some Fox "]));
    assert_eq!(raw.rating_texts, strings(&[" Adult "]));
}

#[test]
fn parse_detail_resolves_a_submission() {
    let d = parse_detail(SUBMISSION, "https://www.furaffinity.net/view/101/".to_string());
    assert_eq!(
        d.download_url.as_deref(),
        Some("https://d.furaffinity.net/art/somefox/1700000000/1700000000.somefox_picture.png")
    );
    assert_eq!(d.ext, "png");
    assert_eq!(d.rating, Some(Rating::Explicit));
    assert_eq!(d.tags.artist, strings(&["Some_Fox"]));
    assert_eq!(d.tags.general, strings(&["Fox", " Fluffy Tail "]));
    assert!(d.tags.species.is_empty());
    assert_eq!(d.source_urls, strings(&["https://www.furaffinity.net/view/101/"]));
    assert_eq!(d.declared_hash, None);
    assert_eq!(d.fav_count, None);
}

#[test]
fn parse_detail_without_a_download_link_has_no_url() {
    let d = parse_detail("<html><body><p>gone</p></body></html>", "u".to_string());
    assert_eq!(d.download_url, None);
    assert_eq!(d.ext, "");
    assert_eq!(d.rating, Some(Rating::Safe));
    assert_eq!(d.tags.artist, strings(&["unknown"]));
    assert!(d.tags.general.is_empty());
}

fn raw(hrefs: Vec<Option<&str>>, artists: &[&str], ratings: &[&str]) -> RawDetail {
    RawDetail {
        download_hrefs: hrefs.into_iter().map(|h| h.map(|s| s.to_string())).collect(),
        tag_texts: vec![],
        artist_texts: strings(artists),
        rating_texts: strings(ratings),
    }
}

#[test]
fn artist_falls_back_to_the_folder_in_the_link() {
    let d = detail_from_raw(
        raw(vec![Some("//d.example/art/the artist/123/file.jpg")], &["   ", ""], &["Mature"]),
        "page".to_string(),
    );
    assert_eq!(d.tags.artist, strings(&["the_artist"]));
    assert_eq!(d.rating, Some(Rating::Questionable));
    assert_eq!(d.ext, "jpg");
}

#[test]
fn artist_is_unknown_where_nothing_names_one() {
    let d = detail_from_raw(raw(vec![Some("//d.example/files/x.gif")], &[], &[]), "p".to_string());
    assert_eq!(d.tags.artist, strings(&["unknown"]));
    assert_eq!(d.rating, Some(Rating::Safe));
    let d = detail_from_raw(raw(vec![Some("//d.example/art/nofolder")], &[], &["General"]), "p".to_string());
    assert_eq!(d.tags.artist, strings(&["unknown"]));
    assert_eq!(d.rating, Some(Rating::Safe));
}

#[test]
fn download_link_without_href_is_just_the_scheme() {
    let d = detail_from_raw(raw(vec![None], &["A"], &[]), "p".to_string());
    assert_eq!(d.download_url.as_deref(), Some("https:"));
    assert_eq!(d.ext, "https:");
    let d = detail_from_raw(
        raw(vec![Some("//first/a.png"), Some("//second/b.jpg")], &["A"], &[]),
        "p".to_string(),
    );
    assert_eq!(d.download_url.as_deref(), Some("https://first/a.png"));
}

#[test]
fn addresses_of_the_scraped_source() {
    assert_eq!(listing_url(1), "https://www.furaffinity.net/controls/favorites/");
    assert_eq!(listing_url(0), "https://www.furaffinity.net/controls/favorites/");
    assert_eq!(listing_url(2), "https://www.furaffinity.net/controls/favorites/2/");
    assert_eq!(listing_url(50), "https://www.furaffinity.net/controls/favorites/50/");
    assert_eq!(view_url("12345"), "https://www.furaffinity.net/view/12345/");
    assert_eq!(cookie_header("aaa", "bbb"), "a=aaa; b=bbb");
}

#[test]
fn pages_of_ordinary_length_fit_the_parser() {
    assert!(fits(""));
    assert!(fits(LISTING));
    assert!(fits(SUBMISSION));
    assert_eq!(tailburrow::scrape::MAX_PAGE_BYTES, 536_870_912);
}
