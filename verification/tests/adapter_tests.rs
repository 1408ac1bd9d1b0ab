use tailburrow::adapter::{
    detail_from_post, found_from_post, listed_from_post, lookup_url, make_favorites_query,
    number_text, parse_rating, rating_code, LISTING_LIMIT,
};
use tailburrow::model::{E621PostInput, E621Tags, Rating, SourceKind};

fn post(id: i64, url: &str, ext: &str) -> E621PostInput {
    E621PostInput {
        id,
        file_url: url.to_string(),
        file_ext: ext.to_string(),
        file_md5: Some("abc123".to_string()),
        rating: Some("Q".to_string()),
        fav_count: Some(12),
        score_total: Some(-3),
        created_at: Some("2021-02-03T04:05:06Z".to_string()),
        sources: vec!["https://origin/1".to_string()],
        tags: E621Tags {
            general: vec!["tail".to_string()],
            species: vec![],
            character: vec![],
            artist: vec!["someone".to_string()],
            meta: vec![],
            lore: vec![],
            copyright: vec![],
        },
    }
}

#[test]
fn parse_rating_accepts_letters_and_words() {
    assert_eq!(parse_rating("s"), Some(Rating::Safe));
    assert_eq!(parse_rating("Safe"), Some(Rating::Safe));
    assert_eq!(parse_rating("q"), Some(Rating::Questionable));
    assert_eq!(parse_rating("QUESTIONABLE"), Some(Rating::Questionable));
    assert_eq!(parse_rating("E"), Some(Rating::Explicit));
    assert_eq!(parse_rating("explicit"), Some(Rating::Explicit));
}

#[test]
fn parse_rating_refuses_anything_else() {
    assert_eq!(parse_rating(""), None);
    assert_eq!(parse_rating("x"), None);
    assert_eq!(parse_rating(" s"), None);
    assert_eq!(parse_rating("nsfw"), None);
}

#[test]
fn rating_code_is_one_letter() {
    assert_eq!(rating_code(Rating::Safe), "s");
    assert_eq!(rating_code(Rating::Questionable), "q");
    assert_eq!(rating_code(Rating::Explicit), "e");
}

#[test]
fn detail_from_post_carries_the_metadata() {
    let d = detail_from_post(post(5, "https://s/5.PNG", "  PNG "));
    assert_eq!(d.download_url.as_deref(), Some("https://s/5.PNG"));
    assert_eq!(d.ext, "png");
    assert_eq!(d.declared_hash.as_deref(), Some("abc123"));
    assert_eq!(d.rating, Some(Rating::Questionable));
    assert_eq!(d.fav_count, Some(12));
    assert_eq!(d.score_total, Some(-3));
    assert_eq!(d.created_at.as_deref(), Some("2021-02-03T04:05:06Z"));
    assert_eq!(d.source_urls, vec!["https://origin/1".to_string()]);
    assert_eq!(d.tags.artist, vec!["someone".to_string()]);
}

#[test]
fn post_without_file_url_withholds_the_file() {
    let d = detail_from_post(post(5, "", "png"));
    assert_eq!(d.download_url, None);
    let mut p = post(5, "u", "png");
    p.rating = None;
    assert_eq!(detail_from_post(p).rating, None);
    let mut p = post(5, "u", "png");
    p.rating = Some("weird".to_string());
    assert_eq!(detail_from_post(p).rating, None);
}

#[test]
fn listed_from_post_names_the_candidate_by_its_id() {
    let l = listed_from_post(post(4051, "https://s/x.png", "png"));
    let c = l.candidate.unwrap();
    assert_eq!(c.source, SourceKind::E621);
    assert_eq!(c.source_id, "4051");
    assert!(l.detail.is_some());
    let l = listed_from_post(post(0, "https://s/x.png", "png"));
    assert!(l.candidate.is_none());
    assert!(l.detail.is_some());
    let l = listed_from_post(post(-7, "https://s/x.png", "png"));
    assert_eq!(l.candidate.unwrap().source_id, "-7");
}

#[test]
fn found_from_post_defaults_the_extension() {
    let f = found_from_post(post(9, "https://s/9", "  "));
    assert_eq!(f.candidate.source, SourceKind::E621);
    assert_eq!(f.candidate.source_id, "9");
    assert_eq!(f.detail.ext, "jpg");
    let f = found_from_post(post(9, "https://s/9.webm", "WEBM"));
    assert_eq!(f.detail.ext, "webm");
}

#[test]
fn queries_and_addresses_of_the_structured_source() {
    assert_eq!(make_favorites_query("user_1"), "fav:user_1 order:id_desc");
    assert_eq!(
        lookup_url("0cc175b9c0f1b6a831c399e269772661"),
        "https://e621.net/posts.json?tags=md5:0cc175b9c0f1b6a831c399e269772661"
    );
    assert_eq!(number_text(LISTING_LIMIT), "320");
    assert_eq!(number_text(0), "0");
}

#[test]
fn source_names_round_trip() {
    assert_eq!(SourceKind::from_name("e621"), Some(SourceKind::E621));
    assert_eq!(SourceKind::from_name("furaffinity"), Some(SourceKind::FurAffinity));
    assert_eq!(SourceKind::from_name(SourceKind::E621.name()), Some(SourceKind::E621));
    assert_eq!(SourceKind::from_name("E621"), None);
    assert_eq!(SourceKind::from_name(""), None);
}
