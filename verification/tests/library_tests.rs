use tailburrow::library::{
    clean_sources, clean_tags, favorite_accepted, is_moving_ext, is_video_ext, layout_dirs,
    plan_credentials, split_fields, thumbnail_name, AppConfig, E621CredInfo, EmptyUsername,
    FaCredInfo, ItemDto, UnavailableDto,
};

fn strings(v: &[&str]) -> Vec<String> {
    v.iter().map(|s| s.to_string()).collect()
}

#[test]
fn credentials_need_a_name() {
    assert_eq!(plan_credentials("   ", "key").unwrap_err(), EmptyUsername);
    assert_eq!(plan_credentials("", "").unwrap_err(), EmptyUsername);
}

#[test]
fn credentials_are_trimmed_and_a_blank_key_keeps_the_old() {
    let u = plan_credentials("  me ", "  secret\n").unwrap();
    assert_eq!(u.username, "me");
    assert_eq!(u.api_key.as_deref(), Some("secret"));
    let u = plan_credentials("me", "   ").unwrap();
    assert_eq!(u.username, "me");
    assert_eq!(u.api_key, None);
}

#[test]
fn clean_sources_trims_and_drops_blanks() {
    assert_eq!(
        clean_sources(&strings(&[" https://a ", "", "  ", "https://B"])),
        strings(&["https://a", "https://B"])
    );
    assert!(clean_sources(&vec![]).is_empty());
}

#[test]
fn clean_tags_trims_lowers_and_drops_blanks() {
    assert_eq!(clean_tags(&strings(&[" Fox ", "", "TAIL", " \t"])), strings(&["fox", "tail"]));
}

#[test]
fn split_fields_cuts_at_each_separator() {
    assert_eq!(split_fields("a\tb\tc", '\t'), strings(&["a", "b", "c"]));
    assert_eq!(split_fields("a", '\t'), strings(&["a"]));
    assert_eq!(split_fields("a\t\tb\t", '\t'), strings(&["a", "", "b", ""]));
    assert_eq!(split_fields("\t", '\t'), strings(&["", ""]));
    assert!(split_fields("", '\t').is_empty());
}

#[test]
fn thumbnail_name_hashes_the_path() {
    assert_eq!(thumbnail_name("a"), "0cc175b9c0f1b6a831c399e269772661.jpg");
    assert_eq!(thumbnail_name(""), "d41d8cd98f00b204e9800998ecf8427e.jpg");
    assert_ne!(thumbnail_name("media/x.png"), thumbnail_name("media/y.png"));
}

#[test]
fn moving_media_have_no_still_thumbnail() {
    assert!(is_video_ext("mp4"));
    assert!(is_video_ext("webm"));
    assert!(!is_video_ext("gif"));
    assert!(!is_video_ext("png"));
    assert!(is_moving_ext("gif"));
    assert!(is_moving_ext("mp4"));
    assert!(!is_moving_ext("jpg"));
    assert!(!is_moving_ext(""));
}

#[test]
fn favorite_is_accepted_on_success_or_already_there() {
    assert!(favorite_accepted(200));
    assert!(favorite_accepted(201));
    assert!(favorite_accepted(299));
    assert!(favorite_accepted(422));
    assert!(!favorite_accepted(199));
    assert!(!favorite_accepted(300));
    assert!(!favorite_accepted(401));
    assert!(!favorite_accepted(500));
}

#[test]
fn layout_names_the_directories() {
    assert_eq!(
        layout_dirs(),
        vec!["db", "media", "cache/thumbs", "cache/previews", ".trash/media", ".trash/cache"]
    );
}

#[test]
fn plain_records_hold_their_fields() {
    let c = AppConfig::new();
    assert_eq!(c.library_root, None);
    let i = ItemDto {
        item_id: 1,
        source: "e621".to_string(),
        source_id: "5".to_string(),
        remote_url: None,
        file_abs: "/lib/media/a.png".to_string(),
        ext: Some("png".to_string()),
        tags: split_fields("a\tb", '\t'),
        artists: vec![],
        sources: vec![],
        rating: None,
        fav_count: None,
        score_total: None,
        timestamp: None,
        added_at: "now".to_string(),
    };
    assert_eq!(i.tags, strings(&["a", "b"]));
    let u = UnavailableDto {
        source: "e621".to_string(),
        source_id: "5".to_string(),
        seen_at: "t".to_string(),
        reason: "missing_file_url".to_string(),
        sources: vec![],
    };
    assert_eq!(u.reason, "missing_file_url");
    assert!(E621CredInfo { username: None, has_api_key: true }.has_api_key);
    assert!(!FaCredInfo { has_creds: false }.has_creds);
}
