use tailburrow::query::{
    parse_order, parse_term, plan_listing, render_listing, split_words, Filter, ListPlan,
    MediaType, Order, DEFAULT_LIMIT,
};

fn cs(s: &str) -> Vec<char> {
    s.chars().collect()
}

fn show(f: &Filter) -> String {
    format!("{:?}", f)
}

fn term(s: &str) -> Option<String> {
    parse_term(&cs(s)).map(|f| show(&f))
}

#[test]
fn split_words_cuts_at_white_space() {
    let w: Vec<String> = split_words("  fox  -cat\ttype:gif \n").into_iter().map(|v| v.into_iter().collect()).collect();
    assert_eq!(w, vec!["fox", "-cat", "type:gif"]);
    assert!(split_words("").is_empty());
    assert!(split_words(" \t ").is_empty());
    let w: Vec<String> = split_words("one").into_iter().map(|v| v.into_iter().collect()).collect();
    assert_eq!(w, vec!["one"]);
}

#[test]
fn type_terms_select_media_kinds() {
    assert!(matches!(parse_term(&cs("type:image")), Some(Filter::TypeIs { media: MediaType::Image, negated: false })));
    assert!(matches!(parse_term(&cs("type:IMG")), Some(Filter::TypeIs { media: MediaType::Image, negated: false })));
    assert!(matches!(parse_term(&cs("type:video")), Some(Filter::TypeIs { media: MediaType::Video, negated: false })));
    assert!(matches!(parse_term(&cs("type:vid")), Some(Filter::TypeIs { media: MediaType::Video, negated: false })));
    assert!(matches!(parse_term(&cs("type:gif")), Some(Filter::TypeIs { media: MediaType::Gif, negated: false })));
    assert!(matches!(parse_term(&cs("-type:gif")), Some(Filter::TypeIs { media: MediaType::Gif, negated: true })));
    assert!(matches!(parse_term(&cs("-type:Video")), Some(Filter::TypeIs { media: MediaType::Video, negated: true })));
    assert!(parse_term(&cs("type:audio")).is_none());
    assert!(parse_term(&cs("-type:")).is_none());
}

#[test]
fn ext_terms_select_extensions() {
    assert!(matches!(parse_term(&cs("ext:PNG")), Some(Filter::ExtIs { ext, negated: false }) if ext == "png"));
    assert!(matches!(parse_term(&cs("-ext:webm")), Some(Filter::ExtIs { ext, negated: true }) if ext == "webm"));
    assert!(matches!(parse_term(&cs("ext:")), Some(Filter::ExtIs { ext, negated: false }) if ext.is_empty()));
}

#[test]
fn meta_terms_select_nothing() {
    assert_eq!(term("rating:s"), None);
    assert_eq!(term("source:e621"), None);
    assert_eq!(term("order:score"), None);
}

#[test]
fn tag_terms_select_tags() {
    assert!(matches!(parse_term(&cs("Fox")), Some(Filter::TagIs(t)) if t == "fox"));
    assert!(matches!(parse_term(&cs("-Cat")), Some(Filter::TagAbsent(t)) if t == "cat"));
    assert!(matches!(parse_term(&cs("--cat")), Some(Filter::TagAbsent(t)) if t == "cat"));
    assert!(matches!(parse_term(&cs("-")), Some(Filter::TagAbsent(t)) if t.is_empty()));
    assert!(matches!(parse_term(&cs("wolf*")), Some(Filter::TagLike(t)) if t == "wolf%"));
    assert!(matches!(parse_term(&cs("*A*b")), Some(Filter::TagLike(t)) if t == "%a%b"));
}

#[test]
fn prefix_text_is_dropped_wherever_it_stands() {
    assert!(matches!(parse_term(&cs("ext:aext:b")), Some(Filter::ExtIs { ext, .. }) if ext == "ab"));
}

#[test]
fn parse_order_names_the_order() {
    assert_eq!(parse_order("score"), Order::Score);
    assert_eq!(parse_order("favs"), Order::Favs);
    assert_eq!(parse_order("favcount"), Order::Favs);
    assert_eq!(parse_order("random"), Order::Random);
    assert_eq!(parse_order("oldest"), Order::Oldest);
    assert_eq!(parse_order("newest"), Order::Newest);
    assert_eq!(parse_order("anything"), Order::Newest);
    assert_eq!(parse_order(""), Order::Newest);
}

#[test]
fn plan_listing_defaults() {
    let p = plan_listing(None, None, None, None, None, None);
    assert_eq!(p.limit, DEFAULT_LIMIT);
    assert_eq!(p.limit, 100);
    assert_eq!(p.offset, 0);
    assert_eq!(p.order, Order::Newest);
    assert!(p.filters.is_empty());
}

#[test]
fn plan_listing_orders_rating_source_then_terms() {
    let p = plan_listing(
        Some(20),
        Some(40),
        Some("fox -cat type:gif rating:e wolf*".to_string()),
        Some("nsfw".to_string()),
        Some("e621".to_string()),
        Some("score".to_string()),
    );
    assert_eq!(p.limit, 20);
    assert_eq!(p.offset, 40);
    assert_eq!(p.order, Order::Score);
    let shown: Vec<String> = p.filters.iter().map(show).collect();
    assert_eq!(
        shown,
        vec![
            "Nsfw".to_string(),
            "SourceIs(\"e621\")".to_string(),
            "TagIs(\"fox\")".to_string(),
            "TagAbsent(\"cat\")".to_string(),
            "TypeIs { media: Gif, negated: false }".to_string(),
            "TagLike(\"wolf%\")".to_string(),
        ]
    );
}

#[test]
fn plan_listing_with_all_selects_no_rating_or_source() {
    let p = plan_listing(None, None, Some("".to_string()), Some("all".to_string()), Some("all".to_string()), None);
    assert!(p.filters.is_empty());
    let p = plan_listing(None, None, None, Some("q".to_string()), None, None);
    assert_eq!(p.filters.len(), 1);
    assert!(matches!(&p.filters[0], Filter::RatingIs(r) if r == "q"));
}

const SELECT: &str = "SELECT i.item_id, i.source, i.source_id, i.remote_url, i.file_rel, i.ext, i.rating, i.fav_count, i.score_total, i.created_at, i.added_at, (SELECT GROUP_CONCAT(t.name, char(9)) FROM item_tags it JOIN tags t ON it.tag_id = t.tag_id WHERE it.item_id = i.item_id), (SELECT GROUP_CONCAT(t.name, char(9)) FROM item_tags it JOIN tags t ON it.tag_id = t.tag_id WHERE it.item_id = i.item_id AND t.type = 'artist'), (SELECT GROUP_CONCAT(s.url, char(9)) FROM item_sources isrc JOIN sources s ON isrc.source_row_id = s.source_row_id WHERE isrc.item_id = i.item_id) FROM items i WHERE i.trashed_at IS NULL";

const TAG: &str = "EXISTS (SELECT 1 FROM item_tags it JOIN tags t ON it.tag_id = t.tag_id WHERE it.item_id = i.item_id AND t.name";

#[test]
fn render_listing_without_filters() {
    let q = render_listing(&plan_listing(None, None, None, None, None, None));
    assert_eq!(q.sql, format!("{SELECT} ORDER BY i.added_at DESC LIMIT 100 OFFSET 0"));
    assert!(q.params.is_empty());
}

#[test]
fn render_listing_numbers_the_parameters() {
    let plan = plan_listing(
        Some(5),
        Some(10),
        Some("fox -cat type:video wolf* -ext:png".to_string()),
        Some("q".to_string()),
        Some("e621".to_string()),
        Some("oldest".to_string()),
    );
    let q = render_listing(&plan);
    assert_eq!(q.params, vec!["q", "e621", "fox", "cat", "wolf%", "png"]);
    assert_eq!(
        q.sql,
        format!(
            "{SELECT} AND i.rating = ?1 AND i.source = ?2 AND {TAG} = ?3) AND NOT {TAG} = ?4) AND (i.ext IN ('mp4', 'webm')) AND {TAG} LIKE ?5) AND i.ext != ?6 ORDER BY i.added_at ASC LIMIT 5 OFFSET 10"
        )
    );
}

#[test]
fn render_listing_of_each_fixed_condition() {
    let fixed = vec![
        (Filter::Nsfw, "(i.rating = 'q' OR i.rating = 'e')"),
        (Filter::TypeIs { media: MediaType::Image, negated: false }, "(i.ext IN ('jpg', 'jpeg', 'png', 'webp'))"),
        (Filter::TypeIs { media: MediaType::Image, negated: true }, "NOT (i.ext IN ('jpg', 'jpeg', 'png', 'webp'))"),
        (Filter::TypeIs { media: MediaType::Video, negated: true }, "NOT (i.ext IN ('mp4', 'webm'))"),
        (Filter::TypeIs { media: MediaType::Gif, negated: false }, "(i.ext = 'gif')"),
        (Filter::TypeIs { media: MediaType::Gif, negated: true }, "i.ext != 'gif'"),
    ];
    for (filter, text) in fixed {
        let plan = ListPlan { filters: vec![filter], order: Order::Random, limit: 1, offset: 2 };
        let q = render_listing(&plan);
        assert_eq!(q.sql, format!("{SELECT} AND {text} ORDER BY RANDOM() LIMIT 1 OFFSET 2"));
        assert!(q.params.is_empty());
    }
    let plan = ListPlan {
        filters: vec![Filter::ExtIs { ext: "gif".to_string(), negated: false }],
        order: Order::Score,
        limit: 4294967295,
        offset: 0,
    };
    let q = render_listing(&plan);
    assert_eq!(
        q.sql,
        format!("{SELECT} AND i.ext = ?1 ORDER BY i.score_total DESC LIMIT 4294967295 OFFSET 0")
    );
    assert_eq!(q.params, vec!["gif"]);
    let plan = ListPlan { filters: vec![], order: Order::Favs, limit: 0, offset: 7 };
    assert_eq!(
        render_listing(&plan).sql,
        format!("{SELECT} ORDER BY i.fav_count DESC LIMIT 0 OFFSET 7")
    );
}
