//! What a listing of the library is asked to show: the filters that a search
//! text, a rating and a source name select, and the order of the result.

use vstd::prelude::*;
use crate::text::{
    chars_of, decimal, has_char, is_space, lowercase, lowercased, matches_at, numeral, occurs_at,
    push_chars, push_str, replace_char, replaced, same_text, string_of, strip_all, stripped,
    white_space,
};

verus! {

/// The number of items listed where no limit is given.
pub const DEFAULT_LIMIT: u32 = 100;

/// A kind of media, told by the file extension.
#[derive(Clone, Copy, Debug, PartialEq, Eq, Structural)]
pub enum MediaType {
    Image,
    Video,
    Gif,
}

/// The order of a listing.
#[derive(Clone, Copy, Debug, PartialEq, Eq, Structural)]
pub enum Order {
    Newest,
    Oldest,
    Score,
    Favs,
    Random,
}

/// One condition on the items listed.
#[derive(Debug)]
pub enum Filter {
    /// Rated questionable or explicit.
    Nsfw,
    RatingIs(String),
    SourceIs(String),
    TypeIs { media: MediaType, negated: bool },
    ExtIs { ext: String, negated: bool },
    TagIs(String),
    /// Has a tag that matches the pattern, in which `%` stands for any text.
    TagLike(String),
    TagAbsent(String),
}

/// The mathematical view of a `Filter`.
pub enum FilterView {
    Nsfw,
    RatingIs(Seq<char>),
    SourceIs(Seq<char>),
    TypeIs { media: MediaType, negated: bool },
    ExtIs { ext: Seq<char>, negated: bool },
    TagIs(Seq<char>),
    TagLike(Seq<char>),
    TagAbsent(Seq<char>),
}

impl DeepView for Filter {
    type V = FilterView;

    open spec fn deep_view(&self) -> FilterView {
        match self {
            Filter::Nsfw => FilterView::Nsfw,
            Filter::RatingIs(r) => FilterView::RatingIs(r@),
            Filter::SourceIs(s) => FilterView::SourceIs(s@),
            Filter::TypeIs { media, negated } => FilterView::TypeIs {
                media: *media,
                negated: *negated,
            },
            Filter::ExtIs { ext, negated } => FilterView::ExtIs { ext: ext@, negated: *negated },
            Filter::TagIs(t) => FilterView::TagIs(t@),
            Filter::TagLike(t) => FilterView::TagLike(t@),
            Filter::TagAbsent(t) => FilterView::TagAbsent(t@),
        }
    }
}

/// What a listing shows.
#[derive(Debug)]
pub struct ListPlan {
    pub filters: Vec<Filter>,
    pub order: Order,
    pub limit: u32,
    pub offset: u32,
}

/// The words of a text from position `i` on: `cur` is the word begun before
/// `i`, `done` the words that ended before it.
pub open spec fn words_from(s: Seq<char>, i: int, cur: Seq<char>, done: Seq<Seq<char>>) -> Seq<
    Seq<char>,
>
    decreases s.len() - i,
{
    let closed = if cur.len() > 0 {
        done.push(cur)
    } else {
        done
    };
    if i < 0 || i >= s.len() {
        closed
    } else if white_space(s[i]) {
        words_from(s, i + 1, Seq::empty(), closed)
    } else {
        words_from(s, i + 1, cur.push(s[i]), done)
    }
}

/// The words of a text: its longest stretches without white space, in order.
pub open spec fn words(s: Seq<char>) -> Seq<Seq<char>> {
    words_from(s, 0, Seq::empty(), Seq::empty())
}

/// Whether `s` begins with `prefix`.
pub open spec fn begins_with(s: Seq<char>, prefix: Seq<char>) -> bool {
    occurs_at(s, prefix, 0)
}

/// `s` without the `c`s at its beginning.
pub open spec fn without_leading(s: Seq<char>, c: char) -> Seq<char>
    decreases s.len(),
{
    if s.len() > 0 && s.first() == c {
        without_leading(s.drop_first(), c)
    } else {
        s
    }
}

/// The kind of media that a word names.
pub open spec fn media_named(v: Seq<char>) -> Option<MediaType> {
    if v == "image"@ || v == "img"@ {
        Some(MediaType::Image)
    } else if v == "video"@ || v == "vid"@ {
        Some(MediaType::Video)
    } else if v == "gif"@ {
        Some(MediaType::Gif)
    } else {
        None
    }
}

/// The condition on media types that a word after `type:` selects.
pub open spec fn type_filter(v: Seq<char>, negated: bool) -> Option<FilterView> {
    match media_named(v) {
        Some(media) => Some(FilterView::TypeIs { media, negated }),
        None => None,
    }
}

/// The filter that one word of a search selects, if it selects one.
pub open spec fn term_filter(term: Seq<char>) -> Option<FilterView> {
    if begins_with(term, "-type:"@) {
        type_filter(lowercased(stripped(term, "-type:"@)), true)
    } else if begins_with(term, "type:"@) {
        type_filter(lowercased(stripped(term, "type:"@)), false)
    } else if begins_with(term, "-ext:"@) {
        Some(FilterView::ExtIs { ext: lowercased(stripped(term, "-ext:"@)), negated: true })
    } else if begins_with(term, "ext:"@) {
        Some(FilterView::ExtIs { ext: lowercased(stripped(term, "ext:"@)), negated: false })
    } else if begins_with(term, "rating:"@) || begins_with(term, "source:"@) || begins_with(
        term,
        "order:"@,
    ) {
        None
    } else if begins_with(term, "-"@) {
        Some(FilterView::TagAbsent(lowercased(without_leading(term, '-'))))
    } else {
        let tag = lowercased(term);
        if tag.contains('*') {
            Some(FilterView::TagLike(replaced(tag, '*', '%')))
        } else {
            Some(FilterView::TagIs(tag))
        }
    }
}

/// The filters that the words of a search select, in order.
pub open spec fn term_filters(terms: Seq<Seq<char>>) -> Seq<FilterView>
    decreases terms.len(),
{
    if terms.len() == 0 {
        Seq::empty()
    } else {
        let before = term_filters(terms.drop_last());
        match term_filter(terms.last()) {
            Some(f) => before.push(f),
            None => before,
        }
    }
}

/// The filter that a rating choice selects: none for `all`, both adult
/// ratings for `nsfw`, else the rating named.
pub open spec fn rating_filter(rating: Seq<char>) -> Seq<FilterView> {
    if rating == "all"@ {
        Seq::empty()
    } else if rating == "nsfw"@ {
        seq![FilterView::Nsfw]
    } else {
        seq![FilterView::RatingIs(rating)]
    }
}

/// The filter that a source choice selects: none for `all`.
pub open spec fn source_filter(source: Seq<char>) -> Seq<FilterView> {
    if source == "all"@ {
        Seq::empty()
    } else {
        seq![FilterView::SourceIs(source)]
    }
}

/// The order that a word names; the newest first where it names none.
pub open spec fn order_named(name: Seq<char>) -> Order {
    if name == "score"@ {
        Order::Score
    } else if name == "favs"@ || name == "favcount"@ {
        Order::Favs
    } else if name == "random"@ {
        Order::Random
    } else if name == "oldest"@ {
        Order::Oldest
    } else {
        Order::Newest
    }
}

/// A choice, or `all` where none is made.
pub open spec fn or_all(choice: Option<Seq<char>>) -> Seq<char> {
    match choice {
        Some(c) => c,
        None => "all"@,
    }
}

/// All filters of a listing: rating, source, then the words of the search.
pub open spec fn filters_of(
    search: Option<Seq<char>>,
    rating: Option<Seq<char>>,
    source: Option<Seq<char>>,
) -> Seq<FilterView> {
    rating_filter(or_all(rating)) + source_filter(or_all(source)) + term_filters(
        words(
            match search {
                Some(s) => s,
                None => Seq::empty(),
            },
        ),
    )
}

/// Splits a text into its words.
pub fn split_words(s: &str) -> (out: Vec<Vec<char>>)
    ensures
        out.deep_view() == words(s@),
{
    let v = chars_of(s);
    let mut out: Vec<Vec<char>> = Vec::new();
    let mut cur: Vec<char> = Vec::new();
    let mut i: usize = 0;
    assert(out.deep_view() =~= Seq::empty());
    while i < v.len()
        invariant
            i <= v.len(),
            v@ == s@,
            words(s@) == words_from(v@, i as int, cur@, out.deep_view()),
        decreases v.len() - i,
    {
        let ghost before = out.deep_view();
        if is_space(v[i]) {
            if cur.len() > 0 {
                let ghost word = cur@;
                assert(cur.deep_view() =~= word);
                out.push(cur);
                assert(out.deep_view() =~= before.push(word));
            }
            cur = Vec::new();
        } else {
            cur.push(v[i]);
        }
        i += 1;
    }
    let ghost before = out.deep_view();
    if cur.len() > 0 {
        let ghost word = cur@;
        assert(cur.deep_view() =~= word);
        out.push(cur);
        assert(out.deep_view() =~= before.push(word));
    }
    out
}

fn starts_with(term: &Vec<char>, prefix: &str) -> (b: bool)
    ensures
        b == begins_with(term@, prefix@),
{
    let p = chars_of(prefix);
    matches_at(term, &p, 0)
}

fn lower(v: &Vec<char>) -> (out: String)
    ensures
        out@ == lowercased(v@),
{
    let s = string_of(v);
    lowercase(s.as_str())
}

fn strip_prefix_text(term: &Vec<char>, prefix: &str) -> (out: String)
    ensures
        out@ == lowercased(stripped(term@, prefix@)),
{
    let p = chars_of(prefix);
    let rest = strip_all(term, &p);
    lower(&rest)
}

proof fn lemma_without_leading(s: Seq<char>, c: char, k: int)
    requires
        0 <= k <= s.len(),
        forall|j: int| 0 <= j < k ==> s[j] == c,
    ensures
        without_leading(s, c) == without_leading(s.skip(k), c),
    decreases k,
{
    if k > 0 {
        let t = s.drop_first();
        assert forall|j: int| 0 <= j < k - 1 implies t[j] == c by {
            assert(t[j] == s[j + 1]);
        }
        lemma_without_leading(t, c, k - 1);
        assert(t.skip(k - 1) =~= s.skip(k));
    } else {
        assert(s.skip(0) =~= s);
    }
}

fn drop_leading(term: &Vec<char>, c: char) -> (out: Vec<char>)
    ensures
        out@ == without_leading(term@, c),
{
    let mut k: usize = 0;
    while k < term.len() && term[k] == c
        invariant
            k <= term.len(),
            forall|j: int| 0 <= j < k ==> term@[j] == c,
        decreases term.len() - k,
    {
        k += 1;
    }
    let mut out: Vec<char> = Vec::new();
    let mut i: usize = k;
    while i < term.len()
        invariant
            k <= i <= term.len(),
            out@ == term@.subrange(k as int, i as int),
        decreases term.len() - i,
    {
        out.push(term[i]);
        assert(term@.subrange(k as int, i as int).push(term@[i as int]) =~= term@.subrange(
            k as int,
            i + 1,
        ));
        i += 1;
    }
    proof {
        lemma_without_leading(term@, c, k as int);
        assert(term@.subrange(k as int, term.len() as int) =~= term@.skip(k as int));
    }
    out
}

fn media_of(v: &str) -> (m: Option<MediaType>)
    ensures
        m == media_named(v@),
{
    if same_text(v, "image") || same_text(v, "img") {
        Some(MediaType::Image)
    } else if same_text(v, "video") || same_text(v, "vid") {
        Some(MediaType::Video)
    } else if same_text(v, "gif") {
        Some(MediaType::Gif)
    } else {
        None
    }
}

fn type_filter_of(v: &str, negated: bool) -> (f: Option<Filter>)
    ensures
        f.deep_view() == type_filter(v@, negated),
{
    match media_of(v) {
        Some(media) => Some(Filter::TypeIs { media, negated }),
        None => None,
    }
}

/// The filter that one word of a search selects, if it selects one.
pub fn parse_term(term: &Vec<char>) -> (f: Option<Filter>)
    ensures
        f.deep_view() == term_filter(term@),
{
    if starts_with(term, "-type:") {
        let v = strip_prefix_text(term, "-type:");
        type_filter_of(v.as_str(), true)
    } else if starts_with(term, "type:") {
        let v = strip_prefix_text(term, "type:");
        type_filter_of(v.as_str(), false)
    } else if starts_with(term, "-ext:") {
        Some(Filter::ExtIs { ext: strip_prefix_text(term, "-ext:"), negated: true })
    } else if starts_with(term, "ext:") {
        Some(Filter::ExtIs { ext: strip_prefix_text(term, "ext:"), negated: false })
    } else if starts_with(term, "rating:") || starts_with(term, "source:") || starts_with(
        term,
        "order:",
    ) {
        None
    } else if starts_with(term, "-") {
        let rest = drop_leading(term, '-');
        Some(Filter::TagAbsent(lower(&rest)))
    } else {
        let tag = lower(term);
        let chars = chars_of(tag.as_str());
        let any = has_char(&chars, '*');
        if any {
            let like = replace_char(&chars, '*', '%');
            Some(Filter::TagLike(string_of(&like)))
        } else {
            Some(Filter::TagIs(tag))
        }
    }
}

/// The order that a word names.
pub fn parse_order(name: &str) -> (o: Order)
    ensures
        o == order_named(name@),
{
    if same_text(name, "score") {
        Order::Score
    } else if same_text(name, "favs") || same_text(name, "favcount") {
        Order::Favs
    } else if same_text(name, "random") {
        Order::Random
    } else if same_text(name, "oldest") {
        Order::Oldest
    } else {
        Order::Newest
    }
}

fn text_or<'a>(choice: &'a Option<String>, default: &'a str) -> (out: &'a str)
    ensures
        out@ == match choice {
            Some(c) => c@,
            None => default@,
        },
{
    match choice {
        Some(c) => c.as_str(),
        None => default,
    }
}

/// What a listing shows, from what the view asks for: at most `limit` items
/// (100 where none is given) after the first `offset` (0 where none is
/// given), in the order named (the newest first where none is), of those
/// that pass the filters of the rating, the source and the search.
pub fn plan_listing(
    limit: Option<u32>,
    offset: Option<u32>,
    search: Option<String>,
    rating: Option<String>,
    source: Option<String>,
    order: Option<String>,
) -> (plan: ListPlan)
    ensures
        plan.limit == (match limit {
            Some(l) => l,
            None => DEFAULT_LIMIT,
        }),
        plan.offset == (match offset {
            Some(o) => o,
            None => 0,
        }),
        plan.order == order_named(
            match order {
                Some(o) => o@,
                None => "newest"@,
            },
        ),
        plan.filters.deep_view() == filters_of(
            search.deep_view(),
            rating.deep_view(),
            source.deep_view(),
        ),
{
    let mut filters: Vec<Filter> = Vec::new();
    assert(filters.deep_view() =~= Seq::empty());
    let r = text_or(&rating, "all");
    if !same_text(r, "all") {
        if same_text(r, "nsfw") {
            filters.push(Filter::Nsfw);
        } else {
            filters.push(Filter::RatingIs(r.to_string()));
        }
    }
    assert(filters.deep_view() =~= rating_filter(or_all(rating.deep_view())));
    let s = text_or(&source, "all");
    if !same_text(s, "all") {
        let ghost before = filters.deep_view();
        filters.push(Filter::SourceIs(s.to_string()));
        assert(filters.deep_view() =~= before.push(FilterView::SourceIs(s@)));
    }
    assert(filters.deep_view() =~= rating_filter(or_all(rating.deep_view())) + source_filter(
        or_all(source.deep_view()),
    ));
    let ghost head = filters.deep_view();
    let terms = split_words(text_or(&search, ""));
    assert(""@ =~= Seq::<char>::empty()) by {
        reveal_strlit("");
    }
    let mut i: usize = 0;
    assert(terms.deep_view().take(0) =~= Seq::empty());
    assert(head + term_filters(Seq::empty()) =~= head);
    while i < terms.len()
        invariant
            i <= terms.len(),
            filters.deep_view() == head + term_filters(terms.deep_view().take(i as int)),
        decreases terms.len() - i,
    {
        let ghost upto = terms.deep_view().take(i + 1);
        let ghost before = filters.deep_view();
        assert(upto.drop_last() =~= terms.deep_view().take(i as int));
        assert(upto.last() == terms@[i as int]@);
        match parse_term(&terms[i]) {
            Some(f) => {
                filters.push(f);
                assert(filters.deep_view() =~= before.push(f.deep_view()));
                assert(filters.deep_view() =~= head + term_filters(upto));
            },
            None => {},
        }
        i += 1;
    }
    assert(terms.deep_view().take(terms.len() as int) =~= terms.deep_view());
    let order = parse_order(text_or(&order, "newest"));
    ListPlan {
        filters,
        order,
        limit: match limit {
            Some(l) => l,
            None => DEFAULT_LIMIT,
        },
        offset: match offset {
            Some(o) => o,
            None => 0,
        },
    }
}

/// A listing as the store is asked for it: the statement, and the values
/// for its numbered parameters, the first for `?1`.
#[derive(Debug)]
pub struct ListQuery {
    pub sql: String,
    pub params: Vec<String>,
}

/// The statement up to its conditions: the columns of a live item, with its
/// tags, its artists and its source links each joined by tabs.
pub open spec fn select_text() -> Seq<char> {
    "SELECT i.item_id, i.source, i.source_id, i.remote_url, i.file_rel, i.ext, i.rating, i.fav_count, i.score_total, i.created_at, i.added_at, (SELECT GROUP_CONCAT(t.name, char(9)) FROM item_tags it JOIN tags t ON it.tag_id = t.tag_id WHERE it.item_id = i.item_id), (SELECT GROUP_CONCAT(t.name, char(9)) FROM item_tags it JOIN tags t ON it.tag_id = t.tag_id WHERE it.item_id = i.item_id AND t.type = 'artist'), (SELECT GROUP_CONCAT(s.url, char(9)) FROM item_sources isrc JOIN sources s ON isrc.source_row_id = s.source_row_id WHERE isrc.item_id = i.item_id) FROM items i WHERE i.trashed_at IS NULL"@
}

/// The condition "the item has a tag whose name ...", up to the comparison.
pub open spec fn tag_exists_text() -> Seq<char> {
    "EXISTS (SELECT 1 FROM item_tags it JOIN tags t ON it.tag_id = t.tag_id WHERE it.item_id = i.item_id AND t.name"@
}

/// The value that a filter binds to a parameter, if it binds one.
pub open spec fn bound_value(f: FilterView) -> Option<Seq<char>> {
    match f {
        FilterView::Nsfw => None,
        FilterView::RatingIs(r) => Some(r),
        FilterView::SourceIs(s) => Some(s),
        FilterView::TypeIs { .. } => None,
        FilterView::ExtIs { ext, .. } => Some(ext),
        FilterView::TagIs(t) => Some(t),
        FilterView::TagLike(t) => Some(t),
        FilterView::TagAbsent(t) => Some(t),
    }
}

/// The condition on media types as the store reads it.
pub open spec fn media_text(media: MediaType, negated: bool) -> Seq<char> {
    match media {
        MediaType::Image => if negated {
            "NOT (i.ext IN ('jpg', 'jpeg', 'png', 'webp'))"@
        } else {
            "(i.ext IN ('jpg', 'jpeg', 'png', 'webp'))"@
        },
        MediaType::Video => if negated {
            "NOT (i.ext IN ('mp4', 'webm'))"@
        } else {
            "(i.ext IN ('mp4', 'webm'))"@
        },
        MediaType::Gif => if negated {
            "i.ext != 'gif'"@
        } else {
            "(i.ext = 'gif')"@
        },
    }
}

/// A filter as the store reads it, where `n` is the number of the parameter
/// that holds its value.
pub open spec fn clause_text(f: FilterView, n: nat) -> Seq<char> {
    match f {
        FilterView::Nsfw => "(i.rating = 'q' OR i.rating = 'e')"@,
        FilterView::RatingIs(_) => "i.rating = ?"@ + numeral(n),
        FilterView::SourceIs(_) => "i.source = ?"@ + numeral(n),
        FilterView::TypeIs { media, negated } => media_text(media, negated),
        FilterView::ExtIs { negated, .. } => if negated {
            "i.ext != ?"@ + numeral(n)
        } else {
            "i.ext = ?"@ + numeral(n)
        },
        FilterView::TagIs(_) => tag_exists_text() + " = ?"@ + numeral(n) + ")"@,
        FilterView::TagLike(_) => tag_exists_text() + " LIKE ?"@ + numeral(n) + ")"@,
        FilterView::TagAbsent(_) => "NOT "@ + tag_exists_text() + " = ?"@ + numeral(n) + ")"@,
    }
}

/// The values that the filters bind, in order.
pub open spec fn bound_values(filters: Seq<FilterView>) -> Seq<Seq<char>>
    decreases filters.len(),
{
    if filters.len() == 0 {
        Seq::empty()
    } else {
        let before = bound_values(filters.drop_last());
        match bound_value(filters.last()) {
            Some(v) => before.push(v),
            None => before,
        }
    }
}

/// The conditions of the filters, each behind ` AND `; a filter that binds a
/// value names the parameter that holds it.
pub open spec fn conditions_text(filters: Seq<FilterView>) -> Seq<char>
    decreases filters.len(),
{
    if filters.len() == 0 {
        Seq::empty()
    } else {
        conditions_text(filters.drop_last()) + " AND "@ + clause_text(
            filters.last(),
            bound_values(filters).len(),
        )
    }
}

/// The order as the store reads it.
pub open spec fn order_text(order: Order) -> Seq<char> {
    match order {
        Order::Score => "ORDER BY i.score_total DESC"@,
        Order::Favs => "ORDER BY i.fav_count DESC"@,
        Order::Random => "ORDER BY RANDOM()"@,
        Order::Oldest => "ORDER BY i.added_at ASC"@,
        Order::Newest => "ORDER BY i.added_at DESC"@,
    }
}

/// The whole statement of a listing.
pub open spec fn statement_text(
    filters: Seq<FilterView>,
    order: Order,
    limit: u32,
    offset: u32,
) -> Seq<char> {
    select_text() + conditions_text(filters) + " "@ + order_text(order) + " LIMIT "@ + numeral(
        limit as nat,
    ) + " OFFSET "@ + numeral(offset as nat)
}

fn media_clause(media: MediaType, negated: bool) -> (out: &'static str)
    ensures
        out@ == media_text(media, negated),
{
    match media {
        MediaType::Image => if negated {
            "NOT (i.ext IN ('jpg', 'jpeg', 'png', 'webp'))"
        } else {
            "(i.ext IN ('jpg', 'jpeg', 'png', 'webp'))"
        },
        MediaType::Video => if negated {
            "NOT (i.ext IN ('mp4', 'webm'))"
        } else {
            "(i.ext IN ('mp4', 'webm'))"
        },
        MediaType::Gif => if negated {
            "i.ext != 'gif'"
        } else {
            "(i.ext = 'gif')"
        },
    }
}

fn order_clause(order: Order) -> (out: &'static str)
    ensures
        out@ == order_text(order),
{
    match order {
        Order::Score => "ORDER BY i.score_total DESC",
        Order::Favs => "ORDER BY i.fav_count DESC",
        Order::Random => "ORDER BY RANDOM()",
        Order::Oldest => "ORDER BY i.added_at ASC",
        Order::Newest => "ORDER BY i.added_at DESC",
    }
}

fn push_number(v: &mut Vec<char>, n: usize)
    ensures
        final(v)@ == old(v)@ + numeral(n as nat),
{
    let digits = decimal(n as u64);
    push_chars(v, &digits);
}

fn push_tag_exists(v: &mut Vec<char>)
    ensures
        final(v)@ == old(v)@ + tag_exists_text(),
{
    push_str(
        v,
        "EXISTS (SELECT 1 FROM item_tags it JOIN tags t ON it.tag_id = t.tag_id WHERE it.item_id = i.item_id AND t.name",
    );
}

/// Appends the condition of a filter whose value, if it binds one, is held
/// by parameter `n`.
fn push_clause(v: &mut Vec<char>, f: &Filter, n: usize)
    ensures
        final(v)@ == old(v)@ + clause_text(f.deep_view(), n as nat),
{
    let ghost before = v@;
    match f {
        Filter::Nsfw => {
            push_str(v, "(i.rating = 'q' OR i.rating = 'e')");
        },
        Filter::RatingIs(_) => {
            push_str(v, "i.rating = ?");
            push_number(v, n);
            assert(v@ =~= before + ("i.rating = ?"@ + numeral(n as nat)));
        },
        Filter::SourceIs(_) => {
            push_str(v, "i.source = ?");
            push_number(v, n);
            assert(v@ =~= before + ("i.source = ?"@ + numeral(n as nat)));
        },
        Filter::TypeIs { media, negated } => {
            push_str(v, media_clause(*media, *negated));
        },
        Filter::ExtIs { ext: _, negated } => {
            if *negated {
                push_str(v, "i.ext != ?");
                push_number(v, n);
                assert(v@ =~= before + ("i.ext != ?"@ + numeral(n as nat)));
            } else {
                push_str(v, "i.ext = ?");
                push_number(v, n);
                assert(v@ =~= before + ("i.ext = ?"@ + numeral(n as nat)));
            }
        },
        Filter::TagIs(_) => {
            push_tag_exists(v);
            push_str(v, " = ?");
            push_number(v, n);
            push_str(v, ")");
            assert(v@ =~= before + (tag_exists_text() + " = ?"@ + numeral(n as nat) + ")"@));
        },
        Filter::TagLike(_) => {
            push_tag_exists(v);
            push_str(v, " LIKE ?");
            push_number(v, n);
            push_str(v, ")");
            assert(v@ =~= before + (tag_exists_text() + " LIKE ?"@ + numeral(n as nat) + ")"@));
        },
        Filter::TagAbsent(_) => {
            push_str(v, "NOT ");
            push_tag_exists(v);
            push_str(v, " = ?");
            push_number(v, n);
            push_str(v, ")");
            assert(v@ =~= before + ("NOT "@ + tag_exists_text() + " = ?"@ + numeral(n as nat)
                + ")"@));
        },
    }
}

fn value_of(f: &Filter) -> (out: Option<String>)
    ensures
        out.deep_view() == bound_value(f.deep_view()),
{
    match f {
        Filter::Nsfw => None,
        Filter::RatingIs(r) => Some(r.clone()),
        Filter::SourceIs(s) => Some(s.clone()),
        Filter::TypeIs { .. } => None,
        Filter::ExtIs { ext, .. } => Some(ext.clone()),
        Filter::TagIs(t) => Some(t.clone()),
        Filter::TagLike(t) => Some(t.clone()),
        Filter::TagAbsent(t) => Some(t.clone()),
    }
}

/// The listing as the store is asked for it.
pub fn render_listing(plan: &ListPlan) -> (q: ListQuery)
    ensures
        q.sql@ == statement_text(plan.filters.deep_view(), plan.order, plan.limit, plan.offset),
        q.params.deep_view() == bound_values(plan.filters.deep_view()),
{
    let mut sql = chars_of(
        "SELECT i.item_id, i.source, i.source_id, i.remote_url, i.file_rel, i.ext, i.rating, i.fav_count, i.score_total, i.created_at, i.added_at, (SELECT GROUP_CONCAT(t.name, char(9)) FROM item_tags it JOIN tags t ON it.tag_id = t.tag_id WHERE it.item_id = i.item_id), (SELECT GROUP_CONCAT(t.name, char(9)) FROM item_tags it JOIN tags t ON it.tag_id = t.tag_id WHERE it.item_id = i.item_id AND t.type = 'artist'), (SELECT GROUP_CONCAT(s.url, char(9)) FROM item_sources isrc JOIN sources s ON isrc.source_row_id = s.source_row_id WHERE isrc.item_id = i.item_id) FROM items i WHERE i.trashed_at IS NULL",
    );
    let mut params: Vec<String> = Vec::new();
    let ghost all = plan.filters.deep_view();
    let mut i: usize = 0;
    assert(all.take(0) =~= Seq::empty());
    assert(params.deep_view() =~= Seq::empty());
    assert(sql@ =~= select_text() + conditions_text(all.take(0)));
    while i < plan.filters.len()
        invariant
            i <= plan.filters.len(),
            all == plan.filters.deep_view(),
            params.deep_view() == bound_values(all.take(i as int)),
            sql@ == select_text() + conditions_text(all.take(i as int)),
        decreases plan.filters.len() - i,
    {
        let ghost upto = all.take(i + 1);
        let ghost before = params.deep_view();
        let ghost text = sql@;
        assert(upto.drop_last() =~= all.take(i as int));
        assert(upto.last() == plan.filters@[i as int].deep_view());
        let f = &plan.filters[i];
        match value_of(f) {
            Some(value) => {
                params.push(value);
                assert(params.deep_view() =~= before.push(value@));
            },
            None => {},
        }
        assert(params.deep_view() == bound_values(upto));
        push_str(&mut sql, " AND ");
        push_clause(&mut sql, f, params.len());
        assert(sql@ =~= select_text() + conditions_text(upto));
        i += 1;
    }
    assert(all.take(plan.filters.len() as int) =~= all);
    push_str(&mut sql, " ");
    push_str(&mut sql, order_clause(plan.order));
    push_str(&mut sql, " LIMIT ");
    push_number(&mut sql, plan.limit as usize);
    push_str(&mut sql, " OFFSET ");
    push_number(&mut sql, plan.offset as usize);
    ListQuery { sql: string_of(&sql), params }
}

} // verus!
