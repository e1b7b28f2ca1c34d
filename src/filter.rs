//! Article query filters: the conjunctive filter of a listing request and
//! the disjunctive filter of a feed over followed authors.

use vstd::prelude::*;
use crate::relation::{contains_id, in_list};

verus! {

/// Default number of articles in one page.
pub const DEFAULT_LIMIT: i64 = 20;

/// Default number of articles skipped.
pub const DEFAULT_OFFSET: i64 = 0;

/// The optional criteria of an article listing request.
#[derive(Clone, Debug)]
pub struct Params {
    pub tag: Option<String>,
    pub author: Option<String>,
    pub favorited: Option<String>,
    pub limit: Option<i64>,
    pub offset: Option<i64>,
}

/// One condition on a stored article.
#[derive(Clone, Debug)]
pub enum Predicate {
    /// The author's username is this one.
    AuthorUsername(String),
    /// The user with this username favorited the article.
    FavoritedBy(String),
    /// The article's tag list holds this tag.
    HasTag(String),
    /// The author's id is this one.
    AuthorId(String),
}

/// A filter over stored articles.
#[derive(Clone, Debug)]
pub enum FilterSpec {
    /// Every predicate holds (no predicate: every article).
    AllOf(Vec<Predicate>),
    /// Some predicate holds (no predicate: no article).
    AnyOf(Vec<Predicate>),
}

/// The order in which the store returns matching articles.
#[derive(Clone, Copy, Debug, PartialEq, Eq, Structural)]
pub enum SortOrder {
    CreatedAtAscending,
}

/// A filter, the store's order, and the page to take: skip `skip` matching
/// articles, then take at most `take`.
#[derive(Clone, Debug)]
pub struct ListingQuery {
    pub filter: FilterSpec,
    pub order: SortOrder,
    pub skip: i64,
    pub take: i64,
}

/// What a filter is evaluated against: a stored article's author, the
/// usernames that favorited it, and its tags.
#[derive(Clone, Debug)]
pub struct ArticleRecord {
    pub author_id: String,
    pub author_username: String,
    pub favorited_by: Vec<String>,
    pub tag_list: Vec<String>,
}

pub open spec fn predicate_holds(p: Predicate, rec: ArticleRecord) -> bool {
    match p {
        Predicate::AuthorUsername(name) => rec.author_username@ == name@,
        Predicate::FavoritedBy(name) => in_list(rec.favorited_by@, name@),
        Predicate::HasTag(tag) => in_list(rec.tag_list@, tag@),
        Predicate::AuthorId(id) => rec.author_id@ == id@,
    }
}

pub open spec fn all_hold(ps: Seq<Predicate>, rec: ArticleRecord) -> bool {
    forall|i: int| 0 <= i < ps.len() ==> predicate_holds(#[trigger] ps[i], rec)
}

pub open spec fn any_holds(ps: Seq<Predicate>, rec: ArticleRecord) -> bool {
    exists|i: int| 0 <= i < ps.len() && predicate_holds(#[trigger] ps[i], rec)
}

pub open spec fn filter_holds(f: FilterSpec, rec: ArticleRecord) -> bool {
    match f {
        FilterSpec::AllOf(ps) => all_hold(ps@, rec),
        FilterSpec::AnyOf(ps) => any_holds(ps@, rec),
    }
}

/// An article meets the listing criteria: each criterion that is present
/// holds of it, and absent ones ask nothing.
pub open spec fn listing_matches(p: Params, rec: ArticleRecord) -> bool {
    &&& match p.author {
        Some(a) => rec.author_username@ == a@,
        None => true,
    }
    &&& match p.favorited {
        Some(u) => in_list(rec.favorited_by@, u@),
        None => true,
    }
    &&& match p.tag {
        Some(t) => in_list(rec.tag_list@, t@),
        None => true,
    }
}

/// How many of the three listing criteria are present.
pub open spec fn criteria_count(p: Params) -> nat {
    (if p.author is Some { 1nat } else { 0nat }) + (if p.favorited is Some { 1nat } else { 0nat }) + (
    if p.tag is Some { 1nat } else { 0nat })
}

/// An article belongs in the feed of a caller following `followed`.
pub open spec fn feed_matches(followed: Seq<String>, rec: ArticleRecord) -> bool {
    in_list(followed, rec.author_id@)
}

pub open spec fn page_skip(p: Params) -> i64 {
    match p.offset {
        Some(o) => o,
        None => DEFAULT_OFFSET,
    }
}

pub open spec fn page_take(p: Params) -> i64 {
    match p.limit {
        Some(l) => l,
        None => DEFAULT_LIMIT,
    }
}

impl Predicate {
    /// Evaluates the predicate on a record.
    pub fn holds(&self, rec: &ArticleRecord) -> (r: bool)
        ensures
            r == predicate_holds(*self, *rec),
    {
        match self {
            Predicate::AuthorUsername(name) => rec.author_username == *name,
            Predicate::FavoritedBy(name) => contains_id(rec.favorited_by.as_slice(), name),
            Predicate::HasTag(tag) => contains_id(rec.tag_list.as_slice(), tag),
            Predicate::AuthorId(id) => rec.author_id == *id,
        }
    }
}

fn all_of(ps: &Vec<Predicate>, rec: &ArticleRecord) -> (r: bool)
    ensures
        r == all_hold(ps@, *rec),
{
    let mut i: usize = 0;
    while i < ps.len()
        invariant
            0 <= i <= ps@.len(),
            forall|j: int| 0 <= j < i ==> predicate_holds(#[trigger] ps@[j], *rec),
        decreases ps@.len() - i,
    {
        if !ps[i].holds(rec) {
            assert(!predicate_holds(ps@[i as int], *rec));
            return false;
        }
        i += 1;
    }
    true
}

fn any_of(ps: &Vec<Predicate>, rec: &ArticleRecord) -> (r: bool)
    ensures
        r == any_holds(ps@, *rec),
{
    let mut i: usize = 0;
    while i < ps.len()
        invariant
            0 <= i <= ps@.len(),
            forall|j: int| 0 <= j < i ==> !predicate_holds(#[trigger] ps@[j], *rec),
        decreases ps@.len() - i,
    {
        if ps[i].holds(rec) {
            assert(predicate_holds(ps@[i as int], *rec));
            return true;
        }
        i += 1;
    }
    false
}

impl FilterSpec {
    /// Evaluates the filter on a record.
    pub fn matches(&self, rec: &ArticleRecord) -> (r: bool)
        ensures
            r == filter_holds(*self, *rec),
    {
        match self {
            FilterSpec::AllOf(ps) => all_of(ps, rec),
            FilterSpec::AnyOf(ps) => any_of(ps, rec),
        }
    }
}

/// The predicates of a listing request, in the order author, favorited, tag.
pub open spec fn listing_predicates(p: Params) -> Seq<Predicate> {
    let author = match p.author {
        Some(a) => seq![Predicate::AuthorUsername(a)],
        None => Seq::empty(),
    };
    let favorited = match p.favorited {
        Some(u) => seq![Predicate::FavoritedBy(u)],
        None => Seq::empty(),
    };
    let tag = match p.tag {
        Some(t) => seq![Predicate::HasTag(t)],
        None => Seq::empty(),
    };
    author + favorited + tag
}

proof fn lemma_all_hold_concat(a: Seq<Predicate>, b: Seq<Predicate>, rec: ArticleRecord)
    ensures
        all_hold(a + b, rec) == (all_hold(a, rec) && all_hold(b, rec)),
{
    if all_hold(a, rec) && all_hold(b, rec) {
        assert forall|i: int| 0 <= i < (a + b).len() implies predicate_holds(#[trigger] (a + b)[i], rec) by {
            if i < a.len() {
                assert((a + b)[i] == a[i]);
            } else {
                assert((a + b)[i] == b[i - a.len()]);
            }
        }
    }
    if all_hold(a + b, rec) {
        assert forall|i: int| 0 <= i < a.len() implies predicate_holds(#[trigger] a[i], rec) by {
            assert((a + b)[i] == a[i]);
        }
        assert forall|i: int| 0 <= i < b.len() implies predicate_holds(#[trigger] b[i], rec) by {
            assert((a + b)[i + a.len()] == b[i]);
        }
    }
}

proof fn lemma_listing_predicates_meaning(p: Params, rec: ArticleRecord)
    ensures
        all_hold(listing_predicates(p), rec) == listing_matches(p, rec),
{
    let author = match p.author {
        Some(a) => seq![Predicate::AuthorUsername(a)],
        None => Seq::<Predicate>::empty(),
    };
    let favorited = match p.favorited {
        Some(u) => seq![Predicate::FavoritedBy(u)],
        None => Seq::<Predicate>::empty(),
    };
    let tag = match p.tag {
        Some(t) => seq![Predicate::HasTag(t)],
        None => Seq::<Predicate>::empty(),
    };
    lemma_all_hold_concat(author, favorited, rec);
    lemma_all_hold_concat(author + favorited, tag, rec);
    if author.len() == 1 {
        assert(all_hold(author, rec) == predicate_holds(author[0], rec));
    }
    if favorited.len() == 1 {
        assert(all_hold(favorited, rec) == predicate_holds(favorited[0], rec));
    }
    if tag.len() == 1 {
        assert(all_hold(tag, rec) == predicate_holds(tag[0], rec));
    }
}

/// A listing request has one predicate per criterion present.
pub proof fn lemma_listing_predicate_count(p: Params)
    ensures
        listing_predicates(p).len() == criteria_count(p),
{
}

/// Builds the query of an article listing: one predicate for each criterion
/// that is present, all of which must hold; the store's order by creation
/// time; offset and limit passed through, 0 and 20 when absent.
pub fn compose_listing_filter(params: &Params) -> (q: ListingQuery)
    ensures
        q.filter is AllOf,
        q.filter->AllOf_0@ == listing_predicates(*params),
        forall|rec: ArticleRecord| #[trigger] filter_holds(q.filter, rec) == listing_matches(*params, rec),
        q.order == SortOrder::CreatedAtAscending,
        q.skip == page_skip(*params),
        q.take == page_take(*params),
{
    let mut ps: Vec<Predicate> = Vec::new();
    match &params.author {
        Some(a) => ps.push(Predicate::AuthorUsername(a.clone())),
        None => {},
    }
    match &params.favorited {
        Some(u) => ps.push(Predicate::FavoritedBy(u.clone())),
        None => {},
    }
    match &params.tag {
        Some(t) => ps.push(Predicate::HasTag(t.clone())),
        None => {},
    }
    assert(ps@ =~= listing_predicates(*params));
    let skip = match params.offset {
        Some(o) => o,
        None => DEFAULT_OFFSET,
    };
    let take = match params.limit {
        Some(l) => l,
        None => DEFAULT_LIMIT,
    };
    let q = ListingQuery { filter: FilterSpec::AllOf(ps), order: SortOrder::CreatedAtAscending, skip, take };
    assert forall|rec: ArticleRecord| #[trigger] filter_holds(q.filter, rec) == listing_matches(*params, rec) by {
        lemma_listing_predicates_meaning(*params, rec);
    }
    q
}

/// Builds the feed filter: the article's author is one of `followed_user_ids`.
/// With no followed user it matches no article.
pub fn compose_feed_filter(followed_user_ids: &[String]) -> (f: FilterSpec)
    ensures
        f is AnyOf,
        f->AnyOf_0@.len() == followed_user_ids@.len(),
        forall|j: int| 0 <= j < followed_user_ids@.len()
            ==> f->AnyOf_0@[j] == Predicate::AuthorId(#[trigger] followed_user_ids@[j]),
        forall|rec: ArticleRecord| #[trigger] filter_holds(f, rec) == feed_matches(followed_user_ids@, rec),
{
    let mut ps: Vec<Predicate> = Vec::new();
    let mut i: usize = 0;
    while i < followed_user_ids.len()
        invariant
            0 <= i <= followed_user_ids@.len(),
            ps@.len() == i,
            forall|j: int| 0 <= j < i ==> ps@[j] == Predicate::AuthorId(#[trigger] followed_user_ids@[j]),
        decreases followed_user_ids@.len() - i,
    {
        ps.push(Predicate::AuthorId(followed_user_ids[i].clone()));
        i += 1;
    }
    let f = FilterSpec::AnyOf(ps);
    assert forall|rec: ArticleRecord| #[trigger] filter_holds(f, rec) == feed_matches(followed_user_ids@, rec) by {
        if any_holds(ps@, rec) {
            let j = choose|j: int| 0 <= j < ps@.len() && predicate_holds(#[trigger] ps@[j], rec);
            assert(followed_user_ids@[j]@ == rec.author_id@);
        }
        if feed_matches(followed_user_ids@, rec) {
            let j = choose|j: int| 0 <= j < followed_user_ids@.len() && #[trigger] followed_user_ids@[j]@ == rec.author_id@;
            assert(predicate_holds(ps@[j], rec));
        }
    }
    f
}

/// Builds the query of a feed page: the feed filter, the store's order by
/// creation time, and the page of `params` (its other criteria are not
/// used).
pub fn compose_feed_query(followed_user_ids: &[String], params: &Params) -> (q: ListingQuery)
    ensures
        q.filter is AnyOf,
        forall|rec: ArticleRecord| #[trigger] filter_holds(q.filter, rec) == feed_matches(followed_user_ids@, rec),
        q.order == SortOrder::CreatedAtAscending,
        q.skip == page_skip(*params),
        q.take == page_take(*params),
{
    let filter = compose_feed_filter(followed_user_ids);
    let skip = match params.offset {
        Some(o) => o,
        None => DEFAULT_OFFSET,
    };
    let take = match params.limit {
        Some(l) => l,
        None => DEFAULT_LIMIT,
    };
    ListingQuery { filter, order: SortOrder::CreatedAtAscending, skip, take }
}

/// The feed of a caller who follows nobody is empty.
pub proof fn lemma_empty_feed_matches_nothing(rec: ArticleRecord)
    ensures
        !feed_matches(Seq::<String>::empty(), rec),
{
}

/// A listing request with no criteria matches every article, and asks for
/// the first page of 20 from offset 0.
pub proof fn lemma_no_criteria_matches_all(p: Params, rec: ArticleRecord)
    requires
        p.author is None,
        p.favorited is None,
        p.tag is None,
        p.limit is None,
        p.offset is None,
    ensures
        listing_matches(p, rec),
        listing_predicates(p).len() == 0,
        page_skip(p) == 0,
        page_take(p) == 20,
{
}

/// The feed matches an article exactly when its author is among the
/// followed ids; the order in which those ids are listed (and so the order
/// of the feed filter's predicates) makes no difference.
pub proof fn lemma_feed_order_irrelevant(first: Seq<String>, second: Seq<String>, rec: ArticleRecord)
    requires
        forall|id: Seq<char>| in_list(first, id) == in_list(second, id),
    ensures
        feed_matches(first, rec) == feed_matches(second, rec),
{
    assert(in_list(first, rec.author_id@) == in_list(second, rec.author_id@));
}

} // verus!
