//! Per-caller relation flags: does the caller follow an author, has the
//! caller favorited an article.

use vstd::prelude::*;
use crate::entity::{ArticleSummary, CommentSummary};

verus! {

/// `id` is one of the strings in `ids`.
pub open spec fn in_list(ids: Seq<String>, id: Seq<char>) -> bool {
    exists|i: int| 0 <= i < ids.len() && #[trigger] ids[i]@ == id
}

/// Linear membership test of `id` among `ids`.
pub(crate) fn contains_id(ids: &[String], id: &String) -> (r: bool)
    ensures
        r == in_list(ids@, id@),
{
    let mut i: usize = 0;
    while i < ids.len()
        invariant
            0 <= i <= ids@.len(),
            forall|j: int| 0 <= j < i ==> #[trigger] ids@[j]@ != id@,
        decreases ids@.len() - i,
    {
        if ids[i] == *id {
            return true;
        }
        i += 1;
    }
    false
}

/// Whether `user_id` is among the followed user ids.
pub fn check_if_following(follows: &[String], user_id: &String) -> (r: bool)
    ensures
        r == in_list(follows@, user_id@),
{
    contains_id(follows, user_id)
}

/// Whether `article_id` is among the favorited article ids.
pub fn check_if_favorited(favorites: &[String], article_id: &String) -> (r: bool)
    ensures
        r == in_list(favorites@, article_id@),
{
    contains_id(favorites, article_id)
}

/// The caller's relations, fetched once per request: the users they follow
/// and the articles they have favorited.
#[derive(Clone, Debug)]
pub struct RelationSet {
    pub followed_user_ids: Vec<String>,
    pub favorited_article_ids: Vec<String>,
}

impl RelationSet {
    pub open spec fn follows(&self, user_id: Seq<char>) -> bool {
        in_list(self.followed_user_ids@, user_id)
    }

    pub open spec fn has_favorited(&self, article_id: Seq<char>) -> bool {
        in_list(self.favorited_article_ids@, article_id)
    }
}

/// The caller-dependent flags of an article, comment or profile.
#[derive(Clone, Copy, Debug, PartialEq, Eq, Structural)]
pub struct ViewFlags {
    pub following: bool,
    pub favorited: bool,
}

/// Both flags false: what an anonymous caller sees.
pub open spec fn no_flags() -> ViewFlags {
    ViewFlags { following: false, favorited: false }
}

/// The flags of an article for a caller with `relations` (none: anonymous).
pub open spec fn article_flags(article: ArticleSummary, relations: Option<&RelationSet>) -> ViewFlags {
    match relations {
        None => no_flags(),
        Some(r) => ViewFlags {
            following: r.follows(article.author_id@),
            favorited: r.has_favorited(article.id@),
        },
    }
}

/// The flags of a comment: comments are never favorited.
pub open spec fn comment_flags(comment: CommentSummary, relations: Option<&RelationSet>) -> ViewFlags {
    match relations {
        None => no_flags(),
        Some(r) => ViewFlags { following: r.follows(comment.author_id@), favorited: false },
    }
}

/// Whether a caller with `relations` follows the user `target_user_id`.
pub open spec fn profile_following(target_user_id: Seq<char>, relations: Option<&RelationSet>) -> bool {
    match relations {
        None => false,
        Some(r) => r.follows(target_user_id),
    }
}

/// The flags of each article of a batch, in the batch's order.
pub open spec fn batch_flags(articles: Seq<ArticleSummary>, relations: Option<&RelationSet>) -> Seq<ViewFlags> {
    articles.map_values(|a: ArticleSummary| article_flags(a, relations))
}

/// Following: whether the caller follows the author; favorited: whether the
/// caller favorited the article. An anonymous caller gets both false.
pub fn resolve_article_flags(article: &ArticleSummary, relations: Option<&RelationSet>) -> (r: ViewFlags)
    ensures
        r == article_flags(*article, relations),
{
    match relations {
        None => ViewFlags { following: false, favorited: false },
        Some(rel) => ViewFlags {
            following: check_if_following(rel.followed_user_ids.as_slice(), &article.author_id),
            favorited: check_if_favorited(rel.favorited_article_ids.as_slice(), &article.id),
        },
    }
}

/// Following: whether the caller follows the comment's author; favorited is
/// always false.
pub fn resolve_comment_flags(comment: &CommentSummary, relations: Option<&RelationSet>) -> (r: ViewFlags)
    ensures
        r == comment_flags(*comment, relations),
{
    match relations {
        None => ViewFlags { following: false, favorited: false },
        Some(rel) => ViewFlags {
            following: check_if_following(rel.followed_user_ids.as_slice(), &comment.author_id),
            favorited: false,
        },
    }
}

/// Whether the caller follows `target_user_id`; false for an anonymous caller.
pub fn resolve_profile_flags(target_user_id: &String, relations: Option<&RelationSet>) -> (r: bool)
    ensures
        r == profile_following(target_user_id@, relations),
{
    match relations {
        None => false,
        Some(rel) => check_if_following(rel.followed_user_ids.as_slice(), target_user_id),
    }
}

/// Resolves each article of a batch against one relation set; the output
/// keeps the batch's order.
pub fn resolve_article_batch(articles: &[ArticleSummary], relations: Option<&RelationSet>) -> (r: Vec<ViewFlags>)
    ensures
        r@ == batch_flags(articles@, relations),
{
    let mut out: Vec<ViewFlags> = Vec::new();
    let mut i: usize = 0;
    while i < articles.len()
        invariant
            0 <= i <= articles@.len(),
            out@ == batch_flags(articles@.subrange(0, i as int), relations),
        decreases articles@.len() - i,
    {
        let flags = resolve_article_flags(&articles[i], relations);
        out.push(flags);
        i += 1;
        assert(articles@.subrange(0, i as int) == articles@.subrange(0, i - 1).push(articles@[i - 1]));
    }
    assert(articles@.subrange(0, articles@.len() as int) == articles@);
    out
}

/// Resolves each comment of a batch against one relation set; the output
/// keeps the batch's order.
pub fn resolve_comment_batch(comments: &[CommentSummary], relations: Option<&RelationSet>) -> (r: Vec<ViewFlags>)
    ensures
        r@.len() == comments@.len(),
        forall|i: int| 0 <= i < comments@.len() ==> r@[i] == comment_flags(#[trigger] comments@[i], relations),
{
    let mut out: Vec<ViewFlags> = Vec::new();
    let mut i: usize = 0;
    while i < comments.len()
        invariant
            0 <= i <= comments@.len(),
            out@.len() == i,
            forall|j: int| 0 <= j < i ==> out@[j] == comment_flags(#[trigger] comments@[j], relations),
        decreases comments@.len() - i,
    {
        let flags = resolve_comment_flags(&comments[i], relations);
        out.push(flags);
        i += 1;
    }
    out
}

/// An author the caller does not follow is shown as not followed.
pub proof fn lemma_unfollowed_author(article: ArticleSummary, relations: RelationSet)
    requires
        !relations.follows(article.author_id@),
    ensures
        !article_flags(article, Some(&relations)).following,
{
}

/// An author the caller follows is shown as followed.
pub proof fn lemma_followed_author(article: ArticleSummary, relations: RelationSet)
    requires
        relations.follows(article.author_id@),
    ensures
        article_flags(article, Some(&relations)).following,
{
}

/// An anonymous caller sees every article with both flags false.
pub proof fn lemma_anonymous_sees_no_flags(article: ArticleSummary)
    ensures
        article_flags(article, None) == no_flags(),
{
}

/// Resolution keeps no state: any two results that `resolve_article_flags`
/// may return for the same article and relations are equal.
pub proof fn lemma_resolution_repeatable(
    article: ArticleSummary,
    relations: Option<&RelationSet>,
    first: ViewFlags,
    second: ViewFlags,
)
    requires
        first == article_flags(article, relations),
        second == article_flags(article, relations),
    ensures
        first == second,
{
}

/// The flags of an article do not depend on where it stands in a batch: an
/// article at position `i` of one batch and at position `j` of another
/// (a shuffle of the first, say) gets the same flags in both.
pub proof fn lemma_batch_order_independent(
    first: Seq<ArticleSummary>,
    second: Seq<ArticleSummary>,
    relations: Option<&RelationSet>,
    i: int,
    j: int,
)
    requires
        0 <= i < first.len(),
        0 <= j < second.len(),
        first[i] == second[j],
    ensures
        batch_flags(first, relations)[i] == batch_flags(second, relations)[j],
{
}

} // verus!
