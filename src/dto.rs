//! Response shapes, and their assembly from stored records and resolved
//! flags. Each resource is wrapped under a key named after it.

use vstd::prelude::*;
use crate::entity::{ArticleSummary, CommentSummary, Timestamp, UserData};
use crate::relation::{
    article_flags, comment_flags, profile_following, resolve_article_flags, resolve_comment_flags,
    resolve_profile_flags, RelationSet, ViewFlags,
};

verus! {

/// A user as other users see them.
#[derive(Clone, Debug)]
pub struct ProfileBody {
    pub username: String,
    pub bio: String,
    pub image: Option<String>,
    pub following: bool,
}

#[derive(Clone, Debug)]
pub struct Profile {
    pub profile: ProfileBody,
}

/// The signed-in user, with their session token.
#[derive(Clone, Debug)]
pub struct UserBody {
    pub email: String,
    pub token: String,
    pub username: String,
    pub bio: String,
    pub image: Option<String>,
}

#[derive(Clone, Debug)]
pub struct User {
    pub user: UserBody,
}

#[derive(Clone, Debug)]
pub struct ArticleBody {
    pub slug: String,
    pub title: String,
    pub description: String,
    pub body: String,
    pub tag_list: Vec<String>,
    pub created_at: Timestamp,
    pub updated_at: Timestamp,
    pub favorited: bool,
    pub favorites_count: i32,
    pub author: Profile,
}

#[derive(Clone, Debug)]
pub struct Article {
    pub article: ArticleBody,
}

#[derive(Clone, Debug)]
pub struct MultipleArticles {
    pub articles: Vec<ArticleBody>,
    pub articles_count: i32,
}

#[derive(Clone, Debug)]
pub struct CommentBody {
    pub id: String,
    pub body: String,
    pub created_at: Timestamp,
    pub updated_at: Timestamp,
    pub author: Profile,
}

#[derive(Clone, Debug)]
pub struct Comment {
    pub comment: CommentBody,
}

#[derive(Clone, Debug)]
pub struct Comments {
    pub comments: Vec<CommentBody>,
}

#[derive(Clone, Debug)]
pub struct Tags {
    pub tags: Vec<String>,
}

/// A stored article with its author and the ids of the users who favorited it.
#[derive(Clone, Debug)]
pub struct ArticleData {
    pub article: ArticleSummary,
    pub author: UserData,
    pub favorited_by: Vec<String>,
}

/// A stored comment with its author.
#[derive(Clone, Debug)]
pub struct CommentData {
    pub comment: CommentSummary,
    pub author: UserData,
}

/// The profile of `user`; the image is always present, even when empty.
pub open spec fn profile_of(user: UserData, following: bool) -> Profile {
    Profile {
        profile: ProfileBody {
            username: user.username,
            bio: user.bio,
            image: Some(user.image),
            following,
        },
    }
}

pub open spec fn user_of(user: UserData, token: String) -> User {
    User {
        user: UserBody {
            email: user.email,
            token,
            username: user.username,
            bio: user.bio,
            image: Some(user.image),
        },
    }
}

/// The wire form of an article: its fields, `favorited` from the flags, the
/// author's profile carrying `following` from the flags.
pub open spec fn article_body_of(
    article: ArticleSummary,
    author: UserData,
    flags: ViewFlags,
    favorites_count: i32,
) -> ArticleBody {
    ArticleBody {
        slug: article.slug,
        title: article.title,
        description: article.description,
        body: article.body,
        tag_list: article.tag_list,
        created_at: article.created_at,
        updated_at: article.updated_at,
        favorited: flags.favorited,
        favorites_count,
        author: profile_of(author, flags.following),
    }
}

pub open spec fn comment_body_of(comment: CommentSummary, author: UserData, following: bool) -> CommentBody {
    CommentBody {
        id: comment.id,
        body: comment.body,
        created_at: comment.created_at,
        updated_at: comment.updated_at,
        author: profile_of(author, following),
    }
}

/// Combines an article, its author, the resolved flags and the externally
/// counted favorites into the article response.
pub fn assemble_article_dto(
    article: ArticleSummary,
    author: UserData,
    flags: ViewFlags,
    favorites_count: i32,
) -> (r: Article)
    ensures
        r.article == article_body_of(article, author, flags, favorites_count),
{
    Article {
        article: ArticleBody {
            slug: article.slug,
            title: article.title,
            description: article.description,
            body: article.body,
            tag_list: article.tag_list,
            created_at: article.created_at,
            updated_at: article.updated_at,
            favorited: flags.favorited,
            favorites_count,
            author: author.into_profile(flags.following),
        },
    }
}

impl UserData {
    /// The user's public profile, with the given `following` flag.
    pub fn into_profile(self, following: bool) -> (r: Profile)
        ensures
            r == profile_of(self, following),
    {
        Profile {
            profile: ProfileBody {
                username: self.username,
                bio: self.bio,
                image: Some(self.image),
                following,
            },
        }
    }

    /// The signed-in user's response, carrying `token`.
    pub fn into_user(self, token: String) -> (r: User)
        ensures
            r == user_of(self, token),
    {
        User {
            user: UserBody {
                email: self.email,
                token,
                username: self.username,
                bio: self.bio,
                image: Some(self.image),
            },
        }
    }
}

impl ArticleData {
    /// The article's response body; the favorites count is the number of
    /// users who favorited it.
    pub fn into_article_body(self, following: bool, favorited: bool) -> (r: ArticleBody)
        requires
            self.favorited_by@.len() <= i32::MAX,
        ensures
            r == article_body_of(
                self.article,
                self.author,
                ViewFlags { following, favorited },
                self.favorited_by@.len() as i32,
            ),
    {
        let count = self.favorited_by.len() as i32;
        let r = assemble_article_dto(self.article, self.author, ViewFlags { following, favorited }, count);
        r.article
    }

    /// The article's response, wrapped under `article`.
    pub fn into_article(self, following: bool, favorited: bool) -> (r: Article)
        requires
            self.favorited_by@.len() <= i32::MAX,
        ensures
            r.article == article_body_of(
                self.article,
                self.author,
                ViewFlags { following, favorited },
                self.favorited_by@.len() as i32,
            ),
    {
        Article { article: self.into_article_body(following, favorited) }
    }
}

impl CommentData {
    /// The comment's response body; its author's profile carries `following`.
    pub fn into_comment_body(self, following: bool) -> (r: CommentBody)
        ensures
            r == comment_body_of(self.comment, self.author, following),
    {
        CommentBody {
            id: self.comment.id,
            body: self.comment.body,
            created_at: self.comment.created_at,
            updated_at: self.comment.updated_at,
            author: self.author.into_profile(following),
        }
    }

    /// The comment's response, wrapped under `comment`.
    pub fn into_comment(self, following: bool) -> (r: Comment)
        ensures
            r.comment == comment_body_of(self.comment, self.author, following),
    {
        Comment { comment: self.into_comment_body(following) }
    }
}

/// The response of one article for a caller with `relations`: the flags
/// resolved, then the article assembled with them.
pub fn article_view(data: ArticleData, relations: Option<&RelationSet>) -> (r: Article)
    requires
        data.favorited_by@.len() <= i32::MAX,
    ensures
        r.article == article_body_of(
            data.article,
            data.author,
            article_flags(data.article, relations),
            data.favorited_by@.len() as i32,
        ),
{
    let flags = resolve_article_flags(&data.article, relations);
    data.into_article(flags.following, flags.favorited)
}

/// The profile of `user` for a caller with `relations`.
pub fn profile_view(user: UserData, relations: Option<&RelationSet>) -> (r: Profile)
    ensures
        r == profile_of(user, profile_following(user.id@, relations)),
{
    let following = resolve_profile_flags(&user.id, relations);
    user.into_profile(following)
}

/// The response of each article of a batch, flags resolved against one
/// relation set, in the batch's order.
pub fn assemble_article_list(records: Vec<ArticleData>, relations: Option<&RelationSet>) -> (r: Vec<Article>)
    requires
        forall|i: int| 0 <= i < records@.len() ==> (#[trigger] records@[i]).favorited_by@.len() <= i32::MAX,
    ensures
        r@.len() == records@.len(),
        forall|i: int|
            0 <= i < records@.len() ==> (#[trigger] r@[i]).article == article_body_of(
                records@[i].article,
                records@[i].author,
                article_flags(records@[i].article, relations),
                records@[i].favorited_by@.len() as i32,
            ),
{
    let ghost batch = records@;
    let mut out: Vec<Article> = Vec::new();
    for rec in it: records.into_iter()
        invariant
            it.seq() == batch,
            out@.len() == it.index(),
            forall|i: int| 0 <= i < batch.len() ==> (#[trigger] batch[i]).favorited_by@.len() <= i32::MAX,
            forall|i: int|
                0 <= i < it.index() ==> (#[trigger] out@[i]).article == article_body_of(
                    batch[i].article,
                    batch[i].author,
                    article_flags(batch[i].article, relations),
                    batch[i].favorited_by@.len() as i32,
                ),
    {
        out.push(article_view(rec, relations));
    }
    out
}

/// The comments of an article, flags resolved against one relation set, in
/// the batch's order.
pub fn assemble_comments(records: Vec<CommentData>, relations: Option<&RelationSet>) -> (r: Comments)
    ensures
        r.comments@.len() == records@.len(),
        forall|i: int|
            0 <= i < records@.len() ==> #[trigger] r.comments@[i] == comment_body_of(
                records@[i].comment,
                records@[i].author,
                comment_flags(records@[i].comment, relations).following,
            ),
{
    let ghost batch = records@;
    let mut out: Vec<CommentBody> = Vec::new();
    for rec in it: records.into_iter()
        invariant
            it.seq() == batch,
            out@.len() == it.index(),
            forall|i: int|
                0 <= i < it.index() ==> #[trigger] out@[i] == comment_body_of(
                    batch[i].comment,
                    batch[i].author,
                    comment_flags(batch[i].comment, relations).following,
                ),
    {
        let flags = resolve_comment_flags(&rec.comment, relations);
        out.push(rec.into_comment_body(flags.following));
    }
    Comments { comments: out }
}

/// All tags of all articles, article by article, in order (repeats kept).
pub open spec fn all_tags(tag_lists: Seq<Vec<String>>) -> Seq<String> {
    tag_lists.map_values(|v: Vec<String>| v@).flatten()
}

/// Collects the tag lists of the stored articles into one list.
pub fn collect_tags(tag_lists: Vec<Vec<String>>) -> (r: Tags)
    ensures
        r.tags@ == all_tags(tag_lists@),
{
    let ghost lists = tag_lists@;
    let mut tags: Vec<String> = Vec::new();
    for list in it: tag_lists.into_iter()
        invariant
            it.seq() == lists,
            it.index() <= lists.len(),
            tags@ == all_tags(lists.subrange(0, it.index() as int)),
    {
        let ghost k = it.index();
        let mut list = list;
        tags.append(&mut list);
        proof {
            let prefix = lists.subrange(0, k as int);
            assert(lists.subrange(0, k + 1) == prefix.push(lists[k as int]));
            assert(prefix.push(lists[k as int]).map_values(|v: Vec<String>| v@)
                == prefix.map_values(|v: Vec<String>| v@).push(lists[k as int]@));
            prefix.map_values(|v: Vec<String>| v@).lemma_flatten_push(lists[k as int]@);
        }
    }
    proof {
        assert(lists.subrange(0, lists.len() as int) == lists);
    }
    Tags { tags }
}

} // verus!
