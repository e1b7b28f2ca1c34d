//! Write requests: the bodies clients send, and what is written for them.

use vstd::prelude::*;
use crate::error::DbErr;

verus! {

#[derive(Clone, Debug)]
pub struct NewUserRequestBody {
    pub username: String,
    pub email: String,
    pub password: String,
}

#[derive(Clone, Debug)]
pub struct NewUserRequest {
    pub user: NewUserRequestBody,
}

#[derive(Clone, Debug)]
pub struct LoginUserBody {
    pub email: String,
    pub password: String,
}

#[derive(Clone, Debug)]
pub struct LoginUser {
    pub user: LoginUserBody,
}

#[derive(Clone, Debug)]
pub struct UpdateUserBody {
    pub email: Option<String>,
    pub username: Option<String>,
    pub password: Option<String>,
    pub image: Option<String>,
    pub bio: Option<String>,
}

#[derive(Clone, Debug)]
pub struct UpdateUser {
    pub user: UpdateUserBody,
}

#[derive(Clone, Debug)]
pub struct NewArticleBody {
    pub title: String,
    pub description: String,
    pub body: String,
    pub tag_list: Vec<String>,
}

#[derive(Clone, Debug)]
pub struct NewArticle {
    pub article: NewArticleBody,
}

#[derive(Clone, Debug)]
pub struct UpdateArticleBody {
    pub title: Option<String>,
    pub description: Option<String>,
    pub body: Option<String>,
}

#[derive(Clone, Debug)]
pub struct UpdateArticle {
    pub article: UpdateArticleBody,
}

#[derive(Clone, Debug)]
pub struct NewCommentBody {
    pub body: String,
}

#[derive(Clone, Debug)]
pub struct NewComment {
    pub comment: NewCommentBody,
}

/// A column of the user table that an update may write.
#[derive(Clone, Copy, Debug, PartialEq, Eq, Structural)]
pub enum UserColumn {
    Email,
    Username,
    Bio,
    Image,
    Password,
}

/// A column of the article table that an update may write.
#[derive(Clone, Copy, Debug, PartialEq, Eq, Structural)]
pub enum ArticleColumn {
    Slug,
    Title,
    Body,
    Description,
}

/// One write of an update: a column and its new value.
#[derive(Clone, Debug)]
pub struct FieldWrite<C> {
    pub column: C,
    pub value: String,
}

/// A new article as it is stored: the request's fields and its slug.
#[derive(Clone, Debug)]
pub struct NewArticleRecord {
    pub slug: String,
    pub title: String,
    pub description: String,
    pub body: String,
    pub tag_list: Vec<String>,
}

/// What `slug::slugify` makes of a title.
pub uninterp spec fn slug_of(title: Seq<char>) -> Seq<char>;

pub open spec fn is_slug_char(c: char) -> bool {
    ('a' <= c && c <= 'z') || ('0' <= c && c <= '9') || c == '-'
}

/// Relies on `slug::slugify`: the slug is a function of the title alone,
/// made of `a-z`, `0-9` and `-` only (as its documentation states).
#[verifier::external_body]
fn slugify(title: &String) -> (r: String)
    ensures
        r@ == slug_of(title@),
        forall|i: int| 0 <= i < r@.len() ==> is_slug_char(#[trigger] r@[i]),
{
    slug::slugify(title)
}

/// The writes of a field update, as (column, value) pairs.
pub open spec fn writes_view<C>(ws: Seq<FieldWrite<C>>) -> Seq<(C, Seq<char>)> {
    ws.map_values(|w: FieldWrite<C>| (w.column, w.value@))
}

pub open spec fn opt_write<C>(column: C, v: Option<String>) -> Seq<(C, Seq<char>)> {
    match v {
        Some(s) => seq![(column, s@)],
        None => Seq::empty(),
    }
}

/// The writes of a user update: each field present, in the order email,
/// username, bio, image, password.
pub open spec fn user_update_writes(u: UpdateUserBody) -> Seq<(UserColumn, Seq<char>)> {
    opt_write(UserColumn::Email, u.email) + opt_write(UserColumn::Username, u.username) + opt_write(
        UserColumn::Bio,
        u.bio,
    ) + opt_write(UserColumn::Image, u.image) + opt_write(UserColumn::Password, u.password)
}

/// The slug write of an article update: present with a new title.
pub open spec fn slug_write(title: Option<String>) -> Seq<(ArticleColumn, Seq<char>)> {
    match title {
        Some(t) => seq![(ArticleColumn::Slug, slug_of(t@))],
        None => Seq::empty(),
    }
}

/// The writes of an article update: a new title also rewrites the slug;
/// then title, body, description, each when present.
pub open spec fn article_update_writes(u: UpdateArticleBody) -> Seq<(ArticleColumn, Seq<char>)> {
    slug_write(u.title) + opt_write(ArticleColumn::Title, u.title) + opt_write(ArticleColumn::Body, u.body) + opt_write(
        ArticleColumn::Description,
        u.description,
    )
}

pub open spec fn is_empty_user_update(u: UpdateUserBody) -> bool {
    &&& u.email is None
    &&& u.username is None
    &&& u.password is None
    &&& u.image is None
    &&& u.bio is None
}

fn push_opt<C: Copy>(ws: &mut Vec<FieldWrite<C>>, column: C, v: Option<String>)
    ensures
        writes_view(final(ws)@) == writes_view(old(ws)@) + opt_write(column, v),
{
    match v {
        Some(s) => {
            ws.push(FieldWrite { column, value: s });
            assert(writes_view(final(ws)@) =~= writes_view(old(ws)@) + opt_write(column, v));
        },
        None => {
            assert(writes_view(final(ws)@) =~= writes_view(old(ws)@) + opt_write(column, v));
        },
    }
}

impl UpdateUser {
    /// An update that sets no field: the handler answers with the current
    /// user instead of writing.
    pub fn is_empty(&self) -> (r: bool)
        ensures
            r == is_empty_user_update(self.user),
    {
        self.user.email.is_none() && self.user.username.is_none() && self.user.password.is_none()
            && self.user.image.is_none() && self.user.bio.is_none()
    }
}

/// The writes of a user update, one per field present.
pub fn compose_user_update(update: UpdateUser) -> (r: Vec<FieldWrite<UserColumn>>)
    ensures
        writes_view(r@) == user_update_writes(update.user),
{
    let u = update.user;
    let mut ws: Vec<FieldWrite<UserColumn>> = Vec::new();
    assert(writes_view(ws@) =~= Seq::empty());
    push_opt(&mut ws, UserColumn::Email, u.email);
    push_opt(&mut ws, UserColumn::Username, u.username);
    push_opt(&mut ws, UserColumn::Bio, u.bio);
    push_opt(&mut ws, UserColumn::Image, u.image);
    push_opt(&mut ws, UserColumn::Password, u.password);
    ws
}

/// The writes of an article update; a new title brings a new slug.
pub fn compose_article_update(update: UpdateArticle) -> (r: Vec<FieldWrite<ArticleColumn>>)
    ensures
        writes_view(r@) == article_update_writes(update.article),
{
    let u = update.article;
    let mut ws: Vec<FieldWrite<ArticleColumn>> = Vec::new();
    match &u.title {
        Some(t) => {
            let s = slugify(t);
            ws.push(FieldWrite { column: ArticleColumn::Slug, value: s });
        },
        None => {},
    }
    assert(writes_view(ws@) =~= slug_write(u.title));
    push_opt(&mut ws, ArticleColumn::Title, u.title);
    push_opt(&mut ws, ArticleColumn::Body, u.body);
    push_opt(&mut ws, ArticleColumn::Description, u.description);
    ws
}

/// The record stored for a new article; its slug comes from its title.
pub fn new_article_record(input: NewArticle) -> (r: NewArticleRecord)
    ensures
        r.slug@ == slug_of(input.article.title@),
        r.title == input.article.title,
        r.description == input.article.description,
        r.body == input.article.body,
        r.tag_list == input.article.tag_list,
{
    let a = input.article;
    let slug = slugify(&a.title);
    NewArticleRecord { slug, title: a.title, description: a.description, body: a.body, tag_list: a.tag_list }
}

/// Only an article's author may change or delete it.
pub fn check_owner(owner_id: &String, user_id: &String) -> (r: Result<(), DbErr>)
    ensures
        r is Ok <==> owner_id@ == user_id@,
        r matches Err(e) ==> e == DbErr::Unauthorized,
{
    if *owner_id != *user_id {
        Err(DbErr::Unauthorized)
    } else {
        Ok(())
    }
}

/// Whether to delete a comment, given its author's id if it exists: a
/// comment of someone else is `Unauthorized`; a missing one is no error and
/// nothing is deleted.
pub fn comment_deletion(comment_author_id: Option<&String>, user_id: &String) -> (r: Result<bool, DbErr>)
    ensures
        comment_author_id is None ==> r == Ok::<bool, DbErr>(false),
        comment_author_id matches Some(a) ==> (a@ == user_id@ ==> r == Ok::<bool, DbErr>(true)),
        comment_author_id matches Some(a) ==> (a@ != user_id@ ==> r == Err::<bool, DbErr>(DbErr::Unauthorized)),
{
    match comment_author_id {
        None => Ok(false),
        Some(a) => {
            if *a != *user_id {
                Err(DbErr::Unauthorized)
            } else {
                Ok(true)
            }
        },
    }
}

} // verus!
