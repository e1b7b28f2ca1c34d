use realworld_views::auth::{bearer_token, check_claims, session_expiry, AuthUser, MaybeAuthUser};
use realworld_views::edit::{
    check_owner, comment_deletion, compose_article_update, compose_user_update, new_article_record,
    ArticleColumn, NewArticle, NewArticleBody, UpdateArticle, UpdateArticleBody, UpdateUser,
    UpdateUserBody, UserColumn,
};
use realworld_views::error::{check_response_status, ApiError, AppError, DbErr, StoreFailure};

fn no_user_update() -> UpdateUserBody {
    UpdateUserBody { email: None, username: None, password: None, image: None, bio: None }
}

#[test]
fn bearer_header_gives_token() {
    assert_eq!(bearer_token("Bearer abc.def"), Ok("abc.def"));
    assert_eq!(bearer_token("Bearer "), Ok(""));
    assert_eq!(bearer_token("Token abc"), Err(AppError::Unauthorized));
    assert_eq!(bearer_token("bearer abc"), Err(AppError::Unauthorized));
    assert_eq!(bearer_token("Bear"), Err(AppError::Unauthorized));
}

#[test]
fn claims_expiry() {
    assert_eq!(check_claims("U1".to_string(), 100, 100).unwrap().user_id, "U1");
    assert_eq!(check_claims("U1".to_string(), 99, 100).unwrap_err(), AppError::Unauthorized);
    assert_eq!(session_expiry(1_000), 1_000 + 14 * 24 * 3600);
}

#[test]
fn optional_and_required_auth() {
    let u = || AuthUser { user_id: "U1".to_string() };
    assert!(MaybeAuthUser::from_outcome(None).0.is_none());
    assert!(MaybeAuthUser::from_outcome(Some(Err(AppError::Unauthorized))).0.is_none());
    assert_eq!(MaybeAuthUser::from_outcome(Some(Ok(u()))).0.unwrap().user_id, "U1");
    assert_eq!(AuthUser::from_outcome(None).unwrap_err(), AppError::Unauthorized);
    assert_eq!(AuthUser::from_outcome(Some(Ok(u()))).unwrap().user_id, "U1");
}

#[test]
fn error_statuses() {
    assert_eq!(AppError::StoreError(StoreFailure::UniqueKeyViolation).status_code(), 409);
    assert_eq!(AppError::StoreError(StoreFailure::Other).status_code(), 400);
    assert_eq!(AppError::NotFound.status_code(), 404);
    assert_eq!(AppError::Unauthorized.status_code(), 401);
    assert_eq!(AppError::HashingError.status_code(), 500);
    assert_eq!(AppError::from_store_failure(StoreFailure::RecordNotFound), AppError::NotFound);
    assert_eq!(
        AppError::from_store_failure(StoreFailure::Other),
        AppError::StoreError(StoreFailure::Other)
    );
    assert_eq!(AppError::from_db_err(DbErr::Unauthorized), AppError::Unauthorized);
    assert_eq!(AppError::from_db_err(DbErr::NotFound), AppError::NotFound);
    assert_eq!(
        AppError::from_db_err(DbErr::QueryError(StoreFailure::RecordNotFound)),
        AppError::NotFound
    );
}

#[test]
fn response_status_classes() {
    assert_eq!(check_response_status(200), Ok(()));
    assert_eq!(check_response_status(204), Ok(()));
    assert_eq!(check_response_status(404), Err(ApiError::NotFound));
    assert_eq!(check_response_status(500), Err(ApiError::ServerError));
    assert_eq!(check_response_status(301), Err(ApiError::ServerError));
}

#[test]
fn user_update_writes_present_fields_in_order() {
    let update = UpdateUser {
        user: UpdateUserBody {
            password: Some("hash".to_string()),
            email: Some("a@b.c".to_string()),
            bio: Some("hi".to_string()),
            ..no_user_update()
        },
    };
    assert!(!update.is_empty());
    let ws = compose_user_update(update);
    let got: Vec<(UserColumn, String)> = ws.into_iter().map(|w| (w.column, w.value)).collect();
    assert_eq!(got, vec![
        (UserColumn::Email, "a@b.c".to_string()),
        (UserColumn::Bio, "hi".to_string()),
        (UserColumn::Password, "hash".to_string()),
    ]);
    let empty = UpdateUser { user: no_user_update() };
    assert!(empty.is_empty());
    assert!(compose_user_update(empty).is_empty());
}

#[test]
fn article_update_with_title_rewrites_slug() {
    let update = UpdateArticle {
        article: UpdateArticleBody {
            title: Some("Hello, World!".to_string()),
            description: Some("d".to_string()),
            body: None,
        },
    };
    let got: Vec<(ArticleColumn, String)> =
        compose_article_update(update).into_iter().map(|w| (w.column, w.value)).collect();
    assert_eq!(got, vec![
        (ArticleColumn::Slug, "hello-world".to_string()),
        (ArticleColumn::Title, "Hello, World!".to_string()),
        (ArticleColumn::Description, "d".to_string()),
    ]);
    let body_only = UpdateArticle {
        article: UpdateArticleBody { title: None, description: None, body: Some("b".to_string()) },
    };
    let got: Vec<(ArticleColumn, String)> =
        compose_article_update(body_only).into_iter().map(|w| (w.column, w.value)).collect();
    assert_eq!(got, vec![(ArticleColumn::Body, "b".to_string())]);
}

#[test]
fn new_article_gets_slug_from_title() {
    let r = new_article_record(NewArticle {
        article: NewArticleBody {
            title: "My Test String".to_string(),
            description: "d".to_string(),
            body: "b".to_string(),
            tag_list: vec!["x".to_string()],
        },
    });
    assert_eq!(r.slug, "my-test-string");
    assert_eq!(r.title, "My Test String");
    assert_eq!(r.tag_list, vec!["x".to_string()]);
}

#[test]
fn ownership_checks() {
    assert_eq!(check_owner(&"U1".to_string(), &"U1".to_string()), Ok(()));
    assert_eq!(check_owner(&"U1".to_string(), &"U2".to_string()), Err(DbErr::Unauthorized));
    let me = "U1".to_string();
    let other = "U2".to_string();
    assert_eq!(comment_deletion(None, &me), Ok(false));
    assert_eq!(comment_deletion(Some(&me), &me), Ok(true));
    assert_eq!(comment_deletion(Some(&other), &me), Err(DbErr::Unauthorized));
}
