use realworld_views::entity::{ArticleSummary, CommentSummary, Timestamp};
use realworld_views::relation::{
    check_if_favorited, check_if_following, resolve_article_batch, resolve_article_flags,
    resolve_comment_batch, resolve_comment_flags, resolve_profile_flags, RelationSet, ViewFlags,
};

fn ts(secs: i64) -> Timestamp {
    Timestamp { unix_seconds: secs, nanos: 0, offset_seconds: 0 }
}

fn article(id: &str, author: &str) -> ArticleSummary {
    ArticleSummary {
        id: id.to_string(),
        author_id: author.to_string(),
        slug: format!("slug-{}", id),
        title: "t".to_string(),
        description: "d".to_string(),
        body: "b".to_string(),
        tag_list: vec![],
        created_at: ts(1),
        updated_at: ts(2),
    }
}

fn comment(id: &str, author: &str) -> CommentSummary {
    CommentSummary {
        id: id.to_string(),
        article_id: "A1".to_string(),
        author_id: author.to_string(),
        body: "c".to_string(),
        created_at: ts(1),
        updated_at: ts(1),
    }
}

fn relations(follows: &[&str], favorites: &[&str]) -> RelationSet {
    RelationSet {
        followed_user_ids: follows.iter().map(|s| s.to_string()).collect(),
        favorited_article_ids: favorites.iter().map(|s| s.to_string()).collect(),
    }
}

#[test]
fn followed_author_scenario() {
    let r = relations(&["U2"], &[]);
    let flags = resolve_article_flags(&article("A1", "U2"), Some(&r));
    assert_eq!(flags, ViewFlags { following: true, favorited: false });
}

#[test]
fn anonymous_caller_scenario() {
    let flags = resolve_article_flags(&article("A1", "U2"), None);
    assert_eq!(flags, ViewFlags { following: false, favorited: false });
}

#[test]
fn unfollowed_author_is_not_following() {
    let r = relations(&["U3", "U4"], &["A1"]);
    let flags = resolve_article_flags(&article("A1", "U2"), Some(&r));
    assert!(!flags.following);
    assert!(flags.favorited);
}

#[test]
fn followed_author_among_many() {
    let r = relations(&["U3", "U4", "U2"], &[]);
    assert!(resolve_article_flags(&article("A9", "U2"), Some(&r)).following);
}

#[test]
fn anonymous_sees_no_flags_even_for_favorites() {
    assert_eq!(
        resolve_article_flags(&article("A1", "U1"), None),
        ViewFlags { following: false, favorited: false }
    );
}

#[test]
fn resolving_twice_gives_same_flags() {
    let r = relations(&["U2"], &["A1"]);
    let a = article("A1", "U2");
    let first = resolve_article_flags(&a, Some(&r));
    let second = resolve_article_flags(&a, Some(&r));
    assert_eq!(first, second);
    assert_eq!(first, ViewFlags { following: true, favorited: true });
}

#[test]
fn shuffled_batch_gives_same_flags_per_article() {
    let r = relations(&["U2"], &["A3"]);
    let batch = vec![article("A1", "U2"), article("A2", "U5"), article("A3", "U6")];
    let shuffled = vec![batch[2].clone(), batch[0].clone(), batch[1].clone()];
    let out = resolve_article_batch(&batch, Some(&r));
    let out_shuffled = resolve_article_batch(&shuffled, Some(&r));
    assert_eq!(out.len(), 3);
    assert_eq!(out[0], ViewFlags { following: true, favorited: false });
    assert_eq!(out[1], ViewFlags { following: false, favorited: false });
    assert_eq!(out[2], ViewFlags { following: false, favorited: true });
    assert_eq!(out_shuffled, vec![out[2], out[0], out[1]]);
}

#[test]
fn empty_batch_gives_no_flags() {
    let r = relations(&["U2"], &[]);
    assert!(resolve_article_batch(&[], Some(&r)).is_empty());
}

#[test]
fn empty_relation_sets_follow_nobody() {
    let r = relations(&[], &[]);
    assert_eq!(
        resolve_article_flags(&article("A1", "U2"), Some(&r)),
        ViewFlags { following: false, favorited: false }
    );
}

#[test]
fn comment_flags_never_favorited() {
    let r = relations(&["U2"], &["C1"]);
    assert_eq!(
        resolve_comment_flags(&comment("C1", "U2"), Some(&r)),
        ViewFlags { following: true, favorited: false }
    );
    assert_eq!(
        resolve_comment_flags(&comment("C1", "U2"), None),
        ViewFlags { following: false, favorited: false }
    );
    let out = resolve_comment_batch(&[comment("C1", "U3"), comment("C2", "U2")], Some(&r));
    assert_eq!(out, vec![
        ViewFlags { following: false, favorited: false },
        ViewFlags { following: true, favorited: false },
    ]);
}

#[test]
fn profile_following_and_self_follow() {
    let r = relations(&["U1", "U2"], &[]);
    assert!(resolve_profile_flags(&"U2".to_string(), Some(&r)));
    assert!(resolve_profile_flags(&"U1".to_string(), Some(&r)));
    assert!(!resolve_profile_flags(&"U3".to_string(), Some(&r)));
    assert!(!resolve_profile_flags(&"U2".to_string(), None));
}

#[test]
fn membership_checks() {
    let ids = vec!["a".to_string(), "bb".to_string()];
    assert!(check_if_following(&ids, &"bb".to_string()));
    assert!(!check_if_following(&ids, &"b".to_string()));
    assert!(check_if_favorited(&ids, &"a".to_string()));
    assert!(!check_if_favorited(&[], &"a".to_string()));
}
