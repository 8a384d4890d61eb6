use robloxapi::users::{FriendsTraversal, User, UserBuilder, UserKey};

fn blank_user() -> User {
    User {
        id: None,
        username: None,
        avatarfinal: None,
        avataruri: None,
        created: None,
        description: None,
        isbanned: None,
        isonline: None,
    }
}

#[test]
fn user_keys() {
    assert!(matches!(242872495u64.key(), UserKey::ById(242872495)));
    match "builderman".to_string().key() {
        UserKey::ByName(name) => assert_eq!(name, "builderman"),
        _ => panic!("a string names a user by name"),
    }
}

/// The merged record takes presence and avatar fields from the legacy
/// endpoint and the rest from the detail endpoint.
#[test]
fn merged_user_combines_both_records() {
    let base = User {
        username: Some("builderman".to_string()),
        avatarfinal: Some(true),
        avataruri: Some("https://a/avatar".to_string()),
        isonline: Some(true),
        created: Some("ignored".to_string()),
        ..blank_user()
    };
    let detail = User {
        username: Some("ignored".to_string()),
        created: Some("2006-03-08".to_string()),
        description: Some("hello".to_string()),
        isbanned: Some(false),
        ..blank_user()
    };
    let merged = User::merged(156, base, detail);
    assert_eq!(merged.id, Some(156));
    assert_eq!(merged.username.as_deref(), Some("builderman"));
    assert_eq!(merged.avatarfinal, Some(true));
    assert_eq!(merged.avataruri.as_deref(), Some("https://a/avatar"));
    assert_eq!(merged.isonline, Some(true));
    assert_eq!(merged.created.as_deref(), Some("2006-03-08"));
    assert_eq!(merged.description.as_deref(), Some("hello"));
    assert_eq!(merged.isbanned, Some(false));
}

#[test]
fn user_display_form() {
    let user = User {
        id: Some(156),
        username: Some("builderman".to_string()),
        created: Some("2006-03-08".to_string()),
        isonline: Some(true),
        isbanned: Some(false),
        ..blank_user()
    };
    assert_eq!(
        user.describe(),
        "User(id=156, username=builderman, created=2006-03-08, isonline=true, isbanned=false)"
    );
}

#[test]
fn user_display_defaults() {
    let user = User { id: Some(156), ..blank_user() };
    assert_eq!(
        user.describe(),
        "User(id=156, username=unknown, created=unknown, isonline=false, isbanned=false)"
    );
}

fn named(n: u64) -> User {
    User { id: Some(n), ..blank_user() }
}

/// The friends list pages by number from one and stops at the first empty
/// page fetched after the first.
#[test]
fn friends_pagination_stops_on_empty_page() {
    let mut t = FriendsTraversal::new(156);
    assert_eq!(t.current_url(), "https://api.roblox.com/users/156/friends?page=1");

    assert!(t.step(vec![named(1), named(2)]));
    assert_eq!(t.page, 2);
    assert_eq!(t.current_url(), "https://api.roblox.com/users/156/friends?page=2");

    assert!(t.step(vec![named(3)]));
    assert_eq!(t.page, 3);

    assert!(!t.step(vec![]));
    assert!(t.done);
    let ids: Vec<Option<u64>> = t.friends.iter().map(|u| u.id).collect();
    assert_eq!(ids, vec![Some(1), Some(2), Some(3)]);
}

/// The first page is accumulated even when empty; only a later empty page
/// ends the traversal.
#[test]
fn friends_first_page_always_consumed() {
    let mut t = FriendsTraversal::new(156);
    assert!(t.step(vec![]));
    assert_eq!(t.page, 2);
    assert!(!t.done);
    assert!(!t.step(vec![]));
    assert!(t.done);
    assert!(t.friends.is_empty());
}
