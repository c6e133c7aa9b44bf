use notor::filters::QueryFilter;
use notor::models::{Claims, ErrReply, NewNote, NewTag, NewUser, Tag, UserRole};
use notor::rejections::RejectError;

#[test]
fn role_strings_round_trip() {
    assert_eq!(UserRole::User.as_str(), "user");
    assert_eq!(UserRole::Admin.as_str(), "admin");
    assert!(matches!(
        UserRole::from_str(&"user".to_string()),
        Ok(UserRole::User)
    ));
    assert!(matches!(
        UserRole::from_str(&"admin".to_string()),
        Ok(UserRole::Admin)
    ));
}

#[test]
fn unknown_role_string_rejected() {
    match UserRole::from_str(&"superuser".to_string()) {
        Err(RejectError::InvalidRole(bad)) => assert_eq!(bad, "superuser"),
        other => panic!("expected InvalidRole, got {:?}", other),
    }
    // capitalization matters: roles are lowercase on the wire
    assert!(UserRole::from_str(&"Admin".to_string()).is_err());
}

#[test]
fn claims_expiry_comparison_is_strict() {
    let c = Claims { sub: "a".to_string(), role: "user".to_string(), exp: 100 };
    assert!(!c.is_expired(99));
    assert!(!c.is_expired(100));
    assert!(c.is_expired(101));
}

#[test]
fn claims_equality_is_structural() {
    let a = Claims { sub: "a".to_string(), role: "user".to_string(), exp: 100 };
    let same = Claims { sub: "a".to_string(), role: "user".to_string(), exp: 100 };
    let other_exp = Claims { sub: "a".to_string(), role: "user".to_string(), exp: 101 };
    let other_role = Claims { sub: "a".to_string(), role: "admin".to_string(), exp: 100 };
    let other_sub = Claims { sub: "b".to_string(), role: "user".to_string(), exp: 100 };
    assert!(a.equals(&same));
    assert!(!a.equals(&other_exp));
    assert!(!a.equals(&other_role));
    assert!(!a.equals(&other_sub));
}

#[test]
fn filter_builder_sets_fields() {
    let f = QueryFilter::builder().limit(10).tag(3).build();
    assert_eq!(f.limit, Some(10));
    assert_eq!(f.tag_id, Some(3));

    let empty = QueryFilter::builder().build();
    assert_eq!(empty.limit, None);
    assert_eq!(empty.tag_id, None);

    let tagged = QueryFilter::builder().tag(7).build();
    assert_eq!(tagged.limit, None);
    assert_eq!(tagged.tag_id, Some(7));
}

#[test]
fn err_reply_holds_message() {
    let e = ErrReply::new("not found");
    assert_eq!(e.message, "not found");
}

#[test]
fn plain_records_hold_their_fields() {
    let n = NewNote {
        username: "alice".to_string(),
        title: "shopping".to_string(),
        content: Some("milk".to_string()),
    };
    assert_eq!(n.title, "shopping");

    let t = Tag { id: 1, user_id: 2, name: "errands".to_string() };
    assert_eq!(t.name, "errands");

    let nt = NewTag { name: "errands".to_string(), username: "alice".to_string() };
    assert_eq!(nt.username, "alice");

    let nu = NewUser::new(
        "bob".to_string(),
        "bob@example.com".to_string(),
        "pw".to_string(),
        UserRole::Admin,
    );
    assert_eq!(nu.username, "bob");
    assert_eq!(nu.role, UserRole::Admin);
}
