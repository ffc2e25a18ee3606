use identity::model::{GRACE_PERIOD_SECS, UserRegisteredEvent, has_user_record_expired};
use identity::profile::{
    MemoryProfilesRepository, Profile, ProfileError, ProfilesRepository, Usecases, transformProfileDataType,
};
use identity::text::{decimal_text, join};

#[test]
fn decimal_rendering() {
    assert_eq!(decimal_text(0), "0");
    assert_eq!(decimal_text(7), "7");
    assert_eq!(decimal_text(10), "10");
    assert_eq!(decimal_text(123456), "123456");
    assert_eq!(decimal_text(u64::MAX), "18446744073709551615");
}

#[test]
fn join_with_separator() {
    assert_eq!(join(&vec![], " | "), "");
    assert_eq!(join(&vec!["a".to_string()], " | "), "a");
    assert_eq!(join(&vec!["a".to_string(), "b".to_string(), "c".to_string()], " | "), "a | b | c");
}

#[test]
fn grace_period_boundary() {
    assert_eq!(GRACE_PERIOD_SECS, 300);
    assert!(!has_user_record_expired(1000, 1300));
    assert!(has_user_record_expired(1000, 1301));
    assert!(!has_user_record_expired(1000, 900));
    assert!(has_user_record_expired(i64::MIN, i64::MAX));
}

#[test]
fn profile_transformation_keeps_fields() {
    let p = Profile {
        id: "profiles:1".to_string(),
        userId: "users:3".to_string(),
        name: "Ann".to_string(),
        username: "ann".to_string(),
    };
    let m = transformProfileDataType(&p);
    assert_eq!(m.id, "profiles:1");
    assert_eq!(m.user_id, "users:3");
    assert_eq!(m.name, "Ann");
    assert_eq!(m.username, "ann");
}

fn event(user_id: &str, name: &str, username: &str) -> UserRegisteredEvent {
    UserRegisteredEvent { user_id: user_id.to_string(), name: name.to_string(), username: username.to_string() }
}

#[test]
fn profiles_created_searched_and_fetched() {
    let mut uc = Usecases::new(MemoryProfilesRepository::new());
    uc.createProfile(&event("users:0", "Ann", "ann"));
    uc.createProfile(&event("users:1", "Bob", "bobby"));
    uc.createProfile(&event("users:2", "bobby", "rob"));
    let found = uc.searchProfiles("bobby");
    assert_eq!(found.len(), 2);
    assert_eq!(found[0].userId, "users:1");
    assert_eq!(found[1].userId, "users:2");
    assert!(uc.searchProfiles("nobody").is_empty());
    let p = uc.getProfileByUserId("users:0").ok().unwrap();
    assert_eq!(p.id, "profiles:0");
    assert_eq!(p.name, "Ann");
    assert_eq!(uc.getProfileByUserId("users:9").err(), Some(ProfileError::NotFound));
}

#[test]
fn profile_repository_directly() {
    let mut repo = MemoryProfilesRepository::new();
    repo.createProfile(&event("users:5", "Cy", "cy"));
    assert_eq!(repo.getProfileByUserId("users:5").ok().unwrap().username, "cy");
}
