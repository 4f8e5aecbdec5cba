use rsflow::models::User;
use rsflow::models::UserName;
use rsflow::repositories::InMemoryUserRepository;
use rsflow::store::StoreError;
use rsflow::store::StoreMap;

#[test]
fn crud_flow() {
    let repo = InMemoryUserRepository::new();
    let user = User::new("Bob", "bob@example.com").unwrap();

    let created = repo.create_user(user.clone()).unwrap();
    assert_eq!(created.name.value(), "Bob");

    let fetched = repo.get_user_by_id(&user.id.value()).unwrap();
    assert_eq!(fetched.email.value(), "bob@example.com");

    let updated_user = User {
        name: UserName::new("Bobby").unwrap(),
        ..user.clone()
    };
    repo.update_user(updated_user.clone()).unwrap();

    let after_update = repo.get_user_by_id(&user.id.value()).unwrap();
    assert_eq!(after_update.name.value(), "Bobby");

    repo.delete_user(&user.id.value()).unwrap();
    assert!(repo.get_user_by_id(&user.id.value()).is_err());
}

#[test]
fn create_then_get_returns_identical_fields() {
    let repo = InMemoryUserRepository::new();
    let user = User::new("Carol", "carol@example.com").unwrap();
    let id = user.id.value();
    repo.create_user(user).unwrap();
    let got = repo.get_user_by_id(&id).unwrap();
    assert_eq!(got.name.value(), "Carol");
    assert_eq!(got.email.value(), "carol@example.com");
    assert_eq!(got.id.value(), id);
}

#[test]
fn duplicate_id_create_fails_and_keeps_first() {
    let mut map = StoreMap::<User>::new();
    let first = User::new("First", "first@example.com").unwrap();
    let second = User {
        id: first.id,
        name: UserName::new("Second").unwrap(),
        email: first.email.clone(),
    };
    map.create(first.clone()).unwrap();
    let r = map.create(second);
    assert_eq!(r.unwrap_err(), StoreError::AlreadyExists);
    assert_eq!(map.len(), 1);
    let kept = map.get(first.id.as_u128()).unwrap();
    assert_eq!(kept.name.value(), "First");
}

#[test]
fn update_absent_fails_and_leaves_store_unchanged() {
    let mut map = StoreMap::<User>::new();
    let present = User::new("Here", "here@example.com").unwrap();
    map.create(present.clone()).unwrap();

    let absent = User::new("Ghost", "ghost@example.com").unwrap();
    let r = map.update(absent);
    assert_eq!(r.unwrap_err(), StoreError::NotFound);
    assert_eq!(map.len(), 1);
    let kept = map.get(present.id.as_u128()).unwrap();
    assert_eq!(kept.name.value(), "Here");
    assert_eq!(kept.email.value(), "here@example.com");
}

#[test]
fn delete_absent_fails_delete_present_removes() {
    let mut map = StoreMap::<User>::new();
    let user = User::new("Dana", "dana@example.com").unwrap();
    let stranger = User::new("Stray", "stray@example.com").unwrap();
    map.create(user.clone()).unwrap();

    assert_eq!(
        map.delete(stranger.id.as_u128()).unwrap_err(),
        StoreError::NotFound
    );
    assert_eq!(map.len(), 1);

    map.delete(user.id.as_u128()).unwrap();
    assert!(map.get(user.id.as_u128()).is_none());
    assert_eq!(map.len(), 0);
}

#[test]
fn distinct_creates_all_land_in_get_all() {
    let repo = InMemoryUserRepository::new();
    let n = 5;
    let mut ids = Vec::new();
    for i in 0..n {
        let user = User::new(&format!("User {}", i), &format!("u{}@example.com", i)).unwrap();
        ids.push(user.id.value());
        repo.create_user(user).unwrap();
    }
    let all = repo.get_all_users().unwrap();
    assert_eq!(all.len(), n);
    for id in &ids {
        assert!(repo.get_user_by_id(id).is_ok());
    }
}

#[test]
fn get_by_email_finds_user() {
    let repo = InMemoryUserRepository::new();
    repo.create_user(User::new("Eve", "eve@example.com").unwrap())
        .unwrap();
    repo.create_user(User::new("Frank", "frank@example.com").unwrap())
        .unwrap();
    let eve = repo.get_user_by_email("eve@example.com").unwrap();
    assert_eq!(eve.name.value(), "Eve");
    assert!(repo.get_user_by_email("nobody@example.com").is_err());
}

#[test]
fn snapshot_copies_every_entry() {
    let mut map = StoreMap::<User>::new();
    map.create(User::new("A", "a@x.com").unwrap()).unwrap();
    map.create(User::new("B", "b@x.com").unwrap()).unwrap();
    let snap = map.snapshot();
    assert_eq!(snap.len(), 2);
    assert_eq!(snap[0].name.value(), "A");
    assert_eq!(snap[1].name.value(), "B");
}
