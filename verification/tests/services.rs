use std::sync::Arc;

use rsflow::errors::DatabaseError;
use rsflow::models::Group;
use rsflow::models::User;
use rsflow::models::UserGroup;
use rsflow::repositories::InMemoryGroupRepository;
use rsflow::repositories::InMemoryUserGroupRepository;
use rsflow::repositories::InMemoryUserRepository;
use rsflow::services::GroupService;
use rsflow::services::UserGroupService;
use rsflow::services::UserService;
use rsflow::services::create_user_group_checked;
use rsflow::store::StoreMap;

fn services() -> (Arc<UserService>, Arc<GroupService>, UserGroupService) {
    let users = Arc::new(UserService::new(InMemoryUserRepository::new()));
    let groups = Arc::new(GroupService::new(InMemoryGroupRepository::new()));
    let user_groups = UserGroupService::new(
        InMemoryUserGroupRepository::new(),
        users.clone(),
        groups.clone(),
    );
    (users, groups, user_groups)
}

#[test]
fn create_user_delegates_to_repo() {
    let repo = InMemoryUserRepository::new();
    let user = User::new("Alice", "alice@example.com").unwrap();

    let service = UserService::new(repo);
    let created = service.create_user(user.clone()).unwrap();
    assert_eq!(created.email.value(), user.email.value());
}

#[test]
fn user_group_create_checks_user_exists() {
    let (_users, groups, user_groups) = services();
    let group = Group::new("Team", "The team").unwrap();
    groups.create_group(group.clone()).unwrap();

    let link = UserGroup::new(&User::new("X", "x@y.z").unwrap().id.value(), &group.id.value())
        .unwrap();
    let r = user_groups.create_user_group(link);
    assert_eq!(r.unwrap_err(), DatabaseError::UserNotFound);
    assert_eq!(user_groups.get_all_user_groups().unwrap().len(), 0);
}

#[test]
fn user_group_create_checks_group_exists() {
    let (users, _groups, user_groups) = services();
    let user = User::new("Alice", "alice@example.com").unwrap();
    users.create_user(user.clone()).unwrap();

    let link = UserGroup::new(&user.id.value(), &Group::new("G", "D").unwrap().id.value())
        .unwrap();
    let r = user_groups.create_user_group(link);
    assert_eq!(r.unwrap_err(), DatabaseError::GroupNotFound);
    assert_eq!(user_groups.get_all_user_groups().unwrap().len(), 0);
}

#[test]
fn user_group_create_succeeds_when_both_exist() {
    let (users, groups, user_groups) = services();
    let user = User::new("Alice", "alice@example.com").unwrap();
    let group = Group::new("Team", "The team").unwrap();
    users.create_user(user.clone()).unwrap();
    groups.create_group(group.clone()).unwrap();

    let link = UserGroup::new(&user.id.value(), &group.id.value()).unwrap();
    let created = user_groups.create_user_group(link).unwrap();
    assert_eq!(created.user_id.value(), user.id.value());
    assert_eq!(created.group_id.value(), group.id.value());
    assert_eq!(user_groups.get_all_user_groups().unwrap().len(), 1);
}

#[test]
fn checked_create_fails_without_user_and_leaves_links_alone() {
    let users = StoreMap::<User>::new();
    let mut groups = StoreMap::<Group>::new();
    let mut links = StoreMap::<UserGroup>::new();

    let group = Group::new("Team", "The team").unwrap();
    groups.create(group.clone()).unwrap();

    let user = User::new("Alice", "alice@example.com").unwrap();
    let link = UserGroup::new(&user.id.value(), &group.id.value()).unwrap();

    let r = create_user_group_checked(&users, &groups, &mut links, link);
    assert_eq!(r.unwrap_err(), DatabaseError::UserNotFound);
    assert_eq!(links.len(), 0);
}

#[test]
fn checked_create_succeeds_when_both_exist() {
    let mut users = StoreMap::<User>::new();
    let mut groups = StoreMap::<Group>::new();
    let mut links = StoreMap::<UserGroup>::new();

    let user = User::new("Alice", "alice@example.com").unwrap();
    let group = Group::new("Team", "The team").unwrap();
    users.create(user.clone()).unwrap();
    groups.create(group.clone()).unwrap();

    let link = UserGroup::new(&user.id.value(), &group.id.value()).unwrap();
    let created = create_user_group_checked(&users, &groups, &mut links, link).unwrap();
    assert_eq!(created.user_id.value(), user.id.value());
    assert_eq!(created.group_id.value(), group.id.value());
    assert_eq!(links.len(), 1);
}

#[test]
fn group_service_secondary_lookups() {
    let groups = GroupService::new(InMemoryGroupRepository::new());
    let g1 = Group::new("Alpha", "First group").unwrap();
    let g2 = Group::new("Beta", "Second group").unwrap();
    groups.create_group(g1.clone()).unwrap();
    groups.create_group(g2.clone()).unwrap();

    assert_eq!(
        groups.get_group_by_name("Beta").unwrap().id.value(),
        g2.id.value()
    );
    assert_eq!(
        groups
            .get_group_by_description("First group")
            .unwrap()
            .id
            .value(),
        g1.id.value()
    );
    assert_eq!(
        groups.get_group_by_name("Gamma").unwrap_err(),
        DatabaseError::GroupNotFound
    );
}

#[test]
fn user_group_filters_by_user_and_group() {
    let (users, groups, user_groups) = services();
    let alice = User::new("Alice", "alice@example.com").unwrap();
    let bob = User::new("Bob", "bob@example.com").unwrap();
    let team = Group::new("Team", "The team").unwrap();
    users.create_user(alice.clone()).unwrap();
    users.create_user(bob.clone()).unwrap();
    groups.create_group(team.clone()).unwrap();

    let l1 = UserGroup::new(&alice.id.value(), &team.id.value()).unwrap();
    let l2 = UserGroup::new(&bob.id.value(), &team.id.value()).unwrap();
    user_groups.create_user_group(l1).unwrap();
    user_groups.create_user_group(l2).unwrap();

    let of_alice = user_groups
        .get_user_group_by_user_id(&alice.id.value())
        .unwrap();
    assert_eq!(of_alice.len(), 1);
    assert_eq!(of_alice[0].user_id.value(), alice.id.value());

    let of_team = user_groups
        .get_user_group_by_group_id(&team.id.value())
        .unwrap();
    assert_eq!(of_team.len(), 2);

    let of_nobody = user_groups
        .get_user_group_by_user_id("not-a-uuid")
        .unwrap();
    assert_eq!(of_nobody.len(), 0);
}

#[test]
fn user_group_update_and_delete() {
    let (users, groups, user_groups) = services();
    let user = User::new("Alice", "alice@example.com").unwrap();
    let group = Group::new("Team", "The team").unwrap();
    users.create_user(user.clone()).unwrap();
    groups.create_group(group.clone()).unwrap();

    let link = UserGroup::new(&user.id.value(), &group.id.value()).unwrap();
    let created = user_groups.create_user_group(link).unwrap();

    let r = user_groups.update_user_group(created);
    assert!(r.is_ok());

    assert_eq!(
        user_groups.delete_user_group("not-a-uuid").unwrap_err(),
        DatabaseError::NotFoundError
    );
    user_groups.delete_user_group(&created.id.value()).unwrap();
    assert_eq!(
        user_groups
            .get_user_group_by_id(&created.id.value())
            .unwrap_err(),
        DatabaseError::NotFoundError
    );
}

#[test]
fn duplicate_user_create_reports_already_exists() {
    let users = UserService::new(InMemoryUserRepository::new());
    let user = User::new("Alice", "alice@example.com").unwrap();
    users.create_user(user.clone()).unwrap();
    assert_eq!(
        users.create_user(user).unwrap_err(),
        DatabaseError::UserAlreadyExists
    );
}

#[test]
fn duplicate_group_create_reports_register_already_exists() {
    let groups = GroupService::new(InMemoryGroupRepository::new());
    let group = Group::new("Team", "The team").unwrap();
    groups.create_group(group.clone()).unwrap();
    assert_eq!(
        groups.create_group(group).unwrap_err(),
        DatabaseError::RegisterAlreadyExists
    );
}
