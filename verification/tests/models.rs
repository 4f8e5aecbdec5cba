use rsflow::ids::GroupId;
use rsflow::ids::UserGroupId;
use rsflow::ids::UserId;
use rsflow::models::Group;
use rsflow::models::GroupDescription;
use rsflow::models::GroupName;
use rsflow::models::User;
use rsflow::models::UserEmail;
use rsflow::models::UserGroup;
use rsflow::models::UserName;

#[test]
fn test_user_id() {
    let user_id = UserId::new();
    assert_eq!(user_id.value().len(), 36);
}

#[test]
fn user_model_test_user_id() {
    let user_id = UserId::new();
    assert_eq!(user_id.value().len(), 36);
}

#[test]
fn test_user_id_from_string_valid() {
    let uuid_string = "550e8400-e29b-41d4-a716-446655440000";
    let user_id = UserId::from_string(uuid_string);
    assert!(user_id.is_ok());
    assert_eq!(user_id.unwrap().value(), uuid_string);
}

#[test]
fn test_user_id_is_uuid_v7() {
    let user_id = UserId::new();
    let is_valid = uuid::Uuid::parse_str(&user_id.value()).is_ok();
    assert_eq!(is_valid, true);
}

#[test]
fn test_user_name() {
    let user_name = UserName::new("John Doe");
    assert_eq!(user_name.is_ok(), true);
}

#[test]
fn user_model_test_user_name() {
    let user_name = UserName::new("John Doe");
    assert_eq!(user_name.is_ok(), true);
}

#[test]
fn test_user_name_empty() {
    let user_name = UserName::new("");
    assert_eq!(user_name.is_err(), true);
}

#[test]
fn user_model_test_user_name_empty() {
    let user_name = UserName::new("");
    assert_eq!(user_name.is_err(), true);
}

#[test]
fn test_user_email() {
    let user_email = UserEmail::new("john.doe@gmail.com");
    assert_eq!(user_email.is_ok(), true);
}

#[test]
fn user_model_test_user_email() {
    let user_email = UserEmail::new("john.doe@gmail.com");
    assert_eq!(user_email.is_ok(), true);
}

#[test]
fn test_user_email_empty() {
    let user_email = UserEmail::new("");
    assert_eq!(user_email.is_err(), true);
}

#[test]
fn user_model_test_user_email_empty() {
    let user_email = UserEmail::new("");
    assert_eq!(user_email.is_err(), true);
}

#[test]
fn test_group_id() {
    let id = GroupId::new();
    assert_eq!(id.value().len(), 36);
}

#[test]
fn test_group_name() {
    let name = GroupName::new("Group 1").unwrap();
    assert_eq!(name.value(), "Group 1");
}

#[test]
fn test_group_name_empty() {
    let name = GroupName::new("");
    assert!(name.is_err());
}

#[test]
fn test_group_description() {
    let description = GroupDescription::new("Description 1").unwrap();
    assert_eq!(description.value(), "Description 1");
}

#[test]
fn test_group_description_empty() {
    let description = GroupDescription::new("");
    assert!(description.is_err());
}

#[test]
fn test_group() {
    let group = Group::new("Group 1", "Description 1").unwrap();
    assert_eq!(group.name.value(), "Group 1");
    assert_eq!(group.description.value(), "Description 1");
}

#[test]
fn test_user_group_id() {
    let id = UserGroupId::new();
    assert_eq!(id.value().len(), 36);
}

#[test]
fn test_user_group() {
    let user_id = UserId::new();
    let group_id = GroupId::new();
    let user_group = UserGroup::new(&user_id.value(), &group_id.value()).unwrap();
    assert_eq!(user_group.user_id.value(), user_id.value());
    assert_eq!(user_group.group_id.value(), group_id.value());
}

#[test]
fn user_new_rejects_blank_name() {
    let r = User::new("", "a@b.com");
    assert!(r.is_err());
    assert_eq!(r.unwrap_err(), "Name cannot be empty");
}

#[test]
fn user_new_rejects_email_without_at() {
    let r = User::new("Alice", "not-an-email");
    assert!(r.is_err());
    assert_eq!(r.unwrap_err(), "Email must contain @");
}

#[test]
fn user_new_rejects_blank_email() {
    let r = User::new("Alice", "   ");
    assert!(r.is_err());
    assert_eq!(r.unwrap_err(), "Email cannot be empty");
}

#[test]
fn user_new_keeps_fields() {
    let u = User::new("Alice", "a@b.com").unwrap();
    assert_eq!(u.name.value(), "Alice");
    assert_eq!(u.email.value(), "a@b.com");
}

#[test]
fn whitespace_only_name_is_rejected() {
    let r = UserName::new(" \t\n ");
    assert!(r.is_err());
}

#[test]
fn user_group_new_rejects_bad_ids() {
    let good = UserId::new().value();
    assert_eq!(
        UserGroup::new("not-a-uuid", &good).unwrap_err(),
        "Invalid UUID string"
    );
    assert_eq!(
        UserGroup::new(&good, "not-a-uuid").unwrap_err(),
        "Invalid UUID string"
    );
}

#[test]
fn id_from_string_rejects_garbage() {
    assert!(UserId::from_string("").is_err());
    assert!(GroupId::from_string("xyz").is_err());
    assert!(UserGroupId::from_string("550e8400").is_err());
}

#[test]
fn user_group_id_from_string_round_trip() {
    let s = "0189f2d2-7c0a-7e00-8000-000000000001";
    let id = UserGroupId::from_string(s).unwrap();
    assert_eq!(id.value(), s);
}
