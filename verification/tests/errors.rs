use rsflow::controllers::UserResponse;
use rsflow::errors::ApiError;
use rsflow::errors::DatabaseError;
use rsflow::errors::ErrorResponse;
use rsflow::models::User;

#[test]
fn database_error_maps_to_status_code() {
    let err = ApiError::database(DatabaseError::UserAlreadyExists);
    assert_eq!(err.status_code(), 409);
}

#[test]
fn status_codes_cover_the_taxonomy() {
    assert_eq!(ApiError::database(DatabaseError::UserNotFound).status_code(), 404);
    assert_eq!(ApiError::database(DatabaseError::GroupNotFound).status_code(), 404);
    assert_eq!(ApiError::database(DatabaseError::NotFoundError).status_code(), 404);
    assert_eq!(
        ApiError::database(DatabaseError::RegisterAlreadyExists).status_code(),
        409
    );
    assert_eq!(ApiError::database(DatabaseError::ConnectionError).status_code(), 500);
    assert_eq!(ApiError::database(DatabaseError::WriteLockError).status_code(), 500);
    assert_eq!(ApiError::database(DatabaseError::ReadLockError).status_code(), 500);
    assert_eq!(ApiError::validation("Name cannot be empty").status_code(), 400);
}

#[test]
fn database_error_messages() {
    assert_eq!(DatabaseError::ConnectionError.message(), "Connection error");
    assert_eq!(DatabaseError::NotFoundError.message(), "Not found error");
    assert_eq!(DatabaseError::UserNotFound.message(), "User not found");
    assert_eq!(DatabaseError::GroupNotFound.message(), "Group not found");
    assert_eq!(DatabaseError::UserAlreadyExists.message(), "User already exists");
    assert_eq!(
        DatabaseError::RegisterAlreadyExists.message(),
        "Register already exists"
    );
    assert_eq!(DatabaseError::WriteLockError.message(), "Write lock error");
    assert_eq!(DatabaseError::ReadLockError.message(), "Read lock error");
}

#[test]
fn api_error_message_passes_through() {
    assert_eq!(
        ApiError::database(DatabaseError::UserNotFound).message(),
        "User not found"
    );
    assert_eq!(ApiError::validation("Email must contain @").message(), "Email must contain @");
}

#[test]
fn error_response_holds_message() {
    let r = ErrorResponse::new("something went wrong");
    assert_eq!(r.value(), "something went wrong");

    let r = ErrorResponse::from_error(DatabaseError::UserNotFound);
    assert_eq!(r.value(), "User not found");
}

#[test]
fn user_response_renders_entity() {
    let user = User::new("Alice", "alice@example.com").unwrap();
    let id = user.id.value();
    let resp = UserResponse::from_user(user);
    assert_eq!(resp.id, id);
    assert_eq!(resp.name, "Alice");
    assert_eq!(resp.email, "alice@example.com");
}
