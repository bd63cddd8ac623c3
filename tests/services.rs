use std::sync::Arc;

use user_di::{
    AppModule, DatabaseConnection, DatabaseConnectionImpl, DatabaseConnectionImplParameters,
    Error, MockUserRepository, User, UserRepository, UserRepositoryImpl, UserService,
    UserServiceImpl,
};
use user_di::repository::lookup_after_connect;

fn plain_service(descriptor: &str) -> UserServiceImpl<UserRepositoryImpl<DatabaseConnectionImpl>> {
    let connection = Arc::new(DatabaseConnectionImpl::new(descriptor.to_owned()));
    UserServiceImpl::new(Arc::new(UserRepositoryImpl::new(connection)))
}

#[test]
fn test_user_service() {
    let mock_user_repository = MockUserRepository::new(|id: String| {
        Ok(Some(User {
            name: format!("mock_user_{}", id),
        }))
    });

    let user_service = UserServiceImpl::new(Arc::new(mock_user_repository));
    let actual = user_service.find_user("1".to_owned()).unwrap();

    let expected = Some(User {
        name: "mock_user_1".to_owned(),
    });

    assert_eq!(actual, expected);
}

#[test]
fn service_hands_on_stand_in_error() {
    let repository = MockUserRepository::new(|_id: String| Err(Error::Connection("down".to_owned())));
    let service = UserServiceImpl::new(Arc::new(repository));
    assert_eq!(
        service.find_user("7".to_owned()),
        Err(Error::Connection("down".to_owned()))
    );
}

#[test]
fn service_hands_on_stand_in_absence() {
    let repository = MockUserRepository::new(|_id: String| Ok(None));
    let service = UserServiceImpl::new(Arc::new(repository));
    assert_eq!(service.find_user("missing".to_owned()), Ok(None));
}

#[test]
fn plain_connection_connects() {
    let connection = DatabaseConnectionImpl::new("D1".to_owned());
    assert_eq!(connection.connect(), Ok(()));
    assert_eq!(connection.connection_string(), "D1");
}

#[test]
fn connect_line_names_descriptor() {
    let connection = DatabaseConnectionImpl::new("D1".to_owned());
    assert_eq!(connection.connect_line(), "connect: D1");
}

#[test]
fn plain_repository_finds_test_user() {
    let connection = Arc::new(DatabaseConnectionImpl::new("D1".to_owned()));
    let repository = UserRepositoryImpl::new(connection);
    assert_eq!(
        repository.find_user("id001".to_owned()),
        Ok(Some(User { name: "test_user_id001".to_owned() }))
    );
    assert_eq!(
        repository.find_user(String::new()),
        Ok(Some(User { name: "test_user_".to_owned() }))
    );
}

#[test]
fn lookup_after_failed_connect_passes_error_on() {
    let r = lookup_after_connect(Err(Error::Connection("refused".to_owned())), "id001".to_owned());
    assert_eq!(r, Err(Error::Connection("refused".to_owned())));
}

#[test]
fn lookup_after_connect_names_user_after_key() {
    let r = lookup_after_connect(Ok(()), "abc".to_owned());
    assert_eq!(r, Ok(Some(User { name: "test_user_abc".to_owned() })));
}

#[test]
fn update_is_not_implemented() {
    let connection = Arc::new(DatabaseConnectionImpl::new("D1".to_owned()));
    let repository = UserRepositoryImpl::new(connection);
    let user = User { name: "someone".to_owned() };
    assert_eq!(repository.update(user), Err(Error::NotImplemented));
}

#[test]
fn stand_in_update_is_not_implemented() {
    let repository = MockUserRepository::new(|_id: String| Ok(None));
    let user = User { name: "someone".to_owned() };
    assert_eq!(repository.update(user), Err(Error::NotImplemented));
}

#[test]
fn deactivate_user_is_not_implemented() {
    let service = plain_service("D1");
    assert_eq!(service.deactivate_user("id001".to_owned()), Err(Error::NotImplemented));
}

#[test]
fn find_user_twice_gives_equal_results() {
    let service = plain_service("D1");
    let first = service.find_user("id042".to_owned());
    let second = service.find_user("id042".to_owned());
    assert_eq!(first, second);
    assert_eq!(first, Ok(Some(User { name: "test_user_id042".to_owned() })));
}

#[test]
fn composition_root_end_to_end() {
    let module = AppModule::builder()
        .with_component_parameters(DatabaseConnectionImplParameters {
            connection_string: "D1".to_owned(),
        })
        .build()
        .unwrap();
    assert_eq!(module.resolve_connection().connect_line(), "connect: D1");
    let user_service = module.resolve_ref();
    let user = user_service.find_user("id001".to_owned()).unwrap();
    assert_eq!(user, Some(User { name: "test_user_id001".to_owned() }));
}

#[test]
fn composition_root_shares_one_connection() {
    let module = AppModule::builder()
        .with_component_parameters(DatabaseConnectionImplParameters {
            connection_string: "D2".to_owned(),
        })
        .build()
        .unwrap();
    assert_eq!(module.resolve_connection().connection_string(), "D2");
    assert_eq!(
        module.resolve_repository().find_user("x".to_owned()),
        Ok(Some(User { name: "test_user_x".to_owned() }))
    );
}

#[test]
fn composition_root_without_descriptor_fails() {
    let r = AppModule::builder().build();
    assert!(matches!(r, Err(Error::MissingConfiguration)));
}

#[test]
fn later_parameters_replace_earlier() {
    let module = AppModule::builder()
        .with_component_parameters(DatabaseConnectionImplParameters {
            connection_string: "first".to_owned(),
        })
        .with_component_parameters(DatabaseConnectionImplParameters {
            connection_string: "second".to_owned(),
        })
        .build()
        .unwrap();
    assert_eq!(module.resolve_connection().connect_line(), "connect: second");
}
