//! Layered user services wired by constructor injection: a connection
//! provider, a user repository that depends on it, a user service that
//! depends on the repository, and a composition root that builds the graph
//! once and shares each component among its dependents.
pub mod app_module;
pub mod connection;
pub mod error;
pub mod repository;
pub mod service;
pub mod user;

pub use app_module::{
    AppModule, AppModuleBuilder, AppUserRepository, AppUserService,
    DatabaseConnectionImplParameters,
};
pub use connection::{DatabaseConnection, DatabaseConnectionImpl};
pub use error::Error;
pub use repository::{MockUserRepository, UserRepository, UserRepositoryImpl};
pub use service::{UserService, UserServiceImpl};
pub use user::User;
