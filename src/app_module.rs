use vstd::prelude::*;

use std::sync::Arc;

use crate::connection::DatabaseConnectionImpl;
use crate::error::Error;
use crate::repository::{lemma_plain_lookup_finds_test_user, UserRepositoryImpl};
use crate::service::{UserService, UserServiceImpl};
use crate::user::{lookup_view, User};

verus! {

/// The repository as the composition root wires it.
pub type AppUserRepository = UserRepositoryImpl<DatabaseConnectionImpl>;

/// The service as the composition root wires it.
pub type AppUserService = UserServiceImpl<AppUserRepository>;

/// Relies on `Arc::clone`: the new pointer refers to the same allocation, so
/// it reaches the same value.
#[verifier::external_body]
fn share<T>(a: &Arc<T>) -> (r: Arc<T>)
    ensures
        *r == **a,
{
    Arc::clone(a)
}

/// The settings that the connection provider is built from.
pub struct DatabaseConnectionImplParameters {
    pub connection_string: String,
}

/// Collects the composition root's settings before the graph is built.
pub struct AppModuleBuilder {
    connection_parameters: Option<DatabaseConnectionImplParameters>,
}

impl AppModuleBuilder {
    /// The connection string given so far, if any.
    pub closed spec fn connection_setting(&self) -> Option<Seq<char>> {
        match self.connection_parameters {
            Some(p) => Some(p.connection_string@),
            None => None,
        }
    }

    /// Sets the connection provider's parameters, replacing any given before.
    pub fn with_component_parameters(self, parameters: DatabaseConnectionImplParameters) -> (r:
        Self)
        ensures
            r.connection_setting() == Some(parameters.connection_string@),
    {
        AppModuleBuilder { connection_parameters: Some(parameters) }
    }

    /// Builds the whole graph once, or fails without building any of it when
    /// the connection string is missing.
    pub fn build(self) -> (r: Result<AppModule, Error>)
        ensures
            match self.connection_setting() {
                None => r == Err::<AppModule, Error>(Error::MissingConfiguration),
                Some(s) => r matches Ok(m) && m.descriptor() == s,
            },
    {
        match self.connection_parameters {
            None => Err(Error::MissingConfiguration),
            Some(parameters) => {
                let connection = Arc::new(
                    DatabaseConnectionImpl::new(parameters.connection_string),
                );
                let user_repository = Arc::new(UserRepositoryImpl::new(share(&connection)));
                let user_service = Arc::new(UserServiceImpl::new(share(&user_repository)));
                Ok(AppModule { connection, user_repository, user_service })
            },
        }
    }
}

/// The built dependency graph: one connection provider, one repository over
/// it and one service over that, each made once and shared.
pub struct AppModule {
    connection: Arc<DatabaseConnectionImpl>,
    user_repository: Arc<AppUserRepository>,
    user_service: Arc<AppUserService>,
}

impl AppModule {
    /// Each component holds the very instance that the root hands out.
    #[verifier::type_invariant]
    spec fn wired(&self) -> bool {
        &&& (*self.user_repository).connection() == *self.connection
        &&& (*self.user_service).repository() == *self.user_repository
    }

    /// The connection string that the graph was built with.
    pub closed spec fn descriptor(&self) -> Seq<char> {
        (*self.connection).descriptor()
    }

    pub fn builder() -> (r: AppModuleBuilder)
        ensures
            r.connection_setting() == None::<Seq<char>>,
    {
        AppModuleBuilder { connection_parameters: None }
    }

    pub fn resolve_connection(&self) -> (r: &DatabaseConnectionImpl)
        ensures
            r.descriptor() == self.descriptor(),
    {
        &self.connection
    }

    pub fn resolve_repository(&self) -> (r: &AppUserRepository)
        ensures
            r.connection().descriptor() == self.descriptor(),
    {
        proof {
            use_type_invariant(self);
        }
        &self.user_repository
    }

    /// The top-level service, over the repository and connection of this graph.
    pub fn resolve_ref(&self) -> (r: &AppUserService)
        ensures
            r.repository().connection().descriptor() == self.descriptor(),
    {
        proof {
            use_type_invariant(self);
        }
        &self.user_service
    }
}

/// Nothing is cached or mutated, so looking up the same key twice through the
/// wired service gives equal results.
pub proof fn lemma_find_user_repeatable(
    service: AppUserService,
    id: String,
    r1: Result<Option<User>, Error>,
    r2: Result<Option<User>, Error>,
)
    requires
        service.find_outcome(id, r1),
        service.find_outcome(id, r2),
    ensures
        lookup_view(r1) == lookup_view(r2),
{
    lemma_plain_lookup_finds_test_user(service.repository(), id, r1);
    lemma_plain_lookup_finds_test_user(service.repository(), id, r2);
}

} // verus!
