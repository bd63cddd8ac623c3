use vstd::prelude::*;
use vstd::string::*;

use std::sync::Arc;

use crate::connection::{DatabaseConnection, DatabaseConnectionImpl};
use crate::error::Error;
use crate::user::{found_named, User};

verus! {

/// The name under which the repository reports the user with key `id`.
pub open spec fn test_user_name(id: Seq<char>) -> Seq<char> {
    "test_user_"@ + id
}

/// What a lookup of `id` hands back once the connection step gave `connected`:
/// the connection's error unchanged, or the user named after the key.
pub open spec fn found_after_connect(
    connected: Result<(), Error>,
    id: Seq<char>,
    r: Result<Option<User>, Error>,
) -> bool {
    match connected {
        Ok(()) => found_named(r, test_user_name(id)),
        Err(e) => r == Err::<Option<User>, Error>(e),
    }
}

/// The lookup that follows the connection step, given that step's outcome.
pub fn lookup_after_connect(connected: Result<(), Error>, id: String) -> (r: Result<
    Option<User>,
    Error,
>)
    ensures
        found_after_connect(connected, id@, r),
{
    match connected {
        Ok(()) => {
            let name = String::from_str("test_user_").concat(id.as_str());
            Ok(Some(User { name }))
        },
        Err(e) => Err(e),
    }
}

/// Lookup and mutation of users, over some connection.
pub trait UserRepository {
    /// Whether `r` is an outcome that `find_user(id)` may hand back.
    spec fn find_outcome(&self, id: String, r: Result<Option<User>, Error>) -> bool;

    fn find_user(&self, id: String) -> (r: Result<Option<User>, Error>)
        ensures
            self.find_outcome(id, r),
    ;

    fn update(&self, user: User) -> (r: Result<(), Error>);
}

/// The repository over an injected, shared connection provider.
pub struct UserRepositoryImpl<C> {
    connection: Arc<C>,
}

impl<C: DatabaseConnection> UserRepositoryImpl<C> {
    /// The connection provider this repository was given.
    pub closed spec fn connection(&self) -> C {
        *self.connection
    }

    pub fn new(connection: Arc<C>) -> (r: Self)
        ensures
            r.connection() == *connection,
    {
        UserRepositoryImpl { connection }
    }
}

impl<C: DatabaseConnection> UserRepository for UserRepositoryImpl<C> {
    /// A lookup connects first, then reports what `found_after_connect` gives
    /// for the outcome of that step.
    open spec fn find_outcome(&self, id: String, r: Result<Option<User>, Error>) -> bool {
        exists|c: Result<(), Error>|
            #[trigger] self.connection().connect_outcome(c) && found_after_connect(c, id@, r)
    }

    fn find_user(&self, id: String) -> (r: Result<Option<User>, Error>) {
        let connected = self.connection.connect();
        assert(self.connection().connect_outcome(connected));
        lookup_after_connect(connected, id)
    }

    fn update(&self, _user: User) -> (r: Result<(), Error>)
        ensures
            r == Err::<(), Error>(Error::NotImplemented),
    {
        Err(Error::NotImplemented)
    }
}

/// A repository stand-in whose lookups are answered by a function given when
/// it is made; it connects to nothing and has no update behaviour.
pub struct MockUserRepository<F: Fn(String) -> Result<Option<User>, Error>> {
    find_user_fn: F,
}

impl<F: Fn(String) -> Result<Option<User>, Error>> MockUserRepository<F> {
    /// The answering function accepts every key.
    #[verifier::type_invariant]
    spec fn answers_every_key(&self) -> bool {
        forall|id: String| #[trigger] self.find_user_fn.requires((id,))
    }

    /// The function that answers lookups.
    pub closed spec fn answers(&self) -> F {
        self.find_user_fn
    }

    pub fn new(find_user_fn: F) -> (r: Self)
        requires
            forall|id: String| #[trigger] find_user_fn.requires((id,)),
        ensures
            r.answers() == find_user_fn,
    {
        MockUserRepository { find_user_fn }
    }
}

impl<F: Fn(String) -> Result<Option<User>, Error>> UserRepository for MockUserRepository<F> {
    /// A lookup hands back whatever the answering function may give for the key.
    open spec fn find_outcome(&self, id: String, r: Result<Option<User>, Error>) -> bool {
        self.answers().ensures((id,), r)
    }

    fn find_user(&self, id: String) -> (r: Result<Option<User>, Error>) {
        proof {
            use_type_invariant(self);
        }
        (self.find_user_fn)(id)
    }

    fn update(&self, _user: User) -> (r: Result<(), Error>)
        ensures
            r == Err::<(), Error>(Error::NotImplemented),
    {
        Err(Error::NotImplemented)
    }
}

/// Over the plain connection provider, which always connects, every lookup of
/// `id` succeeds and finds the user named `"test_user_"` followed by `id`.
pub proof fn lemma_plain_lookup_finds_test_user(
    repository: UserRepositoryImpl<DatabaseConnectionImpl>,
    id: String,
    r: Result<Option<User>, Error>,
)
    requires
        repository.find_outcome(id, r),
    ensures
        found_named(r, test_user_name(id@)),
{
}

} // verus!
