use vstd::prelude::*;

use std::sync::Arc;

use crate::error::Error;
use crate::repository::{MockUserRepository, UserRepository};
use crate::user::{found_named, User};

verus! {

/// User operations above the repository layer.
pub trait UserService {
    /// Whether `r` is an outcome that `find_user(id)` may hand back.
    spec fn find_outcome(&self, id: String, r: Result<Option<User>, Error>) -> bool;

    fn find_user(&self, id: String) -> (r: Result<Option<User>, Error>)
        ensures
            self.find_outcome(id, r),
    ;

    fn deactivate_user(&self, id: String) -> (r: Result<(), Error>);
}

/// The service over an injected, shared repository.
pub struct UserServiceImpl<R> {
    user_repository: Arc<R>,
}

impl<R: UserRepository> UserServiceImpl<R> {
    /// The repository this service was given.
    pub closed spec fn repository(&self) -> R {
        *self.user_repository
    }

    pub fn new(user_repository: Arc<R>) -> (r: Self)
        ensures
            r.repository() == *user_repository,
    {
        UserServiceImpl { user_repository }
    }
}

impl<R: UserRepository> UserService for UserServiceImpl<R> {
    /// A lookup hands on the repository's result untouched.
    open spec fn find_outcome(&self, id: String, r: Result<Option<User>, Error>) -> bool {
        self.repository().find_outcome(id, r)
    }

    fn find_user(&self, id: String) -> (r: Result<Option<User>, Error>) {
        self.user_repository.find_user(id)
    }

    fn deactivate_user(&self, _id: String) -> (r: Result<(), Error>)
        ensures
            r == Err::<(), Error>(Error::NotImplemented),
    {
        Err(Error::NotImplemented)
    }
}

/// The service hands on its repository's answer unchanged: over a stand-in
/// that answers every key `k` with the user named `name_of(k)`, the service's
/// lookup of `id` finds exactly the user named `name_of(id)`.
pub proof fn lemma_find_user_passes_answer_through<F: Fn(String) -> Result<Option<User>, Error>>(
    service: UserServiceImpl<MockUserRepository<F>>,
    name_of: spec_fn(Seq<char>) -> Seq<char>,
    id: String,
    r: Result<Option<User>, Error>,
)
    requires
        forall|k: String, a: Result<Option<User>, Error>|
            #[trigger] service.repository().answers().ensures((k,), a) ==> found_named(
                a,
                name_of(k@),
            ),
        service.find_outcome(id, r),
    ensures
        found_named(r, name_of(id@)),
{
}

} // verus!
