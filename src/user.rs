use vstd::prelude::*;

verus! {

/// The one domain entity, made fresh by every lookup.
#[derive(Debug, PartialEq, Eq)]
pub struct User {
    pub name: String,
}

impl View for User {
    type V = Seq<char>;

    /// A user is determined by its name.
    open spec fn view(&self) -> Seq<char> {
        self.name@
    }
}

/// What a lookup hands back, with each user seen through its name.
pub open spec fn lookup_view<E>(r: Result<Option<User>, E>) -> Result<Option<Seq<char>>, E> {
    match r {
        Ok(Some(u)) => Ok(Some(u@)),
        Ok(None) => Ok(None),
        Err(e) => Err(e),
    }
}

/// Whether `r` is a successful lookup that found a user called `name`.
pub open spec fn found_named<E>(r: Result<Option<User>, E>, name: Seq<char>) -> bool {
    r matches Ok(Some(u)) && u@ == name
}

} // verus!
