use vstd::prelude::*;
use vstd::string::*;

use crate::error::Error;

verus! {

/// The leaf capability: establishes the connection that the layers above
/// depend on.
pub trait DatabaseConnection {
    /// Whether `r` is an outcome that `connect` may hand back on this provider.
    spec fn connect_outcome(&self, r: Result<(), Error>) -> bool;

    fn connect(&self) -> (r: Result<(), Error>)
        ensures
            self.connect_outcome(r),
    ;
}

/// A connection provider described by a connection string, which is fixed
/// when the provider is made.
pub struct DatabaseConnectionImpl {
    connection_string: String,
}

impl DatabaseConnectionImpl {
    /// The connection string this provider was made with.
    pub closed spec fn descriptor(&self) -> Seq<char> {
        self.connection_string@
    }

    pub fn new(connection_string: String) -> (r: Self)
        ensures
            r.descriptor() == connection_string@,
    {
        DatabaseConnectionImpl { connection_string }
    }

    pub fn connection_string(&self) -> (r: &String)
        ensures
            r@ == self.descriptor(),
    {
        &self.connection_string
    }

    /// The line that announces a connection made through this provider.
    pub fn connect_line(&self) -> (r: String)
        ensures
            r@ == "connect: "@ + self.descriptor(),
    {
        String::from_str("connect: ").concat(self.connection_string.as_str())
    }
}

impl DatabaseConnection for DatabaseConnectionImpl {
    /// No resource is opened, so connecting always succeeds.
    open spec fn connect_outcome(&self, r: Result<(), Error>) -> bool {
        r == Ok::<(), Error>(())
    }

    fn connect(&self) -> (r: Result<(), Error>) {
        Ok(())
    }
}

} // verus!
