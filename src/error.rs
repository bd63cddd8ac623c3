use vstd::prelude::*;

verus! {

/// The failures that the layers report; each passes unchanged through the
/// layers above the one that raised it.
#[derive(Debug, PartialEq, Eq)]
pub enum Error {
    /// The connection provider could not establish its resource.
    Connection(String),
    /// The operation exists in the interface but has no behaviour yet.
    NotImplemented,
    /// The composition root was asked to build without a required setting.
    MissingConfiguration,
}

} // verus!
