//! Resolution of backend connection credentials (a URL and an API key) from a
//! configuration source: either a JSON document or a pair of environment
//! variable lookups.

use vstd::prelude::*;

pub mod document;
pub mod resolver;

verus! {

/// A credential pair read from a configuration source: the backend endpoint
/// URL and its access key, passed through verbatim from the source.
#[derive(Debug, PartialEq, Eq)]
pub struct Credentials {
    pub url: String,
    pub key: String,
}

/// Mathematical model of a credential pair.
pub struct CredentialsModel {
    pub url: Seq<char>,
    pub key: Seq<char>,
}

impl View for Credentials {
    type V = CredentialsModel;

    open spec fn view(&self) -> CredentialsModel {
        CredentialsModel { url: self.url@, key: self.key@ }
    }
}

} // verus!
