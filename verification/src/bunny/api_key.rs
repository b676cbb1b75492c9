use vstd::prelude::*;

verus! {

/// API Key struct returned by list_api_keys()
#[derive(Debug, Clone, PartialEq, Eq)]
pub struct ApiKey {
    /// API Key ID
    pub id: i32,
    /// API Key
    pub key: String,
    /// The names of the roles that the key holds
    pub roles: Vec<String>,
}

} // verus!
