use vstd::prelude::*;

verus! {

/// An HTTP authentication scheme of the API description.
#[derive(Clone, Debug, PartialEq, Eq)]
pub struct HttpSecurityScheme {
    /// The name the operations refer to it by.
    pub name: String,
    /// The HTTP authentication scheme.
    pub scheme: String,
    /// The format of the bearer token.
    pub bearer_format: String,
}

/// Adds the bearer-token security scheme to the API description.
pub struct SecurityAddon;

impl SecurityAddon {
    /// The scheme this modifier adds: `bearerAuth`, HTTP bearer tokens in UUID format.
    pub fn security_scheme(&self) -> (r: HttpSecurityScheme)
        ensures
            r.name@ == "bearerAuth"@,
            r.scheme@ == "bearer"@,
            r.bearer_format@ == "UUID"@,
    {
        HttpSecurityScheme {
            name: String::from_str("bearerAuth"),
            scheme: String::from_str("bearer"),
            bearer_format: String::from_str("UUID"),
        }
    }
}

/// Sets the servers of the API description.
pub struct ServerAddon;

impl ServerAddon {
    /// The server URLs the description lists: the API is served under `/api`.
    pub fn servers(&self) -> (r: Vec<String>)
        ensures
            r@.len() == 1,
            r@[0]@ == "/api"@,
    {
        let mut v: Vec<String> = Vec::new();
        v.push(String::from_str("/api"));
        v
    }
}

} // verus!
