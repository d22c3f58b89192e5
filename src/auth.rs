//! The security scheme that a bearer-token authorization dependency registers
//! in the API documentation.

use vstd::prelude::*;

verus! {

/// A security scheme entry of the API documentation.
#[derive(Debug, Clone, PartialEq, Eq)]
pub struct SecurityScheme {
    /// The name under which the scheme is registered.
    pub name: String,
    /// The scheme's type.
    pub ty: &'static str,
    /// The HTTP authorization scheme.
    pub scheme: &'static str,
}

/// The HTTP bearer scheme registered under `name`, the name of the
/// authorization dependency's type.
pub fn bearer_security_scheme(name: &str) -> (r: SecurityScheme)
    ensures
        r.name@ == name@,
        r.ty@ == "http"@,
        r.scheme@ == "bearer"@,
{
    SecurityScheme { name: String::from_str(name), ty: "http", scheme: "bearer" }
}

/// The names of the security schemes that an authorization dependency named
/// `name` requires: its own scheme alone.
pub fn security_schemes(name: &str) -> (r: Vec<String>)
    ensures
        r@.len() == 1,
        r@[0]@ == name@,
{
    let mut r: Vec<String> = Vec::new();
    r.push(String::from_str(name));
    r
}

} // verus!
