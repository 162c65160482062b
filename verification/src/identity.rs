//! The author and committer identity of a commit.

use vstd::prelude::*;

verus! {

/// A name and an e-mail address.
#[derive(Debug)]
pub struct Identity {
    /// The name.
    pub name: String,
    /// The e-mail address.
    pub email: String,
}

/// The name used when the repository configures no identity.
pub open spec fn spec_fallback_name() -> Seq<char> {
    "Distill"@
}

/// The address used when the repository configures no identity.
pub open spec fn spec_fallback_email() -> Seq<char> {
    "distill@example.com"@
}

/// Whether a configuration that yields `name` and `email` sets an identity:
/// both values are present and neither is empty.
pub open spec fn spec_is_configured(name: Option<String>, email: Option<String>) -> bool {
    &&& name matches Some(n)
    &&& email matches Some(e)
    &&& n@.len() > 0
    &&& e@.len() > 0
}

impl Identity {
    /// The identity used when the repository configures none.
    pub fn fallback() -> (id: Identity)
        ensures
            id.name@ == spec_fallback_name(),
            id.email@ == spec_fallback_email(),
    {
        Identity { name: "Distill".to_owned(), email: "distill@example.com".to_owned() }
    }

    /// Whether the identity has both a name and an address.
    pub open spec fn spec_is_complete(self) -> bool {
        self.name@.len() > 0 && self.email@.len() > 0
    }
}

/// The identity for a commit, given what the configuration holds under
/// `user.name` and `user.email`: the configured pair when both are present
/// and non-empty, the fallback identity otherwise.
pub fn resolve_identity(name: Option<String>, email: Option<String>) -> (id: Identity)
    ensures
        spec_is_configured(name, email) ==> id.name == name->Some_0 && id.email == email->Some_0,
        !spec_is_configured(name, email) ==> id.name@ == spec_fallback_name() && id.email@
            == spec_fallback_email(),
        id.spec_is_complete(),
{
    proof {
        reveal_strlit("Distill");
        reveal_strlit("distill@example.com");
    }
    match (name, email) {
        (Some(n), Some(e)) => {
            if n.as_str().is_empty() || e.as_str().is_empty() {
                Identity::fallback()
            } else {
                Identity { name: n, email: e }
            }
        },
        _ => Identity::fallback(),
    }
}

} // verus!
