use vstd::prelude::*;

verus! {

/// The authenticated principal a connection is admitted for.
pub struct Claims {
    pub id: String,
    pub name: String,
    pub groups: Vec<String>,
}

impl Claims {
    /// How the principal is shown: by its identifier.
    pub fn to_string(&self) -> (r: String)
        ensures
            r@ == self.id@,
    {
        self.id.clone()
    }
}

/// The query an identity provider's sign-in callback carries.
pub struct AuthQuery {
    pub code: String,
    pub state: String,
}

} // verus!
