use vstd::prelude::*;

verus! {

/// A resident credential as the authenticator reported it.
/// Two credentials are the same credential when their ids are equal.
#[derive(Clone, Debug)]
pub struct StoredCredential {
    /// Opaque identifier assigned by the authenticator.
    pub credential_id: String,
    /// The relying party the credential was created for.
    pub rp_id: String,
    pub rp_name: String,
    /// Display name of the user bound to the credential.
    pub user_name: String,
}

/// The mathematical value of a `StoredCredential`.
pub struct CredentialView {
    pub id: Seq<char>,
    pub rp_id: Seq<char>,
    pub rp_name: Seq<char>,
    pub user_name: Seq<char>,
}

impl View for StoredCredential {
    type V = CredentialView;

    open spec fn view(&self) -> CredentialView {
        CredentialView {
            id: self.credential_id@,
            rp_id: self.rp_id@,
            rp_name: self.rp_name@,
            user_name: self.user_name@,
        }
    }
}

/// The views of a sequence of credentials, in order.
pub open spec fn credentials_view(creds: Seq<StoredCredential>) -> Seq<CredentialView> {
    creds.map_values(|c: StoredCredential| c@)
}

/// Whether a credential with this id appears in the listing.
pub open spec fn lists_id(creds: Seq<CredentialView>, id: Seq<char>) -> bool {
    exists|i: int| 0 <= i < creds.len() && #[trigger] creds[i].id == id
}

impl StoredCredential {
    pub fn new(credential_id: String, rp_id: String, rp_name: String, user_name: String) -> (r: Self)
        ensures
            r@ == (CredentialView {
                id: credential_id@,
                rp_id: rp_id@,
                rp_name: rp_name@,
                user_name: user_name@,
            }),
    {
        StoredCredential { credential_id, rp_id, rp_name, user_name }
    }
}

impl PartialEq for StoredCredential {
    fn eq(&self, other: &StoredCredential) -> (r: bool) {
        self.credential_id == other.credential_id
    }
}

impl vstd::std_specs::cmp::PartialEqSpecImpl for StoredCredential {
    open spec fn obeys_eq_spec() -> bool {
        true
    }

    open spec fn eq_spec(&self, other: &StoredCredential) -> bool {
        self.credential_id@ == other.credential_id@
    }
}

/// Whether `creds` holds a credential whose id is `id`.
pub fn contains_id(creds: &Vec<StoredCredential>, id: &String) -> (r: bool)
    ensures
        r == lists_id(credentials_view(creds@), id@),
{
    let mut i: usize = 0;
    while i < creds.len()
        invariant
            0 <= i <= creds.len(),
            forall|j: int| 0 <= j < i ==> creds@[j].credential_id@ != id@,
        decreases creds.len() - i,
    {
        if creds[i].credential_id == *id {
            assert(credentials_view(creds@)[i as int].id == id@);
            return true;
        }
        i = i + 1;
    }
    proof {
        if lists_id(credentials_view(creds@), id@) {
            let k = choose|k: int| 0 <= k < credentials_view(creds@).len() && #[trigger] credentials_view(creds@)[k].id == id@;
            assert(creds@[k].credential_id@ == id@);
        }
    }
    false
}

} // verus!
