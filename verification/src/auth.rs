//! Access guard for the publish path. A presented username/password pair
//! is checked against the stored operator credentials; an unknown user
//! and a wrong password are deliberately answered with one and the same
//! error, so the response never reveals which half failed. Verifying a
//! password against its memory-hard hash is the collaborator's job;
//! here the stored secret is compared directly and stands for that
//! check.

use vstd::prelude::*;

use crate::strings::str_eq;

verus! {

/// One stored operator credential.
pub struct OperatorCredential {
    pub username: String,
    pub password: String,
    pub operator_id: u128,
}

/// Mathematical image of a credential.
#[verifier::ext_equal]
pub ghost struct CredModel {
    pub username: Seq<char>,
    pub password: Seq<char>,
    pub operator_id: u128,
}

impl View for OperatorCredential {
    type V = CredModel;

    open spec fn view(&self) -> CredModel {
        CredModel {
            username: self.username@,
            password: self.password@,
            operator_id: self.operator_id,
        }
    }
}

/// Some stored credential has exactly this username and password.
pub open spec fn credentials_match(m: Seq<CredModel>, u: Seq<char>, p: Seq<char>) -> bool {
    exists|i: int| 0 <= i < m.len() && m[i].username == u && m[i].password == p
}

/// Some stored credential has this username.
pub open spec fn has_operator(m: Seq<CredModel>, u: Seq<char>) -> bool {
    exists|i: int| 0 <= i < m.len() && m[i].username == u
}

/// The single, undistinguished failure of the guard: the caller cannot
/// tell an unknown user from a wrong password.
#[derive(Clone, Copy, Debug, PartialEq, Eq, Structural)]
pub enum AuthError {
    InvalidCredentials,
}

/// The operator credentials, one per username.
pub struct CredentialStore {
    creds: Vec<OperatorCredential>,
}

impl View for CredentialStore {
    type V = Seq<CredModel>;

    closed spec fn view(&self) -> Seq<CredModel> {
        self.creds@.map_values(|c: OperatorCredential| c@)
    }
}

impl CredentialStore {
    /// Usernames are unique.
    pub open spec fn wf(&self) -> bool {
        forall|i: int, j: int|
            0 <= i < self@.len() && 0 <= j < self@.len() && i != j ==> self@[i].username
                != self@[j].username
    }

    /// An empty credential store.
    pub fn new() -> (r: CredentialStore)
        ensures
            r.wf(),
            r@.len() == 0,
    {
        CredentialStore { creds: Vec::new() }
    }

    /// Add an operator; refused without change if the username is taken.
    pub fn add_operator(&mut self, username: String, password: String, operator_id: u128) -> (r:
        bool)
        requires
            old(self).wf(),
        ensures
            final(self).wf(),
            r == !has_operator(old(self)@, username@),
            r ==> final(self)@ == old(self)@.push(
                CredModel { username: username@, password: password@, operator_id },
            ),
            !r ==> final(self)@ == old(self)@,
    {
        let n = self.creds.len();
        let mut i: usize = 0;
        while i < n
            invariant
                i <= n,
                n == self@.len(),
                self@ == old(self)@,
                old(self).wf(),
                self@ == self.creds@.map_values(|c: OperatorCredential| c@),
                forall|j: int| 0 <= j < i ==> self@[j].username != username@,
            decreases n - i,
        {
            if str_eq(self.creds[i].username.as_str(), username.as_str()) {
                proof {
                    assert(self@[i as int].username == username@);
                }
                return false;
            }
            i += 1;
        }
        let ghost o = self@;
        let ghost cm = CredModel { username: username@, password: password@, operator_id };
        self.creds.push(OperatorCredential { username, password, operator_id });
        proof {
            assert(self@ =~= o.push(cm));
        }
        true
    }

    /// Decide whether the presented pair names a stored operator; on
    /// success the operator's id comes back, on failure nothing reveals
    /// which half was wrong.
    pub fn authorize(&self, username: &str, password: &str) -> (r: Result<u128, AuthError>)
        requires
            self.wf(),
        ensures
            match r {
                Ok(id) => exists|i: int|
                    0 <= i < self@.len() && self@[i].username == username@ && self@[i].password
                        == password@ && self@[i].operator_id == id,
                Err(AuthError::InvalidCredentials) => !credentials_match(
                    self@,
                    username@,
                    password@,
                ),
            },
            r is Ok <==> credentials_match(self@, username@, password@),
    {
        let n = self.creds.len();
        let mut i: usize = 0;
        while i < n
            invariant
                i <= n,
                n == self@.len(),
                self@ == self.creds@.map_values(|c: OperatorCredential| c@),
                forall|j: int|
                    0 <= j < i ==> !(self@[j].username == username@ && self@[j].password
                        == password@),
            decreases n - i,
        {
            if str_eq(self.creds[i].username.as_str(), username) && str_eq(
                self.creds[i].password.as_str(),
                password,
            ) {
                proof {
                    assert(self@[i as int].username == username@ && self@[i as int].password
                        == password@);
                }
                return Ok(self.creds[i].operator_id);
            }
            i += 1;
        }
        Err(AuthError::InvalidCredentials)
    }
}

} // verus!
