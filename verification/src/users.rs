//! Credential records and the user repository.
//!
//! A credential record carries a unique email and a write-once bcrypt
//! password hash; the core never holds a plaintext password after hashing.

use vstd::prelude::*;
use crate::errors::AppError;

verus! {

/// A persisted credential record.
pub struct User {
    /// Unique user identifier.
    pub id: u64,
    /// Email address, unique across the repository.
    pub email: String,
    /// Bcrypt hash of the password; write-once at creation.
    pub password_hash: String,
    /// The user's full name.
    pub full_name: String,
    /// Creation time (Unix seconds).
    pub created_at: u64,
    /// Time of the last update (Unix seconds).
    pub updated_at: u64,
}

/// Mathematical view of a credential record.
pub struct UserView {
    /// Unique user identifier.
    pub id: u64,
    /// Email address.
    pub email: Seq<char>,
    /// Bcrypt hash of the password.
    pub password_hash: Seq<char>,
    /// The user's full name.
    pub full_name: Seq<char>,
    /// Creation time (Unix seconds).
    pub created_at: u64,
    /// Time of the last update (Unix seconds).
    pub updated_at: u64,
}

impl View for User {
    type V = UserView;

    open spec fn view(&self) -> UserView {
        UserView {
            id: self.id,
            email: self.email@,
            password_hash: self.password_hash@,
            full_name: self.full_name@,
            created_at: self.created_at,
            updated_at: self.updated_at,
        }
    }
}

/// Whether some user in `s` carries this email.
pub open spec fn has_email(s: Seq<UserView>, email: Seq<char>) -> bool {
    exists|i: int| 0 <= i < s.len() && (#[trigger] s[i]).email == email
}

/// The index of the user with this email (meaningful when `has_email`
/// holds and emails are unique).
pub open spec fn email_idx(s: Seq<UserView>, email: Seq<char>) -> int {
    choose|i: int| 0 <= i < s.len() && (#[trigger] s[i]).email == email
}

/// Whether some user in `s` carries this id.
pub open spec fn has_user_id(s: Seq<UserView>, id: u64) -> bool {
    exists|i: int| 0 <= i < s.len() && (#[trigger] s[i]).id == id
}

/// The index of the user with this id (meaningful when `has_user_id`
/// holds and ids are unique).
pub open spec fn user_idx(s: Seq<UserView>, id: u64) -> int {
    choose|i: int| 0 <= i < s.len() && (#[trigger] s[i]).id == id
}

/// Credential storage: users with unique ids and unique emails.
pub struct UserRepository {
    users: Vec<User>,
    next_id: u64,
}

impl View for UserRepository {
    type V = Seq<UserView>;

    closed spec fn view(&self) -> Seq<UserView> {
        Seq::new(self.users@.len(), |i: int| self.users@[i]@)
    }
}

impl UserRepository {
    /// The next id the repository will assign.
    pub closed spec fn spec_next_id(&self) -> u64 {
        self.next_id
    }

    /// Well-formedness: ids are distinct and below the next id, and emails
    /// are unique.
    pub open spec fn wf(&self) -> bool {
        &&& forall|i: int, j: int| 0 <= i < j < self@.len()
            ==> (#[trigger] self@[i]).id != (#[trigger] self@[j]).id
        &&& forall|i: int, j: int| 0 <= i < j < self@.len()
            ==> (#[trigger] self@[i]).email != (#[trigger] self@[j]).email
        &&& forall|i: int| 0 <= i < self@.len()
            ==> (#[trigger] self@[i]).id < self.spec_next_id()
    }

    /// An empty repository.
    pub fn new() -> (s: Self)
        ensures
            s.wf(),
            s@ =~= Seq::<UserView>::empty(),
            s.spec_next_id() == 0,
    {
        UserRepository { users: Vec::new(), next_id: 0 }
    }

    /// Find the credential record for `email`.
    pub fn find_by_email(&self, email: &str) -> (r: Option<&User>)
        requires
            self.wf(),
        ensures
            r matches Some(u) ==> has_email(self@, email@)
                && u@ == self@[email_idx(self@, email@)] && u@.email == email@,
            r is None ==> !has_email(self@, email@),
    {
        let n = self.users.len();
        let mut i: usize = 0;
        while i < n
            invariant
                0 <= i <= n == self@.len(),
                self.wf(),
                forall|j: int| 0 <= j < i ==> (#[trigger] self@[j]).email != email@,
            decreases n - i,
        {
            if crate::text::str_eq(self.users[i].email.as_str(), email) {
                proof {
                    assert(self@[i as int].email == email@);
                    assert(has_email(self@, email@));
                    let k = email_idx(self@, email@);
                    assert(0 <= k < self@.len() && self@[k].email == email@);
                    if k != i {
                        if k < i {
                            assert(self@[k].email != self@[i as int].email);
                        } else {
                            assert(self@[i as int].email != self@[k].email);
                        }
                    }
                }
                return Some(&self.users[i]);
            }
            i = i + 1;
        }
        None
    }

    /// Find the credential record for `id`.
    pub fn find_by_id(&self, id: u64) -> (r: Option<&User>)
        requires
            self.wf(),
        ensures
            r matches Some(u) ==> has_user_id(self@, id)
                && u@ == self@[user_idx(self@, id)] && u@.id == id,
            r is None ==> !has_user_id(self@, id),
    {
        let n = self.users.len();
        let mut i: usize = 0;
        while i < n
            invariant
                0 <= i <= n == self@.len(),
                self.wf(),
                forall|j: int| 0 <= j < i ==> (#[trigger] self@[j]).id != id,
            decreases n - i,
        {
            if self.users[i].id == id {
                proof {
                    assert(self@[i as int].id == id);
                    assert(has_user_id(self@, id));
                    let k = user_idx(self@, id);
                    assert(0 <= k < self@.len() && self@[k].id == id);
                    if k != i {
                        if k < i {
                            assert(self@[k].id != self@[i as int].id);
                        } else {
                            assert(self@[i as int].id != self@[k].id);
                        }
                    }
                }
                return Some(&self.users[i]);
            }
            i = i + 1;
        }
        None
    }

    /// Whether a credential record for `email` exists.
    pub fn email_exists(&self, email: &str) -> (r: bool)
        requires
            self.wf(),
        ensures
            r == has_email(self@, email@),
    {
        match self.find_by_email(email) {
            Some(_) => true,
            None => false,
        }
    }

    /// Create a credential record.  The email must be free: a duplicate is
    /// refused and nothing is stored.
    pub fn create(
        &mut self,
        email: &str,
        password_hash: String,
        full_name: &str,
        now: u64,
    ) -> (r: Result<&User, AppError>)
        requires
            old(self).wf(),
        ensures
            final(self).wf(),
            r matches Ok(u) ==> ({
                &&& !has_email(old(self)@, email@)
                &&& final(self)@ =~= old(self)@.push(
                    (UserView {
                        id: old(self).spec_next_id(),
                        email: email@,
                        password_hash: password_hash@,
                        full_name: full_name@,
                        created_at: now,
                        updated_at: now,
                    }))
                &&& final(self).spec_next_id() == old(self).spec_next_id() + 1
                &&& u@ == final(self)@[final(self)@.len() - 1]
            }),
            r is Err ==> final(self)@ == old(self)@
                && (has_email(old(self)@, email@) || old(self).spec_next_id() == u64::MAX),
            (has_email(old(self)@, email@) || old(self).spec_next_id() == u64::MAX)
                ==> r is Err,
    {
        if self.email_exists(email) {
            return Err(AppError::Database("Duplicate email".to_owned()));
        }
        if self.next_id == u64::MAX {
            return Err(AppError::Internal("User id space exhausted".to_owned()));
        }
        let id = self.next_id;
        let user = User {
            id,
            email: email.to_owned(),
            password_hash,
            full_name: full_name.to_owned(),
            created_at: now,
            updated_at: now,
        };
        self.users.push(user);
        self.next_id = id + 1;
        proof {
            assert(self@ =~= old(self)@.push(
                (UserView {
                    id,
                    email: email@,
                    password_hash: password_hash@,
                    full_name: full_name@,
                    created_at: now,
                    updated_at: now,
                })));
        }
        let n = self.users.len();
        Ok(&self.users[n - 1])
    }

    /// Number of credential records held.
    pub fn len(&self) -> (n: usize)
        ensures
            n == self@.len(),
    {
        self.users.len()
    }
}

} // verus!
