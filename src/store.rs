use vstd::prelude::*;

use crate::error::AuthError;
use crate::secret::constant_time_eq;

verus! {

/// A registered account.
pub struct Ruser {
    /// Identifier given on insert (the 128 bits of a random UUID).
    pub id: u128,
    /// Account name, unique across accounts.
    pub account: String,
    /// Hex digest of the password followed by the salt.
    pub password: String,
    /// Random per-account salt.
    pub salt: String,
    /// Display name.
    pub nickname: String,
    /// Optional link to an external profile.
    pub github: Option<String>,
    /// Zero for an active account; anything else disables login.
    pub status: i16,
    /// Creation instant, in seconds since the Unix epoch.
    pub signup_time: u64,
}

/// The default blog section created for each new account.
pub struct SectionCreate {
    pub title: String,
    pub description: String,
    pub stype: i32,
    /// Identifier of the owning account.
    pub suser: Option<u128>,
}

/// Status of an account that may log in.
pub const STATUS_ACTIVE: i16 = 0;

/// Type tag of an account's default section.
pub const SECTION_TYPE_BLOG: i32 = 1;

fn copy_opt_string(s: &Option<String>) -> (r: Option<String>)
    ensures
        r == *s,
{
    match s {
        Some(v) => Some(v.clone()),
        None => None,
    }
}

impl Ruser {
    /// A field-for-field copy.
    pub fn copied(&self) -> (r: Ruser)
        ensures
            r == *self,
    {
        Ruser {
            id: self.id,
            account: self.account.clone(),
            password: self.password.clone(),
            salt: self.salt.clone(),
            nickname: self.nickname.clone(),
            github: copy_opt_string(&self.github),
            status: self.status,
            signup_time: self.signup_time,
        }
    }
}

/// Whether some account in `users` is named `account`.
pub open spec fn has_account(users: Seq<Ruser>, account: Seq<char>) -> bool {
    exists|i: int| 0 <= i < users.len() && (#[trigger] users[i]).account@ == account
}

/// Whether some account in `users` has identifier `id`.
pub open spec fn has_id(users: Seq<Ruser>, id: u128) -> bool {
    exists|i: int| 0 <= i < users.len() && (#[trigger] users[i]).id == id
}

/// Account names and identifiers are unique.
pub open spec fn unique_keys(users: Seq<Ruser>) -> bool {
    forall|i: int, j: int|
        0 <= i < users.len() && 0 <= j < users.len() && i != j ==> {
            &&& (#[trigger] users[i]).account@ != (#[trigger] users[j]).account@
            &&& users[i].id != users[j].id
        }
}

/// An in-memory record store of accounts and their sections.
pub struct RecordStore {
    users: Vec<Ruser>,
    sections: Vec<SectionCreate>,
}

impl RecordStore {
    /// The accounts, in insertion order.
    pub closed spec fn users(&self) -> Seq<Ruser> {
        self.users@
    }

    /// The sections, in insertion order.
    pub closed spec fn sections(&self) -> Seq<SectionCreate> {
        self.sections@
    }

    pub open spec fn wf(&self) -> bool {
        unique_keys(self.users())
    }

    /// An empty store.
    pub fn new() -> (r: RecordStore)
        ensures
            r.wf(),
            r.users() == Seq::<Ruser>::empty(),
            r.sections() == Seq::<SectionCreate>::empty(),
    {
        RecordStore { users: Vec::new(), sections: Vec::new() }
    }

    /// Number of accounts.
    pub fn user_count(&self) -> (r: usize)
        ensures
            r == self.users().len(),
    {
        self.users.len()
    }

    /// Number of sections.
    pub fn section_count(&self) -> (r: usize)
        ensures
            r == self.sections().len(),
    {
        self.sections.len()
    }

    /// A copy of the account at position `i`.
    pub fn user_at(&self, i: usize) -> (r: Ruser)
        requires
            i < self.users().len(),
        ensures
            r == self.users()[i as int],
    {
        self.users[i].copied()
    }

    /// The section at position `i`.
    pub fn section_at(&self, i: usize) -> (r: &SectionCreate)
        requires
            i < self.sections().len(),
        ensures
            *r == self.sections()[i as int],
    {
        &self.sections[i]
    }

    /// Position of the account named `account`.
    pub fn find_by_account(&self, account: &str) -> (r: Option<usize>)
        ensures
            match r {
                Some(i) => i < self.users().len() && self.users()[i as int].account@ == account@,
                None => !has_account(self.users(), account@),
            },
    {
        let mut i: usize = 0;
        while i < self.users.len()
            invariant
                i <= self.users@.len(),
                forall|j: int| 0 <= j < i ==> self.users@[j].account@ != account@,
            decreases self.users@.len() - i,
        {
            if constant_time_eq(self.users[i].account.as_str(), account) {
                return Some(i);
            }
            i = i + 1;
        }
        None
    }

    /// Position of the account with identifier `id`.
    pub fn find_by_id(&self, id: u128) -> (r: Option<usize>)
        ensures
            match r {
                Some(i) => i < self.users().len() && self.users()[i as int].id == id,
                None => !has_id(self.users(), id),
            },
    {
        let mut i: usize = 0;
        while i < self.users.len()
            invariant
                i <= self.users@.len(),
                forall|j: int| 0 <= j < i ==> self.users@[j].id != id,
            decreases self.users@.len() - i,
        {
            if self.users[i].id == id {
                return Some(i);
            }
            i = i + 1;
        }
        None
    }

    /// Inserts a new account. The store itself refuses a duplicate name
    /// (`AccountExists`) or a duplicate identifier (`InternalInconsistency`),
    /// so uniqueness never rests on an earlier lookup alone.
    pub fn insert_user(&mut self, user: Ruser) -> (r: Result<(), AuthError>)
        requires
            old(self).wf(),
        ensures
            final(self).wf(),
            final(self).sections() == old(self).sections(),
            has_account(old(self).users(), user.account@) ==> r == Err::<(), AuthError>(AuthError::AccountExists),
            !has_account(old(self).users(), user.account@) && has_id(old(self).users(), user.id)
                ==> r == Err::<(), AuthError>(AuthError::InternalInconsistency),
            r is Ok <==> !has_account(old(self).users(), user.account@) && !has_id(old(self).users(), user.id),
            r is Ok ==> final(self).users() == old(self).users().push(user),
            r is Err ==> final(self).users() == old(self).users(),
    {
        if self.find_by_account(user.account.as_str()).is_some() {
            return Err(AuthError::AccountExists);
        }
        if self.find_by_id(user.id).is_some() {
            return Err(AuthError::InternalInconsistency);
        }
        let ghost old_users = self.users@;
        self.users.push(user);
        proof {
            assert forall|i: int, j: int|
                0 <= i < self.users@.len() && 0 <= j < self.users@.len() && i != j implies {
                    &&& (#[trigger] self.users@[i]).account@ != (#[trigger] self.users@[j]).account@
                    &&& self.users@[i].id != self.users@[j].id
                } by {
                let n = old_users.len() as int;
                if i == n {
                    assert(old_users[j] == self.users@[j]);
                } else if j == n {
                    assert(old_users[i] == self.users@[i]);
                }
            }
        }
        Ok(())
    }

    /// Appends a section.
    pub fn insert_section(&mut self, section: SectionCreate)
        ensures
            final(self).users() == old(self).users(),
            final(self).sections() == old(self).sections().push(section),
    {
        self.sections.push(section);
    }

    /// Replaces the account at position `i` by one with the same name and
    /// identifier.
    pub fn replace_user(&mut self, i: usize, user: Ruser)
        requires
            old(self).wf(),
            i < old(self).users().len(),
            user.account@ == old(self).users()[i as int].account@,
            user.id == old(self).users()[i as int].id,
        ensures
            final(self).wf(),
            final(self).sections() == old(self).sections(),
            final(self).users() == old(self).users().update(i as int, user),
    {
        let ghost old_users = self.users@;
        self.users.set(i, user);
        proof {
            assert forall|a: int, b: int|
                0 <= a < self.users@.len() && 0 <= b < self.users@.len() && a != b implies {
                    &&& (#[trigger] self.users@[a]).account@ != (#[trigger] self.users@[b]).account@
                    &&& self.users@[a].id != self.users@[b].id
                } by {
                assert(old_users[a].account@ != old_users[b].account@);
            }
        }
    }
}

/// Relies on `uuid::Uuid::new_v4` and `uuid::Uuid::as_u128`: the bits of a
/// random version-4 UUID. Nothing is known of the value.
#[verifier::external_body]
pub(crate) fn new_user_id() -> (r: u128) {
    uuid::Uuid::new_v4().as_u128()
}

} // verus!
