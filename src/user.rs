use vstd::prelude::*;
use vstd::string::*;

use crate::error::AuthError;
use crate::secret::{
    constant_time_eq, make_pwd_encode, new_salt, salted_digest, sha3_hex_of, SALT_LEN, TOKEN_SEED_LEN,
};
use crate::session::{expiry, resolved, set_session, destroy_session, resolve_session, SessionStore};
use crate::store::{
    has_account, has_id, new_user_id, RecordStore, Ruser, SectionCreate, SECTION_TYPE_BLOG,
    STATUS_ACTIVE,
};

verus! {

/// A registration request.
pub struct UserSignUp {
    pub account: String,
    pub password: String,
    pub nickname: String,
}

/// A login request.
pub struct UserLogin {
    pub account: String,
    pub password: String,
}

/// An account name together with its linked external profile address.
pub struct GithubUserInfo {
    pub account: String,
    pub github_address: String,
}

/// A partial profile update: only the fields that are present change.
pub struct UserEdit {
    pub nickname: Option<String>,
    pub github: Option<String>,
}

/// A display-name change for the account with identifier `id`.
pub struct UpdateUserNickname {
    pub id: u128,
    pub nickname: String,
}

/// A password change for the account with identifier `id`.
pub struct UserChangePassword {
    pub id: u128,
    pub password: String,
}

/// The suffix of a default section's description.
pub open spec fn blog_suffix() -> Seq<char> {
    seq!['\'', 's', ' ', 'b', 'l', 'o', 'g']
}

/// `u` is the account that registering `req` with `github` at `now` creates.
pub open spec fn new_account(u: Ruser, req: UserSignUp, github: Option<String>, now: u64) -> bool {
    &&& u.account@ == req.account@
    &&& u.nickname@ == req.nickname@
    &&& u.salt@.len() == SALT_LEN
    &&& u.password@ == salted_digest(req.password@, u.salt@)
    &&& u.github == github
    &&& u.status == STATUS_ACTIVE
    &&& u.signup_time == now
}

/// `s` is the default section of account `u`.
pub open spec fn default_section(s: SectionCreate, u: Ruser) -> bool {
    &&& s.title@ == u.nickname@
    &&& s.description@ == u.nickname@ + blog_suffix()
    &&& s.stype == SECTION_TYPE_BLOG
    &&& s.suser == Some(u.id)
}

/// `after` is `before` with one new account for `req` and its default section.
pub open spec fn registered(
    before: RecordStore,
    after: RecordStore,
    req: UserSignUp,
    github: Option<String>,
    now: u64,
) -> bool {
    exists|u: Ruser, s: SectionCreate|
        #![trigger before.users().push(u), before.sections().push(s)]
        new_account(u, req, github, now) && default_section(s, u) && !has_id(before.users(), u.id)
            && after.users() == before.users().push(u) && after.sections() == before.sections().push(s)
}

/// Some active account is named `account`.
pub open spec fn has_active(users: Seq<Ruser>, account: Seq<char>) -> bool {
    exists|i: int|
        0 <= i < users.len() && (#[trigger] users[i]).account@ == account && users[i].status
            == STATUS_ACTIVE
}

/// The active account named `account` stores the digest of `password` under its salt.
pub open spec fn password_matches(users: Seq<Ruser>, account: Seq<char>, password: Seq<char>) -> bool {
    exists|i: int|
        0 <= i < users.len() && (#[trigger] users[i]).account@ == account && users[i].status
            == STATUS_ACTIVE && users[i].password@ == salted_digest(password, users[i].salt@)
}

/// The active account named `account` stores exactly `digest`.
pub open spec fn digest_matches(users: Seq<Ruser>, account: Seq<char>, digest: Seq<char>) -> bool {
    exists|i: int|
        0 <= i < users.len() && (#[trigger] users[i]).account@ == account && users[i].status
            == STATUS_ACTIVE && users[i].password@ == digest
}

/// `u` after the partial update `e`.
pub open spec fn edited(u: Ruser, e: UserEdit) -> Ruser {
    Ruser {
        nickname: match e.nickname {
            Some(n) => n,
            None => u.nickname,
        },
        github: match e.github {
            Some(g) => Some(g),
            None => u.github,
        },
        ..u
    }
}

/// `new` is `old` with a fresh salt and the digest of `password` under it.
pub open spec fn password_changed(old: Ruser, new: Ruser, password: Seq<char>) -> bool {
    &&& new.salt@.len() == SALT_LEN
    &&& new.password@ == salted_digest(password, new.salt@)
    &&& new == Ruser { password: new.password, salt: new.salt, ..old }
}

/// A message saying that registration went through.
pub open spec fn register_message() -> Seq<char> {
    seq!['r', 'e', 'g', 'i', 's', 't', 'e', 'r', ' ', 's', 'u', 'c', 'c', 'e', 's', 's', '.']
}

proof fn lemma_unique_account(users: Seq<Ruser>, i: int, j: int)
    requires
        crate::store::unique_keys(users),
        0 <= i < users.len(),
        0 <= j < users.len(),
        users[i].account@ == users[j].account@,
    ensures
        i == j,
{
}

impl UserSignUp {
    /// Registers the account: fails with `AccountExists` when the name is
    /// taken; otherwise stores the account with a fresh salt and the salted
    /// digest of the password, then its default section.
    pub fn sign_up(&self, records: &mut RecordStore, github_home: Option<String>, now: u64) -> (r: Result<String, AuthError>)
        requires
            old(records).wf(),
        ensures
            final(records).wf(),
            (r == Err::<String, AuthError>(AuthError::AccountExists)) <==> has_account(old(records).users(), self.account@),
            r matches Ok(m) ==> m@ == register_message() && registered(*old(records), *final(records), *self, github_home, now),
            r matches Err(e) ==> (e == AuthError::AccountExists || e == AuthError::InternalInconsistency)
                && final(records).users() == old(records).users()
                && final(records).sections() == old(records).sections(),
            r == Err::<String, AuthError>(AuthError::InternalInconsistency) ==> old(records).users().len() > 0,
    {
        if records.find_by_account(self.account.as_str()).is_some() {
            return Err(AuthError::AccountExists);
        }
        let salt = new_salt();
        let password = make_pwd_encode(self.password.as_str(), salt.as_str());
        let id = new_user_id();
        let user = Ruser {
            id,
            account: self.account.clone(),
            password,
            salt,
            nickname: self.nickname.clone(),
            github: github_home,
            status: STATUS_ACTIVE,
            signup_time: now,
        };
        let ghost u = user;
        match records.insert_user(user) {
            Ok(()) => {},
            Err(e) => {
                return Err(e);
            },
        }
        let mut description = self.nickname.clone();
        proof {
            reveal_strlit("'s blog");
            assert("'s blog"@ =~= blog_suffix());
        }
        description.append("'s blog");
        let section = SectionCreate {
            title: self.nickname.clone(),
            description,
            stype: SECTION_TYPE_BLOG,
            suser: Some(id),
        };
        let ghost s = section;
        records.insert_section(section);
        proof {
            reveal_strlit("register success.");
            assert("register success."@ =~= register_message());
            assert(new_account(u, *self, github_home, now));
            assert(default_section(s, u));
            assert(records.users() == old(records).users().push(u));
            assert(records.sections() == old(records).sections().push(s));
        }
        Ok(String::from_str("register success."))
    }
}

impl UserLogin {
    /// Checks the password of an active account against its stored salted
    /// digest (in constant time) and, on a match, opens a session that lasts
    /// the store's configured lifetime and returns its token.
    pub fn verify_login(&self, records: &RecordStore, sessions: &mut SessionStore, now: u64) -> (r: Result<String, AuthError>)
        requires
            records.wf(),
            old(sessions).wf(),
        ensures
            final(sessions).wf(),
            final(sessions).spec_ttl() == old(sessions).spec_ttl(),
            (r == Err::<String, AuthError>(AuthError::AccountNotFound)) <==> !has_active(records.users(), self.account@),
            (r == Err::<String, AuthError>(AuthError::InvalidCredentials)) <==> has_active(records.users(), self.account@)
                && !password_matches(records.users(), self.account@, self.password@),
            r is Ok <==> password_matches(records.users(), self.account@, self.password@),
            r matches Ok(t) ==> final(sessions)@ == old(sessions)@.insert(
                t@,
                (self.account@, now, expiry(now, old(sessions).spec_ttl())),
            ),
            r matches Ok(t) ==> exists|seed: Seq<char>| seed.len() == TOKEN_SEED_LEN && t@ == sha3_hex_of(seed),
            r is Err ==> final(sessions)@ == old(sessions)@,
    {
        let found = records.find_by_account(self.account.as_str());
        match found {
            None => Err(AuthError::AccountNotFound),
            Some(i) => {
                let user = records.user_at(i);
                let ghost users = records.users();
                proof {
                    assert forall|j: int| 0 <= j < users.len() && (#[trigger] users[j]).account@ == self.account@ implies j == i by {
                        lemma_unique_account(users, i as int, j);
                    }
                }
                if user.status != STATUS_ACTIVE {
                    return Err(AuthError::AccountNotFound);
                }
                let digest = make_pwd_encode(self.password.as_str(), user.salt.as_str());
                if constant_time_eq(digest.as_str(), user.password.as_str()) {
                    let ttl = sessions.ttl();
                    set_session(sessions, self.account.as_str(), ttl, now)
                } else {
                    Err(AuthError::InvalidCredentials)
                }
            },
        }
    }

    /// Legacy login for clients that send the stored digest itself rather
    /// than the password: the supplied value is compared, in constant time,
    /// with the stored digest.
    pub fn verify_login_with_rawpwd(&self, records: &RecordStore, sessions: &mut SessionStore, now: u64) -> (r: Result<String, AuthError>)
        requires
            records.wf(),
            old(sessions).wf(),
        ensures
            final(sessions).wf(),
            final(sessions).spec_ttl() == old(sessions).spec_ttl(),
            (r == Err::<String, AuthError>(AuthError::AccountNotFound)) <==> !has_active(records.users(), self.account@),
            (r == Err::<String, AuthError>(AuthError::InvalidCredentials)) <==> has_active(records.users(), self.account@)
                && !digest_matches(records.users(), self.account@, self.password@),
            r is Ok <==> digest_matches(records.users(), self.account@, self.password@),
            r matches Ok(t) ==> final(sessions)@ == old(sessions)@.insert(
                t@,
                (self.account@, now, expiry(now, old(sessions).spec_ttl())),
            ),
            r matches Ok(t) ==> exists|seed: Seq<char>| seed.len() == TOKEN_SEED_LEN && t@ == sha3_hex_of(seed),
            r is Err ==> final(sessions)@ == old(sessions)@,
    {
        let found = records.find_by_account(self.account.as_str());
        match found {
            None => Err(AuthError::AccountNotFound),
            Some(i) => {
                let user = records.user_at(i);
                let ghost users = records.users();
                proof {
                    assert forall|j: int| 0 <= j < users.len() && (#[trigger] users[j]).account@ == self.account@ implies j == i by {
                        lemma_unique_account(users, i as int, j);
                    }
                }
                if user.status != STATUS_ACTIVE {
                    return Err(AuthError::AccountNotFound);
                }
                if constant_time_eq(self.password.as_str(), user.password.as_str()) {
                    let ttl = sessions.ttl();
                    set_session(sessions, self.account.as_str(), ttl, now)
                } else {
                    Err(AuthError::InvalidCredentials)
                }
            },
        }
    }
}

impl UserEdit {
    /// Applies the partial update to the account of the live session under
    /// `cookie`, and returns the updated account.
    pub fn update(&self, records: &mut RecordStore, sessions: &SessionStore, cookie: &str, now: u64) -> (r: Result<Ruser, AuthError>)
        requires
            old(records).wf(),
            sessions.wf(),
        ensures
            final(records).wf(),
            final(records).sections() == old(records).sections(),
            match resolved(sessions@, cookie@, now) {
                None => r == Err::<Ruser, AuthError>(AuthError::SessionNotFound)
                    && final(records).users() == old(records).users(),
                Some(a) => if has_account(old(records).users(), a) {
                    exists|i: int|
                        0 <= i < old(records).users().len() && (#[trigger] old(records).users()[i]).account@ == a
                            && r == Ok::<Ruser, AuthError>(edited(old(records).users()[i], *self))
                            && final(records).users() == old(records).users().update(i, edited(old(records).users()[i], *self))
                } else {
                    r == Err::<Ruser, AuthError>(AuthError::AccountNotFound)
                        && final(records).users() == old(records).users()
                },
            },
    {
        let account = match resolve_session(sessions, cookie, now) {
            Ok(a) => a,
            Err(e) => {
                return Err(e);
            },
        };
        match records.find_by_account(account.as_str()) {
            None => Err(AuthError::AccountNotFound),
            Some(i) => {
                let mut user = records.user_at(i);
                match &self.nickname {
                    Some(n) => {
                        user.nickname = n.clone();
                    },
                    None => {},
                }
                match &self.github {
                    Some(g) => {
                        user.github = Some(g.clone());
                    },
                    None => {},
                }
                proof {
                    assert(user == edited(old(records).users()[i as int], *self));
                }
                records.replace_user(i, user.copied());
                Ok(user)
            },
        }
    }
}

impl UpdateUserNickname {
    /// Sets the display name of the account with identifier `id`, and returns
    /// the updated account. The caller checks that the identifier belongs to
    /// the authenticated user.
    pub fn update(&self, records: &mut RecordStore) -> (r: Result<Ruser, AuthError>)
        requires
            old(records).wf(),
        ensures
            final(records).wf(),
            final(records).sections() == old(records).sections(),
            if has_id(old(records).users(), self.id) {
                exists|i: int|
                    0 <= i < old(records).users().len() && (#[trigger] old(records).users()[i]).id == self.id
                        && r == Ok::<Ruser, AuthError>(Ruser { nickname: self.nickname, ..old(records).users()[i] })
                        && final(records).users() == old(records).users().update(
                        i,
                        Ruser { nickname: self.nickname, ..old(records).users()[i] },
                    )
            } else {
                r == Err::<Ruser, AuthError>(AuthError::AccountNotFound)
                    && final(records).users() == old(records).users()
            },
    {
        match records.find_by_id(self.id) {
            None => Err(AuthError::AccountNotFound),
            Some(i) => {
                let mut user = records.user_at(i);
                user.nickname = self.nickname.clone();
                records.replace_user(i, user.copied());
                Ok(user)
            },
        }
    }
}

impl UserChangePassword {
    /// Gives the account with identifier `id` a fresh salt and the salted
    /// digest of the new password, and returns the updated account. The
    /// caller checks that the identifier belongs to the authenticated user.
    pub fn change(&self, records: &mut RecordStore) -> (r: Result<Ruser, AuthError>)
        requires
            old(records).wf(),
        ensures
            final(records).wf(),
            final(records).sections() == old(records).sections(),
            r is Ok <==> has_id(old(records).users(), self.id),
            r matches Ok(u) ==> exists|i: int|
                0 <= i < old(records).users().len() && (#[trigger] old(records).users()[i]).id == self.id
                    && password_changed(old(records).users()[i], u, self.password@)
                    && final(records).users() == old(records).users().update(i, u),
            r is Err ==> r == Err::<Ruser, AuthError>(AuthError::AccountNotFound)
                && final(records).users() == old(records).users(),
    {
        match records.find_by_id(self.id) {
            None => Err(AuthError::AccountNotFound),
            Some(i) => {
                let mut user = records.user_at(i);
                let salt = new_salt();
                user.password = make_pwd_encode(self.password.as_str(), salt.as_str());
                user.salt = salt;
                records.replace_user(i, user.copied());
                Ok(user)
            },
        }
    }
}

impl Ruser {
    /// The account named `account`.
    pub fn get_user_by_account(records: &RecordStore, account: &str) -> (r: Result<Ruser, AuthError>)
        requires
            records.wf(),
        ensures
            r is Ok <==> has_account(records.users(), account@),
            r matches Ok(u) ==> u.account@ == account@ && records.users().contains(u),
            r is Err ==> r == Err::<Ruser, AuthError>(AuthError::AccountNotFound),
    {
        match records.find_by_account(account) {
            Some(i) => {
                let u = records.user_at(i);
                proof {
                    assert(records.users()[i as int] == u);
                }
                Ok(u)
            },
            None => Err(AuthError::AccountNotFound),
        }
    }

    /// The account with identifier `id`.
    pub fn get_user_by_id(records: &RecordStore, id: u128) -> (r: Result<Ruser, AuthError>)
        requires
            records.wf(),
        ensures
            r is Ok <==> has_id(records.users(), id),
            r matches Ok(u) ==> u.id == id && records.users().contains(u),
            r is Err ==> r == Err::<Ruser, AuthError>(AuthError::AccountNotFound),
    {
        match records.find_by_id(id) {
            Some(i) => {
                let u = records.user_at(i);
                proof {
                    assert(records.users()[i as int] == u);
                }
                Ok(u)
            },
            None => Err(AuthError::AccountNotFound),
        }
    }

    /// The account of the live session under `cookie`.
    pub fn get_user_by_cookie(records: &RecordStore, sessions: &SessionStore, cookie: &str, now: u64) -> (r: Result<Ruser, AuthError>)
        requires
            records.wf(),
            sessions.wf(),
        ensures
            match resolved(sessions@, cookie@, now) {
                None => r == Err::<Ruser, AuthError>(AuthError::SessionNotFound),
                Some(a) => {
                    &&& r is Ok <==> has_account(records.users(), a)
                    &&& r matches Ok(u) ==> u.account@ == a && records.users().contains(u)
                    &&& r is Err ==> r == Err::<Ruser, AuthError>(AuthError::AccountNotFound)
                },
            },
    {
        match resolve_session(sessions, cookie, now) {
            Ok(account) => Ruser::get_user_by_account(records, account.as_str()),
            Err(e) => Err(e),
        }
    }

    /// Ends the session under `cookie`; an absent session is no error.
    pub fn sign_out(sessions: &mut SessionStore, cookie: &str) -> (r: Result<(), AuthError>)
        requires
            old(sessions).wf(),
        ensures
            final(sessions).wf(),
            final(sessions).spec_ttl() == old(sessions).spec_ttl(),
            final(sessions)@ == old(sessions)@.remove(cookie@),
            r is Ok,
    {
        destroy_session(sessions, cookie);
        Ok(())
    }
}

} // verus!
