use vstd::prelude::*;

use crate::error::AuthError;
use crate::secret::{constant_time_eq, new_session_token, sha3_hex_of, TOKEN_SEED_LEN};

verus! {

/// Default lifetime of a login session, in seconds (sixty days).
pub const DEFAULT_SESSION_TTL: u64 = 60 * 24 * 3600;

/// What a session store holds under a token: the account name, the login
/// instant and the instant from which the session no longer resolves.
pub type SessionView = (Seq<char>, u64, u64);

/// The instant at which a session opened at `now` with lifetime `ttl` expires
/// (saturating at the largest representable instant).
pub open spec fn expiry(now: u64, ttl: u64) -> u64 {
    if now as int + ttl as int > u64::MAX as int {
        u64::MAX
    } else {
        (now + ttl) as u64
    }
}

/// Whether a session record is still live at `now`.
pub open spec fn is_live(rec: SessionView, now: u64) -> bool {
    now < rec.2
}

/// The outcome of resolving `token` at `now` against store contents `m`.
pub open spec fn resolved(m: Map<Seq<char>, SessionView>, token: Seq<char>, now: u64) -> Option<Seq<char>> {
    if m.contains_key(token) && is_live(m[token], now) {
        Some(m[token].0)
    } else {
        None
    }
}

/// One stored session.
pub struct SessionEntry {
    pub token: String,
    pub account: String,
    pub login_time: u64,
    pub expires_at: u64,
}

impl SessionEntry {
    pub open spec fn record(&self) -> SessionView {
        (self.account@, self.login_time, self.expires_at)
    }
}

/// An in-memory key-value session store with per-key expiry.
pub struct SessionStore {
    entries: Vec<SessionEntry>,
    ttl: u64,
    contents: Ghost<Map<Seq<char>, SessionView>>,
}

impl View for SessionStore {
    type V = Map<Seq<char>, SessionView>;

    closed spec fn view(&self) -> Map<Seq<char>, SessionView> {
        self.contents@
    }
}

impl SessionStore {
    /// The entries agree with the contents, one entry per token.
    pub closed spec fn wf(&self) -> bool {
        &&& forall|i: int, j: int|
            0 <= i < j < self.entries@.len() ==> #[trigger] self.entries@[i].token@
                != #[trigger] self.entries@[j].token@
        &&& forall|i: int|
            0 <= i < self.entries@.len() ==> self.contents@.contains_key(
                #[trigger] self.entries@[i].token@,
            ) && self.contents@[self.entries@[i].token@] == self.entries@[i].record()
        &&& forall|k: Seq<char>|
            #[trigger] self.contents@.contains_key(k) ==> exists|i: int|
                0 <= i < self.entries@.len() && #[trigger] self.entries@[i].token@ == k
    }

    /// The lifetime given to sessions opened at login.
    pub closed spec fn spec_ttl(&self) -> u64 {
        self.ttl
    }

    /// An empty store whose login sessions last `ttl` seconds.
    pub fn new(ttl: u64) -> (r: SessionStore)
        ensures
            r.wf(),
            r@ == Map::<Seq<char>, SessionView>::empty(),
            r.spec_ttl() == ttl,
    {
        SessionStore { entries: Vec::new(), ttl, contents: Ghost(Map::empty()) }
    }

    /// The lifetime given to sessions opened at login.
    pub fn ttl(&self) -> (r: u64)
        ensures
            r == self.spec_ttl(),
    {
        self.ttl
    }

    fn find(&self, token: &str) -> (r: Option<usize>)
        requires
            self.wf(),
        ensures
            match r {
                Some(i) => i < self.entries@.len() && self.entries@[i as int].token@ == token@,
                None => !self@.contains_key(token@),
            },
    {
        let mut i: usize = 0;
        while i < self.entries.len()
            invariant
                self.wf(),
                i <= self.entries@.len(),
                forall|j: int| 0 <= j < i ==> self.entries@[j].token@ != token@,
            decreases self.entries@.len() - i,
        {
            if constant_time_eq(self.entries[i].token.as_str(), token) {
                return Some(i);
            }
            i = i + 1;
        }
        None
    }

    /// Stores `rec` under `token`, replacing whatever was there.
    fn put(&mut self, entry: SessionEntry)
        requires
            old(self).wf(),
        ensures
            final(self).wf(),
            final(self)@ == old(self)@.insert(entry.token@, entry.record()),
            final(self).spec_ttl() == old(self).spec_ttl(),
    {
        let ghost key = entry.token@;
        let ghost rec = entry.record();
        let found = self.find(entry.token.as_str());
        match found {
            Some(i) => {
                self.entries.set(i, entry);
                proof {
                    self.contents@ = self.contents@.insert(key, rec);
                    assert forall|k: Seq<char>| #[trigger] self.contents@.contains_key(k) implies exists|j: int|
                        0 <= j < self.entries@.len() && #[trigger] self.entries@[j].token@ == k by {
                        if k == key {
                            assert(self.entries@[i as int].token@ == k);
                        } else {
                            assert(old(self).contents@.contains_key(k));
                            let j = choose|j: int| 0 <= j < old(self).entries@.len() && #[trigger] old(self).entries@[j].token@ == k;
                            assert(self.entries@[j].token@ == k);
                        }
                    }
                }
            },
            None => {
                self.entries.push(entry);
                proof {
                    self.contents@ = self.contents@.insert(key, rec);
                    let n = old(self).entries@.len() as int;
                    assert(self.entries@[n].token@ == key);
                    assert forall|k: Seq<char>| #[trigger] self.contents@.contains_key(k) implies exists|j: int|
                        0 <= j < self.entries@.len() && #[trigger] self.entries@[j].token@ == k by {
                        if k == key {
                            assert(self.entries@[n].token@ == k);
                        } else {
                            assert(old(self).contents@.contains_key(k));
                            let j = choose|j: int| 0 <= j < old(self).entries@.len() && #[trigger] old(self).entries@[j].token@ == k;
                            assert(self.entries@[j].token@ == k);
                        }
                    }
                    assert forall|i: int| 0 <= i < n implies #[trigger] self.entries@[i].token@ != key by {
                        assert(old(self).entries@[i].token@ == self.entries@[i].token@);
                        assert(old(self).contents@.contains_key(old(self).entries@[i].token@));
                    }
                }
            },
        }
    }

    /// Removes whatever is stored under `token`.
    fn remove(&mut self, token: &str)
        requires
            old(self).wf(),
        ensures
            final(self).wf(),
            final(self)@ == old(self)@.remove(token@),
            final(self).spec_ttl() == old(self).spec_ttl(),
    {
        let found = self.find(token);
        match found {
            Some(i) => {
                self.entries.remove(i);
                proof {
                    let key = token@;
                    self.contents@ = self.contents@.remove(key);
                    let olde = old(self).entries@;
                    assert forall|j: int| 0 <= j < self.entries@.len() implies #[trigger] self.entries@[j].token@ != key by {
                        if j < i {
                            assert(olde[j].token@ != olde[i as int].token@);
                        } else {
                            assert(self.entries@[j] == olde[j + 1]);
                            assert(olde[i as int].token@ != olde[j + 1].token@);
                        }
                    }
                    assert forall|k: Seq<char>| #[trigger] self.contents@.contains_key(k) implies exists|j: int|
                        0 <= j < self.entries@.len() && #[trigger] self.entries@[j].token@ == k by {
                        assert(old(self).contents@.contains_key(k));
                        let j = choose|j: int| 0 <= j < olde.len() && #[trigger] olde[j].token@ == k;
                        if j < i {
                            assert(self.entries@[j].token@ == k);
                        } else {
                            assert(j != i);
                            assert(self.entries@[j - 1].token@ == k);
                        }
                    }
                    assert forall|a: int, b: int| 0 <= a < b < self.entries@.len() implies #[trigger] self.entries@[a].token@
                        != #[trigger] self.entries@[b].token@ by {
                        let oa = if a < i { a } else { a + 1 };
                        let ob = if b < i { b } else { b + 1 };
                        assert(self.entries@[a] == olde[oa]);
                        assert(self.entries@[b] == olde[ob]);
                        assert(olde[oa].token@ != olde[ob].token@);
                    }
                    assert forall|j: int| 0 <= j < self.entries@.len() implies self.contents@.contains_key(
                        #[trigger] self.entries@[j].token@,
                    ) && self.contents@[self.entries@[j].token@] == self.entries@[j].record() by {
                        let oj = if j < i { j } else { j + 1 };
                        assert(self.entries@[j] == olde[oj]);
                        assert(old(self).contents@.contains_key(olde[oj].token@));
                    }
                }
            },
            None => {
                proof {
                    assert(old(self)@.remove(token@) =~= old(self)@);
                }
            },
        }
    }
}

/// Relies on `chrono::Utc::now` and `chrono::DateTime::timestamp`: the current
/// time as seconds since the Unix epoch. Nothing is known of the value.
#[verifier::external_body]
fn utc_timestamp() -> (r: i64) {
    chrono::Utc::now().timestamp()
}

/// The current time in whole seconds since the Unix epoch.
pub fn now_seconds() -> (r: u64) {
    let t = utc_timestamp();
    if t < 0 {
        0
    } else {
        t as u64
    }
}

/// Opens a session for `account` at `now` that lasts `ttl` seconds, under a
/// fresh token derived from a random seed, and returns the token. A stale
/// record under the same token is overwritten.
pub fn set_session(sessions: &mut SessionStore, account: &str, ttl: u64, now: u64) -> (r: Result<String, AuthError>)
    requires
        old(sessions).wf(),
    ensures
        final(sessions).wf(),
        final(sessions).spec_ttl() == old(sessions).spec_ttl(),
        r is Ok,
        r matches Ok(t) ==> {
            &&& final(sessions)@ == old(sessions)@.insert(t@, (account@, now, expiry(now, ttl)))
            &&& exists|seed: Seq<char>| seed.len() == TOKEN_SEED_LEN && t@ == sha3_hex_of(seed)
        },
{
    let (token, seed) = new_session_token();
    let expires_at = if now > u64::MAX - ttl {
        u64::MAX
    } else {
        now + ttl
    };
    let entry = SessionEntry {
        token: token.clone(),
        account: account.to_owned(),
        login_time: now,
        expires_at,
    };
    sessions.put(entry);
    proof {
        assert(seed@.len() == TOKEN_SEED_LEN && token@ == sha3_hex_of(seed@));
    }
    Ok(token)
}

/// The account name of the session under `token`, if it is live at `now`.
pub fn resolve_session(sessions: &SessionStore, token: &str, now: u64) -> (r: Result<String, AuthError>)
    requires
        sessions.wf(),
    ensures
        match resolved(sessions@, token@, now) {
            Some(a) => r matches Ok(s) && s@ == a,
            None => r == Err::<String, AuthError>(AuthError::SessionNotFound),
        },
{
    match sessions.find(token) {
        Some(i) => {
            let entry = &sessions.entries[i];
            proof {
                assert(sessions@.contains_key(token@));
            }
            if now < entry.expires_at {
                Ok(entry.account.clone())
            } else {
                Err(AuthError::SessionNotFound)
            }
        },
        None => Err(AuthError::SessionNotFound),
    }
}

/// Deletes the session under `token`; an absent token is no error.
pub fn destroy_session(sessions: &mut SessionStore, token: &str)
    requires
        old(sessions).wf(),
    ensures
        final(sessions).wf(),
        final(sessions)@ == old(sessions)@.remove(token@),
        final(sessions).spec_ttl() == old(sessions).spec_ttl(),
{
    sessions.remove(token);
}

} // verus!
