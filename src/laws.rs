use vstd::prelude::*;

use crate::secret::salted_digest;
use crate::session::{expiry, resolved, SessionView};
use crate::store::{has_account, has_id, unique_keys, RecordStore, Ruser, SectionCreate};
use crate::user::{
    default_section, has_active, new_account, password_matches, registered, UserSignUp,
};

verus! {

/// The account that a registration appended, at the end of the accounts.
proof fn lemma_registered_account(
    before: RecordStore,
    after: RecordStore,
    req: UserSignUp,
    github: Option<String>,
    now: u64,
) -> (u: Ruser)
    requires
        registered(before, after, req, github, now),
    ensures
        new_account(u, req, github, now),
        !has_id(before.users(), u.id),
        after.users() == before.users().push(u),
        after.users()[before.users().len() as int] == u,
{
    let (u, s) = choose|u: Ruser, s: SectionCreate|
        #![trigger before.users().push(u), before.sections().push(s)]
        new_account(u, req, github, now) && default_section(s, u) && !has_id(before.users(), u.id)
            && after.users() == before.users().push(u) && after.sections() == before.sections().push(s);
    u
}

/// Once a registration of `req` has gone through, its account name is taken,
/// so registering `again` under the same name fails with `AccountExists`
/// (`sign_up` fails that way exactly when the name is taken).
pub proof fn registering_twice_fails(
    before: RecordStore,
    after: RecordStore,
    req: UserSignUp,
    github: Option<String>,
    now: u64,
    again: UserSignUp,
)
    requires
        registered(before, after, req, github, now),
        again.account@ == req.account@,
    ensures
        has_account(after.users(), again.account@),
{
    let u = lemma_registered_account(before, after, req, github, now);
}

/// A registration under a name that no account had adds one account, and
/// afterwards exactly one account carries that name.
pub proof fn registration_adds_exactly_one_account(
    before: RecordStore,
    after: RecordStore,
    req: UserSignUp,
    github: Option<String>,
    now: u64,
)
    requires
        registered(before, after, req, github, now),
        !has_account(before.users(), req.account@),
    ensures
        after.users().len() == before.users().len() + 1,
        has_account(after.users(), req.account@),
        forall|i: int|
            0 <= i < after.users().len() && (#[trigger] after.users()[i]).account@ == req.account@
                ==> i == before.users().len(),
{
    let u = lemma_registered_account(before, after, req, github, now);
    assert forall|i: int|
        0 <= i < after.users().len() && (#[trigger] after.users()[i]).account@ == req.account@
            implies i == before.users().len() by {
        if i < before.users().len() {
            assert(before.users()[i] == after.users()[i]);
        }
    }
}

/// The stored digest is a function of password and salt: equal inputs give
/// equal digests.
pub proof fn salted_digest_is_deterministic(pa: Seq<char>, sa: Seq<char>, pb: Seq<char>, sb: Seq<char>)
    requires
        pa == pb,
        sa == sb,
    ensures
        salted_digest(pa, sa) == salted_digest(pb, sb),
{
}

/// After a registration of `req`, logging in with the same name and password
/// succeeds (`verify_login` succeeds exactly when the password matches).
pub proof fn registered_account_logs_in(
    before: RecordStore,
    after: RecordStore,
    req: UserSignUp,
    github: Option<String>,
    now: u64,
)
    requires
        before.wf(),
        registered(before, after, req, github, now),
    ensures
        password_matches(after.users(), req.account@, req.password@),
{
    let u = lemma_registered_account(before, after, req, github, now);
}

/// The token that a login returns resolves, at the login instant, to the
/// account that logged in (for a positive lifetime, and a login instant before
/// the last representable one).
pub proof fn login_token_resolves(
    before: Map<Seq<char>, SessionView>,
    after: Map<Seq<char>, SessionView>,
    account: Seq<char>,
    token: Seq<char>,
    now: u64,
    ttl: u64,
)
    requires
        after == before.insert(token, (account, now, expiry(now, ttl))),
        0 < ttl,
        now < u64::MAX,
    ensures
        resolved(after, token, now) == Some(account),
{
}

/// An active account whose stored digest differs from the digest of
/// `password` under its salt refuses that password with
/// `InvalidCredentials`; a name that no account has gives `AccountNotFound`.
pub proof fn login_failures(users: Seq<Ruser>, i: int, password: Seq<char>, unknown: Seq<char>)
    requires
        unique_keys(users),
        0 <= i < users.len(),
        users[i].status == crate::store::STATUS_ACTIVE,
        users[i].password@ != salted_digest(password, users[i].salt@),
        !has_account(users, unknown),
    ensures
        has_active(users, users[i].account@),
        !password_matches(users, users[i].account@, password),
        !has_active(users, unknown),
{
    assert forall|j: int|
        0 <= j < users.len() && (#[trigger] users[j]).account@ == users[i].account@ implies j == i by {
        if j != i {
            assert(users[i].account@ != users[j].account@);
        }
    }
    assert forall|j: int| 0 <= j < users.len() implies (#[trigger] users[j]).account@ != unknown by {
    }
}

/// After a sign-out, the token no longer resolves, at any instant.
pub proof fn signed_out_token_is_gone(
    before: Map<Seq<char>, SessionView>,
    after: Map<Seq<char>, SessionView>,
    token: Seq<char>,
    now: u64,
)
    requires
        after == before.remove(token),
    ensures
        resolved(after, token, now) == None::<Seq<char>>,
{
}

/// A session opened at `now` with lifetime `ttl` resolves at every instant
/// from `now` up to, not including, `now + ttl` (below the last representable
/// instant, where expiry saturates), and no longer resolves from `now + ttl` on.
pub proof fn session_lifetime(
    before: Map<Seq<char>, SessionView>,
    after: Map<Seq<char>, SessionView>,
    account: Seq<char>,
    token: Seq<char>,
    now: u64,
    ttl: u64,
    later: u64,
)
    requires
        after == before.insert(token, (account, now, expiry(now, ttl))),
    ensures
        0 < ttl && now < u64::MAX ==> resolved(after, token, now) == Some(account),
        now <= later && later < now + ttl && later < u64::MAX ==> resolved(after, token, later) == Some(account),
        later >= now + ttl ==> resolved(after, token, later) == None::<Seq<char>>,
{
}

} // verus!
