use user_auth::secret::{constant_time_eq, hex_encode, new_salt, new_session_token};
use user_auth::{
    destroy_session, make_pwd_encode, now_seconds, resolve_session, set_session, sha3_256_encode,
    AuthError, GithubUserInfo, RecordStore, Ruser, SessionStore, UpdateUserNickname,
    UserChangePassword, UserEdit, UserLogin, UserSignUp, DEFAULT_SESSION_TTL,
};

fn signup(account: &str, password: &str, nickname: &str) -> UserSignUp {
    UserSignUp {
        account: account.to_string(),
        password: password.to_string(),
        nickname: nickname.to_string(),
    }
}

fn login(account: &str, password: &str) -> UserLogin {
    UserLogin { account: account.to_string(), password: password.to_string() }
}

fn store_with(account: &str, password: &str, nickname: &str) -> RecordStore {
    let mut records = RecordStore::new();
    let r = signup(account, password, nickname).sign_up(&mut records, None, 1000);
    assert_eq!(r, Ok("register success.".to_string()));
    records
}

#[test]
fn register_same_name_twice_fails() {
    let mut records = RecordStore::new();
    let req = signup("bob", "secret", "Bob");
    assert!(req.sign_up(&mut records, None, 1).is_ok());
    assert_eq!(req.sign_up(&mut records, None, 2), Err(AuthError::AccountExists));
    let other = signup("bob", "another", "Robert");
    assert_eq!(other.sign_up(&mut records, None, 3), Err(AuthError::AccountExists));
    assert_eq!(records.user_count(), 1);
    assert_eq!(records.section_count(), 1);
}

#[test]
fn sign_up_stores_salted_digest_and_section() {
    let mut records = RecordStore::new();
    let r = signup("carol", "pw", "Carol").sign_up(
        &mut records,
        Some("https://github.com/carol".to_string()),
        77,
    );
    assert!(r.is_ok());
    let u = records.user_at(0);
    assert_eq!(u.account, "carol");
    assert_eq!(u.nickname, "Carol");
    assert_eq!(u.salt.chars().count(), 16);
    assert_ne!(u.password, "pw");
    assert_eq!(u.password, make_pwd_encode("pw", &u.salt));
    assert_eq!(u.github, Some("https://github.com/carol".to_string()));
    assert_eq!(u.status, 0);
    assert_eq!(u.signup_time, 77);
    let s = records.section_at(0);
    assert_eq!(s.title, "Carol");
    assert_eq!(s.description, "Carol's blog");
    assert_eq!(s.stype, 1);
    assert_eq!(s.suser, Some(u.id));
}

#[test]
fn salted_digest_is_deterministic_and_separates_passwords() {
    let salt = new_salt();
    assert_eq!(make_pwd_encode("p", &salt), make_pwd_encode("p", &salt));
    assert_ne!(make_pwd_encode("first", &salt), make_pwd_encode("second", &salt));
    assert_ne!(make_pwd_encode("p", "salt1"), make_pwd_encode("p", "salt2"));
    assert_eq!(make_pwd_encode("pw", "salt"), sha3_256_encode("pwsalt"));
}

#[test]
fn sha3_known_digests() {
    assert_eq!(
        sha3_256_encode(""),
        "a7ffc6f8bf1ed76651c14756a061d662f580ff4de43b49fa82d80a4b80f8434a"
    );
    assert_eq!(
        sha3_256_encode("abc"),
        "3a985da74fe225b2045c172d6bd390bd855f086e3e9d525b46bfe24511431532"
    );
}

#[test]
fn hex_encoding() {
    assert_eq!(hex_encode(&vec![]), "");
    assert_eq!(hex_encode(&vec![0x00, 0x0f, 0xa5, 0xff]), "000fa5ff");
}

#[test]
fn constant_time_comparison() {
    assert!(constant_time_eq("abc", "abc"));
    assert!(constant_time_eq("", ""));
    assert!(!constant_time_eq("abc", "abd"));
    assert!(!constant_time_eq("abc", "ab"));
    assert!(!constant_time_eq("xbc", "abc"));
}

#[test]
fn salts_and_tokens_are_fresh() {
    let a = new_salt();
    let b = new_salt();
    assert_eq!(a.len(), 16);
    assert!(a.chars().all(|c| c.is_ascii_alphanumeric()));
    assert_ne!(a, b);
    let (t1, seed1) = new_session_token();
    let (t2, _) = new_session_token();
    assert_eq!(seed1.len(), 32);
    assert_eq!(t1.len(), 64);
    assert_eq!(t1, sha3_256_encode(&seed1));
    assert_ne!(t1, t2);
}

#[test]
fn login_token_resolves_to_account() {
    let records = store_with("dave", "hunter2", "Dave");
    let mut sessions = SessionStore::new(DEFAULT_SESSION_TTL);
    let t = login("dave", "hunter2").verify_login(&records, &mut sessions, 500).unwrap();
    assert_eq!(t.len(), 64);
    assert_eq!(resolve_session(&sessions, &t, 500), Ok("dave".to_string()));
    assert_eq!(
        resolve_session(&sessions, &t, 500 + DEFAULT_SESSION_TTL - 1),
        Ok("dave".to_string())
    );
    assert_eq!(
        resolve_session(&sessions, &t, 500 + DEFAULT_SESSION_TTL),
        Err(AuthError::SessionNotFound)
    );
}

#[test]
fn login_failures() {
    let records = store_with("erin", "right", "Erin");
    let mut sessions = SessionStore::new(60);
    assert_eq!(
        login("erin", "wrong").verify_login(&records, &mut sessions, 0),
        Err(AuthError::InvalidCredentials)
    );
    assert_eq!(
        login("nobody", "right").verify_login(&records, &mut sessions, 0),
        Err(AuthError::AccountNotFound)
    );
}

#[test]
fn raw_digest_login() {
    let records = store_with("finn", "pw", "Finn");
    let mut sessions = SessionStore::new(60);
    let digest = records.user_at(0).password;
    let t = login("finn", &digest).verify_login_with_rawpwd(&records, &mut sessions, 10).unwrap();
    assert_eq!(resolve_session(&sessions, &t, 10), Ok("finn".to_string()));
    assert_eq!(
        login("finn", "pw").verify_login_with_rawpwd(&records, &mut sessions, 10),
        Err(AuthError::InvalidCredentials)
    );
    assert_eq!(
        login("gail", &digest).verify_login_with_rawpwd(&records, &mut sessions, 10),
        Err(AuthError::AccountNotFound)
    );
}

#[test]
fn sign_out_ends_session() {
    let records = store_with("gus", "pw", "Gus");
    let mut sessions = SessionStore::new(60);
    let t = login("gus", "pw").verify_login(&records, &mut sessions, 0).unwrap();
    assert_eq!(Ruser::sign_out(&mut sessions, &t), Ok(()));
    assert_eq!(resolve_session(&sessions, &t, 0), Err(AuthError::SessionNotFound));
    assert_eq!(Ruser::sign_out(&mut sessions, &t), Ok(()));
    assert_eq!(Ruser::sign_out(&mut sessions, "never-issued"), Ok(()));
}

#[test]
fn session_expires_after_ttl() {
    let mut sessions = SessionStore::new(DEFAULT_SESSION_TTL);
    let t = set_session(&mut sessions, "hal", 10, 100).unwrap();
    assert_eq!(resolve_session(&sessions, &t, 100), Ok("hal".to_string()));
    assert_eq!(resolve_session(&sessions, &t, 109), Ok("hal".to_string()));
    assert_eq!(resolve_session(&sessions, &t, 110), Err(AuthError::SessionNotFound));
    assert_eq!(resolve_session(&sessions, &t, 5000), Err(AuthError::SessionNotFound));
    let zero = set_session(&mut sessions, "hal", 0, 100).unwrap();
    assert_eq!(resolve_session(&sessions, &zero, 100), Err(AuthError::SessionNotFound));
    let far = set_session(&mut sessions, "hal", u64::MAX, 100).unwrap();
    assert_eq!(resolve_session(&sessions, &far, u64::MAX - 1), Ok("hal".to_string()));
}

#[test]
fn destroy_session_is_idempotent() {
    let mut sessions = SessionStore::new(60);
    let t = set_session(&mut sessions, "ivy", 60, 0).unwrap();
    let u = set_session(&mut sessions, "jon", 60, 0).unwrap();
    destroy_session(&mut sessions, &t);
    destroy_session(&mut sessions, &t);
    assert_eq!(resolve_session(&sessions, &t, 1), Err(AuthError::SessionNotFound));
    assert_eq!(resolve_session(&sessions, &u, 1), Ok("jon".to_string()));
    assert_eq!(resolve_session(&sessions, "unknown", 1), Err(AuthError::SessionNotFound));
}

#[test]
fn default_ttl_is_sixty_days() {
    assert_eq!(DEFAULT_SESSION_TTL, 5_184_000);
    assert_eq!(SessionStore::new(DEFAULT_SESSION_TTL).ttl(), 5_184_000);
}

#[test]
fn now_is_after_2020() {
    assert!(now_seconds() > 1_577_836_800);
}

#[test]
fn alice_scenario() {
    let mut records = RecordStore::new();
    let mut sessions = SessionStore::new(DEFAULT_SESSION_TTL);
    let req = signup("alice", "pw123", "Alice");
    assert_eq!(req.sign_up(&mut records, None, 0), Ok("register success.".to_string()));
    let t = login("alice", "pw123").verify_login(&records, &mut sessions, 10).unwrap();
    let u = Ruser::get_user_by_cookie(&records, &sessions, &t, 10).unwrap();
    assert_eq!(u.account, "alice");
    assert_eq!(u.nickname, "Alice");
    assert_eq!(
        login("alice", "wrong").verify_login(&records, &mut sessions, 10),
        Err(AuthError::InvalidCredentials)
    );
    assert_eq!(Ruser::sign_out(&mut sessions, &t), Ok(()));
    assert_eq!(resolve_session(&sessions, &t, 10), Err(AuthError::SessionNotFound));
}

#[test]
fn lookups_by_account_id_and_cookie() {
    let records = store_with("kim", "pw", "Kim");
    let mut sessions = SessionStore::new(60);
    let id = records.user_at(0).id;
    assert_eq!(Ruser::get_user_by_account(&records, "kim").unwrap().id, id);
    assert_eq!(Ruser::get_user_by_account(&records, "lee").map(|u| u.id), Err(AuthError::AccountNotFound));
    assert_eq!(Ruser::get_user_by_id(&records, id).unwrap().account, "kim");
    assert_eq!(Ruser::get_user_by_id(&records, id.wrapping_add(1)).map(|u| u.id), Err(AuthError::AccountNotFound));
    assert_eq!(
        Ruser::get_user_by_cookie(&records, &sessions, "nope", 0).map(|u| u.id),
        Err(AuthError::SessionNotFound)
    );
    let orphan = set_session(&mut sessions, "ghost", 60, 0).unwrap();
    assert_eq!(
        Ruser::get_user_by_cookie(&records, &sessions, &orphan, 0).map(|u| u.id),
        Err(AuthError::AccountNotFound)
    );
}

#[test]
fn profile_update_through_session() {
    let mut records = store_with("max", "pw", "Max");
    let mut sessions = SessionStore::new(60);
    let t = login("max", "pw").verify_login(&records, &mut sessions, 0).unwrap();
    let edit = UserEdit { nickname: None, github: Some("https://github.com/max".to_string()) };
    let u = edit.update(&mut records, &sessions, &t, 1).unwrap();
    assert_eq!(u.nickname, "Max");
    assert_eq!(u.github, Some("https://github.com/max".to_string()));
    let edit = UserEdit { nickname: Some("Maximilian".to_string()), github: None };
    let u = edit.update(&mut records, &sessions, &t, 1).unwrap();
    assert_eq!(u.nickname, "Maximilian");
    assert_eq!(u.github, Some("https://github.com/max".to_string()));
    assert_eq!(records.user_at(0).nickname, "Maximilian");
    assert_eq!(
        edit.update(&mut records, &sessions, &t, 60).map(|u| u.id),
        Err(AuthError::SessionNotFound)
    );
    let orphan = set_session(&mut sessions, "ghost", 60, 0).unwrap();
    assert_eq!(
        edit.update(&mut records, &sessions, &orphan, 1).map(|u| u.id),
        Err(AuthError::AccountNotFound)
    );
}

#[test]
fn nickname_update_by_id() {
    let mut records = store_with("ned", "pw", "Ned");
    let id = records.user_at(0).id;
    let u = UpdateUserNickname { id, nickname: "Edward".to_string() }.update(&mut records).unwrap();
    assert_eq!(u.nickname, "Edward");
    assert_eq!(u.account, "ned");
    assert_eq!(records.user_at(0).nickname, "Edward");
    assert_eq!(
        UpdateUserNickname { id: id.wrapping_add(1), nickname: "X".to_string() }
            .update(&mut records)
            .map(|u| u.id),
        Err(AuthError::AccountNotFound)
    );
}

#[test]
fn password_change_by_id() {
    let mut records = store_with("oli", "old", "Oli");
    let before = records.user_at(0);
    let u = UserChangePassword { id: before.id, password: "new".to_string() }
        .change(&mut records)
        .unwrap();
    assert_ne!(u.salt, before.salt);
    assert_eq!(u.password, make_pwd_encode("new", &u.salt));
    let mut sessions = SessionStore::new(60);
    assert!(login("oli", "new").verify_login(&records, &mut sessions, 0).is_ok());
    assert_eq!(
        login("oli", "old").verify_login(&records, &mut sessions, 0),
        Err(AuthError::InvalidCredentials)
    );
    assert_eq!(
        UserChangePassword { id: before.id.wrapping_add(1), password: "x".to_string() }
            .change(&mut records)
            .map(|u| u.id),
        Err(AuthError::AccountNotFound)
    );
}

#[test]
fn error_messages() {
    assert_eq!(AuthError::AccountExists.message(), "account exists already");
    assert_eq!(AuthError::SessionNotFound.message(), "no such session");
    let info = GithubUserInfo { account: "pat".to_string(), github_address: "https://github.com/pat".to_string() };
    assert_eq!(info.account, "pat");
}

fn plain_user(id: u128, account: &str, status: i16) -> Ruser {
    let salt = "abcdef".to_string();
    Ruser {
        id,
        account: account.to_string(),
        password: make_pwd_encode("pw", &salt),
        salt,
        nickname: account.to_string(),
        github: None,
        status,
        signup_time: 0,
    }
}

#[test]
fn disabled_account_cannot_log_in() {
    let mut records = RecordStore::new();
    assert_eq!(records.insert_user(plain_user(1, "quinn", 1)), Ok(()));
    let mut sessions = SessionStore::new(60);
    assert_eq!(
        login("quinn", "pw").verify_login(&records, &mut sessions, 0),
        Err(AuthError::AccountNotFound)
    );
    assert!(Ruser::get_user_by_account(&records, "quinn").is_ok());
    assert_eq!(records.insert_user(plain_user(2, "rae", 0)), Ok(()));
    assert!(login("rae", "pw").verify_login(&records, &mut sessions, 0).is_ok());
}

#[test]
fn store_refuses_duplicate_keys() {
    let mut records = RecordStore::new();
    assert_eq!(records.insert_user(plain_user(7, "sam", 0)), Ok(()));
    assert_eq!(records.insert_user(plain_user(8, "sam", 0)), Err(AuthError::AccountExists));
    assert_eq!(records.insert_user(plain_user(7, "tess", 0)), Err(AuthError::InternalInconsistency));
    assert_eq!(records.user_count(), 1);
    assert_eq!(records.find_by_account("sam"), Some(0));
    assert_eq!(records.find_by_id(7), Some(0));
    assert_eq!(records.find_by_id(8), None);
}
