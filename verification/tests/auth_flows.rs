use velox::auth::{AuthCommand, AuthEvent, AuthService, AuthStep};
use velox::error::VeloxError;
use velox::models::{MagicToken, RefreshToken, ResponseType, TempUser, User};
use velox::time::Timestamp;

fn ts(secs: i64) -> Timestamp {
    Timestamp { secs, nanos: 0 }
}

fn user(id: u128, email: &str) -> User {
    User { id, email: email.to_string(), name: None, avatar: None, gender: None, created_at: ts(0) }
}

fn run<T: std::fmt::Debug>(step: AuthStep<T>) -> AuthCommand {
    match step {
        AuthStep::Run(c) => c,
        AuthStep::Finish(r) => panic!("expected a command, got {:?}", r),
    }
}

fn finish<T: std::fmt::Debug>(step: AuthStep<T>) -> Result<T, VeloxError> {
    match step {
        AuthStep::Finish(r) => r,
        AuthStep::Run(c) => panic!("expected a result, got {:?}", c),
    }
}

#[test]
fn login_of_existing_user_mails_a_login_link() {
    let (flow, step) = AuthService::login("a@b.c");
    assert!(matches!(run(step), AuthCommand::FindUserByEmail(e) if e == "a@b.c"));
    let (flow, step) = flow.resume(AuthEvent::UserLookup(Some(user(1, "a@b.c"))));
    assert!(matches!(run(step), AuthCommand::DeleteMagicTokens(e) if e == "a@b.c"));
    let (flow, step) = flow.resume(AuthEvent::Done);
    let stored = match run(step) {
        AuthCommand::InsertMagicToken { token_hash, email, kind } => {
            assert_eq!(email, "a@b.c");
            assert_eq!(kind, ResponseType::LogIn);
            token_hash
        }
        c => panic!("{:?}", c),
    };
    let (flow, step) = flow.resume(AuthEvent::Done);
    let raw = match run(step) {
        AuthCommand::SendMagicLink { kind, email, raw_token } => {
            assert_eq!(kind, ResponseType::LogIn);
            assert_eq!(email, "a@b.c");
            raw_token
        }
        c => panic!("{:?}", c),
    };
    assert_eq!(AuthService::generate_sha256(&raw), stored);
    let (flow, step) = flow.resume(AuthEvent::Done);
    assert!(matches!(run(step), AuthCommand::Commit));
    let (flow, step) = flow.resume(AuthEvent::Done);
    assert_eq!(finish(step), Ok(()));
    // a finished flow refuses to go on
    let (_, step) = flow.resume(AuthEvent::Done);
    assert_eq!(finish(step), Err(VeloxError::InternalError));
}

#[test]
fn login_of_new_address_records_a_pending_sign_up() {
    let (flow, _) = AuthService::login("new@b.c");
    let (flow, step) = flow.resume(AuthEvent::UserLookup(None));
    assert!(matches!(run(step), AuthCommand::DeleteMagicTokens(_)));
    let (flow, step) = flow.resume(AuthEvent::Done);
    assert!(matches!(run(step), AuthCommand::UpsertTempUser(e) if e == "new@b.c"));
    let (flow, step) = flow.resume(AuthEvent::Done);
    assert!(matches!(run(step), AuthCommand::InsertMagicToken { kind: ResponseType::SignIn, .. }));
    let (flow, step) = flow.resume(AuthEvent::Done);
    assert!(matches!(run(step), AuthCommand::SendMagicLink { kind: ResponseType::SignIn, .. }));
    let (flow, step) = flow.resume(AuthEvent::Done);
    assert!(matches!(run(step), AuthCommand::Commit));
    let (_, step) = flow.resume(AuthEvent::Done);
    assert_eq!(finish(step), Ok(()));
}

#[test]
fn login_failure_is_passed_through() {
    let (flow, _) = AuthService::login("a@b.c");
    let (flow, _) = flow.resume(AuthEvent::UserLookup(None));
    let (_, step) = flow.resume(AuthEvent::Failed(VeloxError::EmailError));
    assert_eq!(finish(step), Err(VeloxError::EmailError));
}

#[test]
fn login_answer_of_the_wrong_kind_is_an_internal_error() {
    let (flow, _) = AuthService::login("a@b.c");
    let (_, step) = flow.resume(AuthEvent::Done);
    assert_eq!(finish(step), Err(VeloxError::InternalError));
}

fn magic(email: &str, kind: ResponseType, expires: i64) -> MagicToken {
    MagicToken { token: "h".to_string(), email: email.to_string(), kind, created_at: ts(0), expires_at: ts(expires) }
}

#[test]
fn authorize_sign_up_promotes_the_pending_user() {
    let (flow, step) = AuthService::authorize("raw-token");
    let expected = AuthService::generate_sha256("raw-token");
    assert!(matches!(run(step), AuthCommand::FindMagicToken(h) if h == expected));
    let (flow, step) = flow.resume(AuthEvent::MagicTokenLookup(Some(magic("n@b.c", ResponseType::SignIn, 100)), ts(50)));
    assert!(matches!(run(step), AuthCommand::FindTempUser(e) if e == "n@b.c"));
    let (flow, step) = flow.resume(AuthEvent::TempUserLookup(Some(TempUser { email: "n@b.c".to_string() })));
    assert!(matches!(run(step), AuthCommand::InsertUser(e) if e == "n@b.c"));
    let (flow, step) = flow.resume(AuthEvent::UserInserted(user(42, "n@b.c")));
    assert!(matches!(run(step), AuthCommand::DeleteTempUser(e) if e == "n@b.c"));
    let (flow, step) = flow.resume(AuthEvent::Done);
    assert!(matches!(run(step), AuthCommand::DeleteMagicTokens(e) if e == "n@b.c"));
    let (flow, step) = flow.resume(AuthEvent::Done);
    assert!(matches!(run(step), AuthCommand::IssueAccessToken(42)));
    let (flow, step) = flow.resume(AuthEvent::AccessToken("jwt".to_string()));
    let stored = match run(step) {
        AuthCommand::InsertRefreshToken { token_hash, user_id } => {
            assert_eq!(user_id, 42);
            token_hash
        }
        c => panic!("{:?}", c),
    };
    let (flow, step) = flow.resume(AuthEvent::Done);
    assert!(matches!(run(step), AuthCommand::Commit));
    let (_, step) = flow.resume(AuthEvent::Done);
    let (access, refresh) = finish(step).unwrap();
    assert_eq!(access, "jwt");
    assert_eq!(refresh.len(), 64);
    assert_eq!(AuthService::generate_sha256(&refresh), stored);
}

#[test]
fn authorize_login_uses_the_existing_user() {
    let (flow, _) = AuthService::authorize("t");
    let (flow, step) = flow.resume(AuthEvent::MagicTokenLookup(Some(magic("a@b.c", ResponseType::LogIn, 100)), ts(100)));
    assert!(matches!(run(step), AuthCommand::FindUserByEmail(e) if e == "a@b.c"));
    let (flow, step) = flow.resume(AuthEvent::UserLookup(Some(user(7, "a@b.c"))));
    assert!(matches!(run(step), AuthCommand::DeleteMagicTokens(e) if e == "a@b.c"));
    let (flow, step) = flow.resume(AuthEvent::Done);
    assert!(matches!(run(step), AuthCommand::IssueAccessToken(7)));
    let (flow, step) = flow.resume(AuthEvent::AccessToken("jwt7".to_string()));
    assert!(matches!(run(step), AuthCommand::InsertRefreshToken { user_id: 7, .. }));
    let (flow, step) = flow.resume(AuthEvent::Done);
    assert!(matches!(run(step), AuthCommand::Commit));
    let (_, step) = flow.resume(AuthEvent::Done);
    assert_eq!(finish(step).unwrap().0, "jwt7");
}

#[test]
fn authorize_refuses_unknown_and_expired_tokens() {
    let (flow, _) = AuthService::authorize("t");
    let (_, step) = flow.resume(AuthEvent::MagicTokenLookup(None, ts(0)));
    assert_eq!(finish(step), Err(VeloxError::InvalidToken));

    let (flow, _) = AuthService::authorize("t");
    let (_, step) = flow.resume(AuthEvent::MagicTokenLookup(Some(magic("a@b.c", ResponseType::LogIn, 100)), ts(101)));
    assert_eq!(finish(step), Err(VeloxError::InvalidToken));

    // expiring within the same second still counts
    let (flow, _) = AuthService::authorize("t");
    let late = Timestamp { secs: 100, nanos: 1 };
    let (_, step) = flow.resume(AuthEvent::MagicTokenLookup(Some(magic("a@b.c", ResponseType::LogIn, 100)), late));
    assert_eq!(finish(step), Err(VeloxError::InvalidToken));
}

#[test]
fn authorize_needs_the_pending_user_or_the_user() {
    let (flow, _) = AuthService::authorize("t");
    let (flow, _) = flow.resume(AuthEvent::MagicTokenLookup(Some(magic("a@b.c", ResponseType::SignIn, 100)), ts(0)));
    let (_, step) = flow.resume(AuthEvent::TempUserLookup(None));
    assert_eq!(finish(step), Err(VeloxError::InvalidToken));

    let (flow, _) = AuthService::authorize("t");
    let (flow, _) = flow.resume(AuthEvent::MagicTokenLookup(Some(magic("a@b.c", ResponseType::LogIn, 100)), ts(0)));
    let (_, step) = flow.resume(AuthEvent::UserLookup(None));
    assert_eq!(finish(step), Err(VeloxError::NotFound));
}

#[test]
fn login_link_is_found_by_authorize() {
    let (flow, _) = AuthService::login("a@b.c");
    let (flow, _) = flow.resume(AuthEvent::UserLookup(Some(user(1, "a@b.c"))));
    let (flow, step) = flow.resume(AuthEvent::Done);
    let stored = match run(step) {
        AuthCommand::InsertMagicToken { token_hash, .. } => token_hash,
        c => panic!("{:?}", c),
    };
    let (_, step) = flow.resume(AuthEvent::Done);
    let raw = match run(step) {
        AuthCommand::SendMagicLink { raw_token, .. } => raw_token,
        c => panic!("{:?}", c),
    };
    let (_, step) = AuthService::authorize(&raw);
    assert!(matches!(run(step), AuthCommand::FindMagicToken(h) if h == stored));
}

fn refresh_row(user_id: u128, expires: i64) -> RefreshToken {
    RefreshToken { token: "stored-hash".to_string(), user_id, expires_at: ts(expires) }
}

#[test]
fn refresh_rotates_the_refresh_token() {
    let (flow, step) = AuthService::refresh("old");
    let h = AuthService::generate_sha256("old");
    assert!(matches!(run(step), AuthCommand::FindRefreshToken(x) if x == h));
    let (flow, step) = flow.resume(AuthEvent::RefreshTokenLookup(Some(refresh_row(5, 10)), ts(9)));
    assert!(matches!(run(step), AuthCommand::FindUserById(5)));
    let (flow, step) = flow.resume(AuthEvent::UserLookup(Some(user(5, "a@b.c"))));
    assert!(matches!(run(step), AuthCommand::DeleteRefreshToken(x) if x == "stored-hash"));
    let (flow, step) = flow.resume(AuthEvent::Done);
    let stored = match run(step) {
        AuthCommand::InsertRefreshToken { token_hash, user_id: 5 } => token_hash,
        c => panic!("{:?}", c),
    };
    let (flow, step) = flow.resume(AuthEvent::Done);
    assert!(matches!(run(step), AuthCommand::IssueAccessToken(5)));
    let (flow, step) = flow.resume(AuthEvent::AccessToken("a".to_string()));
    assert!(matches!(run(step), AuthCommand::Commit));
    let (_, step) = flow.resume(AuthEvent::Done);
    let (access, refresh) = finish(step).unwrap();
    assert_eq!(access, "a");
    assert_ne!(refresh, "old");
    assert_eq!(AuthService::generate_sha256(&refresh), stored);
}

#[test]
fn refresh_refusals() {
    let (flow, _) = AuthService::refresh("old");
    let (_, step) = flow.resume(AuthEvent::RefreshTokenLookup(None, ts(0)));
    assert_eq!(finish(step), Err(VeloxError::InvalidToken));

    let (flow, _) = AuthService::refresh("old");
    let (_, step) = flow.resume(AuthEvent::RefreshTokenLookup(Some(refresh_row(5, 10)), ts(11)));
    assert_eq!(finish(step), Err(VeloxError::InvalidToken));

    let (flow, _) = AuthService::refresh("old");
    let (flow, _) = flow.resume(AuthEvent::RefreshTokenLookup(Some(refresh_row(5, 10)), ts(10)));
    let (_, step) = flow.resume(AuthEvent::UserLookup(None));
    assert_eq!(finish(step), Err(VeloxError::NotFound));

    let (flow, _) = AuthService::refresh("old");
    let (_, step) = flow.resume(AuthEvent::Failed(VeloxError::SqlxError("down".to_string())));
    assert_eq!(finish(step), Err(VeloxError::SqlxError("down".to_string())));
}

#[test]
fn logout_deletes_the_presented_refresh_token() {
    let (flow, step) = AuthService::logout("tok");
    let h = AuthService::generate_sha256("tok");
    assert!(matches!(run(step), AuthCommand::DeleteRefreshToken(x) if x == h));
    let (flow, step) = flow.resume(AuthEvent::Done);
    assert!(matches!(run(step), AuthCommand::Commit));
    let (_, step) = flow.resume(AuthEvent::Done);
    assert_eq!(finish(step), Ok(()));

    let (flow, _) = AuthService::logout("tok");
    let (_, step) = flow.resume(AuthEvent::AccessToken("x".to_string()));
    assert_eq!(finish(step), Err(VeloxError::InternalError));
}

#[test]
fn access_token_expires_fifteen_minutes_after_issue() {
    let c = AuthService::claims_at(9, Timestamp { secs: 1_700_000_000, nanos: 5 });
    assert_eq!(c.user_id, 9);
    assert_eq!(c.exp, 1_700_000_900);
    let now = AuthService::access_token_claims(3).unwrap();
    assert_eq!(now.user_id, 3);
    assert!(now.exp > 1_700_000_000);
}

#[test]
fn instants_are_ordered_by_seconds_then_nanoseconds() {
    assert!(ts(1).is_before(&ts(2)));
    assert!(!ts(2).is_before(&ts(2)));
    assert!(Timestamp { secs: 2, nanos: 1 }.is_before(&Timestamp { secs: 2, nanos: 2 }));
    assert!(!Timestamp { secs: 3, nanos: 0 }.is_before(&Timestamp { secs: 2, nanos: 9 }));
}

#[test]
fn session_refresh_token_is_found_by_refresh_and_logout() {
    let (flow, _) = AuthService::authorize("t");
    let (flow, _) = flow.resume(AuthEvent::MagicTokenLookup(Some(magic("a@b.c", ResponseType::LogIn, 100)), ts(0)));
    let (flow, _) = flow.resume(AuthEvent::UserLookup(Some(user(7, "a@b.c"))));
    let (flow, _) = flow.resume(AuthEvent::Done);
    let (flow, step) = flow.resume(AuthEvent::AccessToken("jwt".to_string()));
    let stored = match run(step) {
        AuthCommand::InsertRefreshToken { token_hash, .. } => token_hash,
        c => panic!("{:?}", c),
    };
    let (flow, _) = flow.resume(AuthEvent::Done);
    let (_, step) = flow.resume(AuthEvent::Done);
    let (_, refresh) = finish(step).unwrap();

    let (_, step) = AuthService::refresh(&refresh);
    assert!(matches!(run(step), AuthCommand::FindRefreshToken(h) if h == stored));
    let (_, step) = AuthService::logout(&refresh);
    assert!(matches!(run(step), AuthCommand::DeleteRefreshToken(h) if h == stored));
}
