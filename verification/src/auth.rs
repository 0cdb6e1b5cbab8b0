//! Passwordless authentication: magic links, sessions and their tokens.
//!
//! Each service operation is a state machine. It answers every event with
//! the next command to run against the database, the mailer or the token
//! signer, or with its final result. The caller runs the commands inside one
//! transaction, feeds back what each produced, and drops the transaction
//! (rolling it back) whenever the machine finishes without having committed.
use vstd::prelude::*;
use crate::crypto::{is_raw_token, random_key_bytes, sha256_digest, token_hash};
use crate::error::VeloxError;
use crate::mail::{
    spec_magic_link, spec_magic_link_html, spec_mail_subject, AUTHORIZE_PATH, HTML_AFTER_BODY,
    HTML_AFTER_CTA, HTML_AFTER_HEADING, HTML_AFTER_HREF, HTML_AFTER_LABEL, HTML_HEAD, HTML_TAIL,
    LOGIN_BODY, LOGIN_CTA, LOGIN_HEADING, LOGIN_LABEL, LOGIN_SUBJECT, SIGNUP_BODY, SIGNUP_CTA,
    SIGNUP_HEADING, SIGNUP_LABEL, SIGNUP_SUBJECT,
};
use crate::models::{MagicToken, RefreshToken, ResponseType, TempUser, User};
use crate::text::{hex_encode, hex_lower};
use crate::time::{spec_before, Timestamp, CLOCK_SECS_BOUND};

verus! {

/// Work that an authentication flow asks to be done.
#[derive(Debug)]
pub enum AuthCommand {
    FindUserByEmail(String),
    FindUserById(u128),
    InsertUser(String),
    FindMagicToken(String),
    DeleteMagicTokens(String),
    InsertMagicToken { token_hash: String, email: String, kind: ResponseType },
    UpsertTempUser(String),
    FindTempUser(String),
    DeleteTempUser(String),
    SendMagicLink { kind: ResponseType, email: String, raw_token: String },
    FindRefreshToken(String),
    DeleteRefreshToken(String),
    InsertRefreshToken { token_hash: String, user_id: u128 },
    IssueAccessToken(u128),
    Commit,
}

/// An [`AuthCommand`] with its texts taken as character sequences.
pub enum AuthCommandView {
    FindUserByEmail(Seq<char>),
    FindUserById(u128),
    InsertUser(Seq<char>),
    FindMagicToken(Seq<char>),
    DeleteMagicTokens(Seq<char>),
    InsertMagicToken { token_hash: Seq<char>, email: Seq<char>, kind: ResponseType },
    UpsertTempUser(Seq<char>),
    FindTempUser(Seq<char>),
    DeleteTempUser(Seq<char>),
    SendMagicLink { kind: ResponseType, email: Seq<char>, raw_token: Seq<char> },
    FindRefreshToken(Seq<char>),
    DeleteRefreshToken(Seq<char>),
    InsertRefreshToken { token_hash: Seq<char>, user_id: u128 },
    IssueAccessToken(u128),
    Commit,
}

impl View for AuthCommand {
    type V = AuthCommandView;

    open spec fn view(&self) -> AuthCommandView {
        match self {
            AuthCommand::FindUserByEmail(e) => AuthCommandView::FindUserByEmail(e@),
            AuthCommand::FindUserById(id) => AuthCommandView::FindUserById(*id),
            AuthCommand::InsertUser(e) => AuthCommandView::InsertUser(e@),
            AuthCommand::FindMagicToken(h) => AuthCommandView::FindMagicToken(h@),
            AuthCommand::DeleteMagicTokens(e) => AuthCommandView::DeleteMagicTokens(e@),
            AuthCommand::InsertMagicToken { token_hash, email, kind } => AuthCommandView::InsertMagicToken {
                token_hash: token_hash@,
                email: email@,
                kind: *kind,
            },
            AuthCommand::UpsertTempUser(e) => AuthCommandView::UpsertTempUser(e@),
            AuthCommand::FindTempUser(e) => AuthCommandView::FindTempUser(e@),
            AuthCommand::DeleteTempUser(e) => AuthCommandView::DeleteTempUser(e@),
            AuthCommand::SendMagicLink { kind, email, raw_token } => AuthCommandView::SendMagicLink {
                kind: *kind,
                email: email@,
                raw_token: raw_token@,
            },
            AuthCommand::FindRefreshToken(h) => AuthCommandView::FindRefreshToken(h@),
            AuthCommand::DeleteRefreshToken(h) => AuthCommandView::DeleteRefreshToken(h@),
            AuthCommand::InsertRefreshToken { token_hash, user_id } => AuthCommandView::InsertRefreshToken {
                token_hash: token_hash@,
                user_id: *user_id,
            },
            AuthCommand::IssueAccessToken(id) => AuthCommandView::IssueAccessToken(*id),
            AuthCommand::Commit => AuthCommandView::Commit,
        }
    }
}

/// What running the last command produced.
#[derive(Debug)]
pub enum AuthEvent {
    /// A command without a result succeeded.
    Done,
    UserLookup(Option<User>),
    UserInserted(User),
    /// The magic token found by its hash, and the time of the lookup.
    MagicTokenLookup(Option<MagicToken>, Timestamp),
    TempUserLookup(Option<TempUser>),
    /// The refresh token found by its hash, and the time of the lookup.
    RefreshTokenLookup(Option<RefreshToken>, Timestamp),
    /// A signed access token.
    AccessToken(String),
    /// The command failed.
    Failed(VeloxError),
}

/// The answer of a flow: run a command, or stop with a result.
#[derive(Debug)]
pub enum AuthStep<T> {
    Run(AuthCommand),
    Finish(Result<T, VeloxError>),
}

/// The claims of an access token: whose it is and when it expires
/// (seconds since the epoch).
#[derive(Debug, Clone, Copy, PartialEq, Eq)]
pub struct Claims {
    pub user_id: u128,
    pub exp: usize,
}

/// How long an access token lives, in seconds.
pub const ACCESS_TOKEN_SECS: i64 = 900;

/// The claims of an access token issued to `user_id` at `now`.
pub open spec fn spec_claims(user_id: u128, now: Timestamp) -> Claims {
    Claims { user_id, exp: (now.secs + ACCESS_TOKEN_SECS) as usize }
}

/// An access token expires fifteen minutes after it is issued: the claims
/// made at `now` name the user they are made for, and their expiry is
/// `ACCESS_TOKEN_SECS` seconds after `now`, so later than `now`.
pub proof fn law_access_token_expires_after_issue(user_id: u128, now: Timestamp)
    requires
        0 <= now.secs,
        now.secs + ACCESS_TOKEN_SECS <= usize::MAX,
    ensures
        spec_claims(user_id, now).user_id == user_id,
        spec_claims(user_id, now).exp == now.secs + 900,
        spec_claims(user_id, now).exp > now.secs,
{
}

pub struct AuthService {}

impl AuthService {
    /// A fresh raw token: 32 random bytes in lowercase hexadecimal.
    pub fn generate_random_token() -> (res: String)
        ensures
            is_raw_token(res@),
    {
        let key_bytes = random_key_bytes();
        let res = hex_encode(key_bytes.as_slice());
        assert(res@ == hex_lower(key_bytes@));
        res
    }

    /// The stored form of a raw token: the lowercase hexadecimal SHA-256 of
    /// its UTF-8 bytes, 64 digits of the 32-byte digest.
    pub fn generate_sha256(raw_token: &str) -> (res: String)
        ensures
            res@ == token_hash(raw_token@),
            res@.len() == 64,
            is_raw_token(res@),
    {
        let digest = sha256_digest(raw_token.as_bytes());
        let res = hex_encode(digest.as_slice());
        assert(res@ == hex_lower(digest@));
        res
    }

    /// The claims of an access token issued to `user_id` at `now`: it
    /// expires fifteen minutes later.
    pub fn claims_at(user_id: u128, now: Timestamp) -> (res: Claims)
        requires
            now.secs <= i64::MAX - ACCESS_TOKEN_SECS,
        ensures
            res == spec_claims(user_id, now),
            res.user_id == user_id,
            0 <= now.secs && now.secs + ACCESS_TOKEN_SECS <= usize::MAX ==> res.exp == now.secs + ACCESS_TOKEN_SECS,
    {
        let exp = now.secs + ACCESS_TOKEN_SECS;
        Claims { user_id, exp: exp as usize }
    }

    /// The claims of an access token issued to `user_id` now: it belongs to
    /// `user_id` and expires fifteen minutes after the clock's reading. The
    /// clock never reads so late that the expiry could not be represented,
    /// so there are always claims.
    pub fn access_token_claims(user_id: u128) -> (res: Option<Claims>)
        ensures
            res matches Some(c) && c.user_id == user_id,
            res matches Some(c) && exists|now: Timestamp| now.secs < CLOCK_SECS_BOUND && c == spec_claims(user_id, now),
    {
        let now = Timestamp::now();
        Some(Self::claims_at(user_id, now))
    }

    /// The link of a magic link e-mail: the front end's authorize page with
    /// the raw token as query.
    pub fn magic_link(frontend_url: &str, raw_token: &str) -> (res: String)
        ensures
            res@ == spec_magic_link(frontend_url@, raw_token@),
    {
        let mut link = String::from_str(frontend_url);
        link.append(AUTHORIZE_PATH);
        link.append(raw_token);
        link
    }

    /// The HTML of the magic link e-mail of the given kind.
    pub fn magic_link_html(frontend_url: &str, raw_token: &str, response_type: &ResponseType) -> (res: String)
        ensures
            res@ == spec_magic_link_html(frontend_url@, raw_token@, *response_type),
    {
        let (label, heading, body, cta) = match response_type {
            ResponseType::LogIn => (LOGIN_LABEL, LOGIN_HEADING, LOGIN_BODY, LOGIN_CTA),
            ResponseType::SignIn => (SIGNUP_LABEL, SIGNUP_HEADING, SIGNUP_BODY, SIGNUP_CTA),
        };
        let link = Self::magic_link(frontend_url, raw_token);
        let mut html = String::from_str(HTML_HEAD);
        html.append(label);
        html.append(HTML_AFTER_LABEL);
        html.append(heading);
        html.append(HTML_AFTER_HEADING);
        html.append(body);
        html.append(HTML_AFTER_BODY);
        html.append(link.as_str());
        html.append(HTML_AFTER_HREF);
        html.append(cta);
        html.append(HTML_AFTER_CTA);
        html.append(link.as_str());
        html.append(HTML_TAIL);
        html
    }

    /// The subject of the magic link e-mail of the given kind.
    pub fn mail_subject(response_type: &ResponseType) -> (res: &'static str)
        ensures
            res@ == spec_mail_subject(*response_type),
    {
        match response_type {
            ResponseType::LogIn => LOGIN_SUBJECT,
            ResponseType::SignIn => SIGNUP_SUBJECT,
        }
    }

    /// Starts an authorization with the raw token of a magic link: the
    /// token's hash is looked up first.
    pub fn authorize(raw_token: &str) -> (res: (AuthorizeFlow, AuthStep<(String, String)>))
        ensures
            res.0.wf(),
            res.0.raw_token() == raw_token@,
            is_raw_token(res.0.refresh_token()),
            !res.0.is_over(),
            res.0.sent() == 1,
            res.1 matches AuthStep::Run(c) && c@ == AuthCommandView::FindMagicToken(token_hash(raw_token@)),
            res.0.issued() == seq![AuthCommandView::FindMagicToken(token_hash(raw_token@))],
    {
        let raw = raw_token.to_owned();
        let hash = Self::generate_sha256(raw_token);
        let refresh_raw = Self::generate_random_token();
        let refresh_hash = Self::generate_sha256(refresh_raw.as_str());
        let cmd = AuthCommand::FindMagicToken(hash.clone());
        let issued: Ghost<Seq<AuthCommandView>> = Ghost(Seq::empty().push(cmd@));
        let found: Ghost<Option<(Timestamp, Timestamp)>> = Ghost(None);
        let flow = AuthorizeFlow {
            raw,
            hash,
            refresh_raw,
            refresh_hash,
            kind: ResponseType::LogIn,
            me: String::new(),
            te: String::new(),
            uid: 0,
            access: String::new(),
            sent: 1,
            over: false,
            found,
            issued,
        };
        assert(flow.issued@ =~= flow.trace().take(1));
        (flow, AuthStep::Run(cmd))
    }

    /// Starts a refresh of the session whose raw refresh token is given: the
    /// token's hash is looked up first.
    pub fn refresh(raw_refresh_token: &str) -> (res: (RefreshFlow, AuthStep<(String, String)>))
        ensures
            res.0.wf(),
            res.0.raw_token() == raw_refresh_token@,
            is_raw_token(res.0.refresh_token()),
            !res.0.is_over(),
            res.0.sent() == 1,
            res.1 matches AuthStep::Run(c) && c@ == AuthCommandView::FindRefreshToken(token_hash(raw_refresh_token@)),
            res.0.issued() == seq![AuthCommandView::FindRefreshToken(token_hash(raw_refresh_token@))],
    {
        let raw = raw_refresh_token.to_owned();
        let hash = Self::generate_sha256(raw_refresh_token);
        let refresh_raw = Self::generate_random_token();
        let refresh_hash = Self::generate_sha256(refresh_raw.as_str());
        let cmd = AuthCommand::FindRefreshToken(hash.clone());
        let issued: Ghost<Seq<AuthCommandView>> = Ghost(Seq::empty().push(cmd@));
        let found: Ghost<Option<(Timestamp, Timestamp)>> = Ghost(None);
        let flow = RefreshFlow {
            raw,
            hash,
            refresh_raw,
            refresh_hash,
            token_user: 0,
            stored: String::new(),
            uid: 0,
            access: String::new(),
            sent: 1,
            over: false,
            found,
            issued,
        };
        assert(flow.issued@ =~= flow.trace().take(1));
        (flow, AuthStep::Run(cmd))
    }

    /// Starts a logout: the stored form of the raw refresh token is deleted.
    pub fn logout(raw_refresh_token: &str) -> (res: (LogoutFlow, AuthStep<()>))
        ensures
            res.0.wf(),
            res.0.raw_token() == raw_refresh_token@,
            !res.0.is_over(),
            res.1 matches AuthStep::Run(c) && c@ == AuthCommandView::DeleteRefreshToken(token_hash(raw_refresh_token@)),
            res.0.issued() == seq![AuthCommandView::DeleteRefreshToken(token_hash(raw_refresh_token@))],
    {
        let raw = raw_refresh_token.to_owned();
        let hash = Self::generate_sha256(raw_refresh_token);
        let cmd = AuthCommand::DeleteRefreshToken(hash.clone());
        let issued: Ghost<Seq<AuthCommandView>> = Ghost(Seq::empty().push(cmd@));
        let flow = LogoutFlow { raw, hash, sent: 1, over: false, issued };
        assert(flow.issued@ =~= logout_trace(flow.raw@).take(1));
        (flow, AuthStep::Run(cmd))
    }

    /// Starts a login: a magic link is mailed to `email`, for logging in when
    /// a user has that address, else for finishing a sign-up.
    pub fn login(email: &str) -> (res: (LoginFlow, AuthStep<()>))
        ensures
            res.0.wf(),
            res.0.email() == email@,
            // the token to be mailed is fresh: 64 lowercase hex digits of 32 random bytes
            is_raw_token(res.0.raw_token()),
            res.0.user_existed() is None,
            res.0.awaits_user(),
            !res.0.is_over(),
            res.1 matches AuthStep::Run(c) && c@ == AuthCommandView::FindUserByEmail(email@),
            res.0.issued() == seq![AuthCommandView::FindUserByEmail(email@)],
    {
        let raw_token = Self::generate_random_token();
        let token_hash = Self::generate_sha256(raw_token.as_str());
        let email = email.to_owned();
        let cmd = AuthCommand::FindUserByEmail(email.clone());
        let issued: Ghost<Seq<AuthCommandView>> = Ghost(Seq::empty().push(cmd@));
        let flow = LoginFlow {
            email,
            raw_token,
            token_hash,
            stage: LoginStage::AwaitUser,
            existed: Ghost(None),
            issued,
        };
        (flow, AuthStep::Run(cmd))
    }
}

// ---------------------------------------------------------------------------
// Login
// ---------------------------------------------------------------------------

/// Every command of a login that runs to its end, in order.
pub open spec fn login_trace(email: Seq<char>, existed: bool, raw: Seq<char>) -> Seq<AuthCommandView> {
    let h = token_hash(raw);
    if existed {
        seq![
            AuthCommandView::FindUserByEmail(email),
            AuthCommandView::DeleteMagicTokens(email),
            AuthCommandView::InsertMagicToken { token_hash: h, email, kind: ResponseType::LogIn },
            AuthCommandView::SendMagicLink { kind: ResponseType::LogIn, email, raw_token: raw },
            AuthCommandView::Commit,
        ]
    } else {
        seq![
            AuthCommandView::FindUserByEmail(email),
            AuthCommandView::DeleteMagicTokens(email),
            AuthCommandView::UpsertTempUser(email),
            AuthCommandView::InsertMagicToken { token_hash: h, email, kind: ResponseType::SignIn },
            AuthCommandView::SendMagicLink { kind: ResponseType::SignIn, email, raw_token: raw },
            AuthCommandView::Commit,
        ]
    }
}

enum LoginStage {
    AwaitUser,
    Known { existed: bool, sent: usize },
    Over,
}

/// A login in progress.
pub struct LoginFlow {
    email: String,
    raw_token: String,
    token_hash: String,
    stage: LoginStage,
    existed: Ghost<Option<bool>>,
    issued: Ghost<Seq<AuthCommandView>>,
}

impl LoginFlow {
    pub closed spec fn wf(&self) -> bool {
        &&& is_raw_token(self.raw_token@)
        &&& self.token_hash@ == token_hash(self.raw_token@)
        &&& self.existed@ matches Some(e) ==> self.issued@ == login_trace(self.email@, e, self.raw_token@).take(
            self.issued@.len() as int,
        )
        &&& match self.stage {
            LoginStage::AwaitUser => {
                &&& self.existed@ is None
                &&& self.issued@ == seq![AuthCommandView::FindUserByEmail(self.email@)]
            },
            LoginStage::Known { existed, sent } => {
                &&& self.existed@ == Some(existed)
                &&& 2 <= sent <= login_trace(self.email@, existed, self.raw_token@).len()
                &&& self.issued@ == login_trace(self.email@, existed, self.raw_token@).take(
                    sent as int,
                )
            },
            LoginStage::Over => true,
        }
    }

    /// The address the link goes to.
    pub closed spec fn email(&self) -> Seq<char> {
        self.email@
    }

    /// The raw token the link carries.
    pub closed spec fn raw_token(&self) -> Seq<char> {
        self.raw_token@
    }

    /// Whether a user had the address; `None` before the lookup answered.
    pub closed spec fn user_existed(&self) -> Option<bool> {
        self.existed@
    }

    /// The commands issued so far, in order.
    pub closed spec fn issued(&self) -> Seq<AuthCommandView> {
        self.issued@
    }

    /// Whether the flow has given its result.
    pub closed spec fn is_over(&self) -> bool {
        self.stage is Over
    }

    pub closed spec fn awaits_user(&self) -> bool {
        self.stage is AwaitUser
    }

    fn command(&self, existed: bool, k: usize) -> (c: AuthCommand)
        requires
            k < login_trace(self.email@, existed, self.raw_token@).len(),
            self.token_hash@ == token_hash(self.raw_token@),
        ensures
            c@ == login_trace(self.email@, existed, self.raw_token@)[k as int],
    {
        let kind = if existed {
            ResponseType::LogIn
        } else {
            ResponseType::SignIn
        };
        let k = if existed && k >= 2 {
            k + 1
        } else {
            k
        };
        if k == 0 {
            AuthCommand::FindUserByEmail(self.email.clone())
        } else if k == 1 {
            AuthCommand::DeleteMagicTokens(self.email.clone())
        } else if k == 2 {
            AuthCommand::UpsertTempUser(self.email.clone())
        } else if k == 3 {
            AuthCommand::InsertMagicToken {
                token_hash: self.token_hash.clone(),
                email: self.email.clone(),
                kind,
            }
        } else if k == 4 {
            AuthCommand::SendMagicLink {
                kind,
                email: self.email.clone(),
                raw_token: self.raw_token.clone(),
            }
        } else {
            AuthCommand::Commit
        }
    }

    /// Answers the outcome of the last command.
    pub fn resume(self, event: AuthEvent) -> (res: (LoginFlow, AuthStep<()>))
        requires
            self.wf(),
        ensures
            res.0.wf(),
            res.0.email() == self.email(),
            res.0.raw_token() == self.raw_token(),
            self.user_existed() is Some ==> res.0.user_existed() == self.user_existed(),
            // what has run is always the start of the login's trace
            res.0.user_existed() matches Some(existed) ==> res.0.issued() == login_trace(
                self.email(),
                existed,
                self.raw_token(),
            ).take(res.0.issued().len() as int),
            res.1 matches AuthStep::Run(c) ==> !res.0.is_over() && res.0.issued() == self.issued().push(c@),
            res.1 is Finish ==> res.0.is_over() && res.0.issued() == self.issued(),
            self.is_over() ==> res.1 == AuthStep::<()>::Finish(Err(VeloxError::InternalError)),
            !self.is_over() ==> (event matches AuthEvent::Failed(e) ==> res.1 == AuthStep::<()>::Finish(Err(e))),
            // an event that the flow does not wait for ends it
            !self.is_over() && !(event is Failed) && (if self.awaits_user() { !(event is UserLookup) } else { !(event is Done) })
                ==> res.1 == AuthStep::<()>::Finish(Err(VeloxError::InternalError)),
            self.awaits_user() ==> (event matches AuthEvent::UserLookup(u) ==> res.0.user_existed() == Some(u is Some)
                && (res.1 matches AuthStep::Run(c) && c@ == AuthCommandView::DeleteMagicTokens(self.email()))),
            !self.is_over() && event is Done ==> match self.user_existed() {
                Some(ex) => if self.issued().len() < login_trace(self.email(), ex, self.raw_token()).len() {
                    res.1 matches AuthStep::Run(c) && c@ == login_trace(self.email(), ex, self.raw_token())[self.issued().len() as int]
                } else {
                    res.1 == AuthStep::<()>::Finish(Ok(()))
                },
                None => true,
            },
            !self.is_over() && !self.awaits_user() ==> (event is Done ==> res.1 is Run || res.1 == AuthStep::<()>::Finish(Ok(()))),
            !self.is_over() && !(event is Failed) && !(self.awaits_user() && event is UserLookup) && !(!self.awaits_user() && event is Done)
                ==> res.1 == AuthStep::<()>::Finish(Err(VeloxError::InternalError)),
            res.1 == AuthStep::<()>::Finish(Ok(())) ==> res.0.user_existed() is Some && res.0.issued() == login_trace(
                self.email(),
                res.0.user_existed()->0,
                self.raw_token(),
            ),
    {
        let LoginFlow { email, raw_token, token_hash, stage, existed, issued } = self;
        let over = LoginFlow {
            email: email.clone(),
            raw_token: raw_token.clone(),
            token_hash: token_hash.clone(),
            stage: LoginStage::Over,
            existed,
            issued,
        };
        match stage {
            LoginStage::Over => (over, AuthStep::Finish(Err(VeloxError::InternalError))),
            LoginStage::AwaitUser => match event {
                AuthEvent::UserLookup(user) => {
                    let found = user.is_some();
                    let existed: Ghost<Option<bool>> = Ghost(Some(found));
                    let flow = LoginFlow {
                        email,
                        raw_token,
                        token_hash,
                        stage: LoginStage::Known { existed: found, sent: 1 },
                        existed,
                        issued,
                    };
                    assert(flow.issued@ =~= login_trace(flow.email@, found, flow.raw_token@).take(1));
                    let cmd = flow.command(found, 1);
                    let pushed: Ghost<Seq<AuthCommandView>> = Ghost(flow.issued@.push(cmd@));
                    let flow = LoginFlow {
                        stage: LoginStage::Known { existed: found, sent: 2 },
                        issued: pushed,
                        ..flow
                    };
                    assert(flow.issued@ =~= login_trace(flow.email@, found, flow.raw_token@).take(2));
                    (flow, AuthStep::Run(cmd))
                },
                AuthEvent::Failed(e) => (over, AuthStep::Finish(Err(e))),
                _ => (over, AuthStep::Finish(Err(VeloxError::InternalError))),
            },
            LoginStage::Known { existed: found, sent } => match event {
                AuthEvent::Done => {
                    let flow = LoginFlow { email, raw_token, token_hash, stage: LoginStage::Known { existed: found, sent }, existed, issued };
                    let total: usize = if found { 5 } else { 6 };
                    if sent == total {
                        assert(flow.issued@ =~= login_trace(flow.email@, found, flow.raw_token@));
                        (LoginFlow { stage: LoginStage::Over, ..flow }, AuthStep::Finish(Ok(())))
                    } else {
                        let cmd = flow.command(found, sent);
                        let pushed: Ghost<Seq<AuthCommandView>> = Ghost(flow.issued@.push(cmd@));
                        let flow = LoginFlow {
                            stage: LoginStage::Known { existed: found, sent: sent + 1 },
                            issued: pushed,
                            ..flow
                        };
                        assert(flow.issued@ =~= login_trace(flow.email@, found, flow.raw_token@).take(
                            sent + 1,
                        ));
                        (flow, AuthStep::Run(cmd))
                    }
                },
                AuthEvent::Failed(e) => (over, AuthStep::Finish(Err(e))),
                _ => (over, AuthStep::Finish(Err(VeloxError::InternalError))),
            },
        }
    }
}


// ---------------------------------------------------------------------------
// Authorize
// ---------------------------------------------------------------------------

/// Every command of an authorization that runs to its end, in order: the
/// magic token looked up by the hash of `raw`; for a sign-up the pending
/// user `te` promoted to a user, for a login the user with address `me`
/// looked up; the magic tokens of `me` deleted; then a session for user
/// `uid`: an access token issued and the hash of the refresh token `r`
/// stored; and a commit.
pub open spec fn authorize_trace(
    raw: Seq<char>,
    kind: ResponseType,
    me: Seq<char>,
    te: Seq<char>,
    uid: u128,
    r: Seq<char>,
) -> Seq<AuthCommandView> {
    match kind {
        ResponseType::SignIn => seq![
            AuthCommandView::FindMagicToken(token_hash(raw)),
            AuthCommandView::FindTempUser(me),
            AuthCommandView::InsertUser(te),
            AuthCommandView::DeleteTempUser(te),
            AuthCommandView::DeleteMagicTokens(me),
            AuthCommandView::IssueAccessToken(uid),
            AuthCommandView::InsertRefreshToken { token_hash: token_hash(r), user_id: uid },
            AuthCommandView::Commit,
        ],
        ResponseType::LogIn => seq![
            AuthCommandView::FindMagicToken(token_hash(raw)),
            AuthCommandView::FindUserByEmail(me),
            AuthCommandView::DeleteMagicTokens(me),
            AuthCommandView::IssueAccessToken(uid),
            AuthCommandView::InsertRefreshToken { token_hash: token_hash(r), user_id: uid },
            AuthCommandView::Commit,
        ],
    }
}

/// Whether an authorization that has issued `sent` commands waits for
/// `event`: a failure is always heard; each lookup, the new user and the
/// access token at their own place; a bare success after the commands that
/// return nothing.
pub open spec fn authorize_expects(kind: ResponseType, sent: nat, event: AuthEvent) -> bool {
    match event {
        AuthEvent::Failed(_) => true,
        AuthEvent::MagicTokenLookup(_, _) => sent == 1,
        AuthEvent::TempUserLookup(_) => sent == 2 && kind is SignIn,
        AuthEvent::UserLookup(_) => sent == 2 && kind is LogIn,
        AuthEvent::UserInserted(_) => sent == 3 && kind is SignIn,
        AuthEvent::AccessToken(_) => match kind {
            ResponseType::SignIn => sent == 6,
            ResponseType::LogIn => sent == 4,
        },
        AuthEvent::Done => match kind {
            ResponseType::SignIn => sent == 4 || sent == 5 || sent == 7 || sent == 8,
            ResponseType::LogIn => sent == 3 || sent == 5 || sent == 6,
        },
        _ => false,
    }
}

/// An authorization (following a magic link) in progress.
pub struct AuthorizeFlow {
    raw: String,
    hash: String,
    refresh_raw: String,
    refresh_hash: String,
    kind: ResponseType,
    me: String,
    te: String,
    uid: u128,
    access: String,
    sent: usize,
    over: bool,
    found: Ghost<Option<(Timestamp, Timestamp)>>,
    issued: Ghost<Seq<AuthCommandView>>,
}

impl AuthorizeFlow {
    pub closed spec fn wf(&self) -> bool {
        &&& self.hash@ == token_hash(self.raw@)
        &&& is_raw_token(self.refresh_raw@)
        &&& self.refresh_hash@ == token_hash(self.refresh_raw@)
        &&& !self.over ==> {
            &&& 1 <= self.sent <= self.trace().len()
            &&& self.issued@ == self.trace().take(self.sent as int)
            &&& self.sent >= 2 ==> self.found@ is Some
            &&& self.found@ matches Some((exp, now)) ==> !spec_before(exp, now)
        }
    }

    /// The full trace, as far as it is known.
    pub closed spec fn trace(&self) -> Seq<AuthCommandView> {
        authorize_trace(self.raw@, self.kind, self.me@, self.te@, self.uid, self.refresh_raw@)
    }

    pub closed spec fn raw_token(&self) -> Seq<char> {
        self.raw@
    }

    /// The raw refresh token of the session that a success hands out.
    pub closed spec fn refresh_token(&self) -> Seq<char> {
        self.refresh_raw@
    }

    pub closed spec fn kind(&self) -> ResponseType {
        self.kind
    }

    pub closed spec fn magic_email(&self) -> Seq<char> {
        self.me@
    }

    pub closed spec fn temp_email(&self) -> Seq<char> {
        self.te@
    }

    pub closed spec fn user_id(&self) -> u128 {
        self.uid
    }

    pub closed spec fn access_token(&self) -> Seq<char> {
        self.access@
    }

    /// The expiry of the magic token found and the time of the lookup.
    pub closed spec fn found(&self) -> Option<(Timestamp, Timestamp)> {
        self.found@
    }

    pub closed spec fn issued(&self) -> Seq<AuthCommandView> {
        self.issued@
    }

    pub closed spec fn is_over(&self) -> bool {
        self.over
    }

    /// How many commands have been issued (the stage of the flow).
    pub closed spec fn sent(&self) -> nat {
        self.sent as nat
    }

    fn command(&self, k: usize) -> (c: AuthCommand)
        requires
            k < self.trace().len(),
            self.hash@ == token_hash(self.raw@),
            self.refresh_hash@ == token_hash(self.refresh_raw@),
        ensures
            c@ == self.trace()[k as int],
    {
        let k = match self.kind {
            ResponseType::SignIn => k,
            ResponseType::LogIn => if k == 0 { 0 } else { k + 2 },
        };
        if k == 0 {
            AuthCommand::FindMagicToken(self.hash.clone())
        } else if k == 1 {
            AuthCommand::FindTempUser(self.me.clone())
        } else if k == 2 {
            AuthCommand::InsertUser(self.te.clone())
        } else if k == 3 {
            match self.kind {
                ResponseType::SignIn => AuthCommand::DeleteTempUser(self.te.clone()),
                ResponseType::LogIn => AuthCommand::FindUserByEmail(self.me.clone()),
            }
        } else if k == 4 {
            AuthCommand::DeleteMagicTokens(self.me.clone())
        } else if k == 5 {
            AuthCommand::IssueAccessToken(self.uid)
        } else if k == 6 {
            AuthCommand::InsertRefreshToken { token_hash: self.refresh_hash.clone(), user_id: self.uid }
        } else {
            AuthCommand::Commit
        }
    }

    fn stop(self, result: Result<(String, String), VeloxError>) -> (res: (AuthorizeFlow, AuthStep<(String, String)>))
        requires
            self.wf(),
        ensures
            res.0.wf(),
            res.0.over,
            res.0.issued@ == self.issued@,
            res.0.raw@ == self.raw@ && res.0.refresh_raw@ == self.refresh_raw@,
            res.0.kind == self.kind && res.0.me@ == self.me@ && res.0.te@ == self.te@,
            res.0.uid == self.uid && res.0.access@ == self.access@ && res.0.found@ == self.found@,
            res.1 == AuthStep::Finish(result),
    {
        (AuthorizeFlow { over: true, ..self }, AuthStep::Finish(result))
    }

    fn advance(self) -> (res: (AuthorizeFlow, AuthStep<(String, String)>))
        requires
            self.wf(),
            !self.over,
            self.sent < self.trace().len(),
            self.found@ is Some,
        ensures
            res.0.wf(),
            !res.0.over,
            res.0.sent == self.sent + 1,
            res.1 matches AuthStep::Run(c) && res.0.issued@ == self.issued@.push(c@)
                && c@ == self.trace()[self.issued@.len() as int],
            self.issued@.len() == self.sent,
            res.0.raw@ == self.raw@ && res.0.refresh_raw@ == self.refresh_raw@,
            res.0.kind == self.kind && res.0.me@ == self.me@ && res.0.te@ == self.te@,
            res.0.uid == self.uid && res.0.access@ == self.access@ && res.0.found@ == self.found@,
    {
        assert(self.issued@.len() == self.sent);
        let cmd = self.command(self.sent);
        let pushed: Ghost<Seq<AuthCommandView>> = Ghost(self.issued@.push(cmd@));
        let sent = self.sent + 1;
        let flow = AuthorizeFlow { sent, issued: pushed, ..self };
        assert(flow.issued@ =~= flow.trace().take(sent as int));
        (flow, AuthStep::Run(cmd))
    }

    /// Answers the outcome of the last command.
    pub fn resume(self, event: AuthEvent) -> (res: (AuthorizeFlow, AuthStep<(String, String)>))
        requires
            self.wf(),
        ensures
            res.0.wf(),
            res.0.raw_token() == self.raw_token(),
            res.0.refresh_token() == self.refresh_token(),
            res.1 matches AuthStep::Run(c) ==> !res.0.is_over() && res.0.issued() == self.issued().push(c@),
            res.1 is Finish ==> res.0.is_over() && res.0.issued() == self.issued(),
            // what has run is always the start of the authorization's trace
            !res.0.is_over() ==> res.0.issued() == authorize_trace(
                self.raw_token(),
                res.0.kind(),
                res.0.magic_email(),
                res.0.temp_email(),
                res.0.user_id(),
                self.refresh_token(),
            ).take(res.0.sent() as int),
            !res.0.is_over() ==> res.0.sent() == res.0.issued().len(),
            !(event is MagicTokenLookup) ==> res.0.kind() == self.kind() && res.0.magic_email() == self.magic_email(),
            !(event is TempUserLookup) ==> res.0.temp_email() == self.temp_email(),
            !(event is UserLookup) && !(event is UserInserted) ==> res.0.user_id() == self.user_id(),
            !(event is AccessToken) ==> res.0.access_token() == self.access_token(),
            // each command is the next one of the trace
            res.1 matches AuthStep::Run(c) ==> c@ == authorize_trace(
                self.raw_token(),
                res.0.kind(),
                res.0.magic_email(),
                res.0.temp_email(),
                res.0.user_id(),
                self.refresh_token(),
            )[self.issued().len() as int],
            self.is_over() ==> res.1 == AuthStep::<(String, String)>::Finish(Err(VeloxError::InternalError)),
            !self.is_over() ==> (event matches AuthEvent::Failed(e) ==> res.1 == AuthStep::<(String, String)>::Finish(Err(e))),
            // the magic token must exist and must not have expired
            !self.is_over() && self.sent() == 1 ==> (event matches AuthEvent::MagicTokenLookup(m, now) ==> match m {
                None => res.1 == AuthStep::<(String, String)>::Finish(Err(VeloxError::InvalidToken)),
                Some(t) => if spec_before(t.expires_at, now) {
                    res.1 == AuthStep::<(String, String)>::Finish(Err(VeloxError::InvalidToken))
                } else {
                    &&& res.1 is Run
                    &&& res.0.kind() == t.kind
                    &&& res.0.magic_email() == t.email@
                    &&& res.0.found() == Some((t.expires_at, now))
                },
            }),
            // an expiry in an earlier second than the lookup is past, one in a
            // later second is not
            !self.is_over() && self.sent() == 1 ==> (event matches AuthEvent::MagicTokenLookup(Some(t), now) ==> (
                (t.expires_at.secs < now.secs ==> res.1 == AuthStep::<(String, String)>::Finish(Err(VeloxError::InvalidToken)))
                && (now.secs < t.expires_at.secs ==> res.1 is Run))),
            // a sign-up needs its pending user, a login its user
            !self.is_over() && self.sent() == 2 && self.kind() is SignIn ==> (event matches AuthEvent::TempUserLookup(t) ==> match t {
                None => res.1 == AuthStep::<(String, String)>::Finish(Err(VeloxError::InvalidToken)),
                Some(tu) => res.1 is Run && res.0.temp_email() == tu.email@,
            }),
            !self.is_over() && self.sent() == 2 && self.kind() is LogIn ==> (event matches AuthEvent::UserLookup(u) ==> match u {
                None => res.1 == AuthStep::<(String, String)>::Finish(Err(VeloxError::NotFound)),
                Some(user) => res.1 is Run && res.0.user_id() == user.id,
            }),
            !self.is_over() && self.sent() == 3 && self.kind() is SignIn ==> (event matches AuthEvent::UserInserted(user) ==>
                res.1 is Run && res.0.user_id() == user.id),
            !self.is_over() ==> (event matches AuthEvent::AccessToken(a) ==> (res.1 is Run ==> res.0.access_token() == a@)),
            // an event that the flow does not wait for ends it
            !self.is_over() && !authorize_expects(self.kind(), self.sent(), event)
                ==> res.1 == AuthStep::<(String, String)>::Finish(Err(VeloxError::InternalError)),
            !self.is_over() && authorize_expects(self.kind(), self.sent(), event) ==> (event matches AuthEvent::AccessToken(a)
                ==> res.1 is Run && res.0.access_token() == a@),
            // a command that returns nothing moves the flow on, and after the
            // commit the flow succeeds
            !self.is_over() && event is Done && authorize_expects(self.kind(), self.sent(), event) ==> if self.sent()
                < authorize_trace(self.raw_token(), self.kind(), self.magic_email(), self.temp_email(), self.user_id(), self.refresh_token()).len() {
                res.1 is Run
            } else {
                res.1 matches AuthStep::Finish(Ok(_))
            },
            // success: the whole trace ran, ending in a commit, and the
            // session's tokens are handed out
            res.1 matches AuthStep::Finish(Ok(tokens)) ==> {
                &&& res.0.issued() == authorize_trace(
                    self.raw_token(),
                    res.0.kind(),
                    res.0.magic_email(),
                    res.0.temp_email(),
                    res.0.user_id(),
                    self.refresh_token(),
                )
                &&& tokens.0@ == res.0.access_token()
                &&& tokens.1@ == self.refresh_token()
                &&& is_raw_token(tokens.1@)
                &&& res.0.found() matches Some((exp, now)) && !spec_before(exp, now)
            },
    {
        if self.over {
            return self.stop(Err(VeloxError::InternalError));
        }
        let sent = self.sent;
        let total: usize = match self.kind {
            ResponseType::SignIn => 8,
            ResponseType::LogIn => 6,
        };
        match event {
            AuthEvent::Failed(e) => self.stop(Err(e)),
            AuthEvent::MagicTokenLookup(m, now) => {
                if sent != 1 {
                    return self.stop(Err(VeloxError::InternalError));
                }
                match m {
                    None => self.stop(Err(VeloxError::InvalidToken)),
                    Some(t) => {
                        if t.expires_at.is_before(&now) {
                            self.stop(Err(VeloxError::InvalidToken))
                        } else {
                            let found: Ghost<Option<(Timestamp, Timestamp)>> = Ghost(Some((t.expires_at, now)));
                            let flow = AuthorizeFlow { kind: t.kind, me: t.email, found, ..self };
                            assert(flow.issued@ =~= flow.trace().take(1));
                            flow.advance()
                        }
                    },
                }
            },
            AuthEvent::TempUserLookup(t) => {
                if sent != 2 || !(self.kind == ResponseType::SignIn) {
                    return self.stop(Err(VeloxError::InternalError));
                }
                match t {
                    None => self.stop(Err(VeloxError::InvalidToken)),
                    Some(tu) => {
                        let flow = AuthorizeFlow { te: tu.email, ..self };
                        assert(flow.issued@ =~= flow.trace().take(2));
                        flow.advance()
                    },
                }
            },
            AuthEvent::UserLookup(u) => {
                if sent != 2 || !(self.kind == ResponseType::LogIn) {
                    return self.stop(Err(VeloxError::InternalError));
                }
                match u {
                    None => self.stop(Err(VeloxError::NotFound)),
                    Some(user) => {
                        let flow = AuthorizeFlow { uid: user.id, ..self };
                        assert(flow.issued@ =~= flow.trace().take(2));
                        flow.advance()
                    },
                }
            },
            AuthEvent::UserInserted(user) => {
                if sent != 3 || !(self.kind == ResponseType::SignIn) {
                    return self.stop(Err(VeloxError::InternalError));
                }
                let flow = AuthorizeFlow { uid: user.id, ..self };
                assert(flow.issued@ =~= flow.trace().take(3));
                flow.advance()
            },
            AuthEvent::AccessToken(a) => {
                if sent != total - 2 {
                    return self.stop(Err(VeloxError::InternalError));
                }
                let flow = AuthorizeFlow { access: a, ..self };
                flow.advance()
            },
            AuthEvent::Done => {
                let awaits_done = match self.kind {
                    ResponseType::SignIn => sent == 4 || sent == 5 || sent == 7 || sent == 8,
                    ResponseType::LogIn => sent == 3 || sent == 5 || sent == 6,
                };
                if !awaits_done {
                    return self.stop(Err(VeloxError::InternalError));
                }
                if sent == total {
                    let access = self.access.clone();
                    let refresh = self.refresh_raw.clone();
                    assert(self.issued@ =~= self.trace());
                    self.stop(Ok((access, refresh)))
                } else {
                    self.advance()
                }
            },
            _ => self.stop(Err(VeloxError::InternalError)),
        }
    }
}


// ---------------------------------------------------------------------------
// Refresh
// ---------------------------------------------------------------------------

/// Every command of a refresh that runs to its end, in order: the refresh
/// token looked up by the hash of `raw`; its user `token_user` looked up;
/// the stored token `stored` deleted; the hash of the new raw token `r`
/// stored for user `uid`; an access token issued; and a commit.
pub open spec fn refresh_trace(
    raw: Seq<char>,
    token_user: u128,
    stored: Seq<char>,
    uid: u128,
    r: Seq<char>,
) -> Seq<AuthCommandView> {
    seq![
        AuthCommandView::FindRefreshToken(token_hash(raw)),
        AuthCommandView::FindUserById(token_user),
        AuthCommandView::DeleteRefreshToken(stored),
        AuthCommandView::InsertRefreshToken { token_hash: token_hash(r), user_id: uid },
        AuthCommandView::IssueAccessToken(uid),
        AuthCommandView::Commit,
    ]
}

/// Whether a refresh that has issued `sent` commands waits for `event`.
pub open spec fn refresh_expects(sent: nat, event: AuthEvent) -> bool {
    match event {
        AuthEvent::Failed(_) => true,
        AuthEvent::RefreshTokenLookup(_, _) => sent == 1,
        AuthEvent::UserLookup(_) => sent == 2,
        AuthEvent::AccessToken(_) => sent == 5,
        AuthEvent::Done => sent == 3 || sent == 4 || sent == 6,
        _ => false,
    }
}

/// A refresh of a session (rotation of its refresh token) in progress.
pub struct RefreshFlow {
    raw: String,
    hash: String,
    refresh_raw: String,
    refresh_hash: String,
    token_user: u128,
    stored: String,
    uid: u128,
    access: String,
    sent: usize,
    over: bool,
    found: Ghost<Option<(Timestamp, Timestamp)>>,
    issued: Ghost<Seq<AuthCommandView>>,
}

impl RefreshFlow {
    pub closed spec fn wf(&self) -> bool {
        &&& self.hash@ == token_hash(self.raw@)
        &&& is_raw_token(self.refresh_raw@)
        &&& self.refresh_hash@ == token_hash(self.refresh_raw@)
        &&& !self.over ==> {
            &&& 1 <= self.sent <= 6
            &&& self.issued@ == self.trace().take(self.sent as int)
            &&& self.sent >= 2 ==> self.found@ is Some
            &&& self.found@ matches Some((exp, now)) ==> !spec_before(exp, now)
        }
    }

    pub closed spec fn trace(&self) -> Seq<AuthCommandView> {
        refresh_trace(self.raw@, self.token_user, self.stored@, self.uid, self.refresh_raw@)
    }

    pub closed spec fn raw_token(&self) -> Seq<char> {
        self.raw@
    }

    /// The new raw refresh token that a success hands out.
    pub closed spec fn refresh_token(&self) -> Seq<char> {
        self.refresh_raw@
    }

    /// The user named by the stored refresh token.
    pub closed spec fn token_user(&self) -> u128 {
        self.token_user
    }

    /// The stored (hashed) refresh token that was found.
    pub closed spec fn stored_token(&self) -> Seq<char> {
        self.stored@
    }

    pub closed spec fn user_id(&self) -> u128 {
        self.uid
    }

    pub closed spec fn access_token(&self) -> Seq<char> {
        self.access@
    }

    pub closed spec fn found(&self) -> Option<(Timestamp, Timestamp)> {
        self.found@
    }

    pub closed spec fn issued(&self) -> Seq<AuthCommandView> {
        self.issued@
    }

    pub closed spec fn is_over(&self) -> bool {
        self.over
    }

    pub closed spec fn sent(&self) -> nat {
        self.sent as nat
    }

    fn command(&self, k: usize) -> (c: AuthCommand)
        requires
            k < 6,
            self.hash@ == token_hash(self.raw@),
            self.refresh_hash@ == token_hash(self.refresh_raw@),
        ensures
            c@ == self.trace()[k as int],
    {
        if k == 0 {
            AuthCommand::FindRefreshToken(self.hash.clone())
        } else if k == 1 {
            AuthCommand::FindUserById(self.token_user)
        } else if k == 2 {
            AuthCommand::DeleteRefreshToken(self.stored.clone())
        } else if k == 3 {
            AuthCommand::InsertRefreshToken { token_hash: self.refresh_hash.clone(), user_id: self.uid }
        } else if k == 4 {
            AuthCommand::IssueAccessToken(self.uid)
        } else {
            AuthCommand::Commit
        }
    }

    fn stop(self, result: Result<(String, String), VeloxError>) -> (res: (RefreshFlow, AuthStep<(String, String)>))
        requires
            self.wf(),
        ensures
            res.0.wf(),
            res.0.over,
            res.0.issued@ == self.issued@,
            res.0.raw@ == self.raw@ && res.0.refresh_raw@ == self.refresh_raw@,
            res.0.token_user == self.token_user && res.0.stored@ == self.stored@,
            res.0.uid == self.uid && res.0.access@ == self.access@ && res.0.found@ == self.found@,
            res.1 == AuthStep::Finish(result),
    {
        (RefreshFlow { over: true, ..self }, AuthStep::Finish(result))
    }

    fn advance(self) -> (res: (RefreshFlow, AuthStep<(String, String)>))
        requires
            self.wf(),
            !self.over,
            self.sent < 6,
            self.found@ is Some,
        ensures
            res.0.wf(),
            !res.0.over,
            res.0.sent == self.sent + 1,
            res.1 matches AuthStep::Run(c) && res.0.issued@ == self.issued@.push(c@)
                && c@ == self.trace()[self.issued@.len() as int],
            self.issued@.len() == self.sent,
            res.0.raw@ == self.raw@ && res.0.refresh_raw@ == self.refresh_raw@,
            res.0.token_user == self.token_user && res.0.stored@ == self.stored@,
            res.0.uid == self.uid && res.0.access@ == self.access@ && res.0.found@ == self.found@,
    {
        assert(self.issued@.len() == self.sent);
        let cmd = self.command(self.sent);
        let pushed: Ghost<Seq<AuthCommandView>> = Ghost(self.issued@.push(cmd@));
        let sent = self.sent + 1;
        let flow = RefreshFlow { sent, issued: pushed, ..self };
        assert(flow.issued@ =~= flow.trace().take(sent as int));
        (flow, AuthStep::Run(cmd))
    }

    /// Answers the outcome of the last command.
    pub fn resume(self, event: AuthEvent) -> (res: (RefreshFlow, AuthStep<(String, String)>))
        requires
            self.wf(),
        ensures
            res.0.wf(),
            res.0.raw_token() == self.raw_token(),
            res.0.refresh_token() == self.refresh_token(),
            res.1 matches AuthStep::Run(c) ==> !res.0.is_over() && res.0.issued() == self.issued().push(c@),
            res.1 is Finish ==> res.0.is_over() && res.0.issued() == self.issued(),
            // what has run is always the start of the refresh's trace
            !res.0.is_over() ==> res.0.issued() == refresh_trace(
                self.raw_token(),
                res.0.token_user(),
                res.0.stored_token(),
                res.0.user_id(),
                self.refresh_token(),
            ).take(res.0.sent() as int),
            !res.0.is_over() ==> res.0.sent() == res.0.issued().len(),
            !(event is RefreshTokenLookup) ==> res.0.token_user() == self.token_user() && res.0.stored_token() == self.stored_token(),
            !(event is UserLookup) ==> res.0.user_id() == self.user_id(),
            !(event is AccessToken) ==> res.0.access_token() == self.access_token(),
            // each command is the next one of the trace
            res.1 matches AuthStep::Run(c) ==> c@ == refresh_trace(
                self.raw_token(),
                res.0.token_user(),
                res.0.stored_token(),
                res.0.user_id(),
                self.refresh_token(),
            )[self.issued().len() as int],
            self.is_over() ==> res.1 == AuthStep::<(String, String)>::Finish(Err(VeloxError::InternalError)),
            !self.is_over() ==> (event matches AuthEvent::Failed(e) ==> res.1 == AuthStep::<(String, String)>::Finish(Err(e))),
            // the refresh token must exist and must not have expired
            !self.is_over() && self.sent() == 1 ==> (event matches AuthEvent::RefreshTokenLookup(t, now) ==> match t {
                None => res.1 == AuthStep::<(String, String)>::Finish(Err(VeloxError::InvalidToken)),
                Some(rt) => if spec_before(rt.expires_at, now) {
                    res.1 == AuthStep::<(String, String)>::Finish(Err(VeloxError::InvalidToken))
                } else {
                    &&& res.1 is Run
                    &&& res.0.token_user() == rt.user_id
                    &&& res.0.stored_token() == rt.token@
                    &&& res.0.found() == Some((rt.expires_at, now))
                },
            }),
            // an expiry in an earlier second than the lookup is past, one in a
            // later second is not
            !self.is_over() && self.sent() == 1 ==> (event matches AuthEvent::RefreshTokenLookup(Some(t), now) ==> (
                (t.expires_at.secs < now.secs ==> res.1 == AuthStep::<(String, String)>::Finish(Err(VeloxError::InvalidToken)))
                && (now.secs < t.expires_at.secs ==> res.1 is Run))),
            // and so must its user
            !self.is_over() && self.sent() == 2 ==> (event matches AuthEvent::UserLookup(u) ==> match u {
                None => res.1 == AuthStep::<(String, String)>::Finish(Err(VeloxError::NotFound)),
                Some(user) => res.1 is Run && res.0.user_id() == user.id,
            }),
            !self.is_over() ==> (event matches AuthEvent::AccessToken(a) ==> (res.1 is Run ==> res.0.access_token() == a@)),
            // an event that the flow does not wait for ends it
            !self.is_over() && !refresh_expects(self.sent(), event)
                ==> res.1 == AuthStep::<(String, String)>::Finish(Err(VeloxError::InternalError)),
            !self.is_over() && refresh_expects(self.sent(), event) ==> (event matches AuthEvent::AccessToken(a)
                ==> res.1 is Run && res.0.access_token() == a@),
            // a command that returns nothing moves the flow on, and after the
            // commit the flow succeeds
            !self.is_over() && event is Done && refresh_expects(self.sent(), event) ==> if self.sent() < 6 {
                res.1 is Run
            } else {
                res.1 matches AuthStep::Finish(Ok(_))
            },
            // success: the old token was deleted, the new one stored, and
            // both tokens handed out
            res.1 matches AuthStep::Finish(Ok(tokens)) ==> {
                &&& res.0.issued() == refresh_trace(
                    self.raw_token(),
                    res.0.token_user(),
                    res.0.stored_token(),
                    res.0.user_id(),
                    self.refresh_token(),
                )
                &&& tokens.0@ == res.0.access_token()
                &&& tokens.1@ == self.refresh_token()
                &&& is_raw_token(tokens.1@)
                &&& res.0.found() matches Some((exp, now)) && !spec_before(exp, now)
            },
    {
        if self.over {
            return self.stop(Err(VeloxError::InternalError));
        }
        let sent = self.sent;
        match event {
            AuthEvent::Failed(e) => self.stop(Err(e)),
            AuthEvent::RefreshTokenLookup(t, now) => {
                if sent != 1 {
                    return self.stop(Err(VeloxError::InternalError));
                }
                match t {
                    None => self.stop(Err(VeloxError::InvalidToken)),
                    Some(rt) => {
                        if rt.expires_at.is_before(&now) {
                            self.stop(Err(VeloxError::InvalidToken))
                        } else {
                            let found: Ghost<Option<(Timestamp, Timestamp)>> = Ghost(Some((rt.expires_at, now)));
                            let flow = RefreshFlow { token_user: rt.user_id, stored: rt.token, found, ..self };
                            assert(flow.issued@ =~= flow.trace().take(1));
                            flow.advance()
                        }
                    },
                }
            },
            AuthEvent::UserLookup(u) => {
                if sent != 2 {
                    return self.stop(Err(VeloxError::InternalError));
                }
                match u {
                    None => self.stop(Err(VeloxError::NotFound)),
                    Some(user) => {
                        let flow = RefreshFlow { uid: user.id, ..self };
                        assert(flow.issued@ =~= flow.trace().take(2));
                        flow.advance()
                    },
                }
            },
            AuthEvent::AccessToken(a) => {
                if sent != 5 {
                    return self.stop(Err(VeloxError::InternalError));
                }
                let flow = RefreshFlow { access: a, ..self };
                flow.advance()
            },
            AuthEvent::Done => {
                if sent == 3 || sent == 4 {
                    self.advance()
                } else if sent == 6 {
                    let access = self.access.clone();
                    let refresh = self.refresh_raw.clone();
                    assert(self.issued@ =~= self.trace());
                    self.stop(Ok((access, refresh)))
                } else {
                    self.stop(Err(VeloxError::InternalError))
                }
            },
            _ => self.stop(Err(VeloxError::InternalError)),
        }
    }
}

// ---------------------------------------------------------------------------
// Logout
// ---------------------------------------------------------------------------

/// Every command of a logout that runs to its end.
pub open spec fn logout_trace(raw: Seq<char>) -> Seq<AuthCommandView> {
    seq![AuthCommandView::DeleteRefreshToken(token_hash(raw)), AuthCommandView::Commit]
}

/// A logout in progress.
pub struct LogoutFlow {
    raw: String,
    hash: String,
    sent: usize,
    over: bool,
    issued: Ghost<Seq<AuthCommandView>>,
}

impl LogoutFlow {
    pub closed spec fn wf(&self) -> bool {
        &&& self.hash@ == token_hash(self.raw@)
        &&& !self.over ==> 1 <= self.sent <= 2 && self.issued@ == logout_trace(self.raw@).take(
            self.sent as int,
        )
    }

    pub closed spec fn raw_token(&self) -> Seq<char> {
        self.raw@
    }

    pub closed spec fn issued(&self) -> Seq<AuthCommandView> {
        self.issued@
    }

    pub closed spec fn is_over(&self) -> bool {
        self.over
    }

    /// Answers the outcome of the last command.
    pub fn resume(self, event: AuthEvent) -> (res: (LogoutFlow, AuthStep<()>))
        requires
            self.wf(),
        ensures
            res.0.wf(),
            res.0.raw_token() == self.raw_token(),
            res.1 matches AuthStep::Run(c) ==> !res.0.is_over() && res.0.issued() == self.issued().push(c@),
            res.1 is Finish ==> res.0.is_over() && res.0.issued() == self.issued(),
            self.is_over() ==> res.1 == AuthStep::<()>::Finish(Err(VeloxError::InternalError)),
            !self.is_over() ==> (event matches AuthEvent::Failed(e) ==> res.1 == AuthStep::<()>::Finish(Err(e))),
            !self.is_over() && !(event is Failed) && !(event is Done) ==> res.1 == AuthStep::<()>::Finish(Err(VeloxError::InternalError)),
            // the deletion's success leads to the commit, the commit's to success
            !self.is_over() && event is Done && self.issued().len() == 1 ==> (res.1 matches AuthStep::Run(c)
                && c@ == AuthCommandView::Commit),
            !self.is_over() && event is Done && self.issued().len() == 2 ==> res.1 == AuthStep::<()>::Finish(Ok(())),
            res.1 == AuthStep::<()>::Finish(Ok(())) ==> res.0.issued() == logout_trace(self.raw_token()),
            !res.0.is_over() ==> res.0.issued() == logout_trace(self.raw_token()).take(res.0.issued().len() as int),
    {
        let LogoutFlow { raw, hash, sent, over, issued } = self;
        if over {
            return (LogoutFlow { raw, hash, sent, over: true, issued }, AuthStep::Finish(Err(VeloxError::InternalError)));
        }
        match event {
            AuthEvent::Done => {
                if sent == 1 {
                    let cmd = AuthCommand::Commit;
                    let pushed: Ghost<Seq<AuthCommandView>> = Ghost(issued@.push(cmd@));
                    let flow = LogoutFlow { raw, hash, sent: 2, over: false, issued: pushed };
                    assert(flow.issued@ =~= logout_trace(flow.raw@).take(2));
                    (flow, AuthStep::Run(cmd))
                } else {
                    assert(issued@ =~= logout_trace(raw@));
                    (LogoutFlow { raw, hash, sent, over: true, issued }, AuthStep::Finish(Ok(())))
                }
            },
            AuthEvent::Failed(e) => (LogoutFlow { raw, hash, sent, over: true, issued }, AuthStep::Finish(Err(e))),
            _ => (LogoutFlow { raw, hash, sent, over: true, issued }, AuthStep::Finish(Err(VeloxError::InternalError))),
        }
    }
}

} // verus!
