//! Login, refresh, logout and registration, as decisions.
//!
//! Each endpoint runs in steps. The application reads (the user directory,
//! the session store), hands what it read to the function here, carries
//! out the command that comes back, and answers with the reply only if the
//! store took the command (see `settle`).

use crate::auth::{create_jwt_at, issue_clock, issued};
use crate::models::auth::RefreshRequest;
use crate::models::user::{LoginRequest, RegisterRequest, TokenClaims, User, UserView};
use crate::services::session::{
    after, check_refresh, fetched, fresh_uuid, refresh_key, revoke_token, session_check,
    session_key, Fetched, FetchedView, SessionCommand, SessionCommandView, Slot,
    REFRESH_TTL_SECONDS,
};
use vstd::prelude::*;
use vstd::string::*;

verus! {

/// Body of the answer to a login that was granted.
#[derive(Debug, Clone, PartialEq, Eq)]
pub struct LoginReply {
    pub access_token: String,
    pub refresh_token: String,
    pub user_id: String,
    pub role: String,
}

pub struct LoginReplyView {
    pub access_token: Seq<char>,
    pub refresh_token: Seq<char>,
    pub user_id: Seq<char>,
    pub role: Seq<char>,
}

impl View for LoginReply {
    type V = LoginReplyView;

    open spec fn view(&self) -> LoginReplyView {
        LoginReplyView {
            access_token: self.access_token@,
            refresh_token: self.refresh_token@,
            user_id: self.user_id@,
            role: self.role@,
        }
    }
}

/// How a login ends.
#[derive(Debug, Clone, PartialEq, Eq)]
pub enum LoginOutcome {
    /// Carry out `store`, then answer 200 with `reply`.
    Granted { store: SessionCommand, reply: LoginReply },
    /// Answer 401 with the message.
    Denied { message: &'static str },
    /// No access token could be issued.
    Failed,
}

pub enum LoginOutcomeView {
    Granted { store: SessionCommandView, reply: LoginReplyView },
    Denied { message: Seq<char> },
    Failed,
}

impl View for LoginOutcome {
    type V = LoginOutcomeView;

    open spec fn view(&self) -> LoginOutcomeView {
        match self {
            LoginOutcome::Granted { store, reply } => LoginOutcomeView::Granted {
                store: store@,
                reply: reply@,
            },
            LoginOutcome::Denied { message } => LoginOutcomeView::Denied { message: message@ },
            LoginOutcome::Failed => LoginOutcomeView::Failed,
        }
    }
}

/// Body of the answer to a refresh that went through.
#[derive(Debug, Clone, PartialEq, Eq)]
pub struct RefreshReply {
    pub access_token: String,
    pub refresh_token: String,
}

pub struct RefreshReplyView {
    pub access_token: Seq<char>,
    pub refresh_token: Seq<char>,
}

impl View for RefreshReply {
    type V = RefreshReplyView;

    open spec fn view(&self) -> RefreshReplyView {
        RefreshReplyView {
            access_token: self.access_token@,
            refresh_token: self.refresh_token@,
        }
    }
}

/// How a refresh ends.
#[derive(Debug, Clone, PartialEq, Eq)]
pub enum RefreshOutcome {
    /// Carry out `store`, which replaces the session's token, then answer
    /// 200 with `reply`.
    Rotated { store: SessionCommand, reply: RefreshReply },
    /// Answer 401 with the message.
    Unauthorized { message: &'static str },
    /// No access token could be issued.
    Failed,
}

pub enum RefreshOutcomeView {
    Rotated { store: SessionCommandView, reply: RefreshReplyView },
    Unauthorized { message: Seq<char> },
    Failed,
}

impl View for RefreshOutcome {
    type V = RefreshOutcomeView;

    open spec fn view(&self) -> RefreshOutcomeView {
        match self {
            RefreshOutcome::Rotated { store, reply } => RefreshOutcomeView::Rotated {
                store: store@,
                reply: reply@,
            },
            RefreshOutcome::Unauthorized { message } => RefreshOutcomeView::Unauthorized {
                message: message@,
            },
            RefreshOutcome::Failed => RefreshOutcomeView::Failed,
        }
    }
}

/// How a logout ends.
#[derive(Debug, Clone, PartialEq, Eq)]
pub enum LogoutOutcome {
    /// Carry out `store`, which deletes the session, then answer 200 with
    /// the message.
    Revoked { store: SessionCommand, message: &'static str },
    /// The request carried no claims: answer 401.
    Unauthorized,
}

pub enum LogoutOutcomeView {
    Revoked { store: SessionCommandView, message: Seq<char> },
    Unauthorized,
}

impl View for LogoutOutcome {
    type V = LogoutOutcomeView;

    open spec fn view(&self) -> LogoutOutcomeView {
        match self {
            LogoutOutcome::Revoked { store, message } => LogoutOutcomeView::Revoked {
                store: store@,
                message: message@,
            },
            LogoutOutcome::Unauthorized => LogoutOutcomeView::Unauthorized,
        }
    }
}

/// Why a registration did not get as far as the directory.
#[derive(Debug, Clone, Copy, PartialEq, Eq, Structural)]
pub enum RegisterError {
    /// The password could not be hashed.
    Hashing,
}

pub open spec fn user_view(user: Option<&User>) -> Option<UserView> {
    match user {
        Some(u) => Some(u@),
        None => None,
    }
}

pub open spec fn claims_subject(claims: Option<&TokenClaims>) -> Option<Seq<char>> {
    match claims {
        Some(c) => Some(c.sub@),
        None => None,
    }
}

pub open spec fn hash_view(hash: Option<String>) -> Option<Seq<char>> {
    match hash {
        Some(h) => Some(h@),
        None => None,
    }
}

pub open spec fn new_user_view(r: Result<User, RegisterError>) -> Result<UserView, RegisterError> {
    match r {
        Ok(u) => Ok(u@),
        Err(e) => Err(e),
    }
}

/// The command that makes `token` the session of `user_id` for the full
/// time to live.
pub open spec fn session_stored(user_id: Seq<char>, token: Seq<char>) -> SessionCommandView {
    SessionCommandView::Store {
        key: session_key(user_id),
        token,
        ttl_seconds: REFRESH_TTL_SECONDS,
    }
}

/// Whether `bcrypt::verify` finds that `password` belongs to `hash`;
/// `None` where it reports an error, as on a hash that is none.
pub uninterp spec fn bcrypt_verified(password: Seq<char>, hash: Seq<char>) -> Option<bool>;

/// What the password check says of a login: nothing where there is no user
/// to check against.
pub open spec fn verified_for(password: Seq<char>, user: Option<UserView>) -> Option<bool> {
    match user {
        Some(u) => bcrypt_verified(password, u.password),
        None => None,
    }
}

/// Login as a function of what was read and drawn.
///
/// An unknown user is denied; so is a password that the check does not
/// confirm, an error of the check included. Otherwise an access token for
/// the user's id and role is issued as of `now`, and `fresh` becomes both
/// the session's token and the refresh token of the reply.
pub open spec fn login_outcome(
    secret: Seq<u8>,
    user: Option<UserView>,
    verified: Option<bool>,
    now: i64,
    fresh: Seq<char>,
) -> LoginOutcomeView {
    match user {
        None => LoginOutcomeView::Denied { message: "User not found"@ },
        Some(u) => if verified != Some(true) {
            LoginOutcomeView::Denied { message: "Invalid credentials"@ }
        } else {
            match issued(secret, u.id, u.role, now) {
                Err(_) => LoginOutcomeView::Failed,
                Ok(access) => LoginOutcomeView::Granted {
                    store: session_stored(u.id, fresh),
                    reply: LoginReplyView {
                        access_token: access,
                        refresh_token: fresh,
                        user_id: u.id,
                        role: u.role,
                    },
                },
            }
        },
    }
}

/// Refresh as a function of what was read and drawn.
///
/// The presented token must be the one found in the store; a session that
/// is missing, or a store that does not answer, counts as a mismatch. Then
/// the user must still be in the directory. Then an access token is issued
/// as of `now`, and `fresh` replaces the session's token.
pub open spec fn refresh_outcome(
    secret: Seq<u8>,
    presented: Seq<char>,
    stored: FetchedView,
    user: Option<UserView>,
    now: i64,
    fresh: Seq<char>,
) -> RefreshOutcomeView {
    if session_check(stored, presented) is Err {
        RefreshOutcomeView::Unauthorized { message: "Invalid refresh token"@ }
    } else {
        match user {
            None => RefreshOutcomeView::Unauthorized { message: "User not found"@ },
            Some(u) => match issued(secret, u.id, u.role, now) {
                Err(_) => RefreshOutcomeView::Failed,
                Ok(access) => RefreshOutcomeView::Rotated {
                    store: session_stored(u.id, fresh),
                    reply: RefreshReplyView { access_token: access, refresh_token: fresh },
                },
            },
        }
    }
}

/// Logout as a function of the claims that the request gate attached.
pub open spec fn logout_outcome(subject: Option<Seq<char>>) -> LogoutOutcomeView {
    match subject {
        Some(user_id) => LogoutOutcomeView::Revoked {
            store: SessionCommandView::Revoke { key: session_key(user_id) },
            message: "Logged out"@,
        },
        None => LogoutOutcomeView::Unauthorized,
    }
}

/// The role of a new user: the first one to register runs the place.
pub open spec fn initial_role(existing_users: i64) -> Seq<char> {
    if existing_users == 0 {
        "superuser"@
    } else {
        "user"@
    }
}

/// Registration as a function of what was drawn: the directory entry to
/// insert, if the password could be hashed.
pub open spec fn registration(
    username: Seq<char>,
    existing_users: i64,
    id: Seq<char>,
    hash: Option<Seq<char>>,
) -> Result<UserView, RegisterError> {
    match hash {
        None => Err(RegisterError::Hashing),
        Some(h) => Ok(
            UserView { id, username, password: h, role: initial_role(existing_users) },
        ),
    }
}

/// Calls `bcrypt::verify`. Trusted: the result is a function of the
/// password and the hash.
#[verifier::external_body]
fn verify_password(password: &str, hash: &str) -> (verified: Option<bool>)
    ensures
        verified == bcrypt_verified(password@, hash@),
{
    bcrypt::verify(password, hash).ok()
}

/// Calls `bcrypt::hash` at the default cost, which salts at random.
///
/// Trusted: whatever the salt, a hash that comes out is one that
/// `bcrypt::verify` confirms for the same password.
#[verifier::external_body]
fn hash_password(password: &str) -> (hash: Option<String>)
    ensures
        hash matches Some(h) ==> bcrypt_verified(password@, h@) == Some(true),
{
    bcrypt::hash(password, bcrypt::DEFAULT_COST).ok()
}

fn session_command(user_id: &str, token: &str) -> (command: SessionCommand)
    ensures
        command@ == session_stored(user_id@, token@),
{
    SessionCommand::Store {
        key: refresh_key(user_id),
        token: String::from_str(token),
        ttl_seconds: REFRESH_TTL_SECONDS,
    }
}

/// Decides a login, given the directory's answer, the verdict of the
/// password check, the time and a fresh refresh token.
pub fn login_with(
    secret: &[u8],
    user: Option<&User>,
    verified: Option<bool>,
    now: i64,
    fresh: String,
) -> (outcome: LoginOutcome)
    ensures
        outcome@ == login_outcome(secret@, user_view(user), verified, now, fresh@),
{
    let u = match user {
        Some(u) => u,
        None => {
            return LoginOutcome::Denied { message: "User not found" };
        },
    };
    match verified {
        Some(true) => {},
        _ => {
            return LoginOutcome::Denied { message: "Invalid credentials" };
        },
    }
    match create_jwt_at(secret, u.id.as_str(), u.role.as_str(), now) {
        Err(_) => LoginOutcome::Failed,
        Ok(access_token) => {
            let store = session_command(u.id.as_str(), fresh.as_str());
            LoginOutcome::Granted {
                store,
                reply: LoginReply {
                    access_token,
                    refresh_token: fresh,
                    user_id: u.id.clone(),
                    role: u.role.clone(),
                },
            }
        },
    }
}

/// Decides a login for the user that the directory returned for the
/// request's name, if any.
pub fn login(secret: &[u8], req: &LoginRequest, user: Option<&User>) -> (outcome: LoginOutcome)
    ensures
        exists|now: i64, fresh: Seq<char>|
            outcome@ == #[trigger] login_outcome(
                secret@,
                user_view(user),
                verified_for(req.password@, user_view(user)),
                now,
                fresh,
            ),
        user is None ==> outcome@ == (LoginOutcomeView::Denied { message: "User not found"@ }),
{
    let verified = match user {
        Some(u) => verify_password(req.password.as_str(), u.password.as_str()),
        None => None,
    };
    let now = issue_clock();
    let fresh = fresh_uuid();
    let ghost fresh_text = fresh@;
    let outcome = login_with(secret, user, verified, now, fresh);
    assert(outcome@ == login_outcome(
        secret@,
        user_view(user),
        verified_for(req.password@, user_view(user)),
        now,
        fresh_text,
    ));
    outcome
}

/// Decides a refresh, given what the store holds for the user, the
/// directory's answer, the time and a fresh refresh token.
pub fn refresh_with(
    secret: &[u8],
    req: &RefreshRequest,
    stored: &Fetched,
    user: Option<&User>,
    now: i64,
    fresh: String,
) -> (outcome: RefreshOutcome)
    ensures
        outcome@ == refresh_outcome(
            secret@,
            req.refresh_token@,
            stored@,
            user_view(user),
            now,
            fresh@,
        ),
{
    if check_refresh(stored, req.refresh_token.as_str()).is_err() {
        return RefreshOutcome::Unauthorized { message: "Invalid refresh token" };
    }
    let u = match user {
        Some(u) => u,
        None => {
            return RefreshOutcome::Unauthorized { message: "User not found" };
        },
    };
    match create_jwt_at(secret, u.id.as_str(), u.role.as_str(), now) {
        Err(_) => RefreshOutcome::Failed,
        Ok(access_token) => {
            let store = session_command(u.id.as_str(), fresh.as_str());
            RefreshOutcome::Rotated {
                store,
                reply: RefreshReply { access_token, refresh_token: fresh },
            }
        },
    }
}

/// Decides a refresh for what the store returned under the request's user
/// id and, where the token matched, what the directory returned for it.
pub fn refresh(secret: &[u8], req: &RefreshRequest, stored: &Fetched, user: Option<&User>) -> (outcome:
    RefreshOutcome)
    ensures
        exists|now: i64, fresh: Seq<char>|
            outcome@ == #[trigger] refresh_outcome(
                secret@,
                req.refresh_token@,
                stored@,
                user_view(user),
                now,
                fresh,
            ),
        session_check(stored@, req.refresh_token@) is Err ==> outcome@
            == (RefreshOutcomeView::Unauthorized { message: "Invalid refresh token"@ }),
{
    let now = issue_clock();
    let fresh = fresh_uuid();
    let ghost fresh_text = fresh@;
    let outcome = refresh_with(secret, req, stored, user, now, fresh);
    assert(outcome@ == refresh_outcome(
        secret@,
        req.refresh_token@,
        stored@,
        user_view(user),
        now,
        fresh_text,
    ));
    outcome
}

/// Decides a logout: the session of the subject of the request's claims
/// is deleted.
pub fn logout(claims: Option<&TokenClaims>) -> (outcome: LogoutOutcome)
    ensures
        outcome@ == logout_outcome(claims_subject(claims)),
{
    match claims {
        Some(c) => LogoutOutcome::Revoked {
            store: revoke_token(c.sub.as_str()),
            message: "Logged out",
        },
        None => LogoutOutcome::Unauthorized,
    }
}

/// The role that a user gets who registers when the directory holds
/// `existing_users` users.
pub fn role_for_newcomer(existing_users: i64) -> (role: &'static str)
    ensures
        role@ == initial_role(existing_users),
{
    if existing_users == 0 {
        "superuser"
    } else {
        "user"
    }
}

/// Makes the directory entry of a new user from a fresh id and the hash of
/// the password.
pub fn register_with(
    req: &RegisterRequest,
    existing_users: i64,
    id: String,
    hash: Option<String>,
) -> (r: Result<User, RegisterError>)
    ensures
        new_user_view(r) == registration(req.username@, existing_users, id@, hash_view(hash)),
        r matches Ok(u) ==> u.created_at is None,
{
    match hash {
        None => Err(RegisterError::Hashing),
        Some(password) => Ok(
            User {
                id,
                username: req.username.clone(),
                password,
                role: String::from_str(role_for_newcomer(existing_users)),
                created_at: None,
            },
        ),
    }
}

/// Makes the directory entry of a new user: a random id, the bcrypt hash
/// of the password, and the role by the number of users there are. The
/// entry's hash is one that a login with the same password is checked
/// against successfully.
pub fn register(req: &RegisterRequest, existing_users: i64) -> (r: Result<User, RegisterError>)
    ensures
        exists|id: Seq<char>, hash: Option<Seq<char>>|
            new_user_view(r) == #[trigger] registration(req.username@, existing_users, id, hash),
        r matches Ok(u) ==> u.username@ == req.username@ && u.role@ == initial_role(
            existing_users,
        ),
        r matches Ok(u) ==> bcrypt_verified(req.password@, u.password@) == Some(true),
{
    let hash = hash_password(req.password.as_str());
    let id = fresh_uuid();
    let ghost id_text = id@;
    let ghost hash_text = hash_view(hash);
    let r = register_with(req, existing_users, id, hash);
    assert(new_user_view(r) == registration(req.username@, existing_users, id_text, hash_text));
    r
}

/// Rotation makes a refresh token single-use.
///
/// Say a refresh for `user` presents `old_token` at store time `at` and
/// finds it in the session. Then, unless no access token can be issued, the
/// refresh goes through and stores `new_token` in its place. Once the store
/// has done so, a refresh presenting `old_token` is answered 401 at any
/// later time, whoever the directory returns; and one presenting
/// `new_token` goes through as long as the session has not expired, the
/// user is still in the directory and an access token can be issued.
///
/// The two tokens must differ: a generator that returned the old token
/// again would leave it valid.
pub proof fn law_rotation(
    sessions: Map<Seq<char>, Slot>,
    secret: Seq<u8>,
    user: UserView,
    old_token: Seq<char>,
    new_token: Seq<char>,
    now: i64,
    at: int,
    later: int,
    who: Option<UserView>,
    now_later: i64,
    fresh: Seq<char>,
)
    requires
        old_token != new_token,
        at <= later,
        session_check(fetched(sessions, session_key(user.id), at), old_token) is Ok,
    ensures
        issued(secret, user.id, user.role, now) matches Ok(access) ==> refresh_outcome(
            secret,
            old_token,
            fetched(sessions, session_key(user.id), at),
            Some(user),
            now,
            new_token,
        ) == (RefreshOutcomeView::Rotated {
            store: session_stored(user.id, new_token),
            reply: RefreshReplyView { access_token: access, refresh_token: new_token },
        }),
        refresh_outcome(
            secret,
            old_token,
            fetched(
                after(sessions, session_stored(user.id, new_token), at),
                session_key(user.id),
                later,
            ),
            who,
            now_later,
            fresh,
        ) == (RefreshOutcomeView::Unauthorized { message: "Invalid refresh token"@ }),
        later < at + REFRESH_TTL_SECONDS && issued(secret, user.id, user.role, now_later) is Ok
            ==> refresh_outcome(
            secret,
            new_token,
            fetched(
                after(sessions, session_stored(user.id, new_token), at),
                session_key(user.id),
                later,
            ),
            Some(user),
            now_later,
            fresh,
        ) is Rotated,
{
}

/// Logout revokes: once the store has carried out the command of a logout
/// for `subject`, every refresh for that user is answered 401, whatever
/// token it presents, until a new login stores a session.
pub proof fn law_revocation(
    sessions: Map<Seq<char>, Slot>,
    secret: Seq<u8>,
    subject: Seq<char>,
    at: int,
    later: int,
    presented: Seq<char>,
    who: Option<UserView>,
    now_later: i64,
    fresh: Seq<char>,
)
    ensures
        logout_outcome(Some(subject)) is Revoked,
        refresh_outcome(
            secret,
            presented,
            fetched(
                after(sessions, logout_outcome(Some(subject))->store, at),
                session_key(subject),
                later,
            ),
            who,
            now_later,
            fresh,
        ) == (RefreshOutcomeView::Unauthorized { message: "Invalid refresh token"@ }),
{
}

/// Sessions are kept apart by user: two users never share a store key, so
/// storing or revoking the session of one leaves what is fetched for the
/// other as it was.
pub proof fn law_sessions_apart(
    sessions: Map<Seq<char>, Slot>,
    one: Seq<char>,
    other: Seq<char>,
    token: Seq<char>,
    at: int,
    later: int,
)
    requires
        one != other,
    ensures
        session_key(one) != session_key(other),
        fetched(after(sessions, session_stored(one, token), at), session_key(other), later)
            == fetched(sessions, session_key(other), later),
        fetched(
            after(sessions, SessionCommandView::Revoke { key: session_key(one) }, at),
            session_key(other),
            later,
        ) == fetched(sessions, session_key(other), later),
{
    let prefix = "refresh:"@;
    assert((prefix + one).skip(prefix.len() as int) =~= one);
    assert((prefix + other).skip(prefix.len() as int) =~= other);
}

/// A user has one session slot, so of two different tokens at most one is
/// accepted at any one time, whatever the store went through before.
pub proof fn law_single_slot(
    sessions: Map<Seq<char>, Slot>,
    user_id: Seq<char>,
    at: int,
    one: Seq<char>,
    other: Seq<char>,
)
    requires
        one != other,
    ensures
        !(session_check(fetched(sessions, session_key(user_id), at), one) is Ok && session_check(
            fetched(sessions, session_key(user_id), at),
            other,
        ) is Ok),
{
}

/// How far one of two racing refresh calls has come.
pub enum Phase {
    /// Has not read the session yet.
    Waiting,
    /// Has read the session and found its token in it; has not written yet.
    Checked,
    /// Has written its new token and answers 200.
    Rotated,
    /// Has read the session, found another token, and answers 401.
    Refused,
}

/// Two refresh calls for one user, and the store they share.
pub struct Race {
    pub sessions: Map<Seq<char>, Slot>,
    pub first: Phase,
    pub second: Phase,
}

/// One store operation of one refresh call at time `at`: the read and
/// comparison if it is waiting, the write of `fresh` if it has checked.
pub open spec fn advance(
    sessions: Map<Seq<char>, Slot>,
    phase: Phase,
    user_id: Seq<char>,
    presented: Seq<char>,
    fresh: Seq<char>,
    at: int,
) -> (Map<Seq<char>, Slot>, Phase) {
    match phase {
        Phase::Waiting => if session_check(
            fetched(sessions, session_key(user_id), at),
            presented,
        ) is Ok {
            (sessions, Phase::Checked)
        } else {
            (sessions, Phase::Refused)
        },
        Phase::Checked => (after(sessions, session_stored(user_id, fresh), at), Phase::Rotated),
        Phase::Rotated => (sessions, Phase::Rotated),
        Phase::Refused => (sessions, Phase::Refused),
    }
}

/// Two refresh calls that both present `presented` for `user_id`, run by
/// the store one operation at a time in the order of `turns` (`false`: the
/// first call moves, `true`: the second), all at time `at`.
pub open spec fn race(
    sessions: Map<Seq<char>, Slot>,
    user_id: Seq<char>,
    presented: Seq<char>,
    fresh_first: Seq<char>,
    fresh_second: Seq<char>,
    at: int,
    turns: Seq<bool>,
) -> Race
    decreases turns.len(),
{
    if turns.len() == 0 {
        Race { sessions, first: Phase::Waiting, second: Phase::Waiting }
    } else {
        let before = race(
            sessions,
            user_id,
            presented,
            fresh_first,
            fresh_second,
            at,
            turns.drop_last(),
        );
        if turns.last() {
            let (next, phase) = advance(
                before.sessions,
                before.second,
                user_id,
                presented,
                fresh_second,
                at,
            );
            Race { sessions: next, first: before.first, second: phase }
        } else {
            let (next, phase) = advance(
                before.sessions,
                before.first,
                user_id,
                presented,
                fresh_first,
                at,
            );
            Race { sessions: next, first: phase, second: before.second }
        }
    }
}

pub open spec fn finished(phase: Phase) -> bool {
    phase is Rotated || phase is Refused
}

/// What holds of a race at every point.
pub open spec fn race_invariant(
    race: Race,
    user_id: Seq<char>,
    presented: Seq<char>,
    fresh_first: Seq<char>,
    fresh_second: Seq<char>,
    at: int,
) -> bool {
    let found = fetched(race.sessions, session_key(user_id), at);
    &&& found is Found
    &&& (found->0 == presented) == (!(race.first is Rotated) && !(race.second is Rotated))
    &&& found->0 == presented || (found->0 == fresh_first && race.first is Rotated) || (found->0
        == fresh_second && race.second is Rotated)
    &&& race.first is Refused ==> race.second is Rotated
    &&& race.second is Refused ==> race.first is Rotated
}

proof fn lemma_race_invariant(
    sessions: Map<Seq<char>, Slot>,
    user_id: Seq<char>,
    presented: Seq<char>,
    fresh_first: Seq<char>,
    fresh_second: Seq<char>,
    at: int,
    turns: Seq<bool>,
)
    requires
        fetched(sessions, session_key(user_id), at) == FetchedView::Found(presented),
        presented != fresh_first,
        presented != fresh_second,
    ensures
        race_invariant(
            race(sessions, user_id, presented, fresh_first, fresh_second, at, turns),
            user_id,
            presented,
            fresh_first,
            fresh_second,
            at,
        ),
    decreases turns.len(),
{
    if turns.len() > 0 {
        lemma_race_invariant(
            sessions,
            user_id,
            presented,
            fresh_first,
            fresh_second,
            at,
            turns.drop_last(),
        );
    }
}

/// Concurrent refresh, whatever the interleaving.
///
/// Two calls present the token that the session holds. Once both have
/// finished, at least one has gone through; the session holds the new
/// token of a call that went through; and a call that was refused was
/// refused because the other had already written. Since the session holds
/// one token, of the two new ones at most one is good from then on.
pub proof fn law_refresh_race(
    sessions: Map<Seq<char>, Slot>,
    user_id: Seq<char>,
    presented: Seq<char>,
    fresh_first: Seq<char>,
    fresh_second: Seq<char>,
    at: int,
    turns: Seq<bool>,
)
    requires
        fetched(sessions, session_key(user_id), at) == FetchedView::Found(presented),
        presented != fresh_first,
        presented != fresh_second,
        fresh_first != fresh_second,
        finished(race(sessions, user_id, presented, fresh_first, fresh_second, at, turns).first),
        finished(race(sessions, user_id, presented, fresh_first, fresh_second, at, turns).second),
    ensures
        ({
            let end = race(sessions, user_id, presented, fresh_first, fresh_second, at, turns);
            let found = fetched(end.sessions, session_key(user_id), at);
            &&& end.first is Rotated || end.second is Rotated
            &&& session_check(found, presented) is Err
            &&& session_check(found, fresh_first) is Ok ==> end.first is Rotated
            &&& session_check(found, fresh_second) is Ok ==> end.second is Rotated
            &&& session_check(found, fresh_first) is Ok != session_check(found, fresh_second) is Ok
        }),
{
    lemma_race_invariant(sessions, user_id, presented, fresh_first, fresh_second, at, turns);
}

proof fn lemma_race_first_leads(
    sessions: Map<Seq<char>, Slot>,
    user_id: Seq<char>,
    presented: Seq<char>,
    fresh_first: Seq<char>,
    fresh_second: Seq<char>,
    at: int,
    turns: Seq<bool>,
)
    requires
        fetched(sessions, session_key(user_id), at) == FetchedView::Found(presented),
        presented != fresh_first,
        turns.len() >= 2,
        !turns[0],
        !turns[1],
    ensures
        ({
            let end = race(sessions, user_id, presented, fresh_first, fresh_second, at, turns);
            &&& end.first is Rotated
            &&& end.second is Waiting || end.second is Refused
            &&& fetched(end.sessions, session_key(user_id), at) == FetchedView::Found(fresh_first)
        }),
    decreases turns.len(),
{
    let before = turns.drop_last();
    if turns.len() == 2 {
        assert(before.drop_last().len() == 0);
        reveal_with_fuel(race, 3);
    } else {
        assert(before[0] == turns[0] && before[1] == turns[1]);
        lemma_race_first_leads(
            sessions,
            user_id,
            presented,
            fresh_first,
            fresh_second,
            at,
            before,
        );
    }
}

proof fn lemma_race_second_leads(
    sessions: Map<Seq<char>, Slot>,
    user_id: Seq<char>,
    presented: Seq<char>,
    fresh_first: Seq<char>,
    fresh_second: Seq<char>,
    at: int,
    turns: Seq<bool>,
)
    requires
        fetched(sessions, session_key(user_id), at) == FetchedView::Found(presented),
        presented != fresh_second,
        turns.len() >= 2,
        turns[0],
        turns[1],
    ensures
        ({
            let end = race(sessions, user_id, presented, fresh_first, fresh_second, at, turns);
            &&& end.second is Rotated
            &&& end.first is Waiting || end.first is Refused
            &&& fetched(end.sessions, session_key(user_id), at) == FetchedView::Found(fresh_second)
        }),
    decreases turns.len(),
{
    let before = turns.drop_last();
    if turns.len() == 2 {
        assert(before.drop_last().len() == 0);
        reveal_with_fuel(race, 3);
    } else {
        assert(before[0] == turns[0] && before[1] == turns[1]);
        lemma_race_second_leads(
            sessions,
            user_id,
            presented,
            fresh_first,
            fresh_second,
            at,
            before,
        );
    }
}

/// Concurrent refresh, one call after the other: where the store runs both
/// operations of one call before the first of the other, exactly one call
/// goes through and the other is answered 401.
pub proof fn law_refresh_race_serial(
    sessions: Map<Seq<char>, Slot>,
    user_id: Seq<char>,
    presented: Seq<char>,
    fresh_first: Seq<char>,
    fresh_second: Seq<char>,
    at: int,
    turns: Seq<bool>,
)
    requires
        fetched(sessions, session_key(user_id), at) == FetchedView::Found(presented),
        presented != fresh_first,
        presented != fresh_second,
        turns.len() >= 2,
        turns[0] == turns[1],
        finished(race(sessions, user_id, presented, fresh_first, fresh_second, at, turns).first),
        finished(race(sessions, user_id, presented, fresh_first, fresh_second, at, turns).second),
    ensures
        ({
            let end = race(sessions, user_id, presented, fresh_first, fresh_second, at, turns);
            if turns[0] {
                end.second is Rotated && end.first is Refused
            } else {
                end.first is Rotated && end.second is Refused
            }
        }),
{
    if turns[0] {
        lemma_race_second_leads(sessions, user_id, presented, fresh_first, fresh_second, at, turns);
    } else {
        lemma_race_first_leads(sessions, user_id, presented, fresh_first, fresh_second, at, turns);
    }
}

/// Concurrent refresh, interleaved: where both calls read before either
/// writes, both go through. The later write stands, so only its token is
/// good afterwards; the token of the call that wrote first is dead on
/// arrival.
pub proof fn law_refresh_race_interleaved(
    sessions: Map<Seq<char>, Slot>,
    user_id: Seq<char>,
    presented: Seq<char>,
    fresh_first: Seq<char>,
    fresh_second: Seq<char>,
    at: int,
)
    requires
        fetched(sessions, session_key(user_id), at) == FetchedView::Found(presented),
        fresh_first != fresh_second,
    ensures
        ({
            let end = race(
                sessions,
                user_id,
                presented,
                fresh_first,
                fresh_second,
                at,
                seq![false, true, false, true],
            );
            let found = fetched(end.sessions, session_key(user_id), at);
            &&& end.first is Rotated
            &&& end.second is Rotated
            &&& session_check(found, fresh_second) is Ok
            &&& session_check(found, fresh_first) is Err
        }),
{
    let turns = seq![false, true, false, true];
    let three = turns.drop_last();
    let two = three.drop_last();
    let one = two.drop_last();
    assert(one.drop_last().len() == 0);
    assert(!one.last() && two.last() && !three.last() && turns.last());
    reveal_with_fuel(race, 5);
}

} // verus!
