//! Discord sign-in as a sequence of steps: each step takes the outcome of
//! the previous outside operation and says what to do next. The caller
//! performs each action (database work, settings, the clock, fresh ids, the
//! calls to Discord, token signing) and hands back its outcome.
use vstd::prelude::*;
use crate::callback::{
    access_token_expiry, check_discord_user, check_state_freshness, discord_account_row,
    discord_user_problem, is_account_row, is_exchange_form, is_session_row, is_sign_in, later,
    session_claims, session_row, sign_in_reply, state_token_fresh, token_exchange_form,
    AccountLookup, DiscordAccountRow, DiscordClient, DiscordProfile, SessionRow, StateLookup,
    ValidState, EARLIEST_SECONDS, LATEST_SECONDS, SESSION_LIFETIME_SECONDS, in_date_range,
};
use crate::patterns::Patterns;
use crate::settings::Setting;
use crate::reply::{
    is_internal_server_error, is_json_text_message, is_plain_text, plain_text,
    throw_internal_server_error, Reply,
};
use crate::text::uuid_hyphenated;
use crate::token::is_auth_token;
use crate::types::{DiscordAccessTokenResponse, DiscordCallbackQuery, DiscordUser, Timestamp, Token};

verus! {

/// What the sign-in is waiting for.
pub enum CallbackState {
    /// The transaction that checks the state token to open.
    OpeningStateTransaction { query: DiscordCallbackQuery },
    ReadingClientId { query: DiscordCallbackQuery },
    ReadingClientSecret { query: DiscordCallbackQuery, client_id: String },
    /// The creation time of the state token.
    LoadingStateToken { query: DiscordCallbackQuery, client: DiscordClient },
    /// The time to check the state token's age against.
    ReadingClock { query: DiscordCallbackQuery, client: DiscordClient, created_at: Timestamp },
    DeletingStateToken { query: DiscordCallbackQuery, client: DiscordClient, state: ValidState },
    CommittingState { query: DiscordCallbackQuery, client: DiscordClient, state: ValidState },
    ReadingRedirectUri { query: DiscordCallbackQuery, client: DiscordClient, state: ValidState },
    /// Discord's answer to the code exchange.
    ExchangingCode { state: ValidState },
    /// The Discord account.
    FetchingUser { state: ValidState, tokens: DiscordAccessTokenResponse },
    /// The time the access token's lifetime counts from.
    ReadingExpiryClock {
        state: ValidState,
        tokens: DiscordAccessTokenResponse,
        profile: DiscordProfile,
    },
    /// The transaction that records the account and the session to open.
    OpeningAccountTransaction {
        state: ValidState,
        tokens: DiscordAccessTokenResponse,
        profile: DiscordProfile,
        expires_at: Option<Timestamp>,
    },
    /// The existing account with the Discord e-mail address.
    FindingAccount {
        state: ValidState,
        tokens: DiscordAccessTokenResponse,
        profile: DiscordProfile,
        expires_at: Option<Timestamp>,
    },
    /// A fresh id for a new account.
    MintingAccountId {
        state: ValidState,
        tokens: DiscordAccessTokenResponse,
        profile: DiscordProfile,
        expires_at: Option<Timestamp>,
    },
    InsertingAccount {
        state: ValidState,
        tokens: DiscordAccessTokenResponse,
        profile: DiscordProfile,
        expires_at: Option<Timestamp>,
        userid: u128,
    },
    /// A fresh id for the session.
    MintingSessionId {
        state: ValidState,
        tokens: DiscordAccessTokenResponse,
        profile: DiscordProfile,
        expires_at: Option<Timestamp>,
        userid: u128,
    },
    /// The time the session's lifetime counts from.
    ReadingSessionClock {
        state: ValidState,
        tokens: DiscordAccessTokenResponse,
        profile: DiscordProfile,
        expires_at: Option<Timestamp>,
        userid: u128,
        session_id: u128,
    },
    InsertingSession { state: ValidState, session_id: u128 },
    CommittingAccount { state: ValidState, session_id: u128 },
    ReadingKey { state: ValidState, session_id: u128 },
    /// The signed session token.
    Signing,
    ReadingCallbackUri { token: String },
    /// The open transaction is being rolled back before `pending` is given.
    RollingBack { pending: Reply },
    /// The answer has been given.
    Finished,
}

impl CallbackState {
    /// Every state token a state holds passed the freshness check, and an
    /// answer waiting on a rollback is a refusal or the generic failure.
    pub open spec fn wf(&self) -> bool {
        match *self {
            CallbackState::DeletingStateToken { state, .. } => state.wf(),
            CallbackState::CommittingState { state, .. } => state.wf(),
            CallbackState::ReadingRedirectUri { state, .. } => state.wf(),
            CallbackState::ExchangingCode { state } => state.wf(),
            CallbackState::FetchingUser { state, .. } => state.wf(),
            CallbackState::ReadingExpiryClock { state, .. } => state.wf(),
            CallbackState::OpeningAccountTransaction { state, .. } => state.wf(),
            CallbackState::FindingAccount { state, .. } => state.wf(),
            CallbackState::MintingAccountId { state, .. } => state.wf(),
            CallbackState::InsertingAccount { state, .. } => state.wf(),
            CallbackState::MintingSessionId { state, .. } => state.wf(),
            CallbackState::ReadingSessionClock { state, .. } => state.wf(),
            CallbackState::InsertingSession { state, .. } => state.wf(),
            CallbackState::CommittingAccount { state, .. } => state.wf(),
            CallbackState::ReadingKey { state, .. } => state.wf(),
            CallbackState::RollingBack { pending } => pending.status == 401 || pending.status
                == 500,
            _ => true,
        }
    }
}

/// The outcome of the last action.
pub enum CallbackEvent {
    /// The database operation succeeded.
    Completed,
    /// The database operation failed.
    Failed,
    /// The setting's value, `None` when it is not set.
    Setting(Option<String>),
    StateToken(StateLookup),
    Clock(Timestamp),
    /// Discord's answer to the code exchange; `None` when the request or its
    /// decoding failed.
    Tokens(Option<DiscordAccessTokenResponse>),
    /// The Discord account; `None` when the request or its decoding failed.
    DiscordUser(Option<DiscordUser>),
    Account(AccountLookup),
    /// A fresh random id.
    Id(u128),
    /// The signed token; `None` when signing failed.
    Signed(Option<String>),
}

/// What the caller must do next.
pub enum CallbackAction {
    /// Begin a database transaction.
    OpenTransaction,
    ReadSetting(Setting),
    /// Select, for update, the creation time of state token `0`.
    LoadStateToken(u128),
    ReadClock,
    DeleteStateToken(u128),
    /// Commit the open transaction.
    Commit,
    /// Post `form` to Discord's token endpoint with the client credentials
    /// as basic authentication, redirects not followed.
    ExchangeCode { client_id: String, client_secret: String, form: Vec<(String, String)> },
    /// Fetch the Discord account with the access token as bearer token.
    FetchDiscordUser { access_token: String },
    /// Select, for update, the id of the account with this e-mail address.
    FindAccount { email: String },
    NewId,
    InsertAccount(DiscordAccountRow),
    InsertSession(SessionRow),
    /// Sign the claims with the key (HS256, default header).
    Sign { claims: Token, key: String },
    /// Roll the open transaction back.
    RollBack,
    /// Give this answer; any open transaction is dropped unfinished.
    Respond(Reply),
}

/// The step ends the sign-in with the generic failure.
pub open spec fn fails(n: CallbackState, a: CallbackAction) -> bool {
    &&& n is Finished
    &&& a matches CallbackAction::Respond(r) && is_internal_server_error(r)
}

/// The step rolls back before answering the generic failure.
pub open spec fn rolls_back_failing(n: CallbackState, a: CallbackAction) -> bool {
    &&& n matches CallbackState::RollingBack { pending } && is_internal_server_error(pending)
    &&& a is RollBack
}

/// The clock readings a step is handed are times chrono represents, and
/// the times the sign-in computes from them stay in chrono's range: the
/// access token's lifetime is one chrono accepts and, added to the time,
/// stays in range; and the session, read from the session clock, can expire
/// 31 days later.
pub open spec fn clock_fits(s: CallbackState, e: CallbackEvent) -> bool {
    e matches CallbackEvent::Clock(c) ==> {
        &&& in_date_range(c)
        &&& (s matches CallbackState::ReadingExpiryClock { tokens, .. } ==> (
        tokens.expires_in matches Some(d) ==> -(i64::MAX / 1000) <= d <= i64::MAX / 1000
            && EARLIEST_SECONDS <= c.seconds + d <= LATEST_SECONDS))
        &&& (s is ReadingSessionClock ==> c.seconds + SESSION_LIFETIME_SECONDS <= LATEST_SECONDS)
    }
}

/// How the sign-in moves on from `s` on outcome `e`: to state `n`, asking
/// for action `a`. Any outcome other than those listed ends the sign-in
/// with the generic failure.
pub open spec fn callback_step(s: CallbackState, e: CallbackEvent, n: CallbackState, a: CallbackAction) -> bool {
    match s {
        CallbackState::OpeningStateTransaction { query } => match e {
            CallbackEvent::Completed => n == (CallbackState::ReadingClientId { query })
                && a == CallbackAction::ReadSetting(Setting::DiscordClientId),
            _ => fails(n, a),
        },
        CallbackState::ReadingClientId { query } => match e {
            CallbackEvent::Setting(Some(v)) => n == (CallbackState::ReadingClientSecret {
                query,
                client_id: v,
            }) && a == CallbackAction::ReadSetting(Setting::DiscordSecret),
            _ => fails(n, a),
        },
        CallbackState::ReadingClientSecret { query, client_id } => match e {
            CallbackEvent::Setting(Some(v)) => n == (CallbackState::LoadingStateToken {
                query,
                client: DiscordClient { client_id, client_secret: v },
            }) && a == CallbackAction::LoadStateToken(query.state),
            _ => fails(n, a),
        },
        CallbackState::LoadingStateToken { query, client } => match e {
            CallbackEvent::StateToken(StateLookup::Found(t)) => n == (CallbackState::ReadingClock {
                query,
                client,
                created_at: t,
            }) && a is ReadClock,
            CallbackEvent::StateToken(StateLookup::NotFound) => (n matches CallbackState::RollingBack {
                pending,
            } && is_plain_text(pending, 401, "Invalid state token"@)) && a is RollBack,
            CallbackEvent::StateToken(StateLookup::Failed) => rolls_back_failing(n, a),
            _ => fails(n, a),
        },
        CallbackState::ReadingClock { query, client, created_at } => match e {
            CallbackEvent::Clock(now) => if state_token_fresh(created_at, now) {
                (n matches CallbackState::DeletingStateToken { query: q, client: c, state } && q
                    == query && c == client && state.wf() && state.created() == created_at
                    && state.checked() == now) && a == CallbackAction::DeleteStateToken(
                    query.state,
                )
            } else {
                (n matches CallbackState::RollingBack { pending } && is_plain_text(
                    pending,
                    401,
                    "State token expired"@,
                )) && a is RollBack
            },
            _ => fails(n, a),
        },
        CallbackState::DeletingStateToken { query, client, state } => match e {
            CallbackEvent::Completed => n == (CallbackState::CommittingState {
                query,
                client,
                state,
            }) && a is Commit,
            _ => fails(n, a),
        },
        CallbackState::CommittingState { query, client, state } => match e {
            CallbackEvent::Completed => n == (CallbackState::ReadingRedirectUri {
                query,
                client,
                state,
            }) && a == CallbackAction::ReadSetting(Setting::RedirectUriDiscord),
            _ => fails(n, a),
        },
        CallbackState::ReadingRedirectUri { query, client, state } => match e {
            CallbackEvent::Setting(Some(uri)) => n == (CallbackState::ExchangingCode { state })
                && (a matches CallbackAction::ExchangeCode { client_id, client_secret, form }
                && client_id == client.client_id && client_secret == client.client_secret
                && is_exchange_form(form@, query.code@, uri@)),
            _ => fails(n, a),
        },
        CallbackState::ExchangingCode { state } => match e {
            CallbackEvent::Tokens(Some(t)) => n == (CallbackState::FetchingUser {
                state,
                tokens: t,
            }) && (a matches CallbackAction::FetchDiscordUser { access_token }
                && access_token@ == t.access_token@),
            _ => fails(n, a),
        },
        CallbackState::FetchingUser { state, tokens } => match e {
            CallbackEvent::DiscordUser(Some(u)) => match discord_user_problem(u) {
                Some(m) => n is Finished && (a matches CallbackAction::Respond(r)
                    && is_json_text_message(r, 400, m)),
                None => (n matches CallbackState::ReadingExpiryClock {
                    state: s2,
                    tokens: t2,
                    profile,
                } && s2 == state && t2 == tokens && profile.describes(u)) && a is ReadClock,
            },
            _ => fails(n, a),
        },
        CallbackState::ReadingExpiryClock { state, tokens, profile } => match e {
            CallbackEvent::Clock(c) => n == (CallbackState::OpeningAccountTransaction {
                state,
                tokens,
                profile,
                expires_at: match tokens.expires_in {
                    Some(d) => Some(later(c, d as int)),
                    None => None,
                },
            }) && a is OpenTransaction,
            _ => fails(n, a),
        },
        CallbackState::OpeningAccountTransaction { state, tokens, profile, expires_at } => match e {
            CallbackEvent::Completed => n == (CallbackState::FindingAccount {
                state,
                tokens,
                profile,
                expires_at,
            }) && (a matches CallbackAction::FindAccount { email } && email@
                == profile.email_view()),
            _ => fails(n, a),
        },
        CallbackState::FindingAccount { state, tokens, profile, expires_at } => match e {
            CallbackEvent::Account(AccountLookup::Found(id)) => n == (
            CallbackState::InsertingAccount { state, tokens, profile, expires_at, userid: id })
                && (a matches CallbackAction::InsertAccount(row) && is_account_row(
                row,
                id,
                profile,
                state,
            )),
            CallbackEvent::Account(AccountLookup::NotFound) => n == (
            CallbackState::MintingAccountId { state, tokens, profile, expires_at }) && a is NewId,
            CallbackEvent::Account(AccountLookup::Failed) => rolls_back_failing(n, a),
            _ => fails(n, a),
        },
        CallbackState::MintingAccountId { state, tokens, profile, expires_at } => match e {
            CallbackEvent::Id(id) => n == (CallbackState::InsertingAccount {
                state,
                tokens,
                profile,
                expires_at,
                userid: id,
            }) && (a matches CallbackAction::InsertAccount(row) && is_account_row(
                row,
                id,
                profile,
                state,
            )),
            _ => fails(n, a),
        },
        CallbackState::InsertingAccount { state, tokens, profile, expires_at, userid } => match e {
            CallbackEvent::Completed => n == (CallbackState::MintingSessionId {
                state,
                tokens,
                profile,
                expires_at,
                userid,
            }) && a is NewId,
            CallbackEvent::Failed => rolls_back_failing(n, a),
            _ => fails(n, a),
        },
        CallbackState::MintingSessionId { state, tokens, profile, expires_at, userid } => match e {
            CallbackEvent::Id(sid) => n == (CallbackState::ReadingSessionClock {
                state,
                tokens,
                profile,
                expires_at,
                userid,
                session_id: sid,
            }) && a is ReadClock,
            _ => fails(n, a),
        },
        CallbackState::ReadingSessionClock {
            state,
            tokens,
            profile,
            expires_at,
            userid,
            session_id,
        } => match e {
            CallbackEvent::Clock(c) => n == (CallbackState::InsertingSession { state, session_id })
                && (a matches CallbackAction::InsertSession(row) && is_session_row(
                row,
                session_id,
                state,
                c,
                profile,
                tokens,
                expires_at,
                userid,
            )),
            _ => fails(n, a),
        },
        CallbackState::InsertingSession { state, session_id } => match e {
            CallbackEvent::Completed => n == (CallbackState::CommittingAccount {
                state,
                session_id,
            }) && a is Commit,
            _ => fails(n, a),
        },
        CallbackState::CommittingAccount { state, session_id } => match e {
            CallbackEvent::Completed => n == (CallbackState::ReadingKey { state, session_id })
                && a == CallbackAction::ReadSetting(Setting::JwtKey),
            _ => fails(n, a),
        },
        CallbackState::ReadingKey { state, session_id } => match e {
            CallbackEvent::Setting(Some(k)) => n is Signing && (a matches CallbackAction::Sign {
                claims,
                key,
            } && key == k && is_auth_token(
                claims,
                uuid_hyphenated(session_id),
                state.checked().seconds as usize,
                (state.checked().seconds + SESSION_LIFETIME_SECONDS) as usize,
            )),
            _ => fails(n, a),
        },
        CallbackState::Signing => match e {
            CallbackEvent::Signed(Some(t)) => n == (CallbackState::ReadingCallbackUri { token: t })
                && a == CallbackAction::ReadSetting(Setting::CallbackUriDiscord),
            _ => fails(n, a),
        },
        CallbackState::ReadingCallbackUri { token } => match e {
            CallbackEvent::Setting(Some(loc)) => n is Finished && (a matches CallbackAction::Respond(
                r,
            ) && is_sign_in(r, token@, loc@)),
            _ => fails(n, a),
        },
        CallbackState::RollingBack { pending } => match e {
            CallbackEvent::Completed => n is Finished && a == CallbackAction::Respond(pending),
            _ => fails(n, a),
        },
        CallbackState::Finished => fails(n, a),
    }
}

/// Every answer ends the sign-in: a step that answers moves to `Finished`.
pub proof fn answers_end_the_sign_in(s: CallbackState, e: CallbackEvent, n: CallbackState, a: CallbackAction)
    requires
        callback_step(s, e, n, a),
        a is Respond,
    ensures
        n is Finished,
{
}

/// A rollback is always followed by the answer it was made for (or the
/// generic failure when it fails), and nothing else.
pub proof fn rollback_leads_to_answer(s: CallbackState, e: CallbackEvent, n: CallbackState, a: CallbackAction)
    requires
        callback_step(s, e, n, a),
        a is RollBack,
    ensures
        n is RollingBack,
{
}

/// A session is only recorded from a state token that was found and was
/// fresh when checked, and it is issued at that check.
pub proof fn session_needs_fresh_state_token(s: CallbackState, e: CallbackEvent, n: CallbackState, row: SessionRow)
    requires
        s.wf(),
        callback_step(s, e, n, CallbackAction::InsertSession(row)),
    ensures
        s matches CallbackState::ReadingSessionClock { state, .. } && state_token_fresh(
            state.created(),
            state.checked(),
        ) && row.issued_at == state.checked(),
{
    if let CallbackState::ReadingSessionClock { state, .. } = s {
        state.was_fresh();
    }
}

/// Sign-in only completes (`302` with the session cookie) once the session
/// token is signed, the step after which it asks for nothing but the
/// location.
pub proof fn sign_in_completes_after_signing(s: CallbackState, e: CallbackEvent, n: CallbackState, r: Reply)
    requires
        s.wf(),
        callback_step(s, e, n, CallbackAction::Respond(r)),
        r.status == 302,
    ensures
        s is ReadingCallbackUri,
{
}

/// `events` handed one by one to a sign-in started for `query` give the
/// states `states` and the actions `actions`: `actions[0]` is the first
/// action, `events[i]` is the outcome of `actions[i]`, and on it the sign-in
/// moves from `states[i]` to `states[i + 1]`, asking for `actions[i + 1]`.
pub open spec fn is_sign_in_run(
    query: DiscordCallbackQuery,
    events: Seq<CallbackEvent>,
    states: Seq<CallbackState>,
    actions: Seq<CallbackAction>,
) -> bool {
    &&& states.len() == events.len() + 1
    &&& actions.len() == events.len() + 1
    &&& states[0] == (CallbackState::OpeningStateTransaction { query })
    &&& actions[0] is OpenTransaction
    &&& forall|i: int|
        0 <= i < events.len() ==> #[trigger] callback_step(
            states[i],
            events[i],
            states[i + 1],
            actions[i + 1],
        )
}

/// An action that sends a request to Discord.
pub open spec fn calls_discord(a: CallbackAction) -> bool {
    a is ExchangeCode || a is FetchDiscordUser
}

/// In the run, the state token of `query` was loaded (fourth action),
/// found, and fresh at the clock reading that followed.
pub open spec fn state_token_checked(
    query: DiscordCallbackQuery,
    events: Seq<CallbackEvent>,
    actions: Seq<CallbackAction>,
) -> bool {
    &&& actions[3] == CallbackAction::LoadStateToken(query.state)
    &&& events[3] matches CallbackEvent::StateToken(StateLookup::Found(created_at))
        && events[4] matches CallbackEvent::Clock(now) && state_token_fresh(created_at, now)
}

/// In the run, the state token of `query` was checked, then deleted, and the
/// deletion committed.
pub open spec fn state_token_spent(
    query: DiscordCallbackQuery,
    events: Seq<CallbackEvent>,
    actions: Seq<CallbackAction>,
) -> bool {
    &&& state_token_checked(query, events, actions)
    &&& actions[5] == CallbackAction::DeleteStateToken(query.state)
    &&& events[5] is Completed
    &&& actions[6] is Commit
    &&& events[6] is Completed
}

/// What reaching state `s` at position `m` of a run for `query` says of
/// the run so far.
spec fn reached(
    query: DiscordCallbackQuery,
    events: Seq<CallbackEvent>,
    actions: Seq<CallbackAction>,
    s: CallbackState,
    m: int,
) -> bool {
    match s {
        CallbackState::OpeningStateTransaction { query: q } => m == 0 && q == query,
        CallbackState::ReadingClientId { query: q } => m == 1 && q == query,
        CallbackState::ReadingClientSecret { query: q, .. } => m == 2 && q == query,
        CallbackState::LoadingStateToken { query: q, .. } => m == 3 && q == query && actions[3]
            == CallbackAction::LoadStateToken(query.state),
        CallbackState::ReadingClock { query: q, created_at, .. } => m == 4 && q == query
            && actions[3] == CallbackAction::LoadStateToken(query.state) && events[3]
            == CallbackEvent::StateToken(StateLookup::Found(created_at)),
        CallbackState::DeletingStateToken { query: q, .. } => m == 5 && q == query
            && state_token_checked(query, events, actions) && actions[5]
            == CallbackAction::DeleteStateToken(query.state),
        CallbackState::CommittingState { query: q, .. } => m == 6 && q == query
            && state_token_checked(query, events, actions) && actions[5]
            == CallbackAction::DeleteStateToken(query.state) && events[5] is Completed
            && actions[6] is Commit,
        CallbackState::ReadingRedirectUri { query: q, .. } => m == 7 && q == query
            && state_token_spent(query, events, actions),
        CallbackState::RollingBack { .. } => true,
        CallbackState::Finished => true,
        _ => m >= 8 && state_token_spent(query, events, actions),
    }
}

proof fn lemma_reached(
    query: DiscordCallbackQuery,
    events: Seq<CallbackEvent>,
    states: Seq<CallbackState>,
    actions: Seq<CallbackAction>,
    m: int,
)
    requires
        is_sign_in_run(query, events, states, actions),
        0 <= m < states.len(),
    ensures
        reached(query, events, actions, states[m], m),
    decreases m,
{
    if m > 0 {
        let j = m - 1;
        lemma_reached(query, events, states, actions, j);
        assert(callback_step(states[j], events[j], states[j + 1], actions[j + 1]));
    }
}

/// A sign-in sends nothing to Discord until the state token of its query
/// has been loaded, found fresh, deleted, and the deletion committed. So a
/// state token opens at most one exchange with Discord, even when that
/// sign-in fails later; and a sign-in whose state token is not found never
/// calls Discord.
pub proof fn discord_is_called_only_with_a_spent_state_token(
    query: DiscordCallbackQuery,
    events: Seq<CallbackEvent>,
    states: Seq<CallbackState>,
    actions: Seq<CallbackAction>,
    k: int,
)
    requires
        is_sign_in_run(query, events, states, actions),
        0 <= k < actions.len(),
        calls_discord(actions[k]),
    ensures
        k >= 8,
        state_token_spent(query, events, actions),
{
    assert(k > 0);
    let j = k - 1;
    lemma_reached(query, events, states, actions, j);
    assert(callback_step(states[j], events[j], states[j + 1], actions[j + 1]));
}

fn failure() -> (r: (CallbackState, CallbackAction))
    ensures
        fails(r.0, r.1),
{
    (CallbackState::Finished, CallbackAction::Respond(throw_internal_server_error()))
}

/// Where the sign-in starts for the query Discord redirected back with.
pub fn callback_start(query: DiscordCallbackQuery) -> (r: (CallbackState, CallbackAction))
    ensures
        r.0 == (CallbackState::OpeningStateTransaction { query }),
        r.1 is OpenTransaction,
{
    (CallbackState::OpeningStateTransaction { query }, CallbackAction::OpenTransaction)
}


/// One step of the sign-in: from state `state`, given the outcome `event` of
/// the last action, the next state and the next action.
pub fn exchange_code(patterns: &Patterns, state: CallbackState, event: CallbackEvent) -> (r: (
    CallbackState,
    CallbackAction,
))
    requires
        patterns.wf(),
        state.wf(),
        clock_fits(state, event),
    ensures
        r.0.wf(),
        callback_step(state, event, r.0, r.1),
{
    match state {
        CallbackState::OpeningStateTransaction { query } => match event {
            CallbackEvent::Completed => (
                CallbackState::ReadingClientId { query },
                CallbackAction::ReadSetting(Setting::DiscordClientId),
            ),
            _ => failure(),
        },
        CallbackState::ReadingClientId { query } => match event {
            CallbackEvent::Setting(Some(v)) => (
                CallbackState::ReadingClientSecret { query, client_id: v },
                CallbackAction::ReadSetting(Setting::DiscordSecret),
            ),
            _ => failure(),
        },
        CallbackState::ReadingClientSecret { query, client_id } => match event {
            CallbackEvent::Setting(Some(v)) => {
                let token = query.state;
                (
                    CallbackState::LoadingStateToken {
                        query,
                        client: DiscordClient { client_id, client_secret: v },
                    },
                    CallbackAction::LoadStateToken(token),
                )
            },
            _ => failure(),
        },
        CallbackState::LoadingStateToken { query, client } => match event {
            CallbackEvent::StateToken(StateLookup::Found(t)) => (
                CallbackState::ReadingClock { query, client, created_at: t },
                CallbackAction::ReadClock,
            ),
            CallbackEvent::StateToken(StateLookup::NotFound) => (
                CallbackState::RollingBack { pending: plain_text(401, "Invalid state token") },
                CallbackAction::RollBack,
            ),
            CallbackEvent::StateToken(StateLookup::Failed) => (
                CallbackState::RollingBack { pending: throw_internal_server_error() },
                CallbackAction::RollBack,
            ),
            _ => failure(),
        },
        CallbackState::ReadingClock { query, client, created_at } => match event {
            CallbackEvent::Clock(now) => match check_state_freshness(created_at, now) {
                Some(valid) => {
                    let token = query.state;
                    (
                        CallbackState::DeletingStateToken { query, client, state: valid },
                        CallbackAction::DeleteStateToken(token),
                    )
                },
                None => (
                    CallbackState::RollingBack { pending: plain_text(401, "State token expired") },
                    CallbackAction::RollBack,
                ),
            },
            _ => failure(),
        },
        CallbackState::DeletingStateToken { query, client, state } => match event {
            CallbackEvent::Completed => (
                CallbackState::CommittingState { query, client, state },
                CallbackAction::Commit,
            ),
            _ => failure(),
        },
        CallbackState::CommittingState { query, client, state } => match event {
            CallbackEvent::Completed => (
                CallbackState::ReadingRedirectUri { query, client, state },
                CallbackAction::ReadSetting(Setting::RedirectUriDiscord),
            ),
            _ => failure(),
        },
        CallbackState::ReadingRedirectUri { query, client, state } => match event {
            CallbackEvent::Setting(Some(uri)) => {
                let form = token_exchange_form(query.code.as_str(), uri.as_str());
                (
                    CallbackState::ExchangingCode { state },
                    CallbackAction::ExchangeCode {
                        client_id: client.client_id,
                        client_secret: client.client_secret,
                        form,
                    },
                )
            },
            _ => failure(),
        },
        CallbackState::ExchangingCode { state } => match event {
            CallbackEvent::Tokens(Some(t)) => {
                let access_token = t.access_token.clone();
                (
                    CallbackState::FetchingUser { state, tokens: t },
                    CallbackAction::FetchDiscordUser { access_token },
                )
            },
            _ => failure(),
        },
        CallbackState::FetchingUser { state, tokens } => match event {
            CallbackEvent::DiscordUser(Some(u)) => match check_discord_user(patterns, u) {
                Ok(profile) => (
                    CallbackState::ReadingExpiryClock { state, tokens, profile },
                    CallbackAction::ReadClock,
                ),
                Err(r) => (CallbackState::Finished, CallbackAction::Respond(r)),
            },
            _ => failure(),
        },
        CallbackState::ReadingExpiryClock { state, tokens, profile } => match event {
            CallbackEvent::Clock(c) => {
                let expires_at = access_token_expiry(c, tokens.expires_in);
                (
                    CallbackState::OpeningAccountTransaction { state, tokens, profile, expires_at },
                    CallbackAction::OpenTransaction,
                )
            },
            _ => failure(),
        },
        CallbackState::OpeningAccountTransaction { state, tokens, profile, expires_at } => match event {
            CallbackEvent::Completed => {
                let email = profile.email().clone();
                (
                    CallbackState::FindingAccount { state, tokens, profile, expires_at },
                    CallbackAction::FindAccount { email },
                )
            },
            _ => failure(),
        },
        CallbackState::FindingAccount { state, tokens, profile, expires_at } => match event {
            CallbackEvent::Account(AccountLookup::Found(id)) => {
                let row = discord_account_row(id, &profile, &state);
                (
                    CallbackState::InsertingAccount { state, tokens, profile, expires_at, userid: id },
                    CallbackAction::InsertAccount(row),
                )
            },
            CallbackEvent::Account(AccountLookup::NotFound) => (
                CallbackState::MintingAccountId { state, tokens, profile, expires_at },
                CallbackAction::NewId,
            ),
            CallbackEvent::Account(AccountLookup::Failed) => (
                CallbackState::RollingBack { pending: throw_internal_server_error() },
                CallbackAction::RollBack,
            ),
            _ => failure(),
        },
        CallbackState::MintingAccountId { state, tokens, profile, expires_at } => match event {
            CallbackEvent::Id(id) => {
                let row = discord_account_row(id, &profile, &state);
                (
                    CallbackState::InsertingAccount { state, tokens, profile, expires_at, userid: id },
                    CallbackAction::InsertAccount(row),
                )
            },
            _ => failure(),
        },
        CallbackState::InsertingAccount { state, tokens, profile, expires_at, userid } => match event {
            CallbackEvent::Completed => (
                CallbackState::MintingSessionId { state, tokens, profile, expires_at, userid },
                CallbackAction::NewId,
            ),
            CallbackEvent::Failed => (
                CallbackState::RollingBack { pending: throw_internal_server_error() },
                CallbackAction::RollBack,
            ),
            _ => failure(),
        },
        CallbackState::MintingSessionId { state, tokens, profile, expires_at, userid } => match event {
            CallbackEvent::Id(sid) => (
                CallbackState::ReadingSessionClock {
                    state,
                    tokens,
                    profile,
                    expires_at,
                    userid,
                    session_id: sid,
                },
                CallbackAction::ReadClock,
            ),
            _ => failure(),
        },
        CallbackState::ReadingSessionClock {
            state,
            tokens,
            profile,
            expires_at,
            userid,
            session_id,
        } => match event {
            CallbackEvent::Clock(c) => {
                let row = session_row(session_id, &state, c, &profile, tokens, expires_at, userid);
                (CallbackState::InsertingSession { state, session_id }, CallbackAction::InsertSession(row))
            },
            _ => failure(),
        },
        CallbackState::InsertingSession { state, session_id } => match event {
            CallbackEvent::Completed => (
                CallbackState::CommittingAccount { state, session_id },
                CallbackAction::Commit,
            ),
            _ => failure(),
        },
        CallbackState::CommittingAccount { state, session_id } => match event {
            CallbackEvent::Completed => (
                CallbackState::ReadingKey { state, session_id },
                CallbackAction::ReadSetting(Setting::JwtKey),
            ),
            _ => failure(),
        },
        CallbackState::ReadingKey { state, session_id } => match event {
            CallbackEvent::Setting(Some(k)) => {
                let claims = session_claims(session_id, &state);
                (CallbackState::Signing, CallbackAction::Sign { claims, key: k })
            },
            _ => failure(),
        },
        CallbackState::Signing => match event {
            CallbackEvent::Signed(Some(t)) => (
                CallbackState::ReadingCallbackUri { token: t },
                CallbackAction::ReadSetting(Setting::CallbackUriDiscord),
            ),
            _ => failure(),
        },
        CallbackState::ReadingCallbackUri { token } => match event {
            CallbackEvent::Setting(Some(loc)) => (
                CallbackState::Finished,
                CallbackAction::Respond(sign_in_reply(token.as_str(), loc)),
            ),
            _ => failure(),
        },
        CallbackState::RollingBack { pending } => match event {
            CallbackEvent::Completed => (CallbackState::Finished, CallbackAction::Respond(pending)),
            _ => failure(),
        },
        CallbackState::Finished => failure(),
    }
}

} // verus!
