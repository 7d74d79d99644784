//! Which session token to use, and when to log in for a new one.

use vstd::prelude::*;
use vstd::string::StringExecFns;
use crate::clock::{is_within_hours, parse_rfc3339, rfc3339_parse, utc_now, within_hours, Timestamp};
use crate::config::with_token;
use crate::models::{AuthResponse, Config, ConfigView, PlayerData};
use crate::notes::{err, lines, no_notes, one_line, out, say, warn, Note, NoteView};
use crate::text::{owned, same};

verus! {

/// The login service.
pub const AUTH_URL: &'static str = "https://auth.factorio.com/api-login";

/// The file in which Factorio keeps the player's data.
pub const PLAYER_DATA_FILE: &'static str = "player-data.json";

/// For how many hours a session token is used again.
pub const SESSION_HOURS: u32 = 36;

/// The token of the player's data, unless the file is missing or its token
/// empty.
pub open spec fn player_token(data: Option<PlayerData>) -> Option<Seq<char>> {
    match data {
        Some(d) => if d.service_token@.len() > 0 {
            Some(d.service_token@)
        } else {
            None
        },
        None => None,
    }
}

/// Takes the token out of the player's data, which is `None` where the file
/// does not exist.
pub fn load_player_data_token(data: Option<PlayerData>) -> (token: Option<String>)
    ensures
        token is Some <==> player_token(data) is Some,
        token matches Some(t) ==> player_token(data) == Some(t@),
{
    match data {
        Some(d) => if d.service_token.as_str().is_empty() {
            None
        } else {
            Some(d.service_token)
        },
        None => None,
    }
}

/// What to do next to get a token.
#[derive(Debug)]
pub enum TokenStep {
    /// Read `player-data.json` and go on with what it holds.
    ReadPlayerData,
    /// Use this token; no login took place.
    Use { token: String },
    /// Log in with user name and password.
    LogIn { url: String, username: String, password: String },
}

pub enum TokenStepView {
    ReadPlayerData,
    Use { token: Seq<char> },
    LogIn { url: Seq<char>, username: Seq<char>, password: Seq<char> },
}

impl View for TokenStep {
    type V = TokenStepView;

    open spec fn view(&self) -> TokenStepView {
        match self {
            TokenStep::ReadPlayerData => TokenStepView::ReadPlayerData,
            TokenStep::Use { token } => TokenStepView::Use { token: token@ },
            TokenStep::LogIn { url, username, password } => TokenStepView::LogIn {
                url: url@,
                username: username@,
                password: password@,
            },
        }
    }
}

/// A step and the lines to print before it.
#[derive(Debug)]
pub struct TokenPlan {
    pub notes: Vec<Note>,
    pub step: TokenStep,
}

/// Whether the stored token was obtained less than 36 hours before `now`.
pub open spec fn session_fresh(config: ConfigView, now: Timestamp) -> bool {
    &&& config.last_session_token.len() > 0
    &&& config.last_login.len() > 0
    &&& rfc3339_parse(config.last_login) matches Some(then) && within_hours(
        now,
        then,
        SESSION_HOURS as int,
    )
}

/// Whether the stored token is fresh enough at `now` to be used again.
pub fn is_session_fresh(config: &Config, now: Timestamp) -> (fresh: bool)
    requires
        now.valid(),
    ensures
        fresh == session_fresh(config@, now),
{
    if config.last_session_token.as_str().is_empty() || config.last_login.as_str().is_empty() {
        return false;
    }
    match parse_rfc3339(config.last_login.as_str()) {
        Some(then) => is_within_hours(now, then, SESSION_HOURS),
        None => false,
    }
}

/// The step that the stored session leads to at `now`.
pub open spec fn session_step(config: ConfigView, now: Timestamp) -> TokenStepView {
    if session_fresh(config, now) {
        TokenStepView::Use { token: config.last_session_token }
    } else {
        TokenStepView::LogIn {
            url: AUTH_URL@,
            username: config.username,
            password: config.password,
        }
    }
}

/// The line that goes with `session_step`.
pub open spec fn session_line(config: ConfigView, now: Timestamp) -> NoteView {
    if session_fresh(config, now) {
        out("Using existing session token, as it is less than 36 hours old."@)
    } else {
        out("Session token is missing or expired. Authenticating for a new one..."@)
    }
}

/// Uses the stored token if it is fresh at `now`, and else asks for a login.
/// The lines are put behind `notes`.
fn plan_from_session(config: &Config, now: Timestamp, notes: Vec<Note>) -> (plan: TokenPlan)
    requires
        now.valid(),
    ensures
        plan.step@ == session_step(config@, now),
        lines(plan.notes@) == lines(notes@).push(session_line(config@, now)),
{
    let mut notes: Vec<Note> = notes;
    if is_session_fresh(config, now) {
        say(&mut notes, owned("Using existing session token, as it is less than 36 hours old."));
        TokenPlan { notes, step: TokenStep::Use { token: config.last_session_token.clone() } }
    } else {
        say(
            &mut notes,
            owned("Session token is missing or expired. Authenticating for a new one..."),
        );
        TokenPlan {
            notes,
            step: TokenStep::LogIn {
                url: owned(AUTH_URL),
                username: config.username.clone(),
                password: config.password.clone(),
            },
        }
    }
}

/// Whether tokens come from Factorio's own data file.
pub open spec fn uses_player_data(config: ConfigView) -> bool {
    config.token_source == PLAYER_DATA_FILE@
}

/// The first step towards a token, at the time `now`.
pub fn get_valid_token_at(config: &Config, now: Timestamp) -> (plan: TokenPlan)
    requires
        now.valid(),
    ensures
        uses_player_data(config@) ==> plan.step@ == TokenStepView::ReadPlayerData && lines(
            plan.notes@,
        ) == Seq::<NoteView>::empty(),
        !uses_player_data(config@) ==> plan.step@ == session_step(config@, now) && lines(
            plan.notes@,
        ) == seq![session_line(config@, now)],
{
    if same(config.token_source.as_str(), PLAYER_DATA_FILE) {
        TokenPlan { notes: no_notes(), step: TokenStep::ReadPlayerData }
    } else {
        let plan: TokenPlan = plan_from_session(config, now, no_notes());
        assert(lines(plan.notes@) =~= seq![session_line(config@, now)]);
        plan
    }
}

/// The first step towards a token, at the current time.
pub fn get_valid_token(config: &Config) -> (plan: TokenPlan)
    ensures
        uses_player_data(config@) ==> plan.step@ == TokenStepView::ReadPlayerData && lines(
            plan.notes@,
        ) == Seq::<NoteView>::empty(),
        !uses_player_data(config@) ==> exists|now: Timestamp| #[trigger]
            now.valid() && plan.step@ == session_step(config@, now) && lines(plan.notes@) == seq![
                session_line(config@, now),
            ],
{
    let now: Timestamp = utc_now();
    get_valid_token_at(config, now)
}

/// What reading the player's data gave: a token, none, or an error.
pub type PlayerRead = Result<Option<String>, String>;

/// The token that was read, if there is one.
pub open spec fn read_token(read: PlayerRead) -> Option<Seq<char>> {
    match read {
        Ok(Some(token)) => Some(token@),
        _ => None,
    }
}

/// The step after the player's data was read.
pub open spec fn player_step(config: ConfigView, read: PlayerRead, now: Timestamp) -> TokenStepView {
    match read_token(read) {
        Some(token) => TokenStepView::Use { token },
        None => session_step(config, now),
    }
}

/// The lines that go with `player_step`.
pub open spec fn player_lines(
    config: ConfigView,
    read: PlayerRead,
    now: Timestamp,
) -> Seq<NoteView> {
    match read {
        Ok(Some(token)) => seq![
            if token@ == config.last_session_token {
                out("Using existing session token (matches player-data.json)."@)
            } else {
                out("Using session token from player-data.json."@)
            },
        ],
        Ok(None) => seq![
            err("Warning: player-data.json exists but service-token is empty."@),
            err(stale_text()),
            session_line(config, now),
        ],
        Err(e) => seq![
            err("Warning: Could not read player-data.json: "@ + e@),
            err(stale_text()),
            session_line(config, now),
        ],
    }
}

/// The line that asks for user name and password.
pub open spec fn stale_text() -> Seq<char> {
    "Factorio's token isn't fresh, please enter a user name and password for our temporary use"@
}

/// Goes on after the player's data was read, at the time `now`: a token found
/// there is used, and else the stored session decides.
pub fn player_data_read_at(config: &Config, read: PlayerRead, now: Timestamp) -> (plan: TokenPlan)
    requires
        now.valid(),
    ensures
        plan.step@ == player_step(config@, read, now),
        lines(plan.notes@) == player_lines(config@, read, now),
{
    let mut notes: Vec<Note> = no_notes();
    match read {
        Ok(Some(token)) => {
            if same(token.as_str(), config.last_session_token.as_str()) {
                say(&mut notes, owned("Using existing session token (matches player-data.json)."));
            } else {
                say(&mut notes, owned("Using session token from player-data.json."));
            }
            let plan: TokenPlan = TokenPlan { notes, step: TokenStep::Use { token } };
            assert(lines(plan.notes@) =~= player_lines(config@, read, now));
            return plan;
        },
        Ok(None) => {
            warn(
                &mut notes,
                owned("Warning: player-data.json exists but service-token is empty."),
            );
        },
        Err(e) => {
            warn(
                &mut notes,
                owned("Warning: Could not read player-data.json: ").concat(e.as_str()),
            );
        },
    }
    warn(
        &mut notes,
        owned(
            "Factorio's token isn't fresh, please enter a user name and password for our temporary use",
        ),
    );
    let plan: TokenPlan = plan_from_session(config, now, notes);
    assert(lines(plan.notes@) =~= player_lines(config@, read, now));
    plan
}

/// Goes on after the player's data was read, at the current time.
pub fn player_data_read(config: &Config, read: PlayerRead) -> (plan: TokenPlan)
    ensures
        exists|now: Timestamp| #[trigger]
            now.valid() && plan.step@ == player_step(config@, read, now) && lines(plan.notes@)
                == player_lines(config@, read, now),
{
    let now: Timestamp = utc_now();
    player_data_read_at(config, read, now)
}

/// What the login service answered.
#[derive(Debug)]
pub enum LoginReply {
    /// It accepted the login.
    Accepted(AuthResponse),
    /// It refused, with this status and this text.
    Refused { status: String, body: String },
}

/// Whether an HTTP status reports success.
pub open spec fn is_success(code: u16) -> bool {
    200 <= code < 300
}

/// Whether an HTTP status reports success.
pub fn status_is_success(code: u16) -> (r: bool)
    ensures
        r == is_success(code),
{
    200 <= code && code < 300
}

/// The text that reports a refused login.
pub open spec fn refusal(status: Seq<char>, body: Seq<char>) -> Seq<char> {
    "Authentication failed with status: "@ + status + ". Response: "@ + body
}

/// What a login led to, and the lines to print about it.
#[derive(Debug)]
pub struct LoginOutcome {
    pub notes: Vec<Note>,
    /// The token, marked as obtained with user name and password, or an error.
    pub result: Result<(String, bool), String>,
}

/// Reads the answer to a login: the new token, marked as obtained with user
/// name and password, or the text of an error.
pub fn login_outcome(reply: LoginReply) -> (r: LoginOutcome)
    ensures
        match (reply, r.result) {
            (LoginReply::Accepted(answer), Ok(found)) => found.0@ == answer.token@ && found.1
                && lines(r.notes@) == seq![
                out("Authentication successful. New token acquired."@),
            ],
            (LoginReply::Refused { status, body }, Err(e)) => e@ == refusal(status@, body@)
                && lines(r.notes@) == Seq::<NoteView>::empty(),
            _ => false,
        },
{
    match reply {
        LoginReply::Accepted(answer) => LoginOutcome {
            notes: one_line("Authentication successful. New token acquired."),
            result: Ok((answer.token, true)),
        },
        LoginReply::Refused { status, body } => LoginOutcome {
            notes: no_notes(),
            result: Err(
                owned("Authentication failed with status: ").concat(status.as_str()).concat(
                    ". Response: ",
                ).concat(body.as_str()),
            ),
        },
    }
}

/// A token that was stored together with the moment `then` is used again as
/// long as less than 36 hours have passed since, and from then on a login is
/// asked for.
pub proof fn law_stored_session(
    config: ConfigView,
    token: Seq<char>,
    stamp: Seq<char>,
    internal: bool,
    then: Timestamp,
    now: Timestamp,
)
    requires
        token.len() > 0,
        stamp.len() > 0,
        rfc3339_parse(stamp) == Some(then),
    ensures
        ({
            let stored = with_token(config, token, stamp, internal);
            if within_hours(now, then, SESSION_HOURS as int) {
                session_step(stored, now) == (TokenStepView::Use { token })
            } else {
                session_step(stored, now) == (TokenStepView::LogIn {
                    url: AUTH_URL@,
                    username: config.username,
                    password: stored.password,
                })
            }
        }),
{
}

/// Without a stored token, or without a login time that can be read, the
/// session never saves a login.
pub proof fn law_no_session(config: ConfigView, now: Timestamp)
    requires
        config.last_session_token.len() == 0 || config.last_login.len() == 0 || rfc3339_parse(
            config.last_login,
        ) is None,
    ensures
        session_step(config, now) is LogIn,
{
}

/// A token that Factorio itself keeps is used as it is, whatever the stored
/// session.
pub proof fn law_player_token_wins(config: ConfigView, token: String, now: Timestamp)
    ensures
        player_step(config, Ok(Some(token)), now) == (TokenStepView::Use { token: token@ }),
{
}

} // verus!
