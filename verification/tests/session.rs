use rusty_gears::auth::{
    get_valid_token, get_valid_token_at, is_session_fresh, load_player_data_token, login_outcome,
    player_data_read, player_data_read_at, status_is_success, LoginReply, TokenStep,
};
use rusty_gears::automated::take_token;
use rusty_gears::clock::{is_within_hours, Timestamp};
use rusty_gears::config::{blank_config, store_token, template_config};
use rusty_gears::models::{AuthResponse, Config, PlayerData};
use rusty_gears::notes::Stream;

const NOON: Timestamp = Timestamp { secs: 1_700_000_000, nanos: 0 };

fn later(secs: i64) -> Timestamp {
    Timestamp { secs: NOON.secs + secs, nanos: 0 }
}

fn config(token: &str, login: &str) -> Config {
    Config {
        username: "me".to_string(),
        password: "secret".to_string(),
        last_login: login.to_string(),
        last_session_token: token.to_string(),
        use_tui: false,
        token_source: String::new(),
    }
}

#[test]
fn a_token_is_fresh_for_36_hours() {
    let c = config("tok", "2023-11-14T22:13:20+00:00");
    assert!(is_session_fresh(&c, NOON));
    assert!(is_session_fresh(&c, later(36 * 3600 - 1)));
    assert!(!is_session_fresh(&c, later(36 * 3600)));
    assert!(is_session_fresh(&c, later(-5)));
    let offset = config("tok", "2023-11-15T00:13:20+02:00");
    assert!(is_session_fresh(&offset, later(36 * 3600 - 1)));
    assert!(!is_session_fresh(&offset, later(36 * 3600)));
}

#[test]
fn a_token_without_a_readable_time_is_not_fresh() {
    assert!(!is_session_fresh(&config("", "2023-11-14T22:13:20Z"), NOON));
    assert!(!is_session_fresh(&config("tok", ""), NOON));
    assert!(!is_session_fresh(&config("tok", "yesterday"), NOON));
}

#[test]
fn hours_are_counted_to_the_nanosecond() {
    let then = Timestamp { secs: 100, nanos: 500 };
    assert!(is_within_hours(Timestamp { secs: 3700, nanos: 499 }, then, 1));
    assert!(!is_within_hours(Timestamp { secs: 3700, nanos: 500 }, then, 1));
    assert!(is_within_hours(Timestamp { secs: 3700, nanos: 0 }, then, 1));
    assert!(!is_within_hours(Timestamp { secs: 3701, nanos: 0 }, then, 1));
    assert!(is_within_hours(Timestamp { secs: -4000, nanos: 0 }, then, 0));
}

#[test]
fn a_leap_second_counts_between_two_times_of_day() {
    let leap = Timestamp { secs: 59, nanos: 1_500_000_000 };
    let minute = Timestamp { secs: 3659, nanos: 500_000_000 };
    assert!(!is_within_hours(minute, leap, 1));
    let before = Timestamp { secs: 3658, nanos: 499_999_999 };
    assert!(is_within_hours(before, leap, 1));
}

#[test]
fn the_stored_token_is_used_or_a_login_is_asked_for() {
    let fresh = get_valid_token_at(&config("tok", "2023-11-14T22:13:20Z"), later(60));
    assert!(matches!(fresh.step, TokenStep::Use { ref token } if token == "tok"));
    assert_eq!(fresh.notes.len(), 1);
    assert_eq!(
        fresh.notes[0].text,
        "Using existing session token, as it is less than 36 hours old."
    );
    let stale = get_valid_token_at(&config("tok", "2023-11-14T22:13:20Z"), later(200_000));
    match stale.step {
        TokenStep::LogIn { url, username, password } => {
            assert_eq!(url, "https://auth.factorio.com/api-login");
            assert_eq!(username, "me");
            assert_eq!(password, "secret");
        }
        _ => panic!("a login was due"),
    }
    assert_eq!(
        stale.notes[0].text,
        "Session token is missing or expired. Authenticating for a new one..."
    );
}

#[test]
fn the_current_time_is_past_an_old_login() {
    let plan = get_valid_token(&config("tok", "2023-11-14T22:13:20Z"));
    assert!(matches!(plan.step, TokenStep::LogIn { .. }));
    let ahead = get_valid_token(&config("tok", "9000-01-01T00:00:00Z"));
    assert!(matches!(ahead.step, TokenStep::Use { .. }));
}

#[test]
fn player_data_comes_first_if_it_is_the_source() {
    let mut c = config("tok", "2023-11-14T22:13:20Z");
    c.token_source = "player-data.json".to_string();
    let plan = get_valid_token_at(&c, NOON);
    assert!(matches!(plan.step, TokenStep::ReadPlayerData));
    assert!(plan.notes.is_empty());

    let other = player_data_read_at(&c, Ok(Some("new".to_string())), NOON);
    assert!(matches!(other.step, TokenStep::Use { ref token } if token == "new"));
    assert_eq!(other.notes[0].text, "Using session token from player-data.json.");

    let same = player_data_read_at(&c, Ok(Some("tok".to_string())), later(1_000_000));
    assert!(matches!(same.step, TokenStep::Use { ref token } if token == "tok"));
    assert_eq!(
        same.notes[0].text,
        "Using existing session token (matches player-data.json)."
    );
}

#[test]
fn without_player_data_the_session_decides() {
    let mut c = config("tok", "2023-11-14T22:13:20Z");
    c.token_source = "player-data.json".to_string();
    let none = player_data_read_at(&c, Ok(None), NOON);
    assert!(matches!(none.step, TokenStep::Use { .. }));
    assert_eq!(none.notes.len(), 3);
    assert_eq!(none.notes[0].stream, Stream::Error);
    assert_eq!(
        none.notes[0].text,
        "Warning: player-data.json exists but service-token is empty."
    );
    assert_eq!(
        none.notes[1].text,
        "Factorio's token isn't fresh, please enter a user name and password for our temporary use"
    );
    let failed = player_data_read(&c, Err("gone".to_string()));
    assert!(matches!(failed.step, TokenStep::LogIn { .. }));
    assert_eq!(failed.notes[0].text, "Warning: Could not read player-data.json: gone");
}

#[test]
fn an_empty_service_token_is_none() {
    assert_eq!(load_player_data_token(None), None);
    assert_eq!(load_player_data_token(Some(PlayerData { service_token: String::new() })), None);
    assert_eq!(
        load_player_data_token(Some(PlayerData { service_token: "t".to_string() })),
        Some("t".to_string())
    );
}

#[test]
fn login_answers() {
    let ok = login_outcome(LoginReply::Accepted(AuthResponse { token: "t".to_string() }));
    assert_eq!(ok.result, Ok(("t".to_string(), true)));
    assert_eq!(ok.notes[0].text, "Authentication successful. New token acquired.");
    let refused = login_outcome(LoginReply::Refused {
        status: "401 Unauthorized".to_string(),
        body: "bad".to_string(),
    });
    assert_eq!(
        refused.result,
        Err("Authentication failed with status: 401 Unauthorized. Response: bad".to_string())
    );
    assert!(refused.notes.is_empty());
}

#[test]
fn status_codes() {
    assert!(!status_is_success(199));
    assert!(status_is_success(200));
    assert!(status_is_success(299));
    assert!(!status_is_success(300));
    assert!(!status_is_success(404));
}

#[test]
fn a_new_token_is_stored_with_the_time() {
    let mut c = config("old", "2020-01-01T00:00:00Z");
    assert!(take_token(&mut c, "new", false, NOON));
    assert_eq!(c.last_session_token, "new");
    assert_eq!(c.last_login, "2023-11-14T22:13:20+00:00");
    assert_eq!(c.password, "secret");
    assert!(is_session_fresh(&c, later(36 * 3600 - 1)));
    assert!(!is_session_fresh(&c, later(36 * 3600)));
}

#[test]
fn the_same_token_changes_nothing() {
    let mut c = config("old", "2020-01-01T00:00:00Z");
    assert!(!take_token(&mut c, "old", false, NOON));
    assert_eq!(c.last_login, "2020-01-01T00:00:00Z");
    assert_eq!(c.password, "secret");
}

#[test]
fn a_login_discards_the_password() {
    let mut c = config("old", "2020-01-01T00:00:00Z");
    assert!(take_token(&mut c, "new", true, NOON));
    assert_eq!(c.password, "");
    let mut same = config("old", "2020-01-01T00:00:00Z");
    assert!(take_token(&mut same, "old", true, NOON));
    assert_eq!(same.password, "");
    assert_eq!(same.last_login, "2020-01-01T00:00:00Z");
    let mut stored = config("old", "x");
    store_token(&mut stored, "t".to_string(), "now".to_string(), true);
    assert_eq!(stored.password, "");
    assert_eq!(stored.last_session_token, "t");
    assert_eq!(stored.last_login, "now");
}

#[test]
fn templates() {
    let t = template_config();
    assert_eq!(t.username, "your-username-here");
    assert_eq!(t.password, "your-password-here");
    assert!(!t.use_tui);
    assert_eq!(t.last_login, "");
    let b = blank_config();
    assert_eq!(b.username, "");
    assert_eq!(b.password, "");
}
