//! Which token is used, what a login is made with and what is kept of it, stated
//! on the configuration, the moments and the texts themselves.

use vstd::prelude::*;
use crate::auth::{
    is_success, player_lines, player_step, player_token, refusal, session_line, session_step,
    uses_player_data, PlayerRead, TokenStepView,
};
use crate::clock::{rfc3339_parse, Timestamp};
use crate::config::{blank, template, with_token};
use crate::download::{download_refusal, downloading_line, signed_address};
use crate::models::{ConfigView, FileToDownloadView, PlayerData};
use crate::notes::{err, out, Stream};

verus! {

/// A login goes to the login service with the user name and the password of the
/// configuration, whatever session is stored and whatever was read of the
/// player's data.
pub proof fn law_login_uses_the_configuration(
    config: ConfigView,
    read: PlayerRead,
    now: Timestamp,
)
    ensures
        session_step(config, now) matches TokenStepView::LogIn { url, username, password } ==> url
            == "https://auth.factorio.com/api-login"@ && username == config.username && password
            == config.password,
        player_step(config, read, now) matches TokenStepView::LogIn { url, username, password }
            ==> url == "https://auth.factorio.com/api-login"@ && username == config.username
            && password == config.password,
        !(session_step(config, now) is ReadPlayerData),
        !(player_step(config, read, now) is ReadPlayerData),
{
}

/// What a login is made with depends on the user name and the password alone:
/// two configurations that agree in these log in alike.
pub proof fn law_logins_agree(
    one: ConfigView,
    other: ConfigView,
    now: Timestamp,
    later: Timestamp,
)
    requires
        one.username == other.username,
        one.password == other.password,
        session_step(one, now) is LogIn,
        session_step(other, later) is LogIn,
    ensures
        session_step(one, now) == session_step(other, later),
{
}

/// A token that is used without a login is the one that the configuration holds,
/// or, where Factorio's own was read, that one.
pub proof fn law_token_that_is_used(config: ConfigView, read: PlayerRead, now: Timestamp)
    ensures
        session_step(config, now) matches TokenStepView::Use { token } ==> token
            == config.last_session_token && token.len() > 0,
        match read {
            Ok(Some(found)) => player_step(config, read, now) == (TokenStepView::Use {
                token: found@,
            }),
            _ => player_step(config, read, now) == session_step(config, now),
        },
{
}

/// The stored token is used exactly if there is one, its login time can be read,
/// and less than 36 hours, which are 129600 seconds, have passed since. (Leap
/// seconds are left out here.)
pub proof fn law_how_long_a_session_lasts(config: ConfigView, now: Timestamp)
    requires
        now.nanos < 1_000_000_000,
        rfc3339_parse(config.last_login) matches Some(then) ==> then.nanos < 1_000_000_000,
    ensures
        session_step(config, now) is Use <==> {
            &&& config.last_session_token.len() > 0
            &&& config.last_login.len() > 0
            &&& rfc3339_parse(config.last_login) is Some
            &&& {
                let then = rfc3339_parse(config.last_login)->0;
                now.secs - then.secs < 129600 || (now.secs - then.secs == 129600 && now.nanos
                    < then.nanos)
            }
        },
{
}

/// Tokens come from Factorio's data file only where the configuration names that
/// file.
pub proof fn law_where_tokens_come_from(config: ConfigView)
    ensures
        uses_player_data(config) <==> config.token_source == "player-data.json"@,
{
}

/// The token of the player's data counts unless it is empty.
pub proof fn law_player_token(data: PlayerData)
    ensures
        data.service_token@.len() > 0 ==> player_token(Some(data)) == Some(data.service_token@),
        data.service_token@.len() == 0 ==> player_token(Some(data)) is None,
        player_token(None) is None,
{
}

/// What is said about the session tells whether a login follows.
pub proof fn law_session_is_announced(config: ConfigView, read: PlayerRead, now: Timestamp)
    ensures
        session_step(config, now) is Use ==> session_line(config, now).text
            == "Using existing session token, as it is less than 36 hours old."@,
        session_step(config, now) is LogIn ==> session_line(config, now).text
            == "Session token is missing or expired. Authenticating for a new one..."@,
        session_line(config, now).stream == Stream::Output,
        match read {
            Ok(Some(found)) => player_lines(config, read, now).len() == 1 && player_lines(
                config,
                read,
                now,
            )[0] == out(
                if found@ == config.last_session_token {
                    "Using existing session token (matches player-data.json)."@
                } else {
                    "Using session token from player-data.json."@
                },
            ),
            Ok(None) => player_lines(config, read, now).len() == 3 && player_lines(
                config,
                read,
                now,
            )[0] == err("Warning: player-data.json exists but service-token is empty."@),
            Err(e) => player_lines(config, read, now).len() == 3 && player_lines(
                config,
                read,
                now,
            )[0] == err("Warning: Could not read player-data.json: "@ + e@),
        },
        !(read matches Ok(Some(_))) ==> player_lines(config, read, now)[2] == session_line(
            config,
            now,
        ) && player_lines(config, read, now)[1] == err(
            "Factorio's token isn't fresh, please enter a user name and password for our temporary use"@,
        ),
{
}

/// A stored token goes with its time; the password is discarded after a login
/// with user name and password and kept otherwise; nothing else changes.
pub proof fn law_stored_token(
    config: ConfigView,
    token: Seq<char>,
    stamp: Seq<char>,
    internal: bool,
)
    ensures
        ({
            let stored = with_token(config, token, stamp, internal);
            &&& stored.last_session_token == token
            &&& stored.last_login == stamp
            &&& internal ==> stored.password.len() == 0
            &&& !internal ==> stored.password == config.password
            &&& stored.username == config.username
            &&& stored.use_tui == config.use_tui
            &&& stored.token_source == config.token_source
        }),
{
}

/// The template asks for a user name and a password and has no session; a blank
/// configuration has nothing at all.
pub proof fn law_new_configurations()
    ensures
        template().username == "your-username-here"@,
        template().password == "your-password-here"@,
        template().last_login.len() == 0,
        template().last_session_token.len() == 0,
        template().token_source.len() == 0,
        !template().use_tui,
        blank().username.len() == 0,
        blank().password.len() == 0,
        blank().last_login.len() == 0,
        blank().last_session_token.len() == 0,
        blank().token_source.len() == 0,
        !blank().use_tui,
{
}

/// A download goes to the file's own address with the user's name and token
/// behind it, in this order.
pub proof fn law_signed_address(url: Seq<char>, username: Seq<char>, token: Seq<char>)
    ensures
        signed_address(url, username, token) == url + "?username="@ + username + "&token="@ + token,
        downloading_line(url) == out("Downloading from "@ + url + "..."@),
{
}

/// A refused login and a refused download are reported with the status and the
/// answer, the download with the name of its file.
pub proof fn law_refusals(file: FileToDownloadView, status: Seq<char>, body: Seq<char>)
    ensures
        refusal(status, body) == "Authentication failed with status: "@ + status + ". Response: "@
            + body,
        download_refusal(file, status, body) == "Failed to download "@ + file.full_new_name
            + ": Status "@ + status + "\nResponse: "@ + body,
{
}

/// A status reports success if it is one of the two hundreds.
pub proof fn law_success(code: u16)
    ensures
        is_success(code) <==> code / 100 == 2,
{
}

} // verus!
