//! The configuration: its template, and what a fresh session token changes.

use vstd::prelude::*;
use crate::models::{Config, ConfigView};
use crate::text::owned;

verus! {

/// The name of the configuration file.
pub const CONFIG_FILE: &'static str = "config.json";

/// The user name of the template.
pub const TEMPLATE_USERNAME: &'static str = "your-username-here";

/// The password of the template.
pub const TEMPLATE_PASSWORD: &'static str = "your-password-here";

/// The template that a missing configuration is replaced by.
pub open spec fn template() -> ConfigView {
    ConfigView {
        username: TEMPLATE_USERNAME@,
        password: TEMPLATE_PASSWORD@,
        last_login: Seq::empty(),
        last_session_token: Seq::empty(),
        use_tui: false,
        token_source: Seq::empty(),
    }
}

/// A configuration with nothing filled in.
pub open spec fn blank() -> ConfigView {
    ConfigView {
        username: Seq::empty(),
        password: Seq::empty(),
        last_login: Seq::empty(),
        last_session_token: Seq::empty(),
        use_tui: false,
        token_source: Seq::empty(),
    }
}

/// Makes the template.
pub fn template_config() -> (config: Config)
    ensures
        config@ == template(),
{
    Config {
        username: owned(TEMPLATE_USERNAME),
        password: owned(TEMPLATE_PASSWORD),
        last_login: String::new(),
        last_session_token: String::new(),
        use_tui: false,
        token_source: String::new(),
    }
}

/// Makes a configuration with nothing filled in.
pub fn blank_config() -> (config: Config)
    ensures
        config@ == blank(),
{
    Config {
        username: String::new(),
        password: String::new(),
        last_login: String::new(),
        last_session_token: String::new(),
        use_tui: false,
        token_source: String::new(),
    }
}

/// What becomes of a configuration once `token` was obtained at the time that
/// `stamp` writes: the two are stored, and after a login with user name and
/// password the password is discarded.
pub open spec fn with_token(
    config: ConfigView,
    token: Seq<char>,
    stamp: Seq<char>,
    internal: bool,
) -> ConfigView {
    ConfigView {
        last_session_token: token,
        last_login: stamp,
        password: if internal {
            Seq::empty()
        } else {
            config.password
        },
        ..config
    }
}

/// Stores a session token.
pub fn store_token(config: &mut Config, token: String, stamp: String, internal: bool)
    ensures
        final(config)@ == with_token(old(config)@, token@, stamp@, internal),
{
    config.last_session_token = token;
    config.last_login = stamp;
    if internal {
        config.password = String::new();
    }
}

} // verus!
