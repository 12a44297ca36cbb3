//! The player-window command: turn an in-page request carrying a URL into
//! the description of one new native window.
//!
//! A request with a valid URL yields exactly one [`PlayerWindowConfig`] with
//! the fixed label, title, size and resizability; a request whose URL does
//! not parse is rejected with a descriptive error and creates nothing. The
//! window builder outside the library performs the construction from the
//! returned configuration.

use vstd::prelude::*;
use vstd::string::StringExecFns;

verus! {

/// Whether `url::Url::parse` accepts a string. The URL grammar is the url
/// crate's business; all that matters here is that acceptance depends on the
/// characters alone.
pub uninterp spec fn url_parse_accepts(s: Seq<char>) -> bool;

#[verifier::external_type_specification]
#[verifier::external_body]
pub struct ExUrl(url::Url);

/// Relies on `url::Url::parse`: it returns `Ok` exactly when it can parse an
/// absolute URL from the given string, and the outcome depends on the string
/// alone.
#[verifier::external_body]
fn parse_url(s: &str) -> (r: Option<url::Url>)
    ensures
        r is Some <==> url_parse_accepts(s@),
{
    match url::Url::parse(s) {
        Ok(u) => Some(u),
        Err(_) => None,
    }
}

/// Everything the window builder needs for one player window.
pub struct PlayerWindowConfig {
    /// Logical window name, distinct from the title.
    pub label: String,
    pub title: String,
    pub width: u32,
    pub height: u32,
    pub resizable: bool,
    /// The parsed target, displayed as external content.
    pub url: url::Url,
    /// The text the target was parsed from.
    pub url_text: String,
}

/// `c` describes one player window pointed at `url_text`: label "player",
/// title "The Vault - Auto Player", 800 by 600, resizable.
pub open spec fn is_player_config(c: PlayerWindowConfig, url_text: Seq<char>) -> bool {
    &&& c.label@ == "player"@
    &&& c.title@ == "The Vault - Auto Player"@
    &&& c.width == 800
    &&& c.height == 600
    &&& c.resizable
    &&& c.url_text@ == url_text
}

/// Describe the one player window for an already-parsed target.
pub fn player_window_config(url_text: String, parsed: url::Url) -> (c: PlayerWindowConfig)
    ensures
        is_player_config(c, url_text@),
{
    PlayerWindowConfig {
        label: "player".to_owned(),
        title: "The Vault - Auto Player".to_owned(),
        width: 800,
        height: 600,
        resizable: true,
        url: parsed,
        url_text,
    }
}

/// The player-window command. A URL that parses yields the description of
/// exactly one new player window pointed at it; one that does not parse
/// yields a descriptive error and no window.
pub fn open_player_window(url: String) -> (r: Result<PlayerWindowConfig, String>)
    ensures
        r is Ok <==> url_parse_accepts(url@),
        r matches Ok(c) ==> is_player_config(c, url@),
        r matches Err(e) ==> e@ == "invalid player URL: "@ + url@,
{
    match parse_url(url.as_str()) {
        Some(parsed) => Ok(player_window_config(url, parsed)),
        None => {
            let mut msg = "invalid player URL: ".to_owned();
            msg.append(url.as_str());
            Err(msg)
        },
    }
}

} // verus!
