use vault_shell::player::open_player_window;
use vault_shell::player::player_window_config;
use vault_shell::shell::greet;
use vault_shell::shell::startup_plan;
use vault_shell::shell::StartupStep;
use vault_shell::shell::STARTUP_DELAY_MS;
use vault_shell::text::contains_substr;

#[test]
fn valid_url_yields_one_player_window() {
    let r = open_player_window("https://example.com/player.html".to_string());
    let c = r.expect("a syntactically valid URL must be accepted");
    assert_eq!(c.label, "player");
    assert_eq!(c.title, "The Vault - Auto Player");
    assert_eq!(c.width, 800);
    assert_eq!(c.height, 600);
    assert!(c.resizable);
    assert_eq!(c.url_text, "https://example.com/player.html");
    assert_eq!(c.url.as_str(), "https://example.com/player.html");
}

#[test]
fn invalid_url_is_an_error_not_a_crash() {
    let r = open_player_window("not a url".to_string());
    assert_eq!(r.err(), Some("invalid player URL: not a url".to_string()));
}

#[test]
fn relative_url_is_rejected() {
    let r = open_player_window("/player.html".to_string());
    assert_eq!(r.err(), Some("invalid player URL: /player.html".to_string()));
}

#[test]
fn config_from_parsed_url_is_the_fixed_window() {
    let parsed = url::Url::parse("http://localhost:8888/player.html").unwrap();
    let c = player_window_config("http://localhost:8888/player.html".to_string(), parsed);
    assert_eq!(c.label, "player");
    assert_eq!(c.title, "The Vault - Auto Player");
    assert_eq!((c.width, c.height), (800, 600));
    assert!(c.resizable);
}

#[test]
fn greet_formats_the_name() {
    assert_eq!(greet("World"), "Hello, World! You've been greeted from Rust!");
    assert_eq!(greet(""), "Hello, ! You've been greeted from Rust!");
}

#[test]
fn startup_launches_supervisor_then_waits_then_runs_app() {
    let plan = startup_plan();
    assert_eq!(
        plan,
        vec![
            StartupStep::LaunchSupervisor,
            StartupStep::Wait { ms: STARTUP_DELAY_MS },
            StartupStep::RunApp,
        ]
    );
    assert_eq!(STARTUP_DELAY_MS, 2000);
}

#[test]
fn substring_search_finds_the_needle_wherever_it_stands() {
    assert!(contains_substr("player.html", "player.html"));
    assert!(contains_substr("xplayer.html", "player.html"));
    assert!(contains_substr("player.htmlx", "player.html"));
    assert!(contains_substr("a/player.html?b", "player.html"));
    assert!(!contains_substr("player.htm", "player.html"));
    assert!(!contains_substr("", "player.html"));
    assert!(!contains_substr("PLAYER.HTML", "player.html"));
    assert!(contains_substr("anything", ""));
    assert!(contains_substr("", ""));
    assert!(contains_substr("h\u{e9}llo w\u{f6}rld", "w\u{f6}r"));
    assert!(!contains_substr("h\u{e9}llo", "h\u{e8}"));
}
