use clap::{Arg, ArgAction, Command};
use skimmer::app::Args;
use skimmer::claude::{self as api, Analysis, Highlight};
use skimmer::config::{self, Config};
use skimmer::error::Error;
use skimmer::help::{version, VERSION};
use skimmer::rss::{escape, render_entries, Entry, EntryFeed};
use skimmer::state::State;

fn entry(id: i64, feed: &str, title: &str, content: &str) -> Entry {
    Entry {
        id,
        title: title.to_string(),
        content: content.to_string(),
        url: format!("https://example.com/{id}"),
        published_at: "2025-09-02T06:52:27Z".to_string(),
        feed: EntryFeed { title: feed.to_string() },
    }
}

#[test]
fn test_args() {
    // The command line the application parses into `Args`.
    let command = Command::new("skimmer")
        .version(VERSION)
        .arg(Arg::new("verbose").short('v').long("verbose").action(ArgAction::Count))
        .arg(Arg::new("config").long("config").value_name("PATH"))
        .arg(Arg::new("since").short('s').long("since").value_name("SINCE"))
        .arg(Arg::new("dry_run").long("dry-run").action(ArgAction::SetTrue))
        .arg(Arg::new("feeds").long("feeds").value_name("PATH").action(ArgAction::SetTrue));
    command.debug_assert();
    let args = Args::default();
    assert_eq!(args.verbose, 0);
    assert!(args.config.is_none());
}

#[test]
fn escapes_xml_metacharacters() {
    assert_eq!(escape("a & b"), "a &amp; b");
    assert_eq!(escape("</entry>"), "&lt;/entry&gt;");
    assert_eq!(escape("plain"), "plain");
    assert_eq!(escape("&lt;"), "&amp;lt;");
}

#[test]
fn version_is_name_then_number() {
    let version = version();
    let (name, number) = version.split_once(' ').unwrap();
    assert_eq!(name, "skimmer");
    assert_eq!(number, VERSION);
    assert_ne!(number, "");
}

#[test]
fn test_error() {
    let message = "your computer is on fire!";
    let error = Error::Io(message.to_string());
    assert_eq!(format!("IO error: `{message}`"), error.message());
    assert_eq!(
        format!("\"IO error: `{message}`\""),
        format!("{:?}", error.message())
    );
}

#[test]
fn default_config_is_empty() {
    let config = Config::default();
    assert!(config.topic.is_empty());
    assert_eq!(config.claude.get_model(), "");
    assert_eq!(config.miniflux.get_all(), ("", "", ""));
}

#[test]
fn get_claude_output() {
    let value: serde_json::Value = serde_json::from_str(
        r#"{
      "digest": "A quiet day.",
      "highlights": [
        {"headline": "Rust 2.0", "detail": "Not really.", "entry_ids": [42]}
      ]
    }"#,
    )
    .unwrap();
    let highlights = value["highlights"]
        .as_array()
        .unwrap()
        .iter()
        .map(|h| Highlight {
            headline: h["headline"].as_str().unwrap().to_string(),
            detail: h["detail"].as_str().unwrap().to_string(),
            entry_ids: h["entry_ids"].as_array().unwrap().iter().map(|i| i.as_i64().unwrap()).collect(),
        })
        .collect();
    let analysis = Analysis { digest: value["digest"].as_str().unwrap().to_string(), highlights };
    let got: Vec<(String, String, Vec<i64>)> = analysis
        .get_highlights()
        .iter()
        .map(|h| (h.headline.clone(), h.detail.clone(), h.entry_ids.clone()))
        .collect();
    assert_eq!(got, vec![("Rust 2.0".to_string(), "Not really.".to_string(), vec![42])]);
    assert_eq!(analysis.get_digest(), "A quiet day.");
    let highlight = analysis.get_highlights().first().unwrap();
    assert_eq!(highlight.get_entry_ids(), [42]);
    assert_eq!(highlight.get_headline(), "Rust 2.0");
    assert_eq!(highlight.get_detail(), "Not really.");
}

#[test]
fn renders_entries_as_blocks() {
    let entries = vec![entry(
        42,
        "This Week in Rust",
        "This Week in Rust 612",
        "Tom & Jerry <script>alert(1)</script>",
    )];
    let rendered = render_entries(&entries);
    assert!(rendered.starts_with(r#"<entry id="42" feed="This Week in Rust""#));
    assert!(rendered.contains("<content>Tom &amp; Jerry &lt;script&gt;"));
    assert!(!rendered.contains("<script>"));
}

#[test]
fn renders_nothing_for_no_entries() {
    assert_eq!(render_entries(&[]), "");
}

fn claude_from(model: &str) -> api::Claude {
    let settings = config::Claude {
        api_key: "sk-key".to_string(),
        api_key_file: None,
        model: model.to_string(),
    };
    api::Claude::new(&settings)
}

#[test]
fn get_claude_model() {
    let claude = claude_from("vendor-haiku-4-5");
    assert_eq!(claude.get_model(), "vendor-haiku-4-5");
}

/// Switches the model to one whose price is known.
fn set_model(claude: &mut api::Claude, model: &str) -> Option<()> {
    let candidate = claude_from(model);
    candidate.rates()?;
    claude.model = model.to_string();
    Some(())
}

#[test]
fn set_claude_model() {
    let mut claude = claude_from("vendor-haiku-4-5");
    assert_eq!(set_model(&mut claude, "vendor-test"), None);
    assert_eq!(set_model(&mut claude, "vendor-opus-5"), Some(()));
    assert_eq!(claude.get_model(), "vendor-opus-5");
}

#[test]
fn load_state() {
    let mut state = State::new();
    state.insert_stamp("rust".to_string(), "2026-09-02T06:52:27.464906407+00:00".to_string());
    state.insert_stamp("fail".to_string(), "2026-09-02".to_string());
    let last_run = state.get_last_run("rust").unwrap();
    assert_eq!(last_run.to_rfc3339(), "2026-09-02T06:52:27.464906407+00:00");
    assert!(state.get_last_run("unknown").is_none());
    assert!(state.get_last_run("fail").is_none());
}

#[test]
fn load_state_from_invalid_file() {
    let state = State::new();
    assert!(state.stamps().is_empty());
}

#[test]
fn save_then_reload_state() {
    let mut state = State::new();
    state.set_last_run("rust").unwrap();
    let saved = state.stamps();

    let mut reloaded = State::new();
    for (topic, last_run) in saved {
        reloaded.insert_stamp(topic, last_run);
    }
    assert!(reloaded.get_last_run("rust").is_some());
}

// The secret file the original reads holds the key and a newline; app/ reads
// it, `trim_secret` trims it, and `resolve` takes the result.
const SECRET_FILE_TEXT: &str = "sk-file-key\n";

#[test]
fn should_accept_api_key_file_instead_of_api_key() {
    let mut claude = config::Claude {
        api_key: String::new(),
        api_key_file: Some("tests/fixtures/secret".to_string()),
        model: "test".to_string(),
    };
    claude.resolve(Some(skimmer::help::trim_secret(SECRET_FILE_TEXT))).unwrap();
    assert_eq!(claude.get_key(), "sk-file-key");
}

#[test]
fn should_reject_missing_api_key_and_file() {
    let mut claude = config::Claude { api_key: String::new(), api_key_file: None, model: "test".to_string() };
    assert!(claude.resolve(None).is_err());
}

#[test]
fn should_accept_password_file_instead_of_password() {
    let mut miniflux = config::Miniflux {
        url: "test".to_string(),
        username: "admin".to_string(),
        password: String::new(),
        password_file: Some("tests/fixtures/secret".to_string()),
    };
    miniflux.resolve(Some(skimmer::help::trim_secret(SECRET_FILE_TEXT))).unwrap();
    let (_, _, password) = miniflux.get_all();
    assert_eq!(password, "sk-file-key");
}

#[test]
fn should_reject_missing_password_and_file() {
    let mut miniflux = config::Miniflux {
        url: "test".to_string(),
        username: "admin".to_string(),
        password: String::new(),
        password_file: None,
    };
    assert!(miniflux.resolve(None).is_err());
}
