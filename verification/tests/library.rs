use skimmer::app::{entry_ids, generate_prompt, App, Args, Call};
use skimmer::claude::{check_status, Analysis, Block, Claude, Highlight, Resp, Usage, BRIEFING_SCHEMA, SYSTEM};
use skimmer::config::{self, Config, Miniflux, NamedTopic, Topic as TopicConfig};
use skimmer::error::Error;
use skimmer::help::trim_secret;
use skimmer::report::{Briefing, Report, Source};
use skimmer::run::{Action, Event, Phase, Run};
use skimmer::rss::{check_response, entries_path, entries_query, read_update, Entry, EntryFeed, Feed};
use skimmer::state::State;
use skimmer::text::{
    contains, i64_text, join, replace_all, split_text, trim, u64_text, usize_text,
};
use skimmer::time::Timestamp;
use skimmer::topic::{select_feeds, window_start, Topic};

const SEP_2025: i64 = 1_756_795_947;

fn at(secs: i64) -> Timestamp {
    Timestamp::from_unix(secs, 0).unwrap()
}

fn entry(id: i64, feed: &str, title: &str, content: &str) -> Entry {
    Entry {
        id,
        title: title.to_string(),
        content: content.to_string(),
        url: format!("https://example.com/{id}"),
        published_at: "2025-09-02T06:52:27Z".to_string(),
        feed: EntryFeed { title: feed.to_string() },
    }
}

fn feed(id: i64, title: &str) -> Feed {
    Feed { id, title: title.to_string() }
}

fn topic_cfg(question: &str, feeds: &[&str], interval: &str) -> TopicConfig {
    TopicConfig {
        question: question.to_string(),
        feeds: feeds.iter().map(|f| f.to_string()).collect(),
        interval: interval.to_string(),
        context: String::new(),
    }
}

fn model(model: &str) -> Claude {
    Claude { key: "sk".to_string(), model: model.to_string() }
}

// ---------------------------------------------------------------- time

#[test]
fn timestamp_writes_rfc3339_rfc2822_and_stamps() {
    let t = at(SEP_2025);
    assert_eq!(t.to_rfc3339(), "2025-09-02T06:52:27+00:00");
    assert_eq!(t.to_rfc2822(), "Tue, 2 Sep 2025 06:52:27 +0000");
    assert_eq!(t.file_stamp(), "2025-09-02_06-52-27");
    assert_eq!(t.long_date(), "2 September 2025");
    assert_eq!(t.unix_seconds(), SEP_2025);
}

#[test]
fn timestamp_reads_rfc3339() {
    let t = Timestamp::parse("2026-09-02T06:52:27.464906407+00:00").unwrap();
    assert_eq!(t.unix_seconds(), 1_788_331_947);
    assert_eq!(t.subsec_nanos(), 464_906_407);
    assert_eq!(t.to_rfc3339(), "2026-09-02T06:52:27.464906407+00:00");
    let shifted = Timestamp::parse("2025-09-02T08:52:27+02:00").unwrap();
    assert_eq!(shifted.unix_seconds(), SEP_2025);
    assert!(Timestamp::parse("2026-09-02").is_none());
    assert!(Timestamp::parse("yesterday").is_none());
}

#[test]
fn timestamp_accepts_four_digit_years_only() {
    assert!(Timestamp::from_unix(-62_167_219_200, 0).is_some());
    assert!(Timestamp::from_unix(-62_167_219_201, 0).is_none());
    assert!(Timestamp::from_unix(253_402_300_799, 999_999_999).is_some());
    assert!(Timestamp::from_unix(253_402_300_800, 0).is_none());
    assert!(Timestamp::from_unix(0, 1_000_000_000).is_none());
}

#[test]
fn timestamp_minus_goes_back_exactly() {
    let t = Timestamp::from_unix(SEP_2025, 250).unwrap();
    let week = t.minus(7 * 24 * 60 * 60, 0).unwrap();
    assert_eq!(week.unix_seconds(), SEP_2025 - 604_800);
    assert_eq!(week.subsec_nanos(), 250);
    let borrow = t.minus(1, 500).unwrap();
    assert_eq!(borrow.unix_seconds(), SEP_2025 - 2);
    assert_eq!(borrow.subsec_nanos(), 999_999_750);
    assert!(t.minus(u64::MAX, 0).is_none());
    let zero = at(-62_167_219_200);
    assert!(zero.minus(0, 1).is_none());
    assert!(zero.minus(0, 0).is_some());
}

#[test]
fn timestamp_now_is_after_2025() {
    let now = Timestamp::now().unwrap();
    assert!(now.unix_seconds() > SEP_2025);
}

// ---------------------------------------------------------------- text

#[test]
fn escapes_html_metacharacters() {
    assert_eq!(skimmer::report::escape(r#"<a href="x">Tom & 'Jerry'</a>"#), "&lt;a href=&quot;x&quot;&gt;Tom &amp; &#39;Jerry&#39;&lt;/a&gt;");
    assert_eq!(skimmer::report::escape("plain"), "plain");
}

#[test]
fn escaped_content_has_no_angle_brackets() {
    let escaped = skimmer::rss::escape("<entry id=\"1\"></entry><<>>");
    assert!(!escaped.contains('<'));
    assert!(!escaped.contains('>'));
    assert_eq!(skimmer::rss::escape("no metacharacters"), "no metacharacters");
}

#[test]
fn numbers_render_in_decimal() {
    assert_eq!(u64_text(0), "0");
    assert_eq!(u64_text(1_756_795_947), "1756795947");
    assert_eq!(usize_text(200), "200");
    assert_eq!(i64_text(-42), "-42");
    assert_eq!(i64_text(i64::MIN), "-9223372036854775808");
    assert_eq!(i64_text(i64::MAX), "9223372036854775807");
}

#[test]
fn substring_search_matches_str_contains() {
    assert!(contains("This Week in Rust", "Rust"));
    assert!(contains("This Week in Rust", ""));
    assert!(!contains("This Week in Rust", "rust"));
    assert!(!contains("Rust", "This Week in Rust"));
}

#[test]
fn split_matches_str_split() {
    assert_eq!(split_text("a\n\nb\n\n\nc", "\n\n"), vec!["a", "b", "\nc"]);
    assert_eq!(split_text("", "\n\n"), vec![""]);
    assert_eq!(split_text("\n\n", "\n\n"), vec!["", ""]);
}

#[test]
fn replace_matches_str_replace() {
    assert_eq!(replace_all("{{a}}-{{a}}", "{{a}}", "x"), "x-x");
    assert_eq!(replace_all("aaa", "aa", "b"), "ba");
    assert_eq!(replace_all("none", "{{a}}", "x"), "none");
}

#[test]
fn trim_matches_str_trim() {
    assert_eq!(trim("  \t a b \n\u{3000}"), "a b");
    assert_eq!(trim("   "), "");
    assert_eq!(trim_secret("  sk-file-key\r\n"), "  sk-file-key");
    assert_eq!(trim_secret("sk-file-key\n"), "sk-file-key");
    assert_eq!(trim_secret("key \n\n"), "key \n");
    assert_eq!(trim_secret("key"), "key");
}

#[test]
fn join_matches_slice_join() {
    let items = vec!["a".to_string(), "b".to_string(), "c".to_string()];
    assert_eq!(join(&items, " "), "a b c");
    assert_eq!(join(&Vec::new(), " "), "");
}

// ---------------------------------------------------------------- errors

#[test]
fn every_error_has_its_message() {
    let cases = vec![
        (Error::Io("x".to_string()), "IO error: `x`"),
        (Error::Config("x".to_string()), "Config file error: `x`"),
        (Error::UrlParsing("x".to_string()), "Url parsing error: `x`"),
        (Error::Reqwest("x".to_string()), "Reqwest error: `x`"),
        (Error::Serialize("x".to_string()), "Serialize error: `x`"),
        (Error::AnthropicApi("x".to_string()), "Anthropic API error: `x`"),
        (Error::MinifluxApi("x".to_string()), "Miniflux API error: `x`"),
        (Error::StatePath, "State path not found"),
        (Error::TomlDeParsing("x".to_string()), "Toml de parsing error: `x`"),
        (Error::TomlSerParsing("x".to_string()), "Toml ser parsing error: `x`"),
        (Error::IntervalParsing("x".to_string()), "Interval parsing error: `x`"),
        (Error::TomlDateParsing("x".to_string()), "Toml date parsing error: `x`"),
        (Error::OutputNotExist, "Output directory does not exist"),
        (Error::TimeOutOfRange, "Time out of range"),
    ];
    for (error, message) in cases {
        assert_eq!(error.message(), message);
    }
}

// ---------------------------------------------------------------- config

#[test]
fn intervals_parse_with_duration_str() {
    assert_eq!(topic_cfg("q", &[], "7d").get_interval().unwrap(), (604_800, 0));
    assert_eq!(topic_cfg("q", &[], "23h").get_interval().unwrap(), (82_800, 0));
    assert!(matches!(topic_cfg("q", &[], "").get_interval(), Err(Error::IntervalParsing(_))));
    assert!(matches!(topic_cfg("q", &[], "soon").get_interval(), Err(Error::IntervalParsing(_))));
}

#[test]
fn key_file_wins_and_a_key_is_required() {
    let mut settings = config::Claude { api_key: "inline".to_string(), api_key_file: Some("/run/secret".to_string()), model: "m".to_string() };
    settings.resolve(Some(trim_secret("sk-file-key\n"))).unwrap();
    assert_eq!(settings.get_key(), "sk-file-key");
    assert!(settings.api_key_file.is_none());

    let mut missing = config::Claude { api_key: String::new(), api_key_file: None, model: "m".to_string() };
    match missing.resolve(None) {
        Err(Error::Config(m)) => assert_eq!(m, "api key: set either `api_key` or `api_key_file`"),
        other => panic!("unexpected {other:?}"),
    }

    let mut inline = config::Claude { api_key: "inline".to_string(), api_key_file: None, model: "m".to_string() };
    inline.resolve(None).unwrap();
    assert_eq!(inline.get_key(), "inline");
}

#[test]
fn password_file_wins_and_a_password_is_required() {
    let mut settings = Miniflux { url: "https://rss".to_string(), username: "admin".to_string(), password: String::new(), password_file: Some("/run/p".to_string()) };
    settings.resolve(Some("sk-file-key".to_string())).unwrap();
    assert_eq!(settings.get_all(), ("https://rss", "admin", "sk-file-key"));

    let mut missing = Miniflux { url: "test".to_string(), username: "admin".to_string(), password: String::new(), password_file: None };
    match missing.resolve(None) {
        Err(Error::Config(m)) => assert_eq!(m, "miniflux: set either `password` or `password_file`"),
        other => panic!("unexpected {other:?}"),
    }
}

// ---------------------------------------------------------------- rss

#[test]
fn miniflux_answers_are_judged_by_status() {
    assert_eq!(check_response(200, 200, "200 OK".to_string(), None, "[]".to_string()).unwrap(), "[]");
    match check_response(401, 200, "401 Unauthorized".to_string(), None, String::new()) {
        Err(Error::MinifluxApi(m)) => assert_eq!(m, "401 Unauthorized"),
        other => panic!("unexpected {other:?}"),
    }
    match check_response(400, 204, "400 Bad Request".to_string(), Some("bad ids".to_string()), "{}".to_string()) {
        Err(Error::MinifluxApi(m)) => assert_eq!(m, "bad ids"),
        other => panic!("unexpected {other:?}"),
    }
}

#[test]
fn entries_are_asked_for_the_window() {
    assert_eq!(entries_path(7), "v1/feeds/7/entries");
    assert_eq!(
        entries_query(1_756_795_947),
        vec![("limit".to_string(), "200".to_string()), ("after".to_string(), "1756795947".to_string())]
    );
}

#[test]
fn reading_nothing_needs_no_update() {
    assert!(read_update(&[]).is_none());
    let update = read_update(&[42, 7]).unwrap();
    assert_eq!(update.entry_ids, vec![42, 7]);
    assert_eq!(update.status, "read");
}

#[test]
fn entries_render_one_block_per_line() {
    let entries = vec![entry(1, "F&G", "T<1>", "a<b"), entry(2, "G", "T2", "c")];
    let rendered = skimmer::rss::render_entries(&entries);
    assert_eq!(
        rendered,
        "<entry id=\"1\" feed=\"F&amp;G\" published=\"2025-09-02T06:52:27Z\">\n<title>T&lt;1&gt;</title>\n<content>a&lt;b</content>\n</entry>\n\
         <entry id=\"2\" feed=\"G\" published=\"2025-09-02T06:52:27Z\">\n<title>T2</title>\n<content>c</content>\n</entry>"
    );
}

// ---------------------------------------------------------------- api

#[test]
fn rates_and_costs_in_micro_dollars() {
    assert_eq!(model("vendor-haiku-4-5").rates(), Some((1, 5)));
    assert_eq!(model("vendor-sonnet-5").rates(), Some((2, 10)));
    assert_eq!(model("vendor-opus-5").rates(), Some((5, 25)));
    assert_eq!(model("vendor-not-exist").rates(), None);
    assert_eq!(model("opus-5").rates(), None);
    assert_eq!(model("vendor-opus-5-20260101").rates(), None);
    assert_eq!(model("vendor-opus-5").calculate_cost(1600), Some((8_000, 408_000)));
    assert_eq!(model("vendor-haiku-4-5").calculate_cost(1600), Some((1_600, 81_600)));
    assert_eq!(model("vendor-not-exist").calculate_cost(1600), None);
    let usage = Usage { input_tokens: 1_000_000, output_tokens: 2 };
    assert_eq!(model("vendor-sonnet-5").usage_cost(&usage), Some((2_000_000, 20)));
}

#[test]
fn usage_adds_up() {
    let mut total = Usage::new();
    total.add(&Usage { input_tokens: 10, output_tokens: 3 });
    total.add(&Usage { input_tokens: 5, output_tokens: 4 });
    assert_eq!((total.input_tokens, total.output_tokens), (15, 7));
}

#[test]
fn requests_carry_system_schema_and_ceiling() {
    let claude = model("vendor-opus-5");
    let req = claude.gen_req("hello");
    assert_eq!(req.model, "vendor-opus-5");
    assert_eq!(req.max_tokens, Some(16000));
    assert_eq!(req.messages.len(), 1);
    assert_eq!(req.messages[0].role, "user");
    assert_eq!(req.messages[0].content, "hello");
    assert_eq!(req.system.as_deref(), Some(SYSTEM));
    assert!(req.tools.is_empty());
    let format = &req.output_config.as_ref().unwrap().format;
    assert_eq!(format.kind, "json_schema");
    let schema: serde_json::Value = serde_json::from_str(&format.schema).unwrap();
    let required: Vec<&str> = schema["required"].as_array().unwrap().iter().map(|v| v.as_str().unwrap()).collect();
    assert_eq!(required, ["digest", "highlights"]);
    assert_eq!(schema["additionalProperties"].as_bool(), Some(false));
    assert_eq!(format.schema, BRIEFING_SCHEMA);

    let count = claude.gen_token_req("hello");
    assert_eq!(count.model, "vendor-opus-5");
    assert_eq!(count.max_tokens, None);
    assert!(count.system.is_none());
    assert!(count.output_config.is_none());
    assert_eq!(count.messages[0].content, "hello");
}

fn resp(content: Vec<Block>) -> Resp {
    Resp {
        model: "m".to_string(),
        id: "msg_1".to_string(),
        kind: "message".to_string(),
        role: "assistant".to_string(),
        content,
        stop_reason: "end_turn".to_string(),
        stop_sequence: None,
        stop_details: None,
        usage: Usage { input_tokens: 1, output_tokens: 2 },
    }
}

#[test]
fn responses_yield_their_first_text_block() {
    let r = resp(vec![Block::Other, Block::Text { text: "{\"digest\":\"d\"}".to_string() }, Block::Text { text: "second".to_string() }]);
    assert_eq!(r.get_content(), vec!["{\"digest\":\"d\"}", "second"]);
    assert_eq!(r.first_text("body").unwrap(), "{\"digest\":\"d\"}");
    match resp(vec![Block::Other]).first_text("raw body") {
        Err(Error::AnthropicApi(m)) => assert_eq!(m, "no text block in response: raw body"),
        other => panic!("unexpected {other:?}"),
    }
    let mut refused = resp(vec![Block::Text { text: "I can't help with that.".to_string() }]);
    refused.stop_reason = "refusal".to_string();
    match refused.first_text("raw body") {
        Err(Error::AnthropicApi(m)) => assert_eq!(m, "request refused: raw body"),
        other => panic!("unexpected {other:?}"),
    }
}

#[test]
fn failed_calls_carry_status_and_body() {
    assert!(check_status(true, "200 OK", "{}").is_ok());
    match check_status(false, "429 Too Many Requests", "slow down") {
        Err(Error::AnthropicApi(m)) => assert_eq!(m, "429 Too Many Requests: slow down"),
        other => panic!("unexpected {other:?}"),
    }
}

// ---------------------------------------------------------------- state

#[test]
fn stamps_read_back_and_replace() {
    let mut state = State::new();
    state.insert_stamp("rust".to_string(), "2025-09-02T06:52:27Z".to_string());
    state.insert_stamp("nix".to_string(), "2025-09-01T00:00:00Z".to_string());
    state.insert_stamp("rust".to_string(), "2025-09-03T00:00:00Z".to_string());
    assert_eq!(state.stamp("rust").as_deref(), Some("2025-09-03T00:00:00Z"));
    assert_eq!(state.stamp("nix").as_deref(), Some("2025-09-01T00:00:00Z"));
    assert_eq!(state.stamps().len(), 2);
    assert_eq!(state.get_last_run("nix").unwrap().unix_seconds(), 1_756_684_800);
}

#[test]
fn set_last_run_stamps_now_as_toml_datetime() {
    let mut state = State::new();
    state.insert_stamp("other".to_string(), "2025-09-01T00:00:00Z".to_string());
    state.set_last_run("rust").unwrap();
    let stamp = state.stamp("rust").unwrap();
    let last_run = state.get_last_run("rust").unwrap();
    assert!(last_run.unix_seconds() > SEP_2025);
    assert!(stamp.ends_with("+00:00"));
    assert_eq!(state.stamp("other").as_deref(), Some("2025-09-01T00:00:00Z"));
}

#[test]
fn stamp_at_writes_the_instant_as_toml_datetime() {
    let mut state = State::new();
    let when = Timestamp::from_unix(SEP_2025, 464_906_400).unwrap();
    state.stamp_at("rust", &when).unwrap();
    assert_eq!(state.stamp("rust").as_deref(), Some("2025-09-02T06:52:27.4649064+00:00"));
    let back = state.get_last_run("rust").unwrap();
    assert_eq!((back.unix_seconds(), back.subsec_nanos()), (SEP_2025, 464_906_400));
}

// ---------------------------------------------------------------- topics

#[test]
fn feeds_match_by_title_substring_every_one() {
    let all = vec![feed(1, "This Week in Rust"), feed(2, "Reddit Rust"), feed(3, "Hacker News"), feed(4, "This Week in Rust")];
    let patterns = vec!["Rust".to_string()];
    let chosen = select_feeds(&all, &patterns);
    let got: Vec<(i64, String)> = chosen.iter().map(|f| (f.id, f.title.clone())).collect();
    assert_eq!(
        got,
        vec![
            (1, "This Week in Rust".to_string()),
            (2, "Reddit Rust".to_string()),
            (4, "This Week in Rust".to_string()),
        ]
    );
    assert!(select_feeds(&all, &[]).is_empty());
    assert_eq!(select_feeds(&all, &["".to_string()]).len(), 4);
}

#[test]
fn window_starts_at_since_then_state_then_interval() {
    let cfg = topic_cfg("q", &[], "7d");
    let since = at(SEP_2025);
    let stored = at(SEP_2025 - 100);
    assert_eq!(window_start(Some(&since), Some(at(SEP_2025 - 100)), &cfg).unwrap().unix_seconds(), SEP_2025);
    assert_eq!(window_start(None, Some(stored), &cfg).unwrap().unix_seconds(), SEP_2025 - 100);
    let start = window_start(None, None, &cfg).unwrap();
    let now = Timestamp::now().unwrap();
    assert!(now.unix_seconds() - start.unix_seconds() >= 604_800);
    assert!(now.unix_seconds() - start.unix_seconds() <= 604_800 + 60);
    let broken = topic_cfg("q", &[], "whenever");
    assert!(matches!(window_start(None, None, &broken), Err(Error::IntervalParsing(_))));
    assert!(window_start(Some(&since), None, &broken).is_ok());
}

fn named(name: &str, topic: TopicConfig) -> NamedTopic {
    NamedTopic { name: name.to_string(), topic }
}

#[test]
fn topics_resolve_in_order() {
    let cfg = vec![
        named("rust", topic_cfg("What about Rust?", &["Rust"], "7d")),
        named("news", topic_cfg("What else?", &["News"], "24h")),
    ];
    let mut state = State::new();
    state.insert_stamp("rust".to_string(), "2025-09-02T06:52:27Z".to_string());
    let feeds = vec![feed(1, "This Week in Rust"), feed(3, "Hacker News")];
    let topics = Topic::new(&cfg, None, &state, &feeds).unwrap();
    assert_eq!(topics.len(), 2);
    assert_eq!(topics[0].get_name(), "rust");
    assert_eq!(topics[0].get_question(), "What about Rust?");
    assert_eq!(topics[0].get_last_run().unix_seconds(), SEP_2025);
    assert_eq!(topics[0].get_feeds().len(), 1);
    assert_eq!(topics[0].get_feeds()[0].id, 1);
    assert_eq!(topics[1].get_feeds()[0].id, 3);

    let broken = vec![named("x", topic_cfg("q", &[], "whenever"))];
    assert!(matches!(Topic::new(&broken, None, &state, &feeds), Err(Error::IntervalParsing(_))));
    assert!(matches!(Topic::new(&broken, Some(&at(SEP_2025)), &state, &feeds), Err(Error::IntervalParsing(_))));
    assert!(Topic::new(&cfg, Some(&at(SEP_2025)), &state, &feeds).is_ok());
}

// ---------------------------------------------------------------- report

fn briefing() -> Briefing {
    Briefing {
        question: "What's new?".to_string(),
        since: at(SEP_2025),
        analysis: Analysis {
            digest: "First <p>.\n\n  Second.  ".to_string(),
            highlights: vec![Highlight { headline: "H".to_string(), detail: "D".to_string(), entry_ids: vec![7, 42, 7] }],
        },
        sources: vec![
            Source { id: 42, title: "T42".to_string(), feed: "F".to_string(), url: "https://x/42".to_string() },
            Source { id: 43, title: "T43".to_string(), feed: "F".to_string(), url: "https://x/43?a&b".to_string() },
        ],
        scanned: 2,
    }
}

#[test]
fn briefing_renders_as_markdown() {
    assert_eq!(
        briefing().render(),
        "## What's new?\n\n_Since Tue, 2 Sep 2025 06:52:27 +0000 · 2 entries scanned_\n\nFirst <p>.\n\n  Second.  \n\n**Highlights**\n\n\
         - **H** — D [src](https://x/42)\n\
         \n<details><summary>Sources — 2 entries</summary>\n\n\
         - [T42](https://x/42) — F\n\n\
         - [T43](https://x/43?a&b) — F\n\n\
         </details>\n"
    );
}

#[test]
fn briefing_renders_as_html() {
    assert_eq!(
        briefing().render_html(3),
        "<section id=\"topic-3\">\n<h2>What&#39;s new?</h2>\n<p class=\"meta\">Since Tue, 2 Sep 2025 06:52:27 +0000 · 2 entries scanned</p>\n\
         <p>First &lt;p&gt;.</p>\n<p>Second.</p>\n\
         <h3>Highlights</h3>\n<ul class=\"highlights\">\n\
         <li><strong>H</strong> D <span class=\"links\"><a href=\"https://x/42\">src</a></span></li>\n\
         </ul>\n<details>\n<summary>Sources — 2 entries</summary>\n<ul class=\"sources\">\n\
         <li><a href=\"https://x/42\">T42</a> <span class=\"feed\">F</span></li>\n\
         <li><a href=\"https://x/43?a&amp;b\">T43</a> <span class=\"feed\">F</span></li>\n\
         </ul>\n</details>\n</section>\n"
    );
}

#[test]
fn report_needs_its_output_directory() {
    assert!(matches!(Report::new("/nope".to_string(), false), Err(Error::OutputNotExist)));
    let report = Report::new("/tmp".to_string(), true).unwrap();
    assert!(report.briefings.is_empty());
}

#[test]
fn report_fills_the_template() {
    let mut report = Report::new("/tmp".to_string(), true).unwrap();
    report.briefings.push(briefing());
    let now = at(SEP_2025);
    let markdown = report.markdown(&now, "m<1>");
    assert!(markdown.starts_with("# Report — Tue, 2 Sep 2025 06:52:27 +0000\n\n_m<1>_\n\n## What's new?"));
    assert!(markdown.ends_with("</details>\n\n"));
    let page = report.render_html("<style>{{style}}</style><p>{{date}} {{model}}</p>{{body}}{{unknown}}", "p{}", &now, "m<1>");
    assert!(page.starts_with("<style>p{}</style><p>2 September 2025 m&lt;1&gt;</p><nav>\n<ol>\n<li><a href=\"#topic-0\">What&#39;s new?</a></li>\n</ol>\n</nav>\n<section id=\"topic-0\">"));
    assert!(page.ends_with("</section>\n{{unknown}}"));
    let files = report.generate("{{body}}", "", "m").unwrap();
    assert_eq!(files.markdown_name, format!("report_{}.md", files.now.file_stamp()));
    assert_eq!(files.html_name, format!("report_{}.html", files.now.file_stamp()));
    assert_eq!(files.markdown, report.markdown(&files.now, "m"));
}

// ---------------------------------------------------------------- run

#[test]
fn prompt_lays_out_window_entries_question() {
    let entries = vec![entry(42, "F", "T", "x & y")];
    let prompt = generate_prompt(&at(SEP_2025), &entries, "Q?");
    assert_eq!(
        prompt,
        "Here are the entries published since 2025-09-02T06:52:27+00:00:\n\n<entry id=\"42\" feed=\"F\" published=\"2025-09-02T06:52:27Z\">\n<title>T</title>\n<content>x &amp; y</content>\n</entry>\n\nQ?"
    );
    assert_eq!(entry_ids(&[entry(1, "F", "T", ""), entry(9, "F", "T", "")]), vec![1, 9]);
}

fn config(output: &str) -> Config {
    let mut config = Config::default();
    config.claude.model = "vendor-haiku-4-5".to_string();
    config.output = output.to_string();
    config.topic.push(named("rust", topic_cfg("Q?", &["Rust"], "1d")));
    config
}

#[test]
fn a_run_scans_briefs_and_stamps() {
    let args = Args { since: Some(at(SEP_2025)), ..Args::default() };
    let feeds = vec![feed(7, "Reddit Rust")];
    assert!(matches!(App::new(&args, config("/nope"), State::new(), &feeds, false), Err(Error::OutputNotExist)));
    let mut app = App::new(&args, config("/tmp"), State::new(), &feeds, true).unwrap();
    assert_eq!(app.topics.len(), 1);
    assert!(app.read_update().is_none());

    let entries = vec![entry(42, "Reddit Rust", "T", "c")];
    let prompt = app.prompt(0, &entries);
    assert!(prompt.ends_with("\n\nQ?"));
    app.scanned(&entries);
    assert_eq!(app.read, vec![42]);
    assert_eq!(app.dry_run_cost(1000), Some((1_000, 81_000)));

    let analysis = Analysis { digest: "d".to_string(), highlights: Vec::new() };
    app.briefed(0, &entries, analysis, &Usage { input_tokens: 10, output_tokens: 20 }).unwrap();
    assert_eq!((app.usage.input_tokens, app.usage.output_tokens), (10, 20));
    assert_eq!(app.usage_cost(), Some((10, 100)));
    assert_eq!(app.report.briefings.len(), 1);
    assert!(app.state.get_last_run("rust").is_some());
    assert_eq!(app.read_update().unwrap().entry_ids, vec![42]);
    let files = app.finish("{{model}}", "").unwrap();
    assert_eq!(files.html, "vendor-haiku-4-5");
    assert!(matches!(app.call(0, &entries), Call::Brief(p) if p == prompt));
    let wrap_up = app.wrap_up("{{model}}", "").unwrap().unwrap();
    assert_eq!(wrap_up.files.html, "vendor-haiku-4-5");
    assert_eq!(wrap_up.stamps.len(), 1);
    assert_eq!(wrap_up.read.unwrap().entry_ids, vec![42]);
}

#[test]
fn a_dry_run_prices_and_writes_nothing() {
    let args = Args { dry_run: true, since: Some(at(SEP_2025)), ..Args::default() };
    let feeds = vec![feed(7, "Reddit Rust")];
    let mut app = App::new(&args, config("/tmp"), State::new(), &feeds, true).unwrap();
    let entries = vec![entry(42, "Reddit Rust", "T", "c")];
    assert!(matches!(app.call(0, &entries), Call::CountTokens(_)));
    app.scanned(&entries);
    assert_eq!(app.dry_run_cost(2000), Some((2_000, 82_000)));
    assert!(app.wrap_up("{{body}}", "").unwrap().is_none());
    assert!(app.state.stamps().is_empty());
    assert!(app.report.briefings.is_empty());
}


#[test]
fn a_run_writes_then_saves_then_marks_read() {
    let args = Args { since: Some(at(SEP_2025)), ..Args::default() };
    let feeds = vec![feed(7, "Reddit Rust")];
    let app = App::new(&args, config("/tmp"), State::new(), &feeds, true).unwrap();
    let (mut run, action) = Run::start(app, "{{model}}".to_string(), String::new());
    assert!(matches!(action, Action::Fetch(0)));
    let action = run.step(Event::Fetched(vec![entry(42, "Reddit Rust", "T", "c")]));
    assert!(matches!(&action, Action::Ask(Call::Brief(p)) if p.ends_with("\n\nQ?")));
    let analysis = Analysis { digest: "d".to_string(), highlights: Vec::new() };
    let action = run.step(Event::Answered(analysis, Usage { input_tokens: 3, output_tokens: 4 }));
    match action {
        Action::Write(files) => assert_eq!(files.html, "vendor-haiku-4-5"),
        other => panic!("unexpected {other:?}"),
    }
    assert_eq!(run.app.report.briefings.len(), 1);
    match run.step(Event::Written) {
        Action::Save(stamps) => {
            assert_eq!(stamps.len(), 1);
            assert_eq!(stamps[0].0, "rust");
        }
        other => panic!("unexpected {other:?}"),
    }
    match run.step(Event::Saved) {
        Action::Mark(update) => assert_eq!(update.entry_ids, vec![42]),
        other => panic!("unexpected {other:?}"),
    }
    assert!(matches!(run.step(Event::Marked), Action::Done));
    assert!(matches!(run.phase, Phase::Done));
}

#[test]
fn a_run_stops_at_the_first_failure() {
    let args = Args { since: Some(at(SEP_2025)), ..Args::default() };
    let feeds = vec![feed(7, "Reddit Rust")];
    let app = App::new(&args, config("/tmp"), State::new(), &feeds, true).unwrap();
    let (mut run, _) = Run::start(app, String::new(), String::new());
    let _ = run.step(Event::Fetched(vec![entry(42, "Reddit Rust", "T", "c")]));
    match run.step(Event::Failed(Error::Reqwest("timed out".to_string()))) {
        Action::Fail(Error::Reqwest(m)) => assert_eq!(m, "timed out"),
        other => panic!("unexpected {other:?}"),
    }
    assert!(matches!(run.phase, Phase::Failed));
    assert!(run.app.report.briefings.is_empty());
    assert!(run.app.state.stamps().is_empty());
}

#[test]
fn a_dry_run_ends_without_writing() {
    let args = Args { dry_run: true, since: Some(at(SEP_2025)), ..Args::default() };
    let feeds = vec![feed(7, "Reddit Rust")];
    let app = App::new(&args, config("/tmp"), State::new(), &feeds, true).unwrap();
    let (mut run, _) = Run::start(app, String::new(), String::new());
    let action = run.step(Event::Fetched(vec![entry(42, "Reddit Rust", "T", "c")]));
    assert!(matches!(action, Action::Ask(Call::CountTokens(_))));
    assert!(matches!(run.step(Event::Counted(1000)), Action::Done));
}
