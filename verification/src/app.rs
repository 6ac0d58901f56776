//! One run: the topics resolved, a prompt per topic, the briefings collected,
//! the stamps recorded. The network and the files are handled by the caller,
//! which hands each result back here.

use vstd::prelude::*;

use crate::claude::{model_rates, Analysis, Claude, Usage, MAX_TOKENS};
use crate::config::Config;
use crate::error::Error;
use crate::report::{report_markdown, report_page, source_of, Report, ReportFiles};
use crate::rss::{read_update, rendered_entries, render_entries, Entry, Feed, StatusUpdate};
use crate::state::{distinct_topics, stamp_map, toml_datetime_text, State};
use crate::time::{rfc3339_text, valid_instant, Timestamp};
use crate::topic::{intervals_parse, opt_owned_view, stored_instant, topics_resolved, Topic};

verus! {

/// The command line, parsed.
#[derive(Debug)]
pub struct Args {
    /// Logging verbosity: how many `-v` were given.
    pub verbose: u8,
    /// Path to the application config file (TOML).
    pub config: Option<String>,
    /// Rss list feed. Accepted, not acted on.
    pub feeds: bool,
    /// Start every window here instead of at the last run.
    pub since: Option<Timestamp>,
    /// Count tokens and price the prompts without calling the model.
    pub dry_run: bool,
}

impl Default for Args {
    fn default() -> (res: Args)
        ensures
            res.verbose == 0,
            res.config is None,
            !res.feeds,
            res.since is None,
            !res.dry_run,
    {
        Args { verbose: 0, config: None, feeds: false, since: None, dry_run: false }
    }
}

/// The prompt for one topic: the window's start, the entries, the question.
pub open spec fn prompt_text(since: (i64, u32), entries: Seq<Entry>, question: Seq<char>) -> Seq<char> {
    "Here are the entries published since "@ + rfc3339_text(since.0, since.1) + ":\n\n"@
        + rendered_entries(entries) + "\n\n"@ + question
}

/// The ids of the entries, in order.
pub open spec fn ids_of(entries: Seq<Entry>) -> Seq<i64> {
    entries.map_values(|e: Entry| e.id)
}

/// Lays a topic's entries out for the model, after the start of the window and
/// before the question.
pub fn generate_prompt(since: &Timestamp, entries: &[Entry], question: &str) -> (res: String)
    ensures
        res@ == prompt_text(since@, entries@, question@),
{
    let mut out = String::from_str("Here are the entries published since ");
    out.append(since.to_rfc3339().as_str());
    out.append(":\n\n");
    out.append(render_entries(entries).as_str());
    out.append("\n\n");
    out.append(question);
    out
}

/// The ids of the entries, in order.
pub fn entry_ids(entries: &[Entry]) -> (res: Vec<i64>)
    ensures
        res@ == ids_of(entries@),
{
    let mut out: Vec<i64> = Vec::new();
    let mut k: usize = 0;
    while k < entries.len()
        invariant
            k <= entries.len(),
            out@ == ids_of(entries@.take(k as int)),
        decreases entries.len() - k,
    {
        out.push(entries[k].id);
        k = k + 1;
        assert(out@ =~= ids_of(entries@.take(k as int)));
    }
    assert(entries@.take(k as int) =~= entries@);
    out
}

/// What to ask the Messages API for one topic.
#[derive(Debug)]
pub enum Call {
    /// Count the prompt's tokens only: a dry run.
    CountTokens(String),
    /// Ask for the briefing.
    Brief(String),
}

/// What is left to do once every topic is through: the report files to
/// write, the stamps to save, and the entries to mark read.
#[derive(Debug)]
pub struct WrapUp {
    /// The rendered report.
    pub files: ReportFiles,
    /// Every stamp of the state, topics distinct.
    pub stamps: Vec<(String, String)>,
    /// The update marking every scanned entry as read, if any was scanned.
    pub read: Option<StatusUpdate>,
}

/// Everything a run needs, wired together once.
#[derive(Debug)]
pub struct App {
    /// Last-run stamps, loaded from the state file and updated as topics are
    /// briefed.
    pub state: State,
    /// Summarizer.
    pub claude: Claude,
    /// Topics to brief on, in configuration order.
    pub topics: Vec<Topic>,
    /// Briefings collected so far.
    pub report: Report,
    /// Count tokens only, at no token cost.
    pub dry_run: bool,
    /// Ids of every entry scanned so far, to mark read at the end.
    pub read: Vec<i64>,
    /// Tokens spent so far.
    pub usage: Usage,
}

impl App {
    /// Resolves the configured topics against `feeds`, the server's feed
    /// list, and sets up the summarizer and the report; `output_exists`
    /// tells whether the output directory exists.
    ///
    /// # Errors
    ///
    /// The errors of [`Topic::new`] first, then [`Error::OutputNotExist`].
    pub fn new(args: &Args, config: Config, state: State, feeds: &[Feed], output_exists: bool) -> (res: Result<App, Error>)
        ensures
            res matches Ok(app) ==> {
                &&& app.state@ == state@
                &&& app.claude.key@ == config.claude.api_key@
                &&& app.claude.model@ == config.claude.model@
                &&& topics_resolved(config.topic@, opt_owned_view(args.since), state@, feeds@, app.topics@)
                &&& app.report.briefings@.len() == 0
                &&& app.report.output_dir@ == config.output@
                &&& app.dry_run == args.dry_run
                &&& app.read@.len() == 0
                &&& app.usage.input_tokens == 0 && app.usage.output_tokens == 0
            },
            res is Ok ==> intervals_parse(config.topic@) && output_exists,
            !intervals_parse(config.topic@) ==> (res matches Err(e) && e is IntervalParsing),
            intervals_parse(config.topic@) && !output_exists && args.since is Some ==> (res matches Err(e) && e is OutputNotExist),
            intervals_parse(config.topic@) && output_exists && args.since is Some ==> res is Ok,
            res matches Err(e) ==> (e is OutputNotExist && !output_exists)
                || (e is IntervalParsing && !intervals_parse(config.topic@))
                || (e is TimeOutOfRange && args.since is None && exists|i: int|
                    0 <= i < config.topic@.len() && #[trigger] stored_instant(state@, config.topic@[i].name@) is None),
    {
        let claude = Claude::new(&config.claude);
        let topics = Topic::new(config.topic.as_slice(), args.since.as_ref(), &state, feeds)?;
        let report = Report::new(config.output, output_exists)?;
        Ok(App { state, claude, topics, report, dry_run: args.dry_run, read: Vec::new(), usage: Usage::new() })
    }

    /// The prompt for topic `i`, over the entries fetched for it.
    pub fn prompt(&self, i: usize, entries: &[Entry]) -> (res: String)
        requires
            i < self.topics@.len(),
        ensures
            res@ == prompt_text(self.topics@[i as int].last_run@, entries@, self.topics@[i as int].question@),
    {
        let topic = &self.topics[i];
        generate_prompt(&topic.last_run, entries, topic.question.as_str())
    }

    /// Notes the entries fetched for a topic as scanned; they are marked read
    /// once the run completes.
    pub fn scanned(&mut self, entries: &[Entry])
        ensures
            final(self).read@ == old(self).read@ + ids_of(entries@),
            final(self).state@ == old(self).state@,
            final(self).report == old(self).report,
            final(self).topics == old(self).topics,
            final(self).usage == old(self).usage,
            final(self).dry_run == old(self).dry_run,
            final(self).claude == old(self).claude,
    {
        let ids = entry_ids(entries);
        let mut k: usize = 0;
        let ghost start = self.read@;
        while k < ids.len()
            invariant
                k <= ids.len(),
                self.read@ == start + ids@.take(k as int),
                start == old(self).read@,
                self.state == old(self).state,
                self.report == old(self).report,
                self.topics == old(self).topics,
                self.usage == old(self).usage,
                self.dry_run == old(self).dry_run,
                self.claude == old(self).claude,
            decreases ids.len() - k,
        {
            self.read.push(ids[k]);
            k = k + 1;
            assert(self.read@ =~= start + ids@.take(k as int));
        }
        assert(ids@.take(k as int) =~= ids@);
    }

    /// Records the model's briefing on topic `i`: its tokens are added to the
    /// run's usage, the briefing joins the report, and the topic is stamped
    /// as briefed up to now, so the next run starts from here.
    ///
    /// # Errors
    ///
    /// The errors of [`State::set_last_run`]; the briefing stays in the
    /// report and the usage counted.
    pub fn briefed(&mut self, i: usize, entries: &[Entry], analysis: Analysis, usage: &Usage) -> (res: Result<(), Error>)
        requires
            i < old(self).topics@.len(),
            old(self).usage.input_tokens + usage.input_tokens <= u32::MAX,
            old(self).usage.output_tokens + usage.output_tokens <= u32::MAX,
        ensures
            final(self).usage.input_tokens == old(self).usage.input_tokens + usage.input_tokens,
            final(self).usage.output_tokens == old(self).usage.output_tokens + usage.output_tokens,
            final(self).report.briefings@.len() == old(self).report.briefings@.len() + 1,
            forall|k: int| 0 <= k < old(self).report.briefings@.len() ==> final(self).report.briefings@[k] == old(self).report.briefings@[k],
            final(self).report.output_dir == old(self).report.output_dir,
            final(self).dry_run == old(self).dry_run,
            final(self).claude == old(self).claude,
            final(self).report.briefings@.last().question@ == old(self).topics@[i as int].question@,
            final(self).report.briefings@.last().since@ == old(self).topics@[i as int].last_run@,
            final(self).report.briefings@.last().analysis == analysis,
            final(self).report.briefings@.last().sources@ == entries@.map_values(|e: Entry| source_of(e)),
            final(self).topics == old(self).topics,
            final(self).read == old(self).read,
            res is Ok ==> exists|now: (i64, u32)| {
                &&& valid_instant(now.0 as int, now.1 as int) && now.0 >= 0
                &&& #[trigger] toml_datetime_text(rfc3339_text(now.0, now.1)) is Ok
                &&& final(self).state@ == old(self).state@.insert(
                    old(self).topics@[i as int].name@,
                    toml_datetime_text(rfc3339_text(now.0, now.1))->Ok_0,
                )
            },
            res is Err ==> final(self).state@ == old(self).state@,
    {
        self.usage.add(usage);
        self.report.add(&self.topics[i], entries, analysis);
        self.state.set_last_run(self.topics[i].name.as_str())
    }

    /// What a dry run's prompt of `tokens` input tokens costs, and the worst
    /// case once a full response is added, in millionths of a dollar.
    pub fn dry_run_cost(&self, tokens: u32) -> (res: Option<(u64, u64)>)
        ensures
            res is Some <==> model_rates(self.claude.model@) is Some,
            res matches Some((input, ceiling)) ==> {
                let (in_rate, out_rate) = model_rates(self.claude.model@)->Some_0;
                &&& input == tokens * in_rate
                &&& ceiling == tokens * in_rate + MAX_TOKENS * out_rate
            },
    {
        self.claude.calculate_cost(tokens)
    }

    /// What the run's tokens cost so far, as `(input, output)` in millionths
    /// of a dollar.
    pub fn usage_cost(&self) -> (res: Option<(u64, u64)>)
        ensures
            res is Some <==> model_rates(self.claude.model@) is Some,
            res matches Some((input, output)) ==> {
                let (in_rate, out_rate) = model_rates(self.claude.model@)->Some_0;
                &&& input == self.usage.input_tokens * in_rate
                &&& output == self.usage.output_tokens * out_rate
            },
    {
        self.claude.usage_cost(&self.usage)
    }

    /// The report, rendered and stamped with the current time.
    ///
    /// # Errors
    ///
    /// [`Error::TimeOutOfRange`] when the clock reads outside years 0000 to
    /// 9999.
    pub fn finish(&self, template: &str, style: &str) -> (res: Result<ReportFiles, Error>)
        ensures
            res matches Ok(f) ==> f.markdown@ == report_markdown(self.report.briefings@, f.now@, self.claude.model@)
                && f.html@ == report_page(self.report.briefings@, template@, style@, f.now@, self.claude.model@),
            res matches Err(e) ==> e is TimeOutOfRange,
    {
        self.report.generate(template, style, self.claude.model.as_str())
    }

    /// What to send for topic `i`, over the entries fetched for it: the
    /// prompt, to be priced in a dry run and answered otherwise.
    pub fn call(&self, i: usize, entries: &[Entry]) -> (res: Call)
        requires
            i < self.topics@.len(),
        ensures
            self.dry_run ==> (res matches Call::CountTokens(p)
                && p@ == prompt_text(self.topics@[i as int].last_run@, entries@, self.topics@[i as int].question@)),
            !self.dry_run ==> (res matches Call::Brief(p)
                && p@ == prompt_text(self.topics@[i as int].last_run@, entries@, self.topics@[i as int].question@)),
    {
        let prompt = self.prompt(i, entries);
        if self.dry_run {
            Call::CountTokens(prompt)
        } else {
            Call::Brief(prompt)
        }
    }

    /// What to write once every topic is through. A dry run writes nothing:
    /// no report, no state, nothing marked read.
    ///
    /// # Errors
    ///
    /// [`Error::TimeOutOfRange`] when the clock reads outside years 0000 to
    /// 9999.
    pub fn wrap_up(&self, template: &str, style: &str) -> (res: Result<Option<WrapUp>, Error>)
        ensures
            self.dry_run <==> res matches Ok(None),
            res matches Ok(Some(w)) ==> {
                &&& w.files.markdown@ == report_markdown(self.report.briefings@, w.files.now@, self.claude.model@)
                &&& w.files.html@ == report_page(self.report.briefings@, template@, style@, w.files.now@, self.claude.model@)
                &&& distinct_topics(w.stamps@.map_values(|p: (String, String)| (p.0@, p.1@)))
                &&& stamp_map(w.stamps@.map_values(|p: (String, String)| (p.0@, p.1@))) == self.state@
                &&& (w.read is None <==> self.read@.len() == 0)
                &&& (w.read matches Some(u) ==> u.entry_ids@ == self.read@ && u.status@ == "read"@)
            },
            res matches Err(e) ==> e is TimeOutOfRange,
    {
        if self.dry_run {
            return Ok(None);
        }
        let files = self.finish(template, style)?;
        Ok(Some(WrapUp { files, stamps: self.state.stamps(), read: self.read_update() }))
    }

    /// The update marking every scanned entry as read, or `None` when none
    /// was scanned.
    pub fn read_update(&self) -> (res: Option<StatusUpdate>)
        ensures
            res is None <==> self.read@.len() == 0,
            res matches Some(u) ==> u.entry_ids@ == self.read@ && u.status@ == "read"@,
    {
        read_update(self.read.as_slice())
    }
}

} // verus!
