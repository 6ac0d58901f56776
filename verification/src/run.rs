//! A whole run as a state machine: the caller performs each action (a fetch,
//! a call, a write) and hands back what came of it; the run decides what
//! comes next. A run briefs every topic in turn, then writes the report,
//! then saves the state, and only then marks the entries read; the first
//! failure stops it, and nothing is done after that.

use vstd::prelude::*;

use crate::app::{ids_of, prompt_text, App, Call};
use crate::claude::{Analysis, Usage};
use crate::error::Error;
use crate::report::{report_markdown, report_page, source_of, Briefing, ReportFiles, Source};
use crate::rss::{Entry, StatusUpdate};
use crate::state::{distinct_topics, stamp_map};

verus! {

/// Where a run stands.
#[derive(Debug, Clone, Copy)]
pub enum Phase {
    /// Waiting for the entries of topic `i`.
    Fetching(usize),
    /// Waiting for what the model made of topic `i`.
    Asking(usize),
    /// Waiting for the report files to be written.
    Writing,
    /// Waiting for the state file to be saved.
    Saving,
    /// Waiting for the scanned entries to be marked read.
    Marking,
    /// Finished.
    Done,
    /// Stopped at the first failure.
    Failed,
}

/// What came of the last action.
#[derive(Debug)]
pub enum Event {
    /// The entries of the topic being fetched.
    Fetched(Vec<Entry>),
    /// A dry run's token count for the topic's prompt.
    Counted(u32),
    /// The model's analysis of the topic, and the tokens the call spent.
    Answered(Analysis, Usage),
    /// The report files are written.
    Written,
    /// The state file is saved.
    Saved,
    /// The entries are marked read.
    Marked,
    /// The action failed.
    Failed(Error),
}

/// What the caller is to do next.
#[derive(Debug)]
pub enum Action {
    /// Fetch the entries of topic `i`, from each of its feeds.
    Fetch(usize),
    /// Send this call to the Messages API.
    Ask(Call),
    /// Write the report files.
    Write(ReportFiles),
    /// Save these stamps as the state file.
    Save(Vec<(String, String)>),
    /// Mark these entries read.
    Mark(StatusUpdate),
    /// Nothing more: the run succeeded.
    Done,
    /// Nothing more: the run failed with this error.
    Fail(Error),
}

/// A run in progress.
pub struct Run {
    /// The topics, the report and the state.
    pub app: App,
    /// Where the run stands.
    pub phase: Phase,
    /// The entries of the topic being asked about.
    pub entries: Vec<Entry>,
    /// The stamps to save once the report is written.
    pub stamps: Vec<(String, String)>,
    /// The update to send once the state is saved.
    pub read: Option<StatusUpdate>,
    /// The page the HTML report is laid into.
    pub template: String,
    /// The stylesheet inlined into it.
    pub style: String,
    /// The ids that were already noted as scanned when the run started.
    pub read_at_start: Ghost<Seq<i64>>,
}

/// The ids of a briefing's sources, in order.
pub open spec fn source_ids(b: Briefing) -> Seq<i64> {
    b.sources@.map_values(|s: Source| s.id)
}

/// The ids of the sources of every briefing, briefing after briefing.
pub open spec fn all_source_ids(bs: Seq<Briefing>) -> Seq<i64>
    decreases bs.len(),
{
    if bs.len() == 0 {
        seq![]
    } else {
        all_source_ids(bs.drop_last()) + source_ids(bs.last())
    }
}

/// The report holds one briefing for each of the first `n` topics, in order
/// (none at all in a dry run), and each of them is stamped in the state.
pub open spec fn briefed_upto(app: App, n: int) -> bool {
    if app.dry_run {
        app.report.briefings@.len() == 0
    } else {
        &&& app.report.briefings@.len() == n
        &&& forall|k: int| 0 <= k < n ==> {
            &&& (#[trigger] app.report.briefings@[k]).question@ == app.topics@[k].question@
            &&& app.report.briefings@[k].since@ == app.topics@[k].last_run@
            &&& app.state@.contains_key(app.topics@[k].name@)
        }
    }
}

/// The stamps held for saving are the state's, topics distinct.
pub open spec fn stamps_are_state(stamps: Seq<(String, String)>, app: App) -> bool {
    &&& distinct_topics(stamps.map_values(|p: (String, String)| (p.0@, p.1@)))
    &&& stamp_map(stamps.map_values(|p: (String, String)| (p.0@, p.1@))) == app.state@
}

/// The update held for the end marks exactly the scanned entries read, and
/// there is one exactly when an entry was scanned.
pub open spec fn read_is_scanned(read: Option<StatusUpdate>, app: App) -> bool {
    &&& (read is None <==> app.read@.len() == 0)
    &&& (read matches Some(u) ==> u.entry_ids@ == app.read@ && u.status@ == "read"@)
}

/// Whether `event` answers the action the run last asked for. A run that is
/// done or failed takes no more events.
pub open spec fn expects(run: Run, event: Event) -> bool {
    match event {
        Event::Failed(_) => !(run.phase is Done) && !(run.phase is Failed),
        Event::Fetched(_) => run.phase is Fetching,
        Event::Counted(_) => run.phase is Asking && run.app.dry_run,
        Event::Answered(_, _) => run.phase is Asking && !run.app.dry_run,
        Event::Written => run.phase is Writing,
        Event::Saved => run.phase is Saving,
        Event::Marked => run.phase is Marking,
    }
}

/// The prompt a call carries.
pub open spec fn call_prompt(c: Call) -> Seq<char> {
    match c {
        Call::CountTokens(p) => p@,
        Call::Brief(p) => p@,
    }
}

/// A run that failed, or finished, is over: it takes no further event, so
/// nothing is written, saved or marked read after the first failure.
pub proof fn law_an_ended_run_takes_no_event(run: Run, event: Event)
    requires
        run.phase is Failed || run.phase is Done,
    ensures
        !expects(run, event),
{
}

/// Every entry scanned is marked read, and nothing else: once a run is past
/// its topics, the update it holds marks the ids noted before the run, then
/// the ids of every briefing's sources, topic after topic, in order.
pub proof fn law_every_scanned_entry_is_marked(run: Run)
    requires
        run.wf(),
        run.phase is Writing || run.phase is Saving,
    ensures
        run.read matches Some(u) ==> u.entry_ids@ == run.read_at_start@ + all_source_ids(run.app.report.briefings@),
        run.read is None <==> (run.read_at_start@ + all_source_ids(run.app.report.briefings@)).len() == 0,
{
}

impl Run {
    /// The run's own bookkeeping holds: the topic it stands at exists, and
    /// every topic before it is briefed; once past the topics, all are.
    pub open spec fn wf(self) -> bool {
        self.phase_ok() && self.read_follows()
    }

    /// Outside a dry run, the ids noted as scanned are those noted before the
    /// run, then the sources of every briefing so far, then the entries of
    /// the topic being asked about.
    pub open spec fn read_follows(self) -> bool {
        !self.app.dry_run ==> match self.phase {
            Phase::Asking(_) => self.app.read@ == self.read_at_start@ + all_source_ids(self.app.report.briefings@)
                + ids_of(self.entries@),
            Phase::Failed => true,
            _ => self.app.read@ == self.read_at_start@ + all_source_ids(self.app.report.briefings@),
        }
    }

    /// The phase's own bookkeeping holds.
    pub open spec fn phase_ok(self) -> bool {
        match self.phase {
            Phase::Fetching(i) => i < self.app.topics@.len() && briefed_upto(self.app, i as int),
            Phase::Asking(i) => i < self.app.topics@.len() && briefed_upto(self.app, i as int),
            Phase::Writing => !self.app.dry_run && briefed_upto(self.app, self.app.topics@.len() as int)
                && stamps_are_state(self.stamps@, self.app) && read_is_scanned(self.read, self.app),
            Phase::Saving => !self.app.dry_run && briefed_upto(self.app, self.app.topics@.len() as int)
                && read_is_scanned(self.read, self.app),
            Phase::Marking => !self.app.dry_run && briefed_upto(self.app, self.app.topics@.len() as int),
            Phase::Done => briefed_upto(self.app, self.app.topics@.len() as int),
            Phase::Failed => true,
        }
    }

    /// Starts a run over `app`, whose report must still be empty, and says
    /// what to do first: fetch the first topic, or, with no topics, go
    /// straight to the end of the run.
    pub fn start(app: App, template: String, style: String) -> (res: (Run, Action))
        requires
            app.report.briefings@.len() == 0,
        ensures
            res.0.wf(),
            res.0.app.topics == app.topics,
            res.0.template@ == template@,
            res.0.style@ == style@,
            res.0.read_at_start@ == app.read@,
            app.topics@.len() > 0 ==> (res.1 matches Action::Fetch(i) && i == 0 && res.0.phase == Phase::Fetching(0)),
            res.1 is Fail <==> res.0.phase is Failed,
    {
        let ghost app_read = app.read@;
        let mut run = Run {
            app,
            phase: Phase::Done,
            entries: Vec::new(),
            stamps: Vec::new(),
            read: None,
            template,
            style,
            read_at_start: Ghost(app_read),
        };
        assert(all_source_ids(run.app.report.briefings@) =~= Seq::<i64>::empty());
        assert(run.app.read@ =~= app_read + all_source_ids(run.app.report.briefings@));
        let action = run.enter(0);
        (run, action)
    }

    /// Moves on to topic `j`, or, past the last topic, to the end of the run:
    /// nothing more in a dry run, else the report to write.
    fn enter(&mut self, j: usize) -> (res: Action)
        requires
            j <= old(self).app.topics@.len(),
            briefed_upto(old(self).app, j as int),
            !old(self).app.dry_run ==> old(self).app.read@ == old(self).read_at_start@
                + all_source_ids(old(self).app.report.briefings@),
        ensures
            final(self).read_at_start == old(self).read_at_start,
            final(self).wf(),
            final(self).app == old(self).app,
            final(self).template == old(self).template,
            final(self).style == old(self).style,
            j < old(self).app.topics@.len() ==> (res matches Action::Fetch(k) && k == j && final(self).phase == Phase::Fetching(j)),
            j == old(self).app.topics@.len() && old(self).app.dry_run ==> res is Done && final(self).phase is Done,
            res is Fail <==> final(self).phase is Failed,
            res is Fail ==> j == old(self).app.topics@.len(),
            res matches Action::Write(f) ==> {
                &&& j == old(self).app.topics@.len()
                &&& !old(self).app.dry_run
                &&& final(self).phase is Writing
                &&& f.markdown@ == report_markdown(old(self).app.report.briefings@, f.now@, old(self).app.claude.model@)
                &&& f.html@ == report_page(old(self).app.report.briefings@, old(self).template@, old(self).style@, f.now@, old(self).app.claude.model@)
                &&& stamps_are_state(final(self).stamps@, final(self).app)
                &&& read_is_scanned(final(self).read, final(self).app)
            },
            res is Fetch || res is Done || res is Fail || res is Write,
            res is Done <==> final(self).phase is Done,
    {
        if j < self.app.topics.len() {
            self.phase = Phase::Fetching(j);
            return Action::Fetch(j);
        }
        match self.app.wrap_up(self.template.as_str(), self.style.as_str()) {
            Err(e) => {
                self.phase = Phase::Failed;
                Action::Fail(e)
            },
            Ok(None) => {
                self.phase = Phase::Done;
                Action::Done
            },
            Ok(Some(w)) => {
                self.stamps = w.stamps;
                self.read = w.read;
                self.phase = Phase::Writing;
                Action::Write(w.files)
            },
        }
    }

    /// Takes what came of the last action and says what to do next.
    ///
    /// - A failure stops the run: the error is handed back and nothing else
    ///   is done, so no report, state or read mark follows it.
    /// - Entries fetched for a topic are noted as scanned and give the call
    ///   for that topic.
    /// - An answer is recorded as that topic's briefing (and stamp); a dry
    ///   run's count only moves on. Then comes the next topic, or the end.
    /// - The report is written first, then the state saved, then the entries
    ///   marked read, each only once the one before succeeded.
    pub fn step(&mut self, event: Event) -> (res: Action)
        requires
            old(self).wf(),
            expects(*old(self), event),
            event matches Event::Answered(_, u) ==> {
                &&& old(self).app.usage.input_tokens + u.input_tokens <= u32::MAX
                &&& old(self).app.usage.output_tokens + u.output_tokens <= u32::MAX
            },
        ensures
            final(self).wf(),
            final(self).app.topics == old(self).app.topics,
            event matches Event::Failed(e) ==> (res matches Action::Fail(f) && f == e),
            res is Fail <==> final(self).phase is Failed,
            res is Done <==> final(self).phase is Done,
            res is Write ==> (old(self).phase is Asking && final(self).phase is Writing),
            res is Save ==> (old(self).phase is Writing && event is Written && final(self).phase is Saving),
            res is Mark ==> (old(self).phase is Saving && event is Saved && final(self).phase is Marking),
            final(self).app.dry_run == old(self).app.dry_run,
            final(self).app.claude == old(self).app.claude,
            final(self).template == old(self).template,
            final(self).style == old(self).style,
            old(self).app.dry_run ==> !(res is Write) && !(res is Save) && !(res is Mark),
            event is Written || event is Saved || event is Marked ==> final(self).app == old(self).app,
            old(self).phase matches Phase::Asking(i) ==> (event matches Event::Answered(a, u) ==> {
                &&& final(self).app.report.briefings@.len() == i + 1
                &&& final(self).app.report.briefings@[i as int].analysis == a
                &&& final(self).app.report.briefings@[i as int].sources@ == old(self).entries@.map_values(|e: Entry| source_of(e))
                &&& final(self).app.usage.input_tokens == old(self).app.usage.input_tokens + u.input_tokens
                &&& final(self).app.usage.output_tokens == old(self).app.usage.output_tokens + u.output_tokens
            }),
            res matches Action::Write(f) ==> {
                &&& final(self).app.report.briefings@.len() == final(self).app.topics@.len()
                &&& f.markdown@ == report_markdown(final(self).app.report.briefings@, f.now@, final(self).app.claude.model@)
                &&& f.html@ == report_page(final(self).app.report.briefings@, final(self).template@, final(self).style@, f.now@, final(self).app.claude.model@)
            },
            res matches Action::Save(st) ==> {
                &&& stamps_are_state(st@, final(self).app)
                &&& forall|k: int| 0 <= k < final(self).app.topics@.len() ==> final(self).app.state@.contains_key(#[trigger] final(self).app.topics@[k].name@)
            },
            res matches Action::Mark(u) ==> u.entry_ids@ == final(self).app.read@ && u.status@ == "read"@,
            res matches Action::Mark(u) ==> u.entry_ids@ == final(self).read_at_start@
                + all_source_ids(final(self).app.report.briefings@),
            final(self).read_at_start == old(self).read_at_start,
            !(event is Fetched) ==> final(self).app.read == old(self).app.read,
            event is Saved && old(self).read is None ==> res is Done,
            event is Marked ==> res is Done,
            old(self).phase matches Phase::Fetching(i) ==> (event matches Event::Fetched(es) ==> (res matches Action::Ask(c)
                && final(self).phase == Phase::Asking(i)
                && (c is CountTokens <==> old(self).app.dry_run)
                && call_prompt(c) == prompt_text(old(self).app.topics@[i as int].last_run@, es@, old(self).app.topics@[i as int].question@)
                && final(self).app.read@ == old(self).app.read@ + ids_of(es@))),
            old(self).phase matches Phase::Asking(i) ==> (!(event is Failed) && i + 1 < old(self).app.topics@.len()
                ==> (res is Fetch || res is Fail)),
            old(self).phase matches Phase::Asking(i) ==> (event is Counted && i + 1 < old(self).app.topics@.len()
                ==> (res matches Action::Fetch(k) && k == i + 1)),
    {
        match event {
            Event::Failed(e) => {
                self.phase = Phase::Failed;
                Action::Fail(e)
            },
            Event::Fetched(es) => {
                let i = match self.phase {
                    Phase::Fetching(i) => i,
                    _ => 0,
                };
                self.app.scanned(&es);
                let call = self.app.call(i, &es);
                self.entries = es;
                self.phase = Phase::Asking(i);
                Action::Ask(call)
            },
            Event::Counted(_) => {
                let i = match self.phase {
                    Phase::Asking(i) => i,
                    _ => 0,
                };
                let n = self.app.topics.len();
                assert(i < n);
                self.enter(i + 1)
            },
            Event::Answered(analysis, usage) => {
                let i = match self.phase {
                    Phase::Asking(i) => i,
                    _ => 0,
                };
                let n = self.app.topics.len();
                assert(i < n);
                let mut entries: Vec<Entry> = Vec::new();
                std::mem::swap(&mut entries, &mut self.entries);
                let ghost before = self.app;
                match self.app.briefed(i, entries.as_slice(), analysis, &usage) {
                    Err(e) => {
                        self.phase = Phase::Failed;
                        Action::Fail(e)
                    },
                    Ok(()) => {
                        proof {
                            let bs = self.app.report.briefings@;
                            assert(bs.drop_last() =~= before.report.briefings@);
                            assert(source_ids(bs.last()) =~= ids_of(entries@));
                            assert(all_source_ids(bs) == all_source_ids(bs.drop_last()) + source_ids(bs.last()));
                            assert(self.app.read@ =~= self.read_at_start@ + all_source_ids(bs));
                        }
                        assert forall|k: int| 0 <= k < i + 1 implies {
                            &&& (#[trigger] self.app.report.briefings@[k]).question@ == self.app.topics@[k].question@
                            &&& self.app.report.briefings@[k].since@ == self.app.topics@[k].last_run@
                            &&& self.app.state@.contains_key(self.app.topics@[k].name@)
                        } by {
                            if k < i {
                                assert(self.app.report.briefings@[k] == before.report.briefings@[k]);
                                assert(before.report.briefings@[k].question@ == before.topics@[k].question@);
                                assert(before.state@.contains_key(before.topics@[k].name@));
                            }
                        }
                        self.enter(i + 1)
                    },
                }
            },
            Event::Written => {
                assert forall|k: int| 0 <= k < self.app.topics@.len() implies self.app.state@.contains_key(#[trigger] self.app.topics@[k].name@) by {
                    assert(self.app.report.briefings@[k].question@ == self.app.topics@[k].question@);
                }
                let mut stamps: Vec<(String, String)> = Vec::new();
                std::mem::swap(&mut stamps, &mut self.stamps);
                self.phase = Phase::Saving;
                Action::Save(stamps)
            },
            Event::Saved => {
                match self.read.take() {
                    Some(u) => {
                        self.phase = Phase::Marking;
                        Action::Mark(u)
                    },
                    None => {
                        self.phase = Phase::Done;
                        Action::Done
                    },
                }
            },
            Event::Marked => {
                self.phase = Phase::Done;
                Action::Done
            },
        }
    }
}

} // verus!
