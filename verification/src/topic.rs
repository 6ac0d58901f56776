//! Topics, resolved against the feed list and the state file: which feeds
//! each reads, and where its window starts.

use vstd::prelude::*;

use crate::config::{self, parsed_duration, NamedTopic};
use crate::error::Error;
use crate::rss::Feed;
use crate::state::{stamp_instant, stamp_of, State};
use crate::text::{contains, has_substring};
use crate::time::{instant_nanos, valid_instant, Timestamp};

verus! {

/// Whether a feed title contains one of the patterns.
pub open spec fn title_matches(title: Seq<char>, patterns: Seq<Seq<char>>) -> bool {
    exists|j: int| 0 <= j < patterns.len() && #[trigger] has_substring(title, patterns[j])
}

/// The patterns as texts.
pub open spec fn texts(s: Seq<String>) -> Seq<Seq<char>> {
    s.map_values(|p: String| p@)
}

/// A feed as the contracts see it: its id and its title.
pub open spec fn feed_view(f: Feed) -> (i64, Seq<char>) {
    (f.id, f.title@)
}

/// The feeds of `all` whose title contains one of the patterns, every one of
/// them, in the server's order.
pub open spec fn matching_feeds(all: Seq<Feed>, patterns: Seq<Seq<char>>) -> Seq<(i64, Seq<char>)>
    decreases all.len(),
{
    if all.len() == 0 {
        seq![]
    } else {
        let rest = matching_feeds(all.drop_last(), patterns);
        if title_matches(all.last().title@, patterns) {
            rest.push(feed_view(all.last()))
        } else {
            rest
        }
    }
}

/// A feed is kept when some pattern occurs in its title, any pattern, not
/// just one of them: selection is the server's feed list filtered by "one of
/// the patterns is a substring of the title", in the server's order.
pub proof fn law_feeds_selected_by_any_pattern(all: Seq<Feed>, patterns: Seq<Seq<char>>)
    ensures
        matching_feeds(all, patterns) == all.filter(|f: Feed| exists|j: int| 0 <= j < patterns.len()
            && #[trigger] has_substring(f.title@, patterns[j])).map_values(|f: Feed| (f.id, f.title@)),
        forall|k: int, j: int| 0 <= k < all.len() && 0 <= j < patterns.len()
            && #[trigger] has_substring(all[k].title@, patterns[j])
            ==> matching_feeds(all, patterns).contains((all[k].id, #[trigger] all[k].title@)),
    decreases all.len(),
{
    reveal(Seq::filter);
    if all.len() > 0 {
        law_feeds_selected_by_any_pattern(all.drop_last(), patterns);
        let rest = matching_feeds(all.drop_last(), patterns);
        let pred = |f: Feed| exists|j: int| 0 <= j < patterns.len() && #[trigger] has_substring(f.title@, patterns[j]);
        let fv = |f: Feed| (f.id, f.title@);
        let sub = all.drop_last().filter(pred);
        reveal(Seq::filter);
        assert(all.filter(pred) == if pred(all.last()) { sub.push(all.last()) } else { sub });
        assert(title_matches(all.last().title@, patterns) == pred(all.last()));
        assert(rest == sub.map_values(fv));
        if pred(all.last()) {
            assert(sub.push(all.last()).map_values(fv) =~= sub.map_values(fv).push(fv(all.last())));
        }
        assert(matching_feeds(all, patterns) == all.filter(pred).map_values(fv));
        assert forall|k: int, j: int| 0 <= k < all.len() && 0 <= j < patterns.len()
            && #[trigger] has_substring(all[k].title@, patterns[j])
            implies matching_feeds(all, patterns).contains((all[k].id, #[trigger] all[k].title@)) by {
            if k == all.len() - 1 {
                assert(title_matches(all.last().title@, patterns));
                assert(matching_feeds(all, patterns).last() == (all[k].id, all[k].title@));
            } else {
                assert(all.drop_last()[k] == all[k]);
                assert(has_substring(all.drop_last()[k].title@, patterns[j]));
                assert(rest.contains((all.drop_last()[k].id, all.drop_last()[k].title@)));
                let m = choose|m: int| 0 <= m < rest.len() && rest[m] == (all[k].id, all[k].title@);
                if title_matches(all.last().title@, patterns) {
                    assert(matching_feeds(all, patterns)[m] == rest[m]);
                }
            }
        }
    }
}

/// Where a window starts: at `since` if given, else at the stored last run,
/// else one interval before some instant the clock read.
pub open spec fn window_from(
    since: Option<(i64, u32)>,
    stored: Option<(i64, u32)>,
    interval: Result<(u64, u32), Seq<char>>,
    start: (i64, u32),
) -> bool {
    match since {
        Some(t) => start == t,
        None => match stored {
            Some(t) => start == t,
            None => match interval {
                Ok(d) => exists|now: (i64, u32)| valid_instant(now.0 as int, now.1 as int)
                    && #[trigger] instant_nanos(now.0 as int, now.1 as int) - instant_nanos(d.0 as int, d.1 as int)
                        == instant_nanos(start.0 as int, start.1 as int),
                Err(_) => false,
            },
        },
    }
}

/// The instant a topic was last briefed, as the state records it.
pub open spec fn stored_instant(state: Map<Seq<char>, Seq<char>>, name: Seq<char>) -> Option<(i64, u32)> {
    match stamp_of(state, name) {
        Some(text) => stamp_instant(text),
        None => None,
    }
}

/// A run picks up where the last one stopped: once a topic is stamped with a
/// text that reads as an instant, a run without `--since` starts that topic's
/// window at exactly that instant, whatever its interval, and the stamps of
/// the other topics still decide their own windows.
pub proof fn law_next_window_starts_at_stamp(
    state: Map<Seq<char>, Seq<char>>,
    name: Seq<char>,
    text: Seq<char>,
    other: Seq<char>,
    interval: Result<(u64, u32), Seq<char>>,
    start: (i64, u32),
)
    requires
        stamp_instant(text) is Some,
    ensures
        window_from(None, stored_instant(state.insert(name, text), name), interval, start)
            <==> start == stamp_instant(text)->Some_0,
        other != name ==> stored_instant(state.insert(name, text), other) == stored_instant(state, other),
{
}

/// The view of an optional timestamp.
pub open spec fn opt_view(t: Option<&Timestamp>) -> Option<(i64, u32)> {
    match t {
        Some(x) => Some(x@),
        None => None,
    }
}

/// The view of an optional owned timestamp.
pub open spec fn opt_owned_view(t: Option<Timestamp>) -> Option<(i64, u32)> {
    match t {
        Some(x) => Some(x@),
        None => None,
    }
}

/// Whether a feed title contains one of the patterns.
pub fn matches_any(title: &str, patterns: &[String]) -> (res: bool)
    ensures
        res == title_matches(title@, texts(patterns@)),
{
    let mut j: usize = 0;
    while j < patterns.len()
        invariant
            j <= patterns.len(),
            forall|m: int| 0 <= m < j ==> !has_substring(title@, #[trigger] texts(patterns@)[m]),
        decreases patterns.len() - j,
    {
        if contains(title, patterns[j].as_str()) {
            assert(has_substring(title@, texts(patterns@)[j as int]));
            return true;
        }
        j = j + 1;
    }
    false
}

/// The feeds out of `all` whose title contains one of `patterns`: every
/// matching feed, once, in the server's order.
pub fn select_feeds(all: &[Feed], patterns: &[String]) -> (res: Vec<Feed>)
    ensures
        res@.map_values(|f: Feed| feed_view(f)) == matching_feeds(all@, texts(patterns@)),
{
    let ghost pats = texts(patterns@);
    let mut chosen: Vec<Feed> = Vec::new();
    let mut k: usize = 0;
    while k < all.len()
        invariant
            k <= all.len(),
            pats == texts(patterns@),
            chosen@.map_values(|f: Feed| feed_view(f)) == matching_feeds(all@.take(k as int), pats),
        decreases all.len() - k,
    {
        let ghost before = chosen@.map_values(|f: Feed| feed_view(f));
        assert(all@.take(k + 1).drop_last() =~= all@.take(k as int));
        assert(all@.take(k + 1).last() == all@[k as int]);
        if matches_any(all[k].title.as_str(), patterns) {
            let f = all[k].copy();
            chosen.push(f);
            assert(chosen@.map_values(|f: Feed| feed_view(f)) =~= before.push(feed_view(all@[k as int])));
        }
        k = k + 1;
    }
    assert(all@.take(k as int) =~= all@);
    chosen
}

/// A configured topic, resolved for this run.
#[derive(Debug)]
pub struct Topic {
    /// Start of the window: entries published after this are read.
    pub last_run: Timestamp,
    /// Feeds matching this topic, one per title.
    pub feeds: Vec<Feed>,
    /// The question put to the model.
    pub question: String,
    /// The topic's name, as in the config and the state file.
    pub name: String,
}

/// Where the window of a topic starts: at `since` if given, else where the
/// last run left off, else one `interval` before now.
///
/// # Errors
///
/// [`Error::IntervalParsing`] when the interval is needed and does not parse;
/// [`Error::TimeOutOfRange`] when the clock or the start falls outside the
/// years 0000 to 9999.
pub fn window_start(since: Option<&Timestamp>, stored: Option<Timestamp>, topic: &config::Topic) -> (res: Result<Timestamp, Error>)
    ensures
        res matches Ok(t) ==> window_from(opt_view(since), opt_owned_view(stored), parsed_duration(topic.interval@), t@),
        since is Some || stored is Some ==> res is Ok,
        res matches Err(e) ==> since is None && stored is None && (
            (e is IntervalParsing && parsed_duration(topic.interval@) is Err) || e is TimeOutOfRange),
        since is None && stored is None && parsed_duration(topic.interval@) is Err ==> (res matches Err(Error::IntervalParsing(m))
            && parsed_duration(topic.interval@) == Err::<(u64, u32), Seq<char>>(m@)),
{
    if let Some(t) = since {
        return Ok(t.copy());
    }
    if let Some(t) = stored {
        return Ok(t);
    }
    let (secs, nanos) = topic.get_interval()?;
    let now = match Timestamp::now() {
        Some(n) => n,
        None => return Err(Error::TimeOutOfRange),
    };
    now.witness_valid();
    match now.minus(secs, nanos) {
        Some(start) => {
            assert(instant_nanos(now@.0 as int, now@.1 as int) - instant_nanos(secs as int, nanos as int)
                == instant_nanos(start@.0 as int, start@.1 as int));
            Ok(start)
        },
        None => Err(Error::TimeOutOfRange),
    }
}

/// Every configured topic's interval parses.
pub open spec fn intervals_parse(cfg: Seq<NamedTopic>) -> bool {
    forall|i: int| 0 <= i < cfg.len() ==> #[trigger] parsed_duration(cfg[i].topic.interval@) is Ok
}

/// The topics as this run reads them, one per configured topic and in the
/// same order.
pub open spec fn topics_resolved(
    cfg: Seq<NamedTopic>,
    since: Option<(i64, u32)>,
    state: Map<Seq<char>, Seq<char>>,
    feeds: Seq<Feed>,
    topics: Seq<Topic>,
) -> bool {
    &&& topics.len() == cfg.len()
    &&& forall|i: int| 0 <= i < cfg.len() ==> {
        &&& (#[trigger] topics[i]).name@ == cfg[i].name@
        &&& topics[i].question@ == cfg[i].topic.question@
        &&& topics[i].feeds@.map_values(|f: Feed| feed_view(f)) == matching_feeds(feeds, texts(cfg[i].topic.feeds@))
        &&& window_from(since, stored_instant(state, cfg[i].name@), parsed_duration(cfg[i].topic.interval@), topics[i].last_run@)
    }
}

impl Topic {
    /// Resolves every configured topic against the server's feeds and the
    /// state file.
    ///
    /// The window starts at `since` if given, else where the last run left
    /// off, else one `interval` ago.
    ///
    /// # Errors
    ///
    /// [`Error::IntervalParsing`] if a topic's `interval` does not parse,
    /// whether or not it is needed; [`Error::TimeOutOfRange`] if the window
    /// of a topic that needs its interval falls outside the years 0000 to
    /// 9999.
    pub fn new(cfg_topics: &[NamedTopic], since: Option<&Timestamp>, state: &State, feeds: &[Feed]) -> (res: Result<Vec<Topic>, Error>)
        ensures
            res matches Ok(ts) ==> topics_resolved(cfg_topics@, opt_view(since), state@, feeds@, ts@),
            res is Ok ==> intervals_parse(cfg_topics@),
            !intervals_parse(cfg_topics@) ==> (res matches Err(Error::IntervalParsing(m)) && exists|i: int|
                0 <= i < cfg_topics@.len() && #[trigger] parsed_duration(cfg_topics@[i].topic.interval@)
                    == Err::<(u64, u32), Seq<char>>(m@)),
            intervals_parse(cfg_topics@) && since is Some ==> res is Ok,
            intervals_parse(cfg_topics@) && (forall|i: int| 0 <= i < cfg_topics@.len()
                ==> #[trigger] stored_instant(state@, cfg_topics@[i].name@) is Some) ==> res is Ok,
            intervals_parse(cfg_topics@) ==> (res matches Err(e) ==> (e is TimeOutOfRange && since is None
                && exists|i: int| 0 <= i < cfg_topics@.len() && #[trigger] stored_instant(state@, cfg_topics@[i].name@) is None)),
    {
        let mut k: usize = 0;
        while k < cfg_topics.len()
            invariant
                k <= cfg_topics.len(),
                forall|j: int| 0 <= j < k ==> #[trigger] parsed_duration(cfg_topics@[j].topic.interval@) is Ok,
            decreases cfg_topics.len() - k,
        {
            match cfg_topics[k].topic.get_interval() {
                Ok(_) => {},
                Err(e) => {
                    return Err(e);
                },
            }
            k = k + 1;
        }
        let mut topics: Vec<Topic> = Vec::new();
        let mut i: usize = 0;
        while i < cfg_topics.len()
            invariant
                i <= cfg_topics.len(),
                intervals_parse(cfg_topics@),
                topics_resolved(cfg_topics@.take(i as int), opt_view(since), state@, feeds@, topics@),
            decreases cfg_topics.len() - i,
        {
            let cfg = &cfg_topics[i];
            let stored = state.get_last_run(cfg.name.as_str());
            let last_run = match window_start(since, stored, &cfg.topic) {
                Ok(t) => t,
                Err(e) => {
                    assert(stored_instant(state@, cfg_topics@[i as int].name@) is None);
                    return Err(e);
                },
            };
            let topic = Topic {
                last_run,
                feeds: select_feeds(feeds, cfg.topic.feeds.as_slice()),
                question: cfg.topic.question.clone(),
                name: cfg.name.clone(),
            };
            let ghost before = topics@;
            topics.push(topic);
            assert forall|j: int| 0 <= j < i + 1 implies {
                &&& (#[trigger] topics@[j]).name@ == cfg_topics@.take(i + 1)[j].name@
                &&& topics@[j].question@ == cfg_topics@.take(i + 1)[j].topic.question@
                &&& topics@[j].feeds@.map_values(|f: Feed| feed_view(f)) == matching_feeds(feeds@, texts(cfg_topics@.take(i + 1)[j].topic.feeds@))
                &&& window_from(opt_view(since), stored_instant(state@, cfg_topics@.take(i + 1)[j].name@), parsed_duration(cfg_topics@.take(i + 1)[j].topic.interval@), topics@[j].last_run@)
            } by {
                if j < i {
                    assert(topics@[j] == before[j]);
                    assert(cfg_topics@.take(i + 1)[j] == cfg_topics@.take(i as int)[j]);
                }
            }
            i = i + 1;
        }
        assert(cfg_topics@.take(i as int) =~= cfg_topics@);
        Ok(topics)
    }

    /// Start of this run's window.
    pub fn get_last_run(&self) -> (res: &Timestamp)
        ensures
            res@ == self.last_run@,
    {
        &self.last_run
    }

    /// The feeds this topic reads.
    pub fn get_feeds(&self) -> (res: &[Feed])
        ensures
            res@ == self.feeds@,
    {
        self.feeds.as_slice()
    }

    /// The question put to the model.
    pub fn get_question(&self) -> (res: &str)
        ensures
            res@ == self.question@,
    {
        self.question.as_str()
    }

    /// The topic's name.
    pub fn get_name(&self) -> (res: &str)
        ensures
            res@ == self.name@,
    {
        self.name.as_str()
    }
}

} // verus!
