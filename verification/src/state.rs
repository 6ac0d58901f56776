//! Last-run timestamps, kept between runs, one per topic.

use vstd::prelude::*;

use crate::error::Error;
use crate::time::{parsed_datetime, rfc3339_text, valid_instant, Timestamp};

verus! {

/// What `toml` makes of a datetime text: `Datetime::from_str` then
/// `Datetime`'s display, or the parse error's message.
pub uninterp spec fn toml_datetime_text(text: Seq<char>) -> Result<Seq<char>, Seq<char>>;

/// Reads `text` as a TOML datetime (`toml::value::Datetime::from_str`) and
/// writes it back (`Display`). Claimed: the outcome is the one named by
/// `toml_datetime_text`.
#[verifier::external_body]
fn toml_datetime(text: &str) -> (res: Result<String, String>)
    ensures
        res is Ok ==> toml_datetime_text(text@) == Ok::<Seq<char>, Seq<char>>(res->Ok_0@),
        res is Err ==> toml_datetime_text(text@) == Err::<Seq<char>, Seq<char>>(res->Err_0@),
{
    match text.parse::<toml::value::Datetime>() {
        Ok(d) => Ok(d.to_string()),
        Err(e) => Err(e.to_string()),
    }
}

/// One topic's last run, as the state file writes it.
#[derive(Debug)]
pub struct Stamp {
    /// The topic's name.
    pub topic: String,
    /// When it was last briefed, as TOML datetime text.
    pub last_run: String,
}

/// The stamps as a map, later entries overriding earlier ones.
pub open spec fn stamp_map(s: Seq<(Seq<char>, Seq<char>)>) -> Map<Seq<char>, Seq<char>>
    decreases s.len(),
{
    if s.len() == 0 {
        Map::empty()
    } else {
        stamp_map(s.drop_last()).insert(s.last().0, s.last().1)
    }
}

/// The stamps as pairs of texts.
pub open spec fn stamp_pairs(s: Seq<Stamp>) -> Seq<(Seq<char>, Seq<char>)> {
    s.map_values(|x: Stamp| (x.topic@, x.last_run@))
}

/// No topic is stamped twice.
pub open spec fn distinct_topics(s: Seq<(Seq<char>, Seq<char>)>) -> bool {
    forall|i: int, j: int| 0 <= i < j < s.len() ==> s[i].0 != s[j].0
}

/// The stamp of `topic` in `m`, if any.
pub open spec fn stamp_of(m: Map<Seq<char>, Seq<char>>, topic: Seq<char>) -> Option<Seq<char>> {
    if m.contains_key(topic) {
        Some(m[topic])
    } else {
        None
    }
}

/// The instant a stamp text stands for, when `chrono` reads it and it is one
/// this library handles.
pub open spec fn stamp_instant(text: Seq<char>) -> Option<(i64, u32)> {
    match parsed_datetime(text) {
        Some((s, n)) => if valid_instant(s as int, n as int) {
            Some((s, n))
        } else {
            None
        },
        None => None,
    }
}

/// With distinct topics, each pair's value is what the map holds for it.
pub proof fn lemma_stamp_map_at(s: Seq<(Seq<char>, Seq<char>)>, i: int)
    requires
        distinct_topics(s),
        0 <= i < s.len(),
    ensures
        stamp_map(s).contains_key(s[i].0),
        stamp_map(s)[s[i].0] == s[i].1,
    decreases s.len(),
{
    if i < s.len() - 1 {
        lemma_stamp_map_at(s.drop_last(), i);
    }
}

/// A topic no pair names is not in the map.
pub proof fn lemma_stamp_map_absent(s: Seq<(Seq<char>, Seq<char>)>, k: Seq<char>)
    requires
        forall|i: int| 0 <= i < s.len() ==> s[i].0 != k,
    ensures
        !stamp_map(s).contains_key(k),
    decreases s.len(),
{
    if s.len() > 0 {
        lemma_stamp_map_absent(s.drop_last(), k);
    }
}

/// Overwriting the pair at `i` overwrites that topic in the map.
pub proof fn lemma_stamp_map_update(s: Seq<(Seq<char>, Seq<char>)>, i: int, v: Seq<char>)
    requires
        distinct_topics(s),
        0 <= i < s.len(),
    ensures
        stamp_map(s.update(i, (s[i].0, v))) =~= stamp_map(s).insert(s[i].0, v),
    decreases s.len(),
{
    let t = s.update(i, (s[i].0, v));
    if i == s.len() - 1 {
        assert(t.drop_last() =~= s.drop_last());
    } else {
        assert(t.drop_last() =~= s.drop_last().update(i, (s[i].0, v)));
        lemma_stamp_map_update(s.drop_last(), i, v);
    }
}

/// What a run stamps is what the next run reads back: after `topic` is
/// stamped with `text`, its stamp is `text`, and every other topic keeps its
/// own.
pub proof fn law_stamp_read_back(before: Map<Seq<char>, Seq<char>>, topic: Seq<char>, text: Seq<char>, other: Seq<char>)
    ensures
        stamp_of(before.insert(topic, text), topic) == Some(text),
        other != topic ==> stamp_of(before.insert(topic, text), other) == stamp_of(before, other),
{
}

/// The state file's contents: per-topic last runs, topics distinct.
#[derive(Debug)]
pub struct State {
    stamps: Vec<Stamp>,
}

impl View for State {
    type V = Map<Seq<char>, Seq<char>>;

    closed spec fn view(&self) -> Map<Seq<char>, Seq<char>> {
        stamp_map(stamp_pairs(self.stamps@))
    }
}

impl State {
    #[verifier::type_invariant]
    closed spec fn inv(self) -> bool {
        distinct_topics(stamp_pairs(self.stamps@))
    }

    /// A state in which no topic was ever briefed: the first run, or a state
    /// file that is missing or unreadable.
    pub fn new() -> (res: State)
        ensures
            res@ == Map::<Seq<char>, Seq<char>>::empty(),
    {
        let res = State { stamps: Vec::new() };
        assert(stamp_pairs(res.stamps@) =~= Seq::<(Seq<char>, Seq<char>)>::empty());
        res
    }

    /// The stamp of `topic`, if it has one.
    pub fn stamp(&self, topic: &str) -> (res: Option<String>)
        ensures
            res matches Some(t) ==> stamp_of(self@, topic@) == Some(t@),
            res is None ==> stamp_of(self@, topic@) is None,
    {
        proof {
            use_type_invariant(self);
        }
        let ghost pairs = stamp_pairs(self.stamps@);
        let mut i: usize = 0;
        while i < self.stamps.len()
            invariant
                i <= self.stamps.len(),
                pairs == stamp_pairs(self.stamps@),
                distinct_topics(pairs),
                forall|k: int| 0 <= k < i ==> pairs[k].0 != topic@,
            decreases self.stamps.len() - i,
        {
            if self.stamps[i].topic == String::from_str(topic) {
                proof {
                    lemma_stamp_map_at(pairs, i as int);
                }
                return Some(self.stamps[i].last_run.clone());
            }
            i = i + 1;
        }
        proof {
            lemma_stamp_map_absent(pairs, topic@);
        }
        None
    }

    /// Stamps `topic` with `last_run`, replacing any stamp it had.
    pub fn insert_stamp(&mut self, topic: String, last_run: String)
        ensures
            final(self)@ == old(self)@.insert(topic@, last_run@),
    {
        proof {
            use_type_invariant(&*self);
        }
        let mut stamps: Vec<Stamp> = Vec::new();
        std::mem::swap(&mut stamps, &mut self.stamps);
        let ghost pairs = stamp_pairs(stamps@);
        assert(pairs == stamp_pairs(old(self).stamps@));
        let ghost t = topic@;
        let mut i: usize = 0;
        while i < stamps.len()
            invariant
                i <= stamps.len(),
                t == topic@,
                pairs == stamp_pairs(stamps@),
                pairs == stamp_pairs(old(self).stamps@),
                distinct_topics(pairs),
                forall|k: int| 0 <= k < i ==> pairs[k].0 != topic@,
            decreases stamps.len() - i,
        {
            if stamps[i].topic == topic {
                assert(pairs[i as int].0 == t);
                proof {
                    lemma_stamp_map_update(pairs, i as int, last_run@);
                }
                let ghost v = last_run@;
                stamps.set(i, Stamp { topic, last_run });
                assert(stamp_pairs(stamps@) =~= pairs.update(i as int, (pairs[i as int].0, v)));
                self.stamps = stamps;
                return;
            }
            i = i + 1;
        }
        let ghost v = last_run@;
        stamps.push(Stamp { topic, last_run });
        assert(stamp_pairs(stamps@) =~= pairs.push((t, v)));
        assert(stamp_pairs(stamps@).drop_last() =~= pairs);
        self.stamps = stamps;
    }

    /// Every stamp, topics distinct, for writing the state back.
    pub fn stamps(&self) -> (res: Vec<(String, String)>)
        ensures
            distinct_topics(res@.map_values(|p: (String, String)| (p.0@, p.1@))),
            stamp_map(res@.map_values(|p: (String, String)| (p.0@, p.1@))) == self@,
    {
        proof {
            use_type_invariant(self);
        }
        let mut out: Vec<(String, String)> = Vec::new();
        let mut i: usize = 0;
        while i < self.stamps.len()
            invariant
                i <= self.stamps.len(),
                out@.map_values(|p: (String, String)| (p.0@, p.1@)) == stamp_pairs(self.stamps@).take(i as int),
            decreases self.stamps.len() - i,
        {
            let ghost prev = out@.map_values(|p: (String, String)| (p.0@, p.1@));
            out.push((self.stamps[i].topic.clone(), self.stamps[i].last_run.clone()));
            assert(out@.map_values(|p: (String, String)| (p.0@, p.1@)) =~= prev.push(stamp_pairs(self.stamps@)[i as int]));
            i = i + 1;
            assert(out@.map_values(|p: (String, String)| (p.0@, p.1@)) =~= stamp_pairs(self.stamps@).take(i as int));
        }
        assert(stamp_pairs(self.stamps@).take(i as int) =~= stamp_pairs(self.stamps@));
        out
    }

    /// When `name` was last briefed, or [`None`] if it never was, or its
    /// stamp does not read as an instant.
    pub fn get_last_run(&self, name: &str) -> (res: Option<Timestamp>)
        ensures
            res matches Some(t) ==> (stamp_of(self@, name@) matches Some(text) && stamp_instant(text) == Some(t@)),
            res is None ==> (stamp_of(self@, name@) matches Some(text) ==> stamp_instant(text) is None),
    {
        match self.stamp(name) {
            Some(text) => Timestamp::parse(text.as_str()),
            None => None,
        }
    }

    /// Marks `name` as briefed up to now: the current time, written in RFC
    /// 3339 and read back as a TOML datetime, becomes its stamp.
    ///
    /// # Errors
    ///
    /// [`Error::TimeOutOfRange`] if the clock reads outside years 0000 to
    /// 9999, [`Error::TomlDateParsing`] if the timestamp does not parse as a
    /// TOML datetime; the state is then unchanged.
    pub fn set_last_run(&mut self, name: &str) -> (res: Result<(), Error>)
        ensures
            res is Ok ==> exists|now: (i64, u32)| {
                &&& valid_instant(now.0 as int, now.1 as int) && now.0 >= 0
                &&& #[trigger] toml_datetime_text(rfc3339_text(now.0, now.1)) is Ok
                &&& final(self)@ == old(self)@.insert(name@, toml_datetime_text(rfc3339_text(now.0, now.1))->Ok_0)
            },
            res is Err ==> final(self)@ == old(self)@,
            res matches Err(e) ==> (e is TimeOutOfRange || e is TomlDateParsing),
            res matches Err(Error::TomlDateParsing(m)) ==> exists|now: (i64, u32)| {
                &&& valid_instant(now.0 as int, now.1 as int) && now.0 >= 0
                &&& #[trigger] toml_datetime_text(rfc3339_text(now.0, now.1)) == Err::<Seq<char>, Seq<char>>(m@)
            },
    {
        let now = match Timestamp::now() {
            Some(t) => t,
            None => return Err(Error::TimeOutOfRange),
        };
        now.witness_valid();
        self.stamp_at(name, &now)
    }

    /// Stamps `name` with the instant `now`: written in RFC 3339 and read
    /// back as a TOML datetime, it becomes the topic's stamp.
    ///
    /// # Errors
    ///
    /// [`Error::TomlDateParsing`], with the parser's message, if the
    /// timestamp does not parse as a TOML datetime; the state is then
    /// unchanged.
    pub fn stamp_at(&mut self, name: &str, now: &Timestamp) -> (res: Result<(), Error>)
        ensures
            res is Ok <==> toml_datetime_text(rfc3339_text(now@.0, now@.1)) is Ok,
            res is Ok ==> final(self)@ == old(self)@.insert(name@, toml_datetime_text(rfc3339_text(now@.0, now@.1))->Ok_0),
            res matches Err(e) ==> e is TomlDateParsing && final(self)@ == old(self)@,
            res matches Err(Error::TomlDateParsing(m)) ==> toml_datetime_text(rfc3339_text(now@.0, now@.1))
                == Err::<Seq<char>, Seq<char>>(m@),
    {
        let text = now.to_rfc3339();
        match toml_datetime(text.as_str()) {
            Ok(stamp) => {
                self.insert_stamp(String::from_str(name), stamp);
                Ok(())
            },
            Err(m) => Err(Error::TomlDateParsing(m)),
        }
    }
}

} // verus!
