use vstd::prelude::*;
use vstd::string::*;
use crate::extract::{cell_query, extract, extraction, heading_query, Field, ScrapeError};
use crate::json::{encode_record, serialize};
use crate::page::{lemma_found_exact, find, found, Page, Pred, PredView, Query, QueryView};

verus! {

/// The fixed settings of a run.
pub struct Config {
    /// The listing page that names every item.
    pub listing_url: String,
    /// The origin that relative links are resolved against.
    pub origin: String,
    /// The pause after each emitted record, in seconds.
    pub pace_secs: u64,
}

impl Config {
    /// The settings for the national pokedex listing.
    pub fn standard() -> (r: Config)
        ensures
            r.listing_url@ == "https://pokemondb.net/pokedex/national"@,
            r.origin@ == "https://pokemondb.net"@,
            r.pace_secs == 1,
    {
        Config {
            listing_url: String::from_str("https://pokemondb.net/pokedex/national"),
            origin: String::from_str("https://pokemondb.net"),
            pace_secs: 1,
        }
    }
}

/// Where a run stands.
#[derive(Clone, Copy, Debug, PartialEq, Eq, Structural)]
pub enum Phase {
    /// Waiting for the listing page.
    Listing,
    /// Waiting for the detail page of the current link.
    Detail,
    /// The current link's record has been handed out for emission.
    Emitted,
    /// Pausing before the next link.
    Pacing,
    /// Every link has been processed.
    Done,
    /// The run stopped on an error.
    Failed,
}

/// What the driver of a run is asked to do next.
#[derive(Debug, PartialEq)]
pub enum Action {
    /// Fetch and parse the page at this address.
    Fetch(String),
    /// Hand this encoded record to the output sink.
    Emit(String),
    /// Pause for this many seconds.
    Pace(u64),
    /// The run is complete.
    Finish,
    /// The run stopped on this error.
    Fail(ScrapeError),
    /// Nothing: the event does not fit the run's phase.
    Idle,
}

pub enum ActionView {
    Fetch(Seq<char>),
    Emit(Seq<char>),
    Pace(u64),
    Finish,
    Fail(ScrapeError),
    Idle,
}

impl View for Action {
    type V = ActionView;

    open spec fn view(&self) -> ActionView {
        match self {
            Action::Fetch(u) => ActionView::Fetch(u@),
            Action::Emit(l) => ActionView::Emit(l@),
            Action::Pace(s) => ActionView::Pace(*s),
            Action::Finish => ActionView::Finish,
            Action::Fail(e) => ActionView::Fail(*e),
            Action::Idle => ActionView::Idle,
        }
    }
}

/// What the driver reports back after carrying out an action.
pub enum Event {
    /// The requested page was fetched and parsed.
    Fetched(Page),
    /// Fetching or parsing the requested page failed.
    Failed(ScrapeError),
    /// An emission or a pause is complete.
    Done,
}

/// The progress of one run.
pub struct Run {
    pub phase: Phase,
    /// The links read from the listing page, in document order.
    pub links: Vec<String>,
    /// The index of the current link.
    pub next: usize,
    /// How many records have been handed out for emission.
    pub emitted: usize,
}

pub struct RunView {
    pub phase: Phase,
    pub links: Seq<Seq<char>>,
    pub next: int,
    pub emitted: int,
}

impl View for Run {
    type V = RunView;

    open spec fn view(&self) -> RunView {
        RunView {
            phase: self.phase,
            links: self.links@.map_values(|l: String| l@),
            next: self.next as int,
            emitted: self.emitted as int,
        }
    }
}

/// The entries of a listing page.
pub open spec fn entry_query() -> QueryView {
    QueryView::Is(PredView::Class("ent-name"@))
}

/// The links of a listing page, in document order; `None` when an entry carries
/// no link.
pub open spec fn all_linked(page: Page, ix: Seq<usize>) -> bool {
    forall|k: int| 0 <= k < ix.len() ==> (#[trigger] page.nodes@[ix[k] as int]).href is Some
}

pub open spec fn listing_links(page: Page) -> Option<Seq<Seq<char>>> {
    let ix = found(page, entry_query());
    if all_linked(page, ix) {
        Some(ix.map_values(|i: usize| page.nodes@[i as int].href->Some_0@))
    } else {
        None
    }
}

pub open spec fn has_prefix(s: Seq<char>, p: Seq<char>) -> bool {
    p.len() <= s.len() && s.take(p.len() as int) == p
}

/// A link that names its own scheme is absolute.
pub open spec fn is_absolute(link: Seq<char>) -> bool {
    has_prefix(link, "http://"@) || has_prefix(link, "https://"@)
}

/// A link made absolute: an absolute link stands as it is, any other is
/// appended to the origin.
pub open spec fn resolve(origin: Seq<char>, link: Seq<char>) -> Seq<char> {
    if is_absolute(link) {
        link
    } else {
        origin + link
    }
}

/// Whether `s` starts with `p`.
pub fn starts_with(s: &str, p: &str) -> (r: bool)
    ensures
        r == has_prefix(s@, p@),
{
    let n = p.unicode_len();
    if n > s.unicode_len() {
        return false;
    }
    let mut k: usize = 0;
    while k < n
        invariant
            n == p@.len(),
            n <= s@.len(),
            k <= n,
            forall|m: int| 0 <= m < k ==> s@[m] == p@[m],
        decreases n - k,
    {
        if s.get_char(k) != p.get_char(k) {
            assert(s@.take(n as int)[k as int] != p@[k as int]);
            return false;
        }
        k = k + 1;
    }
    assert(s@.take(n as int) =~= p@);
    true
}

impl RunView {
    /// Records are handed out one per link, in link order: before the current
    /// link's record goes out, one record has gone out for each earlier link.
    pub open spec fn inv(self) -> bool {
        &&& 0 <= self.next <= self.links.len()
        &&& match self.phase {
            Phase::Listing => self.next == 0 && self.emitted == 0 && self.links.len() == 0,
            Phase::Detail => self.next < self.links.len() && self.emitted == self.next,
            Phase::Emitted | Phase::Pacing => self.next < self.links.len() && self.emitted
                == self.next + 1,
            Phase::Done => self.next == self.links.len() && self.emitted == self.links.len(),
            Phase::Failed => self.emitted <= self.next,
        }
    }

    /// The action that fetches the current link's detail page.
    pub open spec fn fetch_current(self, cfg: Config) -> ActionView {
        ActionView::Fetch(resolve(cfg.origin@, self.links[self.next]))
    }
}

/// One step of a run: the new state and the action that follow from the old
/// state and the event.
pub open spec fn step_rel(s: RunView, cfg: Config, e: Event, t: RunView, a: ActionView) -> bool {
    let fail = |err: ScrapeError|
        t == RunView { phase: Phase::Failed, ..s } && a == ActionView::Fail(err);
    match (s.phase, e) {
        (Phase::Listing, Event::Fetched(page)) => match listing_links(page) {
            None => fail(ScrapeError::MissingLink),
            Some(ls) => if ls.len() == 0 {
                t == RunView { phase: Phase::Done, links: ls, ..s } && a == ActionView::Finish
            } else {
                t == RunView { phase: Phase::Detail, links: ls, ..s } && a == t.fetch_current(
                    cfg,
                )
            },
        },
        (Phase::Listing, Event::Failed(err)) => fail(err),
        (Phase::Detail, Event::Fetched(page)) => match extraction(page) {
            Err(f) => fail(ScrapeError::MissingField(f)),
            Ok(rec) => t == RunView { phase: Phase::Emitted, emitted: s.emitted + 1, ..s } && a
                == ActionView::Emit(encode_record(rec)),
        },
        (Phase::Detail, Event::Failed(err)) => fail(err),
        (Phase::Emitted, Event::Done) => t == RunView { phase: Phase::Pacing, ..s } && a
            == ActionView::Pace(cfg.pace_secs),
        (Phase::Pacing, Event::Done) => if s.next + 1 < s.links.len() {
            t == RunView { phase: Phase::Detail, next: s.next + 1, ..s } && a == t.fetch_current(
                cfg,
            )
        } else {
            t == RunView { phase: Phase::Done, next: s.next + 1, ..s } && a == ActionView::Finish
        },
        _ => t == s && a == ActionView::Idle,
    }
}

impl Run {
    /// A run that is about to fetch the listing page.
    pub fn start(cfg: &Config) -> (r: (Run, Action))
        ensures
            r.0@ == (RunView { phase: Phase::Listing, links: seq![], next: 0, emitted: 0 }),
            r.1@ == ActionView::Fetch(cfg.listing_url@),
    {
        let run = Run { phase: Phase::Listing, links: Vec::new(), next: 0, emitted: 0 };
        assert(run@.links =~= seq![]);
        (run, Action::Fetch(cfg.listing_url.clone()))
    }

    /// Advances the run by one event.
    pub fn step(&mut self, cfg: &Config, event: Event) -> (a: Action)
        requires
            old(self)@.inv(),
        ensures
            final(self)@.inv(),
            step_rel(old(self)@, *cfg, event, final(self)@, a@),
    {
        match (self.phase, event) {
            (Phase::Listing, Event::Fetched(page)) => match links_of(&page) {
                None => {
                    self.phase = Phase::Failed;
                    Action::Fail(ScrapeError::MissingLink)
                },
                Some(ls) => {
                    self.links = ls;
                    if self.links.len() == 0 {
                        self.phase = Phase::Done;
                        Action::Finish
                    } else {
                        self.phase = Phase::Detail;
                        self.fetch_current(cfg)
                    }
                },
            },
            (Phase::Listing, Event::Failed(err)) | (Phase::Detail, Event::Failed(err)) => {
                self.phase = Phase::Failed;
                Action::Fail(err)
            },
            (Phase::Detail, Event::Fetched(page)) => match extract(&page) {
                Err(err) => {
                    self.phase = Phase::Failed;
                    Action::Fail(err)
                },
                Ok(rec) => match serialize(&rec) {
                    Err(err) => {
                        self.phase = Phase::Failed;
                        Action::Fail(err)
                    },
                    Ok(line) => {
                        // the count of links bounds the count of records
                        assert(self.emitted < self.links.len());
                        self.phase = Phase::Emitted;
                        self.emitted = self.emitted + 1;
                        Action::Emit(line)
                    },
                },
            },
            (Phase::Emitted, Event::Done) => {
                self.phase = Phase::Pacing;
                Action::Pace(cfg.pace_secs)
            },
            (Phase::Pacing, Event::Done) => {
                self.next = self.next + 1;
                if self.next < self.links.len() {
                    self.phase = Phase::Detail;
                    self.fetch_current(cfg)
                } else {
                    self.phase = Phase::Done;
                    Action::Finish
                }
            },
            _ => Action::Idle,
        }
    }

    fn fetch_current(&self, cfg: &Config) -> (a: Action)
        requires
            self.next < self.links@.len(),
        ensures
            a@ == self@.fetch_current(*cfg),
    {
        let link = self.links[self.next].as_str();
        if starts_with(link, "http://") || starts_with(link, "https://") {
            return Action::Fetch(link.to_string());
        }
        let mut url = cfg.origin.clone();
        url.append(link);
        Action::Fetch(url)
    }
}

/// Reads the links of a listing page.
pub fn links_of(page: &Page) -> (r: Option<Vec<String>>)
    ensures
        match listing_links(*page) {
            None => r is None,
            Some(ls) => r matches Some(v) && v@.map_values(|l: String| l@) == ls,
        },
{
    let count: usize = page.nodes.len();
    proof {
        lemma_found_exact(*page, entry_query(), count as int);
    }
    let ix = find(page, &Query::Is(Pred::Class(String::from_str("ent-name"))));
    let ghost spec_ix = found(*page, entry_query());
    let mut out: Vec<String> = Vec::new();
    let mut k: usize = 0;
    while k < ix.len()
        invariant
            ix@ == spec_ix,
            spec_ix == found(*page, entry_query()),
            forall|m: int| 0 <= m < ix@.len() ==> ix@[m] < page.len(),
            k <= ix@.len(),
            out@.len() == k,
            forall|m: int| 0 <= m < k ==> (#[trigger] page.nodes@[ix@[m] as int]).href is Some,
            forall|m: int|
                0 <= m < k ==> #[trigger] out@[m]@ == page.nodes@[ix@[m] as int].href->Some_0@,
        decreases ix@.len() - k,
    {
        match &page.nodes[ix[k]].href {
            Some(h) => out.push(h.clone()),
            None => {
                assert(page.nodes@[spec_ix[k as int] as int].href is None);
                assert(!all_linked(*page, spec_ix));
                return None;
            },
        }
        k = k + 1;
    }
    assert(out@.map_values(|l: String| l@) =~= spec_ix.map_values(
        |i: usize| page.nodes@[i as int].href->Some_0@,
    ));
    Some(out)
}

/// A record is handed out only for the page of the current link, and it is the
/// record of that link: as many records have gone out before it as there are
/// earlier links.
pub proof fn lemma_emit_for_current_link(
    s: RunView,
    cfg: Config,
    e: Event,
    t: RunView,
    a: ActionView,
)
    requires
        s.inv(),
        step_rel(s, cfg, e, t, a),
        a is Emit,
    ensures
        s.phase == Phase::Detail,
        s.emitted == s.next,
        t.emitted == s.emitted + 1,
        t.next == s.next,
        t.links == s.links,
        e matches Event::Fetched(page) && extraction(page) matches Ok(rec) && a == ActionView::Emit(
            encode_record(rec),
        ),
{
}


/// A detail page other than the first is requested only once the pause after
/// the previous record is over, and the pause requested is the configured one.
pub proof fn lemma_fetch_after_pause(s: RunView, cfg: Config, e: Event, t: RunView, a: ActionView)
    requires
        s.inv(),
        step_rel(s, cfg, e, t, a),
        a is Fetch,
        s.phase != Phase::Listing,
    ensures
        s.phase == Phase::Pacing,
        e is Done,
        t.next == s.next + 1,
{
}

/// After a record is handed out, the next request is the configured pause.
pub proof fn lemma_pause_after_emit(s: RunView, cfg: Config, e: Event, t: RunView, a: ActionView)
    requires
        s.inv(),
        s.phase == Phase::Emitted,
        step_rel(s, cfg, e, t, a),
        e is Done,
    ensures
        a == ActionView::Pace(cfg.pace_secs),
        t.phase == Phase::Pacing,
{
}


/// How many of the actions hand out a record.
pub open spec fn emit_count(acts: Seq<ActionView>) -> int
    decreases acts.len(),
{
    if acts.len() == 0 {
        0
    } else {
        emit_count(acts.drop_last()) + if acts.last() is Emit {
            1int
        } else {
            0int
        }
    }
}

/// `states[i + 1]` and `acts[i]` follow from `states[i]` and `events[i]`,
/// starting from a fresh run.
pub open spec fn is_trace(
    cfg: Config,
    states: Seq<RunView>,
    events: Seq<Event>,
    acts: Seq<ActionView>,
) -> bool {
    &&& states.len() == events.len() + 1
    &&& acts.len() == events.len()
    &&& states[0] == RunView { phase: Phase::Listing, links: seq![], next: 0, emitted: 0 }
    &&& forall|i: int|
        0 <= i < events.len() ==> #[trigger] step_rel(
            states[i],
            cfg,
            events[i],
            states[i + 1],
            acts[i],
        )
}

/// Every step keeps the invariant of a run.
pub proof fn lemma_step_keeps_inv(s: RunView, cfg: Config, e: Event, t: RunView, a: ActionView)
    requires
        s.inv(),
        step_rel(s, cfg, e, t, a),
    ensures
        t.inv(),
{
}

proof fn lemma_trace_prefix(
    cfg: Config,
    states: Seq<RunView>,
    events: Seq<Event>,
    acts: Seq<ActionView>,
    i: int,
)
    requires
        is_trace(cfg, states, events, acts),
        0 <= i <= events.len(),
    ensures
        states[i].inv(),
        states[i].emitted == emit_count(acts.take(i)),
    decreases i,
{
    if i > 0 {
        lemma_trace_prefix(cfg, states, events, acts, i - 1);
        let j = i - 1;
        assert(step_rel(states[j], cfg, events[j], states[j + 1], acts[j]));
        lemma_step_keeps_inv(states[j], cfg, events[j], states[j + 1], acts[j]);
        assert(acts.take(i).drop_last() =~= acts.take(i - 1));
    } else {
        assert(acts.take(0) =~= seq![]);
    }
}

/// A run that finishes hands out exactly one record per link of the listing
/// page, in link order: the record handed out at step `i` is the one for the
/// link whose index is the number of records handed out before it, read from
/// the page fetched for that link.
pub proof fn lemma_run_emits_one_per_link(
    cfg: Config,
    states: Seq<RunView>,
    events: Seq<Event>,
    acts: Seq<ActionView>,
)
    requires
        is_trace(cfg, states, events, acts),
        states.last().phase == Phase::Done,
    ensures
        emit_count(acts) == states.last().links.len(),
        forall|i: int|
            0 <= i < acts.len() && #[trigger] acts[i] is Emit ==> states[i].next == emit_count(
                acts.take(i),
            ) && states[i].phase == Phase::Detail,
{
    let m = events.len() as int;
    lemma_trace_prefix(cfg, states, events, acts, m);
    assert(acts.take(m) =~= acts);
    assert forall|i: int| 0 <= i < acts.len() && #[trigger] acts[i] is Emit implies states[i].next
        == emit_count(acts.take(i)) && states[i].phase == Phase::Detail by {
        lemma_trace_prefix(cfg, states, events, acts, i);
        assert(step_rel(states[i], cfg, events[i], states[i + 1], acts[i]));
        lemma_emit_for_current_link(states[i], cfg, events[i], states[i + 1], acts[i]);
    }
}

/// A detail page without a heading ends the run with the name missing, and no
/// record goes out for it, whatever its vitals table holds.
pub proof fn lemma_missing_heading_aborts(
    s: RunView,
    cfg: Config,
    page: Page,
    t: RunView,
    a: ActionView,
)
    requires
        s.inv(),
        s.phase == Phase::Detail,
        found(page, heading_query()).len() == 0,
        step_rel(s, cfg, Event::Fetched(page), t, a),
    ensures
        a == ActionView::Fail(ScrapeError::MissingField(Field::Name)),
        t.phase == Phase::Failed,
        t.emitted == s.emitted,
{
}

/// A detail page with a heading whose vitals table holds fewer than five cells
/// ends the run with the first unfilled field missing, and no record, partial
/// or whole, goes out for it.
pub proof fn lemma_short_table_aborts(
    s: RunView,
    cfg: Config,
    page: Page,
    t: RunView,
    a: ActionView,
)
    requires
        s.inv(),
        s.phase == Phase::Detail,
        found(page, heading_query()).len() > 0,
        found(page, cell_query()).len() < 5,
        step_rel(s, cfg, Event::Fetched(page), t, a),
    ensures
        a == ActionView::Fail(
            ScrapeError::MissingField(
                if found(page, cell_query()).len() < 3 {
                    Field::Species
                } else if found(page, cell_query()).len() < 4 {
                    Field::Height
                } else {
                    Field::Weight
                },
            ),
        ),
        t.phase == Phase::Failed,
        t.emitted == s.emitted,
{
}

/// A failed run stays failed: no later event fetches or emits anything.
pub proof fn lemma_failed_is_final(s: RunView, cfg: Config, e: Event, t: RunView, a: ActionView)
    requires
        s.phase == Phase::Failed,
        step_rel(s, cfg, e, t, a),
    ensures
        t == s,
        a == ActionView::Idle,
{
}

} // verus!
