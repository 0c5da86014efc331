//! Outputs and the presence engine that routes activities to them.

use vstd::prelude::*;
use crate::activity::{Activity, ActivityTimestamps, ActivityView};
use crate::clock::{now, UnixTime};
use crate::config::{OwnershipPolicy, UnsupportedForegroundPolicy};
use crate::text::str_eq;

verus! {

// ---------------------------------------------------------------------------
// Output
// ---------------------------------------------------------------------------

/// Errors an output reports when it cannot publish.
#[derive(Debug)]
#[non_exhaustive]
pub enum OutputError {
    /// The output failed to publish the activity.
    PublishFailed(String),
}

impl OutputError {
    /// The human-readable description of the error.
    pub fn message(&self) -> (r: String)
        ensures
            r@ == match self {
                OutputError::PublishFailed(m) => "Output failed to publish activity: "@ + m@,
            },
    {
        match self {
            OutputError::PublishFailed(m) => {
                let mut r = "Output failed to publish activity: ".to_string();
                r.append(m.as_str());
                r
            },
        }
    }
}

/// One call an output received: a publish (with what it returned) or a
/// clear.
pub enum OutputCall {
    Publish(Seq<char>, ActivityView, Result<(), OutputError>),
    Clear,
}

/// What the engine handed out, as a call is recorded.
pub open spec fn call_dispatch(c: OutputCall) -> Dispatch {
    match c {
        OutputCall::Publish(s, a, _) => Dispatch::Publish(s, a),
        OutputCall::Clear => Dispatch::Clear,
    }
}

/// Whether any of the reported connection states is a live connection.
pub open spec fn reports_connected(states: Seq<Option<bool>>) -> bool {
    exists|i: int| 0 <= i < states.len() && states[i] == Some(true)
}

/// A destination for published activities.
///
/// Outputs receive the displayed owner's activity from the engine and
/// render, transport or store it. Each output keeps the record of the
/// calls it received, which every call extends by itself.
pub trait Output: Send {
    /// Every call this output has received, oldest first.
    spec fn received(&self) -> Seq<OutputCall>;

    /// Publish `activity`, owned by engine source `source`.
    fn publish(&mut self, source: &str, activity: &Activity) -> (r: Result<(), OutputError>)
        ensures
            final(self).received() == old(self).received().push(OutputCall::Publish(source@, activity@, r)),
    ;

    /// Remove whatever presence this output is displaying.
    fn clear(&mut self)
        ensures
            final(self).received() == old(self).received().push(OutputCall::Clear),
    ;

    /// The connection state the output reports: whether it holds a live
    /// connection, or none for an output without one.
    open spec fn connection(&self) -> Option<bool> {
        None
    }

    /// Whether the output holds a live connection, when that applies; an
    /// output without a connection reports none.
    fn connection_state(&self) -> (r: Option<bool>)
        ensures
            r == self.connection(),
    ;
}

/// Appends to a vector (a generic form keeps the length facts for
/// trait-object elements).
pub(crate) fn push_item<T>(v: &mut Vec<T>, x: T)
    ensures
        final(v)@ == old(v)@.push(x),
        final(v)@.len() == old(v)@.len() + 1,
{
    v.push(x);
}

// ---------------------------------------------------------------------------
// Engine model
// ---------------------------------------------------------------------------

/// What the engine handed to its outputs in one step.
pub enum Dispatch {
    /// Every output was asked to publish this source's activity.
    Publish(Seq<char>, ActivityView),
    /// Every output was asked to clear.
    Clear,
}

/// One source's session, as values.
pub struct SessionView {
    pub source: Seq<char>,
    pub current: Option<ActivityView>,
    pub started: Option<UnixTime>,
    pub last_update: u64,
}

/// The engine's state, as values.
pub struct EngineView {
    /// Sessions in the order their sources first reported.
    pub sessions: Seq<SessionView>,
    pub policy: OwnershipPolicy,
    pub unsupported: UnsupportedForegroundPolicy,
    pub foreground: Option<Seq<char>>,
    pub displayed: Option<Seq<char>>,
    pub recency: u64,
    pub outputs: nat,
    /// Everything handed to the outputs so far, oldest first.
    pub dispatched: Seq<Dispatch>,
}

/// The source names of a session list.
pub open spec fn sources_of(ss: Seq<SessionView>) -> Seq<Seq<char>> {
    Seq::new(ss.len(), |i: int| ss[i].source)
}

/// The session of `src`, if it has one.
pub open spec fn session_of(ss: Seq<SessionView>, src: Seq<char>) -> Option<SessionView> {
    if sources_of(ss).contains(src) {
        Some(ss[sources_of(ss).index_of(src)])
    } else {
        None
    }
}

/// Whether `src` has an active session (a current activity).
pub open spec fn is_active(ss: Seq<SessionView>, src: Seq<char>) -> bool {
    match session_of(ss, src) {
        Some(s) => s.current is Some,
        None => false,
    }
}

/// The first active source in registration order.
pub open spec fn first_active(ss: Seq<SessionView>) -> Option<Seq<char>>
    decreases ss.len(),
{
    if ss.len() == 0 {
        None
    } else if ss[0].current is Some {
        Some(ss[0].source)
    } else {
        first_active(ss.drop_first())
    }
}

/// Among the first `n` sessions, the index of the active one reported most
/// recently (the later one on a tie), or -1.
pub open spec fn recent_index(ss: Seq<SessionView>, n: int) -> int
    decreases n,
{
    if n <= 0 {
        -1
    } else {
        let b = recent_index(ss, n - 1);
        if ss[n - 1].current is Some && (b == -1 || ss[n - 1].last_update >= ss[b].last_update) {
            n - 1
        } else {
            b
        }
    }
}

/// The most recently active source.
pub open spec fn most_recent(ss: Seq<SessionView>) -> Option<Seq<char>> {
    let i = recent_index(ss, ss.len() as int);
    if i == -1 {
        None
    } else {
        Some(ss[i].source)
    }
}

/// The source the ownership policy puts on display.
pub open spec fn selected_source(v: EngineView) -> Option<Seq<char>> {
    match v.policy {
        OwnershipPolicy::Foreground => {
            if v.foreground is Some && is_active(v.sessions, v.foreground->0) {
                v.foreground
            } else if v.unsupported == UnsupportedForegroundPolicy::KeepLast && v.displayed is Some
                && is_active(v.sessions, v.displayed->0) {
                v.displayed
            } else {
                first_active(v.sessions)
            }
        },
        OwnershipPolicy::Fixed => first_active(v.sessions),
        OwnershipPolicy::Recent => most_recent(v.sessions),
    }
}

/// What the outputs receive for the displayed source: its activity, or a
/// clear when nothing is displayed.
pub open spec fn display_dispatch(v: EngineView) -> Dispatch {
    match v.displayed {
        Some(d) => match session_of(v.sessions, d) {
            Some(s) => match s.current {
                Some(a) => Dispatch::Publish(d, a),
                None => Dispatch::Clear,
            },
            None => Dispatch::Clear,
        },
        None => Dispatch::Clear,
    }
}

/// Recomputes the owner; a changed owner is published (or, when none
/// remains, the outputs are cleared).
pub open spec fn spec_reconcile(v: EngineView) -> EngineView {
    let next = selected_source(v);
    if v.displayed != next {
        let v1 = EngineView { displayed: next, ..v };
        EngineView { dispatched: v.dispatched.push(display_dispatch(v1)), ..v1 }
    } else {
        v
    }
}

/// The activity stamped with the session start, unless it carries its own
/// start time.
pub open spec fn stamp(a: ActivityView, start: UnixTime) -> ActivityView {
    match a.timestamps {
        Some(ts) if ts.start is Some => a,
        _ => ActivityView {
            timestamps: Some(ActivityTimestamps {
                start: Some(start.spec_unix_secs()),
                end: match a.timestamps {
                    Some(ts) => ts.end,
                    None => None,
                },
            }),
            ..a
        },
    }
}

/// The recency counter after one more report (wrapping at the top).
pub open spec fn next_recency(r: u64) -> u64 {
    if r == u64::MAX { 0 } else { (r + 1) as u64 }
}

/// The session list with `src` registered (appended when new).
pub open spec fn with_source(ss: Seq<SessionView>, src: Seq<char>) -> Seq<SessionView> {
    if sources_of(ss).contains(src) {
        ss
    } else {
        ss.push(SessionView { source: src, current: None, started: None, last_update: 0 })
    }
}

/// The session list with the session of `src` replaced by `s`.
pub open spec fn replace_session(ss: Seq<SessionView>, src: Seq<char>, s: SessionView) -> Seq<SessionView> {
    ss.update(sources_of(ss).index_of(src), s)
}

/// After a source's report: publish when the owner changed, or when the
/// reporting source is the owner; a non-owner's report is only stored.
pub open spec fn spec_after_report(v: EngineView, v2: EngineView, src: Seq<char>, stamped: ActivityView) -> EngineView {
    let next = selected_source(v2);
    if v.displayed != next {
        let v3 = EngineView { displayed: next, ..v2 };
        EngineView { dispatched: v2.dispatched.push(display_dispatch(v3)), ..v3 }
    } else if v.displayed == Some(src) {
        EngineView { dispatched: v2.dispatched.push(Dispatch::Publish(src, stamped)), ..v2 }
    } else {
        v2
    }
}

/// The state after `src` reports activity `a`, its session having started
/// at `t`; `dedup` skips an unchanged activity.
pub open spec fn spec_report(v: EngineView, src: Seq<char>, a: ActivityView, t: UnixTime, dedup: bool) -> EngineView {
    let ss1 = with_source(v.sessions, src);
    let r = next_recency(v.recency);
    let old_s = session_of(ss1, src)->0;
    let stamped = stamp(a, t);
    if dedup && old_s.current == Some(stamped) {
        EngineView {
            sessions: replace_session(ss1, src, SessionView { started: Some(t), last_update: r, ..old_s }),
            recency: r,
            ..v
        }
    } else {
        let v2 = EngineView {
            sessions: replace_session(ss1, src, SessionView {
                source: src,
                current: Some(stamped),
                started: Some(t),
                last_update: r,
            }),
            recency: r,
            ..v
        };
        spec_after_report(v, v2, src, stamped)
    }
}

/// The state after the session of `src` ends (nothing changes when it has
/// no running session).
pub open spec fn spec_end_session(v: EngineView, src: Seq<char>) -> EngineView {
    match session_of(v.sessions, src) {
        Some(s) if s.started is Some => {
            let ss = replace_session(v.sessions, src, SessionView { current: None, started: None, ..s });
            spec_reconcile(EngineView { sessions: ss, ..v })
        },
        _ => v,
    }
}

/// Errors collected from outputs: each names an output, in increasing order.
pub open spec fn errors_well_formed(errs: Seq<(usize, OutputError)>, outputs: nat) -> bool {
    &&& forall|i: int| 0 <= i < errs.len() ==> (#[trigger] errs[i]).0 < outputs
    &&& forall|i: int, j: int| 0 <= i < j < errs.len() ==> (#[trigger] errs[i]).0 < (#[trigger] errs[j]).0
}

// ---------------------------------------------------------------------------
// Presence engine
// ---------------------------------------------------------------------------

/// One source's session.
struct Session {
    /// The source's engine name.
    source: String,
    /// The source's latest activity, stamped with the session start.
    current: Option<Activity>,
    /// When the session started.
    started: Option<UnixTime>,
    /// Value of the recency counter at the source's latest report.
    last_update: u64,
}

impl Session {
    spec fn sv(&self) -> SessionView {
        SessionView {
            source: self.source@,
            current: match self.current {
                Some(a) => Some(a@),
                None => None,
            },
            started: self.started,
            last_update: self.last_update,
        }
    }
}

/// Routes activities from plugin sources to registered outputs.
///
/// The engine keeps one session per source (its latest activity and the time
/// its session started), stamps forwarded activities with that start time,
/// publishes only changes, and chooses under an [`OwnershipPolicy`] which
/// single source owns the display. Outputs receive only the owner's
/// activity; when no source is active they are cleared.
pub struct PresenceEngine {
    sessions: Vec<Session>,
    outputs: Vec<OutputSlot>,
    policy: OwnershipPolicy,
    unsupported_foreground: UnsupportedForegroundPolicy,
    foreground: Option<String>,
    displayed: Option<String>,
    recency: u64,
    dispatched: Ghost<Seq<Dispatch>>,
}

/// The characters of an optional string slice.
pub open spec fn opt_str_chars(o: Option<&str>) -> Option<Seq<char>> {
    match o {
        Some(s) => Some(s@),
        None => None,
    }
}

/// The characters of an optional string.
pub open spec fn opt_chars(o: Option<String>) -> Option<Seq<char>> {
    match o {
        Some(s) => Some(s@),
        None => None,
    }
}

impl View for PresenceEngine {
    type V = EngineView;

    closed spec fn view(&self) -> EngineView {
        EngineView {
            sessions: Seq::new(self.sessions@.len(), |i: int| self.sessions@[i].sv()),
            policy: self.policy,
            unsupported: self.unsupported_foreground,
            foreground: opt_chars(self.foreground),
            displayed: opt_chars(self.displayed),
            recency: self.recency,
            outputs: self.outputs@.len(),
            dispatched: self.dispatched@,
        }
    }
}

/// Sessions have distinct sources, and a session is active exactly while
/// it has a start time.
pub open spec fn sessions_inv(ss: Seq<SessionView>) -> bool {
    &&& sources_of(ss).no_duplicates()
    &&& forall|i: int| 0 <= i < ss.len() ==> ((#[trigger] ss[i]).current is Some <==> ss[i].started is Some)
}

/// The engine's invariant: the session invariant holds, the displayed
/// source (if any) is active, nothing is displayed only when no source is
/// active, and under the fixed policy the first active source (in the order
/// sources first reported) is displayed.
pub open spec fn engine_inv(v: EngineView) -> bool {
    &&& sessions_inv(v.sessions)
    &&& (v.displayed is Some ==> is_active(v.sessions, v.displayed->0))
    &&& (v.displayed is None ==> forall|i: int| 0 <= i < v.sessions.len() ==> (#[trigger] v.sessions[i]).current is None)
    &&& (v.policy == OwnershipPolicy::Fixed ==> v.displayed == first_active(v.sessions))
}

/// In a list with distinct sources, entry `i` is the session of its source.
pub proof fn lemma_session_at(ss: Seq<SessionView>, i: int)
    requires
        sources_of(ss).no_duplicates(),
        0 <= i < ss.len(),
    ensures
        sources_of(ss).contains(ss[i].source),
        sources_of(ss).index_of(ss[i].source) == i,
        session_of(ss, ss[i].source) == Some(ss[i]),
{
    let ks = sources_of(ss);
    assert(ks[i] == ss[i].source);
    let j = ks.index_of(ss[i].source);
    assert(0 <= j < ks.len() && ks[j] == ss[i].source);
}

/// The first active source is the source of an active session.
pub proof fn lemma_first_active(ss: Seq<SessionView>)
    ensures
        first_active(ss) is Some ==> exists|k: int| 0 <= k < ss.len() && ss[k].current is Some && ss[k].source == first_active(ss)->0,
        (exists|k: int| 0 <= k < ss.len() && ss[k].current is Some) ==> first_active(ss) is Some,
    decreases ss.len(),
{
    if ss.len() > 0 {
        lemma_first_active(ss.drop_first());
        if ss[0].current is None {
            if first_active(ss) is Some {
                let k = choose|k: int| 0 <= k < ss.drop_first().len() && ss.drop_first()[k].current is Some && ss.drop_first()[k].source == first_active(ss.drop_first())->0;
                assert(ss[k + 1] == ss.drop_first()[k]);
            }
            if exists|k: int| 0 <= k < ss.len() && ss[k].current is Some {
                let k = choose|k: int| 0 <= k < ss.len() && ss[k].current is Some;
                assert(k != 0);
                assert(ss.drop_first()[k - 1] == ss[k]);
            }
        }
    }
}

/// The most recent index is -1 or names an active session; it is -1 only
/// when no session among the first `n` is active.
pub proof fn lemma_recent_index(ss: Seq<SessionView>, n: int)
    requires
        0 <= n <= ss.len(),
    ensures
        -1 <= recent_index(ss, n) < n,
        recent_index(ss, n) != -1 ==> ss[recent_index(ss, n)].current is Some,
        (exists|k: int| 0 <= k < n && ss[k].current is Some) ==> recent_index(ss, n) != -1,
    decreases n,
{
    if n > 0 {
        lemma_recent_index(ss, n - 1);
        if exists|k: int| 0 <= k < n && ss[k].current is Some {
            let k = choose|k: int| 0 <= k < n && ss[k].current is Some;
            if k < n - 1 {
                assert(exists|k2: int| 0 <= k2 < n - 1 && ss[k2].current is Some);
            }
        }
    }
}

/// An active session's source is active.
pub proof fn lemma_active_at(ss: Seq<SessionView>, k: int)
    requires
        sources_of(ss).no_duplicates(),
        0 <= k < ss.len(),
        ss[k].current is Some,
    ensures
        is_active(ss, ss[k].source),
{
    lemma_session_at(ss, k);
}

/// The selected source is active, and some source is selected whenever any
/// session is active.
pub proof fn lemma_selected_active(v: EngineView)
    requires
        sessions_inv(v.sessions),
    ensures
        selected_source(v) is Some ==> is_active(v.sessions, selected_source(v)->0),
        (exists|k: int| 0 <= k < v.sessions.len() && v.sessions[k].current is Some) ==> selected_source(v) is Some,
{
    let ss = v.sessions;
    lemma_first_active(ss);
    lemma_recent_index(ss, ss.len() as int);
    if first_active(ss) is Some {
        let k = choose|k: int| 0 <= k < ss.len() && ss[k].current is Some && ss[k].source == first_active(ss)->0;
        lemma_active_at(ss, k);
    }
    let r = recent_index(ss, ss.len() as int);
    if r != -1 {
        lemma_active_at(ss, r);
    }
}

/// Replacing a session by one of the same source changes only that
/// source's session.
pub proof fn lemma_replace_at(ss: Seq<SessionView>, i: int, s: SessionView)
    requires
        sources_of(ss).no_duplicates(),
        0 <= i < ss.len(),
        s.source == ss[i].source,
    ensures
        sources_of(ss.update(i, s)) == sources_of(ss),
        replace_session(ss, s.source, s) == ss.update(i, s),
        forall|x: Seq<char>| #[trigger] session_of(ss.update(i, s), x) == if x == s.source {
            Some(s)
        } else {
            session_of(ss, x)
        },
{
    let ss2 = ss.update(i, s);
    assert(sources_of(ss2) =~= sources_of(ss));
    lemma_session_at(ss, i);
    lemma_session_at(ss2, i);
    assert forall|x: Seq<char>| #[trigger] session_of(ss2, x) == if x == s.source { Some(s) } else { session_of(ss, x) } by {
        if x != s.source && sources_of(ss).contains(x) {
            let j = choose|j: int| 0 <= j < sources_of(ss).len() && sources_of(ss)[j] == x;
            assert(ss[j].source == x);
            lemma_session_at(ss, j);
            lemma_session_at(ss2, j);
        }
    }
}

/// Appending a session of a new source adds only that source's session.
pub proof fn lemma_push_new(ss: Seq<SessionView>, s: SessionView)
    requires
        sources_of(ss).no_duplicates(),
        !sources_of(ss).contains(s.source),
    ensures
        sources_of(ss.push(s)) == sources_of(ss).push(s.source),
        sources_of(ss.push(s)).no_duplicates(),
        forall|x: Seq<char>| #[trigger] session_of(ss.push(s), x) == if x == s.source {
            Some(s)
        } else {
            session_of(ss, x)
        },
{
    let ss2 = ss.push(s);
    assert(sources_of(ss2) =~= sources_of(ss).push(s.source));
    assert forall|a: int, b: int| 0 <= a < sources_of(ss2).len() && 0 <= b < sources_of(ss2).len() && a != b implies sources_of(ss2)[a] != sources_of(ss2)[b] by {
        if a == ss.len() as int {
            assert(sources_of(ss)[b] == sources_of(ss2)[b]);
        } else if b == ss.len() as int {
            assert(sources_of(ss)[a] == sources_of(ss2)[a]);
        } else {
            assert(sources_of(ss)[a] == sources_of(ss2)[a]);
            assert(sources_of(ss)[b] == sources_of(ss2)[b]);
        }
    }
    lemma_session_at(ss2, ss.len() as int);
    assert forall|x: Seq<char>| #[trigger] session_of(ss2, x) == if x == s.source { Some(s) } else { session_of(ss, x) } by {
        if x != s.source && sources_of(ss).contains(x) {
            let j = choose|j: int| 0 <= j < sources_of(ss).len() && sources_of(ss)[j] == x;
            assert(ss[j].source == x);
            lemma_session_at(ss, j);
            assert(ss2[j] == ss[j]);
            lemma_session_at(ss2, j);
        }
        if x != s.source && !sources_of(ss).contains(x) {
            if sources_of(ss2).contains(x) {
                let j = choose|j: int| 0 <= j < sources_of(ss2).len() && sources_of(ss2)[j] == x;
                assert(j != ss.len() as int);
                assert(sources_of(ss)[j] == x);
            }
        }
    }
}

/// The outputs' records extend those of `before` by one call for each
/// dispatch in `sent`, in order, each call matching its dispatch.
pub open spec fn calls_follow(before: Seq<Seq<OutputCall>>, after: Seq<Seq<OutputCall>>, sent: Seq<Dispatch>) -> bool {
    &&& after.len() == before.len()
    &&& forall|i: int|
        0 <= i < before.len() ==> {
            &&& (#[trigger] after[i]).len() == before[i].len() + sent.len()
            &&& after[i].take(before[i].len() as int) == before[i]
            &&& forall|k: int| 0 <= k < sent.len() ==> call_dispatch(after[i][before[i].len() + k]) == sent[k]
        }
}

/// What the engine handed out between two of its states.
pub open spec fn sent_since(before: EngineView, after: EngineView) -> Seq<Dispatch> {
    after.dispatched.skip(before.dispatched.len() as int)
}

/// The error of an output's newest call, when that call is a publish that
/// failed.
pub open spec fn failure_of(calls: Seq<OutputCall>) -> Option<OutputError> {
    if calls.len() > 0 {
        match calls.last() {
            OutputCall::Publish(_, _, Err(e)) => Some(e),
            _ => None,
        }
    } else {
        None
    }
}

/// Whether an output's newest call is a publish that failed.
pub open spec fn failed_last(calls: Seq<OutputCall>) -> bool {
    failure_of(calls) is Some
}

/// Whether the error list names output `i`.
pub open spec fn names_output(errs: Seq<(usize, OutputError)>, i: int) -> bool {
    exists|k: int| 0 <= k < errs.len() && (#[trigger] errs[k]).0 == i
}

/// The error list names exactly the outputs whose call in this step was a
/// failed publish, each with the error that output returned.
pub open spec fn errors_name_failures(
    errs: Seq<(usize, OutputError)>,
    before: Seq<Seq<OutputCall>>,
    after: Seq<Seq<OutputCall>>,
) -> bool {
    &&& forall|i: int|
        0 <= i < before.len() ==> (#[trigger] names_output(errs, i) <==> (after[i].len() > before[i].len()
            && failed_last(after[i])))
    &&& forall|k: int|
        0 <= k < errs.len() ==> {
            &&& (#[trigger] errs[k]).0 < before.len()
            &&& after[errs[k].0 as int].len() > before[errs[k].0 as int].len()
            &&& failure_of(after[errs[k].0 as int]) == Some(errs[k].1)
        }
}

/// A clear names no output as failed.
pub proof fn lemma_clear_names_none(c0: Seq<Seq<OutputCall>>, c1: Seq<Seq<OutputCall>>)
    requires
        calls_follow(c0, c1, seq![Dispatch::Clear]),
    ensures
        errors_name_failures(Seq::empty(), c0, c1),
{
    assert forall|i: int| 0 <= i < c0.len() implies !failed_last(#[trigger] c1[i]) by {
        assert(c1[i].len() == c0[i].len() + 1);
        let k: int = 0;
        assert(call_dispatch(c1[i][c0[i].len() + k]) == seq![Dispatch::Clear][k]);
        assert(c1[i].last() == c1[i][c0[i].len() + k]);
    }
}

/// Unchanged records name no output as failed.
pub proof fn lemma_same_names_none(c: Seq<Seq<OutputCall>>)
    ensures
        errors_name_failures(Seq::empty(), c, c),
{
}

/// One dispatch handed out.
pub proof fn lemma_sent_one(before: EngineView, after: EngineView, d: Dispatch)
    requires
        after.dispatched == before.dispatched.push(d),
    ensures
        sent_since(before, after) == seq![d],
{
    assert(sent_since(before, after) =~= seq![d]);
}

/// Nothing handed out.
pub proof fn lemma_sent_none(before: EngineView, after: EngineView)
    requires
        after.dispatched == before.dispatched,
    ensures
        sent_since(before, after) == Seq::<Dispatch>::empty(),
{
    assert(sent_since(before, after) =~= Seq::<Dispatch>::empty());
}

/// Calls follow no dispatch at all when the records are unchanged.
pub proof fn lemma_calls_unchanged(c: Seq<Seq<OutputCall>>)
    ensures
        calls_follow(c, c, Seq::empty()),
{
    assert forall|i: int| 0 <= i < c.len() implies (#[trigger] c[i]).take(c[i].len() as int) == c[i] by {
        assert(c[i].take(c[i].len() as int) =~= c[i]);
    }
}

/// Two steps of calls compose.
pub proof fn lemma_calls_trans(
    a: Seq<Seq<OutputCall>>,
    b: Seq<Seq<OutputCall>>,
    c: Seq<Seq<OutputCall>>,
    s1: Seq<Dispatch>,
    s2: Seq<Dispatch>,
)
    requires
        calls_follow(a, b, s1),
        calls_follow(b, c, s2),
    ensures
        calls_follow(a, c, s1 + s2),
{
    assert forall|i: int| 0 <= i < a.len() implies {
        &&& (#[trigger] c[i]).len() == a[i].len() + (s1 + s2).len()
        &&& c[i].take(a[i].len() as int) == a[i]
        &&& forall|k: int| 0 <= k < (s1 + s2).len() ==> call_dispatch(c[i][a[i].len() + k]) == (s1 + s2)[k]
    } by {
        assert(b[i].len() == a[i].len() + s1.len());
        assert(c[i].take(a[i].len() as int) =~= c[i].take(b[i].len() as int).take(a[i].len() as int));
        assert forall|k: int| 0 <= k < (s1 + s2).len() implies call_dispatch(c[i][a[i].len() + k]) == (s1 + s2)[k] by {
            if k < s1.len() {
                assert(c[i][a[i].len() + k] == c[i].take(b[i].len() as int)[a[i].len() + k]);
                assert(b[i][a[i].len() + k] == c[i][a[i].len() + k]);
            } else {
                assert(c[i][a[i].len() + k] == c[i][b[i].len() + (k - s1.len())]);
            }
        }
    }
}

/// A registered output.
struct OutputSlot {
    out: Box<dyn Output>,
}

impl OutputSlot {
    /// The slot for a newly registered output.
    fn holding(out: Box<dyn Output>) -> OutputSlot {
        OutputSlot { out }
    }
}

impl PresenceEngine {
    /// The calls each registered output has received, in registration
    /// order.
    pub closed spec fn calls(&self) -> Seq<Seq<OutputCall>> {
        Seq::new(self.outputs@.len(), |i: int| self.outputs@[i].out.received())
    }

    /// The connection state each registered output reports, in
    /// registration order.
    pub closed spec fn connections(&self) -> Seq<Option<bool>> {
        Seq::new(self.outputs@.len(), |i: int| self.outputs@[i].out.connection())
    }

    /// The engine's invariant holds.
    pub open spec fn wf(&self) -> bool {
        engine_inv(self@)
    }

    /// The state of a new engine: no session, foreground ownership,
    /// keep-last for unsupported windows, no output, nothing dispatched.
    pub open spec fn new_view() -> EngineView {
        EngineView {
            sessions: Seq::empty(),
            policy: OwnershipPolicy::Foreground,
            unsupported: UnsupportedForegroundPolicy::KeepLast,
            foreground: None,
            displayed: None,
            recency: 0,
            outputs: 0,
            dispatched: Seq::empty(),
        }
    }

    /// The number of registered outputs.
    pub fn output_count(&self) -> (r: usize)
        requires
            self.wf(),
        ensures
            r == self@.outputs,
    {
        self.outputs.len()
    }

    /// Creates an empty engine with the default ownership policy.
    pub fn new() -> (r: Self)
        ensures
            r.wf(),
            r@.sessions == Seq::<SessionView>::empty(),
            r@.policy == OwnershipPolicy::Foreground,
            r@.unsupported == UnsupportedForegroundPolicy::KeepLast,
            r@.foreground is None,
            r@.displayed is None,
            r@.recency == 0,
            r@.outputs == 0,
            r@.dispatched == Seq::<Dispatch>::empty(),
            r.calls() == Seq::<Seq<OutputCall>>::empty(),
    {
        Self::with_policy(OwnershipPolicy::Foreground)
    }

    /// Creates an empty engine with the given ownership policy.
    pub fn with_policy(policy: OwnershipPolicy) -> (r: Self)
        ensures
            r.wf(),
            r@.sessions == Seq::<SessionView>::empty(),
            r@.policy == policy,
            r@.unsupported == UnsupportedForegroundPolicy::KeepLast,
            r@.foreground is None,
            r@.displayed is None,
            r@.recency == 0,
            r@.outputs == 0,
            r@.dispatched == Seq::<Dispatch>::empty(),
            r.calls() == Seq::<Seq<OutputCall>>::empty(),
    {
        let r = PresenceEngine {
            sessions: Vec::new(),
            outputs: Vec::new(),
            policy,
            unsupported_foreground: UnsupportedForegroundPolicy::KeepLast,
            foreground: None,
            displayed: None,
            recency: 0,
            dispatched: Ghost(Seq::empty()),
        };
        assert(r@.sessions =~= Seq::<SessionView>::empty());
        assert(r.calls() =~= Seq::<Seq<OutputCall>>::empty());
        r
    }

    /// The configured ownership policy.
    pub fn policy(&self) -> (r: OwnershipPolicy)
        ensures
            r == self@.policy,
    {
        self.policy
    }

    /// The configured unsupported-foreground policy.
    pub fn unsupported_foreground(&self) -> (r: UnsupportedForegroundPolicy)
        ensures
            r == self@.unsupported,
    {
        self.unsupported_foreground
    }

    /// Registers an output; outputs are called in registration order.
    pub fn register_output(&mut self, output: Box<dyn Output>)
        requires
            old(self).wf(),
        ensures
            final(self).wf(),
            final(self)@ == (EngineView { outputs: old(self)@.outputs + 1, ..old(self)@ }),
            final(self).calls().len() == old(self).calls().len() + 1,
            final(self).calls().take(old(self).calls().len() as int) == old(self).calls(),
            final(self).connections().take(old(self).connections().len() as int) == old(self).connections(),
    {
        let ghost pre = self.outputs@;
        let slot = OutputSlot::holding(output);
        push_item(&mut self.outputs, slot);
        assert(self@.sessions =~= old(self)@.sessions);
        assert forall|j: int| 0 <= j < pre.len() implies self.outputs@[j] == pre[j] by {}
        assert(self.calls().take(pre.len() as int) =~= old(self).calls());
        assert(self.connections().take(pre.len() as int) =~= old(self).connections());
    }

    /// The index of the session of `source`, if it has one.
    fn find_session(&self, source: &str) -> (r: Option<usize>)
        requires
            sessions_inv(self@.sessions),
        ensures
            match r {
                Some(i) => i < self@.sessions.len() && self@.sessions[i as int].source == source@
                    && session_of(self@.sessions, source@) == Some(self@.sessions[i as int]),
                None => session_of(self@.sessions, source@) is None,
            },
    {
        let ghost ss = self@.sessions;
        let mut i: usize = 0;
        while i < self.sessions.len()
            invariant
                i <= self.sessions@.len(),
                ss == self@.sessions,
                sessions_inv(ss),
                forall|j: int| 0 <= j < i ==> (#[trigger] ss[j]).source != source@,
            decreases self.sessions@.len() - i,
        {
            if str_eq(self.sessions[i].source.as_str(), source) {
                proof { lemma_session_at(ss, i as int); }
                return Some(i);
            }
            i = i + 1;
        }
        proof {
            if sources_of(ss).contains(source@) {
                let j = choose|j: int| 0 <= j < sources_of(ss).len() && sources_of(ss)[j] == source@;
                assert(ss[j].source == source@);
            }
        }
        None
    }

    /// Whether `source` has an active session.
    pub fn is_source_active(&self, source: &str) -> (r: bool)
        requires
            sessions_inv(self@.sessions),
        ensures
            r == is_active(self@.sessions, source@),
    {
        match self.find_session(source) {
            Some(i) => self.sessions[i].current.is_some(),
            None => false,
        }
    }

    /// The stored activity of `source`, if it has one.
    pub fn source_activity(&self, source: &str) -> (r: Option<&Activity>)
        requires
            sessions_inv(self@.sessions),
        ensures
            match r {
                Some(a) => is_active(self@.sessions, source@) && session_of(self@.sessions, source@)->0.current == Some(a@),
                None => !is_active(self@.sessions, source@),
            },
    {
        match self.find_session(source) {
            Some(i) => self.sessions[i].current.as_ref(),
            None => None,
        }
    }

    /// The source currently owning the display.
    pub fn displayed_source(&self) -> (r: Option<&str>)
        ensures
            match r {
                Some(s) => self@.displayed == Some(s@),
                None => self@.displayed is None,
            },
    {
        match &self.displayed {
            Some(s) => Some(s.as_str()),
            None => None,
        }
    }

    /// The activity currently displayed, stamped with its session start.
    pub fn current_activity(&self) -> (r: Option<&Activity>)
        requires
            self.wf(),
        ensures
            match r {
                Some(a) => self@.displayed is Some && session_of(self@.sessions, self@.displayed->0)->0.current == Some(a@),
                None => self@.displayed is None,
            },
    {
        match &self.displayed {
            Some(d) => self.source_activity(d.as_str()),
            None => None,
        }
    }

    /// When the displayed source's session started.
    pub fn session_started_at(&self) -> (r: Option<UnixTime>)
        requires
            self.wf(),
        ensures
            match r {
                Some(t) => self@.displayed is Some && session_of(self@.sessions, self@.displayed->0)->0.started == Some(t),
                None => self@.displayed is None,
            },
    {
        match &self.displayed {
            Some(d) => match self.find_session(d.as_str()) {
                Some(i) => self.sessions[i].started,
                None => None,
            },
            None => None,
        }
    }

    /// The index of the first active session in registration order.
    fn fixed_index(&self) -> (r: Option<usize>)
        requires
            sessions_inv(self@.sessions),
        ensures
            match r {
                Some(i) => i < self@.sessions.len() && first_active(self@.sessions) == Some(self@.sessions[i as int].source),
                None => first_active(self@.sessions) is None,
            },
    {
        let ghost ss = self@.sessions;
        let mut i: usize = 0;
        assert(ss.skip(0) =~= ss);
        while i < self.sessions.len()
            invariant
                i <= self.sessions@.len(),
                ss == self@.sessions,
                first_active(ss) == first_active(ss.skip(i as int)),
            decreases self.sessions@.len() - i,
        {
            assert(ss.skip(i as int)[0] == ss[i as int]);
            if self.sessions[i].current.is_some() {
                return Some(i);
            }
            assert(ss.skip(i as int).drop_first() =~= ss.skip(i + 1));
            i = i + 1;
        }
        assert(ss.skip(i as int).len() == 0);
        None
    }

    /// The index of the most recently active session.
    fn recent_session_index(&self) -> (r: Option<usize>)
        requires
            sessions_inv(self@.sessions),
        ensures
            match r {
                Some(i) => i < self@.sessions.len() && recent_index(self@.sessions, self@.sessions.len() as int) == i,
                None => recent_index(self@.sessions, self@.sessions.len() as int) == -1,
            },
    {
        let ghost ss = self@.sessions;
        let mut best: Option<usize> = None;
        let mut i: usize = 0;
        while i < self.sessions.len()
            invariant
                i <= self.sessions@.len(),
                ss == self@.sessions,
                match best {
                    Some(b) => b < i && recent_index(ss, i as int) == b,
                    None => recent_index(ss, i as int) == -1,
                },
            decreases self.sessions@.len() - i,
        {
            if self.sessions[i].current.is_some() {
                match best {
                    Some(b) => {
                        if self.sessions[i].last_update >= self.sessions[b].last_update {
                            best = Some(i);
                        }
                    },
                    None => {
                        best = Some(i);
                    },
                }
            }
            i = i + 1;
        }
        best
    }

    /// The source the ownership policy puts on display.
    fn selected_source(&self) -> (r: Option<String>)
        requires
            sessions_inv(self@.sessions),
        ensures
            opt_chars(r) == selected_source(self@),
    {
        match self.policy {
            OwnershipPolicy::Foreground => {
                match &self.foreground {
                    Some(fg) => {
                        if self.is_source_active(fg.as_str()) {
                            return Some(fg.clone());
                        }
                    },
                    None => {},
                }
                if self.unsupported_foreground == UnsupportedForegroundPolicy::KeepLast {
                    match &self.displayed {
                        Some(d) => {
                            if self.is_source_active(d.as_str()) {
                                return Some(d.clone());
                            }
                        },
                        None => {},
                    }
                }
                match self.fixed_index() {
                    Some(i) => Some(self.sessions[i].source.clone()),
                    None => None,
                }
            },
            OwnershipPolicy::Fixed => match self.fixed_index() {
                Some(i) => Some(self.sessions[i].source.clone()),
                None => None,
            },
            OwnershipPolicy::Recent => match self.recent_session_index() {
                Some(i) => Some(self.sessions[i].source.clone()),
                None => None,
            },
        }
    }

    /// Hands `activity` of `source` to every output, collecting failures.
    fn publish_to_outputs(&mut self, source: &str, activity: &Activity) -> (r: Vec<(usize, OutputError)>)
        ensures
            final(self)@ == (EngineView { dispatched: old(self)@.dispatched.push(Dispatch::Publish(source@, activity@)), ..old(self)@ }),
            errors_well_formed(r@, old(self)@.outputs),
            calls_follow(old(self).calls(), final(self).calls(), seq![Dispatch::Publish(source@, activity@)]),
            errors_name_failures(r@, old(self).calls(), final(self).calls()),
    {
        let ghost c0 = self.calls();
        let mut errs: Vec<(usize, OutputError)> = Vec::new();
        let n = self.outputs.len();
        let mut pending: Vec<OutputSlot> = Vec::new();
        std::mem::swap(&mut pending, &mut self.outputs);
        let mut i: usize = 0;
        while i < n
            invariant
                n == old(self).outputs@.len(),
                self.outputs@.len() == i,
                pending@ == old(self).outputs@.skip(i as int),
                c0 == old(self).calls(),
                i <= n,
                self.sessions@ == old(self).sessions@,
                self.policy == old(self).policy,
                self.unsupported_foreground == old(self).unsupported_foreground,
                self.foreground == old(self).foreground,
                self.displayed == old(self).displayed,
                self.recency == old(self).recency,
                self.dispatched == old(self).dispatched,
                forall|k: int| 0 <= k < errs@.len() ==> (#[trigger] errs@[k]).0 < i,
                forall|k: int, l: int| 0 <= k < l < errs@.len() ==> (#[trigger] errs@[k]).0 < (#[trigger] errs@[l]).0,
                forall|j: int|
                    0 <= j < i ==> {
                        &&& (#[trigger] self.outputs@[j]).out.received().len() == c0[j].len() + 1
                        &&& self.outputs@[j].out.received().take(c0[j].len() as int) == c0[j]
                        &&& self.outputs@[j].out.received().last() matches OutputCall::Publish(s, a, res) && s == source@
                            && a == activity@ && (res is Ok <==> !names_output(errs@, j))
                    },
                forall|k: int|
                    0 <= k < errs@.len() ==> failure_of(self.outputs@[(#[trigger] errs@[k]).0 as int].out.received())
                        == Some(errs@[k].1),
            decreases n - i,
        {
            let ghost e0 = errs@;
            let mut out = pending.remove(0);
            assert(out == old(self).outputs@[i as int]);
            assert(pending@ =~= old(self).outputs@.skip(i + 1));
            let res = out.out.publish(source, activity);
            let ghost ok = res is Ok;
            let ghost rres = res;
            let ghost nr = out.out.received();
            let ghost go = out;
            let ghost pre = self.outputs@;
            push_item(&mut self.outputs, out);
            assert(pre.len() == i);
            assert(self.outputs@ == pre.push(go));
            assert(pre.push(go)[i as int] == go);
            assert(self.outputs@[i as int] == go);
            match res {
                Err(e) => {
                    push_item(&mut errs, (i, e));
                },
                Ok(()) => {},
            }
            proof {
                assert(c0[i as int] == old(self).outputs@[i as int].out.received());
                assert(nr == c0[i as int].push(OutputCall::Publish(source@, activity@, rres)));
                assert forall|k: int| 0 <= k < errs@.len() implies failure_of(
                    self.outputs@[(#[trigger] errs@[k]).0 as int].out.received(),
                ) == Some(errs@[k].1) by {
                    if k < e0.len() {
                        assert(errs@[k] == e0[k]);
                        assert(e0[k].0 < i);
                        assert(self.outputs@[e0[k].0 as int] == pre[e0[k].0 as int]);
                    } else {
                        assert(errs@[k].0 == i);
                    }
                }
                assert(self.outputs@[i as int].out.received() == nr);
                assert(nr.take(c0[i as int].len() as int) =~= c0[i as int]);
                assert forall|j: int| 0 <= j < i implies #[trigger] names_output(errs@, j) == names_output(e0, j) by {
                    if names_output(errs@, j) {
                        let k = choose|k: int| 0 <= k < errs@.len() && (#[trigger] errs@[k]).0 == j;
                        assert(k < e0.len());
                        assert(e0[k].0 == j);
                    }
                    if names_output(e0, j) {
                        let k = choose|k: int| 0 <= k < e0.len() && (#[trigger] e0[k]).0 == j;
                        assert(errs@[k].0 == j);
                    }
                }
                if ok {
                    assert(errs@ == e0);
                    assert(!names_output(errs@, i as int));
                } else {
                    assert(errs@[e0.len() as int].0 == i);
                    assert(names_output(errs@, i as int));
                }
            }
            i = i + 1;
        }
        self.dispatched = Ghost(self.dispatched@.push(Dispatch::Publish(source@, activity@)));
        assert(self@.sessions =~= old(self)@.sessions);
        proof {
            let c1 = self.calls();
            assert forall|j: int| 0 <= j < c0.len() implies (#[trigger] c1[j]).len() == c0[j].len() + 1
                && c1[j].take(c0[j].len() as int) == c0[j]
                && call_dispatch(c1[j][c0[j].len() as int]) == seq![Dispatch::Publish(source@, activity@)][0] by {
                assert(c1[j] == self.outputs@[j].out.received());
            }
            assert forall|j: int| 0 <= j < c0.len() implies (#[trigger] names_output(errs@, j)
                <==> (c1[j].len() > c0[j].len() && failed_last(c1[j]))) by {
                assert(c1[j] == self.outputs@[j].out.received());
            }
            assert forall|k: int| 0 <= k < errs@.len() implies {
                &&& (#[trigger] errs@[k]).0 < c0.len()
                &&& c1[errs@[k].0 as int].len() > c0[errs@[k].0 as int].len()
                &&& failure_of(c1[errs@[k].0 as int]) == Some(errs@[k].1)
            } by {
                assert(c1[errs@[k].0 as int] == self.outputs@[errs@[k].0 as int].out.received());
            }
        }
        errs
    }

    /// Asks every output to clear its presence.
    fn clear_all_outputs(&mut self)
        ensures
            final(self)@ == (EngineView { dispatched: old(self)@.dispatched.push(Dispatch::Clear), ..old(self)@ }),
            calls_follow(old(self).calls(), final(self).calls(), seq![Dispatch::Clear]),
    {
        let ghost c0 = self.calls();
        let n = self.outputs.len();
        let mut pending: Vec<OutputSlot> = Vec::new();
        std::mem::swap(&mut pending, &mut self.outputs);
        let mut i: usize = 0;
        while i < n
            invariant
                n == old(self).outputs@.len(),
                self.outputs@.len() == i,
                pending@ == old(self).outputs@.skip(i as int),
                c0 == old(self).calls(),
                i <= n,
                self.sessions@ == old(self).sessions@,
                self.policy == old(self).policy,
                self.unsupported_foreground == old(self).unsupported_foreground,
                self.foreground == old(self).foreground,
                self.displayed == old(self).displayed,
                self.recency == old(self).recency,
                self.dispatched == old(self).dispatched,
                forall|j: int| 0 <= j < i ==> (#[trigger] self.outputs@[j]).out.received() == c0[j].push(OutputCall::Clear),
            decreases n - i,
        {
            let mut out = pending.remove(0);
            assert(out == old(self).outputs@[i as int]);
            assert(pending@ =~= old(self).outputs@.skip(i + 1));
            out.out.clear();
            push_item(&mut self.outputs, out);
            i = i + 1;
        }
        self.dispatched = Ghost(self.dispatched@.push(Dispatch::Clear));
        assert(self@.sessions =~= old(self)@.sessions);
        proof {
            let c1 = self.calls();
            assert forall|j: int| 0 <= j < c0.len() implies (#[trigger] c1[j]).len() == c0[j].len() + 1
                && c1[j].take(c0[j].len() as int) == c0[j]
                && call_dispatch(c1[j][c0[j].len() as int]) == seq![Dispatch::Clear][0] by {
                assert(c1[j] == c0[j].push(OutputCall::Clear));
                assert(c1[j].take(c0[j].len() as int) =~= c0[j]);
            }
        }
    }

    /// Clears every output without touching sessions, timers or the owner.
    pub fn clear_outputs(&mut self)
        requires
            old(self).wf(),
        ensures
            final(self).wf(),
            final(self)@ == (EngineView { dispatched: old(self)@.dispatched.push(Dispatch::Clear), ..old(self)@ }),
            calls_follow(old(self).calls(), final(self).calls(), seq![Dispatch::Clear]),
    {
        self.clear_all_outputs();
    }

    /// Publishes the displayed source's activity, or clears the outputs when
    /// nothing is displayed.
    fn publish_displayed(&mut self) -> (r: Vec<(usize, OutputError)>)
        requires
            sessions_inv(old(self)@.sessions),
        ensures
            final(self)@ == (EngineView { dispatched: old(self)@.dispatched.push(display_dispatch(old(self)@)), ..old(self)@ }),
            errors_well_formed(r@, old(self)@.outputs),
            calls_follow(old(self).calls(), final(self).calls(), seq![display_dispatch(old(self)@)]),
            errors_name_failures(r@, old(self).calls(), final(self).calls()),
    {
        let ghost c0 = self.calls();
        match &self.displayed {
            Some(d) => {
                let d2 = d.clone();
                match self.find_session(d2.as_str()) {
                    Some(i) => match &self.sessions[i].current {
                        Some(a) => {
                            let a2 = a.duplicate();
                            self.publish_to_outputs(d2.as_str(), &a2)
                        },
                        None => {
                            self.clear_all_outputs();
                            proof { lemma_clear_names_none(c0, self.calls()); }
                            Vec::new()
                        },
                    },
                    None => {
                        self.clear_all_outputs();
                        proof { lemma_clear_names_none(c0, self.calls()); }
                        Vec::new()
                    },
                }
            },
            None => {
                self.clear_all_outputs();
                proof { lemma_clear_names_none(c0, self.calls()); }
                Vec::new()
            },
        }
    }

    /// Recomputes the display owner; a changed owner is published, or the
    /// outputs are cleared when no owner remains.
    fn reconcile(&mut self) -> (r: Vec<(usize, OutputError)>)
        requires
            sessions_inv(old(self)@.sessions),
        ensures
            final(self).wf(),
            final(self)@ == spec_reconcile(old(self)@),
            errors_well_formed(r@, old(self)@.outputs),
            final(self)@.dispatched == old(self)@.dispatched ==> r@.len() == 0,
            calls_follow(old(self).calls(), final(self).calls(), sent_since(old(self)@, final(self)@)),
            errors_name_failures(r@, old(self).calls(), final(self).calls()),
    {
        proof { lemma_selected_active(self@); }
        let next = self.selected_source();
        let same = match (&self.displayed, &next) {
            (Some(a), Some(b)) => *a == *b,
            (None, None) => true,
            _ => false,
        };
        if !same {
            self.displayed = next;
            let ghost v1 = self@;
            let r = self.publish_displayed();
            assert(self@ =~= spec_reconcile(old(self)@));
            assert(self@.dispatched.len() == old(self)@.dispatched.len() + 1);
            proof { lemma_sent_one(old(self)@, self@, display_dispatch(v1)); }
            r
        } else {
            proof {
                lemma_sent_none(old(self)@, self@);
                lemma_calls_unchanged(self.calls());
                lemma_same_names_none(self.calls());
            }
            Vec::new()
        }
    }

    /// Sets the ownership policy and recomputes the owner.
    pub fn set_policy(&mut self, policy: OwnershipPolicy)
        requires
            old(self).wf(),
        ensures
            final(self).wf(),
            final(self)@ == if old(self)@.policy == policy {
                old(self)@
            } else {
                spec_reconcile(EngineView { policy, ..old(self)@ })
            },
            calls_follow(old(self).calls(), final(self).calls(), sent_since(old(self)@, final(self)@)),
    {
        if self.policy == policy {
            proof {
                lemma_sent_none(old(self)@, self@);
                lemma_calls_unchanged(self.calls());
            }
            return;
        }
        self.policy = policy;
        let _ = self.reconcile();
    }

    /// Sets how an unsupported foreground application affects the owner,
    /// and recomputes the owner.
    pub fn set_unsupported_foreground(&mut self, policy: UnsupportedForegroundPolicy)
        requires
            old(self).wf(),
        ensures
            final(self).wf(),
            final(self)@ == if old(self)@.unsupported == policy {
                old(self)@
            } else {
                spec_reconcile(EngineView { unsupported: policy, ..old(self)@ })
            },
            calls_follow(old(self).calls(), final(self).calls(), sent_since(old(self)@, final(self)@)),
    {
        if self.unsupported_foreground == policy {
            proof {
                lemma_sent_none(old(self)@, self@);
                lemma_calls_unchanged(self.calls());
            }
            return;
        }
        self.unsupported_foreground = policy;
        let _ = self.reconcile();
    }

    /// Sets the source matching the OS foreground window (`None` when the
    /// foreground window belongs to no supported application) and
    /// recomputes the owner.
    pub fn set_foreground_source(&mut self, source: Option<&str>) -> (r: Vec<(usize, OutputError)>)
        requires
            old(self).wf(),
        ensures
            final(self).wf(),
            final(self)@ == if old(self)@.foreground == opt_str_chars(source) {
                old(self)@
            } else {
                spec_reconcile(EngineView { foreground: opt_str_chars(source), ..old(self)@ })
            },
            errors_well_formed(r@, old(self)@.outputs),
            final(self)@.dispatched == old(self)@.dispatched ==> r@.len() == 0,
            calls_follow(old(self).calls(), final(self).calls(), sent_since(old(self)@, final(self)@)),
            errors_name_failures(r@, old(self).calls(), final(self).calls()),
    {
        let same = match (&self.foreground, source) {
            (Some(a), Some(b)) => str_eq(a.as_str(), b),
            (None, None) => true,
            _ => false,
        };
        if same {
            proof {
                lemma_sent_none(old(self)@, self@);
                lemma_calls_unchanged(self.calls());
                lemma_same_names_none(self.calls());
            }
            return Vec::new();
        }
        self.foreground = match source {
            Some(s) => Some(s.to_string()),
            None => None,
        };
        self.reconcile()
    }

    /// The index of the session of `source`, registering a new (inactive)
    /// session after the existing ones when it has none.
    fn session_index_for(&mut self, source: &str) -> (r: usize)
        requires
            sessions_inv(old(self)@.sessions),
        ensures
            final(self)@ == (EngineView { sessions: with_source(old(self)@.sessions, source@), ..old(self)@ }),
            sessions_inv(final(self)@.sessions),
            r < final(self)@.sessions.len(),
            final(self)@.sessions[r as int] == session_of(final(self)@.sessions, source@)->0,
            final(self)@.sessions[r as int].source == source@,
            session_of(final(self)@.sessions, source@) is Some,
            forall|x: Seq<char>| x != source@ ==> #[trigger] session_of(final(self)@.sessions, x) == session_of(old(self)@.sessions, x),
            final(self).calls() == old(self).calls(),
    {
        match self.find_session(source) {
            Some(i) => {
                proof { lemma_session_at(self@.sessions, i as int); }
                i
            },
            None => {
                let ghost ss = self@.sessions;
                let ghost sv = SessionView { source: source@, current: None, started: None, last_update: 0 };
                proof {
                    if sources_of(ss).contains(source@) {
                        let j = choose|j: int| 0 <= j < sources_of(ss).len() && sources_of(ss)[j] == source@;
                        assert(false);
                    }
                    lemma_push_new(ss, sv);
                }
                let s = Session { source: source.to_string(), current: None, started: None, last_update: 0 };
                self.sessions.push(s);
                let i = self.sessions.len() - 1;
                assert(self@.sessions =~= ss.push(sv));
                proof { lemma_session_at(self@.sessions, i as int); }
                i
            },
        }
    }

    /// The recency counter after one more report, wrapping at the top.
    fn advance_recency(&mut self) -> (r: u64)
        ensures
            r == next_recency(old(self)@.recency),
            final(self)@ == (EngineView { recency: r, ..old(self)@ }),
            final(self).calls() == old(self).calls(),
    {
        let r = if self.recency == u64::MAX { 0 } else { self.recency + 1 };
        self.recency = r;
        assert(self@.sessions =~= old(self)@.sessions);
        r
    }

    /// Ends the session of `source`: its activity and start time are
    /// dropped and the owner is recomputed. Other sources' sessions are
    /// untouched, and nothing happens when `source` has no running session.
    pub fn end_session(&mut self, source: &str)
        requires
            old(self).wf(),
        ensures
            final(self).wf(),
            final(self)@ == spec_end_session(old(self)@, source@),
            calls_follow(old(self).calls(), final(self).calls(), sent_since(old(self)@, final(self)@)),
    {
        proof {
            lemma_sent_none(old(self)@, old(self)@);
            lemma_calls_unchanged(old(self).calls());
        }
        match self.find_session(source) {
            Some(i) => {
                if self.sessions[i].started.is_some() {
                    let ghost ss = self@.sessions;
                    let ghost s0 = ss[i as int];
                    let ghost s1 = SessionView { current: None, started: None, ..s0 };
                    proof { lemma_replace_at(ss, i as int, s1); }
                    self.sessions[i].current = None;
                    self.sessions[i].started = None;
                    assert(self@.sessions =~= ss.update(i as int, s1));
                    let _ = self.reconcile();
                }
            },
            None => {},
        }
    }

    /// Ends every session and clears every output. Outputs stay registered.
    pub fn clear(&mut self)
        requires
            old(self).wf(),
        ensures
            final(self).wf(),
            final(self)@ == (EngineView {
                sessions: Seq::<SessionView>::empty(),
                foreground: None,
                displayed: None,
                recency: 0,
                dispatched: old(self)@.dispatched.push(Dispatch::Clear),
                ..old(self)@
            }),
            calls_follow(old(self).calls(), final(self).calls(), seq![Dispatch::Clear]),
    {
        self.sessions = Vec::new();
        self.foreground = None;
        self.displayed = None;
        self.recency = 0;
        self.clear_all_outputs();
        assert(self@.sessions =~= Seq::<SessionView>::empty());
    }

    /// The activity stamped with the session start time, unless it carries
    /// its own start.
    fn apply_session_timestamp(start: UnixTime, activity: &Activity) -> (r: Activity)
        ensures
            r@ == stamp(activity@, start),
    {
        match activity.timestamps {
            Some(ts) => {
                if ts.start.is_some() {
                    return activity.duplicate();
                }
            },
            None => {},
        }
        let end = match activity.timestamps {
            Some(ts) => ts.end,
            None => None,
        };
        let mut r = activity.duplicate();
        r.timestamps = Some(ActivityTimestamps { start: Some(start.unix_secs()), end });
        r
    }

    /// Records a report of `activity` by `source`: begins its session when it
    /// has none, stamps the activity with the session start, and publishes
    /// as the ownership rules say. With `dedup`, an unchanged activity is
    /// only recorded as a report.
    fn report(&mut self, source: &str, activity: &Activity, dedup: bool) -> (r: Vec<(usize, OutputError)>)
        requires
            old(self).wf(),
        ensures
            final(self).wf(),
            session_of(final(self)@.sessions, source@) is Some,
            session_of(final(self)@.sessions, source@)->0.started is Some,
            final(self)@ == spec_report(old(self)@, source@, activity@,
                session_of(final(self)@.sessions, source@)->0.started->0, dedup),
            (session_of(old(self)@.sessions, source@) is Some && session_of(old(self)@.sessions, source@)->0.started is Some)
                ==> session_of(final(self)@.sessions, source@)->0.started == session_of(old(self)@.sessions, source@)->0.started,
            errors_well_formed(r@, old(self)@.outputs),
            final(self)@.dispatched == old(self)@.dispatched ==> r@.len() == 0,
            calls_follow(old(self).calls(), final(self).calls(), sent_since(old(self)@, final(self)@)),
            errors_name_failures(r@, old(self).calls(), final(self).calls()),
    {
        let recency = self.advance_recency();
        let ghost v0 = self@;
        let i = self.session_index_for(source);
        let ghost ss1 = self@.sessions;
        let ghost old_s = ss1[i as int];
        let t = match self.sessions[i].started {
            Some(t) => t,
            None => now(),
        };
        let stamped = Self::apply_session_timestamp(t, activity);
        let dup = dedup && match &self.sessions[i].current {
            Some(c) => c.same_as(&stamped),
            None => false,
        };
        if dup {
            let ghost s1 = SessionView { started: Some(t), last_update: recency, ..old_s };
            proof { lemma_replace_at(ss1, i as int, s1); }
            self.sessions[i].started = Some(t);
            self.sessions[i].last_update = recency;
            assert(self@.sessions =~= ss1.update(i as int, s1));
            proof {
                lemma_session_at(self@.sessions, i as int);
                assert(sessions_inv(self@.sessions));
                lemma_sent_none(old(self)@, self@);
                lemma_calls_unchanged(self.calls());
                lemma_same_names_none(self.calls());
                if old(self)@.policy == OwnershipPolicy::Fixed {
                    crate::engine_laws::law_fixed_owner_is_first_active(old(self)@, source@, activity@, t, dedup);
                    assert(self@ == spec_report(old(self)@, source@, activity@, t, dedup));
                }
                if old(self)@.policy == OwnershipPolicy::Fixed {
                    crate::engine_laws::law_fixed_owner_is_first_active(old(self)@, source@, activity@, t, dedup);
                    assert(self@ == spec_report(old(self)@, source@, activity@, t, dedup));
                }
            }
            return Vec::new();
        }
        let ghost s2 = SessionView { source: source@, current: Some(stamped@), started: Some(t), last_update: recency };
        proof { lemma_replace_at(ss1, i as int, s2); }
        let copy = stamped.duplicate();
        self.sessions[i].started = Some(t);
        self.sessions[i].last_update = recency;
        self.sessions[i].current = Some(copy);
        assert(self@.sessions =~= ss1.update(i as int, s2));
        proof {
            lemma_session_at(self@.sessions, i as int);
            assert(sessions_inv(self@.sessions));
            lemma_selected_active(self@);
        }
        let ghost v2 = self@;
        let next = self.selected_source();
        let same = match (&self.displayed, &next) {
            (Some(a), Some(b)) => *a == *b,
            (None, None) => true,
            _ => false,
        };
        if !same {
            self.displayed = next;
            let ghost v3 = self@;
            let r = self.publish_displayed();
            assert(self@.dispatched.len() == v2.dispatched.len() + 1);
            proof { lemma_sent_one(old(self)@, self@, display_dispatch(v3)); }
            r
        } else {
            let owner = match &self.displayed {
                Some(d) => str_eq(d.as_str(), source),
                None => false,
            };
            if owner {
                let r = self.publish_to_outputs(source, &stamped);
                assert(self@.dispatched.len() == v2.dispatched.len() + 1);
                proof { lemma_sent_one(old(self)@, self@, Dispatch::Publish(source@, stamped@)); }
                r
            } else {
                proof {
                    lemma_sent_none(old(self)@, self@);
                    lemma_calls_unchanged(self.calls());
                    lemma_same_names_none(self.calls());
                }
                Vec::new()
            }
        }
    }

    /// Updates the engine with `activity` from `source`.
    ///
    /// The source's session begins on its first activity. The activity is
    /// stamped with the session start; an activity equal to the stored one is
    /// not published again. Only the display owner's activity reaches the
    /// outputs; a non-owner's activity is stored for later promotion.
    pub fn update(&mut self, source: &str, activity: &Activity) -> (r: Vec<(usize, OutputError)>)
        requires
            old(self).wf(),
        ensures
            final(self).wf(),
            session_of(final(self)@.sessions, source@) is Some,
            session_of(final(self)@.sessions, source@)->0.started is Some,
            final(self)@ == spec_report(old(self)@, source@, activity@,
                session_of(final(self)@.sessions, source@)->0.started->0, true),
            (session_of(old(self)@.sessions, source@) is Some && session_of(old(self)@.sessions, source@)->0.started is Some)
                ==> session_of(final(self)@.sessions, source@)->0.started == session_of(old(self)@.sessions, source@)->0.started,
            errors_well_formed(r@, old(self)@.outputs),
            final(self)@.dispatched == old(self)@.dispatched ==> r@.len() == 0,
            calls_follow(old(self).calls(), final(self).calls(), sent_since(old(self)@, final(self)@)),
            errors_name_failures(r@, old(self).calls(), final(self).calls()),
    {
        self.report(source, activity, true)
    }

    /// Like [`update`](Self::update), but publishes even when the activity
    /// is unchanged (still only when `source` owns the display).
    pub fn publish_now(&mut self, source: &str, activity: &Activity) -> (r: Vec<(usize, OutputError)>)
        requires
            old(self).wf(),
        ensures
            final(self).wf(),
            session_of(final(self)@.sessions, source@) is Some,
            session_of(final(self)@.sessions, source@)->0.started is Some,
            final(self)@ == spec_report(old(self)@, source@, activity@,
                session_of(final(self)@.sessions, source@)->0.started->0, false),
            (session_of(old(self)@.sessions, source@) is Some && session_of(old(self)@.sessions, source@)->0.started is Some)
                ==> session_of(final(self)@.sessions, source@)->0.started == session_of(old(self)@.sessions, source@)->0.started,
            errors_well_formed(r@, old(self)@.outputs),
            final(self)@.dispatched == old(self)@.dispatched ==> r@.len() == 0,
            calls_follow(old(self).calls(), final(self).calls(), sent_since(old(self)@, final(self)@)),
            errors_name_failures(r@, old(self).calls(), final(self).calls()),
    {
        self.report(source, activity, false)
    }

    /// Whether any output reports a live connection.
    pub fn any_output_connected(&self) -> (r: bool)
        ensures
            r == reports_connected(self.connections()),
            r ==> self@.outputs > 0,
    {
        let mut i: usize = 0;
        while i < self.outputs.len()
            invariant
                i <= self.outputs@.len(),
                forall|j: int| 0 <= j < i ==> self.connections()[j] != Some(true),
            decreases self.outputs@.len() - i,
        {
            if self.outputs[i].out.connection_state() == Some(true) {
                assert(self.connections()[i as int] == Some(true));
                return true;
            }
            i = i + 1;
        }
        false
    }
}

} // verus!
