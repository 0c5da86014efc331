//! Properties of the presence engine that span its operations.

use vstd::prelude::*;
use crate::activity::{ActivityTimestamps, ActivityView};
use crate::clock::UnixTime;
use crate::config::{OwnershipPolicy, UnsupportedForegroundPolicy};
use crate::output::{
    engine_inv, first_active, is_active, lemma_replace_at, lemma_selected_active, lemma_session_at,
    next_recency, replace_session, selected_source, session_of, sessions_inv, sources_of, spec_end_session,
    spec_reconcile, spec_report, stamp, with_source, Dispatch, EngineView, SessionView,
};

verus! {

/// What a dispatch shows agrees with the engine state after it: a publish
/// carries the displayed source and its stored activity, a clear happens
/// only when nothing is displayed.
pub open spec fn dispatch_matches(v: EngineView, d: Dispatch) -> bool {
    match d {
        Dispatch::Publish(src, a) => v.displayed == Some(src) && session_of(v.sessions, src) is Some
            && session_of(v.sessions, src)->0.current == Some(a),
        Dispatch::Clear => v.displayed is None,
    }
}

/// A step either dispatches nothing or dispatches one thing that matches
/// the state it leaves.
pub open spec fn step_dispatch_ok(before: EngineView, after: EngineView) -> bool {
    ||| after.dispatched == before.dispatched
    ||| (after.dispatched.len() == before.dispatched.len() + 1
        && after.dispatched.drop_last() == before.dispatched
        && dispatch_matches(after, after.dispatched.last()))
}

/// Recomputing the owner leaves the sessions alone, displays exactly the
/// selected source, and dispatches only what matches the result.
pub proof fn law_reconcile_shows_selected(v: EngineView)
    requires
        sessions_inv(v.sessions),
    ensures
        spec_reconcile(v).sessions == v.sessions,
        spec_reconcile(v).displayed == selected_source(v),
        step_dispatch_ok(v, spec_reconcile(v)),
{
    lemma_selected_active(v);
    let r = spec_reconcile(v);
    if v.displayed != selected_source(v) {
        assert(r.dispatched.drop_last() =~= v.dispatched);
        match selected_source(v) {
            Some(d) => {
                let k = choose|k: int| 0 <= k < sources_of(v.sessions).len() && sources_of(v.sessions)[k] == d;
                assert(v.sessions[k].source == d);
                lemma_session_at(v.sessions, k);
            },
            None => {},
        }
    }
}

/// Ending a session that is not running changes nothing and dispatches
/// nothing; in particular ending the same session twice is the same as
/// ending it once.
pub proof fn law_end_session_idempotent(v: EngineView, src: Seq<char>)
    requires
        engine_inv(v),
    ensures
        spec_end_session(spec_end_session(v, src), src) == spec_end_session(v, src),
        !is_active(spec_end_session(v, src).sessions, src),
{
    match session_of(v.sessions, src) {
        Some(s) => {
            if s.started is Some {
                let k = sources_of(v.sessions).index_of(src);
                let k0 = choose|k0: int| 0 <= k0 < sources_of(v.sessions).len() && sources_of(v.sessions)[k0] == src;
                assert(v.sessions[k0].source == src);
                lemma_session_at(v.sessions, k0);
                let s1 = SessionView { current: None, started: None, ..s };
                lemma_replace_at(v.sessions, k0, s1);
                let v1 = EngineView { sessions: replace_session(v.sessions, src, s1), ..v };
                law_reconcile_shows_selected(v1);
                assert(session_of(spec_end_session(v, src).sessions, src) == Some(s1));
            } else {
                let k0 = choose|k0: int| 0 <= k0 < sources_of(v.sessions).len() && sources_of(v.sessions)[k0] == src;
                assert(v.sessions[k0].source == src);
                lemma_session_at(v.sessions, k0);
            }
        },
        None => {},
    }
}

/// Ending one source's session never touches another source's session.
pub proof fn law_end_session_isolated(v: EngineView, src: Seq<char>, other: Seq<char>)
    requires
        engine_inv(v),
        other != src,
    ensures
        session_of(spec_end_session(v, src).sessions, other) == session_of(v.sessions, other),
{
    match session_of(v.sessions, src) {
        Some(s) => {
            if s.started is Some {
                let k0 = choose|k0: int| 0 <= k0 < sources_of(v.sessions).len() && sources_of(v.sessions)[k0] == src;
                assert(v.sessions[k0].source == src);
                lemma_session_at(v.sessions, k0);
                let s1 = SessionView { current: None, started: None, ..s };
                lemma_replace_at(v.sessions, k0, s1);
                let v1 = EngineView { sessions: replace_session(v.sessions, src, s1), ..v };
                law_reconcile_shows_selected(v1);
            }
        },
        None => {},
    }
}

/// Ending a source's session leaves that source inactive.
pub proof fn law_end_session_ends(v: EngineView, src: Seq<char>)
    requires
        engine_inv(v),
    ensures
        !is_active(spec_end_session(v, src).sessions, src),
{
    match session_of(v.sessions, src) {
        Some(s) => {
            let k0 = choose|k0: int| 0 <= k0 < sources_of(v.sessions).len() && sources_of(v.sessions)[k0] == src;
            assert(v.sessions[k0].source == src);
            lemma_session_at(v.sessions, k0);
            if s.started is Some {
                let s1 = SessionView { current: None, started: None, ..s };
                lemma_replace_at(v.sessions, k0, s1);
            } else {
                assert(v.sessions[k0].current is None);
            }
        },
        None => {},
    }
}

/// A report by one source never touches another source's session.
pub proof fn law_report_isolated(v: EngineView, src: Seq<char>, a: ActivityView, t: UnixTime, dedup: bool, other: Seq<char>)
    requires
        engine_inv(v),
        other != src,
    ensures
        session_of(spec_report(v, src, a, t, dedup).sessions, other) == session_of(v.sessions, other),
{
    let ss = v.sessions;
    let ss1 = with_source(ss, src);
    if !sources_of(ss).contains(src) {
        let nv = SessionView { source: src, current: None, started: None, last_update: 0 };
        crate::output::lemma_push_new(ss, nv);
    }
    assert(sources_of(ss1).no_duplicates());
    assert(sources_of(ss1).contains(src)) by {
        if !sources_of(ss).contains(src) {
            assert(sources_of(ss1)[ss.len() as int] == src);
        }
    }
    let k0 = choose|k0: int| 0 <= k0 < sources_of(ss1).len() && sources_of(ss1)[k0] == src;
    assert(ss1[k0].source == src);
    lemma_session_at(ss1, k0);
    let old_s = ss1[k0];
    let r = crate::output::next_recency(v.recency);
    let s_dup = SessionView { started: Some(t), last_update: r, ..old_s };
    let s_new = SessionView { source: src, current: Some(stamp(a, t)), started: Some(t), last_update: r };
    lemma_replace_at(ss1, k0, s_dup);
    lemma_replace_at(ss1, k0, s_new);
}

/// Reporting the activity a running source already shows (after stamping)
/// dispatches nothing.
pub proof fn law_unchanged_report_is_silent(v: EngineView, src: Seq<char>, a: ActivityView, t: UnixTime)
    requires
        engine_inv(v),
        session_of(v.sessions, src) is Some,
        session_of(v.sessions, src)->0.current == Some(stamp(a, t)),
    ensures
        spec_report(v, src, a, t, true).dispatched == v.dispatched,
        spec_report(v, src, a, t, true).displayed == v.displayed,
{
    assert(sources_of(v.sessions).contains(src));
    assert(with_source(v.sessions, src) == v.sessions);
}

/// Every report leaves the engine invariant in place and dispatches only
/// the displayed source's stored activity, or a clear when nothing is
/// displayed.
pub proof fn law_report_dispatches_owner(v: EngineView, src: Seq<char>, a: ActivityView, t: UnixTime, dedup: bool)
    requires
        engine_inv(v),
        session_of(v.sessions, src) is Some && session_of(v.sessions, src)->0.started is Some
            ==> session_of(v.sessions, src)->0.started == Some(t),
    ensures
        step_dispatch_ok(v, spec_report(v, src, a, t, dedup)),
{
    let ss = v.sessions;
    let ss1 = with_source(ss, src);
    if !sources_of(ss).contains(src) {
        let nv = SessionView { source: src, current: None, started: None, last_update: 0 };
        crate::output::lemma_push_new(ss, nv);
    }
    assert(sources_of(ss1).contains(src)) by {
        if !sources_of(ss).contains(src) {
            assert(sources_of(ss1)[ss.len() as int] == src);
        }
    }
    let k0 = choose|k0: int| 0 <= k0 < sources_of(ss1).len() && sources_of(ss1)[k0] == src;
    assert(ss1[k0].source == src);
    lemma_session_at(ss1, k0);
    let old_s = ss1[k0];
    let r = crate::output::next_recency(v.recency);
    let stamped = stamp(a, t);
    if !(dedup && old_s.current == Some(stamped)) {
        let s_new = SessionView { source: src, current: Some(stamped), started: Some(t), last_update: r };
        lemma_replace_at(ss1, k0, s_new);
        let ss2 = replace_session(ss1, src, s_new);
        let v2 = EngineView { sessions: ss2, recency: r, ..v };
        assert(sessions_inv(ss2)) by {
            assert forall|i: int| 0 <= i < ss2.len() implies ((#[trigger] ss2[i]).current is Some <==> ss2[i].started is Some) by {
                if i != k0 {
                    if i < ss.len() {
                        assert(ss2[i] == ss[i]);
                    } else {
                        assert(ss2[i] == ss1[i]);
                    }
                }
            }
        }
        lemma_selected_active(v2);
        let next = selected_source(v2);
        let fin = spec_report(v, src, a, t, dedup);
        if v.displayed != next {
            assert(fin.dispatched.drop_last() =~= v.dispatched);
            match next {
                Some(d) => {
                    let k = choose|k: int| 0 <= k < sources_of(ss2).len() && sources_of(ss2)[k] == d;
                    assert(ss2[k].source == d);
                    lemma_session_at(ss2, k);
                },
                None => {},
            }
        } else if v.displayed == Some(src) {
            assert(fin.dispatched.drop_last() =~= v.dispatched);
        }
    }
}

/// Under the foreground policy, an unsupported application coming to the
/// foreground neither steals nor clears the displayed presence.
pub proof fn law_unsupported_foreground_keeps_owner(v: EngineView)
    requires
        engine_inv(v),
        v.policy == OwnershipPolicy::Foreground,
        v.unsupported == UnsupportedForegroundPolicy::KeepLast,
        v.displayed is Some,
    ensures
        spec_reconcile(EngineView { foreground: None, ..v }) == (EngineView { foreground: None, ..v }),
{
}

/// Under the foreground policy, an active source in the foreground owns the
/// display once the owner is recomputed.
pub proof fn law_foreground_source_owns(v: EngineView, src: Seq<char>)
    requires
        engine_inv(v),
        v.policy == OwnershipPolicy::Foreground,
        is_active(v.sessions, src),
    ensures
        spec_reconcile(EngineView { foreground: Some(src), ..v }).displayed == Some(src),
{
}

/// Under the fixed policy, the first active source in registration order
/// owns the display once the owner is recomputed.
pub proof fn law_fixed_first_active_owns(v: EngineView)
    requires
        engine_inv(v),
        v.policy == OwnershipPolicy::Fixed,
    ensures
        spec_reconcile(v).displayed == first_active(v.sessions),
{
}

/// Sessions with the same sources and activities have the same first
/// active source.
proof fn lemma_first_active_same(ss1: Seq<SessionView>, ss2: Seq<SessionView>)
    requires
        ss1.len() == ss2.len(),
        forall|i: int| 0 <= i < ss1.len() ==> #[trigger] ss1[i].current == ss2[i].current && ss1[i].source == ss2[i].source,
    ensures
        first_active(ss1) == first_active(ss2),
    decreases ss1.len(),
{
    if ss1.len() > 0 {
        assert forall|i: int| 0 <= i < ss1.drop_first().len() implies #[trigger] ss1.drop_first()[i].current
            == ss2.drop_first()[i].current && ss1.drop_first()[i].source == ss2.drop_first()[i].source by {
            assert(ss1.drop_first()[i] == ss1[i + 1]);
            assert(ss2.drop_first()[i] == ss2[i + 1]);
        }
        lemma_first_active_same(ss1.drop_first(), ss2.drop_first());
    }
}

/// Under the fixed policy the display owner is always the first active
/// source in the order sources first reported: every report, every ended
/// session and every clear keeps the owner so.
pub proof fn law_fixed_owner_is_first_active(v: EngineView, src: Seq<char>, a: ActivityView, t: UnixTime, dedup: bool)
    requires
        engine_inv(v),
        v.policy == OwnershipPolicy::Fixed,
        v.displayed == first_active(v.sessions),
    ensures
        spec_report(v, src, a, t, dedup).displayed == first_active(spec_report(v, src, a, t, dedup).sessions),
        spec_end_session(v, src).displayed == first_active(spec_end_session(v, src).sessions),
        first_active(Seq::<SessionView>::empty()) is None,
{
    let ss1 = with_source(v.sessions, src);
    let old_s = session_of(ss1, src)->0;
    let stamped = stamp(a, t);
    if dedup && old_s.current == Some(stamped) {
        if !sources_of(v.sessions).contains(src) {
            let nv = SessionView { source: src, current: None, started: None, last_update: 0 };
            crate::output::lemma_push_new(v.sessions, nv);
            crate::output::lemma_session_at(ss1, v.sessions.len() as int);
            assert(ss1[v.sessions.len() as int] == nv);
        }
        assert(ss1 == v.sessions);
        let k0 = choose|k0: int| 0 <= k0 < sources_of(ss1).len() && sources_of(ss1)[k0] == src;
        assert(ss1[k0].source == src);
        lemma_session_at(ss1, k0);
        let s1 = SessionView { started: Some(t), last_update: crate::output::next_recency(v.recency), ..old_s };
        lemma_replace_at(ss1, k0, s1);
        let ss2 = replace_session(ss1, src, s1);
        assert forall|i: int| 0 <= i < ss2.len() implies #[trigger] ss2[i].current == ss1[i].current
            && ss2[i].source == ss1[i].source by {}
        lemma_first_active_same(ss2, ss1);
    }
}

/// The session a report leaves for its source: with an unchanged activity
/// (and `dedup`) the stored one, otherwise the stamped activity; either way
/// started at `t`.
pub open spec fn reported_session(v: EngineView, src: Seq<char>, a: ActivityView, t: UnixTime, dedup: bool) -> SessionView {
    let old_s = session_of(with_source(v.sessions, src), src)->0;
    let r = next_recency(v.recency);
    if dedup && old_s.current == Some(stamp(a, t)) {
        SessionView { started: Some(t), last_update: r, ..old_s }
    } else {
        SessionView { source: src, current: Some(stamp(a, t)), started: Some(t), last_update: r }
    }
}

/// A report replaces its source's session by [`reported_session`], whose
/// activity is the stamped one, and keeps the session invariant.
proof fn lemma_report_session(v: EngineView, src: Seq<char>, a: ActivityView, t: UnixTime, dedup: bool)
    requires
        sessions_inv(v.sessions),
    ensures
        sessions_inv(spec_report(v, src, a, t, dedup).sessions),
        session_of(spec_report(v, src, a, t, dedup).sessions, src) == Some(reported_session(v, src, a, t, dedup)),
        reported_session(v, src, a, t, dedup).current == Some(stamp(a, t)),
        reported_session(v, src, a, t, dedup).started == Some(t),
{
    let ss = v.sessions;
    let ss1 = with_source(ss, src);
    if !sources_of(ss).contains(src) {
        let nv = SessionView { source: src, current: None, started: None, last_update: 0 };
        crate::output::lemma_push_new(ss, nv);
    }
    assert(sources_of(ss1).contains(src)) by {
        if !sources_of(ss).contains(src) {
            assert(sources_of(ss1)[ss.len() as int] == src);
        }
    }
    let k0 = choose|k0: int| 0 <= k0 < sources_of(ss1).len() && sources_of(ss1)[k0] == src;
    assert(ss1[k0].source == src);
    lemma_session_at(ss1, k0);
    let ns = reported_session(v, src, a, t, dedup);
    lemma_replace_at(ss1, k0, ns);
    let ss2 = replace_session(ss1, src, ns);
    assert(sessions_inv(ss2)) by {
        assert forall|i: int| 0 <= i < ss2.len() implies ((#[trigger] ss2[i]).current is Some <==> ss2[i].started is Some) by {
            if i != k0 {
                if i < ss.len() {
                    assert(ss2[i] == ss[i]);
                } else {
                    assert(ss2[i] == ss1[i]);
                }
            }
        }
    }
    assert(spec_report(v, src, a, t, dedup).sessions == ss2);
}

/// Reporting the same activity twice in a row: the second report
/// dispatches nothing, and leaves the displayed source and every session's
/// activity and start as the first left them. (The second report's session
/// start is the first one's: a report keeps a running session's start.)
pub proof fn law_repeated_report_is_silent(v: EngineView, src: Seq<char>, a: ActivityView, t: UnixTime, dedup: bool)
    requires
        engine_inv(v),
    ensures
        ({
            let v1 = spec_report(v, src, a, t, dedup);
            let v2 = spec_report(v1, src, a, t, true);
            &&& v2.dispatched == v1.dispatched
            &&& v2.displayed == v1.displayed
            &&& forall|x: Seq<char>|
                #![trigger session_of(v2.sessions, x)]
                session_of(v2.sessions, x) is Some == session_of(v1.sessions, x) is Some
                    && (session_of(v1.sessions, x) is Some ==> session_of(v2.sessions, x)->0.current
                    == session_of(v1.sessions, x)->0.current && session_of(v2.sessions, x)->0.started
                    == session_of(v1.sessions, x)->0.started)
        }),
{
    let v1 = spec_report(v, src, a, t, dedup);
    lemma_report_session(v, src, a, t, dedup);
    lemma_report_session(v1, src, a, t, true);
    let ss1 = v1.sessions;
    assert(sources_of(ss1).contains(src));
    assert(with_source(ss1, src) == ss1);
    let v2 = spec_report(v1, src, a, t, true);
    assert forall|x: Seq<char>| x != src implies #[trigger] session_of(v2.sessions, x) == session_of(v1.sessions, x) by {
        let k0 = choose|k0: int| 0 <= k0 < sources_of(ss1).len() && sources_of(ss1)[k0] == src;
        assert(ss1[k0].source == src);
        lemma_session_at(ss1, k0);
        lemma_replace_at(ss1, k0, reported_session(v1, src, a, t, true));
    }
}

/// A report by a source whose session began at `t` keeps that start, and
/// stores the activity stamped with it: its own start time if it carries
/// one, the session start otherwise, and its own end time.
pub proof fn law_report_keeps_session_start(v: EngineView, src: Seq<char>, a: ActivityView, t: UnixTime, dedup: bool)
    requires
        engine_inv(v),
        session_of(v.sessions, src) is Some,
        session_of(v.sessions, src)->0.started == Some(t),
    ensures
        session_of(spec_report(v, src, a, t, dedup).sessions, src)->0.started == Some(t),
        session_of(spec_report(v, src, a, t, dedup).sessions, src)->0.current == Some(stamp(a, t)),
        stamp(a, t).timestamps == Some(
            ActivityTimestamps {
                start: match a.timestamps {
                    Some(ts) if ts.start is Some => ts.start,
                    _ => Some(t.spec_unix_secs()),
                },
                end: match a.timestamps {
                    Some(ts) => ts.end,
                    None => None,
                },
            },
        ),
{
    lemma_report_session(v, src, a, t, dedup);
}

/// Under the fixed policy every engine displays the first active source in
/// the order sources first reported since the last clear: the engine's
/// invariant says so, and construction establishes it and every operation
/// keeps it.
pub proof fn law_fixed_owner_invariant(v: EngineView)
    requires
        engine_inv(v),
        v.policy == OwnershipPolicy::Fixed,
    ensures
        v.displayed == first_active(v.sessions),
{
}

/// A report by the display owner that stays the owner, with an activity
/// that differs from the one it shows, publishes exactly that activity
/// (stamped with the session start) to the outputs, whether or not
/// unchanged reports are skipped.
pub proof fn law_owner_change_is_published(v: EngineView, src: Seq<char>, a: ActivityView, t: UnixTime, dedup: bool)
    requires
        engine_inv(v),
        v.displayed == Some(src),
        spec_report(v, src, a, t, dedup).displayed == Some(src),
        session_of(v.sessions, src)->0.current != Some(stamp(a, t)),
    ensures
        spec_report(v, src, a, t, dedup).dispatched == v.dispatched.push(Dispatch::Publish(src, stamp(a, t))),
        session_of(spec_report(v, src, a, t, dedup).sessions, src)->0.current == Some(stamp(a, t)),
{
    assert(is_active(v.sessions, src));
    assert(sources_of(v.sessions).contains(src));
    assert(with_source(v.sessions, src) == v.sessions);
    lemma_report_session(v, src, a, t, dedup);
}

} // verus!
