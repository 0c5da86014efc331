//! An output that prints each new activity as a text report on standard
//! output.

use std::io::{Stdout, Write};
use vstd::prelude::*;
use crate::activity::{Activity, ActivityView};
use crate::clock::{now, UnixTime};
use crate::output::{Output, OutputCall, OutputError};
use crate::text::{append_decimal, append_str, decimal};

verus! {

/// The rule that frames a report.
pub open spec fn rule() -> Seq<char> {
    "--------------------------------------------------\n"@
}

/// A number as at least two decimal digits.
pub open spec fn two_digits(n: nat) -> Seq<char> {
    if n < 10 {
        "0"@ + decimal(n)
    } else {
        decimal(n)
    }
}

/// `HH:MM:SS` of a number of seconds; hours take as many digits as needed.
pub open spec fn clock_text(secs: nat) -> Seq<char> {
    two_digits(secs / 3600) + ":"@ + two_digits((secs % 3600) / 60) + ":"@ + two_digits(secs % 60)
}

/// Whole seconds from a session start (Unix seconds) to `now`; none when
/// the start lies after `now`. A start before the epoch counts from the
/// epoch.
pub open spec fn elapsed_secs(start: i64, now: UnixTime) -> Option<nat> {
    let base: int = if start >= 0 {
        start as int
    } else {
        0
    };
    if now.secs >= base {
        Some((now.secs - base) as nat)
    } else {
        None
    }
}

/// The metadata lines of an activity, one `key = value` per entry in the
/// activity's entry order.
pub open spec fn metadata_lines(entries: Seq<(Seq<char>, Seq<char>)>) -> Seq<char>
    decreases entries.len(),
{
    if entries.len() == 0 {
        Seq::empty()
    } else {
        metadata_lines(entries.drop_last()) + entries.last().0 + " = "@ + entries.last().1 + "\n"@
    }
}

/// The application line of a report, when the metadata names one.
pub open spec fn application_part(a: ActivityView) -> Seq<char> {
    if a.metadata.dom().contains("application"@) {
        "Application: "@ + a.metadata["application"@] + "\n"@
    } else {
        Seq::empty()
    }
}

/// The details line of a report, when there are details.
pub open spec fn details_part(a: ActivityView) -> Seq<char> {
    match a.details {
        Some(d) => "Details: "@ + d + "\n"@,
        None => Seq::empty(),
    }
}

/// The session-duration line of a report, when a start is known and not
/// after `now`.
pub open spec fn duration_part(a: ActivityView, now: UnixTime) -> Seq<char> {
    match a.timestamps {
        Some(ts) => match ts.start {
            Some(s) => match elapsed_secs(s, now) {
                Some(e) => "Session Duration: "@ + clock_text(e) + "\n"@,
                None => Seq::empty(),
            },
            None => Seq::empty(),
        },
        None => Seq::empty(),
    }
}

/// The text report of an activity at time `now`: a rule, a title, the
/// application (from metadata), state, details and session duration when
/// known, then the metadata entries and a closing rule.
pub open spec fn report(a: ActivityView, entries: Seq<(Seq<char>, Seq<char>)>, now: UnixTime) -> Seq<char> {
    rule() + "PresenceHub Activity\n\n"@ + application_part(a) + "State: "@ + a.state + "\n"@
        + details_part(a) + duration_part(a, now) + "\nMetadata\n"@ + metadata_lines(entries)
        + rule()
}

/// Appends `n` as at least two digits.
fn append_two_digits(out: &mut String, n: u64)
    ensures
        final(out)@ == old(out)@ + two_digits(n as nat),
{
    if n < 10 {
        append_str(out, "0");
    }
    append_decimal(out, n);
    assert(final(out)@ =~= old(out)@ + two_digits(n as nat));
}

/// Appends the application line, when the metadata names one.
fn append_application(out: &mut String, activity: &Activity)
    ensures
        final(out)@ == old(out)@ + application_part(activity@),
{
    match activity.metadata.get("application") {
        Some(app) => {
            append_str(out, "Application: ");
            append_str(out, app.as_str());
            append_str(out, "\n");
        },
        None => {},
    }
    assert(out@ =~= old(out)@ + application_part(activity@));
}

/// Appends the details line, when there are details.
fn append_details(out: &mut String, activity: &Activity)
    ensures
        final(out)@ == old(out)@ + details_part(activity@),
{
    match &activity.details {
        Some(d) => {
            append_str(out, "Details: ");
            append_str(out, d.as_str());
            append_str(out, "\n");
        },
        None => {},
    }
    assert(out@ =~= old(out)@ + details_part(activity@));
}

/// Appends the session-duration line, when it applies.
fn append_duration(out: &mut String, activity: &Activity, now: UnixTime)
    ensures
        final(out)@ == old(out)@ + duration_part(activity@, now),
{
    match activity.timestamps {
        Some(ts) => match ts.start {
            Some(s) => {
                let base: u64 = if s >= 0 {
                    s as u64
                } else {
                    0
                };
                if now.secs >= base {
                    let e: u64 = now.secs - base;
                    append_str(out, "Session Duration: ");
                    append_two_digits(out, e / 3600);
                    append_str(out, ":");
                    append_two_digits(out, (e % 3600) / 60);
                    append_str(out, ":");
                    append_two_digits(out, e % 60);
                    append_str(out, "\n");
                }
            },
            None => {},
        },
        None => {},
    }
    assert(out@ =~= old(out)@ + duration_part(activity@, now));
}

/// Appends one `key = value` line per metadata entry.
fn append_metadata(out: &mut String, activity: &Activity)
    ensures
        final(out)@ == old(out)@ + metadata_lines(activity.metadata.entry_seq()),
{
    let ghost entries = activity.metadata.entry_seq();
    let ghost head = out@;
    let n = activity.metadata.len();
    let mut i: usize = 0;
    assert(metadata_lines(entries.take(0)) =~= Seq::<char>::empty());
    assert(out@ =~= head + metadata_lines(entries.take(0)));
    while i < n
        invariant
            n == entries.len(),
            entries == activity.metadata.entry_seq(),
            i <= n,
            out@ == head + metadata_lines(entries.take(i as int)),
        decreases n - i,
    {
        let (k, v) = activity.metadata.entry(i);
        let ghost before = out@;
        append_str(out, k.as_str());
        append_str(out, " = ");
        append_str(out, v.as_str());
        append_str(out, "\n");
        let ghost t = entries.take(i + 1);
        assert(t.drop_last() =~= entries.take(i as int));
        assert(t.last() == entries[i as int]);
        assert(t.len() == i + 1);
        assert(metadata_lines(t) == metadata_lines(t.drop_last()) + t.last().0 + " = "@ + t.last().1 + "\n"@) by {
            reveal_with_fuel(metadata_lines, 2);
        }
        assert(out@ =~= before + k@ + " = "@ + v@ + "\n"@);
        assert(out@ =~= head + metadata_lines(t));
        i = i + 1;
    }
    assert(entries.take(n as int) =~= entries);
}

/// Builds the report of an activity at time `now`.
pub fn console_report(activity: &Activity, now: UnixTime) -> (r: String)
    ensures
        r@ == report(activity@, activity.metadata.entry_seq(), now),
{
    let ghost a = activity@;
    let mut out = String::new();
    append_str(&mut out, "--------------------------------------------------\n");
    append_str(&mut out, "PresenceHub Activity\n\n");
    assert(out@ =~= rule() + "PresenceHub Activity\n\n"@);
    append_application(&mut out, activity);
    append_str(&mut out, "State: ");
    append_str(&mut out, activity.state.as_str());
    append_str(&mut out, "\n");
    let ghost p1 = out@;
    assert(p1 =~= rule() + "PresenceHub Activity\n\n"@ + application_part(a) + "State: "@ + a.state + "\n"@);
    append_details(&mut out, activity);
    append_duration(&mut out, activity, now);
    append_str(&mut out, "\nMetadata\n");
    let ghost p2 = out@;
    assert(p2 =~= p1 + details_part(a) + duration_part(a, now) + "\nMetadata\n"@);
    append_metadata(&mut out, activity);
    append_str(&mut out, "--------------------------------------------------\n");
    assert(out@ =~= p2 + metadata_lines(activity.metadata.entry_seq()) + rule());
    assert(out@ =~= report(a, activity.metadata.entry_seq(), now));
    out
}

#[verifier::external_type_specification]
#[verifier::external_body]
pub struct ExStdout(Stdout);

/// The process's standard output (`std::io::stdout`).
#[verifier::external_body]
fn stdout_handle() -> Stdout {
    std::io::stdout()
}

/// Writes all of `text` to standard output (`Write::write_all`); a failed
/// write is ignored.
#[verifier::external_body]
fn write_all_text(out: &mut Stdout, text: &str) {
    let _ = out.write_all(text.as_bytes());
}

/// An output that prints a report of each new activity on standard output
/// and skips repeats of the last one printed.
pub struct ConsoleOutput {
    last: Option<Activity>,
    calls: Ghost<Seq<OutputCall>>,
}

/// The content of an optional activity.
pub open spec fn opt_activity(a: Option<Activity>) -> Option<ActivityView> {
    match a {
        Some(x) => Some(x@),
        None => None,
    }
}

impl ConsoleOutput {
    /// The last activity printed, if any.
    pub closed spec fn spec_last(&self) -> Option<ActivityView> {
        opt_activity(self.last)
    }

    /// A console output that has printed nothing.
    pub fn new() -> (r: Self)
        ensures
            r.spec_last() is None,
            r.received() == Seq::<OutputCall>::empty(),
    {
        ConsoleOutput { last: None, calls: Ghost(Seq::empty()) }
    }

    /// The last activity printed, if any.
    pub fn last_activity(&self) -> (r: Option<&Activity>)
        ensures
            match r {
                Some(a) => self.spec_last() == Some(a@),
                None => self.spec_last() is None,
            },
    {
        match &self.last {
            Some(a) => Some(a),
            None => None,
        }
    }

    /// Prints `activity` unless it repeats the last one printed. Returns
    /// whether a report was printed, and it always succeeds.
    pub fn print_activity(&mut self, activity: &Activity) -> (printed: bool)
        ensures
            printed == (old(self).spec_last() != Some(activity@)),
            final(self).spec_last() == Some(activity@),
            final(self).received() == old(self).received(),
    {
        match &self.last {
            Some(l) => {
                if l.same_as(activity) {
                    return false;
                }
            },
            None => {},
        }
        self.last = Some(activity.duplicate());
        let text = console_report(activity, now());
        let mut out = stdout_handle();
        write_all_text(&mut out, text.as_str());
        true
    }
}

impl Default for ConsoleOutput {
    fn default() -> (r: Self)
        ensures
            r.spec_last() is None,
    {
        ConsoleOutput::new()
    }
}

impl Output for ConsoleOutput {
    closed spec fn received(&self) -> Seq<OutputCall> {
        self.calls@
    }

    /// The console holds no connection.
    fn connection_state(&self) -> (r: Option<bool>) {
        None
    }

    fn publish(&mut self, source: &str, activity: &Activity) -> (r: Result<(), OutputError>)
        ensures
            r is Ok,
            final(self).spec_last() == Some(activity@),
    {
        self.print_activity(activity);
        self.calls = Ghost(self.calls@.push(OutputCall::Publish(source@, activity@, Ok(()))));
        Ok(())
    }

    /// Nothing is shown to take back: the report stays on the console.
    fn clear(&mut self) {
        self.calls = Ghost(self.calls@.push(OutputCall::Clear));
    }
}

} // verus!
