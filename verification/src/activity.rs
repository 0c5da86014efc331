//! The canonical activity model shared by plugins and outputs.

use vstd::prelude::*;
use crate::strmap::StringMap;

verus! {

/// Temporal bounds of an activity, as Unix seconds.
#[derive(Debug, Clone, Copy, PartialEq, Eq, Structural)]
pub struct ActivityTimestamps {
    /// When the activity started.
    pub start: Option<i64>,
    /// When the activity is expected to end.
    pub end: Option<i64>,
}

/// Application-defined key/value metadata attached to an activity.
pub type Metadata = StringMap<String>;

/// The characters of an optional string.
pub open spec fn opt_view(o: Option<String>) -> Option<Seq<char>> {
    match o {
        Some(s) => Some(s@),
        None => None,
    }
}

/// Whether two optional strings hold the same characters.
pub fn opt_str_eq(a: &Option<String>, b: &Option<String>) -> (r: bool)
    ensures
        r == (opt_view(*a) == opt_view(*b)),
{
    match (a, b) {
        (Some(x), Some(y)) => *x == *y,
        (None, None) => true,
        _ => false,
    }
}

/// A copy of an optional string.
pub fn opt_str_clone(a: &Option<String>) -> (r: Option<String>)
    ensures
        opt_view(r) == opt_view(*a),
{
    match a {
        Some(x) => Some(x.clone()),
        None => None,
    }
}

/// The mathematical content of an [`Activity`].
pub struct ActivityView {
    pub state: Seq<char>,
    pub details: Option<Seq<char>>,
    pub timestamps: Option<ActivityTimestamps>,
    pub application: Option<Seq<char>>,
    pub metadata: Map<Seq<char>, Seq<char>>,
}

/// The canonical representation of a user's current activity.
///
/// Plugins produce activities, outputs consume them, and the presence
/// engine routes them without interpreting their contents.
#[derive(Debug)]
pub struct Activity {
    /// What the user is currently doing (e.g. "Editing", "Idle").
    pub state: String,
    /// Optional human-readable description.
    pub details: Option<String>,
    /// Optional temporal bounds.
    pub timestamps: Option<ActivityTimestamps>,
    /// Optional application identity (e.g. "FL Studio").
    pub application: Option<String>,
    /// Extensible key/value metadata.
    pub metadata: Metadata,
}

impl View for Activity {
    type V = ActivityView;

    open spec fn view(&self) -> ActivityView {
        ActivityView {
            state: self.state@,
            details: opt_view(self.details),
            timestamps: self.timestamps,
            application: opt_view(self.application),
            metadata: self.metadata@,
        }
    }
}

impl Activity {
    /// Whether both activities carry the same content.
    pub fn same_as(&self, other: &Activity) -> (r: bool)
        ensures
            r == (self@ == other@),
    {
        self.state == other.state
            && opt_str_eq(&self.details, &other.details)
            && self.timestamps == other.timestamps
            && opt_str_eq(&self.application, &other.application)
            && self.metadata.same_entries(&other.metadata)
    }

    /// A copy carrying the same content.
    pub fn duplicate(&self) -> (r: Activity)
        ensures
            r@ == self@,
    {
        Activity {
            state: self.state.clone(),
            details: opt_str_clone(&self.details),
            timestamps: self.timestamps,
            application: opt_str_clone(&self.application),
            metadata: self.metadata.duplicate(),
        }
    }
}

impl PartialEq for Activity {
    fn eq(&self, other: &Self) -> (r: bool) {
        self.same_as(other)
    }
}

impl vstd::std_specs::cmp::PartialEqSpecImpl for Activity {
    open spec fn obeys_eq_spec() -> bool {
        true
    }

    open spec fn eq_spec(&self, other: &Self) -> bool {
        self@ == other@
    }
}

impl Clone for Activity {
    fn clone(&self) -> (r: Self) {
        self.duplicate()
    }
}

} // verus!
