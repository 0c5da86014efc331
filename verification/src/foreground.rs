//! Mapping the OS foreground window to a registered source through the
//! window identities that plugins declare.

use vstd::prelude::*;
use crate::activity::opt_view;
use crate::plugin::WindowIdentity;
use crate::protocol::strings_view;
use crate::text::{ascii_lower_seq, push_char, to_ascii_lowercase};

verus! {

/// The identity of the OS foreground window.
#[derive(Debug, Clone, PartialEq, Eq)]
pub struct ForegroundWindow {
    /// Process base name, lowercased (e.g. `"fl64.exe"`).
    pub process_name: Option<String>,
    /// Window class name (e.g. `"TFruityLoopsMainForm"`).
    pub window_class: Option<String>,
}

/// Whether `c` separates path segments (`\` or `/`).
pub open spec fn is_separator(c: char) -> bool {
    c == '\\' || c == '/'
}

/// The part of a path after its last separator (all of it when there is
/// none).
pub open spec fn last_segment(p: Seq<char>) -> Seq<char>
    decreases p.len(),
{
    if p.len() == 0 {
        p
    } else if is_separator(p.last()) {
        Seq::empty()
    } else {
        last_segment(p.drop_last()).push(p.last())
    }
}

/// The lowercased file name of a Windows or Unix path.
pub fn base_name_of(path: &str) -> (r: String)
    ensures
        r@ == ascii_lower_seq(last_segment(path@)),
{
    let mut seg = String::new();
    for c in it: path.chars()
        invariant
            it.seq() == path@,
            seg@ == last_segment(path@.take(it.index() as int)),
    {
        assert(path@.take(it.index() + 1).drop_last() =~= path@.take(it.index() as int));
        if c == '\\' || c == '/' {
            seg = String::new();
        } else {
            push_char(&mut seg, c);
        }
    }
    assert(path@.take(path@.len() as int) =~= path@);
    to_ascii_lowercase(seg.as_str())
}

/// Whether `name` equals one of `patterns`, ignoring ASCII case.
pub open spec fn matches_any(patterns: Seq<Seq<char>>, name: Seq<char>) -> bool {
    exists|i: int| 0 <= i < patterns.len() && ascii_lower_seq(#[trigger] patterns[i]) == ascii_lower_seq(name)
}

/// Whether a window belongs to a declared identity: its process name
/// equals a declared process name, or its class a declared class, ignoring
/// ASCII case.
pub open spec fn window_matches(
    process: Option<Seq<char>>,
    class: Option<Seq<char>>,
    process_names: Seq<Seq<char>>,
    window_classes: Seq<Seq<char>>,
) -> bool {
    (process matches Some(p) && matches_any(process_names, p)) || (class matches Some(c)
        && matches_any(window_classes, c))
}

/// Whether a foreground window belongs to an identity.
pub open spec fn spec_window_matches_identity(w: ForegroundWindow, id: WindowIdentity) -> bool {
    window_matches(
        opt_view(w.process_name),
        opt_view(w.window_class),
        strings_view(id.process_names@),
        strings_view(id.window_classes@),
    )
}

/// Whether one of `patterns` equals `name` ignoring ASCII case.
fn any_matches(patterns: &Vec<String>, name: &str) -> (r: bool)
    ensures
        r == matches_any(strings_view(patterns@), name@),
{
    let target = to_ascii_lowercase(name);
    let mut i: usize = 0;
    while i < patterns.len()
        invariant
            i <= patterns@.len(),
            target@ == ascii_lower_seq(name@),
            forall|j: int|
                0 <= j < i ==> ascii_lower_seq(#[trigger] strings_view(patterns@)[j]) != ascii_lower_seq(
                    name@,
                ),
        decreases patterns@.len() - i,
    {
        let p = to_ascii_lowercase(patterns[i].as_str());
        if p == target {
            assert(ascii_lower_seq(strings_view(patterns@)[i as int]) == ascii_lower_seq(name@));
            return true;
        }
        i = i + 1;
    }
    false
}

/// Whether a foreground window belongs to a plugin's declared identity:
/// a declared process base name or window class equals the window's,
/// ignoring ASCII case.
pub fn window_matches_identity(window: &ForegroundWindow, identity: &WindowIdentity) -> (r: bool)
    ensures
        r == spec_window_matches_identity(*window, *identity),
{
    match &window.process_name {
        Some(p) => {
            if any_matches(&identity.process_names, p.as_str()) {
                return true;
            }
        },
        None => {},
    }
    match &window.window_class {
        Some(c) => any_matches(&identity.window_classes, c.as_str()),
        None => false,
    }
}

/// Window matching ignores ASCII case: two windows whose process names
/// and classes differ only in case match the same identities.
pub proof fn law_window_match_ignores_case(
    p1: Seq<char>,
    p2: Seq<char>,
    c1: Seq<char>,
    c2: Seq<char>,
    process_names: Seq<Seq<char>>,
    window_classes: Seq<Seq<char>>,
)
    requires
        ascii_lower_seq(p1) == ascii_lower_seq(p2),
        ascii_lower_seq(c1) == ascii_lower_seq(c2),
    ensures
        window_matches(Some(p1), Some(c1), process_names, window_classes) == window_matches(
            Some(p2),
            Some(c2),
            process_names,
            window_classes,
        ),
{
}

/// The index of the first source whose identity matches the window.
pub open spec fn first_match(w: ForegroundWindow, ids: Seq<WindowIdentity>) -> Option<int> {
    if exists|i: int| 0 <= i < ids.len() && spec_window_matches_identity(w, #[trigger] ids[i]) {
        Some(
            choose|i: int|
                0 <= i < ids.len() && spec_window_matches_identity(w, #[trigger] ids[i]) && forall|
                    j: int,
                | 0 <= j < i ==> !spec_window_matches_identity(w, #[trigger] ids[j]),
        )
    } else {
        None
    }
}

/// The identities of a list of named sources.
pub open spec fn source_identities<'a>(s: Seq<(&'a str, &'a WindowIdentity)>) -> Seq<WindowIdentity> {
    Seq::new(s.len(), |i: int| *s[i].1)
}

/// The name of the first source, in order, whose declared identity matches
/// the foreground window; none when no source matches.
pub fn resolve_foreground_source<'a>(
    window: &ForegroundWindow,
    sources: &[(&'a str, &'a WindowIdentity)],
) -> (r: Option<&'a str>)
    ensures
        match first_match(*window, source_identities(sources@)) {
            Some(i) => 0 <= i < sources@.len() && r == Some(sources@[i].0),
            None => r is None,
        },
{
    let ghost ids = source_identities(sources@);
    let mut i: usize = 0;
    while i < sources.len()
        invariant
            i <= sources@.len(),
            ids == source_identities(sources@),
            forall|j: int| 0 <= j < i ==> !spec_window_matches_identity(*window, #[trigger] ids[j]),
        decreases sources@.len() - i,
    {
        let (name, identity) = sources[i];
        if window_matches_identity(window, identity) {
            assert(spec_window_matches_identity(*window, ids[i as int]));
            let ghost k = first_match(*window, ids).unwrap();
            assert(k == i as int) by {
                if k < i {
                    assert(!spec_window_matches_identity(*window, ids[k]));
                }
                if k > i {
                    assert(!spec_window_matches_identity(*window, ids[i as int]));
                }
            }
            return Some(name);
        }
        i = i + 1;
    }
    None
}

} // verus!
