//! Plugins and the host that owns them: the plugin contract, plugin
//! metadata, declared window identities and the lifecycle fan-out.

use vstd::prelude::*;
use crate::activity::{Activity, ActivityView};
use crate::foreground::{spec_window_matches_identity, ForegroundWindow};
use crate::output::push_item;
use crate::protocol::strings_view;
use crate::strmap::StringMap;
use crate::text::{join_str, str_eq, TextValue};

verus! {

/// Identification of a plugin: its human-readable name and version.
#[derive(Debug, Clone, PartialEq)]
pub struct PluginMetadata {
    /// Human-readable plugin name (e.g. "FL Studio").
    pub name: String,
    /// Plugin version string (e.g. "1.0.0").
    pub version: String,
}

impl PluginMetadata {
    /// Metadata with the given name and version.
    pub fn new<N: TextValue, V: TextValue>(name: N, version: V) -> (r: Self)
        ensures
            r.name@ == name.text(),
            r.version@ == version.text(),
    {
        PluginMetadata { name: name.into_text(), version: version.into_text() }
    }
}

/// The window a plugin presents: process base names and window classes,
/// matched case-insensitively. An empty list never matches.
#[derive(Debug, Clone, Default, PartialEq, Eq)]
pub struct WindowIdentity {
    /// Process base-name patterns (e.g. `"fl64.exe"`).
    pub process_names: Vec<String>,
    /// Window class-name patterns (e.g. `"TFruityLoopsMainForm"`).
    pub window_classes: Vec<String>,
}

/// The texts of a sequence of text values.
pub open spec fn texts<T: TextValue>(v: Seq<T>) -> Seq<Seq<char>> {
    Seq::new(v.len(), |i: int| v[i].text())
}

/// Owned strings from a vector of text values, in order.
fn into_strings<T: TextValue>(v: Vec<T>) -> (r: Vec<String>)
    ensures
        strings_view(r@) == texts(v@),
{
    let ghost src = v@;
    let mut out: Vec<String> = Vec::new();
    let mut rest = v;
    while rest.len() > 0
        invariant
            rest@.len() + out@.len() == src.len(),
            rest@ =~= src.skip(out@.len() as int),
            strings_view(out@) =~= texts(src.take(out@.len() as int)),
        decreases rest@.len(),
    {
        let ghost k = out@.len();
        let x = rest.remove(0);
        assert(x == src[k as int]);
        let s = x.into_text();
        let ghost before = strings_view(out@);
        out.push(s);
        assert(strings_view(out@) =~= before.push(src[k as int].text()));
        assert(texts(src.take(k + 1 as int)) =~= texts(src.take(k as int)).push(src[k as int].text()));
        assert(rest@ =~= src.skip(out@.len() as int));
        assert(strings_view(out@) =~= texts(src.take(out@.len() as int)));
    }
    assert(src.take(src.len() as int) =~= src);
    out
}

impl WindowIdentity {
    /// An identity from process-name and window-class patterns.
    pub fn new<P: TextValue, C: TextValue>(process_names: Vec<P>, window_classes: Vec<C>) -> (r: Self)
        ensures
            strings_view(r.process_names@) == texts(process_names@),
            strings_view(r.window_classes@) == texts(window_classes@),
    {
        WindowIdentity {
            process_names: into_strings(process_names),
            window_classes: into_strings(window_classes),
        }
    }
}

/// A failed plugin lifecycle operation.
#[derive(Debug)]
pub enum PluginError {
    /// `init` failed.
    InitFailed(String),
    /// `shutdown` failed.
    ShutdownFailed(String),
    /// `poll` failed.
    PollFailed(String),
}

/// The text of a plugin error.
pub open spec fn plugin_error_text(e: PluginError) -> Seq<char> {
    match e {
        PluginError::InitFailed(m) => "Plugin initialization failed: "@ + m@,
        PluginError::ShutdownFailed(m) => "Plugin shutdown failed: "@ + m@,
        PluginError::PollFailed(m) => "Plugin poll failed: "@ + m@,
    }
}

impl PluginError {
    /// The human-readable description of the error.
    pub fn message(&self) -> (r: String)
        ensures
            r@ == plugin_error_text(*self),
    {
        match self {
            PluginError::InitFailed(m) => join_str("Plugin initialization failed: ", m.as_str()),
            PluginError::ShutdownFailed(m) => join_str("Plugin shutdown failed: ", m.as_str()),
            PluginError::PollFailed(m) => join_str("Plugin poll failed: ", m.as_str()),
        }
    }
}

/// One lifecycle call a plugin received, with its outcome.
pub enum PluginCall {
    /// `init`, and what it returned.
    Init(Result<(), PluginError>),
    /// `poll`, and what it returned.
    Poll(Result<Option<ActivityView>, Seq<char>>),
    /// `shutdown`, and what it returned.
    Shutdown(Result<(), PluginError>),
}

/// The record of the lifecycle calls a plugin received, oldest first.
pub type PluginCalls = Seq<PluginCall>;

/// A plugin's name, as the characters its metadata reports.
pub type PluginNameView = Seq<char>;

/// What a poll returned, as values.
pub open spec fn poll_record(r: Result<Option<Activity>, PluginError>) -> Result<Option<ActivityView>, Seq<char>> {
    match r {
        Ok(Some(a)) => Ok(Some(a@)),
        Ok(None) => Ok(None),
        Err(e) => Err(plugin_error_text(e)),
    }
}

/// One application integration: identifies itself, is initialized, polled
/// for its application's activity, and shut down. Each plugin keeps the
/// record of the lifecycle calls it received, which every call extends by
/// itself.
pub trait Plugin: Send + Sync {
    /// The lifecycle calls this plugin has received, oldest first.
    spec fn calls(&self) -> PluginCalls;

    /// The name the plugin's metadata reports; fixed after construction.
    spec fn plugin_name(&self) -> PluginNameView;

    /// The plugin's metadata; fixed after construction.
    fn metadata(&self) -> (r: &PluginMetadata)
        ensures
            r.name@ == self.plugin_name(),
    ;

    /// The window the plugin presents, if it can be identified by one; a
    /// plugin that declares none is never matched to the foreground window.
    /// Like the metadata, it is fixed after construction: the host asks for
    /// it once, at registration.
    fn window_identity(&self) -> (r: Option<WindowIdentity>)
        default_ensures
            r is None,
    {
        None
    }

    /// Prepares the plugin for operation.
    fn init(&mut self) -> (r: Result<(), PluginError>)
        ensures
            final(self).calls() == old(self).calls().push(PluginCall::Init(r)),
            final(self).plugin_name() == old(self).plugin_name(),
    ;

    /// Observes the application: an activity, none when nothing is to be
    /// shown, or an error when the application cannot be observed.
    fn poll(&mut self) -> (r: Result<Option<Activity>, PluginError>)
        ensures
            final(self).calls() == old(self).calls().push(PluginCall::Poll(poll_record(r))),
            final(self).plugin_name() == old(self).plugin_name(),
    ;

    /// Releases the plugin's resources.
    fn shutdown(&mut self) -> (r: Result<(), PluginError>)
        ensures
            final(self).calls() == old(self).calls().push(PluginCall::Shutdown(r)),
            final(self).plugin_name() == old(self).plugin_name(),
    ;

    /// Forgets transient state, so the next poll starts afresh; it is not a
    /// lifecycle call and leaves the record of calls as it was.
    fn reset(&mut self)
        ensures
            final(self).calls() == old(self).calls(),
            final(self).plugin_name() == old(self).plugin_name(),
    {
    }
}

/// The names of `names` that are not disabled, in order.
pub open spec fn enabled_names(names: Seq<Seq<char>>, disabled: Set<Seq<char>>) -> Seq<Seq<char>>
    decreases names.len(),
{
    if names.len() == 0 {
        names
    } else if disabled.contains(names.last()) {
        enabled_names(names.drop_last(), disabled)
    } else {
        enabled_names(names.drop_last(), disabled).push(names.last())
    }
}

/// The first components of a sequence of named results.
pub open spec fn result_names<T>(r: Seq<(String, T)>) -> Seq<Seq<char>> {
    Seq::new(r.len(), |i: int| r[i].0@)
}

/// Whether every name of `r` is one of `names`, in the order they occur
/// there.
pub open spec fn names_in_order<T>(r: Seq<(String, T)>, names: Seq<Seq<char>>) -> bool {
    exists|idx: Seq<int>|
        #![trigger idx.len()]
        idx.len() == r.len() && (forall|k: int| 0 <= k < idx.len() ==> 0 <= #[trigger] idx[k] < names.len()
            && names[idx[k]] == r[k].0@) && (forall|j: int, k: int|
            0 <= j < k < idx.len() ==> idx[j] < idx[k])
}

/// The error of a plugin's newest call when that call is a failed `init`
/// (`init` true) or a failed `shutdown` (`init` false).
pub open spec fn lifecycle_failure(calls: PluginCalls, init: bool) -> Option<PluginError> {
    if calls.len() == 0 {
        None
    } else {
        match calls.last() {
            PluginCall::Init(Err(e)) => if init {
                Some(e)
            } else {
                None
            },
            PluginCall::Shutdown(Err(e)) => if init {
                None
            } else {
                Some(e)
            },
            _ => None,
        }
    }
}

/// The name and error of each of the first `n` plugins whose newest call
/// failed (see [`lifecycle_failure`]), in order.
pub open spec fn failures(names: Seq<Seq<char>>, calls: Seq<PluginCalls>, n: int, init: bool) -> Seq<(Seq<char>, PluginError)>
    decreases n,
{
    if n <= 0 {
        Seq::empty()
    } else {
        match lifecycle_failure(calls[n - 1], init) {
            Some(e) => failures(names, calls, n - 1, init).push((names[n - 1], e)),
            None => failures(names, calls, n - 1, init),
        }
    }
}

/// A list of named errors, as values.
pub open spec fn named_errors(r: Seq<(String, PluginError)>) -> Seq<(Seq<char>, PluginError)> {
    Seq::new(r.len(), |i: int| (r[i].0@, r[i].1))
}

/// What the first `n` enabled plugins' newest polls returned, in order.
pub open spec fn polled_records(names: Seq<Seq<char>>, disabled: Set<Seq<char>>, calls: Seq<PluginCalls>, n: int) -> Seq<Result<Option<ActivityView>, Seq<char>>>
    decreases n,
{
    if n <= 0 {
        Seq::empty()
    } else if disabled.contains(names[n - 1]) {
        polled_records(names, disabled, calls, n - 1)
    } else {
        match calls[n - 1].last() {
            PluginCall::Poll(x) => polled_records(names, disabled, calls, n - 1).push(x),
            _ => polled_records(names, disabled, calls, n - 1),
        }
    }
}

/// Each plugin's record gained exactly one call.
pub open spec fn one_more_call(before: Seq<PluginCalls>, after: Seq<PluginCalls>) -> bool {
    &&& after.len() == before.len()
    &&& forall|j: int|
        0 <= j < before.len() ==> (#[trigger] after[j]).len() == before[j].len() + 1 && after[j].drop_last()
            == before[j]
}

/// The outcomes of a sequence of named poll results, as values.
pub open spec fn result_records(r: Seq<(String, Result<Option<Activity>, PluginError>)>) -> Seq<Result<Option<ActivityView>, Seq<char>>> {
    Seq::new(r.len(), |k: int| poll_record(r[k].1))
}

/// A registered plugin.
struct PluginSlot {
    plugin: Box<dyn Plugin>,
}

impl PluginSlot {
    /// The slot for a newly registered plugin.
    fn holding(plugin: Box<dyn Plugin>) -> PluginSlot {
        PluginSlot { plugin }
    }
}

/// What the host knows of its plugins: their names in registration order,
/// the sources that are disabled, and the window identity each plugin
/// declared when it was registered.
pub struct HostView {
    pub names: Seq<Seq<char>>,
    pub disabled: Set<Seq<char>>,
    pub identities: Seq<Option<WindowIdentity>>,
}

/// Whether registered plugin `i` declared a window identity that `w`
/// matches.
pub open spec fn declares_window(w: ForegroundWindow, ids: Seq<Option<WindowIdentity>>, i: int) -> bool {
    ids[i] is Some && spec_window_matches_identity(w, ids[i]->0)
}

/// Owns registered plugins and fans lifecycle calls and polls out to them,
/// collecting per-plugin failures instead of stopping at the first.
pub struct PluginHost {
    plugins: Vec<PluginSlot>,
    names: Vec<String>,
    disabled: StringMap<bool>,
    identities: Vec<Option<WindowIdentity>>,
}

impl View for PluginHost {
    type V = HostView;

    closed spec fn view(&self) -> HostView {
        HostView {
            names: strings_view(self.names@),
            disabled: self.disabled@.dom(),
            identities: self.identities@,
        }
    }
}

/// The names of the first `n` plugins depend only on their first `n`
/// records.
proof fn lemma_failures_prefix(names: Seq<Seq<char>>, a: Seq<PluginCalls>, b: Seq<PluginCalls>, n: int, f: bool)
    requires
        n <= a.len(),
        n <= b.len(),
        forall|j: int| 0 <= j < n ==> #[trigger] a[j] == b[j],
    ensures
        failures(names, a, n, f) == failures(names, b, n, f),
    decreases n,
{
    if n > 0 {
        lemma_failures_prefix(names, a, b, n - 1, f);
        assert(a[n - 1] == b[n - 1]);
    }
}

/// What the first `n` enabled plugins returned depends only on their first
/// `n` records.
proof fn lemma_polled_records_prefix(names: Seq<Seq<char>>, d: Set<Seq<char>>, a: Seq<PluginCalls>, b: Seq<PluginCalls>, n: int)
    requires
        n <= a.len(),
        n <= b.len(),
        forall|j: int| 0 <= j < n ==> #[trigger] a[j] == b[j],
    ensures
        polled_records(names, d, a, n) == polled_records(names, d, b, n),
    decreases n,
{
    if n > 0 {
        lemma_polled_records_prefix(names, d, a, b, n - 1);
        assert(a[n - 1] == b[n - 1]);
    }
}

impl PluginHost {
    /// The lifecycle calls each registered plugin has received, in
    /// registration order.
    pub closed spec fn plugin_calls(&self) -> Seq<PluginCalls> {
        Seq::new(self.plugins@.len(), |i: int| self.plugins@[i].plugin.calls())
    }

    /// One record of calls per registered plugin.
    pub proof fn lemma_calls_len(&self)
        requires
            self.wf(),
        ensures
            self.plugin_calls().len() == self@.names.len(),
    {
    }

    /// The host's invariant: one recorded name per plugin.
    pub closed spec fn wf(&self) -> bool {
        &&& self.plugins@.len() == self.names@.len()
        &&& self.identities@.len() == self.names@.len()
    }

    /// An empty host.
    pub fn new() -> (r: Self)
        ensures
            r.wf(),
            r@.names.len() == 0,
            r@.disabled.is_empty(),
    {
        PluginHost { plugins: Vec::new(), names: Vec::new(), disabled: StringMap::new(), identities: Vec::new() }
    }

    /// The number of registered plugins.
    pub fn len(&self) -> (r: usize)
        requires
            self.wf(),
        ensures
            r == self@.names.len(),
    {
        self.names.len()
    }

    /// Registers a plugin under the name its metadata reports; it is
    /// initialized only by [`PluginHost::init_all`].
    pub fn register(&mut self, plugin: Box<dyn Plugin>)
        requires
            old(self).wf(),
        ensures
            final(self).wf(),
            final(self)@.names.len() == old(self)@.names.len() + 1,
            final(self)@.names.drop_last() == old(self)@.names,
            final(self)@.names.last() == plugin.plugin_name(),
            final(self)@.disabled == old(self)@.disabled,
            final(self)@.identities.len() == old(self)@.identities.len() + 1,
            final(self)@.identities.drop_last() == old(self)@.identities,
            final(self).plugin_calls().take(old(self).plugin_calls().len() as int) == old(self).plugin_calls(),
    {
        let ghost added_name = plugin.plugin_name();
        let name = plugin.metadata().name.clone();
        let identity = plugin.window_identity();
        self.identities.push(identity);
        let ghost pre = self.plugins@;
        let slot = PluginSlot::holding(plugin);
        push_item(&mut self.plugins, slot);
        self.names.push(name);
        assert(strings_view(self.names@) =~= strings_view(old(self).names@).push(added_name));
        assert forall|j: int| 0 <= j < pre.len() implies #[trigger] self.plugin_calls()[j] == old(
            self,
        ).plugin_calls()[j] by {
            assert(self.plugins@[j] == pre[j]);
        }
        assert(self.plugin_calls().take(pre.len() as int) =~= old(self).plugin_calls());
    }

    /// The window identity each registered plugin declared, in
    /// registration order.
    pub fn identities(&self) -> (r: &Vec<Option<WindowIdentity>>)
        requires
            self.wf(),
        ensures
            r@ == self@.identities,
            r@.len() == self@.names.len(),
    {
        &self.identities
    }

    /// The registered plugins, in registration order.
    pub fn plugins(&self) -> (r: Vec<&Box<dyn Plugin>>)
        requires
            self.wf(),
        ensures
            r@.len() == self@.names.len(),
    {
        let mut r: Vec<&Box<dyn Plugin>> = Vec::new();
        let mut i: usize = 0;
        while i < self.plugins.len()
            invariant
                i <= self.plugins@.len(),
                r@.len() == i,
            decreases self.plugins@.len() - i,
        {
            push_item(&mut r, &self.plugins[i].plugin);
            i = i + 1;
        }
        r
    }

    /// The registered names, in registration order.
    pub fn names(&self) -> (r: &Vec<String>)
        requires
            self.wf(),
        ensures
            strings_view(r@) == self@.names,
    {
        &self.names
    }

    /// Whether a plugin is registered under `name`.
    pub fn has_plugin(&self, name: &str) -> (r: bool)
        requires
            self.wf(),
        ensures
            r == self@.names.contains(name@),
    {
        let mut i: usize = 0;
        while i < self.names.len()
            invariant
                i <= self.names@.len(),
                forall|j: int| 0 <= j < i ==> self.names@[j]@ != name@,
            decreases self.names@.len() - i,
        {
            if str_eq(self.names[i].as_str(), name) {
                assert(strings_view(self.names@)[i as int] == name@);
                return true;
            }
            i = i + 1;
        }
        assert forall|j: int| 0 <= j < strings_view(self.names@).len() implies strings_view(
            self.names@,
        )[j] != name@ by {}
        false
    }

    /// Whether `source` is disabled.
    pub fn is_source_disabled(&self, source: &str) -> (r: bool)
        ensures
            r == self@.disabled.contains(source@),
    {
        self.disabled.contains_key(source)
    }

    /// Marks `source` disabled (skipped by [`PluginHost::poll_all`]) or
    /// enabled again. Disabling resets the source's plugins, so that once
    /// enabled again their next poll starts afresh.
    pub fn set_source_disabled(&mut self, source: &str, disabled: bool)
        requires
            old(self).wf(),
        ensures
            final(self).wf(),
            final(self)@.names == old(self)@.names,
            final(self)@.disabled == if disabled {
                old(self)@.disabled.insert(source@)
            } else {
                old(self)@.disabled.remove(source@)
            },
            final(self).plugin_calls() == old(self).plugin_calls(),
    {
        if disabled {
            let n = self.plugins.len();
            let mut pending: Vec<PluginSlot> = Vec::new();
            std::mem::swap(&mut pending, &mut self.plugins);
            let mut i: usize = 0;
            while i < n
                invariant
                    n == old(self).plugins@.len(),
                    n == self.names@.len(),
                    self.names == old(self).names,
                    self.disabled == old(self).disabled,
                    self.identities == old(self).identities,
                    self.plugins@.len() == i,
                    i <= n,
                    pending@ == old(self).plugins@.skip(i as int),
                    forall|j: int| 0 <= j < i ==> (#[trigger] self.plugins@[j]).plugin.calls()
                        == old(self).plugins@[j].plugin.calls(),
                decreases n - i,
            {
                let mut slot = pending.remove(0);
                assert(slot == old(self).plugins@[i as int]);
                assert(pending@ =~= old(self).plugins@.skip(i + 1));
                if str_eq(self.names[i].as_str(), source) {
                    slot.plugin.reset();
                }
                push_item(&mut self.plugins, slot);
                i = i + 1;
            }
            assert(self.plugin_calls() =~= old(self).plugin_calls());
        }
        let mut set = StringMap::new();
        std::mem::swap(&mut set, &mut self.disabled);
        if disabled {
            set.insert(source.to_owned(), true);
        } else {
            set.remove(source);
        }
        self.disabled = set;
        assert(self@.disabled =~= if disabled {
            old(self)@.disabled.insert(source@)
        } else {
            old(self)@.disabled.remove(source@)
        });
    }

    /// Initializes the plugin registered at position `i`.
    pub fn init_at(&mut self, i: usize) -> (r: Result<(), PluginError>)
        requires
            old(self).wf(),
            i < old(self)@.names.len(),
        ensures
            final(self).wf(),
            final(self)@ == old(self)@,
    {
        self.plugins[i].plugin.init()
    }

    /// Initializes every plugin, whatever the others do, and returns the
    /// name and error of each that failed, in registration order.
    pub fn init_all(&mut self) -> (r: Vec<(String, PluginError)>)
        requires
            old(self).wf(),
        ensures
            final(self).wf(),
            final(self)@ == old(self)@,
            names_in_order(r@, old(self)@.names),
            one_more_call(old(self).plugin_calls(), final(self).plugin_calls()),
            forall|j: int|
                0 <= j < old(self).plugin_calls().len() ==> (#[trigger] final(self).plugin_calls()[j]).last() is Init,
            named_errors(r@) == failures(
                old(self)@.names,
                final(self).plugin_calls(),
                old(self).plugin_calls().len() as int,
                true,
            ),
    {
        let ghost names = self@.names;
        let ghost c0 = self.plugin_calls();
        let n = self.plugins.len();
        let mut pending: Vec<PluginSlot> = Vec::new();
        std::mem::swap(&mut pending, &mut self.plugins);
        let mut errors: Vec<(String, PluginError)> = Vec::new();
        let ghost mut idx: Seq<int> = Seq::empty();
        let mut i: usize = 0;
        while i < n
            invariant
                n == c0.len(),
                n == old(self).plugins@.len(),
                n == self.names@.len(),
                names == old(self)@.names,
                self.names == old(self).names,
                self.disabled == old(self).disabled,
                self.identities == old(self).identities,
                c0 == old(self).plugin_calls(),
                self.plugins@.len() == i,
                i <= n,
                pending@ == old(self).plugins@.skip(i as int),
                forall|j: int|
                    0 <= j < i ==> (#[trigger] self.plugins@[j]).plugin.calls().len() == c0[j].len() + 1
                        && self.plugins@[j].plugin.calls().drop_last() == c0[j]
                        && self.plugins@[j].plugin.calls().last() is Init,
                named_errors(errors@) == failures(names, self.plugin_calls(), i as int, true),
                idx.len() == errors@.len(),
                forall|k: int| 0 <= k < idx.len() ==> 0 <= #[trigger] idx[k] < i && names[idx[k]]
                    == errors@[k].0@,
                forall|j: int, k: int| 0 <= j < k < idx.len() ==> idx[j] < idx[k],
            decreases n - i,
        {
            let mut slot = pending.remove(0);
            assert(slot == old(self).plugins@[i as int]);
            assert(pending@ =~= old(self).plugins@.skip(i + 1));
            let outcome = slot.plugin.init();
            let ghost pre = self.plugin_calls();
            let ghost res = outcome;
            push_item(&mut self.plugins, slot);
            proof {
                let post = self.plugin_calls();
                assert forall|j: int| 0 <= j < i implies #[trigger] pre[j] == post[j] by {}
                lemma_failures_prefix(names, pre, post, i as int, true);
                assert(post[i as int].last() == PluginCall::Init(res));
                assert(post[i as int].drop_last() =~= c0[i as int]);
            }
            let ghost e0 = errors@;
            match outcome {
                Ok(()) => {},
                Err(e) => {
                    let name = self.names[i].clone();
                    assert(names[i as int] == name@);
                    let ghost ge = e;
                    let ghost gn = name@;
                    errors.push((name, e));
                    proof {
                        idx = idx.push(i as int);
                        assert(named_errors(errors@) =~= named_errors(e0).push((gn, ge)));
                    }
                },
            }
            i = i + 1;
        }
        proof {
            let fin = self.plugin_calls();
            assert forall|j: int| 0 <= j < c0.len() implies (#[trigger] fin[j]).len() == c0[j].len() + 1
                && fin[j].drop_last() == c0[j] by {}
        }
        errors
    }

    /// Shuts every plugin down, whatever the others do, and returns the
    /// name and error of each that failed, in registration order.
    pub fn shutdown_all(&mut self) -> (r: Vec<(String, PluginError)>)
        requires
            old(self).wf(),
        ensures
            final(self).wf(),
            final(self)@ == old(self)@,
            names_in_order(r@, old(self)@.names),
            one_more_call(old(self).plugin_calls(), final(self).plugin_calls()),
            forall|j: int|
                0 <= j < old(self).plugin_calls().len() ==> (#[trigger] final(self).plugin_calls()[j]).last() is Shutdown,
            named_errors(r@) == failures(
                old(self)@.names,
                final(self).plugin_calls(),
                old(self).plugin_calls().len() as int,
                false,
            ),
    {
        let ghost names = self@.names;
        let ghost c0 = self.plugin_calls();
        let n = self.plugins.len();
        let mut pending: Vec<PluginSlot> = Vec::new();
        std::mem::swap(&mut pending, &mut self.plugins);
        let mut errors: Vec<(String, PluginError)> = Vec::new();
        let ghost mut idx: Seq<int> = Seq::empty();
        let mut i: usize = 0;
        while i < n
            invariant
                n == c0.len(),
                n == old(self).plugins@.len(),
                n == self.names@.len(),
                names == old(self)@.names,
                self.names == old(self).names,
                self.disabled == old(self).disabled,
                self.identities == old(self).identities,
                c0 == old(self).plugin_calls(),
                self.plugins@.len() == i,
                i <= n,
                pending@ == old(self).plugins@.skip(i as int),
                forall|j: int|
                    0 <= j < i ==> (#[trigger] self.plugins@[j]).plugin.calls().len() == c0[j].len() + 1
                        && self.plugins@[j].plugin.calls().drop_last() == c0[j]
                        && self.plugins@[j].plugin.calls().last() is Shutdown,
                named_errors(errors@) == failures(names, self.plugin_calls(), i as int, false),
                idx.len() == errors@.len(),
                forall|k: int| 0 <= k < idx.len() ==> 0 <= #[trigger] idx[k] < i && names[idx[k]]
                    == errors@[k].0@,
                forall|j: int, k: int| 0 <= j < k < idx.len() ==> idx[j] < idx[k],
            decreases n - i,
        {
            let mut slot = pending.remove(0);
            assert(slot == old(self).plugins@[i as int]);
            assert(pending@ =~= old(self).plugins@.skip(i + 1));
            let outcome = slot.plugin.shutdown();
            let ghost pre = self.plugin_calls();
            let ghost res = outcome;
            push_item(&mut self.plugins, slot);
            proof {
                let post = self.plugin_calls();
                assert forall|j: int| 0 <= j < i implies #[trigger] pre[j] == post[j] by {}
                lemma_failures_prefix(names, pre, post, i as int, false);
                assert(post[i as int].last() == PluginCall::Shutdown(res));
                assert(post[i as int].drop_last() =~= c0[i as int]);
            }
            let ghost e0 = errors@;
            match outcome {
                Ok(()) => {},
                Err(e) => {
                    let name = self.names[i].clone();
                    assert(names[i as int] == name@);
                    let ghost ge = e;
                    let ghost gn = name@;
                    errors.push((name, e));
                    proof {
                        idx = idx.push(i as int);
                        assert(named_errors(errors@) =~= named_errors(e0).push((gn, ge)));
                    }
                },
            }
            i = i + 1;
        }
        proof {
            let fin = self.plugin_calls();
            assert forall|j: int| 0 <= j < c0.len() implies (#[trigger] fin[j]).len() == c0[j].len() + 1
                && fin[j].drop_last() == c0[j] by {}
        }
        errors
    }

    /// Polls every plugin whose source is not disabled, in registration
    /// order; a failing plugin does not keep the others from being polled.
    /// Each result is paired with its plugin's name.
    pub fn poll_all(&mut self) -> (r: Vec<(String, Result<Option<Activity>, PluginError>)>)
        requires
            old(self).wf(),
        ensures
            final(self).wf(),
            final(self)@ == old(self)@,
            result_names(r@) == enabled_names(old(self)@.names, old(self)@.disabled),
            final(self).plugin_calls().len() == old(self).plugin_calls().len(),
            forall|j: int|
                0 <= j < old(self).plugin_calls().len() ==> if old(self)@.disabled.contains(old(self)@.names[j]) {
                    #[trigger] final(self).plugin_calls()[j] == old(self).plugin_calls()[j]
                } else {
                    &&& final(self).plugin_calls()[j].len() == old(self).plugin_calls()[j].len() + 1
                    &&& final(self).plugin_calls()[j].drop_last() == old(self).plugin_calls()[j]
                    &&& final(self).plugin_calls()[j].last() is Poll
                },
            result_records(r@) == polled_records(
                old(self)@.names,
                old(self)@.disabled,
                final(self).plugin_calls(),
                old(self).plugin_calls().len() as int,
            ),
    {
        let ghost names = self@.names;
        let ghost disabled = self@.disabled;
        let ghost c0 = self.plugin_calls();
        let n = self.plugins.len();
        let mut pending: Vec<PluginSlot> = Vec::new();
        std::mem::swap(&mut pending, &mut self.plugins);
        let mut results: Vec<(String, Result<Option<Activity>, PluginError>)> = Vec::new();
        let mut i: usize = 0;
        while i < n
            invariant
                n == c0.len(),
                n == old(self).plugins@.len(),
                n == self.names@.len(),
                names == old(self)@.names,
                disabled == old(self)@.disabled,
                self.names == old(self).names,
                self.disabled == old(self).disabled,
                self.identities == old(self).identities,
                c0 == old(self).plugin_calls(),
                self.plugins@.len() == i,
                i <= n,
                pending@ == old(self).plugins@.skip(i as int),
                forall|j: int|
                    0 <= j < i ==> if disabled.contains(names[j]) {
                        (#[trigger] self.plugins@[j]).plugin.calls() == c0[j]
                    } else {
                        &&& self.plugins@[j].plugin.calls().len() == c0[j].len() + 1
                        &&& self.plugins@[j].plugin.calls().drop_last() == c0[j]
                        &&& self.plugins@[j].plugin.calls().last() is Poll
                    },
                result_names(results@) =~= enabled_names(names.take(i as int), disabled),
                result_records(results@) == polled_records(names, disabled, self.plugin_calls(), i as int),
            decreases n - i,
        {
            let mut slot = pending.remove(0);
            assert(slot == old(self).plugins@[i as int]);
            assert(pending@ =~= old(self).plugins@.skip(i + 1));
            let skip = self.is_source_disabled(self.names[i].as_str());
            assert(names[i as int] == self.names@[i as int]@);
            assert(names.take(i + 1).drop_last() =~= names.take(i as int));
            let ghost pre = self.plugin_calls();
            let ghost r0 = results@;
            if !skip {
                let outcome = slot.plugin.poll();
                let ghost rec = poll_record(outcome);
                push_item(&mut self.plugins, slot);
                let name = self.names[i].clone();
                results.push((name, outcome));
                proof {
                    let post = self.plugin_calls();
                    assert forall|j: int| 0 <= j < i implies #[trigger] pre[j] == post[j] by {}
                    lemma_polled_records_prefix(names, disabled, pre, post, i as int);
                    assert(post[i as int].last() == PluginCall::Poll(rec));
                    assert(post[i as int].drop_last() =~= c0[i as int]);
                    assert(result_names(results@) =~= result_names(r0).push(names[i as int]));
                    assert(result_records(results@) =~= result_records(r0).push(rec));
                }
            } else {
                push_item(&mut self.plugins, slot);
                proof {
                    let post = self.plugin_calls();
                    assert forall|j: int| 0 <= j < i implies #[trigger] pre[j] == post[j] by {}
                    lemma_polled_records_prefix(names, disabled, pre, post, i as int);
                }
            }
            i = i + 1;
        }
        assert(names.take(names.len() as int) =~= names);
        proof {
            let fin = self.plugin_calls();
            assert forall|j: int| 0 <= j < c0.len() implies (#[trigger] fin[j]) == self.plugins@[j].plugin.calls() by {}
        }
        results
    }
}

impl Default for PluginHost {
    fn default() -> (r: Self)
        ensures
            r.wf(),
            r@.names.len() == 0,
            r@.disabled.is_empty(),
    {
        PluginHost::new()
    }
}

} // verus!
