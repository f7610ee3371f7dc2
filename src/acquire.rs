//! The acquisition pipeline as a state machine. The machine decides; its
//! driver performs each requested action (resolving a link, reading or writing
//! a cache entry, extracting an icon) and reports what happened as the next
//! event.
use crate::fingerprint::{cache_entry_name, entry_name_of};
use crate::keys::{has_link_suffix, is_link_path, resource_key, resource_key_of};
use crate::pixels::{is_png_file, is_usable_png, usable_png, ExtractError};
use crate::shortcut::{ResolveError, ShortcutInfo};
use vstd::prelude::*;

verus! {

/// How the icon of a request is obtained on a cache miss.
#[derive(Debug, Clone, PartialEq, Eq)]
pub enum IconSource {
    /// The icon that the platform associates with a path.
    Default(String),
    /// The icon at an index inside a resource container.
    Resource(String, i32),
}

/// The cache key of a request and how to extract its icon.
#[derive(Debug, Clone, PartialEq, Eq)]
pub struct IconPlan {
    pub cache_key: String,
    pub source: IconSource,
}

/// Whether the resolved link names a custom icon resource.
pub open spec fn uses_resource(link: Option<ShortcutInfo>) -> bool {
    link is Some && link->Some_0.icon_path@.len() > 0
}

/// Whether the resolved link has no custom icon but a target.
pub open spec fn uses_target(link: Option<ShortcutInfo>) -> bool {
    link is Some && link->Some_0.icon_path@.len() == 0 && link->Some_0.target@.len() > 0
}

/// The cache key for an input path, given what link resolution yielded.
pub open spec fn plan_key_of(input: Seq<char>, link: Option<ShortcutInfo>) -> Seq<char> {
    if uses_resource(link) {
        resource_key_of(link->Some_0.icon_path@, link->Some_0.icon_index)
    } else if uses_target(link) {
        link->Some_0.target@
    } else {
        input
    }
}

/// Whether `src` is the extraction strategy for an input path, given what
/// link resolution yielded.
pub open spec fn plan_source_is(src: IconSource, input: Seq<char>, link: Option<ShortcutInfo>) -> bool {
    if uses_resource(link) {
        src matches IconSource::Resource(p, i) && p@ == link->Some_0.icon_path@ && i
            == link->Some_0.icon_index
    } else if uses_target(link) {
        src matches IconSource::Default(p) && p@ == link->Some_0.target@
    } else {
        src matches IconSource::Default(p) && p@ == input
    }
}

/// Chooses the cache key and extraction strategy for `input`. `link` is the
/// resolved shortcut, or `None` when none was resolved.
pub fn plan_icon(input: &str, link: Option<ShortcutInfo>) -> (r: IconPlan)
    ensures
        r.cache_key@ == plan_key_of(input@, link),
        plan_source_is(r.source, input@, link),
{
    match link {
        Some(info) => {
            if !info.icon_path.as_str().is_empty() {
                let key = resource_key(info.icon_path.as_str(), info.icon_index);
                return IconPlan { cache_key: key, source: IconSource::Resource(info.icon_path, info.icon_index) };
            }
            if !info.target.as_str().is_empty() {
                let key = info.target.clone();
                return IconPlan { cache_key: key, source: IconSource::Default(info.target) };
            }
            IconPlan {
                cache_key: String::from_str(input),
                source: IconSource::Default(String::from_str(input)),
            }
        },
        None => IconPlan {
            cache_key: String::from_str(input),
            source: IconSource::Default(String::from_str(input)),
        },
    }
}

/// Where an acquisition stands.
#[derive(Debug, PartialEq, Eq, Structural, Clone, Copy)]
pub enum Phase {
    ResolvingLink,
    ReadingCache,
    Extracting,
    Done,
}

/// What the driver reports back after performing an action.
#[derive(Debug)]
pub enum Event {
    /// The outcome of resolving the input as a shell link.
    LinkResolved(Result<ShortcutInfo, ResolveError>),
    /// The bytes read from the cache entry; `None` when the read failed.
    CacheRead(Option<Vec<u8>>),
    /// The outcome of extracting the icon.
    Extracted(Result<Vec<u8>, ExtractError>),
}

/// What the machine asks its driver to do next.
#[derive(Debug, PartialEq, Eq)]
pub enum Action {
    /// Resolve this path as a shell link.
    ResolveLink(String),
    /// Read the cache entry with this file name; a failed read is reported as `None`.
    ReadCache(String),
    /// Extract the icon that the platform associates with this path.
    ExtractDefault(String),
    /// Extract the icon at this index of this resource container.
    ExtractResource(String, i32),
    /// Write these PNG bytes to the cache entry with this file name, ignoring
    /// any write failure, and return them.
    StoreAndReturn(String, Vec<u8>),
    /// Return these PNG bytes, found in the cache.
    Return(Vec<u8>),
    /// Return this error; nothing is written to the cache.
    Fail(ExtractError),
}

/// The resolved shortcut when link resolution succeeded.
pub open spec fn link_of(r: Result<ShortcutInfo, ResolveError>) -> Option<ShortcutInfo> {
    match r {
        Ok(info) => Some(info),
        Err(_) => None,
    }
}

/// Whether a machine in `phase` takes event `e`.
pub open spec fn accepts_spec(phase: Phase, e: Event) -> bool {
    match phase {
        Phase::ResolvingLink => e is LinkResolved,
        Phase::ReadingCache => e is CacheRead,
        Phase::Extracting => e is Extracted,
        Phase::Done => false,
    }
}

/// Whether `a` asks to read the cache entry of `key`.
pub open spec fn reads_entry_of(a: Action, key: Seq<char>) -> bool {
    a matches Action::ReadCache(e) && e@ == entry_name_of(key)
}

/// Whether `a` asks for the extraction that `src` describes.
pub open spec fn extracts(a: Action, src: IconSource) -> bool {
    match src {
        IconSource::Default(p) => a matches Action::ExtractDefault(q) && q@ == p@,
        IconSource::Resource(p, i) => a matches Action::ExtractResource(q, j) && q@ == p@ && j == i,
    }
}

/// Whether the cache read `c` yields a usable icon: a PNG file that decodes.
/// A failed read, garbage, a truncated file and a corrupt one are all a miss.
pub open spec fn is_hit(c: Option<Vec<u8>>) -> bool {
    c is Some && is_usable_png(c->Some_0@)
}

pub struct Acquisition {
    input: String,
    plan: IconPlan,
    phase: Phase,
}

impl Acquisition {
    /// The path the acquisition was started for.
    pub closed spec fn input_view(&self) -> Seq<char> {
        self.input@
    }

    /// The current cache key and extraction strategy.
    pub closed spec fn plan_view(&self) -> IconPlan {
        self.plan
    }

    pub closed spec fn phase_view(&self) -> Phase {
        self.phase
    }

    /// How an acquisition of `input` starts, with or without link resolution.
    pub open spec fn start_spec(input: Seq<char>, try_resolve_link: bool, s: Acquisition, a: Action) -> bool {
        &&& s.input_view() == input
        &&& s.plan_view().cache_key@ == input
        &&& s.plan_view().source matches IconSource::Default(p) && p@ == input
        &&& if try_resolve_link && has_link_suffix(input) {
            &&& s.phase_view() == Phase::ResolvingLink
            &&& a matches Action::ResolveLink(p) && p@ == input
        } else {
            &&& s.phase_view() == Phase::ReadingCache
            &&& reads_entry_of(a, input)
        }
    }

    /// One transition: from `old` on event `e` to `new`, asking for `a`.
    pub open spec fn step_spec(old: Acquisition, e: Event, new: Acquisition, a: Action) -> bool {
        &&& new.input_view() == old.input_view()
        &&& match e {
            Event::LinkResolved(r) => {
                &&& new.phase_view() == Phase::ReadingCache
                &&& new.plan_view().cache_key@ == plan_key_of(old.input_view(), link_of(r))
                &&& plan_source_is(new.plan_view().source, old.input_view(), link_of(r))
                &&& reads_entry_of(a, new.plan_view().cache_key@)
            },
            Event::CacheRead(c) => {
                &&& new.plan_view() == old.plan_view()
                &&& if is_hit(c) {
                    &&& new.phase_view() == Phase::Done
                    &&& a matches Action::Return(b) && b@ == c->Some_0@
                } else {
                    &&& new.phase_view() == Phase::Extracting
                    &&& extracts(a, old.plan_view().source)
                }
            },
            Event::Extracted(r) => {
                &&& new.plan_view() == old.plan_view()
                &&& new.phase_view() == Phase::Done
                &&& match r {
                    Ok(png) => if is_usable_png(png@) {
                        a matches Action::StoreAndReturn(e, b) && e@ == entry_name_of(
                            old.plan_view().cache_key@,
                        ) && b@ == png@
                    } else {
                        a matches Action::Return(b) && b@ == png@
                    },
                    Err(err) => a == Action::Fail(err),
                }
            },
        }
    }

    /// Starts acquiring the icon for `input`. Link resolution is attempted
    /// only when `try_resolve_link` is set and `input` ends in `.lnk`.
    pub fn new(input: String, try_resolve_link: bool) -> (r: (Acquisition, Action))
        ensures
            Self::start_spec(input@, try_resolve_link, r.0, r.1),
    {
        let plan = IconPlan {
            cache_key: input.clone(),
            source: IconSource::Default(input.clone()),
        };
        if try_resolve_link && is_link_path(input.as_str()) {
            let path = input.clone();
            (Acquisition { input, plan, phase: Phase::ResolvingLink }, Action::ResolveLink(path))
        } else {
            let entry = cache_entry_name(input.as_str());
            (Acquisition { input, plan, phase: Phase::ReadingCache }, Action::ReadCache(entry))
        }
    }

    /// Starts acquiring the icon at `index` of the resource container `path`
    /// under a cache key the caller already knows, without link resolution.
    pub fn for_resource(cache_key: String, path: String, index: i32) -> (r: (Acquisition, Action))
        ensures
            r.0.input_view() == path@,
            r.0.phase_view() == Phase::ReadingCache,
            r.0.plan_view().cache_key@ == cache_key@,
            r.0.plan_view().source matches IconSource::Resource(p, i) && p@ == path@ && i == index,
            reads_entry_of(r.1, cache_key@),
    {
        let entry = cache_entry_name(cache_key.as_str());
        let plan = IconPlan { cache_key, source: IconSource::Resource(path.clone(), index) };
        (Acquisition { input: path, plan, phase: Phase::ReadingCache }, Action::ReadCache(entry))
    }

    /// Whether the machine takes `e` now.
    pub fn accepts(&self, e: &Event) -> (r: bool)
        ensures
            r == accepts_spec(self.phase_view(), *e),
    {
        match (self.phase, e) {
            (Phase::ResolvingLink, Event::LinkResolved(_)) => true,
            (Phase::ReadingCache, Event::CacheRead(_)) => true,
            (Phase::Extracting, Event::Extracted(_)) => true,
            _ => false,
        }
    }

    /// Whether the acquisition has finished.
    pub fn is_done(&self) -> (r: bool)
        ensures
            r == (self.phase_view() == Phase::Done),
    {
        self.phase == Phase::Done
    }

    /// Takes the driver's report of the last action and says what to do next.
    pub fn step(&mut self, e: Event) -> (a: Action)
        requires
            accepts_spec(old(self).phase_view(), e),
        ensures
            Self::step_spec(*old(self), e, *final(self), a),
    {
        match e {
            Event::LinkResolved(r) => {
                let link = match r {
                    Ok(info) => Some(info),
                    Err(_) => None,
                };
                self.plan = plan_icon(self.input.as_str(), link);
                self.phase = Phase::ReadingCache;
                Action::ReadCache(cache_entry_name(self.plan.cache_key.as_str()))
            },
            Event::CacheRead(c) => {
                match c {
                    Some(bytes) => {
                        if usable_png(bytes.as_slice()) {
                            self.phase = Phase::Done;
                            return Action::Return(bytes);
                        }
                    },
                    None => {},
                }
                self.phase = Phase::Extracting;
                match &self.plan.source {
                    IconSource::Default(p) => Action::ExtractDefault(p.clone()),
                    IconSource::Resource(p, i) => Action::ExtractResource(p.clone(), *i),
                }
            },
            Event::Extracted(r) => {
                self.phase = Phase::Done;
                match r {
                    Ok(png) => {
                        if usable_png(png.as_slice()) {
                            Action::StoreAndReturn(cache_entry_name(self.plan.cache_key.as_str()), png)
                        } else {
                            Action::Return(png)
                        }
                    },
                    Err(err) => Action::Fail(err),
                }
            },
        }
    }
}

/// The cache key that an acquisition of `input` settles on, given the
/// outcome of link resolution where it is attempted.
pub open spec fn key_for(input: Seq<char>, try_resolve_link: bool, link: Result<ShortcutInfo, ResolveError>) -> Seq<char> {
    if try_resolve_link && has_link_suffix(input) {
        plan_key_of(input, link_of(link))
    } else {
        input
    }
}

/// An acquisition reads the cache entry of the key that its input, its flag
/// and the outcome of link resolution determine: two acquisitions of the same
/// request read the same entry.
pub proof fn lemma_request_reads_its_key(
    input: Seq<char>,
    try_resolve_link: bool,
    link: Result<ShortcutInfo, ResolveError>,
    s0: Acquisition,
    a0: Action,
    s1: Acquisition,
    a1: Action,
)
    requires
        Acquisition::start_spec(input, try_resolve_link, s0, a0),
        s0.phase_view() == Phase::ResolvingLink ==> Acquisition::step_spec(
            s0,
            Event::LinkResolved(link),
            s1,
            a1,
        ),
        s0.phase_view() != Phase::ResolvingLink ==> s1 == s0 && a1 == a0,
    ensures
        s1.phase_view() == Phase::ReadingCache,
        s1.plan_view().cache_key@ == key_for(input, try_resolve_link, link),
        reads_entry_of(a1, key_for(input, try_resolve_link, link)),
{
}

/// Shortcuts whose icon is the same resource (the same container path and
/// index) share one cache key, and so one cache entry, whatever link files
/// they were read from and whatever their targets.
pub proof fn lemma_shared_resource_shares_entry(
    input1: Seq<char>,
    info1: ShortcutInfo,
    input2: Seq<char>,
    info2: ShortcutInfo,
)
    requires
        info1.icon_path@.len() > 0,
        info1.icon_path@ == info2.icon_path@,
        info1.icon_index == info2.icon_index,
    ensures
        plan_key_of(input1, Some(info1)) == plan_key_of(input2, Some(info2)),
        entry_name_of(plan_key_of(input1, Some(info1))) == entry_name_of(
            plan_key_of(input2, Some(info2)),
        ),
{
}

/// A failed cache read, and bytes that are not a complete PNG file or do not
/// decode as one, are a miss: the acquisition goes on to extract the icon
/// instead of failing or returning the bytes.
pub proof fn lemma_unusable_cache_read_is_miss(
    s: Acquisition,
    c: Option<Vec<u8>>,
    next: Acquisition,
    a: Action,
)
    requires
        c is None || !is_png_file(c->Some_0@) || !is_usable_png(c->Some_0@),
        Acquisition::step_spec(s, Event::CacheRead(c), next, a),
    ensures
        next.phase_view() == Phase::Extracting,
        extracts(a, s.plan_view().source),
        !(a is Return) && !(a is Fail),
{
}

/// What an acquisition writes to the cache after extracting is filed under
/// the entry that a later acquisition of the same cache key reads; when that
/// read gives the written bytes back, the later acquisition returns the same
/// bytes and asks for no extraction. (Only bytes that would be served back are
/// ever written.)
pub proof fn lemma_repeat_acquisition_hits_cache(
    first: Acquisition,
    png: Vec<u8>,
    first_done: Acquisition,
    store: Action,
    second: Acquisition,
    read: Action,
    second_done: Acquisition,
    answer: Action,
)
    requires
        Acquisition::step_spec(first, Event::Extracted(Ok(png)), first_done, store),
        store is StoreAndReturn,
        second.plan_view().cache_key@ == first.plan_view().cache_key@,
        reads_entry_of(read, second.plan_view().cache_key@),
        Acquisition::step_spec(second, Event::CacheRead(Some(png)), second_done, answer),
    ensures
        is_usable_png(png@),
        store matches Action::StoreAndReturn(e, b) && read matches Action::ReadCache(f) && e@
            == f@ && b@ == png@,
        answer matches Action::Return(b) && b@ == png@,
        second_done.phase_view() == Phase::Done,
{
}

/// A failed extraction is passed on as it is, and nothing is written to the
/// cache.
pub proof fn lemma_failed_extraction_stores_nothing(
    s: Acquisition,
    err: ExtractError,
    next: Acquisition,
    a: Action,
)
    requires
        Acquisition::step_spec(s, Event::Extracted(Err(err)), next, a),
    ensures
        a == Action::Fail(err),
        !(a is StoreAndReturn),
        next.phase_view() == Phase::Done,
{
}

/// Extracted bytes that are a usable PNG are written to the cache entry of the
/// acquisition's key and returned; other extracted bytes are returned but not
/// written, so that the cache never holds an entry it would not serve.
pub proof fn lemma_extracted_icon_is_stored(
    s: Acquisition,
    png: Vec<u8>,
    next: Acquisition,
    a: Action,
)
    requires
        Acquisition::step_spec(s, Event::Extracted(Ok(png)), next, a),
    ensures
        is_usable_png(png@) ==> (a matches Action::StoreAndReturn(e, b) && e@ == entry_name_of(
            s.plan_view().cache_key@,
        ) && b@ == png@),
        !is_usable_png(png@) ==> (a matches Action::Return(b) && b@ == png@),
        next.phase_view() == Phase::Done,
{
}

} // verus!
