//! The component logger registry.
//!
//! A logger turns one entity's component data into sink-ready batches. The
//! registry maps a component's fully-qualified type name to an optional
//! logger: an entry of `None` means "never log this type", which is
//! different from no entry at all, which means "fall through". Lookup
//! consults the per-session table first (when one is configured), the
//! default table second, and falls back to the generic text logger when
//! neither table holds an entry.

use vstd::prelude::*;

use crate::batch::{BatchPayload, SerializedBatch, batches_view};
use crate::default_loggers::DefaultRerunComponentLoggers;

verus! {

/// One logger of the library: how one component type's data becomes
/// batches.
///
/// The well-known variants name the built-in logger functions; `Text` is
/// the generic reflection fallback; `Custom` defers to a logger the
/// embedding application registered under the given identifier, which the
/// sync driver hands back as a deferred item.
#[derive(Clone, Copy, Debug, PartialEq, Eq, Structural)]
pub enum RerunLogger {
    Transform,
    GlobalTransform,
    Aabb,
    ChildOf,
    Children,
    Mesh2d,
    Mesh3d,
    Camera,
    Sprite,
    Text,
    Custom(u64),
}

/// A logger table: component type name to optional logger, `None` meaning
/// "suppress this type entirely".
///
/// Registering a name twice replaces the earlier entry, as a map insert
/// would. The table's model is the map from names to entries.
#[derive(Clone, Debug)]
pub struct RerunComponentLoggers {
    entries: Vec<(String, Option<RerunLogger>)>,
}

/// The map a list of registrations denotes: later entries win.
pub open spec fn entries_map(s: Seq<(String, Option<RerunLogger>)>) -> Map<
    Seq<char>,
    Option<RerunLogger>,
>
    decreases s.len(),
{
    if s.len() == 0 {
        Map::empty()
    } else {
        entries_map(s.drop_last()).insert(s.last().0@, s.last().1)
    }
}

impl View for RerunComponentLoggers {
    type V = Map<Seq<char>, Option<RerunLogger>>;

    closed spec fn view(&self) -> Map<Seq<char>, Option<RerunLogger>> {
        entries_map(self.entries@)
    }
}

impl RerunComponentLoggers {
    /// An empty table.
    pub fn new_empty() -> (r: Self)
        ensures
            r@ == Map::<Seq<char>, Option<RerunLogger>>::empty(),
    {
        RerunComponentLoggers { entries: Vec::new() }
    }

    /// A table holding the given registrations; a name listed twice keeps
    /// its later entry.
    pub fn new(it: Vec<(String, Option<RerunLogger>)>) -> (r: Self)
        ensures
            r@ == entries_map(it@),
    {
        RerunComponentLoggers { entries: it }
    }

    /// Registers a logger (or `None`, to suppress the type), replacing any
    /// earlier entry under the same name.
    pub fn insert(&mut self, name: String, logger: Option<RerunLogger>)
        ensures
            final(self)@ == old(self)@.insert(name@, logger),
    {
        let ghost before = self.entries@;
        self.entries.push((name, logger));
        proof {
            assert(self.entries@.drop_last() =~= before);
        }
    }

    /// The entry registered under a name: `Some(entry)` when the table
    /// holds one, `None` when the name is absent.
    pub fn get(&self, name: &String) -> (r: Option<Option<RerunLogger>>)
        ensures
            match r {
                Some(entry) => self@.contains_key(name@) && self@[name@] == entry,
                None => !self@.contains_key(name@),
            },
    {
        let mut i: usize = self.entries.len();
        proof {
            assert(self.entries@.take(i as int) =~= self.entries@);
        }
        while i > 0
            invariant
                i <= self.entries@.len(),
                entries_map(self.entries@).contains_key(name@) == entries_map(
                    self.entries@.take(i as int),
                ).contains_key(name@),
                entries_map(self.entries@).contains_key(name@) ==> entries_map(
                    self.entries@,
                )[name@] == entries_map(self.entries@.take(i as int))[name@],
            decreases i,
        {
            proof {
                assert(self.entries@.take(i as int).drop_last() =~= self.entries@.take(
                    i - 1 as int,
                ));
                assert(self.entries@.take(i as int).last() == self.entries@[i - 1 as int]);
            }
            i = i - 1;
            if self.entries[i].0 == *name {
                return Some(self.entries[i].1);
            }
        }
        None
    }
}

/// What logger resolution yields: the session entry when the session table
/// knows the name, else the default entry when the default table knows it,
/// else the generic text fallback. A `None` from either table suppresses
/// the type; the fallback is never `None`.
pub open spec fn spec_get_component_logger(
    name: Seq<char>,
    session: Option<Map<Seq<char>, Option<RerunLogger>>>,
    defaults: Map<Seq<char>, Option<RerunLogger>>,
) -> Option<RerunLogger> {
    if session is Some && session.unwrap().contains_key(name) {
        session.unwrap()[name]
    } else if defaults.contains_key(name) {
        defaults[name]
    } else {
        Some(RerunLogger::Text)
    }
}

/// The view of an optional session table.
pub open spec fn spec_session_view(loggers: Option<&RerunComponentLoggers>) -> Option<
    Map<Seq<char>, Option<RerunLogger>>,
> {
    match loggers {
        Some(l) => Some(l@),
        None => None,
    }
}

/// Resolves the logger for a component type name: session table first,
/// default table second, generic text fallback last. `None` means the type
/// is suppressed and nothing is to be logged.
pub fn get_component_logger(
    component_name: &String,
    loggers: Option<&RerunComponentLoggers>,
    default_loggers: &DefaultRerunComponentLoggers,
) -> (r: Option<RerunLogger>)
    ensures
        r == spec_get_component_logger(
            component_name@,
            spec_session_view(loggers),
            default_loggers@,
        ),
{
    if let Some(session) = loggers {
        if let Some(entry) = session.get(component_name) {
            return entry;
        }
    }
    if let Some(entry) = default_loggers.0.get(component_name) {
        return entry;
    }
    Some(RerunLogger::Text)
}

/// Session precedence: a `None` entry in the session table suppresses the
/// type even when the default table holds a logger for it.
pub proof fn lemma_session_none_suppresses(
    name: Seq<char>,
    session: Map<Seq<char>, Option<RerunLogger>>,
    defaults: Map<Seq<char>, Option<RerunLogger>>,
)
    requires
        session.contains_key(name),
        session[name] is None,
    ensures
        spec_get_component_logger(name, Some(session), defaults) is None,
{
}

/// Fallback: a name absent from both tables resolves to the generic text
/// logger, never to suppression.
pub proof fn lemma_absent_resolves_to_fallback(
    name: Seq<char>,
    session: Option<Map<Seq<char>, Option<RerunLogger>>>,
    defaults: Map<Seq<char>, Option<RerunLogger>>,
)
    requires
        session is Some ==> !session.unwrap().contains_key(name),
        !defaults.contains_key(name),
    ensures
        spec_get_component_logger(name, session, defaults) == Some(RerunLogger::Text),
{
}

/// A type name with every `::` separator replaced by a single `.`, the
/// form unmodelled types are tagged with in the sink's namespace.
pub open spec fn spec_normalize_type_name(s: Seq<char>) -> Seq<char>
    decreases s.len(),
{
    if s.len() >= 2 && s[0] == ':' && s[1] == ':' {
        seq!['.'] + spec_normalize_type_name(s.skip(2))
    } else if s.len() == 0 {
        s
    } else {
        seq![s[0]] + spec_normalize_type_name(s.skip(1))
    }
}

/// Replaces every `::` with `.`.
pub fn normalize_type_name(s: &str) -> (r: String)
    ensures
        r@ == spec_normalize_type_name(s@),
{
    let n = s.unicode_len();
    let mut out = String::new();
    let mut i: usize = 0;
    proof {
        assert(s@.skip(0) =~= s@);
    }
    while i < n
        invariant
            i <= n,
            n == s@.len(),
            spec_normalize_type_name(s@) == out@ + spec_normalize_type_name(s@.skip(i as int)),
        decreases n - i,
    {
        let c = s.get_char(i);
        if c == ':' && i + 1 < n && s.get_char(i + 1) == ':' {
            out.append(".");
            proof {
                reveal_strlit(".");
                assert("."@ =~= seq!['.']);
                assert(s@.skip(i as int)[0] == s@[i as int]);
                assert(s@.skip(i as int)[1] == s@[i + 1]);
                assert(s@.skip(i as int).skip(2) =~= s@.skip(i + 2));
            }
            i = i + 2;
        } else {
            let piece = s.substring_char(i, i + 1);
            out.append(piece);
            proof {
                assert(piece@ =~= seq![s@[i as int]]);
                assert(s@.skip(i as int)[0] == s@[i as int]);
                assert(s@.skip(i as int).skip(1) =~= s@.skip(i + 1));
            }
            i = i + 1;
        }
    }
    proof {
        assert(s@.skip(n as int) =~= Seq::<char>::empty());
    }
    out
}

/// The placeholder text logged when no reflection data is available for an
/// unmodelled component type.
pub open spec fn spec_unavailable_placeholder() -> Seq<char> {
    "<missing reflection metadata>"@
}

/// The batches of the generic fallback logger: one text batch, tagged with
/// the component's normalized type name, holding the reflected rendering
/// or the fixed placeholder.
pub open spec fn spec_ignored_component_batches(
    type_path: Seq<char>,
    reflected: Option<Seq<char>>,
) -> Seq<crate::batch::BatchModel> {
    seq![
        (crate::batch::BatchModel {
            name: spec_normalize_type_name(type_path),
            payload: crate::batch::PayloadModel::Text(
                match reflected {
                    Some(t) => t,
                    None => spec_unavailable_placeholder(),
                },
            ),
        }),
    ]
}

/// The generic fallback logger for component types with no dedicated
/// logger: one text batch tagged with the type's own (normalized) name, so
/// distinct unknown types never collide; a missing reflected rendering
/// degrades to a fixed placeholder, never to an error.
pub fn log_ignored_component(type_path: &String, reflected: &Option<String>) -> (r: (
    Option<&'static str>,
    Vec<SerializedBatch>,
))
    ensures
        r.0 is None,
        batches_view(r.1@) == spec_ignored_component_batches(
            type_path@,
            match reflected {
                Some(t) => Some(t@),
                None => None,
            },
        ),
{
    let name = normalize_type_name(type_path.as_str());
    let body: String = match reflected {
        Some(t) => t.clone(),
        None => String::from_str("<missing reflection metadata>"),
    };
    let batch = SerializedBatch { name, payload: BatchPayload::Text(body) };
    let batches = vec![batch];
    proof {
        assert(batches_view(batches@) =~= spec_ignored_component_batches(
            type_path@,
            match reflected {
                Some(t) => Some(t@),
                None => None,
            },
        ));
    }
    (None, batches)
}

} // verus!
