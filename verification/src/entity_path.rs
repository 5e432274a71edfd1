//! Entity path resolution.
//!
//! The sink organizes logged data under hierarchical path strings. An
//! entity's path follows the parent links of the world upward, one segment
//! per ancestor, root to leaf, joined with `/`. A segment is the entity's
//! name when it has one, and a fallback derived from its raw identifier
//! otherwise. An entity that carries an explicit path override contributes
//! that value verbatim and stops the walk: for the entity itself the
//! override is the whole path, for a descendant it is the prefix.
//!
//! The walk is bounded by [`MAX_ANCESTOR_DEPTH`] so that it terminates even
//! on a malformed parent graph (a cycle, or a dangling parent link): a cycle
//! yields a truncated best-effort path, never a hang.

use vstd::prelude::*;

use crate::world::{EntityData, WorldSnapshot, spec_lookup};

verus! {

/// The most ancestors one path walk will visit.
pub const MAX_ANCESTOR_DEPTH: usize = 256;

/// The explicit path-override marker an embedding application attaches to an
/// entity: the entity's path is this value verbatim, and descendants hang
/// below it. Path resolution consumes it; it is never logged itself (the
/// default table suppresses it).
#[derive(Clone, Debug)]
pub struct RerunEntityPath {
    pub path: String,
}

/// The digit character of a value below ten.
pub open spec fn spec_digit(n: nat) -> char {
    if n == 0 {
        '0'
    } else if n == 1 {
        '1'
    } else if n == 2 {
        '2'
    } else if n == 3 {
        '3'
    } else if n == 4 {
        '4'
    } else if n == 5 {
        '5'
    } else if n == 6 {
        '6'
    } else if n == 7 {
        '7'
    } else if n == 8 {
        '8'
    } else {
        '9'
    }
}

/// The decimal digits of `n`, most significant first.
pub open spec fn spec_u64_dec(n: nat) -> Seq<char>
    decreases n,
{
    if n < 10 {
        seq![spec_digit(n)]
    } else {
        spec_u64_dec(n / 10) + seq![spec_digit(n % 10)]
    }
}

/// The path segment of an entity that has no name component.
pub open spec fn spec_fallback_segment(id: u64) -> Seq<char> {
    "entity_"@ + spec_u64_dec(id as nat)
}

/// The path segment one entity contributes: its name, or the fallback.
pub open spec fn spec_segment(e: EntityData) -> Seq<char> {
    match e.name {
        Some(n) => n@,
        None => spec_fallback_segment(e.id),
    }
}

/// The parts of an entity's path, root to leaf, before joining.
///
/// Each part is one segment, except that an explicit path override is taken
/// verbatim as the first part (it may itself contain separators). An
/// identifier that no entity of the world carries resolves to its fallback
/// segment alone. `fuel` bounds the ancestor walk; when it runs out the
/// path is truncated at the entity reached last.
pub open spec fn spec_path_parts(w: Seq<EntityData>, id: u64, fuel: nat) -> Seq<Seq<char>>
    decreases fuel,
{
    match spec_lookup(w, id) {
        None => seq![spec_fallback_segment(id)],
        Some(e) => {
            if e.path_override is Some {
                seq![e.path_override.unwrap()@]
            } else if e.parent is Some && fuel > 0 {
                spec_path_parts(w, e.parent.unwrap(), (fuel - 1) as nat) + seq![spec_segment(e)]
            } else {
                seq![spec_segment(e)]
            }
        },
    }
}

/// Path parts joined with `/`.
pub open spec fn spec_join_parts(parts: Seq<Seq<char>>) -> Seq<char>
    decreases parts.len(),
{
    if parts.len() == 0 {
        Seq::empty()
    } else if parts.len() == 1 {
        parts[0]
    } else {
        spec_join_parts(parts.drop_last()) + seq!['/'] + parts.last()
    }
}

/// The path string of an entity, with the default walk bound.
pub open spec fn spec_path_string(w: Seq<EntityData>, id: u64) -> Seq<char> {
    spec_join_parts(spec_path_parts(w, id, MAX_ANCESTOR_DEPTH as nat))
}

/// The decimal digit below ten, as a one-character string.
fn digit_str(d: u64) -> (r: &'static str)
    requires
        d < 10,
    ensures
        r@ == seq![spec_digit(d as nat)],
{
    proof {
        reveal_strlit("0");
        reveal_strlit("1");
        reveal_strlit("2");
        reveal_strlit("3");
        reveal_strlit("4");
        reveal_strlit("5");
        reveal_strlit("6");
        reveal_strlit("7");
        reveal_strlit("8");
        reveal_strlit("9");
        assert("0"@ =~= seq!['0']);
        assert("1"@ =~= seq!['1']);
        assert("2"@ =~= seq!['2']);
        assert("3"@ =~= seq!['3']);
        assert("4"@ =~= seq!['4']);
        assert("5"@ =~= seq!['5']);
        assert("6"@ =~= seq!['6']);
        assert("7"@ =~= seq!['7']);
        assert("8"@ =~= seq!['8']);
        assert("9"@ =~= seq!['9']);
    }
    if d == 0 {
        "0"
    } else if d == 1 {
        "1"
    } else if d == 2 {
        "2"
    } else if d == 3 {
        "3"
    } else if d == 4 {
        "4"
    } else if d == 5 {
        "5"
    } else if d == 6 {
        "6"
    } else if d == 7 {
        "7"
    } else if d == 8 {
        "8"
    } else {
        "9"
    }
}

/// Writes `n` in decimal.
pub fn u64_to_dec(n: u64) -> (r: String)
    ensures
        r@ == spec_u64_dec(n as nat),
    decreases n,
{
    if n < 10 {
        digit_str(n).to_owned()
    } else {
        u64_to_dec(n / 10).concat(digit_str(n % 10))
    }
}

/// The fallback path segment of an unnamed entity.
pub fn fallback_segment(id: u64) -> (r: String)
    ensures
        r@ == spec_fallback_segment(id),
{
    String::from_str("entity_").concat(u64_to_dec(id).as_str())
}

/// The path segment of one entity: its name, or the fallback.
pub fn segment_string(e: &EntityData) -> (r: String)
    ensures
        r@ == spec_segment(*e),
{
    match &e.name {
        Some(n) => n.clone(),
        None => fallback_segment(e.id),
    }
}

/// The parts of the entity's path, root to leaf, walking at most `fuel`
/// parent links.
pub fn path_parts_up_to(world: &WorldSnapshot, id: u64, fuel: usize) -> (r: Vec<String>)
    ensures
        r.deep_view() == spec_path_parts(world.entities@, id, fuel as nat),
    decreases fuel,
{
    match world.lookup(id) {
        None => {
            let seg = fallback_segment(id);
            let r = vec![seg];
            proof {
                assert(r.deep_view() =~= spec_path_parts(world.entities@, id, fuel as nat));
            }
            r
        },
        Some(e) => {
            if let Some(p) = &e.path_override {
                let r = vec![p.clone()];
                proof {
                    assert(r.deep_view() =~= spec_path_parts(world.entities@, id, fuel as nat));
                }
                r
            } else if e.parent.is_some() && fuel > 0 {
                let parent = *e.parent.as_ref().unwrap();
                let mut r = path_parts_up_to(world, parent, fuel - 1);
                let ghost below = r.deep_view();
                r.push(segment_string(e));
                proof {
                    assert(r.deep_view() =~= below + seq![spec_segment(*e)]);
                }
                r
            } else {
                let seg = segment_string(e);
                let r = vec![seg];
                proof {
                    assert(r.deep_view() =~= spec_path_parts(world.entities@, id, fuel as nat));
                }
                r
            }
        },
    }
}

/// Joins path parts with `/`.
pub fn join_path_parts(parts: &Vec<String>) -> (r: String)
    ensures
        r@ == spec_join_parts(parts.deep_view()),
{
    if parts.len() == 0 {
        return String::new();
    }
    let mut r = parts[0].clone();
    proof {
        assert(parts.deep_view().take(1) =~= seq![parts@[0]@]);
    }
    let mut i: usize = 1;
    while i < parts.len()
        invariant
            1 <= i <= parts@.len(),
            parts.deep_view().len() == parts@.len(),
            r@ == spec_join_parts(parts.deep_view().take(i as int)),
        decreases parts@.len() - i,
    {
        r.append("/");
        r.append(parts[i].as_str());
        proof {
            reveal_strlit("/");
            assert("/"@ =~= seq!['/']);
            let dv = parts.deep_view();
            assert(dv[i as int] == parts@[i as int]@);
            assert(dv.take(i + 1).drop_last() =~= dv.take(i as int));
            assert(dv.take(i + 1).last() == dv[i as int]);
        }
        i = i + 1;
    }
    proof {
        assert(parts.deep_view().take(parts@.len() as int) =~= parts.deep_view());
    }
    r
}

/// Resolves the hierarchical sink path of an entity.
///
/// The result is the `/`-joined segments of the entity and its ancestors,
/// root to leaf; an explicit path override on the entity is returned
/// verbatim, and one on an ancestor becomes the path prefix. The walk reads
/// at most [`MAX_ANCESTOR_DEPTH`] parent links, so it terminates on any
/// world, a parent cycle included.
pub fn compute_entity_path(world: &WorldSnapshot, entity: u64) -> (r: String)
    ensures
        r@ == spec_path_string(world.entities@, entity),
{
    let parts = path_parts_up_to(world, entity, MAX_ANCESTOR_DEPTH);
    join_path_parts(&parts)
}

/// The identifiers on the bounded walk from an entity up to its root, root
/// first. The walk stops where the path does: at an entity with no parent,
/// at one carrying a path override, at an identifier the world does not
/// hold, or when the bound runs out.
pub open spec fn spec_ancestor_ids(w: Seq<EntityData>, id: u64, fuel: nat) -> Seq<u64>
    decreases fuel,
{
    match spec_lookup(w, id) {
        None => seq![id],
        Some(e) => {
            if e.path_override is Some {
                seq![id]
            } else if e.parent is Some && fuel > 0 {
                spec_ancestor_ids(w, e.parent.unwrap(), (fuel - 1) as nat) + seq![id]
            } else {
                seq![id]
            }
        },
    }
}

/// The entity and its ancestors, root first, walking at most
/// [`MAX_ANCESTOR_DEPTH`] parent links.
pub fn ancestors_from_world(world: &WorldSnapshot, entity: u64) -> (r: Vec<u64>)
    ensures
        r@ == spec_ancestor_ids(world.entities@, entity, MAX_ANCESTOR_DEPTH as nat),
{
    ancestors_up_to(world, entity, MAX_ANCESTOR_DEPTH)
}

/// What the head of a chain contributes to a path: its override verbatim
/// when it carries one, its own segment otherwise.
pub open spec fn spec_head_part(e: EntityData) -> Seq<Seq<char>> {
    if e.path_override is Some {
        seq![e.path_override.unwrap()@]
    } else {
        seq![spec_segment(e)]
    }
}

/// A chain of entities as it stands in the world: every one present under
/// its identifier, every one after the head the child of the one before it,
/// and no path override anywhere after the head.
pub open spec fn spec_linked_chain(w: Seq<EntityData>, chain: Seq<EntityData>) -> bool {
    &&& chain.len() >= 1
    &&& (forall|i: int|
        0 <= i < chain.len() ==> spec_lookup(w, (#[trigger] chain[i]).id) == Some(chain[i]))
    &&& (forall|i: int| 1 <= i < chain.len() ==> (#[trigger] chain[i]).parent == Some(
        chain[i - 1].id,
    ))
    &&& (forall|i: int| 1 <= i < chain.len() ==> (#[trigger] chain[i]).path_override is None)
}

/// The law of chains: the path of the last entity of a linked chain whose
/// head is terminal — it has no parent, or it carries a path override — is
/// the head's contribution followed by one segment per entity below it, in
/// root-to-leaf order.
pub proof fn lemma_path_of_chain(w: Seq<EntityData>, chain: Seq<EntityData>, fuel: nat)
    requires
        spec_linked_chain(w, chain),
        chain[0].path_override is Some || chain[0].parent is None,
        fuel >= chain.len() - 1,
    ensures
        spec_path_parts(w, chain.last().id, fuel) == spec_head_part(chain[0]) + chain.subrange(
            1,
            chain.len() as int,
        ).map_values(|e: EntityData| spec_segment(e)),
    decreases chain.len(),
{
    let tail = chain.subrange(1, chain.len() as int).map_values(|e: EntityData| spec_segment(e));
    if chain.len() == 1 {
        assert(spec_lookup(w, chain[0].id) == Some(chain[0]));
        assert(tail =~= Seq::<Seq<char>>::empty());
        assert(spec_path_parts(w, chain[0].id, fuel) =~= spec_head_part(chain[0]) + tail);
    } else {
        let n = chain.len() as int;
        let e = chain.last();
        assert(spec_lookup(w, chain[n - 1].id) == Some(chain[n - 1]));
        assert(chain[n - 1].parent == Some(chain[n - 2].id));
        assert(chain[n - 1].path_override is None);
        let prefix = chain.drop_last();
        assert(spec_linked_chain(w, prefix)) by {
            assert forall|i: int|
                0 <= i < prefix.len() implies spec_lookup(w, (#[trigger] prefix[i]).id) == Some(
                prefix[i],
            ) by {
                assert(prefix[i] == chain[i]);
            }
            assert forall|i: int| 1 <= i < prefix.len() implies (#[trigger] prefix[i]).parent
                == Some(prefix[i - 1].id) by {
                assert(prefix[i] == chain[i]);
                assert(prefix[i - 1] == chain[i - 1]);
            }
            assert forall|i: int|
                1 <= i < prefix.len() implies (#[trigger] prefix[i]).path_override is None by {
                assert(prefix[i] == chain[i]);
            }
        }
        lemma_path_of_chain(w, prefix, (fuel - 1) as nat);
        let tail_prefix = prefix.subrange(1, n - 1).map_values(|e: EntityData| spec_segment(e));
        assert(prefix.last() == chain[n - 2]);
        assert(spec_path_parts(w, e.id, fuel) == spec_path_parts(w, chain[n - 2].id, (fuel - 1) as nat)
            + seq![spec_segment(e)]);
        assert(tail =~= tail_prefix + seq![spec_segment(e)]) by {
            assert(chain.subrange(1, n).len() == n - 1);
            assert forall|j: int| 0 <= j < n - 1 implies #[trigger] tail[j] == (tail_prefix
                + seq![spec_segment(e)])[j] by {
                assert(chain.subrange(1, n)[j] == chain[j + 1]);
                if j < n - 2 {
                    assert(prefix.subrange(1, n - 1)[j] == prefix[j + 1]);
                    assert(prefix[j + 1] == chain[j + 1]);
                }
            }
        }
        assert((spec_head_part(chain[0]) + tail_prefix) + seq![spec_segment(e)] =~= spec_head_part(
            chain[0],
        ) + tail);
    }
}

/// An entity with neither a path override nor a parent resolves to its own
/// segment alone: its name, or its identifier fallback.
pub proof fn lemma_path_of_root(w: Seq<EntityData>, e: EntityData, fuel: nat)
    requires
        spec_lookup(w, e.id) == Some(e),
        e.path_override is None,
        e.parent is None,
    ensures
        spec_path_parts(w, e.id, fuel) == seq![spec_segment(e)],
        spec_join_parts(spec_path_parts(w, e.id, fuel)) == spec_segment(e),
{
}

/// Along a parent chain with no override anywhere, the resolved path parts
/// are exactly one segment per chain entity, root to leaf.
pub proof fn lemma_path_of_ancestor_chain(w: Seq<EntityData>, chain: Seq<EntityData>, fuel: nat)
    requires
        spec_linked_chain(w, chain),
        chain[0].path_override is None,
        chain[0].parent is None,
        fuel >= chain.len() - 1,
    ensures
        spec_path_parts(w, chain.last().id, fuel) == chain.map_values(
            |e: EntityData| spec_segment(e),
        ),
{
    lemma_path_of_chain(w, chain, fuel);
    let n = chain.len() as int;
    let mapped_tail = chain.subrange(1, n).map_values(|e: EntityData| spec_segment(e));
    assert forall|j: int| 0 <= j < n - 1 implies #[trigger] mapped_tail[j] == spec_segment(
        chain[j + 1],
    ) by {
        assert(chain.subrange(1, n)[j] == chain[j + 1]);
    }
    assert(spec_head_part(chain[0]) + mapped_tail =~= chain.map_values(
        |e: EntityData| spec_segment(e),
    ));
}

/// An explicit path override is the whole path, whatever stands above the
/// entity that carries it.
pub proof fn lemma_path_override_verbatim(w: Seq<EntityData>, e: EntityData, fuel: nat)
    requires
        spec_lookup(w, e.id) == Some(e),
        e.path_override is Some,
    ensures
        spec_path_parts(w, e.id, fuel) == seq![e.path_override.unwrap()@],
        spec_join_parts(spec_path_parts(w, e.id, fuel)) == e.path_override.unwrap()@,
{
}

/// Below an entity carrying a path override, a descendant's path is the
/// override followed by the descendants' own segments.
pub proof fn lemma_path_below_override(w: Seq<EntityData>, chain: Seq<EntityData>, fuel: nat)
    requires
        spec_linked_chain(w, chain),
        chain[0].path_override is Some,
        fuel >= chain.len() - 1,
    ensures
        spec_path_parts(w, chain.last().id, fuel) == seq![chain[0].path_override.unwrap()@]
            + chain.subrange(1, chain.len() as int).map_values(|e: EntityData| spec_segment(e)),
{
    lemma_path_of_chain(w, chain, fuel);
}

/// Path resolution never yields an empty part list, on any world — a parent
/// cycle or a dangling link included. (Termination of the bounded walk holds
/// by construction.)
pub proof fn lemma_path_parts_nonempty(w: Seq<EntityData>, id: u64, fuel: nat)
    ensures
        spec_path_parts(w, id, fuel).len() >= 1,
{
}

/// An entity found under an identifier is an entity of the world.
pub proof fn lemma_lookup_is_member(w: Seq<EntityData>, id: u64)
    requires
        spec_lookup(w, id) is Some,
    ensures
        w.contains(spec_lookup(w, id).unwrap()),
    decreases w.len(),
{
    if w.len() > 0 {
        if w.last().id == id {
            assert(w[w.len() - 1] == w.last());
        } else {
            lemma_lookup_is_member(w.drop_last(), id);
            let e = spec_lookup(w.drop_last(), id).unwrap();
            let j = choose|j: int| 0 <= j < w.drop_last().len() && w.drop_last()[j] == e;
            assert(w[j] == e);
        }
    }
}

/// On a world where every name and every path override is a non-empty
/// string, every part of every resolved path is non-empty.
pub proof fn lemma_path_parts_each_nonempty(w: Seq<EntityData>, id: u64, fuel: nat)
    requires
        forall|e: EntityData|
            w.contains(e) ==> ((#[trigger] e.name) is Some ==> e.name.unwrap()@.len() >= 1),
        forall|e: EntityData|
            w.contains(e) ==> ((#[trigger] e.path_override) is Some
                ==> e.path_override.unwrap()@.len() >= 1),
    ensures
        forall|j: int|
            0 <= j < spec_path_parts(w, id, fuel).len() ==> #[trigger] spec_path_parts(
                w,
                id,
                fuel,
            )[j].len() >= 1,
    decreases fuel,
{
    let parts = spec_path_parts(w, id, fuel);
    match spec_lookup(w, id) {
        None => {
            assert(spec_u64_dec(id as nat).len() >= 1);
            assert(parts[0].len() >= 1);
        },
        Some(e) => {
            lemma_lookup_is_member(w, id);
            if e.path_override is Some {
                assert(parts[0].len() >= 1);
            } else {
                assert(spec_segment(e).len() >= 1) by {
                    if e.name is None {
                        assert(spec_u64_dec(e.id as nat).len() >= 1);
                    }
                }
                if e.parent is Some && fuel > 0 {
                    lemma_path_parts_each_nonempty(w, e.parent.unwrap(), (fuel - 1) as nat);
                    let below = spec_path_parts(w, e.parent.unwrap(), (fuel - 1) as nat);
                    assert forall|j: int| 0 <= j < parts.len() implies #[trigger] parts[j].len()
                        >= 1 by {
                        if j < below.len() {
                            assert(parts[j] == below[j]);
                        } else {
                            assert(parts[j] == spec_segment(e));
                        }
                    }
                } else {
                    assert(parts[0].len() >= 1);
                }
            }
        },
    }
}

/// Joining a non-empty list of non-empty parts yields a non-empty path.
pub proof fn lemma_join_parts_nonempty(parts: Seq<Seq<char>>)
    requires
        parts.len() >= 1,
        forall|j: int| 0 <= j < parts.len() ==> #[trigger] parts[j].len() >= 1,
    ensures
        spec_join_parts(parts).len() >= 1,
    decreases parts.len(),
{
    if parts.len() > 1 {
        lemma_join_parts_nonempty(parts.drop_last());
    }
}

/// Path resolution is total and non-degenerate: on any world — a parent
/// cycle of any length included — the resolved path of any entity is a
/// non-empty string, provided names and overrides are non-empty.
pub proof fn lemma_path_string_nonempty(w: Seq<EntityData>, id: u64)
    requires
        forall|e: EntityData|
            w.contains(e) ==> ((#[trigger] e.name) is Some ==> e.name.unwrap()@.len() >= 1),
        forall|e: EntityData|
            w.contains(e) ==> ((#[trigger] e.path_override) is Some
                ==> e.path_override.unwrap()@.len() >= 1),
    ensures
        spec_path_string(w, id).len() >= 1,
{
    lemma_path_parts_nonempty(w, id, MAX_ANCESTOR_DEPTH as nat);
    lemma_path_parts_each_nonempty(w, id, MAX_ANCESTOR_DEPTH as nat);
    lemma_join_parts_nonempty(spec_path_parts(w, id, MAX_ANCESTOR_DEPTH as nat));
}

fn ancestors_up_to(world: &WorldSnapshot, id: u64, fuel: usize) -> (r: Vec<u64>)
    ensures
        r@ == spec_ancestor_ids(world.entities@, id, fuel as nat),
    decreases fuel,
{
    match world.lookup(id) {
        None => {
            let r = vec![id];
            proof {
                assert(r@ =~= spec_ancestor_ids(world.entities@, id, fuel as nat));
            }
            r
        },
        Some(e) => {
            if e.path_override.is_some() || e.parent.is_none() || fuel == 0 {
                let r = vec![id];
                proof {
                    assert(r@ =~= spec_ancestor_ids(world.entities@, id, fuel as nat));
                }
                r
            } else {
                let parent = *e.parent.as_ref().unwrap();
                let mut r = ancestors_up_to(world, parent, fuel - 1);
                r.push(id);
                r
            }
        },
    }
}

} // verus!
