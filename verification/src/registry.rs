//! The vertex registry: a de-duplicating, insertion-ordered store of
//! vertices.
//!
//! A [`VertexObject`] is a position and a colour, both as single-precision
//! bit patterns, and two vertices are the same identity exactly when all
//! seven patterns are bit-for-bit equal.  A [`VertexRegistry`] maps each
//! distinct vertex to a dense index `0..N` in insertion order; registering a
//! vertex that is already present returns its existing index.  The store is
//! indexmap's `IndexMap`, kept behind trusted wrappers whose contracts state
//! what that crate's documentation promises of `get`, `insert`, `len` and
//! iteration, in terms of the entry sequence [`map_entries`].

use vstd::prelude::*;

verus! {

/// One de-duplicated vertex: a spatial position (three single-precision bit
/// patterns) and a display colour (four patterns: three components and
/// alpha).  Identity is bit-exact equality of all seven fields.
#[derive(Debug, Clone, Copy, PartialEq, Eq, Hash, Structural)]
pub struct VertexObject {
    pub point_x: u32,
    pub point_y: u32,
    pub point_z: u32,
    pub color_a: u32,
    pub color_b: u32,
    pub color_c: u32,
    pub color_alpha: u32,
}

/// The vertex built from a position triple and a colour quadruple.
pub open spec fn vertex_from_parts(point: (u32, u32, u32), color: (u32, u32, u32, u32)) -> VertexObject {
    VertexObject {
        point_x: point.0,
        point_y: point.1,
        point_z: point.2,
        color_a: color.0,
        color_b: color.1,
        color_c: color.2,
        color_alpha: color.3,
    }
}

impl VertexObject {
    /// Packs a position triple and a colour quadruple into one vertex value.
    pub fn new(point: (u32, u32, u32), color: (u32, u32, u32, u32)) -> (r: VertexObject)
        ensures
            r == vertex_from_parts(point, color),
    {
        VertexObject {
            point_x: point.0,
            point_y: point.1,
            point_z: point.2,
            color_a: color.0,
            color_b: color.1,
            color_c: color.2,
            color_alpha: color.3,
        }
    }

    /// As [`VertexObject::new`], from the pair that the point derivation
    /// returns.
    pub fn from_tuple(point_color: ((u32, u32, u32), (u32, u32, u32, u32))) -> (r: VertexObject)
        ensures
            r == vertex_from_parts(point_color.0, point_color.1),
    {
        VertexObject::new(point_color.0, point_color.1)
    }
}

#[verifier::external_type_specification]
#[verifier::external_body]
#[verifier::reject_recursive_types(K)]
#[verifier::reject_recursive_types(V)]
#[verifier::reject_recursive_types(S)]
pub struct ExIndexMap<K, V, S>(indexmap::IndexMap<K, V, S>);

/// The key-value entries of an `IndexMap` of vertices, in the map's
/// insertion order.  This names what the trusted wrappers below are stated
/// over; real maps never hold two entries with equal keys.
pub uninterp spec fn map_entries(
    m: indexmap::IndexMap<VertexObject, usize, std::collections::hash_map::RandomState>,
) -> Seq<(VertexObject, usize)>;

/// Relies on indexmap's `IndexMap::new`: the new map is empty.
#[verifier::external_body]
fn vertex_map_new() -> (m: indexmap::IndexMap<
    VertexObject,
    usize,
    std::collections::hash_map::RandomState,
>)
    ensures
        map_entries(m) == Seq::<(VertexObject, usize)>::empty(),
{
    indexmap::IndexMap::new()
}

/// Relies on indexmap's `IndexMap::len`: the number of entries.
#[verifier::external_body]
fn vertex_map_len(
    m: &indexmap::IndexMap<VertexObject, usize, std::collections::hash_map::RandomState>,
) -> (n: usize)
    ensures
        n == map_entries(*m).len(),
{
    m.len()
}

/// Relies on indexmap's `IndexMap::get`: the value stored for the key, if
/// an entry with that key is present, else `None`.
#[verifier::external_body]
fn vertex_map_get(
    m: &indexmap::IndexMap<VertexObject, usize, std::collections::hash_map::RandomState>,
    k: &VertexObject,
) -> (r: Option<usize>)
    ensures
        match r {
            Some(v) => exists|i: int|
                0 <= i < map_entries(*m).len() && #[trigger] map_entries(*m)[i] == (*k, v),
            None => forall|i: int|
                0 <= i < map_entries(*m).len() ==> (#[trigger] map_entries(*m)[i]).0 != *k,
        },
{
    m.get(k).copied()
}

/// Relies on indexmap's `IndexMap::insert`: when no entry has an equivalent
/// key, the new pair is inserted last in order.
#[verifier::external_body]
fn vertex_map_insert(
    m: &mut indexmap::IndexMap<VertexObject, usize, std::collections::hash_map::RandomState>,
    k: VertexObject,
    v: usize,
)
    ensures
        (forall|i: int|
            0 <= i < map_entries(*old(m)).len() ==> (#[trigger] map_entries(*old(m))[i]).0 != k)
            ==> map_entries(*final(m)) == map_entries(*old(m)).push((k, v)),
{
    m.insert(k, v);
}

/// Relies on indexmap's `IndexMap::iter`: the entries in their order.
#[verifier::external_body]
fn vertex_map_pairs(
    m: &indexmap::IndexMap<VertexObject, usize, std::collections::hash_map::RandomState>,
) -> (r: Vec<(VertexObject, usize)>)
    ensures
        r@ == map_entries(*m),
{
    m.iter().map(|(k, v)| (*k, *v)).collect()
}

/// The registered vertices after offering `v` to the store holding `s`:
/// unchanged when `v` is already present, else extended by `v` at the end.
pub open spec fn register_result(s: Seq<VertexObject>, v: VertexObject) -> Seq<VertexObject> {
    if s.contains(v) {
        s
    } else {
        s.push(v)
    }
}

/// The index returned for `v` by a store holding `s`: its existing position
/// when present, else the position it is appended at.
pub open spec fn register_index(s: Seq<VertexObject>, v: VertexObject) -> int {
    if s.contains(v) {
        s.index_of(v)
    } else {
        s.len() as int
    }
}

/// An insertion-ordered mapping from vertex values to dense indices
/// `0..N`.  Offering a vertex that was seen before always returns the same
/// index; offering a fresh one appends it.
pub struct VertexRegistry {
    map: indexmap::IndexMap<VertexObject, usize, std::collections::hash_map::RandomState>,
}

impl VertexRegistry {
    /// The stored entries, in insertion order.
    pub closed spec fn entries(self) -> Seq<(VertexObject, usize)> {
        map_entries(self.map)
    }

    /// The registered vertices, in insertion order; the index of a vertex
    /// is its position here.
    pub open spec fn vertices(self) -> Seq<VertexObject> {
        self.entries().map_values(|e: (VertexObject, usize)| e.0)
    }

    /// Well-formedness: each entry stores its own position as its value,
    /// and no two entries share a key.
    pub open spec fn wf(self) -> bool {
        &&& forall|i: int|
            0 <= i < self.entries().len() ==> (#[trigger] self.entries()[i]).1 == i
        &&& forall|i: int, j: int|
            0 <= i < j < self.entries().len() ==> (#[trigger] self.entries()[i]).0 != (
            #[trigger] self.entries()[j]).0
    }

    /// A fresh, empty registry.
    pub fn new() -> (r: VertexRegistry)
        ensures
            r.wf(),
            r.vertices() == Seq::<VertexObject>::empty(),
    {
        let r = VertexRegistry { map: vertex_map_new() };
        proof {
            assert(r.vertices() =~= Seq::<VertexObject>::empty());
        }
        r
    }

    /// The number of distinct vertices registered so far.
    pub fn len(&self) -> (n: usize)
        ensures
            n == self.vertices().len(),
    {
        vertex_map_len(&self.map)
    }

    /// Returns the stable index of `vertex`, registering it first if it was
    /// never seen: structural de-duplication.
    pub fn get_or_insert_index(&mut self, vertex: &VertexObject) -> (idx: usize)
        requires
            old(self).wf(),
        ensures
            final(self).wf(),
            final(self).vertices() == register_result(old(self).vertices(), *vertex),
            idx == register_index(old(self).vertices(), *vertex),
            idx < final(self).vertices().len(),
            final(self).vertices()[idx as int] == *vertex,
    {
        let ghost old_vs = old(self).vertices();
        match vertex_map_get(&self.map, vertex) {
            Some(index) => {
                proof {
                    let j = choose|j: int|
                        0 <= j < self.entries().len() && #[trigger] self.entries()[j] == (
                        *vertex,
                        index,
                    );
                    assert(self.entries()[j].1 == j);
                    assert(self.vertices()[j] == *vertex);
                    assert(old_vs.contains(*vertex));
                    let c = old_vs.index_of(*vertex);
                    assert(0 <= c < old_vs.len() && old_vs[c] == *vertex);
                    if c != j {
                        if c < j {
                            assert(self.entries()[c].0 != self.entries()[j].0);
                        } else {
                            assert(self.entries()[j].0 != self.entries()[c].0);
                        }
                        assert(false);
                    }
                    assert(register_result(old_vs, *vertex) =~= old_vs);
                }
                index
            },
            None => {
                let index = vertex_map_len(&self.map);
                proof {
                    if old_vs.contains(*vertex) {
                        let w = choose|w: int| 0 <= w < old_vs.len() && old_vs[w] == *vertex;
                        assert(self.entries()[w].0 == *vertex);
                        assert(false);
                    }
                }
                vertex_map_insert(&mut self.map, *vertex, index);
                proof {
                    assert(self.vertices() =~= old_vs.push(*vertex));
                }
                index
            },
        }
    }

    /// The registered `(vertex, index)` pairs, in insertion order.
    pub fn pairs(&self) -> (r: Vec<(VertexObject, usize)>)
        requires
            self.wf(),
        ensures
            r@.len() == self.vertices().len(),
            forall|i: int|
                0 <= i < r@.len() ==> #[trigger] r@[i] == (self.vertices()[i], i as usize),
    {
        let r = vertex_map_pairs(&self.map);
        proof {
            assert(forall|i: int|
                0 <= i < r@.len() ==> #[trigger] r@[i] == (self.vertices()[i], i as usize));
        }
        r
    }
}

/// Registering is idempotent: offering a fresh vertex appends it and hands
/// out the new index, and offering the same vertex again leaves the store
/// unchanged and hands out the same index, so the length grows by exactly
/// one, not two.
pub proof fn lemma_register_idempotent(s: Seq<VertexObject>, v: VertexObject)
    requires
        !s.contains(v),
    ensures
        register_result(s, v).len() == s.len() + 1,
        register_index(s, v) == s.len(),
        register_result(register_result(s, v), v) == register_result(s, v),
        register_index(register_result(s, v), v) == register_index(s, v),
{
    let s1 = s.push(v);
    assert(s1[s.len() as int] == v);
    assert(s1.contains(v));
    let c = s1.index_of(v);
    assert(0 <= c < s1.len() && s1[c] == v);
    if c < s.len() {
        assert(s[c] == v);
        assert(s.contains(v));
    }
    assert(c == s.len());
}

/// What a registration result holds: exactly the old contents plus the
/// offered vertex, nothing else.
pub proof fn lemma_register_contains(s: Seq<VertexObject>, v: VertexObject, x: VertexObject)
    ensures
        register_result(s, v).contains(x) <==> (s.contains(x) || x == v),
{
    if s.contains(v) {
    } else {
        if s.push(v).contains(x) {
            let i = choose|i: int| 0 <= i < s.push(v).len() && s.push(v)[i] == x;
            if i < s.len() {
                assert(s[i] == x);
            }
        }
        if s.contains(x) {
            let i = choose|i: int| 0 <= i < s.len() && s[i] == x;
            assert(s.push(v)[i] == x);
        }
        assert(s.push(v)[s.len() as int] == v);
    }
}

/// Registry indices are injective: in a well-formed registry two equal
/// vertex entries stand at the same position, so distinct indices always
/// reference distinct vertices.
pub proof fn lemma_registry_injective(r: VertexRegistry, i: int, j: int)
    requires
        r.wf(),
        0 <= i < r.vertices().len(),
        0 <= j < r.vertices().len(),
        r.vertices()[i] == r.vertices()[j],
    ensures
        i == j,
{
    if i < j {
        assert(r.entries()[i].0 != r.entries()[j].0);
    }
    if j < i {
        assert(r.entries()[j].0 != r.entries()[i].0);
    }
}

} // verus!
