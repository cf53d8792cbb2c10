//! Topology containers and the wrap-around index arithmetic.
//!
//! A [`VertexList`], [`EdgeList`] or [`FaceList`] owns one
//! [`VertexRegistry`] and, for the latter two, an ordered list of edges
//! (index pairs) or quads (index quadruples) into it.  [`wrap_index`]
//! implements the modular neighbour lookup that closes every sampled axis
//! into a ring, and [`SlicingMethod`] carries the fixed offset tables that
//! select which channels vary across an edge or a quad.

use vstd::prelude::*;
use crate::registry::{register_index, register_result, VertexObject, VertexRegistry};

verus! {

/// The topological kind of output requested from a rebuild.
#[derive(Debug, Clone, Copy, PartialEq, Eq, Structural)]
pub enum Dimensionality {
    Vertex,
    Edge,
    Face,
    Volume,
}

/// The axis-aligned direction that edges run along, or the axis a quad
/// slice is orthogonal to.
#[derive(Debug, Clone, Copy, PartialEq, Eq, Structural)]
pub enum SlicingMethod {
    X,
    Y,
    Z,
}

/// The four corner offsets (per-channel step increments) of the quad slice
/// of each axis.  The three tables are fixed and deliberately asymmetric.
pub open spec fn face_offsets_of(s: SlicingMethod) -> (
    (usize, usize, usize),
    (usize, usize, usize),
    (usize, usize, usize),
    (usize, usize, usize),
) {
    match s {
        SlicingMethod::X => ((0usize, 0usize, 0usize), (0usize, 1usize, 0usize), (0usize, 1usize, 1usize), (0usize, 0usize, 1usize)),
        SlicingMethod::Y => ((0usize, 0usize, 0usize), (1usize, 0usize, 0usize), (1usize, 0usize, 1usize), (0usize, 0usize, 1usize)),
        SlicingMethod::Z => ((0usize, 0usize, 0usize), (1usize, 0usize, 0usize), (1usize, 1usize, 0usize), (0usize, 1usize, 0usize)),
    }
}

/// The two endpoint offsets of an edge along each axis.
pub open spec fn edge_offsets_of(s: SlicingMethod) -> (
    (usize, usize, usize),
    (usize, usize, usize),
) {
    match s {
        SlicingMethod::X => ((0usize, 0usize, 0usize), (1usize, 0usize, 0usize)),
        SlicingMethod::Y => ((0usize, 0usize, 0usize), (0usize, 1usize, 0usize)),
        SlicingMethod::Z => ((0usize, 0usize, 0usize), (0usize, 0usize, 1usize)),
    }
}

impl SlicingMethod {
    /// The four corner offsets of this axis's quad slice.
    pub fn get_face_offsets(&self) -> (r: (
        (usize, usize, usize),
        (usize, usize, usize),
        (usize, usize, usize),
        (usize, usize, usize),
    ))
        ensures
            r == face_offsets_of(*self),
    {
        match self {
            SlicingMethod::X => ((0, 0, 0), (0, 1, 0), (0, 1, 1), (0, 0, 1)),
            SlicingMethod::Y => ((0, 0, 0), (1, 0, 0), (1, 0, 1), (0, 0, 1)),
            SlicingMethod::Z => ((0, 0, 0), (1, 0, 0), (1, 1, 0), (0, 1, 0)),
        }
    }

    /// The two endpoint offsets of this axis's edges.
    pub fn get_edge_offsets(&self) -> (r: ((usize, usize, usize), (usize, usize, usize)))
        ensures
            r == edge_offsets_of(*self),
    {
        match self {
            SlicingMethod::X => ((0, 0, 0), (1, 0, 0)),
            SlicingMethod::Y => ((0, 0, 0), (0, 1, 0)),
            SlicingMethod::Z => ((0, 0, 0), (0, 0, 1)),
        }
    }

    /// The single (zero) offset of an isolated vertex.
    pub fn get_vertex_offset(&self) -> (r: (usize, usize, usize))
        ensures
            r == (0usize, 0usize, 0usize),
    {
        (0, 0, 0)
    }
}

/// The wrapped neighbour index: `(index + offset) mod length`.
pub open spec fn wrap_spec(index: usize, offset: usize, length: usize) -> int {
    (index + offset) % (length as int)
}

/// Modular index arithmetic: steps `offset` samples past `index` and wraps
/// past the end, so the last sample of an axis connects back to the first
/// and every axis closes into a ring.
pub fn wrap_index(index: usize, offset: usize, length: usize) -> (r: usize)
    requires
        length > 0,
        index + offset <= usize::MAX,
    ensures
        r == wrap_spec(index, offset, length),
        r < length,
{
    (index + offset) % length
}

/// Wraparound closes each axis: one step past the last sample of an axis
/// is sample zero again.
pub proof fn lemma_wrap_closes(length: usize)
    requires
        length >= 1,
    ensures
        wrap_spec((length - 1) as usize, 1, length) == 0,
{
    assert(length as int % length as int == 0) by (nonlinear_arith)
        requires
            length >= 1,
    ;
}

/// The registry contents and index pair after registering an edge's two
/// endpoint vertices in order.
pub open spec fn edge_registration(s: Seq<VertexObject>, v1: VertexObject, v2: VertexObject) -> (
    Seq<VertexObject>,
    (usize, usize),
) {
    let i1 = register_index(s, v1) as usize;
    let s1 = register_result(s, v1);
    let i2 = register_index(s1, v2) as usize;
    let s2 = register_result(s1, v2);
    (s2, (i1, i2))
}

/// The registry contents and index quadruple after registering a quad's
/// four corner vertices in order.
pub open spec fn quad_registration(
    s: Seq<VertexObject>,
    v1: VertexObject,
    v2: VertexObject,
    v3: VertexObject,
    v4: VertexObject,
) -> (Seq<VertexObject>, (usize, usize, usize, usize)) {
    let i1 = register_index(s, v1) as usize;
    let s1 = register_result(s, v1);
    let i2 = register_index(s1, v2) as usize;
    let s2 = register_result(s1, v2);
    let i3 = register_index(s2, v3) as usize;
    let s3 = register_result(s2, v3);
    let i4 = register_index(s3, v4) as usize;
    let s4 = register_result(s3, v4);
    (s4, (i1, i2, i3, i4))
}

/// Basic facts of one registration: the returned index references the
/// offered vertex, and the contents only grow, keeping every existing
/// position unchanged.
pub proof fn lemma_register_props(s: Seq<VertexObject>, v: VertexObject)
    ensures
        0 <= register_index(s, v) < register_result(s, v).len(),
        register_result(s, v)[register_index(s, v)] == v,
        s.len() <= register_result(s, v).len(),
        forall|i: int| 0 <= i < s.len() ==> register_result(s, v)[i] == s[i],
{
    if s.contains(v) {
        let c = s.index_of(v);
        assert(0 <= c < s.len() && s[c] == v);
    } else {
        assert(register_result(s, v)[s.len() as int] == v);
    }
}

/// Quad validity: the four indices of a registered quad all reference
/// vertices that exist in the registry, each index references exactly the
/// corner vertex it was issued for, and distinct corner vertices always
/// receive pairwise distinct indices.
pub proof fn lemma_quad_valid(
    s: Seq<VertexObject>,
    v1: VertexObject,
    v2: VertexObject,
    v3: VertexObject,
    v4: VertexObject,
)
    requires
        s.len() + 4 <= usize::MAX,
    ensures
        quad_registration(s, v1, v2, v3, v4).1.0 < quad_registration(s, v1, v2, v3, v4).0.len(),
        quad_registration(s, v1, v2, v3, v4).1.1 < quad_registration(s, v1, v2, v3, v4).0.len(),
        quad_registration(s, v1, v2, v3, v4).1.2 < quad_registration(s, v1, v2, v3, v4).0.len(),
        quad_registration(s, v1, v2, v3, v4).1.3 < quad_registration(s, v1, v2, v3, v4).0.len(),
        quad_registration(s, v1, v2, v3, v4).0[quad_registration(s, v1, v2, v3, v4).1.0 as int]
            == v1,
        quad_registration(s, v1, v2, v3, v4).0[quad_registration(s, v1, v2, v3, v4).1.1 as int]
            == v2,
        quad_registration(s, v1, v2, v3, v4).0[quad_registration(s, v1, v2, v3, v4).1.2 as int]
            == v3,
        quad_registration(s, v1, v2, v3, v4).0[quad_registration(s, v1, v2, v3, v4).1.3 as int]
            == v4,
        v1 != v2 ==> quad_registration(s, v1, v2, v3, v4).1.0 != quad_registration(
            s,
            v1,
            v2,
            v3,
            v4,
        ).1.1,
        v1 != v3 ==> quad_registration(s, v1, v2, v3, v4).1.0 != quad_registration(
            s,
            v1,
            v2,
            v3,
            v4,
        ).1.2,
        v1 != v4 ==> quad_registration(s, v1, v2, v3, v4).1.0 != quad_registration(
            s,
            v1,
            v2,
            v3,
            v4,
        ).1.3,
        v2 != v3 ==> quad_registration(s, v1, v2, v3, v4).1.1 != quad_registration(
            s,
            v1,
            v2,
            v3,
            v4,
        ).1.2,
        v2 != v4 ==> quad_registration(s, v1, v2, v3, v4).1.1 != quad_registration(
            s,
            v1,
            v2,
            v3,
            v4,
        ).1.3,
        v3 != v4 ==> quad_registration(s, v1, v2, v3, v4).1.2 != quad_registration(
            s,
            v1,
            v2,
            v3,
            v4,
        ).1.3,
{
    let s1 = register_result(s, v1);
    let s2 = register_result(s1, v2);
    let s3 = register_result(s2, v3);
    let s4 = register_result(s3, v4);
    lemma_register_props(s, v1);
    lemma_register_props(s1, v2);
    lemma_register_props(s2, v3);
    lemma_register_props(s3, v4);
    let i1 = register_index(s, v1);
    let i2 = register_index(s1, v2);
    let i3 = register_index(s2, v3);
    let i4 = register_index(s3, v4);
    assert((i1 as usize) as int == i1);
    assert((i2 as usize) as int == i2);
    assert((i3 as usize) as int == i3);
    assert((i4 as usize) as int == i4);
    assert(s2[i1] == v1);
    assert(s3[i1] == v1);
    assert(s4[i1] == v1);
    assert(s3[i2] == v2);
    assert(s4[i2] == v2);
    assert(s4[i3] == v3);
}

/// The collection interface shared by the three containers: every one owns
/// a vertex registry that de-duplicates structurally.
pub trait VertexCollection {
    /// The registered vertices, in insertion order.
    spec fn registry_vertices(&self) -> Seq<VertexObject>;

    /// Well-formedness of the underlying registry.
    spec fn registry_wf(&self) -> bool;

    /// Shared access to the underlying registry.
    fn vertex_registry(&self) -> (r: &VertexRegistry)
        ensures
            r.vertices() == self.registry_vertices(),
            r.wf() == self.registry_wf(),
    ;

    /// De-duplicating registration: the stable index of the vertex,
    /// registering it first when it is fresh.
    fn get_or_insert_index(&mut self, vertex: &VertexObject) -> (idx: usize)
        requires
            old(self).registry_wf(),
        ensures
            final(self).registry_wf(),
            final(self).registry_vertices() == register_result(
                old(self).registry_vertices(),
                *vertex,
            ),
            idx == register_index(old(self).registry_vertices(), *vertex),
    ;

    /// Registers one vertex, as the Vertex dimensionality does per grid
    /// point.
    fn add_vertex(&mut self, v1: &VertexObject) -> (idx: usize)
        requires
            old(self).registry_wf(),
        ensures
            final(self).registry_wf(),
            final(self).registry_vertices() == register_result(
                old(self).registry_vertices(),
                *v1,
            ),
            idx == register_index(old(self).registry_vertices(), *v1),
    ;
}

/// The Vertex-dimensionality container: just the registry.
pub struct VertexList {
    registry: VertexRegistry,
}

impl VertexCollection for VertexList {
    closed spec fn registry_vertices(&self) -> Seq<VertexObject> {
        self.registry.vertices()
    }

    closed spec fn registry_wf(&self) -> bool {
        self.registry.wf()
    }

    fn vertex_registry(&self) -> (r: &VertexRegistry) {
        &self.registry
    }

    fn get_or_insert_index(&mut self, vertex: &VertexObject) -> (idx: usize) {
        self.registry.get_or_insert_index(vertex)
    }

    fn add_vertex(&mut self, v1: &VertexObject) -> (idx: usize) {
        self.registry.get_or_insert_index(v1)
    }
}

impl VertexList {
    /// A fresh, empty vertex list.
    pub fn new() -> (r: VertexList)
        ensures
            r.registry_wf(),
            r.registry_vertices() == Seq::<VertexObject>::empty(),
    {
        VertexList { registry: VertexRegistry::new() }
    }

    /// The registered `(vertex, index)` pairs, in insertion order.
    pub fn iter(&self) -> (r: Vec<(VertexObject, usize)>)
        requires
            self.registry_wf(),
        ensures
            r@.len() == self.registry_vertices().len(),
            forall|i: int|
                0 <= i < r@.len() ==> #[trigger] r@[i] == (self.registry_vertices()[i], i as usize),
    {
        self.registry.pairs()
    }

    /// The number of distinct vertices registered.
    pub fn len(&self) -> (n: usize)
        ensures
            n == self.registry_vertices().len(),
    {
        self.registry.len()
    }
}

/// The Edge-dimensionality container: the registry plus the ordered edge
/// list of index pairs.
pub struct EdgeList {
    vertex_registry: VertexRegistry,
    edges: Vec<(usize, usize)>,
}

impl VertexCollection for EdgeList {
    closed spec fn registry_vertices(&self) -> Seq<VertexObject> {
        self.vertex_registry.vertices()
    }

    closed spec fn registry_wf(&self) -> bool {
        self.vertex_registry.wf()
    }

    fn vertex_registry(&self) -> (r: &VertexRegistry) {
        &self.vertex_registry
    }

    fn get_or_insert_index(&mut self, vertex: &VertexObject) -> (idx: usize) {
        self.vertex_registry.get_or_insert_index(vertex)
    }

    fn add_vertex(&mut self, v1: &VertexObject) -> (idx: usize) {
        self.vertex_registry.get_or_insert_index(v1)
    }
}

impl EdgeList {
    /// The ordered edges, as pairs of registry indices.
    pub closed spec fn edges_view(self) -> Seq<(usize, usize)> {
        self.edges@
    }

    /// Well-formedness: the registry is well formed and every edge index
    /// references a registered vertex.
    pub open spec fn wf(self) -> bool {
        &&& self.registry_wf()
        &&& forall|i: int|
            0 <= i < self.edges_view().len() ==> (#[trigger] self.edges_view()[i]).0
                < self.registry_vertices().len() && self.edges_view()[i].1
                < self.registry_vertices().len()
    }

    /// A fresh, empty edge list.
    pub fn new() -> (r: EdgeList)
        ensures
            r.wf(),
            r.registry_vertices() == Seq::<VertexObject>::empty(),
            r.edges_view() == Seq::<(usize, usize)>::empty(),
    {
        EdgeList { vertex_registry: VertexRegistry::new(), edges: Vec::new() }
    }

    /// The number of edges registered.
    pub fn edge_count(&self) -> (n: usize)
        ensures
            n == self.edges_view().len(),
    {
        self.edges.len()
    }

    /// The ordered edges as a vector of index pairs.
    pub fn edge_pairs(&self) -> (r: Vec<(usize, usize)>)
        ensures
            r@ == self.edges_view(),
    {
        let mut r: Vec<(usize, usize)> = Vec::new();
        let mut i: usize = 0;
        while i < self.edges.len()
            invariant
                i <= self.edges@.len(),
                r@.len() == i,
                forall|j: int| 0 <= j < i ==> r@[j] == self.edges@[j],
            decreases self.edges@.len() - i,
        {
            r.push(self.edges[i]);
            i = i + 1;
        }
        proof {
            assert(r@ =~= self.edges_view());
        }
        r
    }

    /// Registers both endpoint vertices (de-duplicating) and appends the
    /// edge between their indices; returns the edge's position.
    pub fn add_edge(&mut self, v1: VertexObject, v2: VertexObject) -> (r: usize)
        requires
            old(self).wf(),
        ensures
            final(self).wf(),
            final(self).registry_vertices() == edge_registration(
                old(self).registry_vertices(),
                v1,
                v2,
            ).0,
            final(self).edges_view() == old(self).edges_view().push(
                edge_registration(old(self).registry_vertices(), v1, v2).1,
            ),
            r == old(self).edges_view().len(),
    {
        let ghost s0 = self.registry_vertices();
        proof {
            lemma_register_props(s0, v1);
            lemma_register_props(register_result(s0, v1), v2);
        }
        let i1 = self.vertex_registry.get_or_insert_index(&v1);
        let i2 = self.vertex_registry.get_or_insert_index(&v2);
        let r = self.edges.len();
        self.edges.push((i1, i2));
        proof {
            let sv = self.registry_vertices();
            assert(i1 < sv.len() && i2 < sv.len());
            assert forall|i: int|
                0 <= i < self.edges_view().len() implies (#[trigger] self.edges_view()[i]).0
                < sv.len() && self.edges_view()[i].1 < sv.len() by {
                if i < self.edges_view().len() - 1 {
                    assert(self.edges_view()[i] == old(self).edges_view()[i]);
                    assert(old(self).edges_view()[i].0 < s0.len());
                    assert(old(self).edges_view()[i].1 < s0.len());
                } else {
                    assert(self.edges_view()[i] == (i1, i2));
                }
            }
        }
        r
    }
}

/// The Face- and Volume-dimensionality container: the registry plus the
/// ordered quad list of index quadruples.
pub struct FaceList {
    vertex_registry: VertexRegistry,
    faces: Vec<(usize, usize, usize, usize)>,
}

impl VertexCollection for FaceList {
    closed spec fn registry_vertices(&self) -> Seq<VertexObject> {
        self.vertex_registry.vertices()
    }

    closed spec fn registry_wf(&self) -> bool {
        self.vertex_registry.wf()
    }

    fn vertex_registry(&self) -> (r: &VertexRegistry) {
        &self.vertex_registry
    }

    fn get_or_insert_index(&mut self, vertex: &VertexObject) -> (idx: usize) {
        self.vertex_registry.get_or_insert_index(vertex)
    }

    fn add_vertex(&mut self, v1: &VertexObject) -> (idx: usize) {
        self.vertex_registry.get_or_insert_index(v1)
    }
}

impl FaceList {
    /// The ordered quads, as quadruples of registry indices.
    pub closed spec fn faces_view(self) -> Seq<(usize, usize, usize, usize)> {
        self.faces@
    }

    /// Well-formedness: the registry is well formed and every quad index
    /// references a registered vertex.
    pub open spec fn wf(self) -> bool {
        &&& self.registry_wf()
        &&& forall|i: int|
            0 <= i < self.faces_view().len() ==> (#[trigger] self.faces_view()[i]).0
                < self.registry_vertices().len() && self.faces_view()[i].1
                < self.registry_vertices().len() && self.faces_view()[i].2
                < self.registry_vertices().len() && self.faces_view()[i].3
                < self.registry_vertices().len()
    }

    /// A fresh, empty face list.
    pub fn new() -> (r: FaceList)
        ensures
            r.wf(),
            r.registry_vertices() == Seq::<VertexObject>::empty(),
            r.faces_view() == Seq::<(usize, usize, usize, usize)>::empty(),
    {
        FaceList { vertex_registry: VertexRegistry::new(), faces: Vec::new() }
    }

    /// The number of quads registered.
    pub fn face_count(&self) -> (n: usize)
        ensures
            n == self.faces_view().len(),
    {
        self.faces.len()
    }

    /// The ordered quads as a vector of index quadruples.
    pub fn face_quads(&self) -> (r: Vec<(usize, usize, usize, usize)>)
        ensures
            r@ == self.faces_view(),
    {
        let mut r: Vec<(usize, usize, usize, usize)> = Vec::new();
        let mut i: usize = 0;
        while i < self.faces.len()
            invariant
                i <= self.faces@.len(),
                r@.len() == i,
                forall|j: int| 0 <= j < i ==> r@[j] == self.faces@[j],
            decreases self.faces@.len() - i,
        {
            r.push(self.faces[i]);
            i = i + 1;
        }
        proof {
            assert(r@ =~= self.faces_view());
        }
        r
    }

    /// Registers the four corner vertices (de-duplicating) and appends the
    /// quad of their indices; returns the quad's position.
    pub fn add_quad(
        &mut self,
        v1: VertexObject,
        v2: VertexObject,
        v3: VertexObject,
        v4: VertexObject,
    ) -> (r: usize)
        requires
            old(self).wf(),
        ensures
            final(self).wf(),
            final(self).registry_vertices() == quad_registration(
                old(self).registry_vertices(),
                v1,
                v2,
                v3,
                v4,
            ).0,
            final(self).faces_view() == old(self).faces_view().push(
                quad_registration(old(self).registry_vertices(), v1, v2, v3, v4).1,
            ),
            r == old(self).faces_view().len(),
    {
        let ghost s0 = self.registry_vertices();
        proof {
            lemma_register_props(s0, v1);
            lemma_register_props(register_result(s0, v1), v2);
            lemma_register_props(register_result(register_result(s0, v1), v2), v3);
            lemma_register_props(
                register_result(register_result(register_result(s0, v1), v2), v3),
                v4,
            );
        }
        let i1 = self.vertex_registry.get_or_insert_index(&v1);
        let i2 = self.vertex_registry.get_or_insert_index(&v2);
        let i3 = self.vertex_registry.get_or_insert_index(&v3);
        let i4 = self.vertex_registry.get_or_insert_index(&v4);
        let r = self.faces.len();
        self.faces.push((i1, i2, i3, i4));
        proof {
            let sv = self.registry_vertices();
            assert(i1 < sv.len() && i2 < sv.len() && i3 < sv.len() && i4 < sv.len());
            assert forall|i: int|
                0 <= i < self.faces_view().len() implies (#[trigger] self.faces_view()[i]).0
                < sv.len() && self.faces_view()[i].1 < sv.len() && self.faces_view()[i].2
                < sv.len() && self.faces_view()[i].3 < sv.len() by {
                if i < self.faces_view().len() - 1 {
                    assert(self.faces_view()[i] == old(self).faces_view()[i]);
                    assert(old(self).faces_view()[i].0 < s0.len());
                    assert(old(self).faces_view()[i].1 < s0.len());
                    assert(old(self).faces_view()[i].2 < s0.len());
                    assert(old(self).faces_view()[i].3 < s0.len());
                } else {
                    assert(self.faces_view()[i] == (i1, i2, i3, i4));
                }
            }
        }
        r
    }
}

} // verus!
