use prismatic_viz::registry::VertexObject;
use prismatic_viz::topology::{wrap_index, EdgeList, FaceList, SlicingMethod, VertexCollection, VertexList};

fn vertex(tag: f32) -> VertexObject {
    VertexObject::new(
        (tag.to_bits(), 0.0f32.to_bits(), 0.0f32.to_bits()),
        (tag.to_bits(), 0.0f32.to_bits(), 0.0f32.to_bits(), 1.0f32.to_bits()),
    )
}

#[test]
fn wrap_index_closes_every_axis() {
    for len in 1usize..10 {
        assert_eq!(wrap_index(len - 1, 1, len), 0);
    }
    assert_eq!(wrap_index(3, 1, 9), 4);
    assert_eq!(wrap_index(2, 0, 9), 2);
}

#[test]
fn face_offset_tables_are_the_three_fixed_tables() {
    assert_eq!(
        SlicingMethod::X.get_face_offsets(),
        ((0, 0, 0), (0, 1, 0), (0, 1, 1), (0, 0, 1)),
    );
    assert_eq!(
        SlicingMethod::Y.get_face_offsets(),
        ((0, 0, 0), (1, 0, 0), (1, 0, 1), (0, 0, 1)),
    );
    assert_eq!(
        SlicingMethod::Z.get_face_offsets(),
        ((0, 0, 0), (1, 0, 0), (1, 1, 0), (0, 1, 0)),
    );
}

#[test]
fn edge_offset_tables_step_one_axis() {
    assert_eq!(SlicingMethod::X.get_edge_offsets(), ((0, 0, 0), (1, 0, 0)));
    assert_eq!(SlicingMethod::Y.get_edge_offsets(), ((0, 0, 0), (0, 1, 0)));
    assert_eq!(SlicingMethod::Z.get_edge_offsets(), ((0, 0, 0), (0, 0, 1)));
    assert_eq!(SlicingMethod::X.get_vertex_offset(), (0, 0, 0));
}

#[test]
fn vertex_list_deduplicates_and_iterates_in_order() {
    let mut list = VertexList::new();
    let a = vertex(1.0);
    let b = vertex(2.0);
    list.add_vertex(&a);
    list.add_vertex(&b);
    list.add_vertex(&a);
    assert_eq!(list.len(), 2);
    let pairs = list.iter();
    assert_eq!(pairs, vec![(a, 0), (b, 1)]);
}

#[test]
fn add_edge_registers_endpoints_and_appends() {
    let mut list = EdgeList::new();
    let a = vertex(1.0);
    let b = vertex(2.0);
    let c = vertex(3.0);
    assert_eq!(list.add_edge(a, b), 0);
    assert_eq!(list.add_edge(b, c), 1);
    assert_eq!(list.edge_count(), 2);
    assert_eq!(list.edge_pairs(), vec![(0, 1), (1, 2)]);
    assert_eq!(list.vertex_registry().len(), 3);
}

#[test]
fn add_quad_gives_distinct_indices_to_distinct_corners() {
    let mut list = FaceList::new();
    let corners = [vertex(1.0), vertex(2.0), vertex(3.0), vertex(4.0)];
    let quad = list.add_quad(corners[0], corners[1], corners[2], corners[3]);
    assert_eq!(quad, 0);
    let quads = list.face_quads();
    let (i1, i2, i3, i4) = quads[0];
    let n = list.vertex_registry().len();
    assert!(i1 < n && i2 < n && i3 < n && i4 < n);
    let mut seen = vec![i1, i2, i3, i4];
    seen.sort();
    seen.dedup();
    assert_eq!(seen.len(), 4);
}

#[test]
fn quads_share_corner_indices_through_the_registry() {
    let mut list = FaceList::new();
    let a = vertex(1.0);
    let b = vertex(2.0);
    let c = vertex(3.0);
    let d = vertex(4.0);
    let e = vertex(5.0);
    let f = vertex(6.0);
    list.add_quad(a, b, c, d);
    list.add_quad(c, d, e, f);
    assert_eq!(list.face_count(), 2);
    assert_eq!(list.vertex_registry().len(), 6);
    let quads = list.face_quads();
    assert_eq!((quads[0].2, quads[0].3), (quads[1].0, quads[1].1));
}
