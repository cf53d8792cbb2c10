use prismatic_viz::registry::{VertexObject, VertexRegistry};

fn vertex(x: f32, y: f32, z: f32) -> VertexObject {
    VertexObject::new(
        (x.to_bits(), y.to_bits(), z.to_bits()),
        (x.to_bits(), y.to_bits(), z.to_bits(), 1.0f32.to_bits()),
    )
}

#[test]
fn registering_twice_returns_same_index_and_grows_once() {
    let mut registry = VertexRegistry::new();
    let v = vertex(0.1, 0.2, 0.3);
    let first = registry.get_or_insert_index(&v);
    let second = registry.get_or_insert_index(&v);
    assert_eq!(first, 0);
    assert_eq!(second, 0);
    assert_eq!(registry.len(), 1);
}

#[test]
fn distinct_vertices_get_dense_indices_in_order() {
    let mut registry = VertexRegistry::new();
    let a = vertex(0.0, 0.0, 0.0);
    let b = vertex(1.0, 0.0, 0.0);
    let c = vertex(0.0, 1.0, 0.0);
    assert_eq!(registry.get_or_insert_index(&a), 0);
    assert_eq!(registry.get_or_insert_index(&b), 1);
    assert_eq!(registry.get_or_insert_index(&c), 2);
    assert_eq!(registry.get_or_insert_index(&b), 1);
    assert_eq!(registry.get_or_insert_index(&a), 0);
    assert_eq!(registry.len(), 3);
    let pairs = registry.pairs();
    assert_eq!(pairs.len(), 3);
    assert_eq!(pairs[0], (a, 0));
    assert_eq!(pairs[1], (b, 1));
    assert_eq!(pairs[2], (c, 2));
}

#[test]
fn identity_is_bit_exact_so_zero_signs_differ() {
    // The two IEEE zeros compare equal as numbers but have different bit
    // patterns, and vertex identity is deliberately bit-exact.
    let mut registry = VertexRegistry::new();
    let plus = vertex(0.0, 0.0, 0.0);
    let minus = vertex(-0.0, 0.0, 0.0);
    let i = registry.get_or_insert_index(&plus);
    let j = registry.get_or_insert_index(&minus);
    assert_ne!(i, j);
    assert_eq!(registry.len(), 2);
}

#[test]
fn from_tuple_matches_new() {
    let point = (0.5f32.to_bits(), 0.25f32.to_bits(), 0.125f32.to_bits());
    let color = (1.0f32.to_bits(), 0.0f32.to_bits(), 0.5f32.to_bits(), 1.0f32.to_bits());
    assert_eq!(VertexObject::from_tuple((point, color)), VertexObject::new(point, color));
}
