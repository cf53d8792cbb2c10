use prismatic_viz::builder::{generate_dimension_lists, get_point_and_color, DimensionList};
use prismatic_viz::channel::{ColorChannel, StepType};
use prismatic_viz::color::{ColorModel, ColorSpace};
use prismatic_viz::settings::VisualizationSettings;
use prismatic_viz::topology::{Dimensionality, VertexCollection};

fn unit_channel(steps: usize) -> ColorChannel {
    ColorChannel {
        start: 0.0f32.to_bits(),
        end: 1.0f32.to_bits(),
        steps,
        step_type: StepType::Forward,
    }
}

fn rgb_settings(steps: usize, dimensionality: Dimensionality) -> VisualizationSettings {
    VisualizationSettings {
        channel_settings: (unit_channel(steps), unit_channel(steps), unit_channel(steps)),
        color_model: ColorModel::RGBA,
        color_space_model: ColorModel::RGBA,
        color_space: ColorSpace::XYZ,
        dimensionality,
        ..Default::default()
    }
}

#[test]
fn vertex_grid_without_collisions_has_sixty_four_entries() {
    let settings = rgb_settings(4, Dimensionality::Vertex);
    match generate_dimension_lists(&settings) {
        DimensionList::Vertex(list) => {
            assert_eq!(list.len(), 64);
        },
        _ => panic!("vertex dimensionality must build a vertex list"),
    }
}

#[test]
fn rebuilds_from_equal_settings_are_identical() {
    let settings = rgb_settings(3, Dimensionality::Vertex);
    let first = match generate_dimension_lists(&settings) {
        DimensionList::Vertex(list) => list.iter(),
        _ => panic!("vertex dimensionality must build a vertex list"),
    };
    let second = match generate_dimension_lists(&settings) {
        DimensionList::Vertex(list) => list.iter(),
        _ => panic!("vertex dimensionality must build a vertex list"),
    };
    assert_eq!(first, second);
}

#[test]
fn edge_build_emits_one_edge_per_cell() {
    let settings = rgb_settings(2, Dimensionality::Edge);
    match generate_dimension_lists(&settings) {
        DimensionList::Edge(list) => {
            // Non-vertex sampling adds the closing sample: three per axis.
            assert_eq!(list.edge_count(), 27);
            let n = list.vertex_registry().len();
            for (a, b) in list.edge_pairs() {
                assert!(a < n && b < n);
            }
        },
        _ => panic!("edge dimensionality must build an edge list"),
    }
}

#[test]
fn edge_rings_close_back_to_the_start() {
    // Two samples per axis; edges run along one axis, so every line of the
    // grid is a closed ring of length two and each edge appears together
    // with its reverse.
    let settings = rgb_settings(1, Dimensionality::Edge);
    match generate_dimension_lists(&settings) {
        DimensionList::Edge(list) => {
            let pairs = list.edge_pairs();
            assert_eq!(pairs.len(), 8);
            for (a, b) in &pairs {
                assert!(pairs.contains(&(*b, *a)));
            }
        },
        _ => panic!("edge dimensionality must build an edge list"),
    }
}

#[test]
fn face_build_emits_one_valid_quad_per_cell() {
    let settings = rgb_settings(2, Dimensionality::Face);
    match generate_dimension_lists(&settings) {
        DimensionList::Face(list) => {
            assert_eq!(list.face_count(), 27);
            let n = list.vertex_registry().len();
            for (i1, i2, i3, i4) in list.face_quads() {
                assert!(i1 < n && i2 < n && i3 < n && i4 < n);
                let mut seen = vec![i1, i2, i3, i4];
                seen.sort();
                seen.dedup();
                assert_eq!(seen.len(), 4);
            }
        },
        _ => panic!("face dimensionality must build a face list"),
    }
}

#[test]
fn volume_build_face_count_matches_closed_form() {
    // Three samples per axis: every axis contributes two boundary planes of
    // nine quads each, for fifty-four in all.
    let settings = rgb_settings(2, Dimensionality::Volume);
    match generate_dimension_lists(&settings) {
        DimensionList::Volume(list) => {
            assert_eq!(list.face_count(), 54);
            let n = list.vertex_registry().len();
            for (i1, i2, i3, i4) in list.face_quads() {
                assert!(i1 < n && i2 < n && i3 < n && i4 < n);
            }
        },
        _ => panic!("volume dimensionality must build a face list"),
    }
}

#[test]
fn volume_face_count_with_single_sample_axis() {
    // One sample on an axis counts its lone plane once: with two samples per
    // axis after the closing sample is added (steps = 1), the count is
    // 4*2 + 4*2 + 4*2 = 24.
    let settings = rgb_settings(1, Dimensionality::Volume);
    match generate_dimension_lists(&settings) {
        DimensionList::Volume(list) => {
            assert_eq!(list.face_count(), 24);
        },
        _ => panic!("volume dimensionality must build a face list"),
    }
}

#[test]
fn rgb_identity_settings_place_points_at_their_coordinates() {
    let settings = rgb_settings(4, Dimensionality::Vertex);
    let base = (0.25f32.to_bits(), 0.5f32.to_bits(), 0.75f32.to_bits());
    let (point, color) = get_point_and_color(base, &settings);
    assert_eq!(point, base);
    assert_eq!(f32::from_bits(color.0), 0.25);
    assert_eq!(f32::from_bits(color.1), 0.5);
    assert_eq!(f32::from_bits(color.2), 0.75);
    assert_eq!(f32::from_bits(color.3), 1.0);
}

#[test]
fn mirrored_settings_flip_the_second_coordinate() {
    let mut settings = rgb_settings(4, Dimensionality::Vertex);
    settings.model_mirrored = true;
    let base = (0.25f32.to_bits(), 0.5f32.to_bits(), 0.75f32.to_bits());
    let (point, _) = get_point_and_color(base, &settings);
    assert_eq!(f32::from_bits(point.1), -0.5);
    assert_eq!(point.0, base.0);
    assert_eq!(point.2, base.2);
}

#[test]
fn luma_chroma_model_offsets_second_and_third_channels() {
    let mut settings = rgb_settings(2, Dimensionality::Vertex);
    settings.color_model = ColorModel::YUVA;
    settings.color_space_model = ColorModel::YUVA;
    match generate_dimension_lists(&settings) {
        DimensionList::Vertex(list) => {
            let pairs = list.iter();
            // First grid point: (0, 0 - 0.5, 0 - 0.5) in model coordinates;
            // the identity space model keeps those as the position.
            let first = pairs[0].0;
            assert_eq!(f32::from_bits(first.point_x), 0.0);
            assert_eq!(f32::from_bits(first.point_y), -0.5);
            assert_eq!(f32::from_bits(first.point_z), -0.5);
        },
        _ => panic!("vertex dimensionality must build a vertex list"),
    }
}

#[test]
fn gamma_deform_bypasses_gamma_for_the_display_color() {
    let mut settings = rgb_settings(4, Dimensionality::Vertex);
    settings.gamma = (1.1f32.to_bits(), 2.2f32.to_bits(), 3.0f32.to_bits());
    settings.gamma_deform = true;
    let base = (0.25f32.to_bits(), 0.5f32.to_bits(), 0.75f32.to_bits());
    let (_, color) = get_point_and_color(base, &settings);
    // Exponents are all one under gamma deform, so the colour is untouched.
    assert_eq!(f32::from_bits(color.0), 0.25);
    assert_eq!(f32::from_bits(color.1), 0.5);
    assert_eq!(f32::from_bits(color.2), 0.75);
}
