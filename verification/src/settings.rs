//! The visualization settings: the full configuration one rebuild runs from.
//!
//! All numeric fields hold single-precision bit patterns, as everywhere in
//! the crate.  The settings are supplied by the surrounding shell (normally
//! a GUI panel) and are read-only during a rebuild.

use vstd::prelude::*;
use crate::channel::ColorChannel;
use crate::color::{ColorModel, ColorModelCategory, ColorSpace};
use crate::float_bits::{GAMMA_REFERENCE_BITS, ONE_BITS, ZERO_BITS};
use crate::topology::{Dimensionality, SlicingMethod};

verus! {

/// The shape drawn at each vertex of a point rendering; consumed by the
/// rendering shell, not by the builders.
#[derive(Debug, Clone, Copy, PartialEq, Eq, Structural)]
pub enum VertexShape {
    Sphere,
    Cube,
    Tetrahedron,
}

/// A rotation mode of the rendered model; consumed by the rendering shell,
/// not by the builders.
#[derive(Debug, Clone, Copy, PartialEq, Eq, Structural)]
pub enum RotationDirection {
    Still,
    Clockwise,
    Counterclockwise,
}

/// Everything a rebuild depends on: scale and alpha, the perceptual
/// component limits, gamma configuration, the three channel specifications,
/// the colour model and space selections, the requested dimensionality and
/// its slicing axis, and the mirror and deform toggles.
#[derive(Debug, Clone, Copy)]
pub struct VisualizationSettings {
    pub viz_scale: u32,
    pub visualization_alpha: u32,
    pub component_limit: (u32, u32, u32),
    pub per_component_gamma: bool,
    pub gamma: (u32, u32, u32),
    pub channel_settings: (ColorChannel, ColorChannel, ColorChannel),
    pub color_model_category: ColorModelCategory,
    pub color_model: ColorModel,
    pub color_space: ColorSpace,
    pub dimensionality: Dimensionality,
    pub mesh_shape: VertexShape,
    pub instance_scale: u32,
    pub line_width: u32,
    pub face_slicing: SlicingMethod,
    pub gamma_deform: bool,
    pub discrete_color: bool,
    pub color_space_model: ColorModel,
    pub model_mirrored: bool,
}

/// The default configuration: unit scale and alpha, no perceptual offset,
/// the reference gamma on every component, three default channels, the
/// spherical hue/chroma/luma model shown as points in Cartesian RGB space.
pub open spec fn default_settings() -> VisualizationSettings {
    VisualizationSettings {
        viz_scale: ONE_BITS,
        visualization_alpha: ONE_BITS,
        component_limit: (ONE_BITS, ONE_BITS, ONE_BITS),
        per_component_gamma: false,
        gamma: (GAMMA_REFERENCE_BITS, GAMMA_REFERENCE_BITS, GAMMA_REFERENCE_BITS),
        channel_settings: (
            ColorChannel {
                start: ZERO_BITS,
                end: ONE_BITS,
                steps: 8,
                step_type: crate::channel::StepType::Forward,
            },
            ColorChannel {
                start: ZERO_BITS,
                end: ONE_BITS,
                steps: 8,
                step_type: crate::channel::StepType::Forward,
            },
            ColorChannel {
                start: ZERO_BITS,
                end: ONE_BITS,
                steps: 8,
                step_type: crate::channel::StepType::Forward,
            },
        ),
        color_model_category: ColorModelCategory::Spherical,
        color_model: ColorModel::SphericalHCLA,
        color_space: ColorSpace::XYZ,
        dimensionality: Dimensionality::Vertex,
        mesh_shape: VertexShape::Sphere,
        instance_scale: ONE_BITS,
        line_width: ONE_BITS,
        face_slicing: SlicingMethod::Y,
        gamma_deform: false,
        discrete_color: true,
        color_space_model: ColorModel::RGBA,
        model_mirrored: false,
    }
}

impl Default for VisualizationSettings {
    /// See [`default_settings`].
    fn default() -> (r: Self)
        ensures
            r == default_settings(),
    {
        VisualizationSettings {
            viz_scale: ONE_BITS,
            visualization_alpha: ONE_BITS,
            component_limit: (ONE_BITS, ONE_BITS, ONE_BITS),
            per_component_gamma: false,
            gamma: (GAMMA_REFERENCE_BITS, GAMMA_REFERENCE_BITS, GAMMA_REFERENCE_BITS),
            channel_settings: (
                ColorChannel::default(),
                ColorChannel::default(),
                ColorChannel::default(),
            ),
            color_model_category: ColorModelCategory::Spherical,
            color_model: ColorModel::SphericalHCLA,
            color_space: ColorSpace::XYZ,
            dimensionality: Dimensionality::Vertex,
            mesh_shape: VertexShape::Sphere,
            instance_scale: ONE_BITS,
            line_width: ONE_BITS,
            face_slicing: SlicingMethod::Y,
            gamma_deform: false,
            discrete_color: true,
            color_space_model: ColorModel::RGBA,
            model_mirrored: false,
        }
    }
}

} // verus!
