//! The dimensionality builders: one rebuild from settings to topology.
//!
//! A rebuild samples the three channels, walks their Cartesian product in a
//! fixed order (axis A outermost, then B, then C) and, per grid point,
//! derives a vertex — and for the Edge, Face and Volume dimensionalities its
//! wrapped neighbours — registering everything through the de-duplicating
//! vertex registry.  The whole construction is pinned by recursive fold
//! models over the sampled value sequences, so the exact registry contents
//! and topology lists of every rebuild are functions of the settings alone.

use vstd::prelude::*;
use crate::channel::{generate_model, values_of, ChannelIndex};
use crate::color::{
    component_gamma_transform, convert_color, converted_color, from_space_to_space,
    gamma_transformed, is_luma_chroma_model, mirror_colorspace, mirrored_point,
    remap_rgb_components, remapped_components, space_point, ColorSpace,
};
use crate::float_bits::{
    add_bits, add_of, div_bits, div_of, is_finite_nonzero_pattern, is_nan_pattern,
    GAMMA_REFERENCE_BITS, NEG_HALF_BITS, ONE_BITS, ZERO_BITS,
};
use crate::registry::{
    lemma_register_contains, register_result, vertex_from_parts, VertexObject,
};
use crate::settings::VisualizationSettings;
use crate::topology::{
    edge_offsets_of, edge_registration, face_offsets_of, lemma_quad_valid,
    lemma_register_props, quad_registration, wrap_index, Dimensionality, EdgeList, FaceList,
    SlicingMethod, VertexCollection, VertexList,
};

verus! {

/// The gamma exponents of a rebuild: bypassed (all one) under gamma deform,
/// else each configured gamma divided by the reference gamma.
pub open spec fn gamma_exponents(s: VisualizationSettings) -> (u32, u32, u32) {
    if s.gamma_deform {
        (ONE_BITS, ONE_BITS, ONE_BITS)
    } else {
        (
            div_of(s.gamma.0, GAMMA_REFERENCE_BITS),
            div_of(s.gamma.1, GAMMA_REFERENCE_BITS),
            div_of(s.gamma.2, GAMMA_REFERENCE_BITS),
        )
    }
}

/// The raw colour of a grid coordinate (components plus the configured
/// alpha) after the perceptual component remap — keyed by the second
/// coordinate, the model's chroma axis — and before the gamma transform.
pub open spec fn raw_remapped(base: (u32, u32, u32), s: VisualizationSettings) -> (
    u32,
    u32,
    u32,
    u32,
) {
    remapped_components(
        (base.0, base.1, base.2, s.visualization_alpha),
        base.1,
        s.component_limit.0,
        s.component_limit.1,
        s.component_limit.2,
    )
}

/// The display colour of a grid coordinate: the remapped raw colour put
/// through the gamma transform.
pub open spec fn derived_display_color(base: (u32, u32, u32), s: VisualizationSettings) -> (
    u32,
    u32,
    u32,
    u32,
) {
    let g = gamma_exponents(s);
    gamma_transformed(raw_remapped(base, s), g.0, g.1, g.2)
}

/// The spatial position of a grid coordinate: the raw colour (or, under
/// gamma deform, the display colour, so gamma warps the shape itself)
/// re-expressed in the configured space model, embedded into Cartesian
/// coordinates from the configured colour space, and mirrored if asked.
pub open spec fn derived_position(base: (u32, u32, u32), s: VisualizationSettings) -> (
    u32,
    u32,
    u32,
) {
    let raw = (base.0, base.1, base.2, s.visualization_alpha);
    let pos_base = if s.gamma_deform {
        derived_display_color(base, s)
    } else {
        raw
    };
    let conv = converted_color(pos_base, s.color_model, s.color_space_model);
    let sp = space_point(conv, s.color_space);
    let sp2 = if s.model_mirrored {
        mirrored_point(sp)
    } else {
        sp
    };
    (sp2.0, sp2.1, sp2.2)
}

/// The position and display colour derived from one grid coordinate.
pub open spec fn derived_point_color(base: (u32, u32, u32), s: VisualizationSettings) -> (
    (u32, u32, u32),
    (u32, u32, u32, u32),
) {
    (derived_position(base, s), derived_display_color(base, s))
}

/// Derives the spatial position and display colour of one raw grid
/// coordinate under the given settings; pure and side-effect free.  When
/// the configured gamma is the reference gamma on every component and
/// gamma deform is off, the gamma exponents are exactly one and the display
/// colour is the remapped raw colour unchanged: the gamma round trip (for
/// components that are not NaN).
pub fn get_point_and_color(base_color: (u32, u32, u32), settings: &VisualizationSettings) -> (r: (
    (u32, u32, u32),
    (u32, u32, u32, u32),
))
    ensures
        r == derived_point_color(base_color, *settings),
        (!settings.gamma_deform && settings.gamma == (
            GAMMA_REFERENCE_BITS,
            GAMMA_REFERENCE_BITS,
            GAMMA_REFERENCE_BITS,
        ) && !is_nan_pattern(raw_remapped(base_color, *settings).0) && !is_nan_pattern(
            raw_remapped(base_color, *settings).1,
        ) && !is_nan_pattern(raw_remapped(base_color, *settings).2)) ==> r.1 == raw_remapped(
            base_color,
            *settings,
        ),
{
    let exponents: (u32, u32, u32) = if settings.gamma_deform {
        (ONE_BITS, ONE_BITS, ONE_BITS)
    } else {
        (
            div_bits(settings.gamma.0, GAMMA_REFERENCE_BITS),
            div_bits(settings.gamma.1, GAMMA_REFERENCE_BITS),
            div_bits(settings.gamma.2, GAMMA_REFERENCE_BITS),
        )
    };
    proof {
        assert(0x400C_CCCDu32 & 0x7F80_0000u32 != 0x7F80_0000u32 && 0x400C_CCCDu32
            & 0x7FFF_FFFFu32 != 0u32) by (bit_vector);
        assert(is_finite_nonzero_pattern(GAMMA_REFERENCE_BITS));
        assert(!settings.gamma_deform && settings.gamma == (
            GAMMA_REFERENCE_BITS,
            GAMMA_REFERENCE_BITS,
            GAMMA_REFERENCE_BITS,
        ) ==> exponents == (ONE_BITS, ONE_BITS, ONE_BITS));
    }
    let raw = (base_color.0, base_color.1, base_color.2, settings.visualization_alpha);
    let chroma = base_color.1;
    let color = component_gamma_transform(
        remap_rgb_components(
            raw,
            chroma,
            settings.component_limit.0,
            settings.component_limit.1,
            settings.component_limit.2,
        ),
        exponents.0,
        exponents.1,
        exponents.2,
    );
    let position_base = if settings.gamma_deform {
        color
    } else {
        raw
    };
    let converted = convert_color(position_base, settings.color_model, settings.color_space_model);
    let spatial = from_space_to_space(converted, settings.color_space, ColorSpace::XYZ);
    let spatial = if settings.model_mirrored {
        mirror_colorspace(spatial)
    } else {
        spatial
    };
    ((spatial.0, spatial.1, spatial.2), color)
}

/// The luma-chroma centring offset: `-0.5` on the second and third channel
/// when the active model is luma-chroma based, else a zero added through
/// the same IEEE operation.
pub open spec fn yuv_offset_of(s: VisualizationSettings) -> u32 {
    if is_luma_chroma_model(s.color_model) {
        NEG_HALF_BITS
    } else {
        ZERO_BITS
    }
}

/// The vertex derived at one raw grid index triple of the sampled value
/// sequences.
pub open spec fn grid_vertex(
    s: VisualizationSettings,
    al: Seq<u32>,
    bl: Seq<u32>,
    cl: Seq<u32>,
    ia: int,
    ib: int,
    ic: int,
) -> VertexObject {
    let off = yuv_offset_of(s);
    let base = (al[ia], add_of(bl[ib], off), add_of(cl[ic], off));
    let pc = derived_point_color(base, s);
    vertex_from_parts(pc.0, pc.1)
}

/// The vertex at the wrapped neighbour of a grid triple: each index is
/// stepped by its offset and wraps past the end of its axis.
pub open spec fn offset_vertex(
    s: VisualizationSettings,
    al: Seq<u32>,
    bl: Seq<u32>,
    cl: Seq<u32>,
    ia: int,
    ib: int,
    ic: int,
    o: (usize, usize, usize),
) -> VertexObject {
    grid_vertex(
        s,
        al,
        bl,
        cl,
        (ia + o.0) % (al.len() as int),
        (ib + o.1) % (bl.len() as int),
        (ic + o.2) % (cl.len() as int),
    )
}

fn base_vertex(
    settings: &VisualizationSettings,
    a_vals: &Vec<ChannelIndex>,
    b_vals: &Vec<ChannelIndex>,
    c_vals: &Vec<ChannelIndex>,
    yuv_off: u32,
    ia: usize,
    ib: usize,
    ic: usize,
) -> (v: VertexObject)
    requires
        ia < a_vals@.len(),
        ib < b_vals@.len(),
        ic < c_vals@.len(),
        yuv_off == yuv_offset_of(*settings),
    ensures
        v == grid_vertex(
            *settings,
            values_of(a_vals@),
            values_of(b_vals@),
            values_of(c_vals@),
            ia as int,
            ib as int,
            ic as int,
        ),
{
    let base = (
        a_vals[ia].value,
        add_bits(b_vals[ib].value, yuv_off),
        add_bits(c_vals[ic].value, yuv_off),
    );
    let pc = get_point_and_color(base, settings);
    VertexObject::from_tuple(pc)
}

fn offset_corner(
    settings: &VisualizationSettings,
    a_vals: &Vec<ChannelIndex>,
    b_vals: &Vec<ChannelIndex>,
    c_vals: &Vec<ChannelIndex>,
    yuv_off: u32,
    ia: usize,
    ib: usize,
    ic: usize,
    o: (usize, usize, usize),
) -> (v: VertexObject)
    requires
        ia < a_vals@.len(),
        ib < b_vals@.len(),
        ic < c_vals@.len(),
        o.0 <= 1 && o.1 <= 1 && o.2 <= 1,
        yuv_off == yuv_offset_of(*settings),
    ensures
        v == offset_vertex(
            *settings,
            values_of(a_vals@),
            values_of(b_vals@),
            values_of(c_vals@),
            ia as int,
            ib as int,
            ic as int,
            o,
        ),
{
    let wa = wrap_index(ia, o.0, a_vals.len());
    let wb = wrap_index(ib, o.1, b_vals.len());
    let wc = wrap_index(ic, o.2, c_vals.len());
    base_vertex(settings, a_vals, b_vals, c_vals, yuv_off, wa, wb, wc)
}

/// One Vertex-mode grid step: register the cell's vertex.
pub open spec fn vertex_fold_cell(
    acc: Seq<VertexObject>,
    s: VisualizationSettings,
    al: Seq<u32>,
    bl: Seq<u32>,
    cl: Seq<u32>,
    ia: int,
    ib: int,
    ic: int,
) -> Seq<VertexObject> {
    crate::registry::register_result(acc, grid_vertex(s, al, bl, cl, ia, ib, ic))
}

/// Vertex mode folded over the first `n` C-axis cells of row `(ia, ib)`.
pub open spec fn vertex_fold_c(
    acc: Seq<VertexObject>,
    s: VisualizationSettings,
    al: Seq<u32>,
    bl: Seq<u32>,
    cl: Seq<u32>,
    ia: int,
    ib: int,
    n: int,
) -> Seq<VertexObject>
    decreases n,
{
    if n <= 0 {
        acc
    } else {
        vertex_fold_cell(vertex_fold_c(acc, s, al, bl, cl, ia, ib, n - 1), s, al, bl, cl, ia, ib, n - 1)
    }
}

/// Vertex mode folded over the first `n` B-axis rows of plane `ia`.
pub open spec fn vertex_fold_b(
    acc: Seq<VertexObject>,
    s: VisualizationSettings,
    al: Seq<u32>,
    bl: Seq<u32>,
    cl: Seq<u32>,
    ia: int,
    n: int,
) -> Seq<VertexObject>
    decreases n,
{
    if n <= 0 {
        acc
    } else {
        vertex_fold_c(vertex_fold_b(acc, s, al, bl, cl, ia, n - 1), s, al, bl, cl, ia, n - 1, cl.len() as int)
    }
}

/// Vertex mode folded over the first `n` A-axis planes.
pub open spec fn vertex_fold_a(
    acc: Seq<VertexObject>,
    s: VisualizationSettings,
    al: Seq<u32>,
    bl: Seq<u32>,
    cl: Seq<u32>,
    n: int,
) -> Seq<VertexObject>
    decreases n,
{
    if n <= 0 {
        acc
    } else {
        vertex_fold_b(vertex_fold_a(acc, s, al, bl, cl, n - 1), s, al, bl, cl, n - 1, bl.len() as int)
    }
}

/// Builds the Vertex-dimensionality output: every grid vertex registered
/// once, in grid order, duplicates merged.
pub fn build_vertex_list(
    settings: &VisualizationSettings,
    a_vals: &Vec<ChannelIndex>,
    b_vals: &Vec<ChannelIndex>,
    c_vals: &Vec<ChannelIndex>,
) -> (r: VertexList)
    ensures
        r.registry_wf(),
        r.registry_vertices() == vertex_fold_a(
            Seq::<VertexObject>::empty(),
            *settings,
            values_of(a_vals@),
            values_of(b_vals@),
            values_of(c_vals@),
            a_vals@.len() as int,
        ),
{
    let ghost al = values_of(a_vals@);
    let ghost bl = values_of(b_vals@);
    let ghost cl = values_of(c_vals@);
    let ghost init = Seq::<VertexObject>::empty();
    let mut list = VertexList::new();
    let yuv_off: u32 = if settings.color_model.is_luma_chroma() {
        NEG_HALF_BITS
    } else {
        ZERO_BITS
    };
    let na: usize = a_vals.len();
    let nb: usize = b_vals.len();
    let nc: usize = c_vals.len();
    let mut ia: usize = 0;
    while ia < na
        invariant
            na == al.len() && nb == bl.len() && nc == cl.len(),
            al == values_of(a_vals@) && bl == values_of(b_vals@) && cl == values_of(c_vals@),
            yuv_off == yuv_offset_of(*settings),
            ia <= na,
            list.registry_wf(),
            list.registry_vertices() == vertex_fold_a(init, *settings, al, bl, cl, ia as int),
        decreases na - ia,
    {
        let mut ib: usize = 0;
        while ib < nb
            invariant
                na == al.len() && nb == bl.len() && nc == cl.len(),
                al == values_of(a_vals@) && bl == values_of(b_vals@) && cl == values_of(c_vals@),
                yuv_off == yuv_offset_of(*settings),
                ia < na,
                ib <= nb,
                list.registry_wf(),
                list.registry_vertices() == vertex_fold_b(
                    vertex_fold_a(init, *settings, al, bl, cl, ia as int),
                    *settings,
                    al,
                    bl,
                    cl,
                    ia as int,
                    ib as int,
                ),
            decreases nb - ib,
        {
            let mut ic: usize = 0;
            while ic < nc
                invariant
                    na == al.len() && nb == bl.len() && nc == cl.len(),
                    al == values_of(a_vals@) && bl == values_of(b_vals@) && cl == values_of(
                        c_vals@,
                    ),
                    yuv_off == yuv_offset_of(*settings),
                    ia < na,
                    ib < nb,
                    ic <= nc,
                    list.registry_wf(),
                    list.registry_vertices() == vertex_fold_c(
                        vertex_fold_b(
                            vertex_fold_a(init, *settings, al, bl, cl, ia as int),
                            *settings,
                            al,
                            bl,
                            cl,
                            ia as int,
                            ib as int,
                        ),
                        *settings,
                        al,
                        bl,
                        cl,
                        ia as int,
                        ib as int,
                        ic as int,
                    ),
                decreases nc - ic,
            {
                let point_1 = base_vertex(settings, a_vals, b_vals, c_vals, yuv_off, ia, ib, ic);
                list.add_vertex(&point_1);
                ic = ic + 1;
            }
            ib = ib + 1;
        }
        ia = ia + 1;
    }
    list
}

/// One Edge-mode grid step: register the cell's vertex and its wrapped
/// neighbour along the slicing direction, and append the edge between
/// their indices.
pub open spec fn edge_fold_cell(
    st: (Seq<VertexObject>, Seq<(usize, usize)>),
    s: VisualizationSettings,
    al: Seq<u32>,
    bl: Seq<u32>,
    cl: Seq<u32>,
    ia: int,
    ib: int,
    ic: int,
) -> (Seq<VertexObject>, Seq<(usize, usize)>) {
    let v1 = grid_vertex(s, al, bl, cl, ia, ib, ic);
    let v2 = offset_vertex(s, al, bl, cl, ia, ib, ic, edge_offsets_of(s.face_slicing).1);
    let reg = edge_registration(st.0, v1, v2);
    (reg.0, st.1.push(reg.1))
}

/// Edge mode folded over the first `n` C-axis cells of row `(ia, ib)`.
pub open spec fn edge_fold_c(
    st: (Seq<VertexObject>, Seq<(usize, usize)>),
    s: VisualizationSettings,
    al: Seq<u32>,
    bl: Seq<u32>,
    cl: Seq<u32>,
    ia: int,
    ib: int,
    n: int,
) -> (Seq<VertexObject>, Seq<(usize, usize)>)
    decreases n,
{
    if n <= 0 {
        st
    } else {
        edge_fold_cell(edge_fold_c(st, s, al, bl, cl, ia, ib, n - 1), s, al, bl, cl, ia, ib, n - 1)
    }
}

/// Edge mode folded over the first `n` B-axis rows of plane `ia`.
pub open spec fn edge_fold_b(
    st: (Seq<VertexObject>, Seq<(usize, usize)>),
    s: VisualizationSettings,
    al: Seq<u32>,
    bl: Seq<u32>,
    cl: Seq<u32>,
    ia: int,
    n: int,
) -> (Seq<VertexObject>, Seq<(usize, usize)>)
    decreases n,
{
    if n <= 0 {
        st
    } else {
        edge_fold_c(edge_fold_b(st, s, al, bl, cl, ia, n - 1), s, al, bl, cl, ia, n - 1, cl.len() as int)
    }
}

/// Edge mode folded over the first `n` A-axis planes.
pub open spec fn edge_fold_a(
    st: (Seq<VertexObject>, Seq<(usize, usize)>),
    s: VisualizationSettings,
    al: Seq<u32>,
    bl: Seq<u32>,
    cl: Seq<u32>,
    n: int,
) -> (Seq<VertexObject>, Seq<(usize, usize)>)
    decreases n,
{
    if n <= 0 {
        st
    } else {
        edge_fold_b(edge_fold_a(st, s, al, bl, cl, n - 1), s, al, bl, cl, n - 1, bl.len() as int)
    }
}

/// Builds the Edge-dimensionality output: one edge per grid cell, running
/// along the slicing direction to the wrapped neighbour, endpoints
/// de-duplicated through the registry.
pub fn build_edge_list(
    settings: &VisualizationSettings,
    a_vals: &Vec<ChannelIndex>,
    b_vals: &Vec<ChannelIndex>,
    c_vals: &Vec<ChannelIndex>,
) -> (r: EdgeList)
    ensures
        r.wf(),
        (r.registry_vertices(), r.edges_view()) == edge_fold_a(
            (Seq::<VertexObject>::empty(), Seq::<(usize, usize)>::empty()),
            *settings,
            values_of(a_vals@),
            values_of(b_vals@),
            values_of(c_vals@),
            a_vals@.len() as int,
        ),
{
    let ghost al = values_of(a_vals@);
    let ghost bl = values_of(b_vals@);
    let ghost cl = values_of(c_vals@);
    let ghost init = (Seq::<VertexObject>::empty(), Seq::<(usize, usize)>::empty());
    let mut list = EdgeList::new();
    let yuv_off: u32 = if settings.color_model.is_luma_chroma() {
        NEG_HALF_BITS
    } else {
        ZERO_BITS
    };
    let offsets = settings.face_slicing.get_edge_offsets();
    let na: usize = a_vals.len();
    let nb: usize = b_vals.len();
    let nc: usize = c_vals.len();
    let mut ia: usize = 0;
    while ia < na
        invariant
            na == al.len() && nb == bl.len() && nc == cl.len(),
            al == values_of(a_vals@) && bl == values_of(b_vals@) && cl == values_of(c_vals@),
            yuv_off == yuv_offset_of(*settings),
            offsets == edge_offsets_of(settings.face_slicing),
            ia <= na,
            list.wf(),
            (list.registry_vertices(), list.edges_view()) == edge_fold_a(
                init,
                *settings,
                al,
                bl,
                cl,
                ia as int,
            ),
        decreases na - ia,
    {
        let mut ib: usize = 0;
        while ib < nb
            invariant
                na == al.len() && nb == bl.len() && nc == cl.len(),
                al == values_of(a_vals@) && bl == values_of(b_vals@) && cl == values_of(c_vals@),
                yuv_off == yuv_offset_of(*settings),
                offsets == edge_offsets_of(settings.face_slicing),
                ia < na,
                ib <= nb,
                list.wf(),
                (list.registry_vertices(), list.edges_view()) == edge_fold_b(
                    edge_fold_a(init, *settings, al, bl, cl, ia as int),
                    *settings,
                    al,
                    bl,
                    cl,
                    ia as int,
                    ib as int,
                ),
            decreases nb - ib,
        {
            let mut ic: usize = 0;
            while ic < nc
                invariant
                    na == al.len() && nb == bl.len() && nc == cl.len(),
                    al == values_of(a_vals@) && bl == values_of(b_vals@) && cl == values_of(
                        c_vals@,
                    ),
                    yuv_off == yuv_offset_of(*settings),
                    offsets == edge_offsets_of(settings.face_slicing),
                    ia < na,
                    ib < nb,
                    ic <= nc,
                    list.wf(),
                    (list.registry_vertices(), list.edges_view()) == edge_fold_c(
                        edge_fold_b(
                            edge_fold_a(init, *settings, al, bl, cl, ia as int),
                            *settings,
                            al,
                            bl,
                            cl,
                            ia as int,
                            ib as int,
                        ),
                        *settings,
                        al,
                        bl,
                        cl,
                        ia as int,
                        ib as int,
                        ic as int,
                    ),
                decreases nc - ic,
            {
                proof {
                    assert(offsets.1.0 <= 1 && offsets.1.1 <= 1 && offsets.1.2 <= 1);
                }
                let point_1 = base_vertex(settings, a_vals, b_vals, c_vals, yuv_off, ia, ib, ic);
                let point_2 = offset_corner(
                    settings,
                    a_vals,
                    b_vals,
                    c_vals,
                    yuv_off,
                    ia,
                    ib,
                    ic,
                    offsets.1,
                );
                list.add_edge(point_1, point_2);
                ic = ic + 1;
            }
            ib = ib + 1;
        }
        ia = ia + 1;
    }
    list
}

/// The four corner vertices of the quad a Face-mode cell emits: the cell's
/// own vertex and its three wrapped neighbours from the slicing axis's
/// offset table.
pub open spec fn face_cell_corners(
    s: VisualizationSettings,
    al: Seq<u32>,
    bl: Seq<u32>,
    cl: Seq<u32>,
    ia: int,
    ib: int,
    ic: int,
) -> (VertexObject, VertexObject, VertexObject, VertexObject) {
    let t = face_offsets_of(s.face_slicing);
    (
        grid_vertex(s, al, bl, cl, ia, ib, ic),
        offset_vertex(s, al, bl, cl, ia, ib, ic, t.1),
        offset_vertex(s, al, bl, cl, ia, ib, ic, t.2),
        offset_vertex(s, al, bl, cl, ia, ib, ic, t.3),
    )
}

/// One Face-mode grid step: register the cell's four quad corners and
/// append the quad of their indices.
pub open spec fn face_fold_cell(
    st: (Seq<VertexObject>, Seq<(usize, usize, usize, usize)>),
    s: VisualizationSettings,
    al: Seq<u32>,
    bl: Seq<u32>,
    cl: Seq<u32>,
    ia: int,
    ib: int,
    ic: int,
) -> (Seq<VertexObject>, Seq<(usize, usize, usize, usize)>) {
    let q = face_cell_corners(s, al, bl, cl, ia, ib, ic);
    let reg = quad_registration(st.0, q.0, q.1, q.2, q.3);
    (reg.0, st.1.push(reg.1))
}

/// Face mode folded over the first `n` C-axis cells of row `(ia, ib)`.
pub open spec fn face_fold_c(
    st: (Seq<VertexObject>, Seq<(usize, usize, usize, usize)>),
    s: VisualizationSettings,
    al: Seq<u32>,
    bl: Seq<u32>,
    cl: Seq<u32>,
    ia: int,
    ib: int,
    n: int,
) -> (Seq<VertexObject>, Seq<(usize, usize, usize, usize)>)
    decreases n,
{
    if n <= 0 {
        st
    } else {
        face_fold_cell(face_fold_c(st, s, al, bl, cl, ia, ib, n - 1), s, al, bl, cl, ia, ib, n - 1)
    }
}

/// Face mode folded over the first `n` B-axis rows of plane `ia`.
pub open spec fn face_fold_b(
    st: (Seq<VertexObject>, Seq<(usize, usize, usize, usize)>),
    s: VisualizationSettings,
    al: Seq<u32>,
    bl: Seq<u32>,
    cl: Seq<u32>,
    ia: int,
    n: int,
) -> (Seq<VertexObject>, Seq<(usize, usize, usize, usize)>)
    decreases n,
{
    if n <= 0 {
        st
    } else {
        face_fold_c(face_fold_b(st, s, al, bl, cl, ia, n - 1), s, al, bl, cl, ia, n - 1, cl.len() as int)
    }
}

/// Face mode folded over the first `n` A-axis planes.
pub open spec fn face_fold_a(
    st: (Seq<VertexObject>, Seq<(usize, usize, usize, usize)>),
    s: VisualizationSettings,
    al: Seq<u32>,
    bl: Seq<u32>,
    cl: Seq<u32>,
    n: int,
) -> (Seq<VertexObject>, Seq<(usize, usize, usize, usize)>)
    decreases n,
{
    if n <= 0 {
        st
    } else {
        face_fold_b(face_fold_a(st, s, al, bl, cl, n - 1), s, al, bl, cl, n - 1, bl.len() as int)
    }
}

/// Builds the Face-dimensionality output: one quad per grid cell, its
/// corners taken from the slicing axis's offset table with wrap-around,
/// all corners de-duplicated through the registry.
pub fn build_face_list(
    settings: &VisualizationSettings,
    a_vals: &Vec<ChannelIndex>,
    b_vals: &Vec<ChannelIndex>,
    c_vals: &Vec<ChannelIndex>,
) -> (r: FaceList)
    ensures
        r.wf(),
        (r.registry_vertices(), r.faces_view()) == face_fold_a(
            (Seq::<VertexObject>::empty(), Seq::<(usize, usize, usize, usize)>::empty()),
            *settings,
            values_of(a_vals@),
            values_of(b_vals@),
            values_of(c_vals@),
            a_vals@.len() as int,
        ),
{
    let ghost al = values_of(a_vals@);
    let ghost bl = values_of(b_vals@);
    let ghost cl = values_of(c_vals@);
    let ghost init = (Seq::<VertexObject>::empty(), Seq::<(usize, usize, usize, usize)>::empty());
    let mut list = FaceList::new();
    let yuv_off: u32 = if settings.color_model.is_luma_chroma() {
        NEG_HALF_BITS
    } else {
        ZERO_BITS
    };
    let offsets = settings.face_slicing.get_face_offsets();
    let na: usize = a_vals.len();
    let nb: usize = b_vals.len();
    let nc: usize = c_vals.len();
    let mut ia: usize = 0;
    while ia < na
        invariant
            na == al.len() && nb == bl.len() && nc == cl.len(),
            al == values_of(a_vals@) && bl == values_of(b_vals@) && cl == values_of(c_vals@),
            yuv_off == yuv_offset_of(*settings),
            offsets == face_offsets_of(settings.face_slicing),
            ia <= na,
            list.wf(),
            (list.registry_vertices(), list.faces_view()) == face_fold_a(
                init,
                *settings,
                al,
                bl,
                cl,
                ia as int,
            ),
        decreases na - ia,
    {
        let mut ib: usize = 0;
        while ib < nb
            invariant
                na == al.len() && nb == bl.len() && nc == cl.len(),
                al == values_of(a_vals@) && bl == values_of(b_vals@) && cl == values_of(c_vals@),
                yuv_off == yuv_offset_of(*settings),
                offsets == face_offsets_of(settings.face_slicing),
                ia < na,
                ib <= nb,
                list.wf(),
                (list.registry_vertices(), list.faces_view()) == face_fold_b(
                    face_fold_a(init, *settings, al, bl, cl, ia as int),
                    *settings,
                    al,
                    bl,
                    cl,
                    ia as int,
                    ib as int,
                ),
            decreases nb - ib,
        {
            let mut ic: usize = 0;
            while ic < nc
                invariant
                    na == al.len() && nb == bl.len() && nc == cl.len(),
                    al == values_of(a_vals@) && bl == values_of(b_vals@) && cl == values_of(
                        c_vals@,
                    ),
                    yuv_off == yuv_offset_of(*settings),
                    offsets == face_offsets_of(settings.face_slicing),
                    ia < na,
                    ib < nb,
                    ic <= nc,
                    list.wf(),
                    (list.registry_vertices(), list.faces_view()) == face_fold_c(
                        face_fold_b(
                            face_fold_a(init, *settings, al, bl, cl, ia as int),
                            *settings,
                            al,
                            bl,
                            cl,
                            ia as int,
                            ib as int,
                        ),
                        *settings,
                        al,
                        bl,
                        cl,
                        ia as int,
                        ib as int,
                        ic as int,
                    ),
                decreases nc - ic,
            {
                proof {
                    assert(offsets.1.0 <= 1 && offsets.1.1 <= 1 && offsets.1.2 <= 1);
                    assert(offsets.2.0 <= 1 && offsets.2.1 <= 1 && offsets.2.2 <= 1);
                    assert(offsets.3.0 <= 1 && offsets.3.1 <= 1 && offsets.3.2 <= 1);
                }
                let point_1 = base_vertex(settings, a_vals, b_vals, c_vals, yuv_off, ia, ib, ic);
                let point_2 = offset_corner(
                    settings,
                    a_vals,
                    b_vals,
                    c_vals,
                    yuv_off,
                    ia,
                    ib,
                    ic,
                    offsets.1,
                );
                let point_3 = offset_corner(
                    settings,
                    a_vals,
                    b_vals,
                    c_vals,
                    yuv_off,
                    ia,
                    ib,
                    ic,
                    offsets.2,
                );
                let point_4 = offset_corner(
                    settings,
                    a_vals,
                    b_vals,
                    c_vals,
                    yuv_off,
                    ia,
                    ib,
                    ic,
                    offsets.3,
                );
                list.add_quad(point_1, point_2, point_3, point_4);
                ic = ic + 1;
            }
            ib = ib + 1;
        }
        ia = ia + 1;
    }
    list
}

/// One boundary quad of the Volume mode: the four wrapped corners of the
/// given axis's offset table, registered and appended as a quad.
pub open spec fn volume_axis_quad(
    st: (Seq<VertexObject>, Seq<(usize, usize, usize, usize)>),
    s: VisualizationSettings,
    al: Seq<u32>,
    bl: Seq<u32>,
    cl: Seq<u32>,
    ia: int,
    ib: int,
    ic: int,
    axis: SlicingMethod,
) -> (Seq<VertexObject>, Seq<(usize, usize, usize, usize)>) {
    let t = face_offsets_of(axis);
    let v1 = offset_vertex(s, al, bl, cl, ia, ib, ic, t.0);
    let v2 = offset_vertex(s, al, bl, cl, ia, ib, ic, t.1);
    let v3 = offset_vertex(s, al, bl, cl, ia, ib, ic, t.2);
    let v4 = offset_vertex(s, al, bl, cl, ia, ib, ic, t.3);
    let reg = quad_registration(st.0, v1, v2, v3, v4);
    (reg.0, st.1.push(reg.1))
}

/// One Volume-mode grid step: a grid point on the low or high boundary of
/// an axis emits that axis's boundary quad; a corner point can emit up to
/// three, in the fixed A, B, C order.
pub open spec fn volume_fold_cell(
    st: (Seq<VertexObject>, Seq<(usize, usize, usize, usize)>),
    s: VisualizationSettings,
    al: Seq<u32>,
    bl: Seq<u32>,
    cl: Seq<u32>,
    ia: int,
    ib: int,
    ic: int,
) -> (Seq<VertexObject>, Seq<(usize, usize, usize, usize)>) {
    let st1 = if ia == 0 || ia == al.len() - 1 {
        volume_axis_quad(st, s, al, bl, cl, ia, ib, ic, SlicingMethod::X)
    } else {
        st
    };
    let st2 = if ib == 0 || ib == bl.len() - 1 {
        volume_axis_quad(st1, s, al, bl, cl, ia, ib, ic, SlicingMethod::Y)
    } else {
        st1
    };
    if ic == 0 || ic == cl.len() - 1 {
        volume_axis_quad(st2, s, al, bl, cl, ia, ib, ic, SlicingMethod::Z)
    } else {
        st2
    }
}

/// Volume mode folded over the first `n` C-axis cells of row `(ia, ib)`.
pub open spec fn volume_fold_c(
    st: (Seq<VertexObject>, Seq<(usize, usize, usize, usize)>),
    s: VisualizationSettings,
    al: Seq<u32>,
    bl: Seq<u32>,
    cl: Seq<u32>,
    ia: int,
    ib: int,
    n: int,
) -> (Seq<VertexObject>, Seq<(usize, usize, usize, usize)>)
    decreases n,
{
    if n <= 0 {
        st
    } else {
        volume_fold_cell(volume_fold_c(st, s, al, bl, cl, ia, ib, n - 1), s, al, bl, cl, ia, ib, n - 1)
    }
}

/// Volume mode folded over the first `n` B-axis rows of plane `ia`.
pub open spec fn volume_fold_b(
    st: (Seq<VertexObject>, Seq<(usize, usize, usize, usize)>),
    s: VisualizationSettings,
    al: Seq<u32>,
    bl: Seq<u32>,
    cl: Seq<u32>,
    ia: int,
    n: int,
) -> (Seq<VertexObject>, Seq<(usize, usize, usize, usize)>)
    decreases n,
{
    if n <= 0 {
        st
    } else {
        volume_fold_c(volume_fold_b(st, s, al, bl, cl, ia, n - 1), s, al, bl, cl, ia, n - 1, cl.len() as int)
    }
}

/// Volume mode folded over the first `n` A-axis planes.
pub open spec fn volume_fold_a(
    st: (Seq<VertexObject>, Seq<(usize, usize, usize, usize)>),
    s: VisualizationSettings,
    al: Seq<u32>,
    bl: Seq<u32>,
    cl: Seq<u32>,
    n: int,
) -> (Seq<VertexObject>, Seq<(usize, usize, usize, usize)>)
    decreases n,
{
    if n <= 0 {
        st
    } else {
        volume_fold_b(volume_fold_a(st, s, al, bl, cl, n - 1), s, al, bl, cl, n - 1, bl.len() as int)
    }
}

/// Builds the Volume-dimensionality output: the closed boundary mesh of
/// the sampled volume, one quad per boundary incidence of each grid point.
pub fn build_volume_list(
    settings: &VisualizationSettings,
    a_vals: &Vec<ChannelIndex>,
    b_vals: &Vec<ChannelIndex>,
    c_vals: &Vec<ChannelIndex>,
) -> (r: FaceList)
    ensures
        r.wf(),
        (r.registry_vertices(), r.faces_view()) == volume_fold_a(
            (Seq::<VertexObject>::empty(), Seq::<(usize, usize, usize, usize)>::empty()),
            *settings,
            values_of(a_vals@),
            values_of(b_vals@),
            values_of(c_vals@),
            a_vals@.len() as int,
        ),
{
    let ghost al = values_of(a_vals@);
    let ghost bl = values_of(b_vals@);
    let ghost cl = values_of(c_vals@);
    let ghost init = (Seq::<VertexObject>::empty(), Seq::<(usize, usize, usize, usize)>::empty());
    let mut list = FaceList::new();
    let yuv_off: u32 = if settings.color_model.is_luma_chroma() {
        NEG_HALF_BITS
    } else {
        ZERO_BITS
    };
    let x_offsets = SlicingMethod::X.get_face_offsets();
    let y_offsets = SlicingMethod::Y.get_face_offsets();
    let z_offsets = SlicingMethod::Z.get_face_offsets();
    let na: usize = a_vals.len();
    let nb: usize = b_vals.len();
    let nc: usize = c_vals.len();
    let mut ia: usize = 0;
    while ia < na
        invariant
            na == al.len() && nb == bl.len() && nc == cl.len(),
            al == values_of(a_vals@) && bl == values_of(b_vals@) && cl == values_of(c_vals@),
            yuv_off == yuv_offset_of(*settings),
            x_offsets == face_offsets_of(SlicingMethod::X),
            y_offsets == face_offsets_of(SlicingMethod::Y),
            z_offsets == face_offsets_of(SlicingMethod::Z),
            ia <= na,
            list.wf(),
            (list.registry_vertices(), list.faces_view()) == volume_fold_a(
                init,
                *settings,
                al,
                bl,
                cl,
                ia as int,
            ),
        decreases na - ia,
    {
        let mut ib: usize = 0;
        while ib < nb
            invariant
                na == al.len() && nb == bl.len() && nc == cl.len(),
                al == values_of(a_vals@) && bl == values_of(b_vals@) && cl == values_of(c_vals@),
                yuv_off == yuv_offset_of(*settings),
                x_offsets == face_offsets_of(SlicingMethod::X),
                y_offsets == face_offsets_of(SlicingMethod::Y),
                z_offsets == face_offsets_of(SlicingMethod::Z),
                ia < na,
                ib <= nb,
                list.wf(),
                (list.registry_vertices(), list.faces_view()) == volume_fold_b(
                    volume_fold_a(init, *settings, al, bl, cl, ia as int),
                    *settings,
                    al,
                    bl,
                    cl,
                    ia as int,
                    ib as int,
                ),
            decreases nb - ib,
        {
            let mut ic: usize = 0;
            while ic < nc
                invariant
                    na == al.len() && nb == bl.len() && nc == cl.len(),
                    al == values_of(a_vals@) && bl == values_of(b_vals@) && cl == values_of(
                        c_vals@,
                    ),
                    yuv_off == yuv_offset_of(*settings),
                    x_offsets == face_offsets_of(SlicingMethod::X),
                    y_offsets == face_offsets_of(SlicingMethod::Y),
                    z_offsets == face_offsets_of(SlicingMethod::Z),
                    ia < na,
                    ib < nb,
                    ic <= nc,
                    list.wf(),
                    (list.registry_vertices(), list.faces_view()) == volume_fold_c(
                        volume_fold_b(
                            volume_fold_a(init, *settings, al, bl, cl, ia as int),
                            *settings,
                            al,
                            bl,
                            cl,
                            ia as int,
                            ib as int,
                        ),
                        *settings,
                        al,
                        bl,
                        cl,
                        ia as int,
                        ib as int,
                        ic as int,
                    ),
                decreases nc - ic,
            {
                let ghost st_cell = (list.registry_vertices(), list.faces_view());
                if ia == 0 || ia == na - 1 {
                    let point_1 = offset_corner(
                        settings, a_vals, b_vals, c_vals, yuv_off, ia, ib, ic, x_offsets.0,
                    );
                    let point_2 = offset_corner(
                        settings, a_vals, b_vals, c_vals, yuv_off, ia, ib, ic, x_offsets.1,
                    );
                    let point_3 = offset_corner(
                        settings, a_vals, b_vals, c_vals, yuv_off, ia, ib, ic, x_offsets.2,
                    );
                    let point_4 = offset_corner(
                        settings, a_vals, b_vals, c_vals, yuv_off, ia, ib, ic, x_offsets.3,
                    );
                    list.add_quad(point_1, point_2, point_3, point_4);
                }
                proof {
                    assert((list.registry_vertices(), list.faces_view()) == (
                    if ia as int == 0 || ia as int == al.len() - 1 {
                        volume_axis_quad(
                            st_cell,
                            *settings,
                            al,
                            bl,
                            cl,
                            ia as int,
                            ib as int,
                            ic as int,
                            SlicingMethod::X,
                        )
                    } else {
                        st_cell
                    }));
                }
                let ghost st1 = (list.registry_vertices(), list.faces_view());
                if ib == 0 || ib == nb - 1 {
                    let point_1 = offset_corner(
                        settings, a_vals, b_vals, c_vals, yuv_off, ia, ib, ic, y_offsets.0,
                    );
                    let point_2 = offset_corner(
                        settings, a_vals, b_vals, c_vals, yuv_off, ia, ib, ic, y_offsets.1,
                    );
                    let point_3 = offset_corner(
                        settings, a_vals, b_vals, c_vals, yuv_off, ia, ib, ic, y_offsets.2,
                    );
                    let point_4 = offset_corner(
                        settings, a_vals, b_vals, c_vals, yuv_off, ia, ib, ic, y_offsets.3,
                    );
                    list.add_quad(point_1, point_2, point_3, point_4);
                }
                proof {
                    assert((list.registry_vertices(), list.faces_view()) == (
                    if ib as int == 0 || ib as int == bl.len() - 1 {
                        volume_axis_quad(
                            st1,
                            *settings,
                            al,
                            bl,
                            cl,
                            ia as int,
                            ib as int,
                            ic as int,
                            SlicingMethod::Y,
                        )
                    } else {
                        st1
                    }));
                }
                let ghost st2 = (list.registry_vertices(), list.faces_view());
                if ic == 0 || ic == nc - 1 {
                    let point_1 = offset_corner(
                        settings, a_vals, b_vals, c_vals, yuv_off, ia, ib, ic, z_offsets.0,
                    );
                    let point_2 = offset_corner(
                        settings, a_vals, b_vals, c_vals, yuv_off, ia, ib, ic, z_offsets.1,
                    );
                    let point_3 = offset_corner(
                        settings, a_vals, b_vals, c_vals, yuv_off, ia, ib, ic, z_offsets.2,
                    );
                    let point_4 = offset_corner(
                        settings, a_vals, b_vals, c_vals, yuv_off, ia, ib, ic, z_offsets.3,
                    );
                    list.add_quad(point_1, point_2, point_3, point_4);
                }
                proof {
                    assert((list.registry_vertices(), list.faces_view()) == (
                    if ic as int == 0 || ic as int == cl.len() - 1 {
                        volume_axis_quad(
                            st2,
                            *settings,
                            al,
                            bl,
                            cl,
                            ia as int,
                            ib as int,
                            ic as int,
                            SlicingMethod::Z,
                        )
                    } else {
                        st2
                    }));
                    assert((list.registry_vertices(), list.faces_view()) == volume_fold_cell(
                        st_cell,
                        *settings,
                        al,
                        bl,
                        cl,
                        ia as int,
                        ib as int,
                        ic as int,
                    ));
                }
                ic = ic + 1;
            }
            ib = ib + 1;
        }
        ia = ia + 1;
    }
    list
}

/// One fully built topology, tagged with its dimensionality.
pub enum DimensionList {
    Vertex(VertexList),
    Edge(EdgeList),
    Face(FaceList),
    Volume(FaceList),
}

/// The three sampled value sequences of a rebuild: each channel generated
/// with the closing boundary sample for every dimensionality but Vertex.
pub open spec fn channel_lists(s: VisualizationSettings) -> (Seq<u32>, Seq<u32>, Seq<u32>) {
    let nv = s.dimensionality != Dimensionality::Vertex;
    (
        generate_model(s.channel_settings.0, nv),
        generate_model(s.channel_settings.1, nv),
        generate_model(s.channel_settings.2, nv),
    )
}

/// The registry contents of a Vertex-dimensionality rebuild.
pub open spec fn vertex_build_model(s: VisualizationSettings) -> Seq<VertexObject> {
    let ls = channel_lists(s);
    vertex_fold_a(Seq::<VertexObject>::empty(), s, ls.0, ls.1, ls.2, ls.0.len() as int)
}

/// The registry contents and edge list of an Edge-dimensionality rebuild.
pub open spec fn edge_build_model(s: VisualizationSettings) -> (
    Seq<VertexObject>,
    Seq<(usize, usize)>,
) {
    let ls = channel_lists(s);
    edge_fold_a(
        (Seq::<VertexObject>::empty(), Seq::<(usize, usize)>::empty()),
        s,
        ls.0,
        ls.1,
        ls.2,
        ls.0.len() as int,
    )
}

/// The registry contents and quad list of a Face-dimensionality rebuild.
pub open spec fn face_build_model(s: VisualizationSettings) -> (
    Seq<VertexObject>,
    Seq<(usize, usize, usize, usize)>,
) {
    let ls = channel_lists(s);
    face_fold_a(
        (Seq::<VertexObject>::empty(), Seq::<(usize, usize, usize, usize)>::empty()),
        s,
        ls.0,
        ls.1,
        ls.2,
        ls.0.len() as int,
    )
}

/// The registry contents and quad list of a Volume-dimensionality rebuild.
pub open spec fn volume_build_model(s: VisualizationSettings) -> (
    Seq<VertexObject>,
    Seq<(usize, usize, usize, usize)>,
) {
    let ls = channel_lists(s);
    volume_fold_a(
        (Seq::<VertexObject>::empty(), Seq::<(usize, usize, usize, usize)>::empty()),
        s,
        ls.0,
        ls.1,
        ls.2,
        ls.0.len() as int,
    )
}

/// One full rebuild: samples the three channels and walks their Cartesian
/// product, dispatching once on the requested dimensionality.  The variant
/// of the result matches the requested dimensionality, and its contents are
/// exactly the corresponding build model of the settings — a pure function
/// of the settings, so rebuilding from equal settings yields identical
/// output.
pub fn generate_dimension_lists(settings: &VisualizationSettings) -> (r: DimensionList)
    requires
        settings.channel_settings.0.steps >= 1,
        settings.channel_settings.1.steps >= 1,
        settings.channel_settings.2.steps >= 1,
        settings.channel_settings.0.steps + 2 <= usize::MAX,
        settings.channel_settings.1.steps + 2 <= usize::MAX,
        settings.channel_settings.2.steps + 2 <= usize::MAX,
    ensures
        match r {
            DimensionList::Vertex(vl) => settings.dimensionality == Dimensionality::Vertex
                && vl.registry_wf() && vl.registry_vertices() == vertex_build_model(*settings),
            DimensionList::Edge(el) => settings.dimensionality == Dimensionality::Edge
                && el.wf() && (el.registry_vertices(), el.edges_view()) == edge_build_model(
                *settings,
            ),
            DimensionList::Face(fl) => settings.dimensionality == Dimensionality::Face
                && fl.wf() && (fl.registry_vertices(), fl.faces_view()) == face_build_model(
                *settings,
            ),
            DimensionList::Volume(fl) => settings.dimensionality == Dimensionality::Volume
                && fl.wf() && (fl.registry_vertices(), fl.faces_view()) == volume_build_model(
                *settings,
            ),
        },
{
    let not_vertex = settings.dimensionality != Dimensionality::Vertex;
    let a_vals = settings.channel_settings.0.generate(not_vertex);
    let b_vals = settings.channel_settings.1.generate(not_vertex);
    let c_vals = settings.channel_settings.2.generate(not_vertex);
    match settings.dimensionality {
        Dimensionality::Vertex => DimensionList::Vertex(
            build_vertex_list(settings, &a_vals, &b_vals, &c_vals),
        ),
        Dimensionality::Edge => DimensionList::Edge(
            build_edge_list(settings, &a_vals, &b_vals, &c_vals),
        ),
        Dimensionality::Face => DimensionList::Face(
            build_face_list(settings, &a_vals, &b_vals, &c_vals),
        ),
        Dimensionality::Volume => DimensionList::Volume(
            build_volume_list(settings, &a_vals, &b_vals, &c_vals),
        ),
    }
}

/// Whether grid index `i` lies on the boundary of an axis with `n`
/// samples: the single sample of a one-sample axis counts once.
pub open spec fn boundary_hit(i: int, n: int) -> int {
    if i == 0 || i == n - 1 {
        1
    } else {
        0
    }
}

/// The number of indices in `[0, n)` on the boundary of an axis with `len`
/// samples, for `n <= len`.
pub open spec fn boundary_hits_below(n: int, len: int) -> int {
    (if n >= 1 {
        1int
    } else {
        0int
    }) + (if n == len && len > 1 {
        1int
    } else {
        0int
    })
}

/// The number of boundary samples of a whole axis: two ends, or one when
/// the axis has a single sample.
pub open spec fn boundary_faces(len: int) -> int {
    if len > 1 {
        2
    } else if len == 1 {
        1
    } else {
        0
    }
}

proof fn lemma_volume_c_count(
    st: (Seq<VertexObject>, Seq<(usize, usize, usize, usize)>),
    s: VisualizationSettings,
    al: Seq<u32>,
    bl: Seq<u32>,
    cl: Seq<u32>,
    ia: int,
    ib: int,
    n: int,
)
    requires
        0 <= n <= cl.len(),
    ensures
        volume_fold_c(st, s, al, bl, cl, ia, ib, n).1.len() == st.1.len() + n * (boundary_hit(
            ia,
            al.len() as int,
        ) + boundary_hit(ib, bl.len() as int)) + boundary_hits_below(n, cl.len() as int),
    decreases n,
{
    let ha = boundary_hit(ia, al.len() as int);
    let hb = boundary_hit(ib, bl.len() as int);
    if n > 0 {
        lemma_volume_c_count(st, s, al, bl, cl, ia, ib, n - 1);
        assert(boundary_hits_below(n - 1, cl.len() as int) + boundary_hit(n - 1, cl.len() as int)
            == boundary_hits_below(n, cl.len() as int));
        assert((n - 1) * (ha + hb) + (ha + hb) == n * (ha + hb)) by (nonlinear_arith);
    } else {
        assert(n * (ha + hb) == 0) by (nonlinear_arith)
            requires
                n == 0,
        ;
    }
}

#[verifier::rlimit(30)]
proof fn lemma_volume_b_count(
    st: (Seq<VertexObject>, Seq<(usize, usize, usize, usize)>),
    s: VisualizationSettings,
    al: Seq<u32>,
    bl: Seq<u32>,
    cl: Seq<u32>,
    ia: int,
    n: int,
)
    requires
        0 <= n <= bl.len(),
    ensures
        volume_fold_b(st, s, al, bl, cl, ia, n).1.len() == st.1.len() + n * (cl.len() as int)
            * boundary_hit(ia, al.len() as int) + (cl.len() as int) * boundary_hits_below(
            n,
            bl.len() as int,
        ) + n * boundary_faces(cl.len() as int),
    decreases n,
{
    let ha = boundary_hit(ia, al.len() as int);
    let nc = cl.len() as int;
    let fc = boundary_faces(nc);
    if n > 0 {
        lemma_volume_b_count(st, s, al, bl, cl, ia, n - 1);
        lemma_volume_c_count(
            volume_fold_b(st, s, al, bl, cl, ia, n - 1),
            s,
            al,
            bl,
            cl,
            ia,
            n - 1,
            nc,
        );
        let hb = boundary_hit(n - 1, bl.len() as int);
        let u = boundary_hits_below(n - 1, bl.len() as int);
        let w = boundary_hits_below(n, bl.len() as int);
        assert(boundary_hits_below(nc, nc) == fc);
        assert(u + hb == w);
        assert((n - 1) * nc * ha + nc * u + (n - 1) * fc + nc * (ha + hb) + fc == n * nc * ha + nc
            * w + n * fc) by (nonlinear_arith)
            requires
                w == u + hb,
        ;
    } else {
        let v = boundary_hits_below(n, bl.len() as int);
        assert(v == 0);
        assert(n * nc * ha == 0 && n * fc == 0 && nc * v == 0) by (nonlinear_arith)
            requires
                n == 0 && v == 0,
        ;
        assert(volume_fold_b(st, s, al, bl, cl, ia, n).1.len() == st.1.len() + n * nc * ha + nc
            * v + n * fc);
    }
}

#[verifier::rlimit(30)]
proof fn lemma_volume_a_count(
    st: (Seq<VertexObject>, Seq<(usize, usize, usize, usize)>),
    s: VisualizationSettings,
    al: Seq<u32>,
    bl: Seq<u32>,
    cl: Seq<u32>,
    n: int,
)
    requires
        0 <= n <= al.len(),
    ensures
        volume_fold_a(st, s, al, bl, cl, n).1.len() == st.1.len() + (bl.len() as int) * (
        cl.len() as int) * boundary_hits_below(n, al.len() as int) + n * (cl.len() as int)
            * boundary_faces(bl.len() as int) + n * (bl.len() as int) * boundary_faces(
            cl.len() as int,
        ),
    decreases n,
{
    let nb = bl.len() as int;
    let nc = cl.len() as int;
    let fb = boundary_faces(nb);
    let fc = boundary_faces(nc);
    if n > 0 {
        lemma_volume_a_count(st, s, al, bl, cl, n - 1);
        lemma_volume_b_count(volume_fold_a(st, s, al, bl, cl, n - 1), s, al, bl, cl, n - 1, nb);
        let ha = boundary_hit(n - 1, al.len() as int);
        let u = boundary_hits_below(n - 1, al.len() as int);
        let w = boundary_hits_below(n, al.len() as int);
        assert(boundary_hits_below(nb, nb) == fb);
        assert(u + ha == w);
        assert(nb * nc * u + (n - 1) * nc * fb + (n - 1) * nb * fc + nb * nc * ha + nc * fb + nb
            * fc == nb * nc * w + n * nc * fb + n * nb * fc) by (nonlinear_arith)
            requires
                w == u + ha,
        ;
    } else {
        let v = boundary_hits_below(n, al.len() as int);
        assert(v == 0);
        assert(nb * nc * v == 0 && n * nc * fb == 0 && n * nb * fc == 0) by (nonlinear_arith)
            requires
                n == 0 && v == 0,
        ;
    }
}

/// Volume closure: with channel sample counts `(Na, Nb, Nc)`, a Volume
/// rebuild emits exactly
/// `Nb*Nc*boundary_faces(Na) + Na*Nc*boundary_faces(Nb) +
/// Na*Nb*boundary_faces(Nc)` quads — each grid point contributes one quad
/// per axis boundary it touches, so corner points contribute three, edge
/// points two and face-centre points one.
pub proof fn lemma_volume_face_count(s: VisualizationSettings)
    ensures
        volume_build_model(s).1.len() == (channel_lists(s).1.len() as int) * (channel_lists(
            s,
        ).2.len() as int) * boundary_faces(channel_lists(s).0.len() as int) + (channel_lists(
            s,
        ).0.len() as int) * (channel_lists(s).2.len() as int) * boundary_faces(
            channel_lists(s).1.len() as int,
        ) + (channel_lists(s).0.len() as int) * (channel_lists(s).1.len() as int)
            * boundary_faces(channel_lists(s).2.len() as int),
{
    let ls = channel_lists(s);
    let na = ls.0.len() as int;
    let nb = ls.1.len() as int;
    let nc = ls.2.len() as int;
    let init = (Seq::<VertexObject>::empty(), Seq::<(usize, usize, usize, usize)>::empty());
    lemma_volume_a_count(init, s, ls.0, ls.1, ls.2, na);
    assert(boundary_hits_below(na, na) == boundary_faces(na));
}

/// Whether the derivation maps distinct grid triples to distinct vertices:
/// no two grid coordinates of the sampled sequences collide in their
/// derived (position, colour) value.
pub open spec fn grid_injective(
    s: VisualizationSettings,
    al: Seq<u32>,
    bl: Seq<u32>,
    cl: Seq<u32>,
) -> bool {
    forall|ia: int, ib: int, ic: int, ja: int, jb: int, jc: int|
        0 <= ia < al.len() && 0 <= ib < bl.len() && 0 <= ic < cl.len() && 0 <= ja < al.len()
            && 0 <= jb < bl.len() && 0 <= jc < cl.len() && !(ia == ja && ib == jb && ic == jc)
            ==> #[trigger] grid_vertex(s, al, bl, cl, ia, ib, ic) != #[trigger] grid_vertex(
            s,
            al,
            bl,
            cl,
            ja,
            jb,
            jc,
        )
}

proof fn lemma_vertex_fold_c_bound(
    acc: Seq<VertexObject>,
    s: VisualizationSettings,
    al: Seq<u32>,
    bl: Seq<u32>,
    cl: Seq<u32>,
    ia: int,
    ib: int,
    n: int,
)
    requires
        0 <= n,
    ensures
        acc.len() <= vertex_fold_c(acc, s, al, bl, cl, ia, ib, n).len() <= acc.len() + n,
    decreases n,
{
    if n > 0 {
        lemma_vertex_fold_c_bound(acc, s, al, bl, cl, ia, ib, n - 1);
    }
}

proof fn lemma_vertex_fold_b_bound(
    acc: Seq<VertexObject>,
    s: VisualizationSettings,
    al: Seq<u32>,
    bl: Seq<u32>,
    cl: Seq<u32>,
    ia: int,
    n: int,
)
    requires
        0 <= n,
    ensures
        acc.len() <= vertex_fold_b(acc, s, al, bl, cl, ia, n).len() <= acc.len() + n * (
        cl.len() as int),
    decreases n,
{
    let nc = cl.len() as int;
    if n > 0 {
        lemma_vertex_fold_b_bound(acc, s, al, bl, cl, ia, n - 1);
        lemma_vertex_fold_c_bound(vertex_fold_b(acc, s, al, bl, cl, ia, n - 1), s, al, bl, cl, ia, n - 1, nc);
        assert((n - 1) * nc + nc == n * nc) by (nonlinear_arith);
    } else {
        assert(n * nc == 0) by (nonlinear_arith)
            requires
                n == 0,
        ;
    }
}

proof fn lemma_vertex_fold_a_bound(
    acc: Seq<VertexObject>,
    s: VisualizationSettings,
    al: Seq<u32>,
    bl: Seq<u32>,
    cl: Seq<u32>,
    n: int,
)
    requires
        0 <= n,
    ensures
        acc.len() <= vertex_fold_a(acc, s, al, bl, cl, n).len() <= acc.len() + n * ((
        bl.len() as int) * (cl.len() as int)),
    decreases n,
{
    let nb = bl.len() as int;
    let nc = cl.len() as int;
    if n > 0 {
        lemma_vertex_fold_a_bound(acc, s, al, bl, cl, n - 1);
        lemma_vertex_fold_b_bound(vertex_fold_a(acc, s, al, bl, cl, n - 1), s, al, bl, cl, n - 1, nb);
        assert((n - 1) * (nb * nc) + nb * nc == n * (nb * nc)) by (nonlinear_arith);
    } else {
        assert(n * (nb * nc) == 0) by (nonlinear_arith)
            requires
                n == 0,
        ;
    }
}

/// A Vertex build requests one derivation per grid triple, so the registry
/// never holds more entries than the grid has points.
pub proof fn lemma_vertex_build_bound(s: VisualizationSettings)
    ensures
        vertex_build_model(s).len() <= (channel_lists(s).0.len() as int) * ((channel_lists(
            s,
        ).1.len() as int) * (channel_lists(s).2.len() as int)),
{
    let ls = channel_lists(s);
    lemma_vertex_fold_a_bound(Seq::<VertexObject>::empty(), s, ls.0, ls.1, ls.2, ls.0.len() as int);
}

proof fn lemma_vertex_fold_c_count(
    acc: Seq<VertexObject>,
    s: VisualizationSettings,
    al: Seq<u32>,
    bl: Seq<u32>,
    cl: Seq<u32>,
    ia: int,
    ib: int,
    n: int,
)
    requires
        0 <= n,
        forall|ic: int|
            0 <= ic < n ==> !acc.contains(#[trigger] grid_vertex(s, al, bl, cl, ia, ib, ic)),
        forall|ic: int, jc: int|
            0 <= ic < jc < n ==> #[trigger] grid_vertex(s, al, bl, cl, ia, ib, ic)
                != #[trigger] grid_vertex(s, al, bl, cl, ia, ib, jc),
    ensures
        vertex_fold_c(acc, s, al, bl, cl, ia, ib, n).len() == acc.len() + n,
        forall|x: VertexObject|
            #[trigger] vertex_fold_c(acc, s, al, bl, cl, ia, ib, n).contains(x) <==> (
            acc.contains(x) || exists|ic: int|
                0 <= ic < n && x == #[trigger] grid_vertex(s, al, bl, cl, ia, ib, ic)),
    decreases n,
{
    if n > 0 {
        lemma_vertex_fold_c_count(acc, s, al, bl, cl, ia, ib, n - 1);
        let prev = vertex_fold_c(acc, s, al, bl, cl, ia, ib, n - 1);
        let g = grid_vertex(s, al, bl, cl, ia, ib, n - 1);
        if prev.contains(g) {
            if !acc.contains(g) {
                let w = choose|ic: int|
                    0 <= ic < n - 1 && g == #[trigger] grid_vertex(s, al, bl, cl, ia, ib, ic);
                assert(grid_vertex(s, al, bl, cl, ia, ib, w) != grid_vertex(
                    s,
                    al,
                    bl,
                    cl,
                    ia,
                    ib,
                    n - 1,
                ));
            }
            assert(false);
        }
        assert(vertex_fold_c(acc, s, al, bl, cl, ia, ib, n).len() == acc.len() + n);
        assert forall|x: VertexObject|
            #[trigger] vertex_fold_c(acc, s, al, bl, cl, ia, ib, n).contains(x) <==> (
            acc.contains(x) || exists|ic: int|
                0 <= ic < n && x == #[trigger] grid_vertex(s, al, bl, cl, ia, ib, ic)) by {
            lemma_register_contains(prev, g, x);
            if vertex_fold_c(acc, s, al, bl, cl, ia, ib, n).contains(x) {
                if prev.contains(x) {
                    if !acc.contains(x) {
                        let w = choose|ic: int|
                            0 <= ic < n - 1 && x == #[trigger] grid_vertex(s, al, bl, cl, ia, ib, ic);
                        assert(0 <= w < n && x == grid_vertex(s, al, bl, cl, ia, ib, w));
                    }
                } else {
                    assert(x == g);
                    assert(0 <= n - 1 < n && x == grid_vertex(s, al, bl, cl, ia, ib, n - 1));
                }
            }
            if acc.contains(x) {
                assert(prev.contains(x));
            }
            if exists|ic: int| 0 <= ic < n && x == #[trigger] grid_vertex(s, al, bl, cl, ia, ib, ic) {
                let w = choose|ic: int| 0 <= ic < n && x == #[trigger] grid_vertex(s, al, bl, cl, ia, ib, ic);
                if w < n - 1 {
                    assert(0 <= w < n - 1 && x == grid_vertex(s, al, bl, cl, ia, ib, w));
                    assert(prev.contains(x));
                } else {
                    assert(x == g);
                }
            }
        }
    }
}

proof fn lemma_vertex_fold_b_count(
    acc: Seq<VertexObject>,
    s: VisualizationSettings,
    al: Seq<u32>,
    bl: Seq<u32>,
    cl: Seq<u32>,
    ia: int,
    n: int,
)
    requires
        0 <= n,
        forall|ib: int, ic: int|
            0 <= ib < n && 0 <= ic < cl.len() ==> !acc.contains(
                #[trigger] grid_vertex(s, al, bl, cl, ia, ib, ic),
            ),
        forall|ib: int, ic: int, jb: int, jc: int|
            0 <= ib < n && 0 <= ic < cl.len() && 0 <= jb < n && 0 <= jc < cl.len() && !(ib == jb
                && ic == jc) ==> #[trigger] grid_vertex(s, al, bl, cl, ia, ib, ic)
                != #[trigger] grid_vertex(s, al, bl, cl, ia, jb, jc),
    ensures
        vertex_fold_b(acc, s, al, bl, cl, ia, n).len() == acc.len() + n * (cl.len() as int),
        forall|x: VertexObject|
            #[trigger] vertex_fold_b(acc, s, al, bl, cl, ia, n).contains(x) <==> (acc.contains(x)
                || exists|ib: int, ic: int|
                0 <= ib < n && 0 <= ic < cl.len() && x == #[trigger] grid_vertex(
                    s,
                    al,
                    bl,
                    cl,
                    ia,
                    ib,
                    ic,
                )),
    decreases n,
{
    let nc = cl.len() as int;
    if n > 0 {
        lemma_vertex_fold_b_count(acc, s, al, bl, cl, ia, n - 1);
        let prev = vertex_fold_b(acc, s, al, bl, cl, ia, n - 1);
        assert forall|ic: int|
            0 <= ic < nc implies !prev.contains(
            #[trigger] grid_vertex(s, al, bl, cl, ia, n - 1, ic)) by {
            let g = grid_vertex(s, al, bl, cl, ia, n - 1, ic);
            if prev.contains(g) {
                if !acc.contains(g) {
                    let (w1, w2) = choose|ib2: int, ic2: int|
                        0 <= ib2 < n - 1 && 0 <= ic2 < nc && g == #[trigger] grid_vertex(
                            s,
                            al,
                            bl,
                            cl,
                            ia,
                            ib2,
                            ic2,
                        );
                    assert(grid_vertex(s, al, bl, cl, ia, w1, w2) != grid_vertex(
                        s,
                        al,
                        bl,
                        cl,
                        ia,
                        n - 1,
                        ic,
                    ));
                }
                assert(false);
            }
        }
        lemma_vertex_fold_c_count(prev, s, al, bl, cl, ia, n - 1, nc);
        assert((n - 1) * nc + nc == n * nc) by (nonlinear_arith);
        assert forall|x: VertexObject|
            #[trigger] vertex_fold_b(acc, s, al, bl, cl, ia, n).contains(x) <==> (acc.contains(x)
                || exists|ib: int, ic: int|
                0 <= ib < n && 0 <= ic < nc && x == #[trigger] grid_vertex(
                    s,
                    al,
                    bl,
                    cl,
                    ia,
                    ib,
                    ic,
                )) by {
            if vertex_fold_b(acc, s, al, bl, cl, ia, n).contains(x) {
                assert(vertex_fold_c(prev, s, al, bl, cl, ia, n - 1, nc).contains(x));
                if prev.contains(x) {
                    if !acc.contains(x) {
                        let (w1, w2) = choose|ib2: int, ic2: int|
                            0 <= ib2 < n - 1 && 0 <= ic2 < nc && x == #[trigger] grid_vertex(
                                s,
                                al,
                                bl,
                                cl,
                                ia,
                                ib2,
                                ic2,
                            );
                        assert(0 <= w1 < n && 0 <= w2 < nc && x == grid_vertex(
                            s,
                            al,
                            bl,
                            cl,
                            ia,
                            w1,
                            w2,
                        ));
                    }
                } else {
                    let w = choose|ic: int|
                        0 <= ic < nc && x == #[trigger] grid_vertex(s, al, bl, cl, ia, n - 1, ic);
                    assert(0 <= n - 1 < n && 0 <= w < nc && x == grid_vertex(
                        s,
                        al,
                        bl,
                        cl,
                        ia,
                        n - 1,
                        w,
                    ));
                }
            }
            if acc.contains(x) {
                assert(prev.contains(x));
                assert(vertex_fold_c(prev, s, al, bl, cl, ia, n - 1, nc).contains(x));
            }
            if exists|ib: int, ic: int|
                0 <= ib < n && 0 <= ic < nc && x == #[trigger] grid_vertex(s, al, bl, cl, ia, ib, ic) {
                let (w1, w2) = choose|ib2: int, ic2: int|
                    0 <= ib2 < n && 0 <= ic2 < nc && x == #[trigger] grid_vertex(s, al, bl, cl, ia, ib2, ic2);
                if w1 < n - 1 {
                    assert(0 <= w1 < n - 1 && 0 <= w2 < nc && x == grid_vertex(
                        s,
                        al,
                        bl,
                        cl,
                        ia,
                        w1,
                        w2,
                    ));
                    assert(prev.contains(x));
                    assert(vertex_fold_c(prev, s, al, bl, cl, ia, n - 1, nc).contains(x));
                } else {
                    assert(0 <= w2 < nc && x == grid_vertex(s, al, bl, cl, ia, n - 1, w2));
                    assert(vertex_fold_c(prev, s, al, bl, cl, ia, n - 1, nc).contains(x));
                }
            }
        }
    } else {
        assert(n * nc == 0) by (nonlinear_arith)
            requires
                n == 0,
        ;
    }
}

proof fn lemma_vertex_fold_a_count(
    acc: Seq<VertexObject>,
    s: VisualizationSettings,
    al: Seq<u32>,
    bl: Seq<u32>,
    cl: Seq<u32>,
    n: int,
)
    requires
        0 <= n,
        forall|ia: int, ib: int, ic: int|
            0 <= ia < n && 0 <= ib < bl.len() && 0 <= ic < cl.len() ==> !acc.contains(
                #[trigger] grid_vertex(s, al, bl, cl, ia, ib, ic),
            ),
        forall|ia: int, ib: int, ic: int, ja: int, jb: int, jc: int|
            0 <= ia < n && 0 <= ib < bl.len() && 0 <= ic < cl.len() && 0 <= ja < n && 0 <= jb
                < bl.len() && 0 <= jc < cl.len() && !(ia == ja && ib == jb && ic == jc)
                ==> #[trigger] grid_vertex(s, al, bl, cl, ia, ib, ic) != #[trigger] grid_vertex(
                s,
                al,
                bl,
                cl,
                ja,
                jb,
                jc,
            ),
    ensures
        vertex_fold_a(acc, s, al, bl, cl, n).len() == acc.len() + n * ((bl.len() as int) * (
        cl.len() as int)),
        forall|x: VertexObject|
            #[trigger] vertex_fold_a(acc, s, al, bl, cl, n).contains(x) <==> (acc.contains(x)
                || exists|ia: int, ib: int, ic: int|
                0 <= ia < n && 0 <= ib < bl.len() && 0 <= ic < cl.len() && x
                    == #[trigger] grid_vertex(s, al, bl, cl, ia, ib, ic)),
    decreases n,
{
    let nb = bl.len() as int;
    let nc = cl.len() as int;
    if n > 0 {
        lemma_vertex_fold_a_count(acc, s, al, bl, cl, n - 1);
        let prev = vertex_fold_a(acc, s, al, bl, cl, n - 1);
        assert forall|ib: int, ic: int|
            0 <= ib < nb && 0 <= ic < nc implies !prev.contains(
            #[trigger] grid_vertex(s, al, bl, cl, n - 1, ib, ic)) by {
            let g = grid_vertex(s, al, bl, cl, n - 1, ib, ic);
            if prev.contains(g) {
                if !acc.contains(g) {
                    let (w1, w2, w3) = choose|ia2: int, ib2: int, ic2: int|
                        0 <= ia2 < n - 1 && 0 <= ib2 < nb && 0 <= ic2 < nc && g == #[trigger] grid_vertex(
                            s,
                            al,
                            bl,
                            cl,
                            ia2,
                            ib2,
                            ic2,
                        );
                    assert(grid_vertex(s, al, bl, cl, w1, w2, w3) != grid_vertex(
                        s,
                        al,
                        bl,
                        cl,
                        n - 1,
                        ib,
                        ic,
                    ));
                }
                assert(false);
            }
        }
        lemma_vertex_fold_b_count(prev, s, al, bl, cl, n - 1, nb);
        assert((n - 1) * (nb * nc) + nb * nc == n * (nb * nc)) by (nonlinear_arith);
        assert forall|x: VertexObject|
            #[trigger] vertex_fold_a(acc, s, al, bl, cl, n).contains(x) <==> (acc.contains(x)
                || exists|ia: int, ib: int, ic: int|
                0 <= ia < n && 0 <= ib < nb && 0 <= ic < nc && x == #[trigger] grid_vertex(
                    s,
                    al,
                    bl,
                    cl,
                    ia,
                    ib,
                    ic,
                )) by {
            if vertex_fold_a(acc, s, al, bl, cl, n).contains(x) {
                assert(vertex_fold_b(prev, s, al, bl, cl, n - 1, nb).contains(x));
                if prev.contains(x) {
                    if !acc.contains(x) {
                        let (w1, w2, w3) = choose|ia2: int, ib2: int, ic2: int|
                            0 <= ia2 < n - 1 && 0 <= ib2 < nb && 0 <= ic2 < nc && x == #[trigger] grid_vertex(
                                s,
                                al,
                                bl,
                                cl,
                                ia2,
                                ib2,
                                ic2,
                            );
                        assert(0 <= w1 < n && 0 <= w2 < nb && 0 <= w3 < nc && x == grid_vertex(
                            s,
                            al,
                            bl,
                            cl,
                            w1,
                            w2,
                            w3,
                        ));
                    }
                } else {
                    let (w1, w2) = choose|ib2: int, ic2: int|
                        0 <= ib2 < nb && 0 <= ic2 < nc && x == #[trigger] grid_vertex(
                            s,
                            al,
                            bl,
                            cl,
                            n - 1,
                            ib2,
                            ic2,
                        );
                    assert(0 <= n - 1 < n && 0 <= w1 < nb && 0 <= w2 < nc && x == grid_vertex(
                        s,
                        al,
                        bl,
                        cl,
                        n - 1,
                        w1,
                        w2,
                    ));
                }
            }
            if acc.contains(x) {
                assert(prev.contains(x));
                assert(vertex_fold_b(prev, s, al, bl, cl, n - 1, nb).contains(x));
            }
            if exists|ia: int, ib: int, ic: int|
                0 <= ia < n && 0 <= ib < nb && 0 <= ic < nc && x == #[trigger] grid_vertex(
                    s,
                    al,
                    bl,
                    cl,
                    ia,
                    ib,
                    ic,
                ) {
                let (w1, w2, w3) = choose|ia2: int, ib2: int, ic2: int|
                    0 <= ia2 < n && 0 <= ib2 < nb && 0 <= ic2 < nc && x == #[trigger] grid_vertex(
                        s,
                        al,
                        bl,
                        cl,
                        ia2,
                        ib2,
                        ic2,
                    );
                if w1 < n - 1 {
                    assert(0 <= w1 < n - 1 && 0 <= w2 < nb && 0 <= w3 < nc && x == grid_vertex(
                        s,
                        al,
                        bl,
                        cl,
                        w1,
                        w2,
                        w3,
                    ));
                    assert(prev.contains(x));
                    assert(vertex_fold_b(prev, s, al, bl, cl, n - 1, nb).contains(x));
                } else {
                    assert(0 <= w2 < nb && 0 <= w3 < nc && x == grid_vertex(
                        s,
                        al,
                        bl,
                        cl,
                        n - 1,
                        w2,
                        w3,
                    ));
                    assert(vertex_fold_b(prev, s, al, bl, cl, n - 1, nb).contains(x));
                }
            }
        }
    } else {
        assert(n * (nb * nc) == 0) by (nonlinear_arith)
            requires
                n == 0,
        ;
    }
}

/// Pairwise distinctness of a quad's four corner vertex values.
pub open spec fn quad_corners_distinct(
    q: (VertexObject, VertexObject, VertexObject, VertexObject),
) -> bool {
    q.0 != q.1 && q.0 != q.2 && q.0 != q.3 && q.1 != q.2 && q.1 != q.3 && q.2 != q.3
}

/// Whether every cell of the sampled grid has four pairwise distinct quad
/// corner vertices (no derivation collisions among a quad's corners).
pub open spec fn face_corners_distinct(
    s: VisualizationSettings,
    al: Seq<u32>,
    bl: Seq<u32>,
    cl: Seq<u32>,
) -> bool {
    forall|ia: int, ib: int, ic: int|
        0 <= ia < al.len() && 0 <= ib < bl.len() && 0 <= ic < cl.len()
            ==> quad_corners_distinct(#[trigger] face_cell_corners(s, al, bl, cl, ia, ib, ic))
}

/// Pairwise distinctness of a quad's four registry indices.
pub open spec fn quad_indices_distinct(q: (usize, usize, usize, usize)) -> bool {
    q.0 != q.1 && q.0 != q.2 && q.0 != q.3 && q.1 != q.2 && q.1 != q.3 && q.2 != q.3
}

/// Every quad of the state references four registered vertices.
pub open spec fn quads_valid(
    st: (Seq<VertexObject>, Seq<(usize, usize, usize, usize)>),
) -> bool {
    forall|q: int|
        0 <= q < st.1.len() ==> (#[trigger] st.1[q]).0 < st.0.len() && st.1[q].1 < st.0.len()
            && st.1[q].2 < st.0.len() && st.1[q].3 < st.0.len()
}

/// Every quad of the list has four pairwise distinct indices.
pub open spec fn quads_distinct(qs: Seq<(usize, usize, usize, usize)>) -> bool {
    forall|q: int| 0 <= q < qs.len() ==> quad_indices_distinct(#[trigger] qs[q])
}

proof fn lemma_face_cell_step(
    st: (Seq<VertexObject>, Seq<(usize, usize, usize, usize)>),
    s: VisualizationSettings,
    al: Seq<u32>,
    bl: Seq<u32>,
    cl: Seq<u32>,
    ia: int,
    ib: int,
    ic: int,
)
    requires
        st.0.len() + 4 <= usize::MAX,
        quads_valid(st),
        quads_distinct(st.1),
        quad_corners_distinct(face_cell_corners(s, al, bl, cl, ia, ib, ic)),
    ensures
        quads_valid(face_fold_cell(st, s, al, bl, cl, ia, ib, ic)),
        quads_distinct(face_fold_cell(st, s, al, bl, cl, ia, ib, ic).1),
        st.0.len() <= face_fold_cell(st, s, al, bl, cl, ia, ib, ic).0.len() <= st.0.len() + 4,
        face_fold_cell(st, s, al, bl, cl, ia, ib, ic).1.len() == st.1.len() + 1,
{
    let q = face_cell_corners(s, al, bl, cl, ia, ib, ic);
    let next = face_fold_cell(st, s, al, bl, cl, ia, ib, ic);
    lemma_quad_valid(st.0, q.0, q.1, q.2, q.3);
    lemma_register_props(st.0, q.0);
    lemma_register_props(register_result(st.0, q.0), q.1);
    lemma_register_props(register_result(register_result(st.0, q.0), q.1), q.2);
    lemma_register_props(
        register_result(register_result(register_result(st.0, q.0), q.1), q.2),
        q.3,
    );
    assert forall|j: int|
        0 <= j < next.1.len() implies (#[trigger] next.1[j]).0 < next.0.len() && next.1[j].1
        < next.0.len() && next.1[j].2 < next.0.len() && next.1[j].3 < next.0.len()
        && quad_indices_distinct(next.1[j]) by {
        if j < st.1.len() {
            assert(next.1[j] == st.1[j]);
            assert(st.1[j].0 < st.0.len() && st.1[j].1 < st.0.len() && st.1[j].2 < st.0.len()
                && st.1[j].3 < st.0.len());
            assert(quad_indices_distinct(st.1[j]));
        } else {
            assert(next.1[j] == quad_registration(st.0, q.0, q.1, q.2, q.3).1);
        }
    }
}

proof fn lemma_face_fold_c_valid(
    st: (Seq<VertexObject>, Seq<(usize, usize, usize, usize)>),
    s: VisualizationSettings,
    al: Seq<u32>,
    bl: Seq<u32>,
    cl: Seq<u32>,
    ia: int,
    ib: int,
    n: int,
)
    requires
        0 <= n <= cl.len(),
        0 <= ia < al.len(),
        0 <= ib < bl.len(),
        st.0.len() + 4 * n <= usize::MAX,
        quads_valid(st),
        quads_distinct(st.1),
        face_corners_distinct(s, al, bl, cl),
    ensures
        quads_valid(face_fold_c(st, s, al, bl, cl, ia, ib, n)),
        quads_distinct(face_fold_c(st, s, al, bl, cl, ia, ib, n).1),
        st.0.len() <= face_fold_c(st, s, al, bl, cl, ia, ib, n).0.len() <= st.0.len() + 4 * n,
        face_fold_c(st, s, al, bl, cl, ia, ib, n).1.len() == st.1.len() + n,
    decreases n,
{
    if n > 0 {
        lemma_face_fold_c_valid(st, s, al, bl, cl, ia, ib, n - 1);
        lemma_face_cell_step(
            face_fold_c(st, s, al, bl, cl, ia, ib, n - 1),
            s,
            al,
            bl,
            cl,
            ia,
            ib,
            n - 1,
        );
    }
}

proof fn lemma_face_fold_b_valid(
    st: (Seq<VertexObject>, Seq<(usize, usize, usize, usize)>),
    s: VisualizationSettings,
    al: Seq<u32>,
    bl: Seq<u32>,
    cl: Seq<u32>,
    ia: int,
    n: int,
)
    requires
        0 <= n <= bl.len(),
        0 <= ia < al.len(),
        st.0.len() + 4 * n * (cl.len() as int) <= usize::MAX,
        quads_valid(st),
        quads_distinct(st.1),
        face_corners_distinct(s, al, bl, cl),
    ensures
        quads_valid(face_fold_b(st, s, al, bl, cl, ia, n)),
        quads_distinct(face_fold_b(st, s, al, bl, cl, ia, n).1),
        st.0.len() <= face_fold_b(st, s, al, bl, cl, ia, n).0.len() <= st.0.len() + 4 * n * (
        cl.len() as int),
        face_fold_b(st, s, al, bl, cl, ia, n).1.len() == st.1.len() + n * (cl.len() as int),
    decreases n,
{
    let nc = cl.len() as int;
    if n > 0 {
        assert(4 * (n - 1) * nc + 4 * nc == 4 * n * nc) by (nonlinear_arith);
        assert((n - 1) * nc + nc == n * nc) by (nonlinear_arith);
        assert(0 <= 4 * (n - 1) * nc) by (nonlinear_arith)
            requires
                n >= 1 && nc >= 0,
        ;
        lemma_face_fold_b_valid(st, s, al, bl, cl, ia, n - 1);
        lemma_face_fold_c_valid(
            face_fold_b(st, s, al, bl, cl, ia, n - 1),
            s,
            al,
            bl,
            cl,
            ia,
            n - 1,
            nc,
        );
    } else {
        assert(4 * n * nc == 0 && n * nc == 0) by (nonlinear_arith)
            requires
                n == 0,
        ;
    }
}

proof fn lemma_face_fold_a_valid(
    st: (Seq<VertexObject>, Seq<(usize, usize, usize, usize)>),
    s: VisualizationSettings,
    al: Seq<u32>,
    bl: Seq<u32>,
    cl: Seq<u32>,
    n: int,
)
    requires
        0 <= n <= al.len(),
        st.0.len() + 4 * n * ((bl.len() as int) * (cl.len() as int)) <= usize::MAX,
        quads_valid(st),
        quads_distinct(st.1),
        face_corners_distinct(s, al, bl, cl),
    ensures
        quads_valid(face_fold_a(st, s, al, bl, cl, n)),
        quads_distinct(face_fold_a(st, s, al, bl, cl, n).1),
        st.0.len() <= face_fold_a(st, s, al, bl, cl, n).0.len() <= st.0.len() + 4 * n * ((
        bl.len() as int) * (cl.len() as int)),
        face_fold_a(st, s, al, bl, cl, n).1.len() == st.1.len() + n * ((bl.len() as int) * (
        cl.len() as int)),
    decreases n,
{
    let nb = bl.len() as int;
    let nc = cl.len() as int;
    if n > 0 {
        assert(4 * (n - 1) * (nb * nc) + 4 * nb * nc == 4 * n * (nb * nc)) by (nonlinear_arith);
        assert((n - 1) * (nb * nc) + nb * nc == n * (nb * nc)) by (nonlinear_arith);
        assert(0 <= 4 * (n - 1) * (nb * nc)) by (nonlinear_arith)
            requires
                n >= 1 && nb >= 0 && nc >= 0,
        ;
        lemma_face_fold_a_valid(st, s, al, bl, cl, n - 1);
        lemma_face_fold_b_valid(
            face_fold_a(st, s, al, bl, cl, n - 1),
            s,
            al,
            bl,
            cl,
            n - 1,
            nb,
        );
    } else {
        assert(4 * n * (nb * nc) == 0 && n * (nb * nc) == 0) by (nonlinear_arith)
            requires
                n == 0,
        ;
    }
}

/// Quad validity over a whole Face build: the build emits one quad per
/// grid cell, every quad references four registered vertices, and when
/// each cell's four corner vertex values are pairwise distinct, every
/// quad's four indices are pairwise distinct.  (Distinct corner values are
/// what two-or-more distinct samples on both varied axes are meant to
/// give; a collapsed channel can still collide two corners bit-for-bit,
/// and the registry then merges them.)
pub proof fn lemma_face_build_quads_valid(s: VisualizationSettings)
    requires
        face_corners_distinct(s, channel_lists(s).0, channel_lists(s).1, channel_lists(s).2),
        4 * (channel_lists(s).0.len() as int) * ((channel_lists(s).1.len() as int) * (
        channel_lists(s).2.len() as int)) <= usize::MAX,
    ensures
        quads_valid(face_build_model(s)),
        quads_distinct(face_build_model(s).1),
        face_build_model(s).1.len() == (channel_lists(s).0.len() as int) * ((channel_lists(
            s,
        ).1.len() as int) * (channel_lists(s).2.len() as int)),
{
    let ls = channel_lists(s);
    let na = ls.0.len() as int;
    let nb = ls.1.len() as int;
    let nc = ls.2.len() as int;
    let init = (Seq::<VertexObject>::empty(), Seq::<(usize, usize, usize, usize)>::empty());
    lemma_face_fold_a_valid(init, s, ls.0, ls.1, ls.2, na);
}

/// The full-grid count law: when the derivation maps distinct grid triples
/// to distinct vertices (no collisions), a Vertex build's registry holds
/// exactly one entry per grid point — with four Forward steps on every
/// axis, exactly sixty-four.
pub proof fn lemma_vertex_build_count(s: VisualizationSettings)
    requires
        grid_injective(s, channel_lists(s).0, channel_lists(s).1, channel_lists(s).2),
    ensures
        vertex_build_model(s).len() == (channel_lists(s).0.len() as int) * ((channel_lists(
            s,
        ).1.len() as int) * (channel_lists(s).2.len() as int)),
{
    let ls = channel_lists(s);
    lemma_vertex_fold_a_count(
        Seq::<VertexObject>::empty(),
        s,
        ls.0,
        ls.1,
        ls.2,
        ls.0.len() as int,
    );
}

} // verus!
