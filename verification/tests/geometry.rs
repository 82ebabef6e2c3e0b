use rendercore::error::RenderError;
use rendercore::geometry::GeometryBuffer;
use rendercore::shapes::{_triangle, plane, plane_indices, DEMO_COLOR_B_BITS, DEMO_COLOR_G_BITS, DEMO_COLOR_R_BITS};
use rendercore::vertex::{Vertex, HALF_BITS, NEG_HALF_BITS, NEG_ONE_BITS, ONE_BITS, ZERO_BITS};

fn quad_vertices() -> Vec<Vertex> {
    plane().to_vec()
}

fn quad_indices() -> Vec<u16> {
    plane_indices().to_vec()
}

#[test]
fn scalar_bit_constants_match_ieee() {
    assert_eq!(ZERO_BITS, 0.0f32.to_bits());
    assert_eq!(HALF_BITS, 0.5f32.to_bits());
    assert_eq!(NEG_HALF_BITS, (-0.5f32).to_bits());
    assert_eq!(ONE_BITS, 1.0f32.to_bits());
    assert_eq!(NEG_ONE_BITS, (-1.0f32).to_bits());
    assert_eq!(DEMO_COLOR_R_BITS, 0.4f32.to_bits());
    assert_eq!(DEMO_COLOR_G_BITS, 0.2f32.to_bits());
    assert_eq!(DEMO_COLOR_B_BITS, 0.5f32.to_bits());
}

#[test]
fn plane_is_the_unit_quad() {
    let vs = plane();
    assert_eq!(vs.len(), 4);
    let one = 1.0f32.to_bits();
    let neg = (-1.0f32).to_bits();
    let zero = 0.0f32.to_bits();
    assert_eq!(vs[0].position, [one, one, zero]);
    assert_eq!(vs[1].position, [neg, one, zero]);
    assert_eq!(vs[2].position, [neg, neg, zero]);
    assert_eq!(vs[3].position, [one, neg, zero]);
    for v in vs.iter() {
        assert_eq!(v.color, [0.4f32.to_bits(), 0.2f32.to_bits(), 0.5f32.to_bits()]);
    }
}

#[test]
fn plane_indices_form_two_triangles() {
    let ix = plane_indices();
    assert_eq!(ix, [0, 1, 2, 0, 2, 3]);
    assert!(ix.iter().all(|&i| i < 4));
}

#[test]
fn triangle_vertices_have_expected_positions() {
    let vs = _triangle();
    assert_eq!(vs.len(), 3);
    let h = 0.5f32.to_bits();
    let nh = (-0.5f32).to_bits();
    let z = 0.0f32.to_bits();
    assert_eq!(vs[0].position, [z, h, z]);
    assert_eq!(vs[1].position, [nh, nh, z]);
    assert_eq!(vs[2].position, [h, nh, z]);
}

#[test]
fn create_succeeds_on_valid_geometry_and_counts_indices() {
    let g = GeometryBuffer::create(quad_vertices(), quad_indices()).unwrap();
    assert_eq!(g.num_indices(), 6);
    assert_eq!(g.vertices.len(), 4);
    assert_eq!(g.indices.len(), 6);
}

#[test]
fn create_rejects_out_of_range_index() {
    let r = GeometryBuffer::create(quad_vertices(), vec![0, 1, 4]);
    assert_eq!(r.err(), Some(RenderError::InvalidGeometry));
}

#[test]
fn create_accepts_empty_index_list() {
    let g = GeometryBuffer::create(quad_vertices(), Vec::new()).unwrap();
    assert_eq!(g.num_indices(), 0);
}

#[test]
fn vertex_bytes_match_bytemuck_cast_of_floats() {
    let g = GeometryBuffer::create(quad_vertices(), quad_indices()).unwrap();
    let bytes = g.vertex_bytes();
    let floats: Vec<f32> = plane()
        .iter()
        .flat_map(|v| {
            v.position
                .iter()
                .chain(v.color.iter())
                .map(|&w| f32::from_bits(w))
                .collect::<Vec<f32>>()
        })
        .collect();
    let cast: &[u8] = bytemuck::cast_slice(&floats);
    assert_eq!(bytes.as_slice(), cast);
    assert_eq!(bytes.len(), 4 * 24);
}

#[test]
fn index_bytes_match_bytemuck_cast_of_shorts() {
    let g = GeometryBuffer::create(quad_vertices(), quad_indices()).unwrap();
    let bytes = g.index_bytes();
    let ix = plane_indices();
    let cast: &[u8] = bytemuck::cast_slice(&ix);
    assert_eq!(bytes.as_slice(), cast);
    assert_eq!(bytes.len(), 12);
}
