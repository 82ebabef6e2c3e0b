use cgmath::{Matrix4, SquareMatrix, Vector3};
use rendercore::binding::camera_binding_layout;
use rendercore::camera::CameraParams;
use rendercore::frame::{DrawCall, FrameAction, FrameRenderer, SurfaceStatus};
use rendercore::geometry::GeometryBuffer;
use rendercore::instance::InstanceBuffer;
use rendercore::material::identity_matrix;
use rendercore::pipeline::{
    instance_buffer_layout, vertex_buffer_layout, Pipeline, ShaderInterface,
};
use rendercore::shapes::{plane, plane_indices};
use rendercore::vertex::InstanceRecord;

fn record_of(m: Matrix4<f32>) -> InstanceRecord {
    let cols: [[f32; 4]; 4] = m.into();
    let mut words = [0u32; 16];
    for (c, col) in cols.iter().enumerate() {
        for (r, &x) in col.iter().enumerate() {
            words[4 * c + r] = x.to_bits();
        }
    }
    InstanceRecord { model: words }
}

fn quad_renderer() -> FrameRenderer {
    let geometry = GeometryBuffer::create(plane().to_vec(), plane_indices().to_vec()).unwrap();
    let instances = InstanceBuffer::create(vec![
        record_of(Matrix4::identity()),
        record_of(Matrix4::from_translation(Vector3::new(150.0, 0.0, 0.0))),
    ]);
    let shader = ShaderInterface {
        has_vertex_entry: true,
        has_fragment_entry: true,
        bindings: camera_binding_layout(),
    };
    let pipeline = Pipeline::build(
        &shader,
        vec![vertex_buffer_layout(), instance_buffer_layout()],
        camera_binding_layout(),
    )
    .unwrap();
    let camera = CameraParams::new(800.0f32.to_bits(), 600.0f32.to_bits(), (-1000.0f32).to_bits(), 1000.0f32.to_bits());
    FrameRenderer::create(camera, geometry, instances, pipeline)
}

#[test]
fn one_frame_draws_six_indices_and_two_instances() {
    let mut fr = quad_renderer();
    let vp = identity_matrix();
    let a = fr.frame_step(&vp, SurfaceStatus::Acquired);
    assert_eq!(
        a,
        FrameAction::Draw(DrawCall {
            first_index: 0,
            index_count: 6,
            first_instance: 0,
            instance_count: 2,
        })
    );
}

#[test]
fn acquired_frame_publishes_the_view_projection() {
    let mut fr = quad_renderer();
    let mut vp = identity_matrix();
    vp[12] = 3.0f32.to_bits();
    fr.frame_step(&vp, SurfaceStatus::Acquired);
    assert_eq!(fr.binding.block, vp);
    let floats: Vec<f32> = vp.iter().map(|&w| f32::from_bits(w)).collect();
    let cast: &[u8] = bytemuck::cast_slice(&floats);
    assert_eq!(fr.binding.gpu_bytes().as_slice(), cast);
    assert_eq!(fr.binding.gpu_bytes().len(), 64);
}

#[test]
fn lost_surface_reconfigures_once_and_changes_nothing() {
    let mut fr = quad_renderer();
    let camera_before = fr.camera;
    let records_before: Vec<InstanceRecord> = fr.instances.records.clone();
    let published_before = fr.instances.published.clone();
    let block_before = fr.binding.block;
    let vp = identity_matrix();
    let a = fr.frame_step(&vp, SurfaceStatus::Lost);
    assert_eq!(a, FrameAction::Reconfigure);
    assert_eq!(fr.camera, camera_before);
    assert_eq!(fr.instances.records, records_before);
    assert_eq!(fr.instances.published, published_before);
    assert_eq!(fr.binding.block, block_before);
    let again = fr.frame_step(&vp, SurfaceStatus::Acquired);
    assert!(matches!(again, FrameAction::Draw(_)));
}

#[test]
fn out_of_memory_terminates_the_run() {
    let mut fr = quad_renderer();
    let vp = identity_matrix();
    assert_eq!(fr.frame_step(&vp, SurfaceStatus::OutOfMemory), FrameAction::Terminate);
}

#[test]
fn transient_failure_skips_the_frame() {
    let mut fr = quad_renderer();
    let vp = identity_matrix();
    assert_eq!(fr.frame_step(&vp, SurfaceStatus::Transient), FrameAction::Skip);
    let a = fr.frame_step(&vp, SurfaceStatus::Acquired);
    assert!(matches!(a, FrameAction::Draw(_)));
}
