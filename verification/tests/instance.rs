use cgmath::{Matrix4, SquareMatrix, Vector3};
use rendercore::error::RenderError;
use rendercore::instance::InstanceBuffer;
use rendercore::vertex::InstanceRecord;

/// The sixteen column-major scalar bit patterns of a cgmath matrix.
fn record_of(m: Matrix4<f32>) -> InstanceRecord {
    let cols: [[f32; 4]; 4] = m.into();
    let mut words = [0u32; 16];
    for (c, col) in cols.iter().enumerate() {
        for (r, &x) in col.iter().enumerate() {
            words[4 * c + r] = x.to_bits();
        }
    }
    InstanceRecord { model: words }
}

fn identity_record() -> InstanceRecord {
    record_of(Matrix4::identity())
}

fn translation_record(x: f32, y: f32, z: f32) -> InstanceRecord {
    record_of(Matrix4::from_translation(Vector3::new(x, y, z)))
}

/// The byte image bytemuck would publish for the same records.
fn cast_image(records: &[InstanceRecord]) -> Vec<u8> {
    let floats: Vec<f32> = records
        .iter()
        .flat_map(|r| r.model.iter().map(|&w| f32::from_bits(w)))
        .collect();
    bytemuck::cast_slice(&floats).to_vec()
}

#[test]
fn create_empty_publishes_empty_image() {
    let b = InstanceBuffer::create(Vec::new());
    assert_eq!(b.len(), 0);
    assert!(b.published_bytes().is_empty());
}

#[test]
fn three_appends_keep_insertion_order_and_offsets() {
    let r0 = identity_record();
    let r1 = translation_record(150.0, 0.0, 0.0);
    let r2 = translation_record(-150.0, 0.0, 0.0);
    let mut b = InstanceBuffer::create(Vec::new());
    assert_eq!(b.append(r0), 0);
    assert_eq!(b.append(r1), 1);
    assert_eq!(b.append(r2), 2);
    assert_eq!(b.len(), 3);
    assert_eq!(*b.record_at(0), r0);
    assert_eq!(*b.record_at(1), r1);
    assert_eq!(*b.record_at(2), r2);
}

#[test]
fn published_image_tracks_every_append() {
    let records = [
        identity_record(),
        translation_record(150.0, 0.0, 0.0),
        translation_record(0.0, -25.0, 3.5),
    ];
    let mut b = InstanceBuffer::create(Vec::new());
    for n in 0..records.len() {
        b.append(records[n]);
        assert_eq!(b.published_bytes().as_slice(), cast_image(&records[..n + 1]).as_slice());
        assert_eq!(b.published_bytes().len(), 64 * (n + 1));
    }
}

#[test]
fn update_rewrites_exactly_one_record() {
    let r0 = identity_record();
    let r1 = translation_record(150.0, 0.0, 0.0);
    let r2 = translation_record(7.0, 8.0, 9.0);
    let mut b = InstanceBuffer::create(vec![r0, r1]);
    let before = b.published_bytes().clone();
    b.update(1, r2).unwrap();
    assert_eq!(*b.record_at(0), r0);
    assert_eq!(*b.record_at(1), r2);
    let after = b.published_bytes();
    assert_eq!(&after[..64], &before[..64]);
    assert_eq!(&after[64..], &cast_image(&[r2])[..]);
}

#[test]
fn update_at_first_offset_leaves_later_records() {
    let r0 = identity_record();
    let r1 = translation_record(1.0, 2.0, 3.0);
    let r2 = translation_record(4.0, 5.0, 6.0);
    let mut b = InstanceBuffer::create(vec![r0, r1]);
    let before = b.published_bytes().clone();
    b.update(0, r2).unwrap();
    assert_eq!(*b.record_at(0), r2);
    assert_eq!(*b.record_at(1), r1);
    assert_eq!(&b.published_bytes()[64..], &before[64..]);
}

#[test]
fn update_out_of_range_fails_and_mutates_nothing() {
    let r0 = identity_record();
    let r1 = translation_record(150.0, 0.0, 0.0);
    let mut b = InstanceBuffer::create(vec![r0, r1]);
    let before = b.published_bytes().clone();
    let res = b.update(2, translation_record(9.0, 9.0, 9.0));
    assert_eq!(res, Err(RenderError::OutOfRange));
    assert_eq!(b.len(), 2);
    assert_eq!(*b.record_at(0), r0);
    assert_eq!(*b.record_at(1), r1);
    assert_eq!(b.published_bytes().as_slice(), before.as_slice());
}

#[test]
fn update_on_empty_buffer_is_out_of_range() {
    let mut b = InstanceBuffer::create(Vec::new());
    let res = b.update(0, identity_record());
    assert_eq!(res, Err(RenderError::OutOfRange));
    assert_eq!(b.len(), 0);
}

#[test]
fn translation_record_places_offset_in_fourth_column() {
    let r = translation_record(150.0, 0.0, 0.0);
    assert_eq!(r.model[12], 150.0f32.to_bits());
    assert_eq!(r.model[13], 0.0f32.to_bits());
    assert_eq!(r.model[14], 0.0f32.to_bits());
    assert_eq!(r.model[15], 1.0f32.to_bits());
    assert_eq!(r.model[0], 1.0f32.to_bits());
}
