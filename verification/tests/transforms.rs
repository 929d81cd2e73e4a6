use nalgebra as na;
use render_core::model::MaterialData;

fn model_matrix(translation: na::Vector3<f32>, rotation: na::UnitQuaternion<f32>, scale: f32)
    -> na::Matrix4<f32>
{
    na::Matrix4::new_translation(&translation)
        * rotation.to_homogeneous()
        * na::Matrix4::new_scaling(scale)
}

fn matrix_bits(m: &na::Matrix4<f32>) -> Vec<u32> {
    m.as_slice().iter().map(|v| v.to_bits()).collect()
}

#[test]
fn model_matrix_times_inverse_is_identity() {
    let cases: Vec<(na::Vector3<f32>, na::UnitQuaternion<f32>, f32)> = vec![
        (
            na::Vector3::new(1.0, -2.0, 3.5),
            na::UnitQuaternion::from_euler_angles(0.3, -1.1, 2.0),
            2.5,
        ),
        (
            na::Vector3::new(0.0, 0.0, 0.0),
            na::UnitQuaternion::identity(),
            1.0,
        ),
        (
            na::Vector3::new(-40.0, 0.25, 9.0),
            na::UnitQuaternion::from_euler_angles(-0.9, 0.4, 0.1),
            0.125,
        ),
    ];
    for (t, r, s) in cases {
        let m = model_matrix(t, r, s);
        let inv = m.try_inverse().expect("uniform non-zero scale must be invertible");
        let product = m * inv;
        let identity = na::Matrix4::<f32>::identity();
        for i in 0..4 {
            for j in 0..4 {
                assert!((product[(i, j)] - identity[(i, j)]).abs() < 1e-4);
            }
        }
    }
}

#[test]
fn material_payload_round_trips_matrix_entries() {
    let t = na::Vector3::new(4.0f32, 5.0, 6.0);
    let r = na::UnitQuaternion::from_euler_angles(0.1f32, 0.2, 0.3);
    let m = model_matrix(t, r, 3.0);
    let inv = m.try_inverse().unwrap();

    let mut material = MaterialData {
        model_matrix: vec![0u32; 16],
        inverse_model_matrix: vec![0u32; 16],
    };
    material.set_matrices(matrix_bits(&m), Some(matrix_bits(&inv))).unwrap();

    let bytes = material.instance_bytes();
    assert_eq!(bytes.len(), 128);
    let mut decoded = Vec::with_capacity(32);
    for i in 0..32 {
        let w = u32::from_le_bytes([
            bytes[4 * i],
            bytes[4 * i + 1],
            bytes[4 * i + 2],
            bytes[4 * i + 3],
        ]);
        decoded.push(f32::from_bits(w));
    }
    for (k, v) in m.as_slice().iter().enumerate() {
        assert_eq!(decoded[k], *v);
    }
    for (k, v) in inv.as_slice().iter().enumerate() {
        assert_eq!(decoded[16 + k], *v);
    }
}
