use render_core::buffer::BufferSlot;
use render_core::light::{
    aggregate_lights, light_buffer_bytes, pack_lights, republish_light_bindings, words_to_bytes,
    DirectionalLight, LightBinding, PointLight, Vec3Bits,
};

fn v3(x: f32, y: f32, z: f32) -> Vec3Bits {
    Vec3Bits { x: x.to_bits(), y: y.to_bits(), z: z.to_bits() }
}

fn read_u32_le(bytes: &[u8], offset: usize) -> u32 {
    (bytes[offset] as u32)
        | ((bytes[offset + 1] as u32) << 8)
        | ((bytes[offset + 2] as u32) << 16)
        | ((bytes[offset + 3] as u32) << 24)
}

#[test]
fn zero_lights_is_a_bare_zero_header() {
    let bytes = light_buffer_bytes(&Vec::new(), &Vec::new());
    assert_eq!(bytes.len(), 16);
    // Header (0, 0, 0, 0), no light records.
    assert!(bytes.iter().all(|&b| b == 0));
}

#[test]
fn one_directional_and_one_point_light() {
    let dir = DirectionalLight { direction: v3(0.0, -1.0, 0.0), illuminance: v3(1.0, 1.0, 1.0) };
    let point = PointLight { position: v3(0.0, 5.0, 0.0), luminous_flux: v3(10.0, 10.0, 10.0) };
    let bytes = light_buffer_bytes(&vec![dir], &vec![point]);

    // 16 header bytes + 64 = 80 in total; header counts (1, 1, 0, 0).
    assert_eq!(bytes.len(), 16 + 64);
    assert_eq!(read_u32_le(&bytes, 0), 1);
    assert_eq!(read_u32_le(&bytes, 4), 1);
    assert_eq!(read_u32_le(&bytes, 8), 0);
    assert_eq!(read_u32_le(&bytes, 12), 0);

    // Directional record: direction.xyz, padding, illuminance.rgb, padding.
    assert_eq!(f32::from_bits(read_u32_le(&bytes, 16)), 0.0);
    assert_eq!(f32::from_bits(read_u32_le(&bytes, 20)), -1.0);
    assert_eq!(f32::from_bits(read_u32_le(&bytes, 24)), 0.0);
    assert_eq!(read_u32_le(&bytes, 28), 0);
    assert_eq!(f32::from_bits(read_u32_le(&bytes, 32)), 1.0);
    assert_eq!(f32::from_bits(read_u32_le(&bytes, 36)), 1.0);
    assert_eq!(f32::from_bits(read_u32_le(&bytes, 40)), 1.0);
    assert_eq!(read_u32_le(&bytes, 44), 0);

    // Point record: position.xyz, padding, luminous_flux.rgb, padding.
    assert_eq!(f32::from_bits(read_u32_le(&bytes, 48)), 0.0);
    assert_eq!(f32::from_bits(read_u32_le(&bytes, 52)), 5.0);
    assert_eq!(f32::from_bits(read_u32_le(&bytes, 56)), 0.0);
    assert_eq!(read_u32_le(&bytes, 60), 0);
    assert_eq!(f32::from_bits(read_u32_le(&bytes, 64)), 10.0);
    assert_eq!(f32::from_bits(read_u32_le(&bytes, 68)), 10.0);
    assert_eq!(f32::from_bits(read_u32_le(&bytes, 72)), 10.0);
    assert_eq!(read_u32_le(&bytes, 76), 0);
}

#[test]
fn byte_length_grows_by_thirty_two_per_light() {
    let dir = DirectionalLight { direction: v3(1.0, 0.0, 0.0), illuminance: v3(0.5, 0.5, 0.5) };
    let point = PointLight { position: v3(1.0, 2.0, 3.0), luminous_flux: v3(4.0, 4.0, 4.0) };
    for nd in 0..4usize {
        for np in 0..4usize {
            let bytes = light_buffer_bytes(&vec![dir; nd], &vec![point; np]);
            assert_eq!(bytes.len(), 16 + 32 * (nd + np));
            assert_eq!(read_u32_le(&bytes, 0) as usize, nd);
            assert_eq!(read_u32_le(&bytes, 4) as usize, np);
        }
    }
}

#[test]
fn packed_words_hold_counts_then_fixed_stride_records() {
    let dir = DirectionalLight { direction: v3(0.0, -1.0, 0.0), illuminance: v3(1.0, 1.0, 1.0) };
    let point = PointLight { position: v3(0.0, 5.0, 0.0), luminous_flux: v3(10.0, 10.0, 10.0) };
    let words = pack_lights(&vec![dir, dir], &vec![point]);
    assert_eq!(words.len(), 4 + 8 * 3);
    assert_eq!(words[0], 2);
    assert_eq!(words[1], 1);
    assert_eq!(words[2], 0);
    assert_eq!(words[3], 0);
    assert_eq!(words[4], 0.0f32.to_bits());
    assert_eq!(words[5], (-1.0f32).to_bits());
    assert_eq!(words[12], 0.0f32.to_bits());
    assert_eq!(words[20], 0.0f32.to_bits());
    assert_eq!(words[21], 5.0f32.to_bits());
}

#[test]
fn words_serialize_little_endian() {
    let bytes = words_to_bytes(&vec![0x0102_0304, 0xAABB_CCDD]);
    assert_eq!(bytes, vec![0x04, 0x03, 0x02, 0x01, 0xDD, 0xCC, 0xBB, 0xAA]);
}

#[test]
fn republishing_updates_every_binding() {
    let mut bindings = vec![
        LightBinding { buffer: 1, byte_len: 16 },
        LightBinding { buffer: 1, byte_len: 16 },
        LightBinding { buffer: 1, byte_len: 16 },
    ];
    republish_light_bindings(&mut bindings, 7, 80);
    assert_eq!(bindings.len(), 3);
    for b in &bindings {
        assert_eq!(*b, LightBinding { buffer: 7, byte_len: 80 });
    }
}

#[test]
fn aggregation_uploads_and_republishes_exact_length() {
    let dir = DirectionalLight { direction: v3(0.0, -1.0, 0.0), illuminance: v3(1.0, 1.0, 1.0) };
    let point = PointLight { position: v3(0.0, 5.0, 0.0), luminous_flux: v3(10.0, 10.0, 10.0) };
    let mut slot = BufferSlot::Uninitialized;
    let mut bindings = vec![LightBinding { buffer: 0, byte_len: 0 }; 3];

    aggregate_lights(&vec![dir], &vec![point], &mut slot, 42, &mut bindings);
    let contents = match &slot {
        BufferSlot::Allocated(b) => b.contents.clone(),
        BufferSlot::Uninitialized => panic!("light buffer was not allocated"),
    };
    assert_eq!(contents, light_buffer_bytes(&vec![dir], &vec![point]));
    assert_eq!(contents.len(), 80);
    for b in &bindings {
        assert_eq!(*b, LightBinding { buffer: 42, byte_len: 80 });
    }

    // The shared buffer never shrinks: an emptier frame reuses it.
    aggregate_lights(&Vec::new(), &Vec::new(), &mut slot, 42, &mut bindings);
    match &slot {
        BufferSlot::Allocated(b) => {
            assert_eq!(b.capacity, 80);
            assert_eq!(b.contents.len(), 16);
        }
        BufferSlot::Uninitialized => panic!("light buffer was dropped"),
    }
    for b in &bindings {
        assert_eq!(*b, LightBinding { buffer: 42, byte_len: 16 });
    }
}
