use vstd::prelude::*;
use crate::buffer::BufferSlot;
use crate::buffer::BufferUsage;
use crate::buffer::grown_capacity;
use crate::buffer::slot_capacity;

verus! {

/// Three scalar components, each held as the 32-bit pattern of an IEEE-754
/// single-precision value. The packing logic only moves these words; the
/// arithmetic on them lives with the caller that produced the patterns.
#[derive(Clone, Copy, Debug, PartialEq, Eq, Structural)]
pub struct Vec3Bits {
    pub x: u32,
    pub y: u32,
    pub z: u32,
}

/// A directional light source: a direction and an illuminance, each as
/// three 32-bit component words.
#[derive(Clone, Copy, Debug, PartialEq, Eq, Structural)]
pub struct DirectionalLight {
    pub direction: Vec3Bits,
    pub illuminance: Vec3Bits,
}

/// A point light source: a position and a luminous flux, each as three
/// 32-bit component words.
#[derive(Clone, Copy, Debug, PartialEq, Eq, Structural)]
pub struct PointLight {
    pub position: Vec3Bits,
    pub luminous_flux: Vec3Bits,
}

/// The record a directional light occupies in the packed buffer: eight
/// 32-bit slots — direction.xyz, one padding slot, illuminance.rgb, one
/// padding slot.
pub open spec fn dir_record(l: DirectionalLight) -> Seq<u32> {
    seq![
        l.direction.x,
        l.direction.y,
        l.direction.z,
        0u32,
        l.illuminance.x,
        l.illuminance.y,
        l.illuminance.z,
        0u32,
    ]
}

/// The record a point light occupies in the packed buffer: eight 32-bit
/// slots — position.xyz, one padding slot, luminous_flux.rgb, one padding
/// slot.
pub open spec fn point_record(l: PointLight) -> Seq<u32> {
    seq![
        l.position.x,
        l.position.y,
        l.position.z,
        0u32,
        l.luminous_flux.x,
        l.luminous_flux.y,
        l.luminous_flux.z,
        0u32,
    ]
}

/// Pack the current frame's lights into one flat array of 32-bit slots:
/// a four-slot header (directional count, point count, two reserved zero
/// slots), then one eight-slot record per directional light, then one per
/// point light. Every light record has the same stride, so shaders index
/// the buffer with a fixed step. No lights is valid: the result is the
/// header alone.
pub fn pack_lights(dirs: &Vec<DirectionalLight>, points: &Vec<PointLight>) -> (r: Vec<u32>)
    requires
        dirs@.len() <= 0x1000_0000,
        points@.len() <= 0x1000_0000,
    ensures
        r@.len() == 4 + 8 * dirs@.len() + 8 * points@.len(),
        r@[0] == dirs@.len() as u32,
        r@[1] == points@.len() as u32,
        r@[2] == 0u32,
        r@[3] == 0u32,
        forall|i: int| 0 <= i < dirs@.len() ==> #[trigger] r@.subrange(4 + 8 * i, 12 + 8 * i)
            == dir_record(dirs@[i]),
        forall|i: int| 0 <= i < points@.len() ==> #[trigger] r@.subrange(
            4 + 8 * dirs@.len() + 8 * i,
            12 + 8 * dirs@.len() + 8 * i,
        ) == point_record(points@[i]),
{
    let mut r: Vec<u32> = Vec::new();
    r.push(dirs.len() as u32);
    r.push(points.len() as u32);
    r.push(0u32);
    r.push(0u32);
    let nd = dirs.len();
    let mut i: usize = 0;
    while i < nd
        invariant
            nd == dirs@.len(),
            nd <= 0x1000_0000,
            i <= nd,
            r@.len() == 4 + 8 * i,
            r@[0] == dirs@.len() as u32,
            r@[1] == points@.len() as u32,
            r@[2] == 0u32,
            r@[3] == 0u32,
            forall|j: int| 0 <= j < i ==> #[trigger] r@.subrange(4 + 8 * j, 12 + 8 * j)
                == dir_record(dirs@[j]),
        decreases nd - i,
    {
        let ghost prev = r@;
        let l = dirs[i];
        r.push(l.direction.x);
        r.push(l.direction.y);
        r.push(l.direction.z);
        r.push(0u32);
        r.push(l.illuminance.x);
        r.push(l.illuminance.y);
        r.push(l.illuminance.z);
        r.push(0u32);
        proof {
            assert forall|j: int| 0 <= j < i + 1 implies #[trigger] r@.subrange(
                4 + 8 * j,
                12 + 8 * j,
            ) == dir_record(dirs@[j]) by {
                if j < i {
                    assert(r@.subrange(4 + 8 * j, 12 + 8 * j)
                        =~= prev.subrange(4 + 8 * j, 12 + 8 * j));
                } else {
                    assert(r@.subrange(4 + 8 * j, 12 + 8 * j) =~= dir_record(dirs@[j]));
                }
            }
        }
        i = i + 1;
    }
    let np = points.len();
    let mut k: usize = 0;
    while k < np
        invariant
            nd == dirs@.len(),
            np == points@.len(),
            nd <= 0x1000_0000,
            np <= 0x1000_0000,
            k <= np,
            r@.len() == 4 + 8 * nd + 8 * k,
            r@[0] == dirs@.len() as u32,
            r@[1] == points@.len() as u32,
            r@[2] == 0u32,
            r@[3] == 0u32,
            forall|j: int| 0 <= j < nd ==> #[trigger] r@.subrange(4 + 8 * j, 12 + 8 * j)
                == dir_record(dirs@[j]),
            forall|j: int| 0 <= j < k ==> #[trigger] r@.subrange(
                4 + 8 * nd + 8 * j,
                12 + 8 * nd + 8 * j,
            ) == point_record(points@[j]),
        decreases np - k,
    {
        let ghost prev = r@;
        let l = points[k];
        r.push(l.position.x);
        r.push(l.position.y);
        r.push(l.position.z);
        r.push(0u32);
        r.push(l.luminous_flux.x);
        r.push(l.luminous_flux.y);
        r.push(l.luminous_flux.z);
        r.push(0u32);
        proof {
            assert forall|j: int| 0 <= j < nd implies #[trigger] r@.subrange(
                4 + 8 * j,
                12 + 8 * j,
            ) == dir_record(dirs@[j]) by {
                assert(r@.subrange(4 + 8 * j, 12 + 8 * j)
                    =~= prev.subrange(4 + 8 * j, 12 + 8 * j));
            }
            assert forall|j: int| 0 <= j < k + 1 implies #[trigger] r@.subrange(
                4 + 8 * nd + 8 * j,
                12 + 8 * nd + 8 * j,
            ) == point_record(points@[j]) by {
                if j < k {
                    assert(r@.subrange(4 + 8 * nd + 8 * j, 12 + 8 * nd + 8 * j)
                        =~= prev.subrange(4 + 8 * nd + 8 * j, 12 + 8 * nd + 8 * j));
                } else {
                    assert(r@.subrange(4 + 8 * nd + 8 * j, 12 + 8 * nd + 8 * j)
                        =~= point_record(points@[j]));
                }
            }
        }
        k = k + 1;
    }
    r
}

/// The four bytes of one 32-bit slot, least significant first: the layout
/// the packed light buffer takes in GPU-visible memory.
pub open spec fn le_bytes_of_word(w: u32) -> Seq<u8> {
    seq![
        (w % 256) as u8,
        ((w / 256) % 256) as u8,
        ((w / 65536) % 256) as u8,
        ((w / 16777216) % 256) as u8,
    ]
}

/// The byte image of a slot array, little endian, four bytes per slot.
pub open spec fn bytes_of_words(ws: Seq<u32>) -> Seq<u8>
    decreases ws.len(),
{
    if ws.len() == 0 {
        Seq::empty()
    } else {
        bytes_of_words(ws.drop_last()) + le_bytes_of_word(ws.last())
    }
}

/// Each slot of the array lands at byte offset `4 * i` of its byte image.
pub proof fn lemma_bytes_of_words_index(ws: Seq<u32>, i: int)
    requires
        0 <= i < ws.len(),
    ensures
        bytes_of_words(ws).len() == 4 * ws.len(),
        bytes_of_words(ws).subrange(4 * i, 4 * i + 4) == le_bytes_of_word(ws[i]),
    decreases ws.len(),
{
    lemma_bytes_of_words_len(ws);
    if i == ws.len() - 1 {
        lemma_bytes_of_words_len(ws.drop_last());
        assert(bytes_of_words(ws).subrange(4 * i, 4 * i + 4) =~= le_bytes_of_word(ws[i]));
    } else {
        lemma_bytes_of_words_index(ws.drop_last(), i);
        lemma_bytes_of_words_len(ws.drop_last());
        assert(bytes_of_words(ws).subrange(4 * i, 4 * i + 4)
            =~= bytes_of_words(ws.drop_last()).subrange(4 * i, 4 * i + 4));
    }
}

/// A slot array's byte image has exactly four bytes per slot.
pub proof fn lemma_bytes_of_words_len(ws: Seq<u32>)
    ensures
        bytes_of_words(ws).len() == 4 * ws.len(),
    decreases ws.len(),
{
    if ws.len() > 0 {
        lemma_bytes_of_words_len(ws.drop_last());
    }
}

/// Serialize 32-bit slots into the byte image uploaded to the GPU, little
/// endian, four bytes per slot: the byte length is exactly `4 * words.len()`.
pub fn words_to_bytes(words: &Vec<u32>) -> (r: Vec<u8>)
    requires
        words@.len() <= 0x1000_0000,
    ensures
        r@ == bytes_of_words(words@),
        r@.len() == 4 * words@.len(),
{
    let mut r: Vec<u8> = Vec::new();
    let n = words.len();
    let mut i: usize = 0;
    while i < n
        invariant
            n == words@.len(),
            n <= 0x1000_0000,
            i <= n,
            r@.len() == 4 * i,
            r@ == bytes_of_words(words@.take(i as int)),
        decreases n - i,
    {
        let ghost prev = r@;
        let w = words[i];
        r.push((w % 256) as u8);
        r.push(((w / 256) % 256) as u8);
        r.push(((w / 65536) % 256) as u8);
        r.push(((w / 16777216) % 256) as u8);
        proof {
            let cur = words@.take(i + 1);
            assert(cur.drop_last() =~= words@.take(i as int));
            assert(cur.last() == words@[i as int]);
            assert(r@ =~= prev + le_bytes_of_word(words@[i as int]));
        }
        i = i + 1;
    }
    proof {
        assert(words@.take(n as int) =~= words@);
    }
    r
}

/// The 32 bytes one eight-slot light record occupies in the uploaded
/// buffer: each slot serialized little endian, in record order.
pub open spec fn record_bytes(rec: Seq<u32>) -> Seq<u8> {
    le_bytes_of_word(rec[0]) + le_bytes_of_word(rec[1]) + le_bytes_of_word(rec[2])
        + le_bytes_of_word(rec[3]) + le_bytes_of_word(rec[4]) + le_bytes_of_word(rec[5])
        + le_bytes_of_word(rec[6]) + le_bytes_of_word(rec[7])
}

/// Build the byte image of the packed light buffer for one frame.
///
/// The total byte length is exactly `16 + 32 * (directional + point)`
/// bytes: four header slots plus eight slots per light, four bytes per
/// slot. The header's first two slots hold the two light counts; each
/// light's record starts at a fixed 32-byte stride.
pub fn light_buffer_bytes(dirs: &Vec<DirectionalLight>, points: &Vec<PointLight>) -> (r: Vec<u8>)
    requires
        dirs@.len() <= 0x0080_0000,
        points@.len() <= 0x0080_0000,
    ensures
        r@.len() == 16 + 32 * dirs@.len() + 32 * points@.len(),
        r@.subrange(0, 4) == le_bytes_of_word(dirs@.len() as u32),
        r@.subrange(4, 8) == le_bytes_of_word(points@.len() as u32),
        r@.subrange(8, 12) == le_bytes_of_word(0u32),
        r@.subrange(12, 16) == le_bytes_of_word(0u32),
        forall|i: int| 0 <= i < dirs@.len() ==> #[trigger] r@.subrange(16 + 32 * i, 48 + 32 * i)
            == record_bytes(dir_record(dirs@[i])),
        forall|i: int| 0 <= i < points@.len() ==> #[trigger] r@.subrange(
            16 + 32 * dirs@.len() + 32 * i,
            48 + 32 * dirs@.len() + 32 * i,
        ) == record_bytes(point_record(points@[i])),
{
    let words = pack_lights(dirs, points);
    let r = words_to_bytes(&words);
    proof {
        let ws = words@;
        lemma_bytes_of_words_len(ws);
        lemma_bytes_of_words_index(ws, 0);
        lemma_bytes_of_words_index(ws, 1);
        lemma_bytes_of_words_index(ws, 2);
        lemma_bytes_of_words_index(ws, 3);
        assert(r@.subrange(0, 4) =~= le_bytes_of_word(ws[0]));
        assert(r@.subrange(4, 8) =~= le_bytes_of_word(ws[1]));
        assert(r@.subrange(8, 12) =~= le_bytes_of_word(ws[2]));
        assert(r@.subrange(12, 16) =~= le_bytes_of_word(ws[3]));
        assert forall|i: int| 0 <= i < dirs@.len() implies #[trigger] r@.subrange(16 + 32 * i, 48 + 32 * i)
            == record_bytes(dir_record(dirs@[i])) by {
            let rec = dir_record(dirs@[i]);
            assert(ws.subrange(4 + 8 * i, 12 + 8 * i) == rec);
            lemma_record_chunks(ws, 4 + 8 * i, rec);
        }
        assert forall|i: int| 0 <= i < points@.len() implies #[trigger] r@.subrange(
            16 + 32 * dirs@.len() + 32 * i,
            48 + 32 * dirs@.len() + 32 * i,
        ) == record_bytes(point_record(points@[i])) by {
            let rec = point_record(points@[i]);
            assert(ws.subrange(4 + 8 * dirs@.len() + 8 * i, 12 + 8 * dirs@.len() + 8 * i)
                == rec);
            lemma_record_chunks(ws, 4 + 8 * dirs@.len() + 8 * i, rec);
        }
    }
    r
}

/// An eight-slot record that sits at slot offset `w` of the packed array
/// occupies bytes `4 * w .. 4 * w + 32` of the array's byte image.
proof fn lemma_record_chunks(ws: Seq<u32>, w: int, rec: Seq<u32>)
    requires
        0 <= w,
        w + 8 <= ws.len(),
        rec.len() == 8,
        ws.subrange(w, w + 8) == rec,
    ensures
        bytes_of_words(ws).subrange(4 * w, 4 * w + 32) == record_bytes(rec),
{
    lemma_bytes_of_words_len(ws);
    lemma_bytes_of_words_index(ws, w);
    lemma_bytes_of_words_index(ws, w + 1);
    lemma_bytes_of_words_index(ws, w + 2);
    lemma_bytes_of_words_index(ws, w + 3);
    lemma_bytes_of_words_index(ws, w + 4);
    lemma_bytes_of_words_index(ws, w + 5);
    lemma_bytes_of_words_index(ws, w + 6);
    lemma_bytes_of_words_index(ws, w + 7);
    assert(ws[w] == rec[0] && ws[w + 1] == rec[1] && ws[w + 2] == rec[2] && ws[w + 3] == rec[3]
        && ws[w + 4] == rec[4] && ws[w + 5] == rec[5] && ws[w + 6] == rec[6]
        && ws[w + 7] == rec[7]);
    assert(bytes_of_words(ws).subrange(4 * w, 4 * w + 32) =~= record_bytes(rec));
}

/// One per-swapchain-image shader-visible binding of the shared light
/// buffer: the buffer handle and the byte range bound to it.
#[derive(Clone, Copy, Debug, PartialEq, Eq, Structural)]
pub struct LightBinding {
    pub buffer: u64,
    pub byte_len: u64,
}

/// After uploading the packed light data, update every per-swapchain-image
/// descriptor binding that references the shared light buffer with the
/// buffer handle and the exact current byte length, so shaders never read
/// stale-length metadata.
pub fn republish_light_bindings(bindings: &mut Vec<LightBinding>, buffer: u64, byte_len: u64)
    ensures
        final(bindings)@.len() == old(bindings)@.len(),
        forall|i: int| 0 <= i < old(bindings)@.len() ==> #[trigger] final(bindings)@[i]
            == (LightBinding { buffer, byte_len }),
{
    let n = bindings.len();
    let mut i: usize = 0;
    while i < n
        invariant
            n == bindings@.len(),
            i <= n,
            bindings@.len() == old(bindings)@.len(),
            forall|j: int| 0 <= j < i ==> #[trigger] bindings@[j]
                == (LightBinding { buffer, byte_len }),
        decreases n - i,
    {
        bindings.set(i, LightBinding { buffer, byte_len });
        i = i + 1;
    }
}

/// One frame of the light aggregator: walk the snapshot of this frame's
/// lights, pack them, write the byte image into the single shared storage
/// buffer under the growth-or-reuse policy (grows on demand, never
/// shrinks), and republish every per-swapchain-image binding with the
/// buffer handle and the exact current byte length.
pub fn aggregate_lights(
    dirs: &Vec<DirectionalLight>,
    points: &Vec<PointLight>,
    light_buffer: &mut BufferSlot,
    buffer_handle: u64,
    bindings: &mut Vec<LightBinding>,
)
    requires
        old(light_buffer).wf(),
        dirs@.len() <= 0x0080_0000,
        points@.len() <= 0x0080_0000,
    ensures
        final(light_buffer).wf(),
        *final(light_buffer) is Allocated,
        final(light_buffer).spec_contents().len() == 16 + 32 * dirs@.len() + 32 * points@.len(),
        final(light_buffer).spec_contents().subrange(0, 4) == le_bytes_of_word(
            dirs@.len() as u32,
        ),
        final(light_buffer).spec_contents().subrange(4, 8) == le_bytes_of_word(
            points@.len() as u32,
        ),
        final(light_buffer).spec_contents().subrange(8, 16) == le_bytes_of_word(0u32)
            + le_bytes_of_word(0u32),
        forall|i: int| 0 <= i < dirs@.len()
            ==> #[trigger] final(light_buffer).spec_contents().subrange(16 + 32 * i, 48 + 32 * i)
                == record_bytes(dir_record(dirs@[i])),
        forall|i: int| 0 <= i < points@.len()
            ==> #[trigger] final(light_buffer).spec_contents().subrange(
                16 + 32 * dirs@.len() + 32 * i,
                48 + 32 * dirs@.len() + 32 * i,
            ) == record_bytes(point_record(points@[i])),
        slot_capacity(*final(light_buffer)) == grown_capacity(
            slot_capacity(*old(light_buffer)),
            (16 + 32 * dirs@.len() + 32 * points@.len()) as nat,
        ),
        slot_capacity(*final(light_buffer)) >= slot_capacity(*old(light_buffer)),
        final(bindings)@.len() == old(bindings)@.len(),
        forall|i: int| 0 <= i < old(bindings)@.len() ==> #[trigger] final(bindings)@[i]
            == (LightBinding {
            buffer: buffer_handle,
            byte_len: (16 + 32 * dirs@.len() + 32 * points@.len()) as u64,
        }),
{
    let bytes = light_buffer_bytes(dirs, points);
    let byte_len = bytes.len() as u64;
    light_buffer.update(&bytes, BufferUsage::Storage);
    republish_light_bindings(bindings, buffer_handle, byte_len);
    proof {
        assert(light_buffer.spec_contents() =~= bytes@);
        assert(light_buffer.spec_contents().subrange(8, 16) =~= bytes@.subrange(8, 12)
            + bytes@.subrange(12, 16));
    }
}

} // verus!
