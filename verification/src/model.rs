use vstd::prelude::*;
use crate::buffer::BufferSlot;
use crate::buffer::BufferUsage;
use crate::buffer::grown_capacity;
use crate::buffer::slot_capacity;
use crate::errors::RenderError;
use crate::light::bytes_of_words;
use crate::light::words_to_bytes;

verus! {

/// The material payload of a renderable entity: the model matrix derived
/// from the entity's transform, and its exact inverse, each as sixteen
/// 32-bit words (IEEE-754 single-precision bit patterns, column major).
pub struct MaterialData {
    pub model_matrix: Vec<u32>,
    pub inverse_model_matrix: Vec<u32>,
}

impl MaterialData {
    /// Both matrices hold exactly sixteen words.
    pub open spec fn wf(self) -> bool {
        self.model_matrix@.len() == 16 && self.inverse_model_matrix@.len() == 16
    }

    /// Install a freshly recomputed model matrix together with its
    /// inverse, as the scene update pass does each frame the transform
    /// changed. The inverse is handed in as the inverter produced it:
    /// `None` means the matrix was singular, which is fatal for this
    /// entity's draw alone — the payload is left unchanged, the caller
    /// skips the entity, and the frame as a whole goes on.
    pub fn set_matrices(&mut self, matrix: Vec<u32>, inverse: Option<Vec<u32>>) -> (r: Result<
        (),
        RenderError,
    >)
        requires
            old(self).wf(),
            matrix@.len() == 16,
            inverse matches Some(inv) ==> inv@.len() == 16,
        ensures
            final(self).wf(),
            r is Ok <==> inverse is Some,
            r matches Err(e) ==> e == RenderError::SingularTransform,
            inverse matches Some(inv) ==> final(self).model_matrix@ == matrix@
                && final(self).inverse_model_matrix@ == inv@,
            inverse is None ==> *final(self) == *old(self),
    {
        match inverse {
            Some(inv) => {
                self.model_matrix = matrix;
                self.inverse_model_matrix = inv;
                Ok(())
            },
            None => Err(RenderError::SingularTransform),
        }
    }

    /// The explicit serialization of the payload for GPU upload: the model
    /// matrix's sixteen words, then the inverse's sixteen, little endian —
    /// 128 bytes, independent of any in-memory layout.
    pub fn instance_bytes(&self) -> (r: Vec<u8>)
        requires
            self.wf(),
        ensures
            r@ == bytes_of_words(self.model_matrix@ + self.inverse_model_matrix@),
            r@.len() == 128,
    {
        let mut words: Vec<u32> = Vec::new();
        push_all_words(&mut words, &self.model_matrix);
        push_all_words(&mut words, &self.inverse_model_matrix);
        words_to_bytes(&words)
    }
}

/// Copy every word of `src` onto the end of `dst`.
fn push_all_words(dst: &mut Vec<u32>, src: &Vec<u32>)
    ensures
        final(dst)@ == old(dst)@ + src@,
{
    let mut i: usize = 0;
    while i < src.len()
        invariant
            i <= src@.len(),
            dst@ == old(dst)@ + src@.take(i as int),
        decreases src@.len() - i,
    {
        proof {
            assert(src@.take(i + 1) =~= src@.take(i as int).push(src@[i as int]));
            assert(old(dst)@ + src@.take(i + 1) =~= (old(dst)@ + src@.take(i as int)).push(
                src@[i as int],
            ));
        }
        dst.push(src[i]);
        i = i + 1;
    }
    proof {
        assert(src@.take(src@.len() as int) =~= src@);
    }
}

/// A renderable entity's geometry and its GPU residency: vertex and index
/// data as upload-ready bytes, the material payload, and the three lazily
/// created buffer slots the data is pushed into.
pub struct Model {
    pub vertex_data: Vec<u8>,
    pub index_data: Vec<u8>,
    pub material: MaterialData,
    pub vertex_buffer: BufferSlot,
    pub instance_buffer: BufferSlot,
    pub index_buffer: BufferSlot,
}

impl Model {
    pub open spec fn wf(self) -> bool {
        &&& self.material.wf()
        &&& self.vertex_buffer.wf()
        &&& self.instance_buffer.wf()
        &&& self.index_buffer.wf()
    }

    /// Push the current vertex data into the vertex buffer slot under the
    /// growth-or-reuse policy.
    pub fn update_vertexbuffer(&mut self)
        requires
            old(self).wf(),
        ensures
            final(self).wf(),
            final(self).vertex_buffer.spec_contents() == old(self).vertex_data@,
            slot_capacity(final(self).vertex_buffer) == grown_capacity(
                slot_capacity(old(self).vertex_buffer),
                old(self).vertex_data@.len(),
            ),
            final(self).vertex_data == old(self).vertex_data,
            final(self).index_data == old(self).index_data,
            final(self).material == old(self).material,
            final(self).instance_buffer == old(self).instance_buffer,
            final(self).index_buffer == old(self).index_buffer,
    {
        let data = self.vertex_data.clone();
        self.vertex_buffer.update(&data, BufferUsage::Vertex);
    }

    /// Serialize the material payload and push it into the instance
    /// buffer slot under the growth-or-reuse policy.
    pub fn update_instancebuffer(&mut self)
        requires
            old(self).wf(),
        ensures
            final(self).wf(),
            final(self).instance_buffer.spec_contents() == bytes_of_words(
                old(self).material.model_matrix@ + old(self).material.inverse_model_matrix@,
            ),
            slot_capacity(final(self).instance_buffer) == grown_capacity(
                slot_capacity(old(self).instance_buffer),
                128,
            ),
            final(self).vertex_data == old(self).vertex_data,
            final(self).index_data == old(self).index_data,
            final(self).material == old(self).material,
            final(self).vertex_buffer == old(self).vertex_buffer,
            final(self).index_buffer == old(self).index_buffer,
    {
        let data = self.material.instance_bytes();
        self.instance_buffer.update(&data, BufferUsage::Vertex);
    }

    /// Push the current index data into the index buffer slot under the
    /// growth-or-reuse policy.
    pub fn update_indexbuffer(&mut self)
        requires
            old(self).wf(),
        ensures
            final(self).wf(),
            final(self).index_buffer.spec_contents() == old(self).index_data@,
            slot_capacity(final(self).index_buffer) == grown_capacity(
                slot_capacity(old(self).index_buffer),
                old(self).index_data@.len(),
            ),
            final(self).vertex_data == old(self).vertex_data,
            final(self).index_data == old(self).index_data,
            final(self).material == old(self).material,
            final(self).vertex_buffer == old(self).vertex_buffer,
            final(self).instance_buffer == old(self).instance_buffer,
    {
        let data = self.index_data.clone();
        self.index_buffer.update(&data, BufferUsage::Index);
    }

    /// Bring all three buffer slots up to date with the entity's current
    /// data, each under the growth-or-reuse policy independently: what the
    /// model initialisation pass does for every renderable entity.
    pub fn update_gpu_buffers(&mut self)
        requires
            old(self).wf(),
        ensures
            final(self).wf(),
            final(self).vertex_buffer.spec_contents() == old(self).vertex_data@,
            final(self).instance_buffer.spec_contents() == bytes_of_words(
                old(self).material.model_matrix@ + old(self).material.inverse_model_matrix@,
            ),
            final(self).index_buffer.spec_contents() == old(self).index_data@,
            slot_capacity(final(self).vertex_buffer) == grown_capacity(
                slot_capacity(old(self).vertex_buffer),
                old(self).vertex_data@.len(),
            ),
            slot_capacity(final(self).instance_buffer) == grown_capacity(
                slot_capacity(old(self).instance_buffer),
                128,
            ),
            slot_capacity(final(self).index_buffer) == grown_capacity(
                slot_capacity(old(self).index_buffer),
                old(self).index_data@.len(),
            ),
            final(self).vertex_data == old(self).vertex_data,
            final(self).index_data == old(self).index_data,
            final(self).material == old(self).material,
    {
        self.update_vertexbuffer();
        self.update_instancebuffer();
        self.update_indexbuffer();
    }
}

} // verus!
