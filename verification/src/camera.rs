use vstd::prelude::*;

verus! {

/// What the frame synchronizer reads and writes of a camera: whether it is
/// the active one, and the aspect ratio its projection was last built
/// from, held as the 32-bit pattern of an IEEE-754 single-precision value.
#[derive(Clone, Copy, Debug, PartialEq, Eq, Structural)]
pub struct Camera {
    pub is_active: bool,
    pub aspect_bits: u32,
}

/// After swapchain recreation, push the aspect ratio computed from the new
/// surface extent into every active camera, so that no projection
/// references a stale aspect ratio once the next frame begins. Inactive
/// cameras are left untouched.
pub fn refresh_active_cameras(cameras: &mut Vec<Camera>, aspect_bits: u32)
    ensures
        final(cameras)@.len() == old(cameras)@.len(),
        forall|i: int| 0 <= i < old(cameras)@.len() && old(cameras)@[i].is_active
            ==> #[trigger] final(cameras)@[i] == (Camera { is_active: true, aspect_bits }),
        forall|i: int| 0 <= i < old(cameras)@.len() && !old(cameras)@[i].is_active
            ==> #[trigger] final(cameras)@[i] == old(cameras)@[i],
{
    let n = cameras.len();
    let mut i: usize = 0;
    while i < n
        invariant
            n == cameras@.len(),
            i <= n,
            cameras@.len() == old(cameras)@.len(),
            forall|j: int| 0 <= j < i && old(cameras)@[j].is_active
                ==> #[trigger] cameras@[j] == (Camera { is_active: true, aspect_bits }),
            forall|j: int| 0 <= j < i && !old(cameras)@[j].is_active
                ==> #[trigger] cameras@[j] == old(cameras)@[j],
            forall|j: int| i <= j < n ==> #[trigger] cameras@[j] == old(cameras)@[j],
        decreases n - i,
    {
        if cameras[i].is_active {
            cameras.set(i, Camera { is_active: true, aspect_bits });
        }
        i = i + 1;
    }
}

} // verus!
