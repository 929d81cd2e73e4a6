use vstd::prelude::*;
use vstd::arithmetic::div_mod::lemma_add_mod_noop;
use vstd::arithmetic::div_mod::lemma_small_mod;

verus! {

/// The drawable surface extent in pixels.
#[derive(Clone, Copy, Debug, PartialEq, Eq, Structural)]
pub struct Extent2D {
    pub width: u32,
    pub height: u32,
}

/// The per-swapchain synchronization state: one presentable image slot per
/// entry of the three parallel arrays (`image_available` and
/// `rendering_finished` semaphores, `may_begin_drawing` fences), a rotating
/// `current_image` slot index, and the surface extent the images were built
/// against.
///
/// Synchronization primitives are carried as opaque numeric handles handed
/// out by a per-state counter, so that every rebuilt generation is provably
/// distinct from the handles it retires.
pub struct SwapchainState {
    pub amount_of_images: usize,
    pub image_available: Vec<u64>,
    pub rendering_finished: Vec<u64>,
    pub may_begin_drawing: Vec<u64>,
    pub current_image: usize,
    pub frames_rendered: u64,
    pub extent: Extent2D,
    pub next_handle: u64,
}

impl SwapchainState {
    /// Every synchronization handle this state holds, in array order.
    pub open spec fn all_handles(self) -> Seq<u64> {
        self.image_available@ + self.rendering_finished@ + self.may_begin_drawing@
    }

    /// Well-formedness: the three synchronization arrays have one entry per
    /// image, the rotating slot stays in range and equals the frame count
    /// modulo the image count, and every handle is live (below the counter)
    /// and held exactly once.
    pub open spec fn wf(self) -> bool {
        &&& self.amount_of_images > 0
        &&& self.image_available@.len() == self.amount_of_images
        &&& self.rendering_finished@.len() == self.amount_of_images
        &&& self.may_begin_drawing@.len() == self.amount_of_images
        &&& self.current_image < self.amount_of_images
        &&& self.current_image as int == self.frames_rendered as int
            % self.amount_of_images as int
        &&& forall|k: int| 0 <= k < self.all_handles().len()
            ==> #[trigger] self.all_handles()[k] < self.next_handle
        &&& forall|k: int, l: int| 0 <= k < l < self.all_handles().len()
            ==> #[trigger] self.all_handles()[k] != #[trigger] self.all_handles()[l]
    }

    /// Build the synchronization state for a fresh swapchain of
    /// `amount_of_images` presentable images over the given extent.
    pub fn new(amount_of_images: usize, extent: Extent2D) -> (r: SwapchainState)
        requires
            amount_of_images > 0,
            3 * amount_of_images as int <= u64::MAX,
        ensures
            r.wf(),
            r.amount_of_images == amount_of_images,
            r.current_image == 0,
            r.frames_rendered == 0,
            r.extent == extent,
    {
        let n64 = amount_of_images as u64;
        let image_available = fresh_handles(0, amount_of_images);
        let rendering_finished = fresh_handles(n64, amount_of_images);
        let may_begin_drawing = fresh_handles(2 * n64, amount_of_images);
        let r = SwapchainState {
            amount_of_images,
            image_available,
            rendering_finished,
            may_begin_drawing,
            current_image: 0,
            frames_rendered: 0,
            extent,
            next_handle: 3 * n64,
        };
        proof {
            let n = amount_of_images as int;
            lemma_small_mod(0, amount_of_images as nat);
            assert forall|k: int| 0 <= k < r.all_handles().len() implies #[trigger] r
                .all_handles()[k] == k by {
                if k < n {
                    assert(r.all_handles()[k] == r.image_available@[k]);
                } else if k < 2 * n {
                    assert(r.all_handles()[k] == r.rendering_finished@[k - n]);
                } else {
                    assert(r.all_handles()[k] == r.may_begin_drawing@[k - 2 * n]);
                }
            }
        }
        r
    }

    /// Advance the rotating slot after presentation: one more frame has
    /// been submitted, and the slot index wraps modulo the image count.
    pub fn advance(&mut self)
        requires
            old(self).wf(),
            old(self).frames_rendered < u64::MAX,
        ensures
            final(self).wf(),
            final(self).frames_rendered == old(self).frames_rendered + 1,
            final(self).current_image == (old(self).current_image + 1) as int
                % old(self).amount_of_images as int,
            final(self).amount_of_images == old(self).amount_of_images,
            final(self).image_available == old(self).image_available,
            final(self).rendering_finished == old(self).rendering_finished,
            final(self).may_begin_drawing == old(self).may_begin_drawing,
            final(self).extent == old(self).extent,
            final(self).next_handle == old(self).next_handle,
    {
        proof {
            let f = old(self).frames_rendered as int;
            let n = old(self).amount_of_images as int;
            lemma_add_mod_noop(f, 1, n);
            if n > 1 {
                lemma_small_mod(1, n as nat);
            }
        }
        self.current_image = (self.current_image + 1) % self.amount_of_images;
        self.frames_rendered = self.frames_rendered + 1;
        proof {
            assert(self.all_handles() =~= old(self).all_handles());
        }
    }
}

/// `count` consecutive handles starting at `base`: the freshly created
/// synchronization primitives of one array.
fn fresh_handles(base: u64, count: usize) -> (r: Vec<u64>)
    requires
        base + count as int <= u64::MAX,
    ensures
        r@.len() == count,
        forall|i: int| 0 <= i < count ==> #[trigger] r@[i] == base + i,
{
    let mut r: Vec<u64> = Vec::new();
    let mut i: usize = 0;
    while i < count
        invariant
            base + count as int <= u64::MAX,
            i <= count,
            r@.len() == i,
            forall|j: int| 0 <= j < i ==> #[trigger] r@[j] == base + j,
        decreases count - i,
    {
        r.push(base + i as u64);
        i = i + 1;
    }
    r
}

/// Copy every handle of `src` onto the end of `dst`.
fn push_all(dst: &mut Vec<u64>, src: &Vec<u64>)
    ensures
        final(dst)@ == old(dst)@ + src@,
{
    let mut i: usize = 0;
    while i < src.len()
        invariant
            i <= src@.len(),
            dst@ == old(dst)@ + src@.take(i as int),
        decreases src@.len() - i,
    {
        proof {
            assert(src@.take(i + 1) =~= src@.take(i as int).push(src@[i as int]));
            assert(old(dst)@ + src@.take(i + 1) =~= (old(dst)@ + src@.take(i as int)).push(
                src@[i as int],
            ));
        }
        dst.push(src[i]);
        i = i + 1;
    }
    proof {
        assert(src@.take(src@.len() as int) =~= src@);
    }
}

/// What swapchain recreation leaves behind: the image count, rotating slot
/// and frame count carry over, the extent is rebuilt against the surface,
/// and every synchronization primitive is a fresh handle, disjoint from
/// everything the previous generation held.
pub open spec fn recreated_from(post: SwapchainState, pre: SwapchainState, extent: Extent2D) -> bool {
    &&& post.wf()
    &&& post.amount_of_images == pre.amount_of_images
    &&& post.extent == extent
    &&& post.current_image == pre.current_image
    &&& post.frames_rendered == pre.frames_rendered
    &&& post.next_handle == pre.next_handle + 3 * pre.amount_of_images as int
    &&& forall|k: int| 0 <= k < post.all_handles().len()
        ==> #[trigger] post.all_handles()[k] >= pre.next_handle
}

impl SwapchainState {
    /// Recreate the swapchain against the current surface extent: the old
    /// images and synchronization arrays are invalidated atomically and
    /// returned as the retired handles (for the caller to destroy), and
    /// parallel arrays of fresh primitives of identical length are built.
    pub fn recreate(&mut self, extent: Extent2D) -> (retired: Vec<u64>)
        requires
            old(self).wf(),
            old(self).next_handle + 3 * old(self).amount_of_images as int <= u64::MAX,
        ensures
            recreated_from(*final(self), *old(self), extent),
            retired@ == old(self).all_handles(),
    {
        let n = self.amount_of_images;
        let n64 = n as u64;
        let base = self.next_handle;
        let mut retired: Vec<u64> = Vec::new();
        push_all(&mut retired, &self.image_available);
        push_all(&mut retired, &self.rendering_finished);
        push_all(&mut retired, &self.may_begin_drawing);
        self.image_available = fresh_handles(base, n);
        self.rendering_finished = fresh_handles(base + n64, n);
        self.may_begin_drawing = fresh_handles(base + 2 * n64, n);
        self.extent = extent;
        self.next_handle = base + 3 * n64;
        proof {
            let n_ = n as int;
            assert forall|k: int| 0 <= k < self.all_handles().len() implies #[trigger] self
                .all_handles()[k] == base + k by {
                if k < n_ {
                    assert(self.all_handles()[k] == self.image_available@[k]);
                } else if k < 2 * n_ {
                    assert(self.all_handles()[k] == self.rendering_finished@[k - n_]);
                } else {
                    assert(self.all_handles()[k] == self.may_begin_drawing@[k - 2 * n_]);
                }
            }
        }
        retired
    }
}

/// Law: in every well-formed swapchain state, the rotating slot index
/// equals the number of frames submitted so far modulo the image count.
/// `new` establishes this and `advance` and `recreate` preserve it, so it
/// holds over any sequence of submitted frames.
pub proof fn lemma_slot_tracks_frames(s: SwapchainState)
    requires
        s.wf(),
    ensures
        s.current_image as int == s.frames_rendered as int % s.amount_of_images as int,
{
}

/// Law: recreating the swapchain twice in succession over an unchanged
/// extent yields synchronization arrays of identical lengths, and no
/// handle is duplicated: the second generation holds pairwise distinct
/// handles, none of which survives from the first.
pub proof fn lemma_recreation_idempotent(
    s0: SwapchainState,
    s1: SwapchainState,
    s2: SwapchainState,
    extent: Extent2D,
)
    requires
        s0.wf(),
        recreated_from(s1, s0, extent),
        recreated_from(s2, s1, extent),
    ensures
        s2.image_available@.len() == s1.image_available@.len(),
        s2.rendering_finished@.len() == s1.rendering_finished@.len(),
        s2.may_begin_drawing@.len() == s1.may_begin_drawing@.len(),
        s2.extent == s1.extent,
        forall|k: int, l: int|
            0 <= k < l < s2.all_handles().len()
                ==> #[trigger] s2.all_handles()[k] != #[trigger] s2.all_handles()[l],
        forall|k: int, l: int|
            0 <= k < s2.all_handles().len() && 0 <= l < s1.all_handles().len()
                ==> #[trigger] s2.all_handles()[k] != #[trigger] s1.all_handles()[l],
{
}

} // verus!
