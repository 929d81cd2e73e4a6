use vstd::prelude::*;
use crate::errors::RenderError;

verus! {

/// What the rendering core reads of one physical-device queue family:
/// how many queues it offers, which capabilities it reports, and whether
/// it can present to the target surface.
#[derive(Clone, Copy, Debug, PartialEq, Eq, Structural)]
pub struct QueueFamilyInfo {
    pub queue_count: u32,
    pub supports_graphics: bool,
    pub supports_transfer: bool,
    pub supports_surface: bool,
}

/// The queue-family indices selected at device initialisation.
/// Immutable once created.
#[derive(Clone, Copy, Debug, PartialEq, Eq, Structural)]
pub struct QueueFamilies {
    pub graphics_index: u32,
    pub transfer_index: u32,
}

/// A family that can serve as the graphics queue: it offers at least one
/// queue, supports graphics work, and can present to the surface.
pub open spec fn graphics_candidate(f: QueueFamilyInfo) -> bool {
    f.queue_count > 0 && f.supports_graphics && f.supports_surface
}

/// A family that can serve as the transfer queue.
pub open spec fn transfer_candidate(f: QueueFamilyInfo) -> bool {
    f.queue_count > 0 && f.supports_transfer
}

/// A transfer family without graphics capability: a true parallel copy
/// engine, preferred over a family shared with graphics.
pub open spec fn dedicated_transfer(f: QueueFamilyInfo) -> bool {
    transfer_candidate(f) && !f.supports_graphics
}

pub open spec fn has_graphics_candidate(fams: Seq<QueueFamilyInfo>) -> bool {
    exists|i: int| 0 <= i < fams.len() && graphics_candidate(#[trigger] fams[i])
}

pub open spec fn has_transfer_candidate(fams: Seq<QueueFamilyInfo>) -> bool {
    exists|i: int| 0 <= i < fams.len() && transfer_candidate(#[trigger] fams[i])
}

pub open spec fn has_dedicated_transfer(fams: Seq<QueueFamilyInfo>) -> bool {
    exists|i: int| 0 <= i < fams.len() && dedicated_transfer(#[trigger] fams[i])
}

/// `g` is the index the scan settles on for graphics: the last candidate.
pub open spec fn is_selected_graphics(fams: Seq<QueueFamilyInfo>, g: int) -> bool {
    &&& 0 <= g < fams.len()
    &&& graphics_candidate(fams[g])
    &&& forall|j: int| g < j < fams.len() ==> !graphics_candidate(#[trigger] fams[j])
}

/// `t` is the index the scan settles on for transfer: the last dedicated
/// transfer family if one exists, else the first transfer-capable family.
pub open spec fn is_selected_transfer(fams: Seq<QueueFamilyInfo>, t: int) -> bool {
    &&& 0 <= t < fams.len()
    &&& transfer_candidate(fams[t])
    &&& if has_dedicated_transfer(fams) {
            dedicated_transfer(fams[t])
            && forall|j: int| t < j < fams.len() ==> !dedicated_transfer(#[trigger] fams[j])
        } else {
            forall|j: int| 0 <= j < t ==> !transfer_candidate(#[trigger] fams[j])
        }
}

/// Scan the queue families and pick a graphics index and a transfer index.
///
/// The graphics pick is the last family that supports graphics work and
/// presentation; the transfer pick prefers the last family without graphics
/// capability and otherwise keeps the first transfer-capable one. Either
/// pick is `None` exactly when no family qualifies for it.
pub fn get_queue_indices(fams: &Vec<QueueFamilyInfo>) -> (r: (Option<u32>, Option<u32>))
    requires
        fams@.len() <= u32::MAX,
    ensures
        r.0 is Some <==> has_graphics_candidate(fams@),
        r.0 matches Some(g) ==> is_selected_graphics(fams@, g as int),
        r.1 is Some <==> has_transfer_candidate(fams@),
        r.1 matches Some(t) ==> is_selected_transfer(fams@, t as int),
{
    let mut graphics_index: Option<u32> = None;
    let mut transfer_index: Option<u32> = None;
    let n = fams.len();
    let mut i: usize = 0;
    while i < n
        invariant
            n == fams@.len(),
            n <= u32::MAX,
            i <= n,
            graphics_index is None ==> forall|j: int|
                0 <= j < i ==> !graphics_candidate(#[trigger] fams@[j]),
            graphics_index matches Some(g) ==> 0 <= g < i
                && graphics_candidate(fams@[g as int])
                && forall|j: int| g < j < i ==> !graphics_candidate(#[trigger] fams@[j]),
            transfer_index is None ==> forall|j: int|
                0 <= j < i ==> !transfer_candidate(#[trigger] fams@[j]),
            transfer_index matches Some(t) ==> 0 <= t < i
                && transfer_candidate(fams@[t as int])
                && (dedicated_transfer(fams@[t as int]) ==> forall|j: int|
                        t < j < i ==> !dedicated_transfer(#[trigger] fams@[j]))
                && (!dedicated_transfer(fams@[t as int]) ==> (forall|j: int|
                        0 <= j < t ==> !transfer_candidate(#[trigger] fams@[j]))
                    && (forall|j: int|
                        0 <= j < i ==> !dedicated_transfer(#[trigger] fams@[j]))),
        decreases n - i,
    {
        let f = fams[i];
        if f.queue_count > 0 && f.supports_graphics && f.supports_surface {
            graphics_index = Some(i as u32);
        }
        if f.queue_count > 0 && f.supports_transfer {
            if transfer_index.is_none() || !f.supports_graphics {
                transfer_index = Some(i as u32);
            }
        }
        i = i + 1;
    }
    (graphics_index, transfer_index)
}

impl QueueFamilies {
    /// Select the queue families for the device, as the startup path does:
    /// succeeds exactly when some family supports graphics plus presentation
    /// and some family supports transfer; otherwise reports
    /// `QueueSelectionFailure`.
    pub fn select(fams: &Vec<QueueFamilyInfo>) -> (r: Result<QueueFamilies, RenderError>)
        requires
            fams@.len() <= u32::MAX,
        ensures
            r is Ok <==> has_graphics_candidate(fams@) && has_transfer_candidate(fams@),
            r matches Ok(q) ==> is_selected_graphics(fams@, q.graphics_index as int)
                && is_selected_transfer(fams@, q.transfer_index as int),
            r matches Err(e) ==> e == RenderError::QueueSelectionFailure,
    {
        let (g, t) = get_queue_indices(fams);
        match (g, t) {
            (Some(graphics_index), Some(transfer_index)) => Ok(QueueFamilies {
                graphics_index,
                transfer_index,
            }),
            _ => Err(RenderError::QueueSelectionFailure),
        }
    }
}

} // verus!
