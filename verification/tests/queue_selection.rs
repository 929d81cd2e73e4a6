use render_core::errors::RenderError;
use render_core::queues::{get_queue_indices, QueueFamilies, QueueFamilyInfo};

fn family(
    queue_count: u32,
    supports_graphics: bool,
    supports_transfer: bool,
    supports_surface: bool,
) -> QueueFamilyInfo {
    QueueFamilyInfo { queue_count, supports_graphics, supports_transfer, supports_surface }
}

#[test]
fn dedicated_transfer_family_is_preferred() {
    let fams = vec![
        family(4, true, true, true),  // graphics + transfer + present
        family(2, false, true, false), // dedicated transfer engine
    ];
    let (graphics, transfer) = get_queue_indices(&fams);
    assert_eq!(graphics, Some(0));
    assert_eq!(transfer, Some(1));

    let q = QueueFamilies::select(&fams).unwrap();
    assert_eq!(q.graphics_index, 0);
    assert_eq!(q.transfer_index, 1);
}

#[test]
fn last_dedicated_transfer_family_wins() {
    let fams = vec![
        family(1, false, true, false),
        family(4, true, true, true),
        family(1, false, true, false),
    ];
    let (graphics, transfer) = get_queue_indices(&fams);
    assert_eq!(graphics, Some(1));
    assert_eq!(transfer, Some(2));
}

#[test]
fn shared_family_is_kept_when_no_dedicated_exists() {
    let fams = vec![family(4, true, true, true), family(2, true, true, true)];
    let (graphics, transfer) = get_queue_indices(&fams);
    // Graphics settles on the last candidate; transfer keeps the first
    // transfer-capable family since none is graphics-free.
    assert_eq!(graphics, Some(1));
    assert_eq!(transfer, Some(0));
}

#[test]
fn empty_families_are_ignored() {
    let fams = vec![family(0, true, true, true), family(1, true, true, true)];
    let (graphics, transfer) = get_queue_indices(&fams);
    assert_eq!(graphics, Some(1));
    assert_eq!(transfer, Some(1));
}

#[test]
fn graphics_without_presentation_does_not_qualify() {
    let fams = vec![family(1, true, true, false)];
    let (graphics, transfer) = get_queue_indices(&fams);
    assert_eq!(graphics, None);
    assert_eq!(transfer, Some(0));
    assert_eq!(QueueFamilies::select(&fams), Err(RenderError::QueueSelectionFailure));
}

#[test]
fn no_suitable_family_is_a_selection_failure() {
    assert_eq!(QueueFamilies::select(&Vec::new()), Err(RenderError::QueueSelectionFailure));
    let fams = vec![family(1, false, false, true)];
    assert_eq!(QueueFamilies::select(&fams), Err(RenderError::QueueSelectionFailure));
}
