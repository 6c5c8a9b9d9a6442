use vulkan_tutorial_rs::logical_device::{queue_family_ids, queue_positions};
use vulkan_tutorial_rs::queue_families::{queue_family_by_id, QueueFamilies, QueueFamily};

fn family(id: u32, supports_graphics: bool, supports_present: bool) -> QueueFamily {
    QueueFamily { id, supports_graphics, supports_present }
}

#[test]
fn no_families_leave_both_roles_empty() {
    let found = QueueFamilies::new(&[]);
    assert!(!found._is_complete());
    assert_eq!(found.graphics_family(&[]), None);
    assert_eq!(found.present_family(&[]), None);
}

#[test]
fn one_family_may_serve_both_roles() {
    let families = [family(0, true, true), family(1, true, true)];
    let found = QueueFamilies::new(&families);
    assert!(found._is_complete());
    assert_eq!(found.graphics_family(&families), Some(families[0]));
    assert_eq!(found.present_family(&families), Some(families[0]));
}

#[test]
fn the_first_family_of_each_role_is_taken() {
    let families = [
        family(0, false, false),
        family(1, false, true),
        family(2, true, false),
        family(3, true, true),
    ];
    let found = QueueFamilies::new(&families);
    assert!(found._is_complete());
    assert_eq!(found.graphics_family(&families), Some(families[2]));
    assert_eq!(found.present_family(&families), Some(families[1]));
}

#[test]
fn a_missing_graphics_family_leaves_the_search_incomplete() {
    let families = [family(0, false, true), family(1, false, true)];
    let found = QueueFamilies::new(&families);
    assert!(!found._is_complete());
    assert_eq!(found.graphics_family(&families), None);
    assert_eq!(found.present_family(&families), Some(families[0]));
}

#[test]
fn a_missing_present_family_leaves_the_search_incomplete() {
    let families = [family(7, true, false)];
    let found = QueueFamilies::new(&families);
    assert!(!found._is_complete());
    assert_eq!(found.graphics_family(&families), Some(families[0]));
    assert_eq!(found.present_family(&families), None);
}

#[test]
fn the_search_reports_ids_and_not_positions() {
    let families = [family(10, false, false), family(20, true, false), family(30, false, true)];
    let found = QueueFamilies::new(&families);
    assert_eq!(found.graphics_family(&families).map(|f| f.id), Some(20));
    assert_eq!(found.present_family(&families).map(|f| f.id), Some(30));
}

#[test]
fn the_search_is_the_same_each_time() {
    let families = [family(0, false, true), family(1, true, false), family(2, true, true)];
    assert_eq!(QueueFamilies::new(&families), QueueFamilies::new(&families));
}

#[test]
fn a_family_is_looked_up_by_its_id() {
    let families = [family(4, true, false), family(9, false, true), family(4, false, false)];
    assert_eq!(queue_family_by_id(&families, 9), Some(families[1]));
    assert_eq!(queue_family_by_id(&families, 4), Some(families[0]));
    assert_eq!(queue_family_by_id(&families, 5), None);
}

#[test]
fn a_chosen_family_that_the_list_lacks_is_not_found() {
    let families = [family(1, true, true)];
    let found = QueueFamilies::new(&families);
    let others = [family(2, true, true)];
    assert_eq!(found.graphics_family(&others), None);
    assert_eq!(found.present_family(&others), None);
}

#[test]
fn opened_families_are_distinct_and_rising() {
    assert_eq!(queue_family_ids(2, 2), vec![2]);
    assert_eq!(queue_family_ids(1, 3), vec![1, 3]);
    assert_eq!(queue_family_ids(3, 1), vec![1, 3]);
    assert_eq!(queue_family_ids(0, u32::MAX), vec![0, u32::MAX]);
}

#[test]
fn each_role_has_its_place_among_the_opened_families() {
    assert_eq!(queue_positions(2, 2), (0, 0));
    assert_eq!(queue_positions(1, 3), (0, 1));
    assert_eq!(queue_positions(3, 1), (1, 0));
    for (graphics, present) in [(0, 0), (0, 9), (9, 0), (u32::MAX, 4)] {
        let ids = queue_family_ids(graphics, present);
        let (graphics_at, present_at) = queue_positions(graphics, present);
        assert_eq!(ids[graphics_at], graphics);
        assert_eq!(ids[present_at], present);
    }
}

#[test]
fn a_search_takes_one_family_at_a_time() {
    let mut found = QueueFamilies::none();
    assert!(!found._is_complete());
    assert!(found.wants_present());
    found.record(&family(4, true, false));
    assert!(found.wants_present());
    assert!(!found._is_complete());
    found.record(&family(5, true, true));
    assert!(!found.wants_present());
    assert!(found._is_complete());
    found.record(&family(6, true, true));
    let seen = [family(4, true, false), family(5, true, true), family(6, true, true)];
    assert_eq!(found, QueueFamilies::new(&seen));
    assert_eq!(found.graphics_family(&seen).map(|f| f.id), Some(4));
    assert_eq!(found.present_family(&seen).map(|f| f.id), Some(5));
}

#[test]
fn families_behind_a_complete_search_have_no_say() {
    let all = [
        family(0, false, true),
        family(1, true, false),
        family(2, true, true),
        family(3, true, true),
    ];
    assert_eq!(QueueFamilies::new(&all[..2]), QueueFamilies::new(&all));
    let unasked = [family(0, false, true), family(1, true, false)];
    assert_eq!(QueueFamilies::new(&unasked), QueueFamilies::new(&all));
}
