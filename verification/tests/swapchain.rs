use vulkan_tutorial_rs::config::{DEFAULT_HEIGHT, DEFAULT_WIDTH};
use vulkan_tutorial_rs::swapchain_info::{
    choose_dimensions, choose_format, choose_image_count, choose_present_mode,
    choose_sharing_mode, Capabilities, ColorSpace, Format, PresentMode, SharingMode,
    SupportedPresentModes, COLOR_SPACE_SRGB_NONLINEAR, FORMAT_B8G8R8A8_SRGB,
    FORMAT_R8G8B8A8_UNORM,
};
use vulkan_tutorial_rs::SwapchainInfo;

const DISPLAY_P3_NONLINEAR: u32 = 1000104001;

fn pair(format: u32, color_space: u32) -> (Format, ColorSpace) {
    (Format { code: format }, ColorSpace { code: color_space })
}

fn modes(mailbox: bool, fifo: bool) -> SupportedPresentModes {
    SupportedPresentModes { immediate: false, mailbox, fifo, relaxed: false }
}

fn capabilities() -> Capabilities {
    Capabilities {
        min_image_count: 2,
        max_image_count: None,
        current_extent: None,
        min_image_extent: [400, 300],
        max_image_extent: [2000, 1500],
        supported_formats: vec![pair(FORMAT_R8G8B8A8_UNORM, COLOR_SPACE_SRGB_NONLINEAR)],
        present_modes: modes(true, true),
    }
}

#[test]
fn the_preferred_format_is_taken_where_it_is_listed() {
    let formats = vec![
        pair(FORMAT_R8G8B8A8_UNORM, COLOR_SPACE_SRGB_NONLINEAR),
        pair(FORMAT_B8G8R8A8_SRGB, COLOR_SPACE_SRGB_NONLINEAR),
    ];
    assert_eq!(
        *choose_format(&formats),
        pair(FORMAT_B8G8R8A8_SRGB, COLOR_SPACE_SRGB_NONLINEAR)
    );
}

#[test]
fn the_first_format_is_taken_where_the_preferred_one_is_missing() {
    let formats = vec![pair(FORMAT_R8G8B8A8_UNORM, COLOR_SPACE_SRGB_NONLINEAR)];
    assert_eq!(
        *choose_format(&formats),
        pair(FORMAT_R8G8B8A8_UNORM, COLOR_SPACE_SRGB_NONLINEAR)
    );
}

#[test]
fn the_preferred_format_in_another_colour_space_is_not_preferred() {
    let formats = vec![
        pair(FORMAT_R8G8B8A8_UNORM, DISPLAY_P3_NONLINEAR),
        pair(FORMAT_B8G8R8A8_SRGB, DISPLAY_P3_NONLINEAR),
        pair(FORMAT_R8G8B8A8_UNORM, COLOR_SPACE_SRGB_NONLINEAR),
    ];
    assert_eq!(*choose_format(&formats), pair(FORMAT_R8G8B8A8_UNORM, DISPLAY_P3_NONLINEAR));
}

#[test]
fn mailbox_is_taken_where_it_is_supported() {
    assert_eq!(choose_present_mode(&modes(true, true)), PresentMode::Mailbox);
    assert_eq!(choose_present_mode(&modes(true, false)), PresentMode::Mailbox);
}

#[test]
fn fifo_is_taken_where_mailbox_is_missing() {
    assert_eq!(choose_present_mode(&modes(false, true)), PresentMode::Fifo);
    let all_but_mailbox =
        SupportedPresentModes { immediate: true, mailbox: false, fifo: true, relaxed: true };
    assert_eq!(choose_present_mode(&all_but_mailbox), PresentMode::Fifo);
}

#[test]
fn a_fixed_extent_is_taken_as_it_is() {
    let mut c = capabilities();
    c.current_extent = Some([800, 600]);
    assert_eq!(choose_dimensions(&c, [1024, 768]), [800, 600]);
    assert_eq!(choose_dimensions(&c, [5000, 5000]), [800, 600]);
    assert_eq!(choose_dimensions(&c, [0, 0]), [800, 600]);
}

#[test]
fn a_fixed_extent_is_taken_even_outside_the_limits() {
    let mut c = capabilities();
    c.current_extent = Some([3000, 100]);
    c.min_image_extent = [500, 500];
    c.max_image_extent = [400, 400];
    assert_eq!(choose_dimensions(&c, [1024, 768]), [3000, 100]);
}

#[test]
fn a_request_within_the_limits_is_granted() {
    let c = capabilities();
    assert_eq!(choose_dimensions(&c, [1024, 768]), [1024, 768]);
    assert_eq!(choose_dimensions(&c, [DEFAULT_WIDTH, DEFAULT_HEIGHT]), [1024, 768]);
    assert_eq!(choose_dimensions(&c, [400, 1500]), [400, 1500]);
}

#[test]
fn a_request_above_the_limits_is_clamped_down() {
    let c = capabilities();
    assert_eq!(choose_dimensions(&c, [5000, 5000]), [2000, 1500]);
}

#[test]
fn a_request_below_the_limits_is_clamped_up() {
    let c = capabilities();
    assert_eq!(choose_dimensions(&c, [10, 20]), [400, 300]);
}

#[test]
fn each_axis_is_clamped_by_itself() {
    let c = capabilities();
    assert_eq!(choose_dimensions(&c, [5000, 20]), [2000, 300]);
    assert_eq!(choose_dimensions(&c, [20, 700]), [400, 700]);
}

#[test]
fn the_image_count_is_clamped_to_the_limit() {
    let mut c = capabilities();
    c.max_image_count = Some(2);
    assert_eq!(choose_image_count(&c), 2);
}

#[test]
fn the_image_count_is_one_above_the_least_without_a_limit() {
    let c = capabilities();
    assert_eq!(choose_image_count(&c), 3);
}

#[test]
fn the_image_count_is_one_above_the_least_below_the_limit() {
    let mut c = capabilities();
    c.max_image_count = Some(8);
    assert_eq!(choose_image_count(&c), 3);
    c.max_image_count = Some(3);
    assert_eq!(choose_image_count(&c), 3);
}

#[test]
fn a_limit_of_zero_is_no_limit() {
    let mut c = capabilities();
    c.max_image_count = Some(0);
    assert_eq!(choose_image_count(&c), 3);
}

#[test]
fn a_limit_below_the_least_count_is_still_kept() {
    let mut c = capabilities();
    c.min_image_count = 5;
    c.max_image_count = Some(4);
    assert_eq!(choose_image_count(&c), 4);
}

#[test]
fn the_greatest_least_count_works_under_a_limit() {
    let mut c = capabilities();
    c.min_image_count = u32::MAX;
    c.max_image_count = Some(u32::MAX);
    assert_eq!(choose_image_count(&c), u32::MAX);
    assert!(c.can_plan());
}

#[test]
fn one_family_for_both_roles_owns_the_images() {
    assert_eq!(choose_sharing_mode(0, 0), SharingMode::Exclusive);
    assert_eq!(choose_sharing_mode(5, 5), SharingMode::Exclusive);
}

#[test]
fn two_families_share_the_images() {
    assert_eq!(choose_sharing_mode(0, 1), SharingMode::Concurrent(vec![0, 1]));
    assert_eq!(choose_sharing_mode(4, 2), SharingMode::Concurrent(vec![4, 2]));
}

#[test]
fn planning_needs_a_format_a_mode_a_range_and_a_count_that_fits() {
    assert!(capabilities().can_plan());

    let mut c = capabilities();
    c.supported_formats = vec![];
    assert!(!c.can_plan());

    let mut c = capabilities();
    c.present_modes = modes(false, false);
    assert!(!c.can_plan());
    c.present_modes =
        SupportedPresentModes { immediate: true, mailbox: false, fifo: false, relaxed: true };
    assert!(!c.can_plan());

    let mut c = capabilities();
    c.min_image_extent = [400, 1600];
    assert!(!c.can_plan());
    c.current_extent = Some([800, 600]);
    assert!(c.can_plan());

    let mut c = capabilities();
    c.min_image_count = u32::MAX;
    assert!(!c.can_plan());
    c.max_image_count = Some(0);
    assert!(!c.can_plan());
}

#[test]
fn a_plan_holds_every_choice() {
    let mut c = capabilities();
    c.supported_formats = vec![
        pair(FORMAT_R8G8B8A8_UNORM, COLOR_SPACE_SRGB_NONLINEAR),
        pair(FORMAT_B8G8R8A8_SRGB, COLOR_SPACE_SRGB_NONLINEAR),
    ];
    c.max_image_count = Some(2);
    c.present_modes = modes(false, true);
    assert!(c.can_plan());
    let plan = SwapchainInfo::new(&c, [5000, 5000], 0, 1);
    assert_eq!(plan.num_images, 2);
    assert_eq!(plan.format, Format { code: FORMAT_B8G8R8A8_SRGB });
    assert_eq!(plan.color_space, ColorSpace { code: COLOR_SPACE_SRGB_NONLINEAR });
    assert_eq!(plan.dimensions, [2000, 1500]);
    assert_eq!(plan.sharing, SharingMode::Concurrent(vec![0, 1]));
    assert_eq!(plan.mode, PresentMode::Fifo);
}

#[test]
fn a_plan_on_one_family_with_a_fixed_extent() {
    let mut c = capabilities();
    c.current_extent = Some([800, 600]);
    let plan = SwapchainInfo::new(&c, [DEFAULT_WIDTH, DEFAULT_HEIGHT], 3, 3);
    assert_eq!(plan.num_images, 3);
    assert_eq!(plan.format, Format { code: FORMAT_R8G8B8A8_UNORM });
    assert_eq!(plan.color_space, ColorSpace { code: COLOR_SPACE_SRGB_NONLINEAR });
    assert_eq!(plan.dimensions, [800, 600]);
    assert_eq!(plan.sharing, SharingMode::Exclusive);
    assert_eq!(plan.mode, PresentMode::Mailbox);
}
