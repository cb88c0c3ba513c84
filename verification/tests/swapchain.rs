use frame_presenter::setup::swapchain::{
    create, select_swapchain_extent, select_swapchain_present_mode,
    select_swapchain_surface_format, Extent2D, SurfaceCapabilities, SurfaceFormat,
    SwapchainCreateInfo, SwapchainDetails, COLOR_SPACE_SRGB_NONLINEAR, FORMAT_B8G8R8A8_UNORM,
    PRESENT_MODE_FIFO, PRESENT_MODE_MAILBOX, SHARING_MODE_CONCURRENT, SHARING_MODE_EXCLUSIVE,
};

fn capabilities() -> SurfaceCapabilities {
    SurfaceCapabilities {
        min_image_count: 2,
        max_image_count: 8,
        current_extent: Extent2D { width: u32::MAX, height: u32::MAX },
        min_image_extent: Extent2D { width: 100, height: 50 },
        max_image_extent: Extent2D { width: 4096, height: 2160 },
        current_transform: 1,
    }
}

const PREFERRED: SurfaceFormat =
    SurfaceFormat { format: FORMAT_B8G8R8A8_UNORM, color_space: COLOR_SPACE_SRGB_NONLINEAR };
const RGBA: SurfaceFormat = SurfaceFormat { format: 37, color_space: 0 };
const HDR: SurfaceFormat = SurfaceFormat { format: 64, color_space: 1000104008 };

#[test]
fn surface_format_prefers_bgra_srgb() {
    assert_eq!(select_swapchain_surface_format(&vec![RGBA, HDR, PREFERRED]), PREFERRED);
    assert_eq!(select_swapchain_surface_format(&vec![RGBA, PREFERRED, HDR]), PREFERRED);
    assert_eq!(select_swapchain_surface_format(&vec![PREFERRED, RGBA]), PREFERRED);
}

#[test]
fn surface_format_falls_back_to_the_first() {
    assert_eq!(select_swapchain_surface_format(&vec![HDR, RGBA]), HDR);
    assert_eq!(select_swapchain_surface_format(&vec![RGBA]), RGBA);
    let wrong_space = SurfaceFormat { format: FORMAT_B8G8R8A8_UNORM, color_space: 1 };
    assert_eq!(select_swapchain_surface_format(&vec![RGBA, wrong_space]), RGBA);
}

#[test]
fn present_mode_prefers_mailbox() {
    assert_eq!(select_swapchain_present_mode(&vec![0, PRESENT_MODE_FIFO, PRESENT_MODE_MAILBOX]), PRESENT_MODE_MAILBOX);
    assert_eq!(select_swapchain_present_mode(&vec![PRESENT_MODE_MAILBOX]), PRESENT_MODE_MAILBOX);
}

#[test]
fn present_mode_falls_back_to_fifo() {
    assert_eq!(select_swapchain_present_mode(&vec![0, PRESENT_MODE_FIFO, 3]), PRESENT_MODE_FIFO);
    assert_eq!(select_swapchain_present_mode(&vec![0]), PRESENT_MODE_FIFO);
}

#[test]
fn extent_is_the_surface_extent_where_it_has_one() {
    let mut caps = capabilities();
    caps.current_extent = Extent2D { width: 1280, height: 720 };
    assert_eq!(
        select_swapchain_extent(caps, Extent2D { width: 800, height: 600 }),
        Extent2D { width: 1280, height: 720 }
    );
}

#[test]
fn extent_is_the_window_size_within_the_limits() {
    let caps = capabilities();
    assert_eq!(
        select_swapchain_extent(caps, Extent2D { width: 800, height: 600 }),
        Extent2D { width: 800, height: 600 }
    );
    assert_eq!(
        select_swapchain_extent(caps, Extent2D { width: 10, height: 9000 }),
        Extent2D { width: 100, height: 2160 }
    );
    assert_eq!(
        select_swapchain_extent(caps, Extent2D { width: 5000, height: 0 }),
        Extent2D { width: 4096, height: 50 }
    );
}

#[test]
fn extent_takes_the_minimum_where_the_limits_cross() {
    let mut caps = capabilities();
    caps.min_image_extent = Extent2D { width: 500, height: 500 };
    caps.max_image_extent = Extent2D { width: 400, height: 400 };
    assert_eq!(
        select_swapchain_extent(caps, Extent2D { width: 450, height: 100 }),
        Extent2D { width: 500, height: 500 }
    );
}

fn details(caps: SurfaceCapabilities) -> SwapchainDetails {
    SwapchainDetails {
        capabilities: caps,
        formats: vec![RGBA, PREFERRED],
        present_modes: vec![PRESENT_MODE_FIFO],
    }
}

#[test]
fn create_asks_for_one_image_more_than_the_minimum() {
    let info = create(&details(capabilities()), 0, 0, Extent2D { width: 800, height: 600 });
    assert_eq!(
        info,
        SwapchainCreateInfo {
            min_image_count: 3,
            image_format: FORMAT_B8G8R8A8_UNORM,
            image_color_space: COLOR_SPACE_SRGB_NONLINEAR,
            image_extent: Extent2D { width: 800, height: 600 },
            image_sharing_mode: SHARING_MODE_EXCLUSIVE,
            queue_family_indices: vec![],
            pre_transform: 1,
            present_mode: PRESENT_MODE_FIFO,
        }
    );
}

#[test]
fn create_respects_the_maximum_image_count() {
    let mut caps = capabilities();
    caps.min_image_count = 3;
    caps.max_image_count = 3;
    assert_eq!(create(&details(caps), 0, 0, Extent2D { width: 1, height: 1 }).min_image_count, 3);
    caps.max_image_count = 0;
    assert_eq!(create(&details(caps), 0, 0, Extent2D { width: 1, height: 1 }).min_image_count, 4);
    caps.max_image_count = 4;
    assert_eq!(create(&details(caps), 0, 0, Extent2D { width: 1, height: 1 }).min_image_count, 4);
}

#[test]
fn create_shares_images_between_distinct_queue_families() {
    let info = create(&details(capabilities()), 2, 5, Extent2D { width: 800, height: 600 });
    assert_eq!(info.image_sharing_mode, SHARING_MODE_CONCURRENT);
    assert_eq!(info.queue_family_indices, vec![2, 5]);
}

#[test]
fn zero_area_extent() {
    assert!(Extent2D { width: 0, height: 600 }.is_zero_area());
    assert!(Extent2D { width: 800, height: 0 }.is_zero_area());
    assert!(!Extent2D { width: 1, height: 1 }.is_zero_area());
}

#[test]
fn swapchain_codes_are_the_ones_the_bindings_use() {
    assert_eq!(FORMAT_B8G8R8A8_UNORM, ash::vk::Format::B8G8R8A8_UNORM.as_raw());
    assert_eq!(COLOR_SPACE_SRGB_NONLINEAR, ash::vk::ColorSpaceKHR::SRGB_NONLINEAR.as_raw());
    assert_eq!(PRESENT_MODE_MAILBOX, ash::vk::PresentModeKHR::MAILBOX.as_raw());
    assert_eq!(PRESENT_MODE_FIFO, ash::vk::PresentModeKHR::FIFO.as_raw());
    assert_eq!(SHARING_MODE_EXCLUSIVE, ash::vk::SharingMode::EXCLUSIVE.as_raw());
    assert_eq!(SHARING_MODE_CONCURRENT, ash::vk::SharingMode::CONCURRENT.as_raw());
}
