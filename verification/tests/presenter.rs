use frame_presenter::presenter::{
    Action, Event, FatalError, FramePresenter, Phase, ERROR_OUT_OF_DATE_KHR, MAX_FRAMES_IN_FLIGHT,
    NO_TIMEOUT,
};
use frame_presenter::setup::frame_sync::{FrameSlot, Signal};
use frame_presenter::setup::swapchain::Extent2D;

fn idle_slot() -> FrameSlot {
    FrameSlot {
        image_available: Signal::Unsignaled,
        render_finished: Signal::Unsignaled,
        in_flight: Signal::Signaled,
    }
}

/// Drives one whole frame that is presented without trouble.
fn draw_frame(presenter: &mut FramePresenter, image_index: u32) {
    let slot = presenter.current_frame();
    assert_eq!(presenter.step(Event::Tick), Action::WaitForFence { slot, timeout: NO_TIMEOUT });
    assert_eq!(presenter.step(Event::FenceSignaled), Action::AcquireImage { slot, timeout: NO_TIMEOUT });
    assert_eq!(
        presenter.step(Event::ImageAcquired { image_index, suboptimal: false }),
        Action::Submit { slot, image_index }
    );
    assert_eq!(presenter.step(Event::Submitted), Action::Present { slot, image_index });
    assert_eq!(presenter.step(Event::Presented { suboptimal: false }), Action::FrameDone);
}

#[test]
fn new_presenter_is_idle_with_signaled_fences() {
    let presenter = FramePresenter::new(3, 800, 600);
    assert_eq!(presenter.phase(), Phase::Idle);
    assert_eq!(presenter.current_frame(), 0);
    assert_eq!(presenter.image_count(), 3);
    assert_eq!(presenter.window(), Extent2D { width: 800, height: 600 });
    assert!(!presenter.framebuffer_resized());
    assert!(!presenter.is_suspended());
    assert_eq!(presenter.frames_in_flight(), 0);
    assert_eq!(presenter.slot(0), Some(idle_slot()));
    assert_eq!(presenter.slot(1), Some(idle_slot()));
    assert_eq!(presenter.slot(MAX_FRAMES_IN_FLIGHT), None);
}

#[test]
fn frame_walks_wait_acquire_submit_present() {
    let mut presenter = FramePresenter::new(3, 800, 600);
    assert_eq!(presenter.step(Event::Tick), Action::WaitForFence { slot: 0, timeout: NO_TIMEOUT });
    assert_eq!(presenter.phase(), Phase::WaitingForFence);
    assert_eq!(presenter.step(Event::FenceSignaled), Action::AcquireImage { slot: 0, timeout: NO_TIMEOUT });
    assert_eq!(presenter.phase(), Phase::Acquiring);
    assert_eq!(
        presenter.step(Event::ImageAcquired { image_index: 2, suboptimal: false }),
        Action::Submit { slot: 0, image_index: 2 }
    );
    assert_eq!(presenter.phase(), Phase::Submitting { image_index: 2 });
    assert_eq!(presenter.slot(0).unwrap().image_available, Signal::Signaled);
    assert_eq!(presenter.step(Event::Submitted), Action::Present { slot: 0, image_index: 2 });
    assert_eq!(
        presenter.slot(0),
        Some(FrameSlot {
            image_available: Signal::Unsignaled,
            render_finished: Signal::Signaled,
            in_flight: Signal::Unsignaled,
        })
    );
    assert_eq!(presenter.frames_in_flight(), 1);
    assert_eq!(presenter.step(Event::Presented { suboptimal: false }), Action::FrameDone);
    assert_eq!(presenter.phase(), Phase::Idle);
    assert_eq!(presenter.current_frame(), 1);
    assert_eq!(presenter.slot(0).unwrap().render_finished, Signal::Unsignaled);
}

#[test]
fn frame_index_cycles_through_the_slots() {
    let mut presenter = FramePresenter::new(3, 800, 600);
    let mut seen = Vec::new();
    for frame in 0..6u32 {
        seen.push(presenter.current_frame());
        draw_frame(&mut presenter, frame % 3);
    }
    assert_eq!(seen, vec![0, 1, 0, 1, 0, 1]);
}

#[test]
fn at_most_two_frames_are_in_flight_over_many_frames() {
    let mut presenter = FramePresenter::new(3, 800, 600);
    let mut in_flight = Vec::new();
    for frame in 0..10u32 {
        draw_frame(&mut presenter, frame % 3);
        assert!(presenter.frames_in_flight() <= MAX_FRAMES_IN_FLIGHT);
        in_flight.push(presenter.frames_in_flight());
    }
    assert_eq!(in_flight, vec![1, 2, 2, 2, 2, 2, 2, 2, 2, 2]);
}

#[test]
fn waiting_retires_the_frame_submitted_on_the_slot() {
    let mut presenter = FramePresenter::new(3, 800, 600);
    draw_frame(&mut presenter, 0);
    draw_frame(&mut presenter, 1);
    assert_eq!(presenter.frames_in_flight(), 2);
    assert_eq!(presenter.step(Event::Tick), Action::WaitForFence { slot: 0, timeout: NO_TIMEOUT });
    assert_eq!(presenter.frames_in_flight(), 2);
    assert_eq!(presenter.step(Event::FenceSignaled), Action::AcquireImage { slot: 0, timeout: NO_TIMEOUT });
    assert_eq!(presenter.frames_in_flight(), 1);
    assert_eq!(presenter.slot(0).unwrap().in_flight, Signal::Signaled);
    assert_eq!(presenter.slot(1).unwrap().in_flight, Signal::Unsignaled);
}

#[test]
fn out_of_date_acquire_rebuilds_and_skips_the_frame() {
    let mut presenter = FramePresenter::new(3, 800, 600);
    presenter.step(Event::Tick);
    presenter.step(Event::FenceSignaled);
    assert_eq!(
        presenter.step(Event::AcquireFailed { code: ERROR_OUT_OF_DATE_KHR }),
        Action::RecreateSwapchain { width: 800, height: 600 }
    );
    assert_eq!(presenter.phase(), Phase::Rebuilding);
    assert_eq!(presenter.step(Event::SwapchainRecreated { image_count: 4 }), Action::FrameDone);
    assert_eq!(presenter.phase(), Phase::Idle);
    assert_eq!(presenter.image_count(), 4);
    assert_eq!(presenter.current_frame(), 1);
    assert_eq!(presenter.frames_in_flight(), 0);
    assert_eq!(presenter.slot(0), Some(idle_slot()));
}

#[test]
fn other_acquire_errors_are_fatal() {
    let mut presenter = FramePresenter::new(3, 800, 600);
    presenter.step(Event::Tick);
    presenter.step(Event::FenceSignaled);
    let error = FatalError::Vulkan { code: -4 };
    assert_eq!(presenter.step(Event::AcquireFailed { code: -4 }), Action::Abort { error });
    assert_eq!(presenter.phase(), Phase::Failed { error });
}

#[test]
fn suboptimal_acquire_still_submits() {
    let mut presenter = FramePresenter::new(3, 800, 600);
    presenter.step(Event::Tick);
    presenter.step(Event::FenceSignaled);
    assert_eq!(
        presenter.step(Event::ImageAcquired { image_index: 1, suboptimal: true }),
        Action::Submit { slot: 0, image_index: 1 }
    );
}

#[test]
fn image_index_without_command_buffer_is_fatal() {
    let mut presenter = FramePresenter::new(3, 800, 600);
    presenter.step(Event::Tick);
    presenter.step(Event::FenceSignaled);
    let error = FatalError::ImageIndexOutOfRange { image_index: 3 };
    assert_eq!(
        presenter.step(Event::ImageAcquired { image_index: 3, suboptimal: false }),
        Action::Abort { error }
    );
}

fn present(presenter: &mut FramePresenter) {
    presenter.step(Event::Tick);
    presenter.step(Event::FenceSignaled);
    presenter.step(Event::ImageAcquired { image_index: 0, suboptimal: false });
    presenter.step(Event::Submitted);
}

#[test]
fn suboptimal_present_rebuilds() {
    let mut presenter = FramePresenter::new(3, 800, 600);
    present(&mut presenter);
    assert_eq!(
        presenter.step(Event::Presented { suboptimal: true }),
        Action::RecreateSwapchain { width: 800, height: 600 }
    );
    assert_eq!(presenter.step(Event::SwapchainRecreated { image_count: 3 }), Action::FrameDone);
    assert_eq!(presenter.current_frame(), 1);
    assert_eq!(presenter.frames_in_flight(), 1);
}

#[test]
fn out_of_date_present_rebuilds() {
    let mut presenter = FramePresenter::new(3, 800, 600);
    present(&mut presenter);
    assert_eq!(
        presenter.step(Event::PresentFailed { code: ERROR_OUT_OF_DATE_KHR }),
        Action::RecreateSwapchain { width: 800, height: 600 }
    );
}

#[test]
fn other_present_errors_are_fatal() {
    let mut presenter = FramePresenter::new(3, 800, 600);
    present(&mut presenter);
    let error = FatalError::Vulkan { code: -1000000000 };
    assert_eq!(presenter.step(Event::PresentFailed { code: -1000000000 }), Action::Abort { error });
}

#[test]
fn resize_rebuilds_after_the_next_present_for_the_new_size() {
    let mut presenter = FramePresenter::new(3, 800, 600);
    assert_eq!(presenter.step(Event::Resized { width: 1024, height: 768 }), Action::Poll);
    assert!(presenter.framebuffer_resized());
    present(&mut presenter);
    assert_eq!(
        presenter.step(Event::Presented { suboptimal: false }),
        Action::RecreateSwapchain { width: 1024, height: 768 }
    );
    assert!(!presenter.framebuffer_resized());
    assert_eq!(presenter.step(Event::SwapchainRecreated { image_count: 3 }), Action::FrameDone);
    draw_frame(&mut presenter, 0);
}

#[test]
fn two_rebuilds_in_a_row_are_both_asked_for() {
    let mut presenter = FramePresenter::new(3, 800, 600);
    present(&mut presenter);
    assert_eq!(
        presenter.step(Event::Presented { suboptimal: true }),
        Action::RecreateSwapchain { width: 800, height: 600 }
    );
    assert_eq!(presenter.step(Event::SwapchainRecreated { image_count: 3 }), Action::FrameDone);
    presenter.step(Event::Tick);
    presenter.step(Event::FenceSignaled);
    assert_eq!(
        presenter.step(Event::AcquireFailed { code: ERROR_OUT_OF_DATE_KHR }),
        Action::RecreateSwapchain { width: 800, height: 600 }
    );
    assert_eq!(presenter.step(Event::SwapchainRecreated { image_count: 2 }), Action::FrameDone);
    assert_eq!(presenter.image_count(), 2);
}

#[test]
fn zero_area_window_suspends_presentation() {
    let mut presenter = FramePresenter::new(3, 800, 600);
    draw_frame(&mut presenter, 0);
    assert_eq!(presenter.step(Event::Resized { width: 0, height: 0 }), Action::Wait);
    assert!(presenter.is_suspended());
    for _ in 0..5 {
        assert_eq!(presenter.step(Event::Tick), Action::Suspended);
        assert_eq!(presenter.phase(), Phase::Idle);
    }
    assert_eq!(presenter.step(Event::OtherWindowEvent), Action::Poll);
    assert_eq!(presenter.step(Event::Resized { width: 640, height: 0 }), Action::Wait);
    assert_eq!(presenter.step(Event::Tick), Action::Suspended);
    assert_eq!(presenter.current_frame(), 1);
    assert_eq!(presenter.frames_in_flight(), 1);
}

#[test]
fn nonzero_resize_resumes_presentation() {
    let mut presenter = FramePresenter::new(3, 800, 600);
    presenter.step(Event::Resized { width: 0, height: 600 });
    assert_eq!(presenter.step(Event::Tick), Action::Suspended);
    assert_eq!(presenter.step(Event::Resized { width: 640, height: 480 }), Action::Poll);
    assert!(!presenter.is_suspended());
    present(&mut presenter);
    assert_eq!(
        presenter.step(Event::Presented { suboptimal: false }),
        Action::RecreateSwapchain { width: 640, height: 480 }
    );
}

#[test]
fn presenter_created_on_zero_area_window_is_suspended() {
    let mut presenter = FramePresenter::new(3, 0, 0);
    assert!(presenter.is_suspended());
    assert_eq!(presenter.step(Event::Tick), Action::Suspended);
}

#[test]
fn close_request_leaves_the_loop() {
    let mut presenter = FramePresenter::new(3, 800, 600);
    assert_eq!(presenter.step(Event::CloseRequested), Action::Exit);
    assert_eq!(presenter.phase(), Phase::Idle);
}

#[test]
fn unexpected_event_is_fatal_and_stays_fatal() {
    let mut presenter = FramePresenter::new(3, 800, 600);
    let error = FatalError::UnexpectedEvent;
    assert_eq!(presenter.step(Event::Submitted), Action::Abort { error });
    assert_eq!(presenter.phase(), Phase::Failed { error });
    assert_eq!(presenter.step(Event::Tick), Action::Abort { error });
    assert_eq!(presenter.step(Event::Resized { width: 1, height: 1 }), Action::Abort { error });
}

#[test]
fn failed_driver_call_is_fatal_in_every_waiting_phase() {
    let error = FatalError::Vulkan { code: -4 };
    let mut waiting = FramePresenter::new(3, 800, 600);
    waiting.step(Event::Tick);
    assert_eq!(waiting.step(Event::CallFailed { code: -4 }), Action::Abort { error });

    let mut submitting = FramePresenter::new(3, 800, 600);
    submitting.step(Event::Tick);
    submitting.step(Event::FenceSignaled);
    submitting.step(Event::ImageAcquired { image_index: 0, suboptimal: false });
    assert_eq!(submitting.step(Event::CallFailed { code: -4 }), Action::Abort { error });

    let mut rebuilding = FramePresenter::new(3, 800, 600);
    present(&mut rebuilding);
    rebuilding.step(Event::Presented { suboptimal: true });
    assert_eq!(rebuilding.step(Event::CallFailed { code: -4 }), Action::Abort { error });
}

#[test]
fn out_of_date_code_is_the_one_the_bindings_use() {
    assert_eq!(ERROR_OUT_OF_DATE_KHR, ash::vk::Result::ERROR_OUT_OF_DATE_KHR.as_raw());
    assert_eq!(MAX_FRAMES_IN_FLIGHT, 2);
    assert_eq!(NO_TIMEOUT, u64::MAX);
}
