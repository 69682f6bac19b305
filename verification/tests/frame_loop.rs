use material_triangle::frame::FramePlan;
use material_triangle::frame_loop::{AcquireError, Action, Event, FrameLoop, Phase};
use material_triangle::surface::{CompositeAlphaMode, PresentMode, SurfaceConfig, TextureUsage};

fn config(width: u32, height: u32) -> SurfaceConfig {
    SurfaceConfig::initial(wgpu::TextureFormat::Bgra8UnormSrgb, width, height)
}

fn idle(width: u32, height: u32) -> FrameLoop {
    FrameLoop::new(config(width, height))
}

fn in_phase(phase: Phase) -> FrameLoop {
    FrameLoop { phase, config: config(800, 600) }
}

const EVERY_PHASE: [Phase; 4] =
    [Phase::Idle, Phase::ResizePending, Phase::RenderPending, Phase::Closing];

const EVERY_EVENT: [Event; 10] = [
    Event::Resized { width: 640, height: 480 },
    Event::Resized { width: 0, height: 480 },
    Event::RedrawRequested,
    Event::CloseRequested,
    Event::Other,
    Event::Reconfigured,
    Event::FrameAcquired,
    Event::AcquireFailed(AcquireError::Timeout),
    Event::AcquireFailed(AcquireError::Outdated),
    Event::AcquireFailed(AcquireError::Lost),
];

#[test]
fn new_loop_is_idle_with_the_given_config() {
    let state = idle(800, 600);
    assert_eq!(state.phase, Phase::Idle);
    assert_eq!(state.config, config(800, 600));
}

#[test]
fn resize_stores_the_size_and_asks_for_one_reconfigure() {
    let mut state = idle(800, 600);
    let action = state.step(Event::Resized { width: 1024, height: 768 });
    assert_eq!(action, Action::Reconfigure(config(1024, 768)));
    assert_eq!(state.phase, Phase::ResizePending);
    assert_eq!(state.config.width, 1024);
    assert_eq!(state.config.height, 768);
}

#[test]
fn reconfigured_requests_a_redraw_and_returns_to_idle() {
    let mut state = idle(800, 600);
    state.step(Event::Resized { width: 1024, height: 768 });
    let action = state.step(Event::Reconfigured);
    assert_eq!(action, Action::RequestRedraw);
    assert_eq!(state.phase, Phase::Idle);
    assert_eq!(state.config, config(1024, 768));
}

#[test]
fn resize_keeps_everything_but_the_size() {
    let mut state = idle(800, 600);
    state.step(Event::Resized { width: 1, height: u32::MAX });
    assert_eq!(state.config.format, wgpu::TextureFormat::Bgra8UnormSrgb);
    assert_eq!(state.config.usage, TextureUsage::RenderAttachment);
    assert_eq!(state.config.present_mode, PresentMode::Fifo);
    assert_eq!(state.config.alpha_mode, CompositeAlphaMode::Auto);
    assert_eq!(state.config.width, 1);
    assert_eq!(state.config.height, u32::MAX);
}

#[test]
fn a_sequence_of_resizes_tracks_the_latest_size() {
    let sizes = [(640u32, 480u32), (1, 1), (1920, 1080), (1920, 1080), (300, 4000)];
    let mut state = idle(800, 600);
    let mut reconfigures = 0;
    let mut redraws = 0;
    for (width, height) in sizes {
        let first = state.step(Event::Resized { width, height });
        if let Action::Reconfigure(sent) = first {
            reconfigures += 1;
            assert_eq!(sent, config(width, height));
        }
        let second = state.step(Event::Reconfigured);
        if second == Action::RequestRedraw {
            redraws += 1;
        }
        assert_eq!(state.phase, Phase::Idle);
        assert_eq!((state.config.width, state.config.height), (width, height));
    }
    assert_eq!(reconfigures, sizes.len());
    assert_eq!(redraws, sizes.len());
    assert_eq!(state.config, config(300, 4000));
}

#[test]
fn zero_width_resize_is_ignored() {
    let mut state = idle(800, 600);
    let action = state.step(Event::Resized { width: 0, height: 600 });
    assert_eq!(action, Action::Wait);
    assert_eq!(state, idle(800, 600));
}

#[test]
fn zero_height_resize_is_ignored() {
    let mut state = idle(800, 600);
    let action = state.step(Event::Resized { width: 800, height: 0 });
    assert_eq!(action, Action::Wait);
    assert_eq!(state, idle(800, 600));
}

#[test]
fn zero_by_zero_resize_is_ignored_in_every_phase() {
    for phase in EVERY_PHASE {
        let mut state = in_phase(phase);
        let action = state.step(Event::Resized { width: 0, height: 0 });
        assert_eq!(action, Action::Wait);
        assert_eq!(state, in_phase(phase));
    }
}

#[test]
fn redraw_request_asks_for_a_frame() {
    let mut state = idle(800, 600);
    let action = state.step(Event::RedrawRequested);
    assert_eq!(action, Action::AcquireFrame);
    assert_eq!(state.phase, Phase::RenderPending);
    assert_eq!(state.config, config(800, 600));
}

#[test]
fn acquired_frame_is_rendered_with_the_triangle_pass() {
    let mut state = idle(800, 600);
    state.step(Event::RedrawRequested);
    let action = state.step(Event::FrameAcquired);
    assert_eq!(action, Action::Render(FramePlan::triangle()));
    assert_eq!(state.phase, Phase::Idle);
}

#[test]
fn every_acquire_failure_aborts_the_loop() {
    for error in [
        AcquireError::Timeout,
        AcquireError::Outdated,
        AcquireError::Lost,
        AcquireError::OutOfMemory,
    ] {
        let mut state = idle(800, 600);
        state.step(Event::RedrawRequested);
        let action = state.step(Event::AcquireFailed(error));
        assert_eq!(action, Action::Abort(error));
        assert_eq!(state.phase, Phase::Closing);
        assert_eq!(state.step(Event::RedrawRequested), Action::Wait);
        assert_eq!(state.step(Event::FrameAcquired), Action::Wait);
    }
}

#[test]
fn close_request_ends_the_loop_in_every_phase() {
    for phase in EVERY_PHASE {
        let mut state = in_phase(phase);
        let action = state.step(Event::CloseRequested);
        assert_eq!(action, Action::Exit);
        assert_eq!(state.phase, Phase::Closing);
        assert_eq!(state.config, config(800, 600));
    }
}

#[test]
fn nothing_is_rendered_after_a_close_request() {
    for phase in EVERY_PHASE {
        let mut state = in_phase(phase);
        state.step(Event::CloseRequested);
        for _ in 0..3 {
            for event in EVERY_EVENT {
                let action = state.step(event);
                let expected =
                    if event == Event::CloseRequested { Action::Exit } else { Action::Wait };
                assert_eq!(action, expected);
                assert_eq!(state, FrameLoop { phase: Phase::Closing, config: config(800, 600) });
            }
        }
    }
}

#[test]
fn close_request_while_a_frame_is_pending_drops_the_frame() {
    let mut state = idle(800, 600);
    assert_eq!(state.step(Event::RedrawRequested), Action::AcquireFrame);
    assert_eq!(state.step(Event::CloseRequested), Action::Exit);
    assert_eq!(state.step(Event::FrameAcquired), Action::Wait);
    assert_eq!(state.phase, Phase::Closing);
}

#[test]
fn close_request_while_a_reconfigure_is_pending_requests_no_redraw() {
    let mut state = idle(800, 600);
    state.step(Event::Resized { width: 10, height: 10 });
    assert_eq!(state.step(Event::CloseRequested), Action::Exit);
    assert_eq!(state.step(Event::Reconfigured), Action::Wait);
    assert_eq!(state.phase, Phase::Closing);
}

#[test]
fn other_events_are_ignored_in_every_phase() {
    for phase in EVERY_PHASE {
        let mut state = in_phase(phase);
        assert_eq!(state.step(Event::Other), Action::Wait);
        assert_eq!(state, in_phase(phase));
    }
}

#[test]
fn reports_that_were_not_asked_for_are_ignored_while_idle() {
    for event in [
        Event::Reconfigured,
        Event::FrameAcquired,
        Event::AcquireFailed(AcquireError::Lost),
    ] {
        let mut state = idle(800, 600);
        assert_eq!(state.step(event), Action::Wait);
        assert_eq!(state, idle(800, 600));
    }
}

#[test]
fn only_the_awaited_report_is_acted_on_while_a_reconfigure_is_pending() {
    for event in [
        Event::Resized { width: 5, height: 5 },
        Event::RedrawRequested,
        Event::FrameAcquired,
        Event::AcquireFailed(AcquireError::Outdated),
        Event::Other,
    ] {
        let mut state = in_phase(Phase::ResizePending);
        assert_eq!(state.step(event), Action::Wait);
        assert_eq!(state, in_phase(Phase::ResizePending));
    }
}

#[test]
fn only_the_awaited_report_is_acted_on_while_a_frame_is_pending() {
    for event in [
        Event::Resized { width: 5, height: 5 },
        Event::RedrawRequested,
        Event::Reconfigured,
        Event::Other,
    ] {
        let mut state = in_phase(Phase::RenderPending);
        assert_eq!(state.step(event), Action::Wait);
        assert_eq!(state, in_phase(Phase::RenderPending));
    }
}

#[test]
fn resize_then_redraw_runs_one_full_cycle() {
    let mut state = idle(800, 600);
    let mut actions = Vec::new();
    for event in [
        Event::Resized { width: 400, height: 300 },
        Event::Reconfigured,
        Event::RedrawRequested,
        Event::FrameAcquired,
        Event::CloseRequested,
        Event::RedrawRequested,
    ] {
        actions.push(state.step(event));
    }
    assert_eq!(
        actions,
        vec![
            Action::Reconfigure(config(400, 300)),
            Action::RequestRedraw,
            Action::AcquireFrame,
            Action::Render(FramePlan::triangle()),
            Action::Exit,
            Action::Wait,
        ]
    );
}
