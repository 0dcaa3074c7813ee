use std::sync::atomic::Ordering;
use std::sync::Arc;

use adwaita_frames::camera::{
    update_default_camera_render_target, update_existing_cameras_render_target, RenderTarget,
    WindowRef,
};
use adwaita_frames::config::{AdwaitaHeaderBar, AdwaitaWindowConfig, AdwaitaWindowPlugin};
use adwaita_frames::frame::{FrameInfo, FrameSlot, TextureView};
use adwaita_frames::size::{size_from_report, Size, UNSET_DIMENSION};
use adwaita_frames::window::{
    decide_poll, send_frame_info_to_windows, take_frames, PollAction, Reallocation, WindowOpen,
    Windows, COMMAND_CAPACITY,
};

fn view(id: u64, width: u32, height: u32) -> Arc<TextureView> {
    Arc::new(TextureView { id, size: Size::new(width, height) })
}

fn report(request: &WindowOpen, width: i32, height: i32) {
    request.render_target_width.store(width, Ordering::SeqCst);
    request.render_target_height.store(height, Ordering::SeqCst);
}

#[test]
fn slot_take_returns_last_of_several_stores() {
    let mut slot = FrameSlot::new();
    slot.store(FrameInfo::new(view(1, 10, 10), 3));
    slot.store(FrameInfo::new(view(2, 20, 20), 4));
    slot.store(FrameInfo::new(view(3, 30, 40), 5));
    let taken = slot.take().expect("a frame was stored");
    assert_eq!(taken.texture_view.id, 3);
    assert_eq!(taken.dmabuf.size, Size::new(30, 40));
    assert_eq!(taken.dmabuf.fd, 5);
    assert!(slot.take().is_none());
}

#[test]
fn zero_dimensions_are_raised_to_one() {
    assert_eq!(size_from_report(0, 50), Some(Size::new(1, 50)));
    assert_eq!(size_from_report(0, 0), Some(Size::new(1, 1)));
    assert_eq!(size_from_report(800, 600), Some(Size::new(800, 600)));
}

#[test]
fn negative_dimensions_give_no_size() {
    assert_eq!(size_from_report(UNSET_DIMENSION, 50), None);
    assert_eq!(size_from_report(50, UNSET_DIMENSION), None);
    assert_eq!(size_from_report(-7, -3), None);
}

#[test]
fn decisions_for_a_size_sequence() {
    let last = Size::new(0, 0);
    let first = decide_poll(false, 800, 600, last);
    assert_eq!(first, PollAction::Reallocate(Size::new(800, 600)));
    let last = Size::new(800, 600);
    assert_eq!(decide_poll(false, 800, 600, last), PollAction::Skip);
    assert_eq!(
        decide_poll(false, 1024, 768, last),
        PollAction::Reallocate(Size::new(1024, 768))
    );
    assert_eq!(decide_poll(true, 1024, 768, last), PollAction::Close);
    assert_eq!(decide_poll(false, -1, -1, last), PollAction::Skip);
}

#[test]
fn reallocation_happens_only_when_the_size_changes() {
    let mut windows = Windows::new();
    let (handle, request) = windows.open_window(AdwaitaWindowConfig::default());
    let mut allocations = 0;
    for (tick, (w, h)) in [(800, 600), (800, 600), (1024, 768)].into_iter().enumerate() {
        report(&request, w, h);
        let requests = windows.poll();
        if tick == 1 {
            assert!(requests.is_empty());
        } else {
            let size = Size::new(w as u32, h as u32);
            assert_eq!(requests, vec![Reallocation { handle, size }]);
            assert!(windows.install_render_target(handle, view(tick as u64, size.width, size.height), 9));
            allocations += 1;
        }
    }
    assert_eq!(allocations, 2);
    let window = windows.window(handle).expect("still open");
    assert_eq!(window.last_render_target_size(), Size::new(1024, 768));
    assert_eq!(windows.registered_view(handle).expect("registered").id, 2);
}

#[test]
fn zero_size_report_allocates_one_pixel() {
    let mut windows = Windows::new();
    let (handle, request) = windows.open_window(AdwaitaWindowConfig::default());
    report(&request, 0, 50);
    assert_eq!(windows.poll(), vec![Reallocation { handle, size: Size::new(1, 50) }]);
}

#[test]
fn closing_before_any_size_allocates_nothing() {
    let mut windows = Windows::new();
    let (_, request) = windows.open_window(AdwaitaWindowConfig::default());
    request.closed.store(true, Ordering::SeqCst);
    let requests = windows.poll();
    assert!(requests.is_empty());
    assert_eq!(windows.len(), 0);
}

#[test]
fn closing_releases_the_registered_target() {
    let mut windows = Windows::new();
    let (handle, request) = windows.open_window(AdwaitaWindowConfig::default());
    report(&request, 64, 48);
    assert_eq!(windows.poll().len(), 1);
    assert!(windows.install_render_target(handle, view(1, 64, 48), 3));
    request.closed.store(true, Ordering::SeqCst);
    assert!(windows.poll().is_empty());
    assert!(windows.window(handle).is_none());
    assert!(windows.registered_view(handle).is_none());
}

#[test]
fn unset_size_leaves_last_size_unchanged() {
    let mut windows = Windows::new();
    let (handle, request) = windows.open_window(AdwaitaWindowConfig::default());
    assert!(windows.poll().is_empty());
    report(&request, UNSET_DIMENSION, 600);
    assert!(windows.poll().is_empty());
    report(&request, 800, UNSET_DIMENSION);
    assert!(windows.poll().is_empty());
    let window = windows.window(handle).expect("still open");
    assert_eq!(window.last_render_target_size(), Size::new(0, 0));
}

#[test]
fn frame_reaches_the_window_only_after_publish() {
    let mut windows = Windows::new();
    let (handle, request) = windows.open_window(AdwaitaWindowConfig::default());
    report(&request, 320, 200);
    assert_eq!(windows.poll().len(), 1);
    assert!(windows.install_render_target(handle, view(5, 320, 200), 11));

    let mut trace = Vec::new();
    let mut records = windows.extract_windows();
    trace.push("extract");
    assert_eq!(records.len(), 1);
    assert_eq!(records[0].frame_size(), Some(Size::new(320, 200)));
    assert!(request.shared_next_frame.take(Ordering::SeqCst).is_none());

    trace.push("render");
    send_frame_info_to_windows(&mut records);
    trace.push("publish");
    assert_eq!(trace, vec!["extract", "render", "publish"]);
    assert_eq!(records[0].frame_size(), None);

    let shown = request.shared_next_frame.take(Ordering::SeqCst).expect("published");
    assert_eq!(shown.dmabuf.size, Size::new(320, 200));
    assert_eq!(shown.dmabuf.fd, 11);
    assert_eq!(shown.texture_view.id, 5);
}

#[test]
fn extract_then_publish_leaves_nothing_pending() {
    let mut windows = Windows::new();
    let (handle, request) = windows.open_window(AdwaitaWindowConfig::default());
    report(&request, 100, 100);
    assert_eq!(windows.poll().len(), 1);
    assert!(windows.install_render_target(handle, view(1, 100, 100), 2));
    let mut records = windows.extract_windows();
    send_frame_info_to_windows(&mut records);
    assert!(windows.extract_windows().is_empty());
}

#[test]
fn newer_frame_replaces_unextracted_one() {
    let mut windows = Windows::new();
    let (handle, _request) = windows.open_window(AdwaitaWindowConfig::default());
    assert!(windows.install_render_target(handle, view(1, 100, 100), 2));
    assert!(windows.install_render_target(handle, view(2, 200, 150), 3));
    let records = windows.extract_windows();
    assert_eq!(records.len(), 1);
    assert_eq!(records[0].frame_size(), Some(Size::new(200, 150)));
}

#[test]
fn live_windows_hold_distinct_handles() {
    let mut windows = Windows::new();
    let mut handles = Vec::new();
    for _ in 0..64 {
        let (handle, _request) = windows.open_window(AdwaitaWindowConfig::default());
        assert!(!handles.contains(&handle));
        handles.push(handle);
    }
    assert_eq!(windows.len(), 64);
}

#[test]
fn install_refuses_unknown_handle_or_empty_view() {
    let mut windows = Windows::new();
    let (handle, _request) = windows.open_window(AdwaitaWindowConfig::default());
    let other = handle.wrapping_add(1);
    assert!(!windows.install_render_target(other, view(1, 10, 10), 2));
    assert!(!windows.install_render_target(handle, view(1, 0, 10), 2));
    assert!(windows.registered_view(handle).is_none());
    assert!(windows.registered_view(other).is_none());
}

#[test]
fn open_request_carries_config_and_open_channel() {
    let mut windows = Windows::new();
    let mut config = AdwaitaWindowConfig::default();
    config.title = "Viewer".to_string();
    let (_, request) = windows.open_window(config);
    assert_eq!(request.config.title, "Viewer");
    assert_eq!(request.render_target_width.load(Ordering::SeqCst), UNSET_DIMENSION);
    assert_eq!(request.render_target_height.load(Ordering::SeqCst), UNSET_DIMENSION);
    assert!(!request.closed.load(Ordering::SeqCst));
    assert!(matches!(request.recv_command.try_recv(), Err(flume::TryRecvError::Empty)));
}

#[test]
fn default_config_values() {
    let config = AdwaitaWindowConfig::default();
    assert_eq!(config.width, 1280);
    assert_eq!(config.height, 720);
    assert_eq!(config.title, "App");
    assert!(config.resizable);
    assert!(!config.maximized);
    assert!(!config.fullscreen);
    assert_eq!(config.header_bar, AdwaitaHeaderBar::Full);
    let plugin = AdwaitaWindowPlugin::default();
    assert_eq!(plugin.primary_window_config.expect("primary window").title, "App");
}

#[test]
fn cameras_on_primary_window_are_retargeted() {
    let mut windows = Windows::new();
    let (handle, _request) = windows.open_window(AdwaitaWindowConfig::default());
    let window = windows.window(handle).expect("open");
    assert_eq!(window.render_target(), RenderTarget::TextureView(handle));

    let primary = RenderTarget::Window(WindowRef::Primary);
    let other = RenderTarget::Window(WindowRef::Entity(4));
    assert_eq!(
        update_default_camera_render_target(primary, &vec![window]),
        RenderTarget::TextureView(handle)
    );
    assert_eq!(update_default_camera_render_target(other, &vec![window]), other);
    assert_eq!(update_default_camera_render_target(primary, &vec![]), primary);

    let mut cameras = vec![primary, other, RenderTarget::TextureView(7), primary];
    update_existing_cameras_render_target(&mut cameras, window);
    assert_eq!(
        cameras,
        vec![
            RenderTarget::TextureView(handle),
            other,
            RenderTarget::TextureView(7),
            RenderTarget::TextureView(handle)
        ]
    );
}

#[test]
fn applied_decisions_close_keep_and_request() {
    let mut windows = Windows::new();
    let (first, _r1) = windows.open_window(AdwaitaWindowConfig::default());
    let (second, _r2) = windows.open_window(AdwaitaWindowConfig::default());
    let (third, _r3) = windows.open_window(AdwaitaWindowConfig::default());
    assert!(windows.install_render_target(second, view(1, 30, 30), 4));
    assert!(windows.install_render_target(third, view(2, 40, 40), 5));
    let actions = vec![
        PollAction::Reallocate(Size::new(10, 20)),
        PollAction::Close,
        PollAction::Skip,
    ];
    let requests = windows.apply_polls(&actions);
    assert_eq!(requests, vec![Reallocation { handle: first, size: Size::new(10, 20) }]);
    assert_eq!(windows.len(), 2);
    assert!(windows.window(second).is_none());
    assert!(windows.registered_view(second).is_none());
    assert_eq!(windows.registered_view(third).expect("kept").id, 2);
    assert_eq!(
        windows.window(third).expect("kept").last_render_target_size(),
        Size::new(40, 40)
    );
}

#[test]
fn taken_frames_go_to_their_own_cells_once() {
    let mut windows = Windows::new();
    let (first, request_one) = windows.open_window(AdwaitaWindowConfig::default());
    let (_second, _request_two) = windows.open_window(AdwaitaWindowConfig::default());
    assert!(windows.install_render_target(first, view(8, 50, 60), 12));
    let mut records = windows.extract_windows();
    assert_eq!(records.len(), 1);
    let handoffs = take_frames(&mut records);
    assert_eq!(handoffs.len(), 1);
    assert!(Arc::ptr_eq(&handoffs[0].0, &request_one.shared_next_frame));
    assert_eq!(handoffs[0].1.dmabuf.size, Size::new(50, 60));
    assert_eq!(handoffs[0].1.dmabuf.fd, 12);
    assert_eq!(records[0].frame_size(), None);
    assert!(take_frames(&mut records).is_empty());
}

#[test]
fn second_publish_stores_nothing() {
    let mut windows = Windows::new();
    let (handle, request) = windows.open_window(AdwaitaWindowConfig::default());
    assert!(windows.install_render_target(handle, view(3, 70, 80), 6));
    let mut records = windows.extract_windows();
    send_frame_info_to_windows(&mut records);
    assert!(request.shared_next_frame.take(Ordering::SeqCst).is_some());
    send_frame_info_to_windows(&mut records);
    assert!(request.shared_next_frame.take(Ordering::SeqCst).is_none());
}

#[test]
fn command_channel_is_bounded() {
    let mut windows = Windows::new();
    let (handle, request) = windows.open_window(AdwaitaWindowConfig::default());
    let window = windows.window(handle).expect("open");
    assert_eq!(window.command_capacity(), Some(COMMAND_CAPACITY));
    assert_eq!(COMMAND_CAPACITY, 16);
    assert_eq!(request.recv_command.capacity(), Some(16));
}

#[test]
fn closing_one_window_keeps_the_others() {
    let mut windows = Windows::new();
    let (first, _r1) = windows.open_window(AdwaitaWindowConfig::default());
    let (second, _r2) = windows.open_window(AdwaitaWindowConfig::default());
    assert!(windows.install_render_target(first, view(1, 10, 10), 3));
    assert!(windows.close_window(first));
    assert!(!windows.close_window(first));
    assert_eq!(windows.len(), 1);
    assert!(windows.registered_view(first).is_none());
    assert!(windows.window(second).is_some());
}
