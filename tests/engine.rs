use tauri_plugin_iced::cursor::{convert_cursor_icon, CursorIcon, Interaction};
use tauri_plugin_iced::event::{
    convert_mouse_button, convert_window_event, is_relevant_event, ElementState, HostEvent,
    HostMouseButton, Modifiers, MouseButton, ToolkitEvent,
};
use tauri_plugin_iced::plugin::{frame_verdict, Action, FrameVerdict, IcedPlugin, LoopEvent};
use tauri_plugin_iced::registry::{Registry, StagingWindowWrapper};
use tauri_plugin_iced::surface::{
    negotiate_configuration, resize_configuration, select_alpha_mode, select_surface_format,
    CompositeAlphaMode, PresentMode, RenderError, SurfaceCapabilities, SurfaceError,
    SurfaceFormat,
};
use tauri_plugin_iced::window::{IcedWindow, RendererState, Viewport};

type Pos = (f32, f32);
type Ev = HostEvent<Pos, String, f32>;
type Win = IcedWindow<Pos, String, f32, u32>;
type Plugin = IcedPlugin<Pos, String, f32, u32>;
type Staging = StagingWindowWrapper<Pos, String, f32, u32>;

fn window(label: &str, width: u32, height: u32, scale: f32) -> Win {
    IcedWindow::new(label.to_string(), width, height, scale, 0)
}

fn window_event(label: &str, event: Ev) -> LoopEvent<Pos, String, f32> {
    LoopEvent::WindowEvent { label: Some(label.to_string()), event }
}

fn redraw(label: &str) -> LoopEvent<Pos, String, f32> {
    LoopEvent::RedrawRequested { label: Some(label.to_string()) }
}

fn shift() -> Modifiers {
    Modifiers { shift: true, control: false, alt: false, logo: false }
}

/// A dispatcher with `label` staged and promoted by a first redraw, whose
/// renderer is then created successfully.
fn ready_plugin(label: &str, width: u32, height: u32, scale: f32) -> (Plugin, Staging) {
    let mut plugin: Plugin = IcedPlugin::new();
    let mut staging: Staging = StagingWindowWrapper::new();
    staging.stage(window(label, width, height, scale));
    let action = plugin.on_event(&mut staging, redraw(label));
    assert!(matches!(action, Action::CreateRenderer { .. }));
    plugin.device_negotiated();
    assert!(plugin.renderer_created(&label.to_string(), true));
    (plugin, staging)
}

#[test]
fn cursor_icons_follow_interactions() {
    assert_eq!(convert_cursor_icon(Interaction::Pointer), CursorIcon::Hand);
    assert_eq!(convert_cursor_icon(Interaction::Unspecified), CursorIcon::Default);
    assert_eq!(convert_cursor_icon(Interaction::Hidden), CursorIcon::Default);
    assert_eq!(convert_cursor_icon(Interaction::Idle), CursorIcon::Default);
    assert_eq!(convert_cursor_icon(Interaction::Text), CursorIcon::Text);
    assert_eq!(convert_cursor_icon(Interaction::ResizingHorizontally), CursorIcon::EwResize);
    assert_eq!(convert_cursor_icon(Interaction::ResizingDiagonallyUp), CursorIcon::NwseResize);
    assert_eq!(convert_cursor_icon(Interaction::ZoomOut), CursorIcon::ZoomOut);
}

#[test]
fn mouse_buttons_translate() {
    assert_eq!(convert_mouse_button(HostMouseButton::Left), Some(MouseButton::Left));
    assert_eq!(convert_mouse_button(HostMouseButton::Other(7)), Some(MouseButton::Other(7)));
    assert_eq!(convert_mouse_button(HostMouseButton::Unsupported), None);
}

#[test]
fn relevance_of_host_events() {
    assert!(is_relevant_event(&Ev::Focused(true)));
    assert!(is_relevant_event(&Ev::MouseWheel));
    assert!(is_relevant_event(&Ev::ScaleFactorChanged(2.0)));
    assert!(!is_relevant_event(&Ev::Other));
    assert!(!is_relevant_event(&Ev::CloseRequested));
}

#[test]
fn translation_of_host_events() {
    let pressed = convert_window_event(
        Ev::KeyboardInput { key: "a".to_string(), state: ElementState::Pressed },
        shift(),
    );
    assert_eq!(pressed, Some(ToolkitEvent::KeyPressed { key: "a".to_string(), modifiers: shift() }));
    let released = convert_window_event(
        Ev::MouseInput { button: HostMouseButton::Right, state: ElementState::Released },
        Modifiers::empty(),
    );
    assert_eq!(released, Some(ToolkitEvent::ButtonReleased(MouseButton::Right)));
    let unmapped = convert_window_event(
        Ev::MouseInput { button: HostMouseButton::Unsupported, state: ElementState::Pressed },
        Modifiers::empty(),
    );
    assert_eq!(unmapped, None);
    assert_eq!(convert_window_event(Ev::MouseWheel, Modifiers::empty()), None);
    assert_eq!(convert_window_event(Ev::Focused(false), Modifiers::empty()), None);
}

#[test]
fn modifiers_update_before_keyboard_translation() {
    let mut w = window("main", 800, 600, 1.0);
    assert!(w.handle_event(Ev::ModifiersChanged(shift())));
    assert!(w.handle_event(Ev::KeyboardInput { key: "b".to_string(), state: ElementState::Released }));
    assert_eq!(w.modifiers, shift());
    assert_eq!(
        w.events[1],
        ToolkitEvent::KeyReleased { key: "b".to_string(), modifiers: shift() }
    );
}

#[test]
fn ignored_events_change_nothing() {
    let mut w = window("main", 800, 600, 1.0);
    assert!(!w.handle_event(Ev::Other));
    assert!(!w.handle_event(Ev::MouseWheel));
    assert!(!w.handle_event(Ev::Focused(true)));
    assert!(w.events.is_empty());
    assert!(!w.resized);
}

#[test]
fn queued_events_come_out_in_arrival_order() {
    let mut w = window("main", 800, 600, 2.0);
    assert!(w.handle_event(Ev::CursorMoved((10.0, 20.0))));
    assert!(w.handle_event(Ev::MouseInput { button: HostMouseButton::Left, state: ElementState::Pressed }));
    assert!(!w.handle_event(Ev::MouseWheel));
    assert!(w.handle_event(Ev::MouseInput { button: HostMouseButton::Left, state: ElementState::Released }));
    assert!(w.handle_event(Ev::KeyboardInput { key: "x".to_string(), state: ElementState::Pressed }));
    let taken = w.process_events();
    assert_eq!(
        taken,
        vec![
            ToolkitEvent::CursorMoved((10.0, 20.0)),
            ToolkitEvent::ButtonPressed(MouseButton::Left),
            ToolkitEvent::ButtonReleased(MouseButton::Left),
            ToolkitEvent::KeyPressed { key: "x".to_string(), modifiers: Modifiers::empty() },
        ]
    );
    assert!(w.events.is_empty());
    assert!(w.process_events().is_empty());
}

#[test]
fn three_resizes_reconfigure_once_to_the_last() {
    let mut w = window("main", 800, 600, 1.0);
    w.record_resize(100, 100);
    w.record_resize(200, 200);
    w.record_resize(300, 300);
    assert_eq!(
        w.apply_pending_resize(),
        Some(Viewport { width: 300, height: 300, scale_factor: 1.0 })
    );
    assert_eq!(w.apply_pending_resize(), None);
    assert_eq!(w.viewport, Viewport { width: 300, height: 300, scale_factor: 1.0 });
}

#[test]
fn scale_factor_change_marks_resize_pending() {
    let mut w = window("main", 800, 600, 1.0);
    assert!(!w.handle_event(Ev::ScaleFactorChanged(2.0)));
    assert!(w.resized);
    assert_eq!(
        w.apply_pending_resize(),
        Some(Viewport { width: 800, height: 600, scale_factor: 2.0 })
    );
}

#[test]
fn pointer_move_queues_logical_position() {
    let (mut plugin, mut staging) = ready_plugin("main", 800, 600, 1.0);
    let action = plugin.on_event(&mut staging, window_event("main", Ev::CursorMoved((400.0, 300.0))));
    assert_eq!(action, Action::RequestRedraw("main".to_string()));
    let w = &plugin.windows.windows[0];
    assert_eq!(w.cursor, Some((400.0, 300.0)));
    assert_eq!(w.events, vec![ToolkitEvent::CursorMoved((400.0, 300.0))]);
}

#[test]
fn host_resize_then_redraw_reconfigures_once() {
    let (mut plugin, mut staging) = ready_plugin("main", 800, 600, 2.0);
    let action = plugin.on_event(&mut staging, window_event("main", Ev::Resized { width: 1024, height: 768 }));
    assert_eq!(action, Action::Nothing);
    assert!(plugin.windows.windows[0].events.is_empty());
    assert_eq!(plugin.on_event(&mut staging, redraw("main")), Action::Draw("main".to_string()));
    let w = &mut plugin.windows.windows[0];
    assert_eq!(
        w.apply_pending_resize(),
        Some(Viewport { width: 1024, height: 768, scale_factor: 2.0 })
    );
    assert_eq!(w.apply_pending_resize(), None);
}

#[test]
fn failed_renderer_creation_is_retried() {
    let mut plugin: Plugin = IcedPlugin::new();
    let mut staging: Staging = StagingWindowWrapper::new();
    staging.stage(window("main", 800, 600, 1.0));
    let first = plugin.on_event(&mut staging, redraw("main"));
    assert_eq!(
        first,
        Action::CreateRenderer { label: "main".to_string(), width: 800, height: 600, negotiate_device: true }
    );
    assert!(!plugin.renderer_created(&"main".to_string(), false));
    assert_eq!(plugin.windows.len(), 1);
    assert_eq!(plugin.windows.windows[0].renderer, RendererState::Uninitialized);
    let second = plugin.on_event(&mut staging, redraw("main"));
    assert_eq!(second, first);
    assert!(plugin.renderer_created(&"main".to_string(), true));
    assert_eq!(plugin.on_event(&mut staging, redraw("main")), Action::Draw("main".to_string()));
}

#[test]
fn renderer_is_created_once_and_device_shared() {
    let (mut plugin, mut staging) = ready_plugin("main", 800, 600, 1.0);
    assert_eq!(plugin.on_event(&mut staging, redraw("main")), Action::Draw("main".to_string()));
    assert_eq!(plugin.on_event(&mut staging, redraw("main")), Action::Draw("main".to_string()));
    staging.stage(window("second", 640, 480, 1.0));
    assert_eq!(
        plugin.on_event(&mut staging, redraw("second")),
        Action::CreateRenderer { label: "second".to_string(), width: 640, height: 480, negotiate_device: false }
    );
}

#[test]
fn live_window_is_not_overwritten_by_staging() {
    let (mut plugin, mut staging) = ready_plugin("A", 800, 600, 1.0);
    staging.stage(window("A", 10, 10, 1.0));
    let _ = plugin.on_event(&mut staging, window_event("A", Ev::Focused(true)));
    assert_eq!(plugin.windows.len(), 1);
    assert_eq!(plugin.windows.windows[0].width, 800);
    assert_eq!(plugin.windows.windows[0].renderer, RendererState::Ready);
    assert!(staging.window.is_some());
    assert_eq!(plugin.on_event(&mut staging, window_event("A", Ev::CloseRequested)), Action::Nothing);
    assert_eq!(plugin.windows.len(), 0);
    let action = plugin.on_event(&mut staging, redraw("A"));
    assert_eq!(
        action,
        Action::CreateRenderer { label: "A".to_string(), width: 10, height: 10, negotiate_device: false }
    );
    assert_eq!(plugin.windows.len(), 1);
    assert!(staging.window.is_none());
}

#[test]
fn staging_keeps_the_latest_window() {
    let mut staging: Staging = StagingWindowWrapper::new();
    staging.stage(window("one", 1, 1, 1.0));
    staging.stage(window("two", 2, 2, 1.0));
    let mut registry: Registry<Pos, String, f32, u32> = Registry::new();
    registry.transfer_staging_window(&mut staging, &"one".to_string());
    assert_eq!(registry.len(), 0);
    registry.transfer_staging_window(&mut staging, &"two".to_string());
    assert_eq!(registry.len(), 1);
    assert!(registry.contains_key(&"two".to_string()));
    assert_eq!(registry.find(&"two".to_string()), Some(0));
    assert!(!registry.remove(&"one".to_string()));
    assert!(registry.remove(&"two".to_string()));
    assert_eq!(registry.len(), 0);
}

#[test]
fn unresolved_and_destroyed_loop_events_are_dropped() {
    let (mut plugin, mut staging) = ready_plugin("main", 800, 600, 1.0);
    let unresolved = LoopEvent::WindowEvent { label: None, event: Ev::CursorMoved((1.0, 1.0)) };
    assert_eq!(plugin.on_event(&mut staging, unresolved), Action::Nothing);
    assert_eq!(plugin.on_event(&mut staging, window_event("ghost", Ev::Focused(true))), Action::Nothing);
    assert_eq!(plugin.on_event(&mut staging, LoopEvent::Other), Action::Nothing);
    assert_eq!(plugin.on_event(&mut staging, LoopEvent::LoopDestroyed), Action::Nothing);
    assert!(plugin.destroyed);
    assert_eq!(plugin.on_event(&mut staging, redraw("main")), Action::Nothing);
    assert_eq!(plugin.on_event(&mut staging, window_event("main", Ev::CursorMoved((2.0, 2.0)))), Action::Nothing);
    assert!(plugin.windows.windows[0].events.is_empty());
}

#[test]
fn surface_format_prefers_non_srgb() {
    let formats = vec![
        SurfaceFormat { format: 1u32, srgb: true },
        SurfaceFormat { format: 2u32, srgb: true },
        SurfaceFormat { format: 3u32, srgb: false },
        SurfaceFormat { format: 4u32, srgb: false },
    ];
    assert_eq!(select_surface_format(&formats), Some(2));
    let all_srgb = vec![SurfaceFormat { format: 1u32, srgb: true }, SurfaceFormat { format: 2u32, srgb: true }];
    assert_eq!(select_surface_format(&all_srgb), Some(0));
    let none: Vec<SurfaceFormat<u32>> = Vec::new();
    assert_eq!(select_surface_format(&none), None);
}

#[test]
fn alpha_mode_prefers_non_opaque() {
    let modes = vec![CompositeAlphaMode::Opaque, CompositeAlphaMode::PreMultiplied, CompositeAlphaMode::Inherit];
    assert_eq!(select_alpha_mode(&modes), Some(1));
    assert_eq!(select_alpha_mode(&vec![CompositeAlphaMode::Opaque]), Some(0));
    assert_eq!(select_alpha_mode(&Vec::new()), None);
}

#[test]
fn negotiation_builds_the_initial_configuration() {
    let caps = SurfaceCapabilities {
        formats: vec![SurfaceFormat { format: 10u32, srgb: true }, SurfaceFormat { format: 11u32, srgb: false }],
        present_modes: vec![PresentMode::Fifo, PresentMode::Mailbox],
        alpha_modes: vec![CompositeAlphaMode::Opaque, CompositeAlphaMode::PostMultiplied],
    };
    let config = negotiate_configuration(&caps, 800, 600).unwrap();
    assert_eq!(config.format, 11);
    assert_eq!(config.alpha_mode, CompositeAlphaMode::PostMultiplied);
    assert_eq!(config.present_mode, PresentMode::AutoVsync);
    assert_eq!((config.width, config.height), (800, 600));
    assert_eq!(config.desired_maximum_frame_latency, 2);
}

#[test]
fn negotiation_errors() {
    let no_formats: SurfaceCapabilities<u32> = SurfaceCapabilities {
        formats: Vec::new(),
        present_modes: vec![PresentMode::Fifo],
        alpha_modes: vec![CompositeAlphaMode::Opaque],
    };
    assert!(matches!(negotiate_configuration(&no_formats, 1, 1), Err(RenderError::NoSurfaceFormat)));
    let no_alpha = SurfaceCapabilities {
        formats: vec![SurfaceFormat { format: 1u32, srgb: false }],
        present_modes: vec![PresentMode::Fifo],
        alpha_modes: Vec::new(),
    };
    assert!(matches!(negotiate_configuration(&no_alpha, 1, 1), Err(RenderError::NoAlphaMode)));
}

#[test]
fn resize_keeps_format_and_takes_first_modes() {
    let config = resize_configuration(7u32, &vec![PresentMode::Mailbox, PresentMode::Fifo], &vec![CompositeAlphaMode::Inherit], 300, 200);
    assert_eq!(config.format, 7);
    assert_eq!(config.present_mode, PresentMode::Mailbox);
    assert_eq!(config.alpha_mode, CompositeAlphaMode::Inherit);
    assert_eq!((config.width, config.height), (300, 200));
    let fallback = resize_configuration(7u32, &Vec::new(), &Vec::new(), 1, 2);
    assert_eq!(fallback.present_mode, PresentMode::AutoVsync);
    assert_eq!(fallback.alpha_mode, CompositeAlphaMode::Auto);
}

#[test]
fn frame_outcomes() {
    assert_eq!(frame_verdict(Ok(Some(Interaction::Pointer))), FrameVerdict::Continue(Some(CursorIcon::Hand)));
    assert_eq!(frame_verdict(Ok(None)), FrameVerdict::Continue(None));
    assert_eq!(frame_verdict(Err(RenderError::Frame(SurfaceError::OutOfMemory))), FrameVerdict::Abort);
    assert_eq!(frame_verdict(Err(RenderError::Frame(SurfaceError::Lost))), FrameVerdict::Continue(None));
    assert_eq!(frame_verdict(Err(RenderError::Backend("device lost".to_string()))), FrameVerdict::Continue(None));
}
