use lesson5_camera::controller::{
    CameraController, ElementState, KeyboardInput, PhysicalSize, VirtualKeyCode, WindowEvent,
};
use lesson5_camera::event_loop::{Command, Event, SurfaceError};
use lesson5_camera::geometry::{
    index_buffer_contents, indices, vertex_desc, VertexFormat, VertexStepMode, VERTEX_COUNT,
};
use lesson5_camera::state::{State, SurfaceConfig, TextureChoice};
use lesson5_camera::surface::{choose_surface_format, first_offered, preferred_format_index};
use wgpu::TextureFormat;

fn key(key: VirtualKeyCode, state: ElementState) -> WindowEvent {
    WindowEvent::KeyboardInput(KeyboardInput { state, virtual_keycode: Some(key) })
}

fn ours(event: WindowEvent) -> Event {
    Event::WindowEvent { for_this_window: true, event }
}

#[test]
fn new_controller_has_no_key_down() {
    let c = CameraController::new();
    assert!(!c.is_forward_pressed && !c.is_backward_pressed);
    assert!(!c.is_left_pressed && !c.is_right_pressed);
}

#[test]
fn each_steering_key_sets_its_flag() {
    let cases = [
        (VirtualKeyCode::W, 0),
        (VirtualKeyCode::Up, 0),
        (VirtualKeyCode::S, 1),
        (VirtualKeyCode::Down, 1),
        (VirtualKeyCode::A, 2),
        (VirtualKeyCode::Left, 2),
        (VirtualKeyCode::D, 3),
        (VirtualKeyCode::Right, 3),
    ];
    for (k, which) in cases {
        let mut c = CameraController::new();
        assert!(c.process_events(&key(k, ElementState::Pressed)));
        let flags = [c.is_forward_pressed, c.is_backward_pressed, c.is_left_pressed, c.is_right_pressed];
        for (i, f) in flags.iter().enumerate() {
            assert_eq!(*f, i == which);
        }
    }
}

#[test]
fn other_events_are_not_consumed() {
    let mut c = CameraController::new();
    c.is_left_pressed = true;
    let before = c;
    assert!(!c.process_events(&key(VirtualKeyCode::Escape, ElementState::Pressed)));
    assert!(!c.process_events(&key(VirtualKeyCode::Other, ElementState::Pressed)));
    assert!(!c.process_events(&WindowEvent::KeyboardInput(KeyboardInput {
        state: ElementState::Pressed,
        virtual_keycode: None,
    })));
    assert!(!c.process_events(&WindowEvent::CloseRequested));
    assert!(!c.process_events(&WindowEvent::Resized(PhysicalSize { width: 1, height: 1 })));
    assert_eq!(c, before);
}

#[test]
fn release_undoes_press() {
    let mut c = CameraController::new();
    c.is_right_pressed = true;
    let before = c;
    c.process_events(&key(VirtualKeyCode::S, ElementState::Pressed));
    assert!(c.is_backward_pressed);
    c.process_events(&key(VirtualKeyCode::S, ElementState::Released));
    assert_eq!(c, before);
}

#[test]
fn handling_an_event_twice_is_handling_it_once() {
    let mut once = CameraController::new();
    let mut twice = CameraController::new();
    let e = key(VirtualKeyCode::A, ElementState::Pressed);
    once.process_events(&e);
    twice.process_events(&e);
    twice.process_events(&e);
    assert_eq!(once, twice);
}

#[test]
fn paired_keys_act_alike() {
    let mut a = CameraController::new();
    let mut b = CameraController::new();
    a.process_events(&key(VirtualKeyCode::D, ElementState::Pressed));
    b.process_events(&key(VirtualKeyCode::Right, ElementState::Pressed));
    assert_eq!(a, b);
}

#[test]
fn camera_moves_forward_only_when_far_enough() {
    let mut c = CameraController::new();
    c.process_events(&key(VirtualKeyCode::W, ElementState::Pressed));
    c.process_events(&key(VirtualKeyCode::Left, ElementState::Pressed));
    let far = c.camera_moves(true);
    assert!(far.forward && far.left && !far.backward && !far.right);
    let near = c.camera_moves(false);
    assert!(!near.forward && near.left);
    let idle = CameraController::new().camera_moves(true);
    assert!(!idle.forward && !idle.backward && !idle.left && !idle.right);
}

#[test]
fn circling_left_takes_over_when_both_sides_are_held() {
    let mut c = CameraController::new();
    c.process_events(&key(VirtualKeyCode::Right, ElementState::Pressed));
    assert!(c.camera_moves(true).right && !c.camera_moves(true).left);
    c.process_events(&key(VirtualKeyCode::A, ElementState::Pressed));
    let both = c.camera_moves(true);
    assert!(both.left && !both.right);
}

#[test]
fn first_offered_mode_is_used() {
    assert_eq!(first_offered(&vec![wgpu::PresentMode::Fifo, wgpu::PresentMode::Mailbox]), wgpu::PresentMode::Fifo);
    assert_eq!(
        first_offered(&vec![wgpu::CompositeAlphaMode::Opaque, wgpu::CompositeAlphaMode::PreMultiplied]),
        wgpu::CompositeAlphaMode::Opaque
    );
    assert_eq!(first_offered(&vec![7u32, 3u32]), 7);
}

#[test]
fn new_state_configures_surface_to_window_size() {
    let s = State::new(PhysicalSize { width: 800, height: 600 });
    assert_eq!(s.size(), PhysicalSize { width: 800, height: 600 });
    assert_eq!(s.config(), SurfaceConfig { width: 800, height: 600 });
    assert_eq!(s.camera_controller(), CameraController::new());
    let plan = s.render_plan();
    assert_eq!(plan.texture, TextureChoice::Diffuse);
    assert_eq!(plan.index_count, 9);
    assert_eq!(plan.instance_count, 1);
}

#[test]
fn resize_takes_drawable_sizes_only() {
    let mut s = State::new(PhysicalSize { width: 800, height: 600 });
    assert!(s.resize(PhysicalSize { width: 1024, height: 768 }));
    assert_eq!(s.size(), PhysicalSize { width: 1024, height: 768 });
    assert_eq!(s.config(), SurfaceConfig { width: 1024, height: 768 });
    assert!(!s.resize(PhysicalSize { width: 0, height: 768 }));
    assert!(!s.resize(PhysicalSize { width: 1024, height: 0 }));
    assert!(!s.resize(PhysicalSize { width: 0, height: 0 }));
    assert_eq!(s.size(), PhysicalSize { width: 1024, height: 768 });
    assert_eq!(s.config(), SurfaceConfig { width: 1024, height: 768 });
    assert!(s.resize(PhysicalSize { width: 1, height: 1 }));
    assert_eq!(s.config(), SurfaceConfig { width: 1, height: 1 });
}

#[test]
fn input_steers_the_controller() {
    let mut s = State::new(PhysicalSize { width: 10, height: 10 });
    assert!(s.input(&key(VirtualKeyCode::Down, ElementState::Pressed)));
    assert!(s.camera_controller().is_backward_pressed);
    assert!(!s.input(&WindowEvent::CloseRequested));
    assert_eq!(s.size(), PhysicalSize { width: 10, height: 10 });
}

#[test]
fn escape_and_close_exit() {
    let mut s = State::new(PhysicalSize { width: 10, height: 10 });
    assert_eq!(s.handle_event(&ours(key(VirtualKeyCode::Escape, ElementState::Pressed))), Command::Exit);
    assert_eq!(s.handle_event(&ours(WindowEvent::CloseRequested)), Command::Exit);
    assert_eq!(
        s.handle_event(&ours(key(VirtualKeyCode::Escape, ElementState::Released))),
        Command::Nothing
    );
    assert_eq!(
        s.handle_event(&Event::WindowEvent { for_this_window: false, event: WindowEvent::CloseRequested }),
        Command::Nothing
    );
}

#[test]
fn steering_keys_do_not_exit() {
    let mut s = State::new(PhysicalSize { width: 10, height: 10 });
    assert_eq!(s.handle_event(&ours(key(VirtualKeyCode::W, ElementState::Pressed))), Command::Nothing);
    assert!(s.camera_controller().is_forward_pressed);
    assert_eq!(s.handle_event(&ours(key(VirtualKeyCode::W, ElementState::Released))), Command::Nothing);
    assert!(!s.camera_controller().is_forward_pressed);
}

#[test]
fn resize_events_configure_the_surface() {
    let mut s = State::new(PhysicalSize { width: 10, height: 10 });
    assert_eq!(
        s.handle_event(&ours(WindowEvent::Resized(PhysicalSize { width: 640, height: 480 }))),
        Command::ConfigureSurface
    );
    assert_eq!(s.config(), SurfaceConfig { width: 640, height: 480 });
    assert_eq!(
        s.handle_event(&ours(WindowEvent::ScaleFactorChanged(PhysicalSize { width: 1280, height: 960 }))),
        Command::ConfigureSurface
    );
    assert_eq!(s.size(), PhysicalSize { width: 1280, height: 960 });
    assert_eq!(
        s.handle_event(&ours(WindowEvent::Resized(PhysicalSize { width: 0, height: 0 }))),
        Command::Nothing
    );
    assert_eq!(s.size(), PhysicalSize { width: 1280, height: 960 });
    assert_eq!(
        s.handle_event(&Event::WindowEvent {
            for_this_window: false,
            event: WindowEvent::Resized(PhysicalSize { width: 5, height: 5 }),
        }),
        Command::Nothing
    );
    assert_eq!(s.size(), PhysicalSize { width: 1280, height: 960 });
}

#[test]
fn redraw_events() {
    let mut s = State::new(PhysicalSize { width: 10, height: 10 });
    assert_eq!(s.handle_event(&Event::RedrawRequested { for_this_window: true }), Command::UpdateAndRender);
    assert_eq!(s.handle_event(&Event::RedrawRequested { for_this_window: false }), Command::Nothing);
    assert_eq!(s.handle_event(&Event::RedrawEventsCleared), Command::RequestRedraw);
    assert_eq!(s.handle_event(&Event::Other), Command::Nothing);
    assert_eq!(s.handle_event(&ours(WindowEvent::Other)), Command::Nothing);
}

#[test]
fn render_results() {
    let mut s = State::new(PhysicalSize { width: 10, height: 10 });
    assert_eq!(s.handle_render_result(Ok(())), Command::Nothing);
    assert_eq!(s.handle_render_result(Err(SurfaceError::Lost)), Command::ConfigureSurface);
    assert_eq!(s.handle_render_result(Err(SurfaceError::Outdated)), Command::ConfigureSurface);
    assert_eq!(s.handle_render_result(Err(SurfaceError::OutOfMemory)), Command::Exit);
    assert_eq!(s.handle_render_result(Err(SurfaceError::Timeout)), Command::WarnSurfaceTimeout);
    assert_eq!(s.size(), PhysicalSize { width: 10, height: 10 });
    assert_eq!(s.config(), SurfaceConfig { width: 10, height: 10 });
    let mut small = State::new(PhysicalSize { width: 1, height: 1 });
    assert_eq!(small.handle_render_result(Err(SurfaceError::Outdated)), Command::ConfigureSurface);
    assert_eq!(small.size(), PhysicalSize { width: 1, height: 1 });
}

#[test]
fn reachable_states_draw_the_default_texture() {
    let mut s = State::new(PhysicalSize { width: 300, height: 200 });
    let events = [
        ours(key(VirtualKeyCode::W, ElementState::Pressed)),
        ours(WindowEvent::Resized(PhysicalSize { width: 0, height: 40 })),
        ours(WindowEvent::ScaleFactorChanged(PhysicalSize { width: 640, height: 400 })),
        ours(key(VirtualKeyCode::Other, ElementState::Pressed)),
        Event::RedrawRequested { for_this_window: true },
    ];
    for e in events.iter() {
        s.handle_event(e);
        let plan = s.render_plan();
        assert_eq!(plan.texture, TextureChoice::Diffuse);
        assert_eq!(plan.index_count, 9);
        assert!(s.size().width > 0 && s.size().height > 0);
        assert_eq!(s.config(), SurfaceConfig { width: s.size().width, height: s.size().height });
    }
}

#[test]
fn pentagon_indices_form_triangles() {
    let idx = indices();
    assert_eq!(idx, vec![0, 1, 4, 1, 2, 4, 2, 3, 4]);
    assert_eq!(idx.len() % 3, 0);
    assert!(idx.iter().all(|i| *i < VERTEX_COUNT));
    for t in idx.chunks(3) {
        assert!(t[0] != t[1] && t[1] != t[2] && t[0] != t[2]);
    }
}

#[test]
fn index_buffer_holds_native_order_bytes() {
    let bytes = index_buffer_contents();
    assert_eq!(bytes.len(), 18);
    let expected: Vec<u8> = indices().iter().flat_map(|i| i.to_ne_bytes()).collect();
    assert_eq!(bytes, expected);
}

#[test]
fn vertex_layout_is_position_then_tex_coords() {
    let layout = vertex_desc();
    assert_eq!(layout.array_stride, 20);
    assert_eq!(layout.step_mode, VertexStepMode::Vertex);
    assert_eq!(layout.attributes.len(), 2);
    assert_eq!(layout.attributes[0].offset, 0);
    assert_eq!(layout.attributes[0].shader_location, 0);
    assert_eq!(layout.attributes[0].format, VertexFormat::Float32x3);
    assert_eq!(layout.attributes[1].offset, 12);
    assert_eq!(layout.attributes[1].shader_location, 1);
    assert_eq!(layout.attributes[1].format, VertexFormat::Float32x2);
    assert_eq!(VertexFormat::Float32x3.size(), 12);
    assert_eq!(VertexFormat::Float32x2.size(), 8);
    assert_eq!(std::mem::size_of::<[f32; 3]>() + std::mem::size_of::<[f32; 2]>(), 20);
}

#[test]
fn preferred_format_is_first_srgb_or_first() {
    assert_eq!(preferred_format_index(&vec![false, true, true]), 1);
    assert_eq!(preferred_format_index(&vec![true, false]), 0);
    assert_eq!(preferred_format_index(&vec![false, false, false]), 0);
    assert_eq!(preferred_format_index(&vec![false]), 0);
}

#[test]
fn surface_format_prefers_srgb() {
    assert_eq!(
        choose_surface_format(&vec![TextureFormat::Bgra8Unorm, TextureFormat::Rgba8UnormSrgb]),
        TextureFormat::Rgba8UnormSrgb
    );
    assert_eq!(
        choose_surface_format(&vec![TextureFormat::Bgra8UnormSrgb, TextureFormat::Rgba8UnormSrgb]),
        TextureFormat::Bgra8UnormSrgb
    );
    assert_eq!(
        choose_surface_format(&vec![TextureFormat::Rgba16Float, TextureFormat::Bgra8Unorm]),
        TextureFormat::Rgba16Float
    );
}
