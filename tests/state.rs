use shadertoy::shader_list::ShaderList;
use shadertoy::state::{Action, Key, State, SurfaceFault, WindowInput};
use shadertoy::surface::{first_srgb, srgb_format};

fn viewer() -> State {
    let list = ShaderList::new("p", "s", &[("1", "a"), ("2", "b"), ("3", "c")]);
    State::new(list, 800, 600)
}

#[test]
fn title_follows_navigation() {
    let mut state = viewer();
    assert_eq!(state.title(), "1");
    assert_eq!(state.current_shader(), ("1", String::from("pas")));
    let shader = state.input(Key::Right, true);
    assert_eq!(shader, Some(("2", String::from("pbs"))));
    assert_eq!(state.title(), "2");
    let shader = state.input(Key::Left, true);
    assert_eq!(shader, Some(("1", String::from("pas"))));
    let shader = state.input(Key::Left, true);
    assert_eq!(shader, Some(("3", String::from("pcs"))));
    assert_eq!(state.title(), "3");
}

#[test]
fn released_and_other_keys_are_not_consumed() {
    let mut state = viewer();
    assert_eq!(state.input(Key::Right, false), None);
    assert_eq!(state.input(Key::Other, true), None);
    assert_eq!(state.input(Key::Escape, true), None);
    assert_eq!(state.title(), "1");
}

#[test]
fn zero_sized_resize_is_ignored() {
    let mut state = viewer();
    assert!(!state.resize(0, 300));
    assert!(!state.resize(300, 0));
    assert!(!state.resize(0, 0));
    assert_eq!(state.surface_size(), (800, 600));
    assert_eq!(state.resolution(), (800, 600));
    assert!(state.resize(1024, 768));
    assert_eq!(state.surface_size(), (1024, 768));
    assert_eq!(state.resolution(), (1024, 768));
}

#[test]
fn handle_dispatches_window_events() {
    let mut state = viewer();
    assert_eq!(
        state.handle(WindowInput::Keyboard { key: Key::Right, pressed: true }),
        Action::Rebuild { title: "2", source: String::from("pbs") }
    );
    assert_eq!(
        state.handle(WindowInput::Keyboard { key: Key::Escape, pressed: true }),
        Action::Exit
    );
    assert_eq!(
        state.handle(WindowInput::Keyboard { key: Key::Escape, pressed: false }),
        Action::Ignore
    );
    assert_eq!(state.handle(WindowInput::CloseRequested), Action::Exit);
    assert_eq!(state.handle(WindowInput::Other), Action::Ignore);
    assert_eq!(
        state.handle(WindowInput::Resized { width: 0, height: 10 }),
        Action::Ignore
    );
    assert_eq!(state.resolution(), (800, 600));
    assert_eq!(
        state.handle(WindowInput::Resized { width: 640, height: 480 }),
        Action::Reconfigure { width: 640, height: 480 }
    );
    assert_eq!(state.resolution(), (640, 480));
    assert_eq!(state.title(), "2");
}

#[test]
fn surface_faults() {
    let mut state = viewer();
    state.resize(320, 200);
    assert_eq!(
        state.surface_fault(SurfaceFault::Lost),
        Action::Reconfigure { width: 320, height: 200 }
    );
    assert_eq!(state.surface_fault(SurfaceFault::OutOfMemory), Action::Exit);
    assert_eq!(state.surface_fault(SurfaceFault::Outdated), Action::Ignore);
    assert_eq!(state.surface_fault(SurfaceFault::Timeout), Action::Ignore);
}

#[test]
fn first_srgb_picks_first_marked() {
    assert_eq!(first_srgb(&[false, true, true]), Some(1));
    assert_eq!(first_srgb(&[true]), Some(0));
    assert_eq!(first_srgb(&[false, false]), None);
    assert_eq!(first_srgb(&[]), None);
}

#[test]
fn srgb_format_skips_linear_formats() {
    let formats = [
        wgpu::TextureFormat::Rgba8Unorm,
        wgpu::TextureFormat::Bgra8UnormSrgb,
        wgpu::TextureFormat::Rgba8UnormSrgb,
    ];
    assert_eq!(srgb_format(&formats), Some(wgpu::TextureFormat::Bgra8UnormSrgb));
    assert_eq!(
        srgb_format(&[wgpu::TextureFormat::Bgra8Unorm, wgpu::TextureFormat::Rgba16Float]),
        None
    );
    assert_eq!(srgb_format(&[]), None);
}
