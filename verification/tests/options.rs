use min_gl::options::{
    center, ContextConfig, OpenGlProfileHint, Options, Placement, VideoMode, WindowHint,
    WindowMode, WindowRequest,
};

fn sample() -> Options {
    Options {
        width: 1280,
        height: 720,
        title: String::from("Display Test"),
        fullscreen: false,
        decorated: true,
        msaa: Some(16),
        vsync: true,
    }
}

#[test]
fn config_lists_the_hints_in_order() {
    let hints = sample().config(false);
    assert_eq!(
        hints,
        vec![
            WindowHint::Resizable(false),
            WindowHint::Decorated(true),
            WindowHint::Samples(Some(16)),
            WindowHint::ContextVersion(4, 6),
            WindowHint::OpenGlForwardCompat(true),
            WindowHint::OpenGlProfile(OpenGlProfileHint::Core),
        ]
    );
}

#[test]
fn config_asks_for_a_debug_context_in_debug_builds() {
    let hints = sample().config(true);
    assert_eq!(hints.len(), 7);
    assert_eq!(hints[..6], sample().config(false)[..]);
    assert_eq!(hints[6], WindowHint::OpenGlDebugContext(true));
}

#[test]
fn config_follows_the_options() {
    let mut options = sample();
    options.decorated = false;
    options.msaa = None;
    let hints = options.config(false);
    assert_eq!(hints[1], WindowHint::Decorated(false));
    assert_eq!(hints[2], WindowHint::Samples(None));
}

#[test]
fn create_asks_for_a_floating_window() {
    assert_eq!(
        sample().create(),
        WindowRequest {
            width: 1280,
            height: 720,
            title: String::from("Display Test"),
            mode: WindowMode::Windowed,
        }
    );
}

#[test]
fn create_asks_for_the_whole_monitor() {
    let mut options = sample();
    options.fullscreen = true;
    options.title = String::new();
    assert_eq!(
        options.create(),
        WindowRequest { width: 1280, height: 720, title: String::new(), mode: WindowMode::FullScreen }
    );
}

#[test]
fn place_centres_the_window_and_the_cursor() {
    let placement = sample().place(VideoMode { width: 1920, height: 1080 });
    assert_eq!(placement, Placement { x: 320, y: 180, cursor_x2: 1280, cursor_y2: 720 });
}

#[test]
fn place_of_a_window_that_fills_the_monitor() {
    let placement = sample().place(VideoMode { width: 1280, height: 720 });
    assert_eq!((placement.x, placement.y), (0, 0));
}

#[test]
fn place_of_a_window_larger_than_the_monitor() {
    let placement = sample().place(VideoMode { width: 640, height: 480 });
    assert_eq!((placement.x, placement.y), (-320, -120));
}

#[test]
fn center_rounds_toward_zero() {
    assert_eq!(center(10, 7), 1);
    assert_eq!(center(7, 10), -1);
    assert_eq!(center(1, 0), 0);
    assert_eq!(center(0, 1), 0);
    assert_eq!(center(5, 5), 0);
}

#[test]
fn center_at_the_limits() {
    assert_eq!(center(u32::MAX, 0), i32::MAX);
    assert_eq!(center(0, u32::MAX), -i32::MAX);
    assert_eq!(center(u32::MAX, u32::MAX), 0);
    assert_eq!(center(0, 0), 0);
}

#[test]
fn cursor_of_an_odd_window_is_on_the_half_pixel() {
    let mut options = sample();
    options.width = 801;
    options.height = 1;
    let placement = options.place(VideoMode { width: 801, height: 600 });
    assert_eq!((placement.cursor_x2, placement.cursor_y2), (801, 1));
    assert_eq!((placement.x, placement.y), (0, 299));
}

#[test]
fn config_context_with_vsync_and_multisampling() {
    assert_eq!(
        sample().config_context(),
        ContextConfig {
            swap_interval: 1,
            viewport_x: 0,
            viewport_y: 0,
            viewport_width: 1280,
            viewport_height: 720,
            multisample: true,
        }
    );
}

#[test]
fn config_context_without_vsync_and_multisampling() {
    let mut options = sample();
    options.vsync = false;
    options.msaa = None;
    let config = options.config_context();
    assert_eq!(config.swap_interval, 0);
    assert!(!config.multisample);
    assert_eq!((config.viewport_width, config.viewport_height), (1280, 720));
}

#[test]
fn config_context_switches_multisampling_on_for_any_sample_count() {
    let mut options = sample();
    options.msaa = Some(0);
    assert!(options.config_context().multisample);
    options.msaa = Some(3);
    assert!(options.config_context().multisample);
}
