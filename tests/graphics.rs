use ocean_engine::graphics::{choose_surface_format, Extent, Graphics, SurfaceFailure, FRAME_LATENCY};
use std::time::Duration;

#[test]
fn new_context_takes_window_size() {
    let g = Graphics::new(800, 600);
    assert_eq!(g.viewport_size(), Extent { width: 800, height: 600 });
    assert!(g.is_init());
}

#[test]
fn resize_to_positive_size_reconfigures() {
    let mut g = Graphics::new(800, 600);
    let settings = g.resize((1600, 900)).expect("positive size reconfigures");
    assert_eq!(settings.width, 1600);
    assert_eq!(settings.height, 900);
    assert_eq!(settings.frame_latency, 2);
    assert_eq!(FRAME_LATENCY, 2);
    assert_eq!(g.viewport_size(), Extent { width: 1600, height: 900 });
}

#[test]
fn resize_with_zero_width_is_ignored() {
    let mut g = Graphics::new(800, 600);
    assert!(g.resize((0, 700)).is_none());
    assert_eq!(g.viewport_size(), Extent { width: 800, height: 600 });
}

#[test]
fn resize_with_zero_height_is_ignored() {
    let mut g = Graphics::new(800, 600);
    assert!(g.resize((1024, 0)).is_none());
    assert!(g.resize((0, 0)).is_none());
    assert_eq!(g.viewport_size(), Extent { width: 800, height: 600 });
}

#[test]
fn is_init_until_first_present() {
    let mut g = Graphics::new(640, 480);
    assert!(g.is_init());
    g.resize((320, 240));
    assert!(g.is_init());
    g.present();
    assert!(!g.is_init());
    g.resize((100, 100));
    g.resize((0, 100));
    assert!(!g.is_init());
    g.present();
    assert!(!g.is_init());
}

#[test]
fn dt_is_zero_before_first_present() {
    let g = Graphics::new(640, 480);
    assert_eq!(g.dt(), Duration::ZERO);
}

#[test]
fn dt_grows_after_present() {
    let mut g = Graphics::new(640, 480);
    g.present();
    let first = g.dt();
    let second = g.dt();
    assert!(second >= first);
}

#[test]
fn surface_format_prefers_first_srgb() {
    assert_eq!(choose_surface_format(&vec![false, true, true]), 1);
    assert_eq!(choose_surface_format(&vec![true, false]), 0);
    assert_eq!(choose_surface_format(&vec![false, false, false]), 0);
    assert_eq!(choose_surface_format(&vec![false, false, true]), 2);
}

#[test]
fn only_out_of_memory_is_fatal() {
    assert!(SurfaceFailure::OutOfMemory.is_fatal());
    assert!(!SurfaceFailure::Timeout.is_fatal());
    assert!(!SurfaceFailure::Outdated.is_fatal());
    assert!(!SurfaceFailure::Lost.is_fatal());
    assert!(!SurfaceFailure::Other.is_fatal());
}

#[test]
fn frames_need_a_positive_viewport() {
    let mut g = Graphics::new(0, 600);
    assert!(!g.can_acquire());
    assert!(!Graphics::new(800, 0).can_acquire());
    g.resize((800, 600));
    assert!(g.can_acquire());
    g.resize((0, 0));
    assert!(g.can_acquire());
}
