use ferricia_mui::display::{DisplayInfo, DisplayModeInfo, DisplayRegistry, Rect};
use ferricia_mui::events::FloatBits;

fn info(name: &str) -> DisplayInfo {
    DisplayInfo {
        name: name.to_string(),
        bounds: Rect { x: 0, y: 0, w: 1920, h: 1080 },
        usable_bounds: Rect { x: 0, y: 30, w: 1920, h: 1050 },
        fullscreen_modes: vec![DisplayModeInfo {
            w: 1920,
            h: 1080,
            refresh_rate: FloatBits { bits: 60.0f32.to_bits() },
            pixel_density: FloatBits { bits: 1.0f32.to_bits() },
        }],
        hdr_enabled: false,
    }
}

#[test]
fn registry_refreshes_bounds_of_known_displays() {
    let mut reg = DisplayRegistry::new();
    reg.register(1, info("Main"));
    let moved = Rect { x: 1920, y: 0, w: 1920, h: 1080 };
    let usable = Rect { x: 1920, y: 0, w: 1920, h: 1040 };
    assert!(reg.refresh_bounds(1, moved, usable));
    let got = reg.get(1).unwrap();
    assert_eq!(got.bounds, moved);
    assert_eq!(got.usable_bounds, usable);
    assert_eq!(got.name, "Main");
    assert_eq!(got.fullscreen_modes.len(), 1);
    assert!(!reg.refresh_bounds(2, moved, usable));
    assert!(reg.get(2).is_none());
}

#[test]
fn registry_forgets_removed_displays() {
    let mut reg = DisplayRegistry::new();
    reg.register(1, info("Main"));
    reg.register(2, info("Side"));
    assert!(reg.forget(1));
    assert!(!reg.forget(1));
    assert!(reg.get(1).is_none());
    assert_eq!(reg.get(2).unwrap().name, "Side");
}
