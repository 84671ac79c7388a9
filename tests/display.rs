use robotica_remote::badge::{
    get_image_category, get_image_file, get_overlay_text, image_origin, loading_text_origin,
    overlay_layout, panel_index, ImageCategory, Point,
};
use robotica_remote::controllers::{DisplayState, Icon};
use robotica_remote::display::DisplayCommand;
use robotica_remote::leds::{color_of_state, LedStrip, Rgb};

fn show(state: DisplayState, id: u32) -> DisplayCommand {
    DisplayCommand::DisplayState(state, Icon::Light, id, "x".to_string())
}

const DIM: Rgb = Rgb { r: 1, g: 1, b: 1 };
const GREEN: Rgb = Rgb { r: 0, g: 1, b: 0 };
const BLUE: Rgb = Rgb { r: 0, g: 0, b: 1 };
const BLACK: Rgb = Rgb { r: 0, g: 0, b: 0 };

#[test]
fn strip_starts_dim_white() {
    let s = LedStrip::new();
    assert_eq!(s.current_frame(), vec![DIM; 16]);
    assert!(!s.is_blank());
}

#[test]
fn device_ranges() {
    let mut s = LedStrip::new();
    let f = s.apply(&show(DisplayState::On, 2)).unwrap();
    for i in 0..16 {
        let expected = if [14, 15, 0, 1].contains(&i) { GREEN } else { DIM };
        assert_eq!(f[i], expected);
    }
    let f = s.apply(&show(DisplayState::Off, 0)).unwrap();
    assert_eq!(&f[2..6], &[BLUE; 4]);
    assert_eq!(f[6], DIM);
    assert!(s.apply(&show(DisplayState::Off, 4)).is_none());
}

#[test]
fn blank_then_unblank_restores() {
    let mut s = LedStrip::new();
    s.apply(&show(DisplayState::On, 1));
    let before = s.current_frame();
    assert_eq!(s.apply(&DisplayCommand::BlankAll), Some(vec![BLACK; 16]));
    assert!(s.apply(&DisplayCommand::ShowPage(2)).is_none());
    assert_eq!(s.apply(&DisplayCommand::UnBlankAll), Some(before));
}

#[test]
fn updates_while_blank_are_tracked() {
    let mut s = LedStrip::new();
    s.apply(&DisplayCommand::BlankAll);
    assert!(s.apply(&show(DisplayState::Off, 3)).is_none());
    let f = s.apply(&DisplayCommand::UnBlankAll).unwrap();
    assert_eq!(&f[10..14], &[BLUE; 4]);
    assert_eq!(f[0], DIM);
}

#[test]
fn state_colours() {
    assert_eq!(color_of_state(DisplayState::Error), Rgb { r: 1, g: 0, b: 0 });
    assert_eq!(color_of_state(DisplayState::OnOther), Rgb { r: 0, g: 1, b: 1 });
    assert_eq!(color_of_state(DisplayState::HardOff), BLACK);
}

#[test]
fn badge_pictures_and_captions() {
    assert_eq!(get_image_category(DisplayState::Unknown), ImageCategory::Off);
    assert_eq!(get_image_category(DisplayState::OnOther), ImageCategory::OnOther);
    assert_eq!(get_image_file(ImageCategory::HardOff, Icon::Fan), "fan_hard_off_64x64.tga");
    assert_eq!(get_image_file(ImageCategory::On, Icon::Light), "light_on_64x64.tga");
    assert_eq!(get_overlay_text(DisplayState::Unknown).as_deref(), Some("Lost"));
    assert_eq!(get_overlay_text(DisplayState::Error).as_deref(), Some("Error"));
    assert_eq!(get_overlay_text(DisplayState::On), None);
    assert_eq!(panel_index(1), Some(1));
    assert_eq!(panel_index(2), None);
}

#[test]
fn badge_layout() {
    assert_eq!(image_origin(Point { x: 64, y: 32 }, 64, 64), Point { x: 32, y: 0 });
    let l = overlay_layout(64, 63);
    assert_eq!(l.box_origin, Point { x: 34, y: 33 });
    assert_eq!(l.text_anchor, Point { x: 64, y: 50 });
    assert_eq!(loading_text_origin(64), Point { x: 10, y: 27 });
}
