//! The badge's two monochrome panels: which picture and which caption show a
//! device's state, and where they are drawn.
use vstd::prelude::*;

use crate::controllers::{DisplayState, Icon};

verus! {

/// The picture that stands for a state.
#[derive(Clone, Copy, Debug, PartialEq, Eq, Structural)]
pub enum ImageCategory {
    HardOff,
    On,
    OnOther,
    Off,
}

pub open spec fn image_category(state: DisplayState) -> ImageCategory {
    match state {
        DisplayState::HardOff => ImageCategory::HardOff,
        DisplayState::Error => ImageCategory::Off,
        DisplayState::Unknown => ImageCategory::Off,
        DisplayState::On => ImageCategory::On,
        DisplayState::Off => ImageCategory::Off,
        DisplayState::OnOther => ImageCategory::OnOther,
    }
}

pub fn get_image_category(state: DisplayState) -> (r: ImageCategory)
    ensures
        r == image_category(state),
{
    match state {
        DisplayState::HardOff => ImageCategory::HardOff,
        DisplayState::Error => ImageCategory::Off,
        DisplayState::Unknown => ImageCategory::Off,
        DisplayState::On => ImageCategory::On,
        DisplayState::Off => ImageCategory::Off,
        DisplayState::OnOther => ImageCategory::OnOther,
    }
}

pub open spec fn icon_name(icon: Icon) -> Seq<char> {
    match icon {
        Icon::Light => "light"@,
        Icon::Fan => "fan"@,
    }
}

pub open spec fn category_name(image: ImageCategory) -> Seq<char> {
    match image {
        ImageCategory::HardOff => "hard_off"@,
        ImageCategory::On => "on"@,
        ImageCategory::Off => "off"@,
        ImageCategory::OnOther => "on_other"@,
    }
}

/// The 64x64 picture of an icon in a category: `{icon}_{category}_64x64.tga`.
pub open spec fn image_file_name(image: ImageCategory, icon: Icon) -> Seq<char> {
    icon_name(icon) + "_"@ + category_name(image) + "_64x64.tga"@
}

pub fn get_image_file(image: ImageCategory, icon: Icon) -> (r: String)
    ensures
        r@ == image_file_name(image, icon),
{
    let mut r = match icon {
        Icon::Light => String::from_str("light"),
        Icon::Fan => String::from_str("fan"),
    };
    r.append("_");
    match image {
        ImageCategory::HardOff => r.append("hard_off"),
        ImageCategory::On => r.append("on"),
        ImageCategory::Off => r.append("off"),
        ImageCategory::OnOther => r.append("on_other"),
    }
    r.append("_64x64.tga");
    r
}

/// The caption of a state.
pub open spec fn overlay_text(state: DisplayState) -> Seq<char> {
    match state {
        DisplayState::HardOff => "Hard off"@,
        DisplayState::Error => "Error"@,
        DisplayState::Unknown => "Lost"@,
        DisplayState::On => "On"@,
        DisplayState::Off => "Off"@,
        DisplayState::OnOther => "Other"@,
    }
}

/// The states whose caption is drawn over the picture.
pub open spec fn has_overlay(state: DisplayState) -> bool {
    state == DisplayState::Error || state == DisplayState::Unknown
}

/// The caption to draw over the picture, where the state has one.
pub fn get_overlay_text(state: DisplayState) -> (r: Option<String>)
    ensures
        match r {
            Some(t) => has_overlay(state) && t@ == overlay_text(state),
            None => !has_overlay(state),
        },
{
    match state {
        DisplayState::Error => Some(String::from_str("Error")),
        DisplayState::Unknown => Some(String::from_str("Lost")),
        _ => None,
    }
}

/// The panel that shows the device at position `id`, where there is one.
pub fn panel_index(id: u32) -> (r: Option<usize>)
    ensures
        id < 2 ==> r == Some(id as usize),
        id >= 2 ==> r is None,
{
    if id < 2 {
        Some(id as usize)
    } else {
        None
    }
}

/// A point on a panel.
#[derive(Clone, Copy, Debug, PartialEq, Eq, Structural)]
pub struct Point {
    pub x: i32,
    pub y: i32,
}

/// The top left corner of a `width` by `height` picture centred on `center`.
pub fn image_origin(center: Point, width: u32, height: u32) -> (r: Point)
    requires
        width <= 0x10000,
        height <= 0x10000,
        -0x7fff_0000 <= center.x <= 0x7fff_0000,
        -0x7fff_0000 <= center.y <= 0x7fff_0000,
    ensures
        r.x == center.x - (width / 2) as int,
        r.y == center.y - (height / 2) as int,
{
    Point { x: center.x - (width / 2) as i32, y: center.y - (height / 2) as i32 }
}

/// Width and height of the box drawn behind a caption.
pub const OVERLAY_WIDTH: u32 = 60;

pub const OVERLAY_HEIGHT: u32 = 24;

/// Where a caption goes: its box's top left corner, and the point on which
/// its text is centred.
#[derive(Clone, Copy, Debug, PartialEq, Eq, Structural)]
pub struct OverlayLayout {
    pub box_origin: Point,
    pub text_anchor: Point,
}

/// The caption's box is centred across the panel and stands 30 pixels above
/// its bottom edge; the text sits 17 pixels below the box's top.
pub fn overlay_layout(center_x: i32, bottom_y: i32) -> (r: OverlayLayout)
    requires
        -0x7fff_0000 <= center_x <= 0x7fff_0000,
        -0x7fff_0000 <= bottom_y <= 0x7fff_0000,
    ensures
        r.box_origin.x == center_x - 30,
        r.box_origin.y == bottom_y - 30,
        r.text_anchor.x == center_x,
        r.text_anchor.y == bottom_y - 13,
{
    let x = center_x - (OVERLAY_WIDTH / 2) as i32;
    let y = bottom_y - 30;
    OverlayLayout { box_origin: Point { x, y }, text_anchor: Point { x: center_x, y: y + 17 } }
}

/// Where the "Loading" text starts on a panel `height` pixels high.
pub fn loading_text_origin(height: u32) -> (r: Point)
    requires
        10 <= height <= 0x7fff_ffff,
    ensures
        r.x == 10,
        r.y == (height - 10) / 2,
{
    Point { x: 10, y: (height - 10) as i32 / 2 }
}

} // verus!
