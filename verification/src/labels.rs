//! Display names of the fixed option tables.
//!
//! The pickers whose option sets are fixed — volume, the number-plate
//! frames with their per-frame color tables, the wing bodies and the
//! custom GT wing sub-options — name their entries from the tables
//! here. An identifier outside a table has no name; the panel shows its
//! own fallback text for those.

use vstd::prelude::*;
use crate::numeral::{spec_u32_digits, u32_to_string};

verus! {

/// The volume setting's display name; out-of-range values read as the
/// medium setting.
pub open spec fn spec_volume_label(volume: int) -> Seq<char> {
    if volume == 0 {
        "Muted"@
    } else if volume == 1 {
        "Minimum"@
    } else if volume == 3 {
        "Maximum"@
    } else {
        "Medium"@
    }
}

/// Names a volume setting.
pub fn volume_label(volume: u32) -> (r: String)
    ensures
        r@ == spec_volume_label(volume as int),
{
    if volume == 0 {
        String::from_str("Muted")
    } else if volume == 1 {
        String::from_str("Minimum")
    } else if volume == 3 {
        String::from_str("Maximum")
    } else {
        String::from_str("Medium")
    }
}

/// The display name of a number-plate frame style.
pub open spec fn spec_plate_frame_label(plate: int) -> Option<Seq<char>> {
    if plate == 1 {
        Some("Logo Variant"@)
    } else if plate == 2 {
        Some("Stripe Variant"@)
    } else if plate == 3 {
        Some("Luxury Variant"@)
    } else if plate == 4 {
        Some("Illumination Variant"@)
    } else {
        None
    }
}

/// Names a number-plate frame style.
pub fn plate_frame_label(plate: u32) -> (r: Option<String>)
    ensures
        match r {
            Some(s) => spec_plate_frame_label(plate as int) == Some(s@),
            None => spec_plate_frame_label(plate as int) is None,
        },
{
    match plate {
        1 => Some(String::from_str("Logo Variant")),
        2 => Some(String::from_str("Stripe Variant")),
        3 => Some(String::from_str("Luxury Variant")),
        4 => Some(String::from_str("Illumination Variant")),
        _ => None,
    }
}

/// The color table of the logo frame: team liveries.
pub open spec fn spec_frame_logo_color_label(color: int) -> Option<Seq<char>> {
    if color == 0 {
        Some("YM SPEED"@)
    } else if color == 1 {
        Some("MACH"@)
    } else if color == 2 {
        Some("RGO"@)
    } else if color == 3 {
        Some("ACE"@)
    } else if color == 4 {
        Some("R200"@)
    } else if color == 5 {
        Some("FLAT"@)
    } else if color == 6 {
        Some("BLACK BIRD"@)
    } else if color == 7 {
        Some("ZERO"@)
    } else if color == 8 {
        Some("GREEN AUTO"@)
    } else if color == 9 {
        Some("GT CARS"@)
    } else {
        None
    }
}

/// The color table of the stripe frame.
pub open spec fn spec_frame_stripe_color_label(color: int) -> Option<Seq<char>> {
    if color == 0 {
        Some("Red"@)
    } else if color == 1 {
        Some("Orange"@)
    } else if color == 2 {
        Some("Yellow"@)
    } else if color == 3 {
        Some("Green"@)
    } else if color == 4 {
        Some("Purple"@)
    } else if color == 5 {
        Some("Teal"@)
    } else if color == 6 {
        Some("Blue"@)
    } else if color == 7 {
        Some("White"@)
    } else {
        None
    }
}

/// The color table of the luxury frame.
pub open spec fn spec_frame_luxury_color_label(color: int) -> Option<Seq<char>> {
    if color == 0 {
        Some("White"@)
    } else if color == 1 {
        Some("Black"@)
    } else if color == 2 {
        Some("Gold"@)
    } else {
        None
    }
}

/// The color table of the illumination frame.
pub open spec fn spec_frame_illumination_color_label(color: int) -> Option<Seq<char>> {
    if color == 0 {
        Some("Green"@)
    } else if color == 1 {
        Some("Blue"@)
    } else if color == 2 {
        Some("Light Purple"@)
    } else if color == 3 {
        Some("Red"@)
    } else if color == 4 {
        Some("Yellow"@)
    } else if color == 5 {
        Some("Purple"@)
    } else {
        None
    }
}

/// The frame color's display name: each frame style carries its own
/// color table, and the stock plate has none.
pub open spec fn spec_plate_color_label(plate: int, color: int) -> Option<Seq<char>> {
    if plate == 1 {
        spec_frame_logo_color_label(color)
    } else if plate == 2 {
        spec_frame_stripe_color_label(color)
    } else if plate == 3 {
        spec_frame_luxury_color_label(color)
    } else if plate == 4 {
        spec_frame_illumination_color_label(color)
    } else {
        None
    }
}

/// Names a frame color under the given frame style.
pub fn plate_color_label(plate: u32, color: u32) -> (r: Option<String>)
    ensures
        match r {
            Some(s) => spec_plate_color_label(plate as int, color as int) == Some(s@),
            None => spec_plate_color_label(plate as int, color as int) is None,
        },
{
    if plate == 1 {
        match color {
            0 => Some(String::from_str("YM SPEED")),
            1 => Some(String::from_str("MACH")),
            2 => Some(String::from_str("RGO")),
            3 => Some(String::from_str("ACE")),
            4 => Some(String::from_str("R200")),
            5 => Some(String::from_str("FLAT")),
            6 => Some(String::from_str("BLACK BIRD")),
            7 => Some(String::from_str("ZERO")),
            8 => Some(String::from_str("GREEN AUTO")),
            9 => Some(String::from_str("GT CARS")),
            _ => None,
        }
    } else if plate == 2 {
        match color {
            0 => Some(String::from_str("Red")),
            1 => Some(String::from_str("Orange")),
            2 => Some(String::from_str("Yellow")),
            3 => Some(String::from_str("Green")),
            4 => Some(String::from_str("Purple")),
            5 => Some(String::from_str("Teal")),
            6 => Some(String::from_str("Blue")),
            7 => Some(String::from_str("White")),
            _ => None,
        }
    } else if plate == 3 {
        match color {
            0 => Some(String::from_str("White")),
            1 => Some(String::from_str("Black")),
            2 => Some(String::from_str("Gold")),
            _ => None,
        }
    } else if plate == 4 {
        match color {
            0 => Some(String::from_str("Green")),
            1 => Some(String::from_str("Blue")),
            2 => Some(String::from_str("Light Purple")),
            3 => Some(String::from_str("Red")),
            4 => Some(String::from_str("Yellow")),
            5 => Some(String::from_str("Purple")),
            _ => None,
        }
    } else {
        None
    }
}

/// The display name of a wing body: eight fitted wings and the wingless
/// body at 127.
pub open spec fn spec_wing_label(wing: int) -> Option<Seq<char>> {
    if wing == 1 {
        Some("GT Wing A (Straight)"@)
    } else if wing == 2 {
        Some("Car Model Wing A"@)
    } else if wing == 3 {
        Some("GT Wing B (3D)"@)
    } else if wing == 4 {
        Some("Car Model Wing B"@)
    } else if wing == 5 {
        Some("GT Wing C (3D2)"@)
    } else if wing == 6 {
        Some("GT Wing D (Twin)"@)
    } else if wing == 7 {
        Some("Car Model Wing C"@)
    } else if wing == 8 {
        Some("GT Wing E"@)
    } else if wing == 127 {
        Some("Wingless"@)
    } else {
        None
    }
}

/// Names a wing body.
pub fn wing_label(wing: u32) -> (r: Option<String>)
    ensures
        match r {
            Some(s) => spec_wing_label(wing as int) == Some(s@),
            None => spec_wing_label(wing as int) is None,
        },
{
    match wing {
        1 => Some(String::from_str("GT Wing A (Straight)")),
        2 => Some(String::from_str("Car Model Wing A")),
        3 => Some(String::from_str("GT Wing B (3D)")),
        4 => Some(String::from_str("Car Model Wing B")),
        5 => Some(String::from_str("GT Wing C (3D2)")),
        6 => Some(String::from_str("GT Wing D (Twin)")),
        7 => Some(String::from_str("Car Model Wing C")),
        8 => Some(String::from_str("GT Wing E")),
        127 => Some(String::from_str("Wingless")),
        _ => None,
    }
}

/// The display name of a GT wing pillar.
pub open spec fn spec_gt_pillar_label(pillar: int) -> Option<Seq<char>> {
    if pillar == 1 {
        Some("Tall Wide"@)
    } else if pillar == 2 {
        Some("Tall Narrow"@)
    } else if pillar == 3 {
        Some("Normal Wide"@)
    } else if pillar == 4 {
        Some("Normal Narrow"@)
    } else if pillar == 5 {
        Some("Low Wide"@)
    } else if pillar == 6 {
        Some("Low Narrow"@)
    } else {
        None
    }
}

/// Names a GT wing pillar.
pub fn gt_pillar_label(pillar: u32) -> (r: Option<String>)
    ensures
        match r {
            Some(s) => spec_gt_pillar_label(pillar as int) == Some(s@),
            None => spec_gt_pillar_label(pillar as int) is None,
        },
{
    match pillar {
        1 => Some(String::from_str("Tall Wide")),
        2 => Some(String::from_str("Tall Narrow")),
        3 => Some(String::from_str("Normal Wide")),
        4 => Some(String::from_str("Normal Narrow")),
        5 => Some(String::from_str("Low Wide")),
        6 => Some(String::from_str("Low Narrow")),
        _ => None,
    }
}

/// The display name of a GT wing pillar material.
pub open spec fn spec_gt_pillar_material_label(material: int) -> Option<Seq<char>> {
    if material == 0 {
        Some("Black Pillar"@)
    } else if material == 1 {
        Some("White Pillar"@)
    } else {
        None
    }
}

/// Names a GT wing pillar material.
pub fn gt_pillar_material_label(material: u32) -> (r: Option<String>)
    ensures
        match r {
            Some(s) => spec_gt_pillar_material_label(material as int) == Some(s@),
            None => spec_gt_pillar_material_label(material as int) is None,
        },
{
    match material {
        0 => Some(String::from_str("Black Pillar")),
        1 => Some(String::from_str("White Pillar")),
        _ => None,
    }
}

/// The display name of a GT main wing shape.
pub open spec fn spec_gt_main_wing_label(main_wing: int) -> Option<Seq<char>> {
    if main_wing == 1 {
        Some("Straight"@)
    } else if main_wing == 2 {
        Some("Curve"@)
    } else if main_wing == 3 {
        Some("3D"@)
    } else if main_wing == 4 {
        Some("Big Straight"@)
    } else if main_wing == 5 {
        Some("3D Curve"@)
    } else if main_wing == 6 {
        Some("Twin"@)
    } else if main_wing == 7 {
        Some("Big Curve"@)
    } else {
        None
    }
}

/// Names a GT main wing shape.
pub fn gt_main_wing_label(main_wing: u32) -> (r: Option<String>)
    ensures
        match r {
            Some(s) => spec_gt_main_wing_label(main_wing as int) == Some(s@),
            None => spec_gt_main_wing_label(main_wing as int) is None,
        },
{
    match main_wing {
        1 => Some(String::from_str("Straight")),
        2 => Some(String::from_str("Curve")),
        3 => Some(String::from_str("3D")),
        4 => Some(String::from_str("Big Straight")),
        5 => Some(String::from_str("3D Curve")),
        6 => Some(String::from_str("Twin")),
        7 => Some(String::from_str("Big Curve")),
        _ => None,
    }
}

/// The display name of a GT main wing color.
pub open spec fn spec_gt_main_wing_color_label(color: int) -> Option<Seq<char>> {
    if color == 0 {
        Some("Red"@)
    } else if color == 1 {
        Some("Orange"@)
    } else if color == 2 {
        Some("Yellow"@)
    } else if color == 3 {
        Some("Green"@)
    } else if color == 4 {
        Some("Purple"@)
    } else if color == 5 {
        Some("Teal"@)
    } else if color == 6 {
        Some("Blue"@)
    } else if color == 7 {
        Some("Black"@)
    } else if color == 8 {
        Some("Silver"@)
    } else if color == 9 {
        Some("White"@)
    } else {
        None
    }
}

/// Names a GT main wing color.
pub fn gt_main_wing_color_label(color: u32) -> (r: Option<String>)
    ensures
        match r {
            Some(s) => spec_gt_main_wing_color_label(color as int) == Some(s@),
            None => spec_gt_main_wing_color_label(color as int) is None,
        },
{
    match color {
        0 => Some(String::from_str("Red")),
        1 => Some(String::from_str("Orange")),
        2 => Some(String::from_str("Yellow")),
        3 => Some(String::from_str("Green")),
        4 => Some(String::from_str("Purple")),
        5 => Some(String::from_str("Teal")),
        6 => Some(String::from_str("Blue")),
        7 => Some(String::from_str("Black")),
        8 => Some(String::from_str("Silver")),
        9 => Some(String::from_str("White")),
        _ => None,
    }
}

/// The display name of a GT wing tip.
pub open spec fn spec_gt_wing_tip_label(tip: int) -> Option<Seq<char>> {
    if tip == 1 {
        Some("Variant 1"@)
    } else if tip == 2 {
        Some("Variant 2"@)
    } else if tip == 3 {
        Some("Variant 3"@)
    } else if tip == 4 {
        Some("Variant 4"@)
    } else {
        None
    }
}

/// Names a GT wing tip.
pub fn gt_wing_tip_label(tip: u32) -> (r: Option<String>)
    ensures
        match r {
            Some(s) => spec_gt_wing_tip_label(tip as int) == Some(s@),
            None => spec_gt_wing_tip_label(tip as int) is None,
        },
{
    match tip {
        1 => Some(String::from_str("Variant 1")),
        2 => Some(String::from_str("Variant 2")),
        3 => Some(String::from_str("Variant 3")),
        4 => Some(String::from_str("Variant 4")),
        _ => None,
    }
}

/// The display name of a GT wing surface material.
pub open spec fn spec_gt_wing_material_label(material: int) -> Option<Seq<char>> {
    if material == 0 {
        Some("Carbon"@)
    } else if material == 1 {
        Some("Gloss"@)
    } else {
        None
    }
}

/// Names a GT wing surface material.
pub fn gt_wing_material_label(material: u32) -> (r: Option<String>)
    ensures
        match r {
            Some(s) => spec_gt_wing_material_label(material as int) == Some(s@),
            None => spec_gt_wing_material_label(material as int) is None,
        },
{
    match material {
        0 => Some(String::from_str("Carbon")),
        1 => Some(String::from_str("Gloss")),
        _ => None,
    }
}

/// Names a wheel color slot: the slots are shown one-based.
pub fn wheel_color_label(slot: u32) -> (r: String)
    requires
        slot < u32::MAX,
    ensures
        r@ == "Color "@ + spec_u32_digits(slot + 1),
{
    let number = u32_to_string(slot + 1);
    let r = String::from_str("Color ").concat(number.as_str());
    r
}

} // verus!
