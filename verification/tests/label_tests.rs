use carmenu::grade::{vs_aura_kind, VsAuraKind};
use carmenu::labels::{
    gt_main_wing_color_label, gt_main_wing_label, gt_pillar_label, gt_pillar_material_label,
    gt_wing_material_label, gt_wing_tip_label, plate_color_label, plate_frame_label, volume_label,
    wheel_color_label, wing_label,
};

#[test]
fn volume_names() {
    assert_eq!(volume_label(0), "Muted");
    assert_eq!(volume_label(1), "Minimum");
    assert_eq!(volume_label(2), "Medium");
    assert_eq!(volume_label(3), "Maximum");
    // Out-of-range settings read as the medium default.
    assert_eq!(volume_label(9), "Medium");
}

#[test]
fn plate_frame_names() {
    assert_eq!(plate_frame_label(1), Some(String::from("Logo Variant")));
    assert_eq!(plate_frame_label(4), Some(String::from("Illumination Variant")));
    assert_eq!(plate_frame_label(0), None);
    assert_eq!(plate_frame_label(5), None);
}

#[test]
fn each_frame_has_its_own_color_table() {
    assert_eq!(plate_color_label(1, 0), Some(String::from("YM SPEED")));
    assert_eq!(plate_color_label(1, 9), Some(String::from("GT CARS")));
    assert_eq!(plate_color_label(1, 10), None);
    assert_eq!(plate_color_label(2, 0), Some(String::from("Red")));
    assert_eq!(plate_color_label(2, 7), Some(String::from("White")));
    assert_eq!(plate_color_label(2, 8), None);
    assert_eq!(plate_color_label(3, 2), Some(String::from("Gold")));
    assert_eq!(plate_color_label(3, 3), None);
    assert_eq!(plate_color_label(4, 2), Some(String::from("Light Purple")));
    assert_eq!(plate_color_label(4, 6), None);
    assert_eq!(plate_color_label(0, 0), None);
    assert_eq!(plate_color_label(5, 0), None);
}

#[test]
fn wing_names() {
    assert_eq!(wing_label(1), Some(String::from("GT Wing A (Straight)")));
    assert_eq!(wing_label(8), Some(String::from("GT Wing E")));
    assert_eq!(wing_label(127), Some(String::from("Wingless")));
    assert_eq!(wing_label(0), None);
    assert_eq!(wing_label(9), None);
}

#[test]
fn gt_wing_sub_option_names() {
    assert_eq!(gt_pillar_label(1), Some(String::from("Tall Wide")));
    assert_eq!(gt_pillar_label(6), Some(String::from("Low Narrow")));
    assert_eq!(gt_pillar_label(0), None);
    assert_eq!(gt_pillar_material_label(0), Some(String::from("Black Pillar")));
    assert_eq!(gt_pillar_material_label(2), None);
    assert_eq!(gt_main_wing_label(3), Some(String::from("3D")));
    assert_eq!(gt_main_wing_label(8), None);
    assert_eq!(gt_main_wing_color_label(8), Some(String::from("Silver")));
    assert_eq!(gt_main_wing_color_label(10), None);
    assert_eq!(gt_wing_tip_label(4), Some(String::from("Variant 4")));
    assert_eq!(gt_wing_tip_label(5), None);
    assert_eq!(gt_wing_material_label(1), Some(String::from("Gloss")));
    assert_eq!(gt_wing_material_label(2), None);
}

#[test]
fn wheel_color_slots_are_one_based() {
    assert_eq!(wheel_color_label(0), "Color 1");
    assert_eq!(wheel_color_label(11), "Color 12");
}

#[test]
fn graded_motifs_decompose() {
    assert_eq!(
        vs_aura_kind(1, 30),
        Some(VsAuraKind::Graded { grade: 0, sub: 1 })
    );
    assert_eq!(
        vs_aura_kind(3, 30),
        Some(VsAuraKind::Graded { grade: 0, sub: 3 })
    );
    assert_eq!(
        vs_aura_kind(4, 30),
        Some(VsAuraKind::Graded { grade: 1, sub: 1 })
    );
    assert_eq!(
        vs_aura_kind(90, 30),
        Some(VsAuraKind::Graded { grade: 29, sub: 3 })
    );
}

#[test]
fn motifs_outside_the_table_are_rejected() {
    assert_eq!(vs_aura_kind(0, 30), None);
    assert_eq!(vs_aura_kind(91, 30), None);
    assert_eq!(vs_aura_kind(31, 10), None);
    assert_eq!(vs_aura_kind(102, 30), None);
}

#[test]
fn special_motifs_sit_past_the_graded_range() {
    assert_eq!(vs_aura_kind(100, 30), Some(VsAuraKind::Anniversary));
    assert_eq!(vs_aura_kind(101, 30), Some(VsAuraKind::Halloween));
    assert_eq!(vs_aura_kind(100, 0), Some(VsAuraKind::Anniversary));
}

#[test]
fn motif_identifiers_recompose() {
    for id in 1u32..=90 {
        match vs_aura_kind(id, 30) {
            Some(VsAuraKind::Graded { grade, sub }) => {
                assert_eq!(3 * grade + sub, id);
                assert!(grade < 30);
                assert!((1..=3).contains(&sub));
            }
            other => panic!("identifier {} resolved to {:?}", id, other),
        }
    }
}
