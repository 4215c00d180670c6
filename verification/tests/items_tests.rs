use carmenu::items::{
    bgm_selectable, custom_color_enabled, custom_wing_enabled, dressup_name, meter_selectable,
    nameplate_selectable, owned_count, owns_item, selectable_dressup, selectable_options,
    wheel_color_options, wheel_selectable, CarItem, DressUpItem, ItemCategory,
};

fn item(category: ItemCategory, item_id: u32) -> CarItem {
    CarItem { category, item_id }
}

#[test]
fn ownership_is_by_category_and_id() {
    let items = vec![item(ItemCategory::Wing, 3), item(ItemCategory::Wheel, 3)];
    assert!(owns_item(&items, ItemCategory::Wing, 3));
    assert!(owns_item(&items, ItemCategory::Wheel, 3));
    assert!(!owns_item(&items, ItemCategory::Wing, 4));
    assert!(!owns_item(&items, ItemCategory::Neon, 3));
    assert!(!owns_item(&vec![], ItemCategory::Wing, 3));
}

#[test]
fn counting_sees_duplicates() {
    let items = vec![
        item(ItemCategory::Bgm, 2),
        item(ItemCategory::Bgm, 2),
        item(ItemCategory::Bgm, 5),
    ];
    assert_eq!(owned_count(&items, ItemCategory::Bgm, 2), 2);
    assert_eq!(owned_count(&items, ItemCategory::Bgm, 5), 1);
    assert_eq!(owned_count(&items, ItemCategory::Bgm, 9), 0);
}

#[test]
fn music_needs_exactly_one_copy() {
    let items = vec![
        item(ItemCategory::Bgm, 2),
        item(ItemCategory::Bgm, 2),
        item(ItemCategory::Bgm, 5),
        item(ItemCategory::Meter, 1),
    ];
    assert!(!bgm_selectable(&items, 2));
    assert!(bgm_selectable(&items, 5));
    assert!(!bgm_selectable(&items, 9));
    assert!(meter_selectable(&items, 1));
    assert!(!meter_selectable(&items, 2));
}

#[test]
fn nameplates_need_any_copy() {
    let items = vec![
        item(ItemCategory::NamePlate, 4),
        item(ItemCategory::NamePlate, 4),
    ];
    assert!(nameplate_selectable(&items, 4));
    assert!(!nameplate_selectable(&items, 5));
}

#[test]
fn switches_need_their_first_item() {
    let items = vec![
        item(ItemCategory::GtWing, 1),
        item(ItemCategory::CustomColor, 2),
    ];
    assert!(custom_wing_enabled(&items));
    assert!(!custom_color_enabled(&items));
}

#[test]
fn force_equip_ignores_the_inventory() {
    let items = vec![item(ItemCategory::Wheel, 2)];
    assert!(wheel_selectable(&items, false, 2));
    assert!(!wheel_selectable(&items, false, 3));
    assert!(wheel_selectable(&items, true, 3));
}

#[test]
fn wheel_colors_come_with_a_fitted_wheel() {
    assert_eq!(wheel_color_options(3, 4), vec![0, 1, 2, 3]);
    assert_eq!(wheel_color_options(3, 0), Vec::<u32>::new());
    assert_eq!(wheel_color_options(0, 4), Vec::<u32>::new());
}

#[test]
fn option_filtering_keeps_order() {
    let items = vec![
        item(ItemCategory::RivalMarker, 7),
        item(ItemCategory::RivalMarker, 2),
    ];
    let candidates = vec![1u32, 2, 3, 7, 8];
    let offered = selectable_options(&items, ItemCategory::RivalMarker, &candidates);
    assert_eq!(offered, vec![2, 7]);
}

#[test]
fn catalog_lookup_takes_the_first_match() {
    let catalog = vec![
        DressUpItem {
            server_id: 10,
            category: ItemCategory::Bonnet,
            name: String::from("Vented"),
        },
        DressUpItem {
            server_id: 10,
            category: ItemCategory::Bonnet,
            name: String::from("Duplicate"),
        },
        DressUpItem {
            server_id: 10,
            category: ItemCategory::Trunk,
            name: String::from("Ducktail"),
        },
    ];
    assert_eq!(
        dressup_name(&catalog, ItemCategory::Bonnet, 10),
        Some(String::from("Vented"))
    );
    assert_eq!(
        dressup_name(&catalog, ItemCategory::Trunk, 10),
        Some(String::from("Ducktail"))
    );
    assert_eq!(dressup_name(&catalog, ItemCategory::Neon, 10), None);
}

#[test]
fn dressup_offers_owned_parts_of_the_category() {
    let catalog = vec![
        DressUpItem {
            server_id: 10,
            category: ItemCategory::Bonnet,
            name: String::from("Vented"),
        },
        DressUpItem {
            server_id: 11,
            category: ItemCategory::Bonnet,
            name: String::from("Carbon"),
        },
        DressUpItem {
            server_id: 12,
            category: ItemCategory::Trunk,
            name: String::from("Ducktail"),
        },
    ];
    let items = vec![
        item(ItemCategory::Bonnet, 11),
        item(ItemCategory::Trunk, 12),
    ];
    assert_eq!(
        selectable_dressup(&catalog, &items, ItemCategory::Bonnet),
        vec![11]
    );
    assert_eq!(
        selectable_dressup(&catalog, &items, ItemCategory::Trunk),
        vec![12]
    );
    assert_eq!(
        selectable_dressup(&catalog, &items, ItemCategory::Neon),
        Vec::<u32>::new()
    );
}
