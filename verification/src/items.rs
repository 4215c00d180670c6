//! Inventory-gated options.
//!
//! Most cosmetic fields of the car record may only take values the
//! player's inventory contains: an option is offered when an item with
//! the field's category and the option's identifier is owned. The music
//! and meter pickers are stricter and ask for exactly one such item;
//! wheels can be force-equipped past the inventory altogether.

use vstd::prelude::*;

verus! {

/// The inventory category an ownable option belongs to.
#[derive(PartialEq, Eq, Structural, Clone, Copy, Debug)]
pub enum ItemCategory {
    Bgm,
    Meter,
    NamePlate,
    CustomColor,
    RivalMarker,
    WindowDecoration,
    TerminalBackground,
    AuraMotif,
    CustomFrame,
    NumberPlate,
    Wing,
    GtWing,
    Wheel,
    Mirror,
    Bonnet,
    Trunk,
    Neon,
    AeroFullset,
}

/// One owned item of the player's inventory.
#[derive(PartialEq, Eq, Structural, Clone, Copy, Debug)]
pub struct CarItem {
    pub category: ItemCategory,
    pub item_id: u32,
}

/// One entry of the dress-up part catalog.
#[derive(Clone, Debug)]
pub struct DressUpItem {
    pub server_id: u32,
    pub category: ItemCategory,
    pub name: String,
}

/// Whether the inventory holds an item of this category and identifier.
pub open spec fn spec_owns(items: Seq<CarItem>, category: ItemCategory, item_id: u32) -> bool {
    exists|i: int|
        0 <= i < items.len() && items[i].category == category && items[i].item_id == item_id
}

/// How many inventory items carry this category and identifier.
pub open spec fn spec_owned_count(items: Seq<CarItem>, category: ItemCategory, item_id: u32) -> int {
    items.filter(|it: CarItem| it.category == category && it.item_id == item_id).len() as int
}

/// Whether catalog entry `i` offers `server_id` under `category`.
pub open spec fn spec_catalog_match(
    catalog: Seq<DressUpItem>,
    category: ItemCategory,
    server_id: u32,
    i: int,
) -> bool {
    0 <= i < catalog.len() && catalog[i].category == category && catalog[i].server_id == server_id
}

/// Tests whether the inventory holds an item of the given category and
/// identifier.
pub fn owns_item(items: &Vec<CarItem>, category: ItemCategory, item_id: u32) -> (r: bool)
    ensures
        r == spec_owns(items@, category, item_id),
{
    let mut i: usize = 0;
    while i < items.len()
        invariant
            0 <= i <= items@.len(),
            forall|j: int|
                0 <= j < i ==> !(items@[j].category == category && items@[j].item_id == item_id),
        decreases items@.len() - i,
    {
        if items[i].category == category && items[i].item_id == item_id {
            return true;
        }
        i = i + 1;
    }
    false
}

/// Counts the inventory items of the given category and identifier.
pub fn owned_count(items: &Vec<CarItem>, category: ItemCategory, item_id: u32) -> (r: usize)
    ensures
        r == spec_owned_count(items@, category, item_id),
{
    let ghost pred = |it: CarItem| it.category == category && it.item_id == item_id;
    let mut count: usize = 0;
    let mut i: usize = 0;
    proof {
        reveal(Seq::filter);
        assert(items@.take(0int) =~= Seq::<CarItem>::empty());
    }
    while i < items.len()
        invariant
            0 <= i <= items@.len(),
            pred == (|it: CarItem| it.category == category && it.item_id == item_id),
            count == items@.take(i as int).filter(pred).len(),
            count <= i,
        decreases items@.len() - i,
    {
        proof {
            reveal(Seq::filter);
            assert(items@.take(i + 1).drop_last() =~= items@.take(i as int));
            assert(items@.take(i + 1).last() == items@[i as int]);
            items@.take(i + 1).drop_last().lemma_filter_len(pred);
        }
        if items[i].category == category && items[i].item_id == item_id {
            count = count + 1;
        }
        i = i + 1;
    }
    proof {
        assert(items@.take(items@.len() as int) =~= items@);
    }
    count
}

/// Keeps the candidate option identifiers the inventory contains, in the
/// candidates' order.
pub fn selectable_options(
    items: &Vec<CarItem>,
    category: ItemCategory,
    candidates: &Vec<u32>,
) -> (r: Vec<u32>)
    ensures
        r@ == candidates@.filter(|id: u32| spec_owns(items@, category, id)),
{
    let ghost pred = |id: u32| spec_owns(items@, category, id);
    let mut r: Vec<u32> = Vec::new();
    let mut i: usize = 0;
    proof {
        reveal(Seq::filter);
        assert(candidates@.take(0int) =~= Seq::<u32>::empty());
    }
    while i < candidates.len()
        invariant
            0 <= i <= candidates@.len(),
            pred == (|id: u32| spec_owns(items@, category, id)),
            r@ == candidates@.take(i as int).filter(pred),
        decreases candidates@.len() - i,
    {
        proof {
            reveal(Seq::filter);
            assert(candidates@.take(i + 1).drop_last() =~= candidates@.take(i as int));
            assert(candidates@.take(i + 1).last() == candidates@[i as int]);
        }
        if owns_item(items, category, candidates[i]) {
            r.push(candidates[i]);
        }
        i = i + 1;
    }
    proof {
        assert(candidates@.take(candidates@.len() as int) =~= candidates@);
    }
    r
}

/// Looks an equipped part up in the catalog: the name of the first entry
/// carrying the category and part identifier, if the catalog has one.
pub fn dressup_name(
    catalog: &Vec<DressUpItem>,
    category: ItemCategory,
    server_id: u32,
) -> (r: Option<String>)
    ensures
        match r {
            Some(nm) => exists|i: int|
                spec_catalog_match(catalog@, category, server_id, i) && nm@ == catalog@[i].name@
                    && (forall|j: int|
                    0 <= j < i ==> !spec_catalog_match(catalog@, category, server_id, j)),
            None => forall|i: int| !spec_catalog_match(catalog@, category, server_id, i),
        },
{
    let mut i: usize = 0;
    while i < catalog.len()
        invariant
            0 <= i <= catalog@.len(),
            forall|j: int| 0 <= j < i ==> !spec_catalog_match(catalog@, category, server_id, j),
        decreases catalog@.len() - i,
    {
        if catalog[i].category == category && catalog[i].server_id == server_id {
            proof {
                assert(spec_catalog_match(catalog@, category, server_id, i as int));
            }
            return Some(catalog[i].name.clone());
        }
        i = i + 1;
    }
    None
}

/// Whether the music picker offers a track: the inventory must hold
/// exactly one matching item.
pub fn bgm_selectable(items: &Vec<CarItem>, bgm_id: u32) -> (r: bool)
    ensures
        r == (spec_owned_count(items@, ItemCategory::Bgm, bgm_id) == 1),
{
    owned_count(items, ItemCategory::Bgm, bgm_id) == 1
}

/// Whether the meter picker offers a meter: the inventory must hold
/// exactly one matching item.
pub fn meter_selectable(items: &Vec<CarItem>, meter_id: u32) -> (r: bool)
    ensures
        r == (spec_owned_count(items@, ItemCategory::Meter, meter_id) == 1),
{
    owned_count(items, ItemCategory::Meter, meter_id) == 1
}

/// Whether the nameplate picker offers a plate.
pub fn nameplate_selectable(items: &Vec<CarItem>, nameplate_id: u32) -> (r: bool)
    ensures
        r == spec_owns(items@, ItemCategory::NamePlate, nameplate_id),
{
    owns_item(items, ItemCategory::NamePlate, nameplate_id)
}

/// Whether the rival marker picker offers a marker.
pub fn rival_marker_selectable(items: &Vec<CarItem>, marker_id: u32) -> (r: bool)
    ensures
        r == spec_owns(items@, ItemCategory::RivalMarker, marker_id),
{
    owns_item(items, ItemCategory::RivalMarker, marker_id)
}

/// Whether the window decoration picker offers a decoration.
pub fn window_decoration_selectable(items: &Vec<CarItem>, decoration_id: u32) -> (r: bool)
    ensures
        r == spec_owns(items@, ItemCategory::WindowDecoration, decoration_id),
{
    owns_item(items, ItemCategory::WindowDecoration, decoration_id)
}

/// Whether the terminal background picker offers a background.
pub fn terminal_background_selectable(items: &Vec<CarItem>, background_id: u32) -> (r: bool)
    ensures
        r == spec_owns(items@, ItemCategory::TerminalBackground, background_id),
{
    owns_item(items, ItemCategory::TerminalBackground, background_id)
}

/// Whether the custom frame picker offers a frame.
pub fn custom_frame_selectable(items: &Vec<CarItem>, frame_id: u32) -> (r: bool)
    ensures
        r == spec_owns(items@, ItemCategory::CustomFrame, frame_id),
{
    owns_item(items, ItemCategory::CustomFrame, frame_id)
}

/// Whether the vs-aura picker offers a motif.
pub fn vs_grade_selectable(items: &Vec<CarItem>, motif_id: u32) -> (r: bool)
    ensures
        r == spec_owns(items@, ItemCategory::AuraMotif, motif_id),
{
    owns_item(items, ItemCategory::AuraMotif, motif_id)
}

/// Whether the number-plate frame picker offers a frame style.
pub fn plate_frame_selectable(items: &Vec<CarItem>, plate_id: u32) -> (r: bool)
    ensures
        r == spec_owns(items@, ItemCategory::NumberPlate, plate_id),
{
    owns_item(items, ItemCategory::NumberPlate, plate_id)
}

/// Whether the wing picker offers a wing body.
pub fn wing_selectable(items: &Vec<CarItem>, wing_id: u32) -> (r: bool)
    ensures
        r == spec_owns(items@, ItemCategory::Wing, wing_id),
{
    owns_item(items, ItemCategory::Wing, wing_id)
}

/// Whether the custom GT wing switch is offered at all: it needs the
/// first GT wing item.
pub fn custom_wing_enabled(items: &Vec<CarItem>) -> (r: bool)
    ensures
        r == spec_owns(items@, ItemCategory::GtWing, 1),
{
    owns_item(items, ItemCategory::GtWing, 1)
}

/// Whether the custom color switch is offered at all: it needs the
/// first custom color item.
pub fn custom_color_enabled(items: &Vec<CarItem>) -> (r: bool)
    ensures
        r == spec_owns(items@, ItemCategory::CustomColor, 1),
{
    owns_item(items, ItemCategory::CustomColor, 1)
}

/// Whether the custom color picker offers a color index.
pub fn custom_color_selectable(items: &Vec<CarItem>, color_index: u32) -> (r: bool)
    ensures
        r == spec_owns(items@, ItemCategory::CustomColor, color_index),
{
    owns_item(items, ItemCategory::CustomColor, color_index)
}

/// Whether the wheel picker offers a wheel: any wheel under force
/// equip, otherwise only an owned one.
pub fn wheel_selectable(items: &Vec<CarItem>, force: bool, wheel_id: u32) -> (r: bool)
    ensures
        r == (force || spec_owns(items@, ItemCategory::Wheel, wheel_id)),
{
    force || owns_item(items, ItemCategory::Wheel, wheel_id)
}

/// The wheel color slots on offer: every slot of the fitted wheel's
/// color table, and none at all on the stock wheel.
pub fn wheel_color_options(wheel: u32, color_count: u32) -> (r: Vec<u32>)
    ensures
        r@.len() == if wheel != 0 {
            color_count as int
        } else {
            0
        },
        forall|i: int| 0 <= i < r@.len() ==> r@[i] == i,
{
    let mut r: Vec<u32> = Vec::new();
    if wheel == 0 {
        return r;
    }
    let mut slot: u32 = 0;
    while slot < color_count
        invariant
            0 <= slot <= color_count,
            r@.len() == slot as int,
            forall|i: int| 0 <= i < r@.len() ==> r@[i] == i,
        decreases color_count - slot,
    {
        r.push(slot);
        slot = slot + 1;
    }
    r
}

/// The part identifiers the catalog offers under `category` that the
/// inventory contains, in catalog order.
pub fn selectable_dressup(
    catalog: &Vec<DressUpItem>,
    items: &Vec<CarItem>,
    category: ItemCategory,
) -> (r: Vec<u32>)
    ensures
        r@ == catalog@.filter(
            |it: DressUpItem| it.category == category && spec_owns(items@, category, it.server_id),
        ).map_values(|it: DressUpItem| it.server_id),
{
    let ghost pred = |it: DressUpItem|
        it.category == category && spec_owns(items@, category, it.server_id);
    let ghost f = |it: DressUpItem| it.server_id;
    let mut r: Vec<u32> = Vec::new();
    let mut i: usize = 0;
    proof {
        reveal(Seq::filter);
        assert(catalog@.take(0int) =~= Seq::<DressUpItem>::empty());
        assert(r@ =~= catalog@.take(0int).filter(pred).map_values(f));
    }
    while i < catalog.len()
        invariant
            0 <= i <= catalog@.len(),
            pred == (|it: DressUpItem|
                it.category == category && spec_owns(items@, category, it.server_id)),
            f == (|it: DressUpItem| it.server_id),
            r@ == catalog@.take(i as int).filter(pred).map_values(f),
        decreases catalog@.len() - i,
    {
        proof {
            reveal(Seq::filter);
            assert(catalog@.take(i + 1).drop_last() =~= catalog@.take(i as int));
            assert(catalog@.take(i + 1).last() == catalog@[i as int]);
        }
        let matches_category = catalog[i].category == category;
        let owned = owns_item(items, category, catalog[i].server_id);
        if matches_category && owned {
            r.push(catalog[i].server_id);
            proof {
                reveal(Seq::filter);
                assert(catalog@.take(i + 1).filter(pred) =~= catalog@.take(i as int).filter(
                    pred,
                ).push(catalog@[i as int]));
                assert(r@ =~= catalog@.take(i + 1).filter(pred).map_values(f));
            }
        } else {
            proof {
                reveal(Seq::filter);
                assert(catalog@.take(i + 1).filter(pred) =~= catalog@.take(i as int).filter(pred));
            }
        }
        i = i + 1;
    }
    proof {
        assert(catalog@.take(catalog@.len() as int) =~= catalog@);
    }
    r
}

} // verus!
