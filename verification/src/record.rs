//! The car record and its settings.
//!
//! A flat model of the save record the panel edits: the car's visual
//! fields (dress-up parts, colors, plate, wing, wheel), its progress
//! fields (level, aura, region) and the per-car settings (volume, music,
//! meter, nameplate, terminal background and a few switches). Optional
//! fields mirror the save format: a missing value reads as zero.

use vstd::prelude::*;

verus! {

/// The sub-options of a custom GT wing.
#[derive(PartialEq, Eq, Structural, Clone, Copy, Debug)]
pub struct GtWing {
    pub pillar: u32,
    pub pillar_material: u32,
    pub main_wing: u32,
    pub main_wing_color: u32,
    pub wing_tip: u32,
    pub material: u32,
}

/// The stock GT wing state: every sub-option zeroed.
pub open spec fn spec_stock_gt_wing() -> GtWing {
    GtWing {
        pillar: 0,
        pillar_material: 0,
        main_wing: 0,
        main_wing_color: 0,
        wing_tip: 0,
        material: 0,
    }
}

impl GtWing {
    /// Builds the stock GT wing state.
    pub fn stock() -> (r: GtWing)
        ensures
            r == spec_stock_gt_wing(),
    {
        GtWing {
            pillar: 0,
            pillar_material: 0,
            main_wing: 0,
            main_wing_color: 0,
            wing_tip: 0,
            material: 0,
        }
    }
}

/// The car record under edit.
#[derive(Debug)]
pub struct Car {
    pub car_id: Option<u32>,
    pub visual_model: Option<u32>,
    pub title: String,
    pub level: u32,
    pub country: Option<String>,
    pub region_id: Option<u32>,
    pub custom_color: u32,
    pub default_color: Option<u32>,
    pub rival_marker: Option<u32>,
    pub window_decoration: Option<u32>,
    pub aura_motif: Option<u32>,
    pub custom_frame: Option<u32>,
    pub aura: Option<u32>,
    pub plate_number: u32,
    pub plate: u32,
    pub plate_color: u32,
    pub aero: u32,
    pub mirror: u32,
    pub bonnet: u32,
    pub trunk: u32,
    pub neon: u32,
    pub wing: u32,
    pub gt_wing: Option<GtWing>,
    pub wheel: u32,
    pub wheel_color: u32,
    pub last_played_at: Option<u64>,
}

impl Clone for Car {
    /// A clone carries every field over unchanged.
    fn clone(&self) -> (r: Car)
        ensures
            r == *self,
    {
        Car {
            car_id: self.car_id,
            visual_model: self.visual_model,
            title: self.title.clone(),
            level: self.level,
            country: match &self.country {
                Some(c) => Some(c.clone()),
                None => None,
            },
            region_id: self.region_id,
            custom_color: self.custom_color,
            default_color: self.default_color,
            rival_marker: self.rival_marker,
            window_decoration: self.window_decoration,
            aura_motif: self.aura_motif,
            custom_frame: self.custom_frame,
            aura: self.aura,
            plate_number: self.plate_number,
            plate: self.plate,
            plate_color: self.plate_color,
            aero: self.aero,
            mirror: self.mirror,
            bonnet: self.bonnet,
            trunk: self.trunk,
            neon: self.neon,
            wing: self.wing,
            gt_wing: self.gt_wing,
            wheel: self.wheel,
            wheel_color: self.wheel_color,
            last_played_at: self.last_played_at,
        }
    }
}

/// The car identifier, zero when the record has none.
pub open spec fn spec_car_id(car: Car) -> u32 {
    match car.car_id {
        Some(v) => v,
        None => 0,
    }
}

/// The visual model, zero when the record has none.
pub open spec fn spec_visual_model(car: Car) -> u32 {
    match car.visual_model {
        Some(v) => v,
        None => 0,
    }
}

/// The default color index, zero when the record has none.
pub open spec fn spec_default_color(car: Car) -> u32 {
    match car.default_color {
        Some(v) => v,
        None => 0,
    }
}

/// The last-played timestamp, zero when the record has none.
pub open spec fn spec_last_played_at(car: Car) -> u64 {
    match car.last_played_at {
        Some(v) => v,
        None => 0,
    }
}

impl Car {
    /// The car identifier, zero when unset.
    pub fn car_id(&self) -> (r: u32)
        ensures
            r == spec_car_id(*self),
    {
        match self.car_id {
            Some(v) => v,
            None => 0,
        }
    }

    /// The visual model, zero when unset.
    pub fn visual_model(&self) -> (r: u32)
        ensures
            r == spec_visual_model(*self),
    {
        match self.visual_model {
            Some(v) => v,
            None => 0,
        }
    }

    /// The default color index, zero when unset.
    pub fn default_color(&self) -> (r: u32)
        ensures
            r == spec_default_color(*self),
    {
        match self.default_color {
            Some(v) => v,
            None => 0,
        }
    }

    /// The last-played timestamp, zero when unset.
    pub fn last_played_at(&self) -> (r: u64)
        ensures
            r == spec_last_played_at(*self),
    {
        match self.last_played_at {
            Some(v) => v,
            None => 0,
        }
    }
}

/// The per-car settings record.
#[derive(PartialEq, Eq, Structural, Clone, Copy, Debug)]
pub struct CarSetting {
    pub volume: u32,
    pub bgm: u32,
    pub meter: u32,
    pub nameplate: u32,
    pub terminal_background: u32,
    pub navigation_map: bool,
    pub retire: bool,
    pub transmission: bool,
    pub view: bool,
}

} // verus!
