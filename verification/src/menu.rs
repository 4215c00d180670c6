//! The editor panel's state and the edits it commits.
//!
//! `CarMenu` holds the numeric fields the panel edits through free-text
//! buffers, alongside the values they fall back to. Committing a buffer
//! reads it as a decimal numeral and keeps the prior value where the
//! text is no numeral; the plate number is additionally clamped to the
//! range the plate accepts. The remaining edits write single fields of
//! the car record and leave everything else untouched.

use vstd::prelude::*;
use crate::aura::{aura_value, spec_aura, spec_mileage_tier};
use crate::numeral::{parse_u32, parse_u32_or, spec_parse_u32, spec_parse_u32_or};
use crate::record::{Car, GtWing, spec_stock_gt_wing};

verus! {

/// The state of the editor panel: the medal, star and odometer fields
/// with their text buffers, and the driving-style coordinate.
#[derive(Debug)]
pub struct CarMenu {
    pub play_count: u32,
    pub odometer: u32,
    pub vs_cool_or_wild: i32,
    pub vs_smooth_or_rough: i32,
    pub vs_play_count: u32,
    pub odometer_buf: String,
    pub vs_star_count: u32,
    pub vs_star_count_buf: String,
    pub vs_gold_medal: u32,
    pub vs_silver_medal: u32,
    pub vs_bronze_medal: u32,
    pub vs_plain_medal: u32,
    pub gold_medal_buf: String,
    pub silver_medal_buf: String,
    pub bronze_medal_buf: String,
    pub plain_medal_buf: String,
}

impl CarMenu {
    /// Leaving the panel always succeeds.
    pub fn back(&mut self) -> (r: bool)
        ensures
            r == true,
            *final(self) == *old(self),
    {
        true
    }

    /// The odometer value the panel submits: the buffer's numeral, or
    /// the held odometer where the buffer is no numeral.
    pub fn effective_odometer(&self) -> (r: u32)
        ensures
            r == spec_parse_u32_or(self.odometer_buf@, self.odometer),
    {
        parse_u32_or(self.odometer_buf.as_str(), self.odometer)
    }

    /// The star count the panel submits.
    pub fn effective_star_count(&self) -> (r: u32)
        ensures
            r == spec_parse_u32_or(self.vs_star_count_buf@, self.vs_star_count),
    {
        parse_u32_or(self.vs_star_count_buf.as_str(), self.vs_star_count)
    }

    /// The gold medal count the panel submits.
    pub fn effective_gold_medal(&self) -> (r: u32)
        ensures
            r == spec_parse_u32_or(self.gold_medal_buf@, self.vs_gold_medal),
    {
        parse_u32_or(self.gold_medal_buf.as_str(), self.vs_gold_medal)
    }

    /// The silver medal count the panel submits.
    pub fn effective_silver_medal(&self) -> (r: u32)
        ensures
            r == spec_parse_u32_or(self.silver_medal_buf@, self.vs_silver_medal),
    {
        parse_u32_or(self.silver_medal_buf.as_str(), self.vs_silver_medal)
    }

    /// The bronze medal count the panel submits.
    pub fn effective_bronze_medal(&self) -> (r: u32)
        ensures
            r == spec_parse_u32_or(self.bronze_medal_buf@, self.vs_bronze_medal),
    {
        parse_u32_or(self.bronze_medal_buf.as_str(), self.vs_bronze_medal)
    }

    /// The plain medal count the panel submits.
    pub fn effective_plain_medal(&self) -> (r: u32)
        ensures
            r == spec_parse_u32_or(self.plain_medal_buf@, self.vs_plain_medal),
    {
        parse_u32_or(self.plain_medal_buf.as_str(), self.vs_plain_medal)
    }
}

/// The plate number a text buffer commits: its numeral clamped to at
/// most 9999, or the current number where the text is no numeral.
pub open spec fn spec_commit_plate_number(current: u32, text: Seq<char>) -> u32 {
    match spec_parse_u32(text) {
        Some(v) => if v > 9999 {
            9999
        } else {
            v
        },
        None => current,
    }
}

/// Reads a plate number from its text buffer, keeping the current
/// number where the text is no numeral.
pub fn commit_plate_number(current: u32, text: &str) -> (r: u32)
    ensures
        r == spec_commit_plate_number(current, text@),
{
    match parse_u32(text) {
        Some(v) => if v > 9999 {
            9999
        } else {
            v
        },
        None => current,
    }
}

/// Writes the aura computed from the odometer and the driving-style
/// coordinate into the car record; nothing else changes.
pub fn apply_aura(car: &mut Car, odometer: u32, cool_or_wild: i32, smooth_or_rough: i32)
    requires
        -4 <= cool_or_wild <= 4,
        -4 <= smooth_or_rough <= 4,
    ensures
        *final(car) == (Car {
            aura: Some(
                spec_aura(
                    cool_or_wild as int,
                    smooth_or_rough as int,
                    spec_mileage_tier(odometer) as int,
                ) as u32,
            ),
            ..*old(car)
        }),
{
    let aura = aura_value(odometer, cool_or_wild, smooth_or_rough);
    car.aura = Some(aura);
}

/// Writes the region choice: the country code follows the region table
/// in use (`GLB` against the global table, `JPN` against the prefecture
/// table) and the region identifier is the picked entry; nothing else
/// changes.
pub fn set_region(car: &mut Car, glb: bool, region_id: u32)
    requires
        1 <= region_id <= 47,
    ensures
        *final(car) == (Car {
            country: final(car).country,
            region_id: Some(region_id),
            ..*old(car)
        }),
        final(car).country is Some,
        final(car).country->Some_0@ == if glb {
            "GLB"@
        } else {
            "JPN"@
        },
{
    if glb {
        car.country = Some(String::from_str("GLB"));
    } else {
        car.country = Some(String::from_str("JPN"));
    }
    car.region_id = Some(region_id);
}

/// Leaves the record as the color mode demands: plain mode resets the
/// custom color to the first entry, custom mode changes nothing.
pub fn apply_color_mode(car: &mut Car, custom_color: bool)
    ensures
        *final(car) == (Car {
            custom_color: if custom_color {
                old(car).custom_color
            } else {
                0
            },
            ..*old(car)
        }),
{
    if !custom_color {
        car.custom_color = 0;
    }
}

/// Leaves the record as the wing choice demands: the GT wing sub-options
/// stay only while a custom GT wing is in use (the wingless body, 127,
/// with the custom switch on); any other choice resets them to stock.
pub fn apply_wing_state(car: &mut Car, custom: bool)
    ensures
        *final(car) == (Car {
            gt_wing: if old(car).wing == 127 && custom {
                old(car).gt_wing
            } else {
                Some(spec_stock_gt_wing())
            },
            ..*old(car)
        }),
{
    if !(car.wing == 127 && custom) {
        car.gt_wing = Some(GtWing::stock());
    }
}

} // verus!
