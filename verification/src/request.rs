//! The two outgoing request records.
//!
//! Pressing Save submits the whole car record as a versus-battle game
//! result; pressing Update submits the record alone to refresh the
//! dress-up state. Both requests are assembled here, field by field,
//! from the panel's state; sending them belongs to the caller.

use vstd::prelude::*;
use crate::menu::CarMenu;
use crate::numeral::spec_parse_u32_or;
use crate::record::{Car, CarSetting, spec_car_id, spec_last_played_at};

verus! {

/// The game mode a saved result is filed under. The panel only submits
/// versus-battle results.
#[derive(PartialEq, Eq, Structural, Clone, Copy, Debug)]
pub enum GameMode {
    VsBattle,
}

/// The versus-battle block of a saved game result.
#[derive(PartialEq, Eq, Structural, Clone, Copy, Debug)]
pub struct VersusBattleResult {
    pub result: u32,
    pub survived: bool,
    pub num_of_players: u32,
    pub area: u32,
    pub is_morning: bool,
    pub vs_play_count: u32,
    pub vs_star_count: Option<u32>,
    pub vs_triple_star_medals: Option<u32>,
    pub vs_double_star_medals: Option<u32>,
    pub vs_single_star_medals: Option<u32>,
    pub vs_plain_medals: Option<u32>,
    pub vs_cool_or_wild: Option<i32>,
    pub vs_smooth_or_rough: Option<i32>,
}

/// A request to save a game result carrying the edited record.
#[derive(Debug)]
pub struct SaveGameResultRequest {
    pub car_id: u32,
    pub game_mode: GameMode,
    pub played_at: u64,
    pub play_count: u32,
    pub car: Option<Car>,
    pub setting: Option<CarSetting>,
    pub odometer: Option<u32>,
    pub earned_custom_color: Option<bool>,
    pub retired: bool,
    pub vs_result: Option<VersusBattleResult>,
}

/// A request to update the car's dress-up state.
#[derive(Debug)]
pub struct UpdateCarRequest {
    pub car: Option<Car>,
    pub car_id: u32,
    pub setting: Option<CarSetting>,
}

/// Assembles a save-game-result request: a versus-battle result that
/// reports no race (result zero, survived, no players, not morning),
/// carries the record, the settings and the given counts wholesale, and
/// never claims a newly earned custom color or a retirement.
pub fn build_save_request(
    car: &Car,
    settings: &CarSetting,
    play_count: u32,
    odometer: u32,
    vs_star_count: u32,
    vs_cool_or_wild: i32,
    vs_smooth_or_rough: i32,
    vs_play_count: u32,
    vs_gold_medal: u32,
    vs_silver_medal: u32,
    vs_bronze_medal: u32,
    vs_plain_medal: u32,
) -> (r: SaveGameResultRequest)
    ensures
        r == (SaveGameResultRequest {
            car_id: spec_car_id(*car),
            game_mode: GameMode::VsBattle,
            played_at: spec_last_played_at(*car),
            play_count: play_count,
            car: Some(*car),
            setting: Some(*settings),
            odometer: Some(odometer),
            earned_custom_color: Some(false),
            retired: false,
            vs_result: Some(
                VersusBattleResult {
                    result: 0,
                    survived: true,
                    num_of_players: 0,
                    area: 0,
                    is_morning: false,
                    vs_play_count: vs_play_count,
                    vs_star_count: Some(vs_star_count),
                    vs_triple_star_medals: Some(vs_gold_medal),
                    vs_double_star_medals: Some(vs_silver_medal),
                    vs_single_star_medals: Some(vs_bronze_medal),
                    vs_plain_medals: Some(vs_plain_medal),
                    vs_cool_or_wild: Some(vs_cool_or_wild),
                    vs_smooth_or_rough: Some(vs_smooth_or_rough),
                },
            ),
        }),
{
    SaveGameResultRequest {
        car_id: car.car_id(),
        game_mode: GameMode::VsBattle,
        played_at: car.last_played_at(),
        play_count,
        car: Some(car.clone()),
        setting: Some(*settings),
        odometer: Some(odometer),
        earned_custom_color: Some(false),
        retired: false,
        vs_result: Some(
            VersusBattleResult {
                result: 0,
                survived: true,
                num_of_players: 0,
                area: 0,
                is_morning: false,
                vs_play_count,
                vs_star_count: Some(vs_star_count),
                vs_triple_star_medals: Some(vs_gold_medal),
                vs_double_star_medals: Some(vs_silver_medal),
                vs_single_star_medals: Some(vs_bronze_medal),
                vs_plain_medals: Some(vs_plain_medal),
                vs_cool_or_wild: Some(vs_cool_or_wild),
                vs_smooth_or_rough: Some(vs_smooth_or_rough),
            },
        ),
    }
}

/// Assembles an update-car request: the record and its settings, filed
/// under the record's own identifier.
pub fn build_update_request(car: &Car, settings: &CarSetting) -> (r: UpdateCarRequest)
    ensures
        r == (UpdateCarRequest {
            car: Some(*car),
            car_id: spec_car_id(*car),
            setting: Some(*settings),
        }),
{
    UpdateCarRequest { car: Some(car.clone()), car_id: car.car_id(), setting: Some(*settings) }
}

impl CarMenu {
    /// The save request the panel's Save button submits: the record and
    /// settings as edited, with every numeric buffer read back over its
    /// held value.
    pub fn save_request(&self, car: &Car, settings: &CarSetting) -> (r: SaveGameResultRequest)
        ensures
            r == (SaveGameResultRequest {
                car_id: spec_car_id(*car),
                game_mode: GameMode::VsBattle,
                played_at: spec_last_played_at(*car),
                play_count: self.play_count,
                car: Some(*car),
                setting: Some(*settings),
                odometer: Some(spec_parse_u32_or(self.odometer_buf@, self.odometer)),
                earned_custom_color: Some(false),
                retired: false,
                vs_result: Some(
                    VersusBattleResult {
                        result: 0,
                        survived: true,
                        num_of_players: 0,
                        area: 0,
                        is_morning: false,
                        vs_play_count: self.vs_play_count,
                        vs_star_count: Some(
                            spec_parse_u32_or(self.vs_star_count_buf@, self.vs_star_count),
                        ),
                        vs_triple_star_medals: Some(
                            spec_parse_u32_or(self.gold_medal_buf@, self.vs_gold_medal),
                        ),
                        vs_double_star_medals: Some(
                            spec_parse_u32_or(self.silver_medal_buf@, self.vs_silver_medal),
                        ),
                        vs_single_star_medals: Some(
                            spec_parse_u32_or(self.bronze_medal_buf@, self.vs_bronze_medal),
                        ),
                        vs_plain_medals: Some(
                            spec_parse_u32_or(self.plain_medal_buf@, self.vs_plain_medal),
                        ),
                        vs_cool_or_wild: Some(self.vs_cool_or_wild),
                        vs_smooth_or_rough: Some(self.vs_smooth_or_rough),
                    },
                ),
            }),
    {
        build_save_request(
            car,
            settings,
            self.play_count,
            self.effective_odometer(),
            self.effective_star_count(),
            self.vs_cool_or_wild,
            self.vs_smooth_or_rough,
            self.vs_play_count,
            self.effective_gold_medal(),
            self.effective_silver_medal(),
            self.effective_bronze_medal(),
            self.effective_plain_medal(),
        )
    }
}

} // verus!
