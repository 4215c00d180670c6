use carmenu::menu::{apply_aura, apply_color_mode, apply_wing_state, set_region, CarMenu};
use carmenu::record::{Car, CarSetting, GtWing};
use carmenu::request::{build_update_request, GameMode};

fn sample_car() -> Car {
    Car {
        car_id: Some(77),
        visual_model: Some(12),
        title: String::from("Midnight Runner"),
        level: 30,
        country: None,
        region_id: None,
        custom_color: 3,
        default_color: Some(1),
        rival_marker: Some(2),
        window_decoration: None,
        aura_motif: Some(4),
        custom_frame: None,
        aura: None,
        plate_number: 1234,
        plate: 1,
        plate_color: 2,
        aero: 5,
        mirror: 6,
        bonnet: 7,
        trunk: 8,
        neon: 9,
        wing: 127,
        gt_wing: Some(GtWing {
            pillar: 1,
            pillar_material: 1,
            main_wing: 2,
            main_wing_color: 3,
            wing_tip: 4,
            material: 1,
        }),
        wheel: 10,
        wheel_color: 1,
        last_played_at: Some(1_700_000_000),
    }
}

fn sample_settings() -> CarSetting {
    CarSetting {
        volume: 2,
        bgm: 1,
        meter: 0,
        nameplate: 3,
        terminal_background: 0,
        navigation_map: true,
        retire: false,
        transmission: true,
        view: false,
    }
}

fn sample_menu() -> CarMenu {
    CarMenu {
        play_count: 50,
        odometer: 12_000,
        vs_cool_or_wild: -2,
        vs_smooth_or_rough: 3,
        vs_play_count: 20,
        odometer_buf: String::from("15000"),
        vs_star_count: 4,
        vs_star_count_buf: String::from("not a number"),
        vs_gold_medal: 1,
        vs_silver_medal: 2,
        vs_bronze_medal: 3,
        vs_plain_medal: 4,
        gold_medal_buf: String::from("9"),
        silver_medal_buf: String::from(""),
        bronze_medal_buf: String::from("+8"),
        plain_medal_buf: String::from("99999999999"),
    }
}

#[test]
fn back_always_succeeds() {
    let mut menu = sample_menu();
    assert!(menu.back());
}

#[test]
fn buffers_fall_back_to_held_values() {
    let menu = sample_menu();
    assert_eq!(menu.effective_odometer(), 15_000);
    assert_eq!(menu.effective_star_count(), 4);
    assert_eq!(menu.effective_gold_medal(), 9);
    assert_eq!(menu.effective_silver_medal(), 2);
    assert_eq!(menu.effective_bronze_medal(), 8);
    assert_eq!(menu.effective_plain_medal(), 4);
}

#[test]
fn aura_is_written_in_place() {
    let mut car = sample_car();
    apply_aura(&mut car, 12_000, 0, 1);
    assert_eq!(car.aura, Some(544 + 4 * 128 + 5 * 8 + 2));
    // Nothing else moved.
    assert_eq!(car.level, 30);
    assert_eq!(car.plate_number, 1234);
    assert_eq!(car.title, "Midnight Runner");
}

#[test]
fn region_choice_sets_the_country() {
    let mut car = sample_car();
    set_region(&mut car, false, 13);
    assert_eq!(car.country.as_deref(), Some("JPN"));
    assert_eq!(car.region_id, Some(13));
    set_region(&mut car, true, 47);
    assert_eq!(car.country.as_deref(), Some("GLB"));
    assert_eq!(car.region_id, Some(47));
    assert_eq!(car.level, 30);
}

#[test]
fn plain_color_mode_resets_the_custom_color() {
    let mut car = sample_car();
    apply_color_mode(&mut car, true);
    assert_eq!(car.custom_color, 3);
    apply_color_mode(&mut car, false);
    assert_eq!(car.custom_color, 0);
}

#[test]
fn custom_wing_state_survives_only_wingless_custom() {
    let stock = GtWing {
        pillar: 0,
        pillar_material: 0,
        main_wing: 0,
        main_wing_color: 0,
        wing_tip: 0,
        material: 0,
    };

    let mut car = sample_car();
    apply_wing_state(&mut car, true);
    assert_ne!(car.gt_wing, Some(stock));

    let mut car = sample_car();
    apply_wing_state(&mut car, false);
    assert_eq!(car.gt_wing, Some(stock));

    let mut car = sample_car();
    car.wing = 1;
    apply_wing_state(&mut car, true);
    assert_eq!(car.gt_wing, Some(stock));
}

#[test]
fn save_request_carries_the_effective_values() {
    let menu = sample_menu();
    let car = sample_car();
    let settings = sample_settings();
    let req = menu.save_request(&car, &settings);

    assert_eq!(req.car_id, 77);
    assert_eq!(req.game_mode, GameMode::VsBattle);
    assert_eq!(req.played_at, 1_700_000_000);
    assert_eq!(req.play_count, 50);
    assert_eq!(req.odometer, Some(15_000));
    assert_eq!(req.earned_custom_color, Some(false));
    assert!(!req.retired);
    assert_eq!(req.setting, Some(settings));

    let car_copy = req.car.expect("the record rides along");
    assert_eq!(car_copy.title, "Midnight Runner");
    assert_eq!(car_copy.plate_number, 1234);
    assert_eq!(car_copy.car_id, Some(77));

    let vs = req.vs_result.expect("a versus block rides along");
    assert_eq!(vs.result, 0);
    assert!(vs.survived);
    assert_eq!(vs.num_of_players, 0);
    assert_eq!(vs.area, 0);
    assert!(!vs.is_morning);
    assert_eq!(vs.vs_play_count, 20);
    assert_eq!(vs.vs_star_count, Some(4));
    assert_eq!(vs.vs_triple_star_medals, Some(9));
    assert_eq!(vs.vs_double_star_medals, Some(2));
    assert_eq!(vs.vs_single_star_medals, Some(8));
    assert_eq!(vs.vs_plain_medals, Some(4));
    assert_eq!(vs.vs_cool_or_wild, Some(-2));
    assert_eq!(vs.vs_smooth_or_rough, Some(3));
}

#[test]
fn update_request_files_under_the_cars_id() {
    let car = sample_car();
    let settings = sample_settings();
    let req = build_update_request(&car, &settings);
    assert_eq!(req.car_id, 77);
    assert_eq!(req.setting, Some(settings));
    let car_copy = req.car.expect("the record rides along");
    assert_eq!(car_copy.title, "Midnight Runner");
    assert_eq!(car_copy.wing, 127);
}

#[test]
fn missing_identifiers_read_as_zero() {
    let mut car = sample_car();
    car.car_id = None;
    car.last_played_at = None;
    car.visual_model = None;
    car.default_color = None;
    assert_eq!(car.car_id(), 0);
    assert_eq!(car.last_played_at(), 0);
    assert_eq!(car.visual_model(), 0);
    assert_eq!(car.default_color(), 0);
}
