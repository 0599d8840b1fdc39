use trackellite::decimal::Decimal;
use trackellite::keys::{handle_key, idle_tick};
use trackellite::messages::{Effect, Key, Message};
use trackellite::model::{update, AppState, Model};
use trackellite::passes::{gather_passes, horizon_end, passes_stale, HORIZON_SECONDS};
use trackellite::records::{
    CalendarDate, ElementSet, GroundSite, MetaData, PassWindow, StationPasses, TLGroundStation, TLPass, TLSatellite,
};

fn site(name: &str) -> GroundSite {
    GroundSite {
        name: name.to_string(),
        lat: Decimal::parse("1").unwrap(),
        long: Decimal::parse("2").unwrap(),
        alt: Decimal::parse("3").unwrap(),
    }
}

fn window(aos: i64, los: i64) -> PassWindow {
    PassWindow { aos, los, tme: (aos + los) / 2, max_elevation: Decimal::parse("45.5").unwrap() }
}

fn pass(aos: i64, los: i64) -> TLPass {
    TLPass { pass: window(aos, los), station: site("A") }
}

fn sat() -> TLSatellite {
    TLSatellite {
        satellite: ElementSet { norad_id: 25544, name: "ISS".to_string(), tle: "elements".to_string() },
        metadata: MetaData {
            owner: "US".to_string(),
            launch_date: CalendarDate { year: 1998, month: 11, day: 20 },
            object_id: "1998-067A".to_string(),
            inclination: Decimal::parse("51.6").unwrap(),
        },
    }
}

#[test]
fn gathered_passes_are_sorted_and_stable() {
    let per = vec![
        StationPasses { station: site("A"), passes: vec![window(300, 400), window(100, 150)] },
        StationPasses { station: site("B"), passes: vec![window(100, 160), window(50, 60)] },
    ];
    let r = gather_passes(&per);
    let got: Vec<(i64, i64, String)> = r.iter().map(|p| (p.pass.aos, p.pass.los, p.station.name.clone())).collect();
    assert_eq!(
        got,
        vec![
            (50, 60, "B".to_string()),
            (100, 150, "A".to_string()),
            (100, 160, "B".to_string()),
            (300, 400, "A".to_string()),
        ]
    );
}

#[test]
fn recompute_over_active_stations() {
    let stations = vec![
        TLGroundStation { station: site("A"), active: true },
        TLGroundStation { station: site("OFF"), active: false },
        TLGroundStation { station: site("B"), active: true },
    ];
    let mut model = Model::new(Some(stations), Some(vec![]));
    model.current_satellite = Some(sat());
    let effect = update(&mut model, Message::PropagatePasses);
    let sites = match effect {
        Some(Effect::ComputePasses(el, sites)) => {
            assert_eq!(el.norad_id, 25544);
            sites
        },
        _ => panic!("passes should be computed"),
    };
    let names: Vec<String> = sites.iter().map(|s| s.name.clone()).collect();
    assert_eq!(names, vec!["A".to_string(), "B".to_string()]);
    let per = vec![
        StationPasses { station: site("A"), passes: vec![window(900, 1000)] },
        StationPasses { station: site("B"), passes: vec![window(200, 300), window(950, 990)] },
    ];
    assert!(update(&mut model, Message::PassesComputed(per)).is_none());
    let aos: Vec<i64> = model.upcoming_passes.iter().map(|p| p.pass.aos).collect();
    assert_eq!(aos, vec![200, 900, 950]);
    assert_eq!(model.upcoming_passes[0].station.name, "B");
}

#[test]
fn no_active_station_or_satellite_empties_the_list() {
    let stations = vec![TLGroundStation { station: site("OFF"), active: false }];
    let mut model = Model::new(Some(stations), Some(vec![]));
    model.current_satellite = Some(sat());
    model.upcoming_passes = vec![pass(1, 2)];
    assert!(update(&mut model, Message::PropagatePasses).is_none());
    assert!(model.upcoming_passes.is_empty());

    let stations = vec![TLGroundStation { station: site("ON"), active: true }];
    let mut model = Model::new(Some(stations), Some(vec![]));
    model.upcoming_passes = vec![pass(1, 2)];
    assert!(update(&mut model, Message::PropagatePasses).is_none());
    assert!(model.upcoming_passes.is_empty());
}

#[test]
fn closing_the_station_table_saves_then_recomputes() {
    let stations = vec![TLGroundStation { station: site("A"), active: true }];
    let mut model = Model::new(Some(stations), Some(vec![]));
    model.current_satellite = Some(sat());
    assert!(update(&mut model, Message::ToggleGSConfig).is_none());
    assert!(model.current_state == AppState::GSConfig);
    let effect = update(&mut model, Message::ToggleGSConfig);
    assert!(matches!(effect, Some(Effect::SaveStations)));
    assert!(model.current_state == AppState::Base);
    let effect = update(&mut model, Message::StationsSaved(true));
    assert!(matches!(effect, Some(Effect::ComputePasses(_, _))));
    assert!(!model.station_config.current_msg.error);
    let effect = update(&mut model, Message::StationsSaved(false));
    assert!(matches!(effect, Some(Effect::ComputePasses(_, _))));
    assert!(model.station_config.current_msg.error);
    assert_eq!(model.station_config.current_msg.text, "Unable to save Ground Stations");
}

#[test]
fn stale_first_pass_triggers_a_recompute() {
    let mut model = Model::new(Some(vec![]), Some(vec![]));
    model.upcoming_passes = vec![pass(1000, 2000), pass(5000, 6000)];
    assert!(matches!(idle_tick(&model, 2031), Some(Message::PropagatePasses)));
    assert!(idle_tick(&model, 2030).is_none());
    assert!(idle_tick(&model, 1500).is_none());
    assert!(idle_tick(&model, 100).is_none());
    model.upcoming_passes = vec![];
    assert!(idle_tick(&model, 1_000_000).is_none());
    assert!(passes_stale(&vec![pass(0, i64::MIN)], i64::MAX));
}

#[test]
fn horizon_is_three_days() {
    assert_eq!(HORIZON_SECONDS, 3 * 24 * 3600);
    assert_eq!(horizon_end(1_700_000_000), 1_700_259_200);
    assert_eq!(horizon_end(i64::MAX - 5), i64::MAX);
}

#[test]
fn keys_follow_the_mode() {
    let mut model = Model::new(Some(vec![]), Some(vec![]));
    assert!(matches!(handle_key(&model, Key::Char('q')), Some(Message::Close)));
    assert!(matches!(handle_key(&model, Key::Char('g')), Some(Message::ToggleGSConfig)));
    assert!(matches!(handle_key(&model, Key::Char('s')), Some(Message::ToggleSatConfig)));
    assert!(handle_key(&model, Key::Char('x')).is_none());
    update(&mut model, Message::ToggleSatConfig);
    assert!(matches!(handle_key(&model, Key::Esc), Some(Message::ToggleSatConfig)));
    model.current_state = AppState::SatAddition;
    assert!(handle_key(&model, Key::Char('1')).is_none());
    model.sat_config.add_sat.editing = true;
    assert!(matches!(handle_key(&model, Key::Char('1')), Some(Message::AddSatMessage(_))));
    model.current_state = AppState::GSConfig;
    assert!(matches!(handle_key(&model, Key::Char('q')), Some(Message::ToggleGSConfig)));
}

#[test]
fn close_sets_exit() {
    let mut model = Model::new(Some(vec![]), Some(vec![]));
    assert!(update(&mut model, Message::Close).is_none());
    assert!(model.exit);
}
