use trackellite::decimal::Decimal;
use trackellite::messages::{GSConfigMsg, Key, ListMovement, Message};
use trackellite::model::{parse_gsconfig_msg, update, AppState, Model};
use trackellite::records::{GroundSite, TLGroundStation};
use trackellite::station::GSconfigState;

fn station(name: &str, active: bool) -> TLGroundStation {
    TLGroundStation {
        station: GroundSite {
            name: name.to_string(),
            lat: Decimal::parse("10").unwrap(),
            long: Decimal::parse("20").unwrap(),
            alt: Decimal::parse("0.5").unwrap(),
        },
        active,
    }
}

fn gs(model: &mut Model, msg: GSConfigMsg) -> Option<Message> {
    parse_gsconfig_msg(model, msg)
}

fn mv(m: ListMovement) -> GSConfigMsg {
    GSConfigMsg::ListMovement(m)
}

fn type_text(model: &mut Model, text: &str) {
    for c in text.chars() {
        gs(model, GSConfigMsg::LetterTyped(Key::Char(c)));
    }
}

/// Opens the first station's latitude cell for editing.
fn edit_latitude(model: &mut Model) {
    gs(model, mv(ListMovement::Up));
    gs(model, mv(ListMovement::Select));
    gs(model, mv(ListMovement::Right));
    gs(model, mv(ListMovement::Right));
    assert_eq!(model.station_config.table_state.column, Some(2));
    gs(model, mv(ListMovement::Select));
    assert!(model.station_config.editing == GSconfigState::CellEdit);
}

#[test]
fn latitude_91_is_refused_and_90_accepted() {
    let mut model = Model::new(Some(vec![station("Home", true)]), Some(vec![]));
    model.current_state = AppState::GSConfig;
    edit_latitude(&mut model);
    type_text(&mut model, "91");
    gs(&mut model, GSConfigMsg::StopEditing);
    assert!(model.station_config.editing == GSconfigState::CellEdit);
    assert!(model.station_config.current_msg.error);
    assert_eq!(model.station_config.current_msg.text, "Latitude Value out of range");
    assert_eq!(model.station_config.station_list[0].station.lat.as_str(), "10");
    assert_eq!(model.station_config.current_edit_buffer, "91");

    gs(&mut model, GSConfigMsg::Backspace);
    gs(&mut model, GSConfigMsg::Backspace);
    type_text(&mut model, "90");
    gs(&mut model, GSConfigMsg::StopEditing);
    assert_eq!(model.station_config.station_list[0].station.lat.as_str(), "90");
    assert_eq!(model.station_config.table_state.column, Some(3));
    assert!(model.station_config.editing == GSconfigState::CellEdit);
    assert_eq!(model.station_config.current_edit_buffer, "");
}

#[test]
fn latitude_just_above_ninety_is_refused() {
    let mut model = Model::new(Some(vec![station("Home", true)]), Some(vec![]));
    edit_latitude(&mut model);
    type_text(&mut model, "-90.0001");
    gs(&mut model, GSConfigMsg::StopEditing);
    assert_eq!(model.station_config.current_msg.text, "Latitude Value out of range");
    assert_eq!(model.station_config.station_list[0].station.lat.as_str(), "10");
}

#[test]
fn longitude_bound_is_one_eighty() {
    let mut model = Model::new(Some(vec![station("Home", true)]), Some(vec![]));
    edit_latitude(&mut model);
    type_text(&mut model, "45");
    gs(&mut model, GSConfigMsg::StopEditing);
    type_text(&mut model, "180.5");
    gs(&mut model, GSConfigMsg::StopEditing);
    assert_eq!(model.station_config.current_msg.text, "Longitude value out of range");
    assert_eq!(model.station_config.station_list[0].station.long.as_str(), "20");
    gs(&mut model, GSConfigMsg::Backspace);
    gs(&mut model, GSConfigMsg::Backspace);
    gs(&mut model, GSConfigMsg::LetterTyped(Key::Char('-')));
    gs(&mut model, GSConfigMsg::StopEditing);
    assert_eq!(model.station_config.station_list[0].station.long.as_str(), "-180");
    assert_eq!(model.station_config.table_state.column, Some(4));
}

#[test]
fn altitude_has_no_bound_and_last_column_returns_to_rows() {
    let mut model = Model::new(Some(vec![station("Home", true)]), Some(vec![]));
    edit_latitude(&mut model);
    gs(&mut model, GSConfigMsg::StopEditing);
    assert_eq!(model.station_config.current_msg.text, "Unable to parse value");
    type_text(&mut model, "1");
    gs(&mut model, GSConfigMsg::StopEditing);
    type_text(&mut model, "2");
    gs(&mut model, GSConfigMsg::StopEditing);
    type_text(&mut model, "123456.75");
    gs(&mut model, GSConfigMsg::StopEditing);
    let site = &model.station_config.station_list[0].station;
    assert_eq!(site.lat.as_str(), "1");
    assert_eq!(site.long.as_str(), "2");
    assert_eq!(site.alt.as_str(), "123456.75");
    assert!(model.station_config.editing == GSconfigState::RowSelect);
    assert_eq!(model.station_config.current_edit_buffer, "");
}

#[test]
fn unparseable_value_keeps_cell_edit() {
    let mut model = Model::new(Some(vec![station("Home", true)]), Some(vec![]));
    edit_latitude(&mut model);
    type_text(&mut model, "1.2.3");
    gs(&mut model, GSConfigMsg::StopEditing);
    assert!(model.station_config.editing == GSconfigState::CellEdit);
    assert_eq!(model.station_config.current_msg.text, "Unable to parse value");
    assert!(model.station_config.current_msg.error);
}

#[test]
fn numeric_cells_take_digits_dot_and_a_sign_toggle() {
    let mut model = Model::new(Some(vec![station("Home", true)]), Some(vec![]));
    edit_latitude(&mut model);
    type_text(&mut model, "4a5.x");
    assert_eq!(model.station_config.current_edit_buffer, "45.");
    gs(&mut model, GSConfigMsg::LetterTyped(Key::Char('-')));
    assert_eq!(model.station_config.current_edit_buffer, "-45.");
    gs(&mut model, GSConfigMsg::LetterTyped(Key::Char('-')));
    assert_eq!(model.station_config.current_edit_buffer, "45.");
    gs(&mut model, GSConfigMsg::LetterTyped(Key::Up));
    assert_eq!(model.station_config.current_edit_buffer, "45.");
}

#[test]
fn name_commit_moves_to_the_latitude_cell() {
    let mut model = Model::new(Some(vec![station("Home", true)]), Some(vec![]));
    gs(&mut model, mv(ListMovement::Up));
    gs(&mut model, mv(ListMovement::Select));
    gs(&mut model, mv(ListMovement::Right));
    gs(&mut model, mv(ListMovement::Select));
    type_text(&mut model, "Site 9!");
    gs(&mut model, GSConfigMsg::StopEditing);
    assert_eq!(model.station_config.station_list[0].station.name, "Site 9!");
    assert!(model.station_config.editing == GSconfigState::CellSelect);
    assert_eq!(model.station_config.table_state.column, Some(2));
    assert_eq!(model.station_config.current_edit_buffer, "");
}

#[test]
fn add_row_appends_a_zeroed_station() {
    let mut model = Model::new(Some(vec![station("Home", true)]), Some(vec![]));
    gs(&mut model, mv(ListMovement::Down));
    gs(&mut model, mv(ListMovement::Down));
    assert_eq!(model.station_config.table_state.row, Some(1));
    gs(&mut model, mv(ListMovement::Select));
    assert_eq!(model.station_config.station_list.len(), 2);
    let added = &model.station_config.station_list[1];
    assert!(!added.active);
    assert_eq!(added.station.name, "");
    assert_eq!(added.station.lat.as_str(), "0");
    assert_eq!(added.station.long.as_str(), "0");
    assert_eq!(added.station.alt.as_str(), "0");
    assert!(model.station_config.editing == GSconfigState::CellSelect);
    assert_eq!(model.station_config.table_state.column, Some(0));
}

#[test]
fn first_column_toggles_active() {
    let mut model = Model::new(Some(vec![station("Home", false)]), Some(vec![]));
    gs(&mut model, mv(ListMovement::Up));
    gs(&mut model, mv(ListMovement::Select));
    gs(&mut model, mv(ListMovement::Select));
    assert!(model.station_config.station_list[0].active);
    assert!(model.station_config.editing == GSconfigState::CellSelect);
    gs(&mut model, mv(ListMovement::Select));
    assert!(!model.station_config.station_list[0].active);
}

#[test]
fn columns_stop_at_both_ends() {
    let mut model = Model::new(Some(vec![station("Home", false)]), Some(vec![]));
    gs(&mut model, mv(ListMovement::Up));
    gs(&mut model, mv(ListMovement::Select));
    gs(&mut model, mv(ListMovement::Left));
    assert_eq!(model.station_config.table_state.column, Some(0));
    for _ in 0..10 {
        gs(&mut model, mv(ListMovement::Right));
    }
    assert_eq!(model.station_config.table_state.column, Some(4));
}

#[test]
fn back_unwinds_one_level_at_a_time() {
    let mut model = Model::new(Some(vec![station("Home", true)]), Some(vec![]));
    model.current_state = AppState::GSConfig;
    edit_latitude(&mut model);
    type_text(&mut model, "12");
    assert!(gs(&mut model, GSConfigMsg::Back).is_none());
    assert!(model.station_config.editing == GSconfigState::CellSelect);
    assert_eq!(model.station_config.current_edit_buffer, "");
    assert!(gs(&mut model, GSConfigMsg::Back).is_none());
    assert!(model.station_config.editing == GSconfigState::RowSelect);
    assert_eq!(model.station_config.table_state.column, None);
    assert!(matches!(gs(&mut model, GSConfigMsg::Back), Some(Message::ToggleGSConfig)));
}

#[test]
fn row_select_always_has_an_empty_buffer() {
    let mut model = Model::new(Some(vec![station("Home", true)]), Some(vec![]));
    model.current_state = AppState::GSConfig;
    let script = vec![
        mv(ListMovement::Up),
        mv(ListMovement::Select),
        mv(ListMovement::Right),
        mv(ListMovement::Select),
        GSConfigMsg::LetterTyped(Key::Char('x')),
        GSConfigMsg::StopEditing,
        mv(ListMovement::Select),
        GSConfigMsg::LetterTyped(Key::Char('7')),
        GSConfigMsg::StopEditing,
        GSConfigMsg::LetterTyped(Key::Char('8')),
        GSConfigMsg::StopEditing,
        GSConfigMsg::LetterTyped(Key::Char('9')),
        GSConfigMsg::StopEditing,
        mv(ListMovement::Down),
        mv(ListMovement::Select),
        GSConfigMsg::Back,
        GSConfigMsg::Back,
    ];
    for msg in script {
        update(&mut model, Message::GSConfigMsg(msg));
        if model.station_config.editing == GSconfigState::RowSelect {
            assert_eq!(model.station_config.current_edit_buffer, "");
        }
    }
    assert_eq!(model.station_config.station_list[0].station.alt.as_str(), "9");
}

#[test]
fn opening_the_table_resets_its_editing_state() {
    let mut model = Model::new(Some(vec![station("Home", true)]), Some(vec![]));
    edit_latitude(&mut model);
    type_text(&mut model, "12");
    assert!(model.current_state == AppState::Base);
    assert!(update(&mut model, Message::ToggleGSConfig).is_none());
    assert!(model.current_state == AppState::GSConfig);
    assert!(model.station_config.editing == GSconfigState::RowSelect);
    assert_eq!(model.station_config.current_edit_buffer, "");
    assert_eq!(model.station_config.table_state.column, None);
    assert_eq!(model.station_config.station_list[0].station.lat.as_str(), "10");
}
