use trackellite::addsat::{is_pasteable, parse_catalog_number, AddSatSel};
use trackellite::cache::{satellite_entries, upsert_text, CacheMap};
use trackellite::decimal::Decimal;
use trackellite::messages::{
    AddSatMsg, Effect, ElementsRequest, FetchFailure, Key, ListMovement, Message, SatList, SaveReason,
};
use trackellite::model::{update, AppState, Model};
use trackellite::records::{CalendarDate, ElementSet, MetaData, TLSatellite};

const ISS_TLE: &str = "ISS (ZARYA)\n1 25544U 98067A   24001.50000000  .00016717  00000-0  10270-3 0  9005\n2 25544  51.6416 247.4627 0006703 130.5360 325.0288 15.49815552 12345";

fn iss_elements() -> ElementSet {
    ElementSet { norad_id: 25544, name: "ISS (ZARYA)".to_string(), tle: ISS_TLE.to_string() }
}

fn iss_metadata() -> MetaData {
    MetaData {
        owner: "US".to_string(),
        launch_date: CalendarDate { year: 1998, month: 11, day: 20 },
        object_id: "1998-067A".to_string(),
        inclination: Decimal::parse("51.6").unwrap(),
    }
}

fn satellite(id: u64, name: &str) -> TLSatellite {
    TLSatellite {
        satellite: ElementSet { norad_id: id, name: name.to_string(), tle: format!("tle of {}", name) },
        metadata: iss_metadata(),
    }
}

fn add_form_model() -> Model {
    let mut model = Model::new(Some(vec![]), Some(vec![satellite(1, "ONE")]));
    model.current_state = AppState::SatSelect;
    update(&mut model, Message::SatListMessage(SatList::AddSatellite));
    model
}

fn type_text(model: &mut Model, text: &str) {
    for c in text.chars() {
        update(model, Message::AddSatMessage(AddSatMsg::LetterTyped(Key::Char(c))));
    }
}

#[test]
fn adding_25544_end_to_end() {
    let mut model = add_form_model();
    assert!(model.current_state == AppState::SatAddition);
    update(&mut model, Message::AddSatMessage(AddSatMsg::ToggleEditing));
    type_text(&mut model, "25544");
    let effect = update(&mut model, Message::AddSatMessage(AddSatMsg::StopEditing));
    assert!(matches!(effect, Some(Effect::FetchElements(25544, ElementsRequest::AddById))));

    let effect = update(&mut model, Message::ElementsReceived(ElementsRequest::AddById, Ok(iss_elements())));
    let elements = match effect {
        Some(Effect::FetchMetadata(el)) => el,
        _ => panic!("metadata should be asked for"),
    };
    assert_eq!(elements.norad_id, 25544);

    let effect = update(&mut model, Message::MetadataReceived(elements, Ok(iss_metadata())));
    assert!(matches!(effect, Some(Effect::SaveSatellites(SaveReason::Added))));
    assert_eq!(model.sat_config.satellite_list.len(), 2);

    let encoded: Vec<String> = model.sat_config.satellite_list.iter().map(|s| s.satellite.name.clone()).collect();
    let entries = satellite_entries(&model.sat_config.satellite_list, encoded);
    let file = upsert_text(None, entries);
    assert!(CacheMap::load(Some(&file)).contains_key("25544"));

    let effect = update(&mut model, Message::SatellitesSaved(SaveReason::Added, true));
    assert!(effect.is_none());
    assert!(model.current_state == AppState::SatSelect);
    assert!(!model.sat_config.current_message.error);
    assert_eq!(model.sat_config.current_message.text, "Loaded Satellite");
    assert_eq!(model.sat_config.add_sat.text, "");
    assert!(!model.sat_config.add_sat.editing);
}

#[test]
fn norad_field_takes_five_digits_at_most() {
    let mut model = add_form_model();
    update(&mut model, Message::AddSatMessage(AddSatMsg::ToggleEditing));
    type_text(&mut model, "12a3456");
    assert_eq!(model.sat_config.add_sat.text, "12345");
}

#[test]
fn typing_is_ignored_outside_editing() {
    let mut model = add_form_model();
    type_text(&mut model, "123");
    update(&mut model, Message::AddSatMessage(AddSatMsg::Backspace));
    assert_eq!(model.sat_config.add_sat.text, "");
}

#[test]
fn unreadable_norad_id_resets_the_field() {
    let mut model = add_form_model();
    update(&mut model, Message::AddSatMessage(AddSatMsg::ToggleEditing));
    type_text(&mut model, "2.5");
    let effect = update(&mut model, Message::AddSatMessage(AddSatMsg::StopEditing));
    assert!(effect.is_none());
    assert_eq!(model.sat_config.current_message.text, "Could not read NORAD ID");
    assert!(model.sat_config.current_message.error);
    assert_eq!(model.sat_config.add_sat.text, "");
    assert!(!model.sat_config.add_sat.editing);
}

#[test]
fn fetch_failures_name_their_stage() {
    let mut model = add_form_model();
    update(&mut model, Message::ElementsReceived(ElementsRequest::AddById, Err(FetchFailure::Rejected)));
    assert_eq!(model.sat_config.current_message.text, "Failed to collect TLE from celestrak");
    update(&mut model, Message::MetadataReceived(iss_elements(), Err(FetchFailure::Unreachable)));
    assert_eq!(model.sat_config.current_message.text, "Failed to collect SUP Data from celestrak");
    update(&mut model, Message::ElementsReceived(ElementsRequest::AddById, Err(FetchFailure::Unreachable)));
    assert_eq!(model.sat_config.current_message.text, "Failed to collect TLE from celestrak");
    update(&mut model, Message::ElementsReceived(ElementsRequest::AddFromText, Err(FetchFailure::Rejected)));
    assert_eq!(model.sat_config.current_message.text, "Could not read TLE");
    update(&mut model, Message::MetadataReceived(iss_elements(), Err(FetchFailure::Rejected)));
    assert_eq!(model.sat_config.current_message.text, "Failed to collect SUP Data from celestrak");
    update(&mut model, Message::ElementsReceived(ElementsRequest::Refresh(0), Err(FetchFailure::Unreachable)));
    assert_eq!(model.sat_config.current_message.text, "Failed to collect TLE from celestrak");
    assert!(model.sat_config.current_message.error);
    assert_eq!(model.sat_config.satellite_list.len(), 1);
}

#[test]
fn failed_save_after_addition_is_shown() {
    let mut model = add_form_model();
    update(&mut model, Message::MetadataReceived(iss_elements(), Ok(iss_metadata())));
    update(&mut model, Message::SatellitesSaved(SaveReason::Added, false));
    assert_eq!(model.sat_config.current_message.text, "Unable to cache TLE data");
    assert!(model.current_state == AppState::SatAddition);
}

#[test]
fn pasted_text_is_parsed_then_completed() {
    let mut model = add_form_model();
    update(&mut model, Message::AddSatMessage(AddSatMsg::ChangeSelection));
    assert!(model.sat_config.add_sat.selected == AddSatSel::TLEBox);
    let effect = update(&mut model, Message::AddSatMessage(AddSatMsg::PasteTLE));
    assert!(matches!(effect, Some(Effect::ReadClipboard)));
    let line = "x".repeat(70);
    let clip = format!("{}\n{}\n", line, line);
    update(&mut model, Message::ClipboardRead(clip.clone()));
    assert_eq!(model.sat_config.current_message.text, "Pasted TLE");
    assert!(!model.sat_config.current_message.error);
    assert!(model.sat_config.add_sat.editing);
    assert_eq!(model.sat_config.add_sat.text, clip);
    let effect = update(&mut model, Message::AddSatMessage(AddSatMsg::StopEditing));
    match effect {
        Some(Effect::ParseElements(text)) => assert_eq!(text, clip),
        _ => panic!("the text should be parsed"),
    }
    let effect = update(&mut model, Message::ElementsReceived(ElementsRequest::AddFromText, Ok(iss_elements())));
    assert!(matches!(effect, Some(Effect::FetchMetadata(_))));
}

#[test]
fn short_clipboard_text_is_not_pasted() {
    let mut model = add_form_model();
    update(&mut model, Message::AddSatMessage(AddSatMsg::ChangeSelection));
    update(&mut model, Message::ClipboardRead("1 25544U short".to_string()));
    assert_eq!(model.sat_config.current_message.text, "Unable to paste TLE");
    assert!(model.sat_config.current_message.error);
    assert_eq!(model.sat_config.add_sat.text, "");
    assert!(!model.sat_config.add_sat.editing);
}

#[test]
fn paste_needs_the_element_field() {
    let mut model = add_form_model();
    let effect = update(&mut model, Message::AddSatMessage(AddSatMsg::PasteTLE));
    assert!(effect.is_none());
}

#[test]
fn paste_heuristic_counts_lines() {
    let line = "y".repeat(70);
    assert!(is_pasteable(&line));
    assert!(is_pasteable(&format!("{}\r\n{}\r\n{}", line, line, line)));
    assert!(!is_pasteable(&format!("{}\n{}\n{}\n{}", line, line, line, line)));
    assert!(!is_pasteable(&format!("{}\n{}", line, "z".repeat(69))));
    assert!(!is_pasteable(&format!("{}\n\n{}", line, line)));
    assert!(!is_pasteable(""));
    assert!(!is_pasteable(&format!("{}\r\n", "w".repeat(69))));
    assert!(is_pasteable(&format!("{}\r", "w".repeat(69))));
}

#[test]
fn catalog_numbers() {
    assert_eq!(parse_catalog_number("25544"), Some(25544));
    assert_eq!(parse_catalog_number("007"), Some(7));
    assert_eq!(parse_catalog_number(""), None);
    assert_eq!(parse_catalog_number("2.5"), None);
    assert_eq!(parse_catalog_number("18446744073709551615"), Some(u64::MAX));
    assert_eq!(parse_catalog_number("18446744073709551616"), None);
}

#[test]
fn selecting_the_add_row_opens_the_form() {
    let mut model = Model::new(Some(vec![]), Some(vec![satellite(1, "ONE")]));
    model.current_state = AppState::SatSelect;
    update(&mut model, Message::SatListMessage(SatList::ListMovement(ListMovement::Down)));
    update(&mut model, Message::SatListMessage(SatList::ListMovement(ListMovement::Down)));
    assert_eq!(model.sat_config.list_state.selected, Some(1));
    update(&mut model, Message::SatListMessage(SatList::ListMovement(ListMovement::Select)));
    assert!(model.current_state == AppState::SatAddition);
}

#[test]
fn selecting_a_satellite_closes_the_list() {
    let mut model = Model::new(Some(vec![]), Some(vec![satellite(1, "ONE"), satellite(2, "TWO")]));
    model.current_state = AppState::SatSelect;
    model.sat_config.current_message.text = "old".to_string();
    update(&mut model, Message::SatListMessage(SatList::ListMovement(ListMovement::Down)));
    update(&mut model, Message::SatListMessage(SatList::ListMovement(ListMovement::Select)));
    assert_eq!(model.current_satellite.as_ref().unwrap().satellite.norad_id, 2);
    assert!(model.current_state == AppState::Base);
    assert_eq!(model.sat_config.current_message.text, "");
    assert_eq!(model.upcoming_passes.len(), 0);
}

#[test]
fn copy_and_refresh_ask_for_outside_work() {
    let mut model = Model::new(Some(vec![]), Some(vec![satellite(5, "FIVE")]));
    model.current_state = AppState::SatSelect;
    assert!(update(&mut model, Message::SatListMessage(SatList::CopyTLE)).is_none());
    update(&mut model, Message::SatListMessage(SatList::ListMovement(ListMovement::Up)));
    match update(&mut model, Message::SatListMessage(SatList::CopyTLE)) {
        Some(Effect::WriteClipboard(text)) => assert_eq!(text, "tle of FIVE"),
        _ => panic!("the elements should be copied"),
    }
    update(&mut model, Message::ClipboardWritten(true));
    assert_eq!(model.sat_config.current_message.text, "Copied TLE to clipboard");
    update(&mut model, Message::ClipboardWritten(false));
    assert_eq!(model.sat_config.current_message.text, "Failed to copy to clipboard!");
    assert!(model.sat_config.current_message.error);
    let effect = update(&mut model, Message::SatListMessage(SatList::FetchTLE));
    assert!(matches!(effect, Some(Effect::FetchElements(5, ElementsRequest::Refresh(0)))));
}

#[test]
fn refresh_replaces_elements_and_keeps_metadata() {
    let mut model = Model::new(Some(vec![]), Some(vec![satellite(5, "FIVE")]));
    model.current_satellite = Some(satellite(5, "FIVE"));
    let fresh = ElementSet { norad_id: 5, name: "FIVE B".to_string(), tle: "new".to_string() };
    let effect = update(&mut model, Message::ElementsReceived(ElementsRequest::Refresh(0), Ok(fresh)));
    assert!(matches!(effect, Some(Effect::SaveSatellites(SaveReason::Refreshed(0)))));
    assert_eq!(model.sat_config.satellite_list[0].satellite.tle, "new");
    assert_eq!(model.sat_config.satellite_list[0].metadata.object_id, "1998-067A");
    assert!(model.current_satellite.is_none());
    update(&mut model, Message::SatellitesSaved(SaveReason::Refreshed(0), true));
    assert_eq!(model.sat_config.current_message.text, "Updated TLE for satellite: FIVE B");
    update(&mut model, Message::SatellitesSaved(SaveReason::Refreshed(0), false));
    assert_eq!(model.sat_config.current_message.text, "Failed to cache TLE");
}

#[test]
fn refresh_of_a_missing_entry_changes_nothing() {
    let mut model = Model::new(Some(vec![]), Some(vec![satellite(5, "FIVE")]));
    let fresh = ElementSet { norad_id: 5, name: "X".to_string(), tle: "new".to_string() };
    let effect = update(&mut model, Message::ElementsReceived(ElementsRequest::Refresh(3), Ok(fresh)));
    assert!(effect.is_none());
    assert_eq!(model.sat_config.satellite_list[0].satellite.tle, "tle of FIVE");
}

#[test]
fn unreadable_caches_start_empty_with_an_error() {
    let model = Model::new(None, None);
    assert_eq!(model.station_config.station_list.len(), 0);
    assert_eq!(model.sat_config.satellite_list.len(), 0);
    assert_eq!(model.station_config.current_msg.text, "Unable to load ground stations");
    assert_eq!(model.sat_config.current_message.text, "Unable to load satellites");
    assert!(model.sat_config.current_message.error);
}
