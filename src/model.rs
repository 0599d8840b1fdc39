//! The application model and the reducer that drives it.
use vstd::prelude::*;
use crate::addsat::{catalog_number, is_pasteable, parse_catalog_number, pasteable, AddSatSel, AddSatState};
use crate::cursor::{row_above, row_below, ListCursor};
use crate::messages::{
    AddSatMsg, Effect, ElementsRequest, FetchFailure, GSConfigMsg, ListMovement, Message, SatList,
    SaveReason, Step,
};
use crate::passes::{active_sites, collect_active_sites, gather_passes, is_stable_sort, sorted_by_aos, tagged};
use crate::records::{ElementSet, MetaData, StationPasses, TLGroundStation, TLPass, TLSatellite};
use crate::station::GSconfiguration;
use crate::status::CurrentMsg;

verus! {

#[derive(Clone, Copy, PartialEq, Eq, Structural)]
pub enum AppState {
    Base,
    SatSelect,
    SatAddition,
    GSConfig,
}

pub struct SatSelection {
    pub satellite_list: Vec<TLSatellite>,
    pub list_state: ListCursor,
    pub current_message: CurrentMsg,
    pub add_sat: AddSatState,
}

/// Everything the dashboard shows, owned by the reducer alone.
pub struct Model {
    pub current_satellite: Option<TLSatellite>,
    pub station_config: GSconfiguration,
    pub sat_config: SatSelection,
    pub upcoming_passes: Vec<TLPass>,
    pub current_state: AppState,
    /// How far ahead the ground track is drawn, in seconds.
    pub sub_point_range: i64,
    pub exit: bool,
}

/// The status shown when element sets could not be had: one text for the
/// download stage, whatever its failure, and one for pasted text that could
/// not be read.
pub open spec fn elements_error(req: ElementsRequest) -> Seq<char> {
    match req {
        ElementsRequest::AddFromText => "Could not read TLE"@,
        _ => "Failed to collect TLE from celestrak"@,
    }
}

/// The status shown when catalog metadata could not be had, whatever the failure.
pub open spec fn metadata_error() -> Seq<char> {
    "Failed to collect SUP Data from celestrak"@
}

pub open spec fn is_error(m: CurrentMsg, text: Seq<char>) -> bool {
    m.error && m.text@ == text
}

pub open spec fn is_info(m: CurrentMsg, text: Seq<char>) -> bool {
    !m.error && m.text@ == text
}

pub open spec fn fresh_form(a: AddSatState) -> bool {
    a.selected == AddSatSel::NoradID && a.text@.len() == 0 && !a.editing
}

/// A measure that falls along every chain of follow-up messages, so that
/// draining a chain ends.
pub open spec fn rank(msg: Message) -> nat {
    match msg {
        Message::GSConfigMsg(_) => 3,
        Message::SatListMessage(SatList::AddSatellite) => 1,
        Message::SatListMessage(_) => 3,
        Message::ToggleSatConfig => 2,
        Message::ToggleGSConfig => 2,
        Message::StationsSaved(_) => 2,
        _ => 1,
    }
}

impl SatSelection {
    pub fn new(satellites: Vec<TLSatellite>, msg: CurrentMsg) -> (r: SatSelection)
        ensures
            r.satellite_list == satellites,
            r.list_state.selected is None,
            r.current_message == msg,
            fresh_form(r.add_sat),
            r.add_sat.inv(),
    {
        SatSelection {
            satellite_list: satellites,
            list_state: ListCursor::new(),
            current_message: msg,
            add_sat: AddSatState::new(),
        }
    }
}

impl Model {
    /// The sub-machines' invariants hold, and the pass list is ordered by
    /// acquisition time.
    pub open spec fn inv(&self) -> bool {
        &&& self.station_config.inv()
        &&& self.sat_config.add_sat.inv()
        &&& sorted_by_aos(self.upcoming_passes@)
    }

    /// The model at start-up over the cached stations and satellites; a cache
    /// that could not be read gives an empty list and an error status.
    pub fn new(stations: Option<Vec<TLGroundStation>>, satellites: Option<Vec<TLSatellite>>) -> (r: Model)
        ensures
            r.inv(),
            r.current_state == AppState::Base,
            r.current_satellite is None,
            r.upcoming_passes@.len() == 0,
            !r.exit,
            r.station_config.station_list@ == match stations { Some(v) => v@, None => Seq::empty() },
            r.sat_config.satellite_list@ == match satellites { Some(v) => v@, None => Seq::empty() },
            stations is None ==> is_error(r.station_config.current_msg, "Unable to load ground stations"@),
            stations is Some ==> is_info(r.station_config.current_msg, Seq::empty()),
            satellites is None ==> is_error(r.sat_config.current_message, "Unable to load satellites"@),
            satellites is Some ==> is_info(r.sat_config.current_message, Seq::empty()),
            fresh_form(r.sat_config.add_sat),
    {
        let station_config = match stations {
            Some(v) => GSconfiguration::new(v, CurrentMsg::cleared()),
            None => GSconfiguration::new(Vec::new(), CurrentMsg::error("Unable to load ground stations")),
        };
        let sat_config = match satellites {
            Some(v) => SatSelection::new(v, CurrentMsg::cleared()),
            None => SatSelection::new(Vec::new(), CurrentMsg::error("Unable to load satellites")),
        };
        Model {
            current_satellite: None,
            station_config,
            sat_config,
            upcoming_passes: Vec::new(),
            current_state: AppState::Base,
            sub_point_range: 7200,
            exit: false,
        }
    }

    /// The satellite-selection toggle: opening it enters `SatSelect` (leaving
    /// the addition form resets it); closing it clears the status, returns to
    /// `Base` and asks for a pass recompute.
    pub open spec fn sat_toggled(old: Model, new: Model, r: Step) -> bool {
        if old.current_state != AppState::SatSelect {
            &&& r is Done
            &&& new.current_state == AppState::SatSelect
            &&& if old.current_state == AppState::SatAddition {
                &&& fresh_form(new.sat_config.add_sat)
                &&& new == Model {
                    current_state: new.current_state,
                    sat_config: SatSelection { add_sat: new.sat_config.add_sat, ..old.sat_config },
                    ..old
                }
            } else {
                new == Model { current_state: new.current_state, ..old }
            }
        } else {
            &&& r is Next && r->Next_0 is PropagatePasses
            &&& new.current_state == AppState::Base
            &&& is_info(new.sat_config.current_message, Seq::empty())
            &&& new == Model {
                current_state: new.current_state,
                sat_config: SatSelection { current_message: new.sat_config.current_message, ..old.sat_config },
                ..old
            }
        }
    }

    fn toggle_sat_config(&mut self) -> (r: Step)
        requires
            old(self).inv(),
        ensures
            final(self).inv(),
            Self::sat_toggled(*old(self), *final(self), r),
    {
        if self.current_state != AppState::SatSelect {
            if self.current_state == AppState::SatAddition {
                self.sat_config.add_sat = AddSatState::new();
            }
            self.current_state = AppState::SatSelect;
            Step::Done
        } else {
            self.sat_config.current_message = CurrentMsg::cleared();
            self.current_state = AppState::Base;
            Step::Next(Message::PropagatePasses)
        }
    }

    /// The ground-station toggle: opening enters `GSConfig`, closing returns to
    /// `Base` and asks for the stations to be saved. Either way the table is
    /// reset to `RowSelect` with an empty buffer and no column selected.
    pub open spec fn gs_toggled(old: Model, new: Model, r: Step) -> bool {
        &&& new.station_config.editing == crate::station::GSconfigState::RowSelect
        &&& new.station_config.current_edit_buffer@.len() == 0
        &&& new.station_config.table_state.column is None
        &&& new.station_config.table_state.row == old.station_config.table_state.row
        &&& new.station_config.station_list == old.station_config.station_list
        &&& new.station_config.current_msg == old.station_config.current_msg
        &&& new == Model { current_state: new.current_state, station_config: new.station_config, ..old }
        &&& if old.current_state != AppState::GSConfig {
            &&& r is Done
            &&& new.current_state == AppState::GSConfig
        } else {
            &&& r is Perform && r->Perform_0 is SaveStations
            &&& new.current_state == AppState::Base
        }
    }

    fn toggle_gs_config(&mut self) -> (r: Step)
        requires
            old(self).inv(),
        ensures
            final(self).inv(),
            Self::gs_toggled(*old(self), *final(self), r),
    {
        self.station_config.editing = crate::station::GSconfigState::RowSelect;
        self.station_config.current_edit_buffer = String::new();
        self.station_config.table_state.column = None;
        if self.current_state != AppState::GSConfig {
            self.current_state = AppState::GSConfig;
            Step::Done
        } else {
            self.current_state = AppState::Base;
            Step::Perform(Effect::SaveStations)
        }
    }

    /// After the stations were saved, or not: a failure is shown, and the
    /// passes are recomputed either way.
    pub open spec fn stations_saved(old: Model, ok: bool, new: Model, r: Step) -> bool {
        &&& r is Next && r->Next_0 is PropagatePasses
        &&& if ok {
            new == old
        } else {
            &&& is_error(new.station_config.current_msg, "Unable to save Ground Stations"@)
            &&& new == Model {
                station_config: GSconfiguration { current_msg: new.station_config.current_msg, ..old.station_config },
                ..old
            }
        }
    }

    /// A recompute: without an active station or a selected satellite the
    /// pass list is emptied; otherwise the passes over the active stations are asked for.
    pub open spec fn propagated(old: Model, new: Model, r: Step) -> bool {
        let sites = active_sites(old.station_config.station_list@);
        if sites.len() == 0 || old.current_satellite is None {
            &&& r is Done
            &&& new.upcoming_passes@.len() == 0
            &&& new == Model { upcoming_passes: new.upcoming_passes, ..old }
        } else {
            &&& new == old
            &&& r is Perform
            &&& r->Perform_0 is ComputePasses
            &&& r->Perform_0->ComputePasses_0 == old.current_satellite.unwrap().satellite
            &&& r->Perform_0->ComputePasses_1@ == sites
        }
    }

    fn propagate_passes(&mut self) -> (r: Step)
        requires
            old(self).inv(),
        ensures
            final(self).inv(),
            Self::propagated(*old(self), *final(self), r),
    {
        let sites = collect_active_sites(&self.station_config.station_list);
        let elements = match &self.current_satellite {
            Some(s) if sites.len() > 0 => s.satellite.copy(),
            _ => {
                self.upcoming_passes = Vec::new();
                return Step::Done;
            },
        };
        Step::Perform(Effect::ComputePasses(elements, sites))
    }

    /// The computed passes replace the list, sorted by acquisition time.
    pub open spec fn passes_replaced(old: Model, per: Seq<StationPasses>, new: Model, r: Step) -> bool {
        &&& r is Done
        &&& is_stable_sort(tagged(per), new.upcoming_passes@)
        &&& sorted_by_aos(new.upcoming_passes@)
        &&& new == Model { upcoming_passes: new.upcoming_passes, ..old }
    }

    /// A change of the satellite status alone.
    pub open spec fn sat_status_only(old: Model, new: Model) -> bool {
        new == Model {
            sat_config: SatSelection { current_message: new.sat_config.current_message, ..old.sat_config },
            ..old
        }
    }

    /// A change of the satellite status and the form alone.
    pub open spec fn sat_form_and_status(old: Model, new: Model) -> bool {
        new == Model {
            sat_config: SatSelection {
                current_message: new.sat_config.current_message,
                add_sat: new.sat_config.add_sat,
                ..old.sat_config
            },
            ..old
        }
    }

    /// Messages of the satellite list.
    pub open spec fn satlist_step(old: Model, msg: SatList, new: Model, r: Step) -> bool {
        let list = old.sat_config.satellite_list@;
        let sel = old.sat_config.list_state.selected;
        match msg {
            SatList::AddSatellite => {
                &&& r is Done
                &&& fresh_form(new.sat_config.add_sat)
                &&& new == Model {
                    current_state: AppState::SatAddition,
                    sat_config: SatSelection { add_sat: new.sat_config.add_sat, ..old.sat_config },
                    ..old
                }
            },
            SatList::ListMovement(ListMovement::Up) => {
                &&& r is Done
                &&& new == Model {
                    sat_config: SatSelection { list_state: ListCursor { selected: Some(row_above(sel)) }, ..old.sat_config },
                    ..old
                }
            },
            SatList::ListMovement(ListMovement::Down) => {
                &&& r is Done
                &&& new == Model {
                    sat_config: SatSelection {
                        list_state: ListCursor { selected: Some(row_below(sel, list.len() as usize)) },
                        ..old.sat_config
                    },
                    ..old
                }
            },
            SatList::ListMovement(ListMovement::Select) => {
                if sel == Some(list.len() as usize) {
                    r is Next && r->Next_0 == Message::SatListMessage(SatList::AddSatellite) && new == old
                } else if sel is Some && sel.unwrap() < list.len() {
                    &&& r is Next && r->Next_0 is ToggleSatConfig
                    &&& new == Model { current_satellite: Some(list[sel.unwrap() as int]), ..old }
                } else {
                    r is Done && new == old
                }
            },
            SatList::ListMovement(_) => r is Done && new == old,
            SatList::CopyTLE => {
                &&& new == old
                &&& if sel is Some && sel.unwrap() < list.len() {
                    &&& r is Perform && r->Perform_0 is WriteClipboard
                    &&& r->Perform_0->WriteClipboard_0@ == list[sel.unwrap() as int].satellite.tle@
                } else {
                    r is Done
                }
            },
            SatList::FetchTLE => {
                &&& new == old
                &&& if sel is Some && sel.unwrap() < list.len() {
                    &&& r is Perform && r->Perform_0 is FetchElements
                    &&& r->Perform_0->FetchElements_0 == list[sel.unwrap() as int].satellite.norad_id
                    &&& r->Perform_0->FetchElements_1 == ElementsRequest::Refresh(sel.unwrap())
                } else {
                    r is Done
                }
            },
        }
    }


    /// Messages of the add-satellite form.
    pub open spec fn addsat_step(old: Model, msg: AddSatMsg, new: Model, r: Step) -> bool {
        let a = old.sat_config.add_sat;
        let na = new.sat_config.add_sat;
        match msg {
            AddSatMsg::ToggleEditing => {
                &&& r is Done
                &&& na.editing == !a.editing && na.text@.len() == 0 && na.selected == a.selected
                &&& new == Model { sat_config: SatSelection { add_sat: na, ..old.sat_config }, ..old }
            },
            AddSatMsg::ChangeSelection => {
                &&& r is Done
                &&& na.selected != a.selected && na.text == a.text && na.editing == a.editing
                &&& new == Model { sat_config: SatSelection { add_sat: na, ..old.sat_config }, ..old }
            },
            AddSatMsg::LetterTyped(key) => {
                &&& r is Done
                &&& na.selected == a.selected && na.editing == a.editing
                &&& na.text@ == if a.editing { crate::addsat::typed_text(a.selected, a.text@, key) } else { a.text@ }
                &&& new == Model { sat_config: SatSelection { add_sat: na, ..old.sat_config }, ..old }
            },
            AddSatMsg::Backspace => {
                &&& r is Done
                &&& na.selected == a.selected && na.editing == a.editing
                &&& na.text@ == if a.editing && a.text@.len() > 0 { a.text@.drop_last() } else { a.text@ }
                &&& new == Model { sat_config: SatSelection { add_sat: na, ..old.sat_config }, ..old }
            },
            AddSatMsg::PasteTLE => {
                &&& new == old
                &&& if a.selected == AddSatSel::TLEBox { r is Perform && r->Perform_0 is ReadClipboard } else { r is Done }
            },
            AddSatMsg::StopEditing => {
                if a.selected == AddSatSel::TLEBox {
                    &&& new == old
                    &&& r is Perform && r->Perform_0 is ParseElements
                    &&& r->Perform_0->ParseElements_0@ == a.text@
                } else {
                    match catalog_number(a.text@) {
                        Some(id) => {
                            &&& new == old
                            &&& r is Perform && r->Perform_0 is FetchElements
                            &&& r->Perform_0->FetchElements_0 == id
                            &&& r->Perform_0->FetchElements_1 == ElementsRequest::AddById
                        },
                        None => {
                            &&& r is Done
                            &&& !na.editing && na.text@.len() == 0 && na.selected == a.selected
                            &&& is_error(new.sat_config.current_message, "Could not read NORAD ID"@)
                            &&& Self::sat_form_and_status(old, new)
                        },
                    }
                }
            },
        }
    }


    /// What came of writing the clipboard is shown.
    pub open spec fn clipboard_written(old: Model, ok: bool, new: Model, r: Step) -> bool {
        &&& r is Done
        &&& Self::sat_status_only(old, new)
        &&& if ok {
            is_info(new.sat_config.current_message, "Copied TLE to clipboard"@)
        } else {
            is_error(new.sat_config.current_message, "Failed to copy to clipboard!"@)
        }
    }

    /// Clipboard text is taken into the element field only when it passes
    /// for element sets; otherwise the paste is dropped with an error.
    pub open spec fn clipboard_read(old: Model, text: Seq<char>, new: Model, r: Step) -> bool {
        let a = old.sat_config.add_sat;
        let na = new.sat_config.add_sat;
        &&& r is Done
        &&& Self::sat_form_and_status(old, new)
        &&& if a.selected == AddSatSel::TLEBox && pasteable(text) {
            &&& na.editing && na.text@ == text && na.selected == a.selected
            &&& is_info(new.sat_config.current_message, "Pasted TLE"@)
        } else {
            &&& na == a
            &&& is_error(new.sat_config.current_message, "Unable to paste TLE"@)
        }
    }

    fn on_clipboard_read(&mut self, text: String) -> (r: Step)
        requires
            old(self).inv(),
        ensures
            final(self).inv(),
            Self::clipboard_read(*old(self), text@, *final(self), r),
    {
        if self.sat_config.add_sat.selected == AddSatSel::TLEBox && is_pasteable(text.as_str()) {
            let ghost t = text@;
            proof {
                assert(crate::addsat::text_lines(t).len() >= 1);
            }
            self.sat_config.add_sat.editing = true;
            self.sat_config.add_sat.text = text;
            self.sat_config.current_message = CurrentMsg::message("Pasted TLE");
        } else {
            self.sat_config.current_message = CurrentMsg::error("Unable to paste TLE");
        }
        Step::Done
    }

    /// Element sets that arrived: for an addition the metadata is asked for
    /// next; for a refresh the entry takes them, keeps its metadata, the
    /// selected satellite is dropped and the list is saved. A failure is shown.
    pub open spec fn elements_received(
        old: Model,
        req: ElementsRequest,
        res: Result<ElementSet, FetchFailure>,
        new: Model,
        r: Step,
    ) -> bool {
        let list = old.sat_config.satellite_list@;
        match res {
            Err(_) => {
                &&& r is Done
                &&& is_error(new.sat_config.current_message, elements_error(req))
                &&& Self::sat_status_only(old, new)
            },
            Ok(el) => match req {
                ElementsRequest::Refresh(i) => if i < list.len() {
                    &&& r is Perform && r->Perform_0 == Effect::SaveSatellites(SaveReason::Refreshed(i))
                    &&& new.sat_config.satellite_list@ == list.update(
                        i as int,
                        TLSatellite { satellite: el, metadata: list[i as int].metadata },
                    )
                    &&& new == Model {
                        current_satellite: None,
                        sat_config: SatSelection { satellite_list: new.sat_config.satellite_list, ..old.sat_config },
                        ..old
                    }
                } else {
                    r is Done && new == old
                },
                _ => {
                    &&& new == old
                    &&& r is Perform && r->Perform_0 == Effect::FetchMetadata(el)
                },
            },
        }
    }

    fn on_elements(&mut self, req: ElementsRequest, res: Result<ElementSet, FetchFailure>) -> (r: Step)
        requires
            old(self).inv(),
        ensures
            final(self).inv(),
            Self::elements_received(*old(self), req, res, *final(self), r),
    {
        match res {
            Err(_) => {
                self.sat_config.current_message = match req {
                    ElementsRequest::AddFromText => CurrentMsg::error("Could not read TLE"),
                    _ => CurrentMsg::error("Failed to collect TLE from celestrak"),
                };
                Step::Done
            },
            Ok(el) => match req {
                ElementsRequest::Refresh(i) => {
                    if i < self.sat_config.satellite_list.len() {
                        let metadata = self.sat_config.satellite_list[i].metadata.copy();
                        self.sat_config.satellite_list.set(i, TLSatellite { satellite: el, metadata });
                        self.current_satellite = None;
                        Step::Perform(Effect::SaveSatellites(SaveReason::Refreshed(i)))
                    } else {
                        Step::Done
                    }
                },
                _ => Step::Perform(Effect::FetchMetadata(el)),
            },
        }
    }

    /// Metadata that arrived completes a new satellite, which is appended and
    /// saved. A failure is shown.
    pub open spec fn metadata_received(
        old: Model,
        el: ElementSet,
        res: Result<MetaData, FetchFailure>,
        new: Model,
        r: Step,
    ) -> bool {
        match res {
            Err(_) => {
                &&& r is Done
                &&& is_error(new.sat_config.current_message, metadata_error())
                &&& Self::sat_status_only(old, new)
            },
            Ok(md) => {
                &&& r is Perform && r->Perform_0 == Effect::SaveSatellites(SaveReason::Added)
                &&& new.sat_config.satellite_list@ == old.sat_config.satellite_list@.push(
                    TLSatellite { satellite: el, metadata: md },
                )
                &&& new == Model {
                    sat_config: SatSelection { satellite_list: new.sat_config.satellite_list, ..old.sat_config },
                    ..old
                }
            },
        }
    }

    /// After the satellite list was saved, or not. A saved addition empties
    /// the form and returns to `SatSelect`; a saved refresh names the satellite.
    pub open spec fn satellites_saved(old: Model, why: SaveReason, ok: bool, new: Model, r: Step) -> bool {
        let list = old.sat_config.satellite_list@;
        &&& r is Done
        &&& match why {
            SaveReason::Added => if ok {
                &&& fresh_form(new.sat_config.add_sat)
                &&& is_info(new.sat_config.current_message, "Loaded Satellite"@)
                &&& new == Model {
                    current_state: AppState::SatSelect,
                    sat_config: SatSelection {
                        current_message: new.sat_config.current_message,
                        add_sat: new.sat_config.add_sat,
                        ..old.sat_config
                    },
                    ..old
                }
            } else {
                &&& is_error(new.sat_config.current_message, "Unable to cache TLE data"@)
                &&& Self::sat_status_only(old, new)
            },
            SaveReason::Refreshed(i) => if !ok {
                &&& is_error(new.sat_config.current_message, "Failed to cache TLE"@)
                &&& Self::sat_status_only(old, new)
            } else if i < list.len() {
                &&& is_info(
                    new.sat_config.current_message,
                    "Updated TLE for satellite: "@ + list[i as int].satellite.name@,
                )
                &&& Self::sat_status_only(old, new)
            } else {
                new == old
            },
        }
    }

    fn on_satellites_saved(&mut self, why: SaveReason, ok: bool) -> (r: Step)
        requires
            old(self).inv(),
        ensures
            final(self).inv(),
            Self::satellites_saved(*old(self), why, ok, *final(self), r),
    {
        match why {
            SaveReason::Added => {
                if ok {
                    self.sat_config.add_sat = AddSatState::new();
                    self.current_state = AppState::SatSelect;
                    self.sat_config.current_message = CurrentMsg::message("Loaded Satellite");
                } else {
                    self.sat_config.current_message = CurrentMsg::error("Unable to cache TLE data");
                }
            },
            SaveReason::Refreshed(i) => {
                if !ok {
                    self.sat_config.current_message = CurrentMsg::error("Failed to cache TLE");
                } else if i < self.sat_config.satellite_list.len() {
                    let mut text = String::from_str("Updated TLE for satellite: ");
                    text.append(self.sat_config.satellite_list[i].satellite.name.as_str());
                    self.sat_config.current_message = CurrentMsg { error: false, text };
                }
            },
        }
        Step::Done
    }

    /// One transition of the model.
    pub open spec fn step(old: Model, msg: Message, new: Model, r: Step) -> bool {
        match msg {
            Message::Close => r is Done && new == Model { exit: true, ..old },
            Message::ToggleSatConfig => Self::sat_toggled(old, new, r),
            Message::SatListMessage(m) => Self::satlist_step(old, m, new, r),
            Message::AddSatMessage(m) => Self::addsat_step(old, m, new, r),
            Message::ToggleGSConfig => Self::gs_toggled(old, new, r),
            Message::GSConfigMsg(m) => {
                &&& new == Model { station_config: new.station_config, ..old }
                &&& match r {
                    Step::Done => GSconfiguration::transition(old.station_config, m, new.station_config, None),
                    Step::Next(n) => GSconfiguration::transition(old.station_config, m, new.station_config, Some(n)),
                    Step::Perform(_) => false,
                }
            },
            Message::PropagatePasses => Self::propagated(old, new, r),
            Message::StationsSaved(ok) => Self::stations_saved(old, ok, new, r),
            Message::PassesComputed(per) => Self::passes_replaced(old, per@, new, r),
            Message::ClipboardWritten(ok) => Self::clipboard_written(old, ok, new, r),
            Message::ClipboardRead(text) => Self::clipboard_read(old, text@, new, r),
            Message::ElementsReceived(req, res) => Self::elements_received(old, req, res, new, r),
            Message::MetadataReceived(el, res) => Self::metadata_received(old, el, res, new, r),
            Message::SatellitesSaved(why, ok) => Self::satellites_saved(old, why, ok, new, r),
        }
    }

    /// Applies one message: the model changes as `step` says, and what is
    /// left to do is returned.
    pub fn apply(&mut self, msg: Message) -> (r: Step)
        requires
            old(self).inv(),
        ensures
            final(self).inv(),
            Self::step(*old(self), msg, *final(self), r),
            r is Next ==> rank(r->Next_0) < rank(msg),
    {
        match msg {
            Message::Close => {
                self.exit = true;
                Step::Done
            },
            Message::ToggleSatConfig => self.toggle_sat_config(),
            Message::SatListMessage(m) => parse_satlist_msg(self, m),
            Message::AddSatMessage(m) => parse_addsat_msg(self, m),
            Message::ToggleGSConfig => self.toggle_gs_config(),
            Message::GSConfigMsg(m) => match parse_gsconfig_msg(self, m) {
                Some(n) => Step::Next(n),
                None => Step::Done,
            },
            Message::PropagatePasses => self.propagate_passes(),
            Message::StationsSaved(ok) => {
                if !ok {
                    self.station_config.current_msg = CurrentMsg::error("Unable to save Ground Stations");
                }
                Step::Next(Message::PropagatePasses)
            },
            Message::PassesComputed(per) => {
                self.upcoming_passes = gather_passes(&per);
                Step::Done
            },
            Message::ClipboardWritten(ok) => {
                self.sat_config.current_message = if ok {
                    CurrentMsg::message("Copied TLE to clipboard")
                } else {
                    CurrentMsg::error("Failed to copy to clipboard!")
                };
                Step::Done
            },
            Message::ClipboardRead(text) => self.on_clipboard_read(text),
            Message::ElementsReceived(req, res) => self.on_elements(req, res),
            Message::MetadataReceived(el, res) => match res {
                Ok(md) => {
                    self.sat_config.satellite_list.push(TLSatellite { satellite: el, metadata: md });
                    Step::Perform(Effect::SaveSatellites(SaveReason::Added))
                },
                Err(_) => {
                    self.sat_config.current_message = CurrentMsg::error("Failed to collect SUP Data from celestrak");
                    Step::Done
                },
            },
            Message::SatellitesSaved(why, ok) => self.on_satellites_saved(why, ok),
        }
    }
}

/// Applies a message of the satellite list.
pub fn parse_satlist_msg(model: &mut Model, msg: SatList) -> (r: Step)
    requires
        old(model).inv(),
    ensures
        final(model).inv(),
        Model::satlist_step(*old(model), msg, *final(model), r),
{
    let n = model.sat_config.satellite_list.len();
    match msg {
        SatList::AddSatellite => {
            model.current_state = AppState::SatAddition;
            model.sat_config.add_sat = AddSatState::new();
            Step::Done
        },
        SatList::ListMovement(ListMovement::Up) => {
            model.sat_config.list_state.scroll_up();
            Step::Done
        },
        SatList::ListMovement(ListMovement::Down) => {
            model.sat_config.list_state.scroll_down(n);
            Step::Done
        },
        SatList::ListMovement(ListMovement::Select) => {
            match model.sat_config.list_state.selected {
                Some(index) => {
                    if index == n {
                        Step::Next(Message::SatListMessage(SatList::AddSatellite))
                    } else if index < n {
                        model.current_satellite = Some(model.sat_config.satellite_list[index].copy());
                        Step::Next(Message::ToggleSatConfig)
                    } else {
                        Step::Done
                    }
                },
                None => Step::Done,
            }
        },
        SatList::ListMovement(_) => Step::Done,
        SatList::CopyTLE => {
            match model.sat_config.list_state.selected {
                Some(index) => {
                    if index < n {
                        Step::Perform(Effect::WriteClipboard(model.sat_config.satellite_list[index].satellite.tle.clone()))
                    } else {
                        Step::Done
                    }
                },
                None => Step::Done,
            }
        },
        SatList::FetchTLE => {
            match model.sat_config.list_state.selected {
                Some(index) => {
                    if index < n {
                        let id = model.sat_config.satellite_list[index].satellite.norad_id;
                        Step::Perform(Effect::FetchElements(id, ElementsRequest::Refresh(index)))
                    } else {
                        Step::Done
                    }
                },
                None => Step::Done,
            }
        },
    }
}

/// Applies a message of the add-satellite form.
pub fn parse_addsat_msg(model: &mut Model, msg: AddSatMsg) -> (r: Step)
    requires
        old(model).inv(),
    ensures
        final(model).inv(),
        Model::addsat_step(*old(model), msg, *final(model), r),
{
    match msg {
        AddSatMsg::ToggleEditing => {
            model.sat_config.add_sat.toggle_editing();
            Step::Done
        },
        AddSatMsg::ChangeSelection => {
            model.sat_config.add_sat.change_selection();
            Step::Done
        },
        AddSatMsg::LetterTyped(key) => {
            model.sat_config.add_sat.letter_typed(key);
            Step::Done
        },
        AddSatMsg::Backspace => {
            model.sat_config.add_sat.backspace();
            Step::Done
        },
        AddSatMsg::PasteTLE => {
            if model.sat_config.add_sat.selected == AddSatSel::TLEBox {
                Step::Perform(Effect::ReadClipboard)
            } else {
                Step::Done
            }
        },
        AddSatMsg::StopEditing => {
            if model.sat_config.add_sat.selected == AddSatSel::TLEBox {
                return Step::Perform(Effect::ParseElements(model.sat_config.add_sat.text.clone()));
            }
            match parse_catalog_number(model.sat_config.add_sat.text.as_str()) {
                Some(id) => Step::Perform(Effect::FetchElements(id, ElementsRequest::AddById)),
                None => {
                    model.sat_config.add_sat.editing = false;
                    model.sat_config.add_sat.text = String::new();
                    model.sat_config.current_message = CurrentMsg::error("Could not read NORAD ID");
                    Step::Done
                },
            }
        },
    }
}

/// Applies a message of the ground-station table.
pub fn parse_gsconfig_msg(model: &mut Model, msg: GSConfigMsg) -> (r: Option<Message>)
    requires
        old(model).inv(),
    ensures
        final(model).inv(),
        GSconfiguration::transition(old(model).station_config, msg, final(model).station_config, r),
        *final(model) == (Model { station_config: final(model).station_config, ..*old(model) }),
        r is Some ==> (r.unwrap() is ToggleGSConfig),
{
    model.station_config.handle_message(msg)
}

} // verus!

verus! {

/// `new` and `eff` are where applying `msg` to `old` and then every follow-up
/// message leads: the model after the last transition, and the outside work
/// it asks for, if any.
pub open spec fn chain(old: Model, msg: Message, new: Model, eff: Option<Effect>) -> bool
    decreases rank(msg),
{
    exists|mid: Model, r: Step|
        #[trigger] Model::step(old, msg, mid, r) && match r {
            Step::Done => new == mid && eff is None,
            Step::Perform(e) => new == mid && eff == Some(e),
            Step::Next(m) => rank(m) < rank(msg) && chain(mid, m, new, eff),
        }
}

/// Handles one event: applies it and every follow-up message it causes, in
/// turn, and returns the outside work the last transition asks for.
pub fn update(model: &mut Model, msg: Message) -> (r: Option<Effect>)
    requires
        old(model).inv(),
    ensures
        final(model).inv(),
        chain(*old(model), msg, *final(model), r),
{
    let ghost start = *model;
    let ghost first = msg;
    let mut current = msg;
    loop
        invariant
            model.inv(),
            start == *old(model),
            first == msg,
            forall|n: Model, e: Option<Effect>| #[trigger] chain(*model, current, n, e) ==> chain(start, first, n, e),
        decreases rank(current),
    {
        let ghost before = *model;
        let ghost cur = current;
        let step = model.apply(current);
        match step {
            Step::Done => {
                proof {
                    assert(Model::step(before, cur, *model, Step::Done));
                    assert(chain(before, cur, *model, None));
                }
                return None;
            },
            Step::Perform(e) => {
                let ghost ge = e;
                proof {
                    assert(Model::step(before, cur, *model, Step::Perform(ge)));
                    assert(chain(before, cur, *model, Some(ge)));
                }
                return Some(e);
            },
            Step::Next(m) => {
                let ghost gm = m;
                proof {
                    assert(Model::step(before, cur, *model, Step::Next(gm)));
                    assert forall|n: Model, e: Option<Effect>| #[trigger] chain(*model, gm, n, e) implies chain(
                        start,
                        first,
                        n,
                        e,
                    ) by {
                        assert(Model::step(before, cur, *model, Step::Next(gm)));
                        assert(chain(before, cur, n, e));
                    }
                }
                current = m;
            },
        }
    }
}

/// After a recompute the pass list is the computed passes of all stations,
/// stably sorted by acquisition time.
pub proof fn lemma_recompute_sorted(old: Model, per: Vec<StationPasses>, new: Model, r: Step)
    requires
        Model::step(old, Message::PassesComputed(per), new, r),
    ensures
        sorted_by_aos(new.upcoming_passes@),
        is_stable_sort(tagged(per@), new.upcoming_passes@),
{
}

/// What holds in every model that start-up produces (`Model::new`) and each
/// `update` keeps: the pass list is ordered by acquisition time, and while the
/// station table is in `RowSelect` its edit buffer is empty.
pub proof fn lemma_reachable_invariants(m: Model)
    requires
        m.inv(),
    ensures
        sorted_by_aos(m.upcoming_passes@),
        m.station_config.editing == crate::station::GSconfigState::RowSelect
            ==> m.station_config.current_edit_buffer@.len() == 0,
{
}

} // verus!
