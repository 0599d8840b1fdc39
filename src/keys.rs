//! Which message a key press means in each mode, and the idle tick.
use vstd::prelude::*;
use crate::addsat::AddSatState;
use crate::messages::{AddSatMsg, GSConfigMsg, Key, ListMovement, Message, SatList};
use crate::model::{AppState, Model};
use crate::passes::{passes_stale, stale};
use crate::station::GSconfigState;

verus! {

pub open spec fn base_key(key: Key) -> Option<Message> {
    match key {
        Key::Char('q') | Key::Esc => Some(Message::Close),
        Key::Char('s') => Some(Message::ToggleSatConfig),
        Key::Char('g') => Some(Message::ToggleGSConfig),
        _ => None,
    }
}

pub open spec fn sat_config_key(key: Key) -> Option<Message> {
    match key {
        Key::Char('q') | Key::Esc => Some(Message::ToggleSatConfig),
        Key::Char('c') => Some(Message::SatListMessage(SatList::CopyTLE)),
        Key::Char('f') => Some(Message::SatListMessage(SatList::FetchTLE)),
        Key::Up => Some(Message::SatListMessage(SatList::ListMovement(ListMovement::Up))),
        Key::Down => Some(Message::SatListMessage(SatList::ListMovement(ListMovement::Down))),
        Key::Enter => Some(Message::SatListMessage(SatList::ListMovement(ListMovement::Select))),
        _ => None,
    }
}

/// Keys of the add-satellite form: outside editing they navigate, while
/// editing they go to the field.
pub open spec fn sat_addition_key(editing: bool, key: Key) -> Option<Message> {
    if !editing {
        match key {
            Key::Char('q') | Key::Esc => Some(Message::ToggleSatConfig),
            Key::Enter => Some(Message::AddSatMessage(AddSatMsg::ToggleEditing)),
            Key::Up | Key::Down => Some(Message::AddSatMessage(AddSatMsg::ChangeSelection)),
            Key::Char('v') => Some(Message::AddSatMessage(AddSatMsg::PasteTLE)),
            _ => None,
        }
    } else {
        match key {
            Key::Esc => Some(Message::AddSatMessage(AddSatMsg::ToggleEditing)),
            Key::Backspace => Some(Message::AddSatMessage(AddSatMsg::Backspace)),
            Key::Enter => Some(Message::AddSatMessage(AddSatMsg::StopEditing)),
            _ => Some(Message::AddSatMessage(AddSatMsg::LetterTyped(key))),
        }
    }
}

pub open spec fn gs_config_key(editing: GSconfigState, key: Key) -> Option<Message> {
    match editing {
        GSconfigState::CellSelect => match key {
            Key::Left => Some(Message::GSConfigMsg(GSConfigMsg::ListMovement(ListMovement::Left))),
            Key::Right => Some(Message::GSConfigMsg(GSConfigMsg::ListMovement(ListMovement::Right))),
            Key::Enter => Some(Message::GSConfigMsg(GSConfigMsg::ListMovement(ListMovement::Select))),
            Key::Esc | Key::Char('q') => Some(Message::GSConfigMsg(GSConfigMsg::Back)),
            _ => None,
        },
        GSconfigState::RowSelect => match key {
            Key::Char('q') | Key::Esc => Some(Message::ToggleGSConfig),
            Key::Up => Some(Message::GSConfigMsg(GSConfigMsg::ListMovement(ListMovement::Up))),
            Key::Down => Some(Message::GSConfigMsg(GSConfigMsg::ListMovement(ListMovement::Down))),
            Key::Enter => Some(Message::GSConfigMsg(GSConfigMsg::ListMovement(ListMovement::Select))),
            _ => None,
        },
        GSconfigState::CellEdit => match key {
            Key::Esc | Key::Char('q') => Some(Message::GSConfigMsg(GSConfigMsg::Back)),
            Key::Backspace => Some(Message::GSConfigMsg(GSConfigMsg::Backspace)),
            Key::Enter => Some(Message::GSConfigMsg(GSConfigMsg::StopEditing)),
            _ => Some(Message::GSConfigMsg(GSConfigMsg::LetterTyped(key))),
        },
    }
}

/// The message a key press means in the model's mode.
pub open spec fn key_message(model: Model, key: Key) -> Option<Message> {
    match model.current_state {
        AppState::Base => base_key(key),
        AppState::SatSelect => sat_config_key(key),
        AppState::SatAddition => sat_addition_key(model.sat_config.add_sat.editing, key),
        AppState::GSConfig => gs_config_key(model.station_config.editing, key),
    }
}

pub fn handle_key_base(key: Key) -> (r: Option<Message>)
    ensures
        r == base_key(key),
{
    match key {
        Key::Char('q') | Key::Esc => Some(Message::Close),
        Key::Char('s') => Some(Message::ToggleSatConfig),
        Key::Char('g') => Some(Message::ToggleGSConfig),
        _ => None,
    }
}

pub fn handle_key_sat_config(key: Key) -> (r: Option<Message>)
    ensures
        r == sat_config_key(key),
{
    match key {
        Key::Char('q') | Key::Esc => Some(Message::ToggleSatConfig),
        Key::Char('c') => Some(Message::SatListMessage(SatList::CopyTLE)),
        Key::Char('f') => Some(Message::SatListMessage(SatList::FetchTLE)),
        Key::Up => Some(Message::SatListMessage(SatList::ListMovement(ListMovement::Up))),
        Key::Down => Some(Message::SatListMessage(SatList::ListMovement(ListMovement::Down))),
        Key::Enter => Some(Message::SatListMessage(SatList::ListMovement(ListMovement::Select))),
        _ => None,
    }
}

pub fn handle_key_sat_addition(key: Key, form: &AddSatState) -> (r: Option<Message>)
    ensures
        r == sat_addition_key(form.editing, key),
{
    if !form.editing {
        match key {
            Key::Char('q') | Key::Esc => Some(Message::ToggleSatConfig),
            Key::Enter => Some(Message::AddSatMessage(AddSatMsg::ToggleEditing)),
            Key::Up | Key::Down => Some(Message::AddSatMessage(AddSatMsg::ChangeSelection)),
            Key::Char('v') => Some(Message::AddSatMessage(AddSatMsg::PasteTLE)),
            _ => None,
        }
    } else {
        match key {
            Key::Esc => Some(Message::AddSatMessage(AddSatMsg::ToggleEditing)),
            Key::Backspace => Some(Message::AddSatMessage(AddSatMsg::Backspace)),
            Key::Enter => Some(Message::AddSatMessage(AddSatMsg::StopEditing)),
            _ => Some(Message::AddSatMessage(AddSatMsg::LetterTyped(key))),
        }
    }
}

pub fn handle_key_gs_config(key: Key, editing: GSconfigState) -> (r: Option<Message>)
    ensures
        r == gs_config_key(editing, key),
{
    match editing {
        GSconfigState::CellSelect => match key {
            Key::Left => Some(Message::GSConfigMsg(GSConfigMsg::ListMovement(ListMovement::Left))),
            Key::Right => Some(Message::GSConfigMsg(GSConfigMsg::ListMovement(ListMovement::Right))),
            Key::Enter => Some(Message::GSConfigMsg(GSConfigMsg::ListMovement(ListMovement::Select))),
            Key::Esc | Key::Char('q') => Some(Message::GSConfigMsg(GSConfigMsg::Back)),
            _ => None,
        },
        GSconfigState::RowSelect => match key {
            Key::Char('q') | Key::Esc => Some(Message::ToggleGSConfig),
            Key::Up => Some(Message::GSConfigMsg(GSConfigMsg::ListMovement(ListMovement::Up))),
            Key::Down => Some(Message::GSConfigMsg(GSConfigMsg::ListMovement(ListMovement::Down))),
            Key::Enter => Some(Message::GSConfigMsg(GSConfigMsg::ListMovement(ListMovement::Select))),
            _ => None,
        },
        GSconfigState::CellEdit => match key {
            Key::Esc | Key::Char('q') => Some(Message::GSConfigMsg(GSConfigMsg::Back)),
            Key::Backspace => Some(Message::GSConfigMsg(GSConfigMsg::Backspace)),
            Key::Enter => Some(Message::GSConfigMsg(GSConfigMsg::StopEditing)),
            _ => Some(Message::GSConfigMsg(GSConfigMsg::LetterTyped(key))),
        },
    }
}

/// The message a key press means in the model's current mode.
pub fn handle_key(model: &Model, key: Key) -> (r: Option<Message>)
    ensures
        r == key_message(*model, key),
{
    match model.current_state {
        AppState::Base => handle_key_base(key),
        AppState::SatSelect => handle_key_sat_config(key),
        AppState::SatAddition => handle_key_sat_addition(key, &model.sat_config.add_sat),
        AppState::GSConfig => handle_key_gs_config(key, model.station_config.editing),
    }
}

/// On a tick without input: a recompute once the first pass has gone stale.
pub fn idle_tick(model: &Model, now: i64) -> (r: Option<Message>)
    ensures
        r == if stale(model.upcoming_passes@, now) { Some(Message::PropagatePasses) } else { None },
{
    if passes_stale(&model.upcoming_passes, now) {
        Some(Message::PropagatePasses)
    } else {
        None
    }
}

} // verus!
