//! Events fed to the reducer, and the outside work it asks for.
use vstd::prelude::*;
use crate::records::{ElementSet, GroundSite, MetaData, StationPasses};

verus! {

/// A key press, as far as the application tells keys apart.
#[derive(Clone, Copy, PartialEq, Eq, Structural)]
pub enum Key {
    Char(char),
    Up,
    Down,
    Left,
    Right,
    Enter,
    Esc,
    Backspace,
    Other,
}

#[derive(Clone, Copy, PartialEq, Eq, Structural)]
pub enum ListMovement {
    Up,
    Down,
    Left,
    Right,
    Select,
}

#[derive(Clone, Copy, PartialEq, Eq, Structural)]
pub enum SatList {
    ListMovement(ListMovement),
    CopyTLE,
    FetchTLE,
    AddSatellite,
}

#[derive(Clone, Copy, PartialEq, Eq, Structural)]
pub enum AddSatMsg {
    ToggleEditing,
    StopEditing,
    ChangeSelection,
    LetterTyped(Key),
    Backspace,
    PasteTLE,
}

#[derive(Clone, Copy, PartialEq, Eq, Structural)]
pub enum GSConfigMsg {
    ListMovement(ListMovement),
    Back,
    Backspace,
    StopEditing,
    LetterTyped(Key),
}

/// Why a request for satellite data did not bring it.
#[derive(Clone, Copy, PartialEq, Eq, Structural)]
pub enum FetchFailure {
    /// The server answered with a non-success status or a body that could not be read.
    Rejected,
    /// The server could not be reached.
    Unreachable,
}

/// What a request for element sets is for.
#[derive(Clone, Copy, PartialEq, Eq, Structural)]
pub enum ElementsRequest {
    /// A new satellite by NORAD catalog number.
    AddById,
    /// A new satellite from pasted element-set text.
    AddFromText,
    /// Fresh elements for the satellite at this index of the list.
    Refresh(usize),
}

/// What a save of the satellite list follows.
#[derive(Clone, Copy, PartialEq, Eq, Structural)]
pub enum SaveReason {
    Added,
    Refreshed(usize),
}

pub enum Message {
    Close,
    ToggleSatConfig,
    SatListMessage(SatList),
    AddSatMessage(AddSatMsg),
    ToggleGSConfig,
    GSConfigMsg(GSConfigMsg),
    PropagatePasses,
    /// The ground-station list was written to the cache, or not.
    StationsSaved(bool),
    /// The passes of each station asked for by [`Effect::ComputePasses`], in that order.
    PassesComputed(Vec<StationPasses>),
    /// Text was put on the clipboard, or not.
    ClipboardWritten(bool),
    /// What the clipboard held (empty when it could not be read).
    ClipboardRead(String),
    ElementsReceived(ElementsRequest, Result<ElementSet, FetchFailure>),
    MetadataReceived(ElementSet, Result<MetaData, FetchFailure>),
    /// The satellite list was written to the cache, or not.
    SatellitesSaved(SaveReason, bool),
}

/// Outside work the reducer asks for; its outcome comes back as a [`Message`].
pub enum Effect {
    /// Upsert the ground-station list into its cache; answer `StationsSaved`.
    SaveStations,
    /// Upsert the satellite list into its cache; answer `SatellitesSaved`.
    SaveSatellites(SaveReason),
    /// Compute the passes of the satellite over each station within the
    /// horizon; answer `PassesComputed`.
    ComputePasses(ElementSet, Vec<GroundSite>),
    /// Put the text on the clipboard; answer `ClipboardWritten`.
    WriteClipboard(String),
    /// Read the clipboard; answer `ClipboardRead`.
    ReadClipboard,
    /// Download the element set of a catalog number; answer `ElementsReceived`.
    FetchElements(u64, ElementsRequest),
    /// Read an element set from text; answer `ElementsReceived` with `AddFromText`.
    ParseElements(String),
    /// Download the catalog metadata of these elements; answer `MetadataReceived`.
    FetchMetadata(ElementSet),
}

/// What one transition leaves to do.
pub enum Step {
    Done,
    Next(Message),
    Perform(Effect),
}

} // verus!
