//! Messages relayed from background tasks to the UI thread, and the
//! decisions that produce them.

use vstd::prelude::*;

verus! {

/// A message from a background task to the UI thread.
///
/// `ApplicationLoad` carries every name read from the store at startup;
/// `ItemAdded` reports one successfully inserted name.
pub enum AppMessage {
    ApplicationLoad(Vec<String>),
    ItemAdded(String),
}

/// The event that the startup load task reports: the full list of names it
/// read from the store.
pub fn loaded_event(names: Vec<String>) -> (r: AppMessage)
    ensures
        r matches AppMessage::ApplicationLoad(ns) && ns == names,
{
    AppMessage::ApplicationLoad(names)
}

/// The event that an insert task reports. An insert that succeeded yields an
/// `ItemAdded` event carrying the inserted name; a failed insert yields no
/// event at all, so the UI list is left untouched.
pub fn added_event(name: String, inserted: bool) -> (r: Option<AppMessage>)
    ensures
        inserted ==> (r matches Some(m) && m matches AppMessage::ItemAdded(n) && n == name),
        !inserted ==> r is None,
{
    if inserted {
        Some(AppMessage::ItemAdded(name))
    } else {
        None
    }
}

} // verus!
