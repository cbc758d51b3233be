//! A small item-list application core: the messages that background tasks
//! send to the UI thread, the UI state those messages drive, and a model of
//! the single-table store the background tasks talk to. The event loop —
//! window, channel, runtime, database file — lives outside and is held to
//! the contracts here.

mod app;
mod message;
mod store;

pub use app::App;
pub use app::drain_added;
pub use app::lemma_sequential_adds;
pub use message::AppMessage;
pub use message::added_event;
pub use message::loaded_event;
pub use store::Store;
pub use store::insert_all;
pub use store::lemma_insert_all_appends;
pub use store::lemma_round_trip;
