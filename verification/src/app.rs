//! The UI thread's state and the two decisions it makes each frame: how a
//! drained message mutates the displayed list, and whether a submission
//! should request an insert.

use vstd::prelude::*;
use crate::message::AppMessage;

verus! {

/// The state the UI thread owns: the displayed names, newest first, and the
/// text-input buffer. The channel ends that carry [`AppMessage`] values to
/// this state live with the event loop, outside the library.
pub struct App {
    pub items: Vec<String>,
    pub new_item_name: String,
}

impl Default for App {
    /// A fresh application state: nothing displayed, an empty input buffer.
    fn default() -> (a: App)
        ensures
            a.items@ =~= Seq::<String>::empty(),
            a.new_item_name@ =~= Seq::<char>::empty(),
    {
        App { items: Vec::new(), new_item_name: String::new() }
    }
}

impl App {
    /// The state the application starts from. The startup load task is
    /// spawned beside this call by the event loop; until its
    /// `ApplicationLoad` message is drained, the list stays empty.
    pub fn new() -> (a: App)
        ensures
            a.items@ =~= Seq::<String>::empty(),
            a.new_item_name@ =~= Seq::<char>::empty(),
    {
        App::default()
    }

    /// Drain one message into the state.
    ///
    /// A load replaces the whole list with the names that were read and
    /// leaves the input buffer alone. An added name goes to the head of the
    /// list — so after its message is drained, the name appears first — and
    /// the input buffer is cleared, only now, not when the insert was
    /// requested.
    pub fn handle_message(&mut self, msg: AppMessage)
        ensures
            msg matches AppMessage::ApplicationLoad(ns) ==> {
                &&& final(self).items == ns
                &&& final(self).new_item_name == old(self).new_item_name
            },
            msg matches AppMessage::ItemAdded(n) ==> {
                &&& final(self).items@ == seq![n] + old(self).items@
                &&& final(self).items@[0] == n
                &&& final(self).new_item_name@ =~= Seq::<char>::empty()
            },
    {
        match msg {
            AppMessage::ApplicationLoad(items) => {
                self.items = items;
            },
            AppMessage::ItemAdded(item) => {
                self.items.insert(0, item);
                self.new_item_name = String::new();
                proof {
                    assert(self.items@ =~= seq![item] + old(self).items@);
                }
            },
        }
    }

    /// The submission decision, taken on a create click or on Enter: an
    /// insert is requested — with a copy of the buffer as the name — exactly
    /// when the buffer is non-empty. An empty buffer requests nothing, so no
    /// background task starts and, since the state is untouched, the list
    /// cannot change.
    pub fn submit(&self) -> (r: Option<String>)
        ensures
            self.new_item_name@.len() == 0 <==> r is None,
            self.new_item_name@.len() > 0 ==> r == Some(self.new_item_name),
    {
        if self.new_item_name.as_str().is_empty() {
            None
        } else {
            Some(self.new_item_name.clone())
        }
    }
}

/// The list after the added-name messages for `names` are drained one after
/// another into a list holding `init`: each drain prepends its name, as
/// [`App::handle_message`] ensures.
pub open spec fn drain_added(init: Seq<String>, names: Seq<String>) -> Seq<String>
    decreases names.len(),
{
    if names.len() == 0 {
        init
    } else {
        drain_added(seq![names[0]] + init, names.drop_first())
    }
}

/// Draining the messages of successive successful inserts, each one fully
/// drained before the next, leaves the submitted names in reverse submission
/// order ahead of whatever was displayed before; from a fresh state the
/// displayed list is exactly the names, newest first.
pub proof fn lemma_sequential_adds(init: Seq<String>, names: Seq<String>)
    ensures
        drain_added(init, names) == names.reverse() + init,
    decreases names.len(),
{
    if names.len() == 0 {
        assert(names.reverse() + init =~= init);
    } else {
        lemma_sequential_adds(seq![names[0]] + init, names.drop_first());
        assert(names.drop_first().reverse() + (seq![names[0]] + init) =~= names.reverse() + init);
    }
}

} // verus!
