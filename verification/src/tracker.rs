//! The daemon's only state: the name of the workspace that was focused last.
//!
//! Each event is handled completely before the next one is looked at, so the
//! state always agrees with everything seen so far.

use vstd::prelude::*;
use vstd::string::StringExecFns;
use crate::command::{MoveSilently, MoveView};
use crate::event::{Event, EventView, ParseError, SpecialRule};
use crate::parse::{parse_event, parse_line};

verus! {

/// The workspace remembered after `event`, when `workspace` was remembered
/// before it.
pub open spec fn workspace_after(workspace: Seq<char>, event: EventView) -> Seq<char> {
    match event {
        EventView::FocusedWorkspace { name } => name,
        _ => workspace,
    }
}

/// The order that `event` calls for while `workspace` is remembered.
pub open spec fn order_for(workspace: Seq<char>, event: EventView) -> Option<MoveView> {
    match event {
        EventView::SpawnedWindowOnSpecial { address } => Some(MoveView { workspace, address }),
        _ => None,
    }
}

/// The workspace remembered after a run of events, handled in order.
pub open spec fn workspace_after_all(workspace: Seq<char>, events: Seq<EventView>) -> Seq<char>
    decreases events.len(),
{
    if events.len() == 0 {
        workspace
    } else {
        workspace_after(workspace_after_all(workspace, events.drop_last()), events.last())
    }
}

/// The orders given during a run of events, in order.
pub open spec fn orders_for_all(workspace: Seq<char>, events: Seq<EventView>) -> Seq<MoveView>
    decreases events.len(),
{
    if events.len() == 0 {
        Seq::empty()
    } else {
        let earlier = orders_for_all(workspace, events.drop_last());
        match order_for(workspace_after_all(workspace, events.drop_last()), events.last()) {
            Some(order) => earlier.push(order),
            None => earlier,
        }
    }
}

/// The mathematical values of a run of events.
pub open spec fn event_views<'a>(events: Seq<Event<'a>>) -> Seq<EventView> {
    Seq::new(events.len(), |i: int| events[i]@)
}

/// Whether `given` is the executable form of `expected`, order by order.
pub open spec fn same_orders(given: Seq<MoveSilently>, expected: Seq<MoveView>) -> bool {
    &&& given.len() == expected.len()
    &&& forall|k: int| 0 <= k < given.len() ==> (#[trigger] given[k])@ == expected[k]
}

/// Whether `given` is the executable form of `expected`.
pub open spec fn same_order(given: Option<MoveSilently>, expected: Option<MoveView>) -> bool {
    match given {
        Some(order) => expected == Some(order@),
        None => expected is None,
    }
}

/// Remembers the workspace that was focused last.
#[derive(Clone, Debug, PartialEq, Eq)]
pub struct Tracker {
    last_workspace: String,
}

impl View for Tracker {
    type V = Seq<char>;

    closed spec fn view(&self) -> Seq<char> {
        self.last_workspace@
    }
}

impl Tracker {
    /// A tracker that has seen nothing yet. It remembers workspace `1`.
    pub fn new() -> (tracker: Tracker)
        ensures
            tracker@ == "1"@,
    {
        Tracker { last_workspace: String::from_str("1") }
    }

    /// Name of the remembered workspace.
    pub fn last_workspace(&self) -> (name: &str)
        ensures
            name@ == self@,
    {
        self.last_workspace.as_str()
    }

    /// Handles one event. A focus change replaces the remembered workspace;
    /// a window that opened on a special workspace is ordered back to the
    /// remembered one; anything else changes nothing and orders nothing.
    pub fn handle(&mut self, event: Event<'_>) -> (order: Option<MoveSilently>)
        ensures
            final(self)@ == workspace_after(old(self)@, event@),
            same_order(order, order_for(old(self)@, event@)),
    {
        match event {
            Event::Irrelevant => None,
            Event::FocusedWorkspace { name } => {
                self.last_workspace = String::from_str(name);
                None
            },
            Event::SpawnedWindowOnSpecial { address } => Some(
                MoveSilently {
                    workspace: self.last_workspace.clone(),
                    address: String::from_str(address),
                },
            ),
        }
    }

    /// Handles a run of events in order and returns the orders they call
    /// for, oldest first.
    pub fn handle_all(&mut self, events: &[Event<'_>]) -> (orders: Vec<MoveSilently>)
        ensures
            final(self)@ == workspace_after_all(old(self)@, event_views(events@)),
            same_orders(orders@, orders_for_all(old(self)@, event_views(events@))),
    {
        let ghost start = self@;
        let ghost all = event_views(events@);
        let mut orders: Vec<MoveSilently> = Vec::new();
        let mut i: usize = 0;
        while i < events.len()
            invariant
                i <= events@.len(),
                all == event_views(events@),
                self@ == workspace_after_all(start, all.take(i as int)),
                same_orders(orders@, orders_for_all(start, all.take(i as int))),
            decreases events@.len() - i,
        {
            proof {
                assert(all.take(i + 1).drop_last() =~= all.take(i as int));
                assert(all.take(i + 1).last() == events@[i as int]@);
            }
            match self.handle(events[i]) {
                Some(order) => {
                    orders.push(order);
                },
                None => {},
            }
            i += 1;
        }
        proof {
            assert(all.take(i as int) =~= all);
        }
        orders
    }

    /// Reads one line of the event stream and handles the event it stands
    /// for. A line that cannot be read leaves the tracker as it was.
    pub fn feed(&mut self, line: &str, rule: SpecialRule) -> (r: Result<
        Option<MoveSilently>,
        ParseError,
    >)
        ensures
            match parse_line(line@, rule) {
                Ok(event) => {
                    &&& final(self)@ == workspace_after(old(self)@, event)
                    &&& r matches Ok(order) && same_order(order, order_for(old(self)@, event))
                },
                Err(error) => {
                    &&& final(self)@ == old(self)@
                    &&& r matches Err(e) && e == error
                },
            },
    {
        match parse_event(line, rule) {
            Ok(event) => Ok(self.handle(event)),
            Err(error) => Err(error),
        }
    }
}

} // verus!
