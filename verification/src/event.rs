//! The events that a line of the stream can stand for, the ways a line can
//! be malformed, and the rule that decides which workspaces count as special.

use vstd::prelude::*;

verus! {

/// What one line of the event stream means to the daemon. The names borrow
/// from the line they were read from.
#[derive(Clone, Copy, Debug, PartialEq, Eq)]
pub enum Event<'a> {
    /// Nothing to do.
    Irrelevant,
    /// The user now looks at the workspace called `name`.
    FocusedWorkspace { name: &'a str },
    /// The window at `address` opened on a special workspace and should be
    /// brought back.
    SpawnedWindowOnSpecial { address: &'a str },
}

/// The mathematical value of an [`Event`]: the same cases over character
/// sequences.
pub enum EventView {
    Irrelevant,
    FocusedWorkspace { name: Seq<char> },
    SpawnedWindowOnSpecial { address: Seq<char> },
}

impl<'a> View for Event<'a> {
    type V = EventView;

    open spec fn view(&self) -> EventView {
        match *self {
            Event::Irrelevant => EventView::Irrelevant,
            Event::FocusedWorkspace { name } => EventView::FocusedWorkspace { name: name@ },
            Event::SpawnedWindowOnSpecial { address } => EventView::SpawnedWindowOnSpecial {
                address: address@,
            },
        }
    }
}

/// Why a line could not be read as an event. Either is a breach of the
/// stream's protocol, and the daemon gives up on it.
#[derive(Clone, Copy, Debug, PartialEq, Eq, Structural)]
pub enum ParseError {
    /// The line holds no `>>`.
    MissingSeparator,
    /// The event is one the daemon reads, but a field it needs is not there.
    MissingField,
}

/// How a window-open event's workspace is recognised as special. The two
/// rules belong to two deployments and are kept apart on purpose.
#[derive(Clone, Copy, Debug, PartialEq, Eq, Structural)]
pub enum SpecialRule {
    /// The workspace is special when it is exactly `special:special`. Window
    /// classes are not looked at.
    Sentinel,
    /// The workspace is special when it starts with `special:`. The window's
    /// class must follow, and windows of an excluded class are left alone.
    Prefix,
}

/// Whether `workspace`, as an `openwindow` event gives it, is special under
/// `rule`.
pub open spec fn is_special_workspace(workspace: Seq<char>, rule: SpecialRule) -> bool {
    match rule {
        SpecialRule::Sentinel => workspace == "special:special"@,
        SpecialRule::Prefix => "special:"@.is_prefix_of(workspace),
    }
}

/// The window classes that are left where they opened.
pub open spec fn excluded_classes() -> Seq<Seq<char>> {
    seq!["org.kde.dolphin"@]
}

/// Whether windows of this class are left where they opened.
pub open spec fn is_excluded_class(class: Seq<char>) -> bool {
    excluded_classes().contains(class)
}

} // verus!
