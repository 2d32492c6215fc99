//! Reading one line of the event stream.
//!
//! A line is `<event>>><field>,<field>,...`. Three events matter:
//! `workspace` (field 0 is the workspace name), `focusedmon` (field 1 is the
//! workspace name) and `openwindow` (field 0 is the window's address, field 1
//! its workspace, field 2 its class). Every other event is irrelevant.

use vstd::prelude::*;
use crate::event::{
    excluded_classes, is_excluded_class, is_special_workspace, Event, EventView, ParseError,
    SpecialRule,
};
use crate::text::{
    after_separator, before_separator, chars_of, field, field_end, find_field_end,
    find_separator, first_field, has_separator, range_equals, range_starts_with,
};

verus! {

/// What the fields of an `openwindow` event mean under `rule`: a window
/// that opened on a special workspace is announced, unless the rule looks at
/// classes and the window's class is excluded.
pub open spec fn open_window(data: Seq<char>, rule: SpecialRule) -> Result<EventView, ParseError> {
    let spawned = EventView::SpawnedWindowOnSpecial { address: first_field(data) };
    match field(data, 1) {
        None => Err(ParseError::MissingField),
        Some(workspace) => if !is_special_workspace(workspace, rule) {
            Ok(EventView::Irrelevant)
        } else {
            match rule {
                SpecialRule::Sentinel => Ok(spawned),
                SpecialRule::Prefix => match field(data, 2) {
                    None => Err(ParseError::MissingField),
                    Some(class) => if is_excluded_class(class) {
                        Ok(EventView::Irrelevant)
                    } else {
                        Ok(spawned)
                    },
                },
            }
        },
    }
}

/// What a line means under `rule`.
pub open spec fn parse_line(line: Seq<char>, rule: SpecialRule) -> Result<EventView, ParseError> {
    if !has_separator(line) {
        Err(ParseError::MissingSeparator)
    } else {
        let event = before_separator(line);
        let data = after_separator(line);
        if event == "workspace"@ {
            Ok(EventView::FocusedWorkspace { name: first_field(data) })
        } else if event == "focusedmon"@ {
            match field(data, 1) {
                Some(name) => Ok(EventView::FocusedWorkspace { name }),
                None => Err(ParseError::MissingField),
            }
        } else if event == "openwindow"@ {
            open_window(data, rule)
        } else {
            Ok(EventView::Irrelevant)
        }
    }
}

/// Whether `r` is the executable form of the outcome `expected`.
pub open spec fn agrees<'a>(
    r: Result<Event<'a>, ParseError>,
    expected: Result<EventView, ParseError>,
) -> bool {
    match r {
        Ok(event) => expected == Ok::<EventView, ParseError>(event@),
        Err(error) => expected == Err::<EventView, ParseError>(error),
    }
}

/// Whether the characters of `chars` from `from` up to `to` spell an excluded
/// class.
fn range_is_excluded(chars: &[char], from: usize, to: usize) -> (r: bool)
    requires
        from <= to <= chars@.len(),
    ensures
        r == is_excluded_class(chars@.subrange(from as int, to as int)),
{
    let dolphin = chars_of("org.kde.dolphin");
    let r = range_equals(chars, from, to, dolphin.as_slice());
    proof {
        assert(excluded_classes()[0] == "org.kde.dolphin"@);
    }
    r
}

/// Whether the characters of `chars` from `from` up to `to` name a special
/// workspace under `rule`.
fn range_is_special(chars: &[char], from: usize, to: usize, rule: SpecialRule) -> (r: bool)
    requires
        from <= to <= chars@.len(),
    ensures
        r == is_special_workspace(chars@.subrange(from as int, to as int), rule),
{
    match rule {
        SpecialRule::Sentinel => {
            let sentinel = chars_of("special:special");
            range_equals(chars, from, to, sentinel.as_slice())
        },
        SpecialRule::Prefix => {
            let marker = chars_of("special:");
            range_starts_with(chars, from, to, marker.as_slice())
        },
    }
}

/// Reads the fields of an `openwindow` event, which start at `data` in
/// `line`; `end0` is where the first of them ends.
fn parse_open_window<'a>(
    line: &'a str,
    chars: &[char],
    data: usize,
    end0: usize,
    rule: SpecialRule,
) -> (r: Result<Event<'a>, ParseError>)
    requires
        chars@ == line@,
        data <= end0 <= chars@.len(),
        end0 - data == field_end(chars@.skip(data as int)),
    ensures
        agrees(r, open_window(line@.skip(data as int), rule)),
{
    let n: usize = chars.len();
    let ghost fields = chars@.skip(data as int);
    proof {
        reveal_with_fuel(field, 3);
        assert(fields.take(end0 - data) =~= chars@.subrange(data as int, end0 as int));
        if end0 < n {
            assert(fields.skip(end0 - data + 1) =~= chars@.skip(end0 + 1));
        }
    }
    if end0 == n {
        return Err(ParseError::MissingField);
    }
    let start1: usize = end0 + 1;
    let end1: usize = find_field_end(chars, start1);
    if !range_is_special(chars, start1, end1, rule) {
        return Ok(Event::Irrelevant);
    }
    let spawned = Event::SpawnedWindowOnSpecial { address: line.substring_char(data, end0) };
    match rule {
        SpecialRule::Sentinel => Ok(spawned),
        SpecialRule::Prefix => {
            if end1 == n {
                return Err(ParseError::MissingField);
            }
            let start2: usize = end1 + 1;
            let end2: usize = find_field_end(chars, start2);
            if range_is_excluded(chars, start2, end2) {
                Ok(Event::Irrelevant)
            } else {
                Ok(spawned)
            }
        },
    }
}

/// Reads one line of the event stream under `rule`.
///
/// The line is split at its leftmost `>>`; what stands before is the event's
/// name, what stands after are its fields, separated by commas. A line
/// without `>>` is refused, and so is a `focusedmon` or `openwindow` line
/// that lacks a field the rule reads. An event of any other name is
/// irrelevant, whatever its fields.
pub fn parse_event<'a>(line: &'a str, rule: SpecialRule) -> (r: Result<Event<'a>, ParseError>)
    ensures
        agrees(r, parse_line(line@, rule)),
        r == Err::<Event<'a>, ParseError>(ParseError::MissingSeparator) <==> !has_separator(line@),
{
    let chars = chars_of(line);
    let n: usize = chars.len();
    let sep: usize = match find_separator(chars.as_slice()) {
        None => {
            return Err(ParseError::MissingSeparator);
        },
        Some(i) => i,
    };
    let data: usize = sep + 2;
    let end0: usize = find_field_end(chars.as_slice(), data);
    proof {
        reveal_with_fuel(field, 2);
        assert(chars@.take(sep as int) =~= chars@.subrange(0, sep as int));
    }
    let workspace = chars_of("workspace");
    let focusedmon = chars_of("focusedmon");
    let openwindow = chars_of("openwindow");
    if range_equals(chars.as_slice(), 0, sep, workspace.as_slice()) {
        Ok(Event::FocusedWorkspace { name: line.substring_char(data, end0) })
    } else if range_equals(chars.as_slice(), 0, sep, focusedmon.as_slice()) {
        if end0 == n {
            return Err(ParseError::MissingField);
        }
        let end1: usize = find_field_end(chars.as_slice(), end0 + 1);
        Ok(Event::FocusedWorkspace { name: line.substring_char(end0 + 1, end1) })
    } else if range_equals(chars.as_slice(), 0, sep, openwindow.as_slice()) {
        parse_open_window(line, chars.as_slice(), data, end0, rule)
    } else {
        Ok(Event::Irrelevant)
    }
}

} // verus!
