//! What holds of the parser and the tracker on whole families of inputs.
//!
//! In every law about a line built from parts, a part that becomes one field
//! must itself be free of commas: a comma inside it would end the field
//! early.

use vstd::prelude::*;
use crate::command::MoveView;
use crate::event::{
    excluded_classes, is_excluded_class, is_special_workspace, EventView, ParseError, SpecialRule,
};
use crate::parse::{open_window, parse_line};
use crate::text::{
    angle_free, before_separator, comma_free, field, first_field, has_separator,
    lemma_field_then_more, lemma_single_field, lemma_split_joined,
};
use crate::tracker::{order_for, orders_for_all, workspace_after, workspace_after_all};

verus! {

/// The three event names that the parser reads hold no `>` and differ from
/// one another.
proof fn lemma_event_names()
    ensures
        angle_free("workspace"@),
        angle_free("focusedmon"@),
        angle_free("openwindow"@),
        "workspace"@ != "focusedmon"@,
        "workspace"@ != "openwindow"@,
        "focusedmon"@ != "openwindow"@,
{
    reveal_strlit("workspace");
    reveal_strlit("focusedmon");
    reveal_strlit("openwindow");
    assert("workspace"@.len() != "focusedmon"@.len());
    assert("workspace"@.len() != "openwindow"@.len());
    assert("focusedmon"@[0] != "openwindow"@[0]);
}

/// A line without `>>` is refused, under either rule.
pub proof fn law_missing_separator(line: Seq<char>, rule: SpecialRule)
    requires
        !has_separator(line),
    ensures
        parse_line(line, rule) == Err::<EventView, ParseError>(ParseError::MissingSeparator),
{
}

/// A line whose event name is none of `workspace`, `focusedmon` and
/// `openwindow` is irrelevant, whatever follows the separator.
pub proof fn law_unknown_event(line: Seq<char>, rule: SpecialRule)
    requires
        has_separator(line),
        before_separator(line) != "workspace"@,
        before_separator(line) != "focusedmon"@,
        before_separator(line) != "openwindow"@,
    ensures
        parse_line(line, rule) == Ok::<EventView, ParseError>(EventView::Irrelevant),
{
}

/// A `workspace` line reports the focus on the workspace that its first
/// field names, whatever else the line holds.
pub proof fn law_workspace_data(data: Seq<char>, rule: SpecialRule)
    ensures
        parse_line("workspace>>"@ + data, rule) == Ok::<EventView, ParseError>(
            EventView::FocusedWorkspace { name: first_field(data) },
        ),
{
    reveal_strlit("workspace>>");
    reveal_strlit("workspace");
    reveal_strlit(">>");
    lemma_event_names();
    assert("workspace>>"@ + data =~= "workspace"@ + ">>"@ + data);
    lemma_split_joined("workspace"@, data);
}

/// `workspace>>W` reports that workspace `W` got the focus, and a tracker
/// that handles it remembers `W`.
pub proof fn law_workspace_line(w: Seq<char>, rule: SpecialRule, before: Seq<char>)
    requires
        comma_free(w),
    ensures
        parse_line("workspace>>"@ + w, rule) == Ok::<EventView, ParseError>(
            EventView::FocusedWorkspace { name: w },
        ),
        workspace_after(before, EventView::FocusedWorkspace { name: w }) == w,
{
    law_workspace_data(w, rule);
    lemma_single_field(w);
}

/// A `focusedmon` line reports the focus on the workspace that its second
/// field names, and is incomplete without one.
pub proof fn law_focusedmon_data(data: Seq<char>, rule: SpecialRule)
    ensures
        parse_line("focusedmon>>"@ + data, rule) == match field(data, 1) {
            Some(name) => Ok::<EventView, ParseError>(EventView::FocusedWorkspace { name }),
            None => Err::<EventView, ParseError>(ParseError::MissingField),
        },
{
    reveal_strlit("focusedmon>>");
    reveal_strlit("focusedmon");
    reveal_strlit(">>");
    lemma_event_names();
    assert("focusedmon>>"@ + data =~= "focusedmon"@ + ">>"@ + data);
    lemma_split_joined("focusedmon"@, data);
}

/// `focusedmon>>M,W` reports that workspace `W` got the focus; the monitor
/// `M` plays no part.
pub proof fn law_focusedmon_line(m: Seq<char>, w: Seq<char>, rule: SpecialRule)
    requires
        comma_free(m),
        comma_free(w),
    ensures
        parse_line("focusedmon>>"@ + m + ","@ + w, rule) == Ok::<EventView, ParseError>(
            EventView::FocusedWorkspace { name: w },
        ),
{
    let data = m + ","@ + w;
    assert("focusedmon>>"@ + m + ","@ + w =~= "focusedmon>>"@ + data);
    law_focusedmon_data(data, rule);
    lemma_two_fields(m, w);
}

/// The fields of `A,W`: the address `A`, the workspace `W`, and no class.
proof fn lemma_two_fields(a: Seq<char>, w: Seq<char>)
    requires
        comma_free(a),
        comma_free(w),
    ensures
        first_field(a + ","@ + w) == a,
        field(a + ","@ + w, 1) == Some(w),
        field(a + ","@ + w, 2) is None,
{
    lemma_field_then_more(a, w);
    lemma_single_field(w);
    reveal_with_fuel(field, 3);
}

/// The fields of `A,W,R`: the address `A`, the workspace `W`, and as class
/// the first field of the rest `R`.
proof fn lemma_three_fields(a: Seq<char>, w: Seq<char>, rest: Seq<char>)
    requires
        comma_free(a),
        comma_free(w),
    ensures
        first_field(a + ","@ + w + ","@ + rest) == a,
        field(a + ","@ + w + ","@ + rest, 1) == Some(w),
        field(a + ","@ + w + ","@ + rest, 2) == Some(first_field(rest)),
{
    let tail = w + ","@ + rest;
    assert(a + ","@ + w + ","@ + rest =~= a + ","@ + tail);
    lemma_field_then_more(a, tail);
    lemma_field_then_more(w, rest);
    reveal_with_fuel(field, 3);
}

/// An `openwindow` line means what its fields mean.
pub proof fn law_openwindow_data(data: Seq<char>, rule: SpecialRule)
    ensures
        parse_line("openwindow>>"@ + data, rule) == open_window(data, rule),
{
    reveal_strlit("openwindow>>");
    reveal_strlit("openwindow");
    reveal_strlit(">>");
    lemma_event_names();
    assert("openwindow>>"@ + data =~= "openwindow"@ + ">>"@ + data);
    lemma_split_joined("openwindow"@, data);
}

/// `openwindow>>A,W`, a line that gives no class: the window at `A` is
/// announced under the sentinel rule if `W` is special; under the prefix
/// rule a special `W` makes the line incomplete. Otherwise the line is
/// irrelevant.
pub proof fn law_openwindow_without_class(a: Seq<char>, w: Seq<char>, rule: SpecialRule)
    requires
        comma_free(a),
        comma_free(w),
    ensures
        parse_line("openwindow>>"@ + a + ","@ + w, rule) == if !is_special_workspace(w, rule) {
            Ok::<EventView, ParseError>(EventView::Irrelevant)
        } else if rule == SpecialRule::Sentinel {
            Ok::<EventView, ParseError>(EventView::SpawnedWindowOnSpecial { address: a })
        } else {
            Err::<EventView, ParseError>(ParseError::MissingField)
        },
{
    let data = a + ","@ + w;
    assert("openwindow>>"@ + a + ","@ + w =~= "openwindow>>"@ + data);
    law_openwindow_data(data, rule);
    lemma_two_fields(a, w);
}

/// `openwindow>>A,W,R`, where the rest `R` begins with the class and may go
/// on with further fields: the window at `A` is announced if `W` is special,
/// unless the prefix rule is in force and the class is excluded. Otherwise
/// the line is irrelevant.
pub proof fn law_openwindow_with_class(
    a: Seq<char>,
    w: Seq<char>,
    rest: Seq<char>,
    rule: SpecialRule,
)
    requires
        comma_free(a),
        comma_free(w),
    ensures
        parse_line("openwindow>>"@ + a + ","@ + w + ","@ + rest, rule) == if is_special_workspace(
            w,
            rule,
        ) && !(rule == SpecialRule::Prefix && is_excluded_class(first_field(rest))) {
            Ok::<EventView, ParseError>(EventView::SpawnedWindowOnSpecial { address: a })
        } else {
            Ok::<EventView, ParseError>(EventView::Irrelevant)
        },
{
    let data = a + ","@ + w + ","@ + rest;
    assert("openwindow>>"@ + a + ","@ + w + ","@ + rest =~= "openwindow>>"@ + data);
    law_openwindow_data(data, rule);
    lemma_three_fields(a, w, rest);
}

/// Under the sentinel rule, `openwindow>>A,special:special` reports that
/// the window at `A` opened on the special workspace.
pub proof fn law_sentinel_spawn(a: Seq<char>)
    requires
        comma_free(a),
    ensures
        parse_line("openwindow>>"@ + a + ",special:special"@, SpecialRule::Sentinel) == Ok::<
            EventView,
            ParseError,
        >(EventView::SpawnedWindowOnSpecial { address: a }),
{
    reveal_strlit(",special:special");
    reveal_strlit("special:special");
    reveal_strlit(",");
    let data = a + ","@ + "special:special"@;
    assert("openwindow>>"@ + a + ",special:special"@ =~= "openwindow>>"@ + data);
    law_openwindow_data(data, SpecialRule::Sentinel);
    lemma_two_fields(a, "special:special"@);
}

/// Under the prefix rule, `openwindow>>A,special:foo,C` reports that the
/// window at `A` opened on a special workspace, unless the class is
/// excluded. The class is `C` up to its first comma: what follows it, a
/// title for one, is not looked at.
pub proof fn law_prefix_spawn(a: Seq<char>, c: Seq<char>)
    requires
        comma_free(a),
        !is_excluded_class(first_field(c)),
    ensures
        parse_line("openwindow>>"@ + a + ",special:foo,"@ + c, SpecialRule::Prefix) == Ok::<
            EventView,
            ParseError,
        >(EventView::SpawnedWindowOnSpecial { address: a }),
{
    reveal_strlit(",special:foo,");
    reveal_strlit("special:foo");
    reveal_strlit("special:");
    reveal_strlit(",");
    assert("openwindow>>"@ + a + ",special:foo,"@ + c =~= "openwindow>>"@ + a + ","@
        + "special:foo"@ + ","@ + c);
    assert("special:"@.is_prefix_of("special:foo"@));
    law_openwindow_with_class(a, "special:foo"@, c, SpecialRule::Prefix);
}

/// `openwindow>>A,special:foo,org.kde.dolphin` is irrelevant under either
/// rule: the class is excluded under the prefix rule, and the workspace is
/// not the sentinel under the other.
pub proof fn law_excluded_class(a: Seq<char>, rule: SpecialRule)
    requires
        comma_free(a),
    ensures
        parse_line("openwindow>>"@ + a + ",special:foo,org.kde.dolphin"@, rule) == Ok::<
            EventView,
            ParseError,
        >(EventView::Irrelevant),
{
    reveal_strlit(",special:foo,org.kde.dolphin");
    reveal_strlit("org.kde.dolphin");
    reveal_strlit("special:foo");
    reveal_strlit("special:special");
    reveal_strlit("special:");
    reveal_strlit(",");
    let data = a + ","@ + "special:foo"@ + ","@ + "org.kde.dolphin"@;
    assert("openwindow>>"@ + a + ",special:foo,org.kde.dolphin"@ =~= "openwindow>>"@ + data);
    law_openwindow_data(data, rule);
    lemma_three_fields(a, "special:foo"@, "org.kde.dolphin"@);
    lemma_single_field("org.kde.dolphin"@);
    assert("special:"@.is_prefix_of("special:foo"@));
    assert(excluded_classes()[0] == "org.kde.dolphin"@);
    assert("special:foo"@.len() != "special:special"@.len());
}

/// `openwindow>>A,1` is irrelevant under either rule: workspace `1` is not
/// special.
pub proof fn law_ordinary_workspace(a: Seq<char>, rule: SpecialRule)
    requires
        comma_free(a),
    ensures
        parse_line("openwindow>>"@ + a + ",1"@, rule) == Ok::<EventView, ParseError>(
            EventView::Irrelevant,
        ),
{
    reveal_strlit(",1");
    reveal_strlit("1");
    reveal_strlit("special:special");
    reveal_strlit("special:");
    reveal_strlit(",");
    let data = a + ","@ + "1"@;
    assert("openwindow>>"@ + a + ",1"@ =~= "openwindow>>"@ + data);
    law_openwindow_data(data, rule);
    lemma_two_fields(a, "1"@);
    assert("1"@.len() != "special:special"@.len());
    assert(!"special:"@.is_prefix_of("1"@));
}

/// Focusing the same workspace again changes nothing: the remembered
/// workspace after the second event is the one after the first, and neither
/// event gives an order.
pub proof fn law_refocus_is_idempotent(before: Seq<char>, name: Seq<char>)
    ensures
        ({
            let event = EventView::FocusedWorkspace { name };
            let once = workspace_after(before, event);
            &&& workspace_after(once, event) == once
            &&& order_for(before, event) is None
            &&& order_for(once, event) is None
        }),
{
}

/// However often the same focus change is repeated, the remembered
/// workspace is its name and no order is given.
pub proof fn law_repeated_focus(before: Seq<char>, name: Seq<char>, events: Seq<EventView>)
    requires
        events.len() >= 1,
        forall|i: int| 0 <= i < events.len() ==> events[i] == (EventView::FocusedWorkspace { name }),
    ensures
        workspace_after_all(before, events) == name,
        orders_for_all(before, events) == Seq::<MoveView>::empty(),
    decreases events.len(),
{
    assert(events.last() == (EventView::FocusedWorkspace { name }));
    if events.len() > 1 {
        law_repeated_focus(before, name, events.drop_last());
    } else {
        assert(orders_for_all(before, events.drop_last()) == Seq::<MoveView>::empty());
    }
}

/// The remembered workspace is always the one named by the latest focus
/// change seen.
pub proof fn law_tracks_latest_focus(before: Seq<char>, events: Seq<EventView>, latest: int)
    requires
        0 <= latest < events.len(),
        events[latest] is FocusedWorkspace,
        forall|j: int| latest < j < events.len() ==> !(events[j] is FocusedWorkspace),
    ensures
        workspace_after_all(before, events) == events[latest]->name,
    decreases events.len(),
{
    if latest < events.len() - 1 {
        law_tracks_latest_focus(before, events.drop_last(), latest);
    }
}

/// Until a focus change is seen, the remembered workspace stays what it
/// was.
pub proof fn law_keeps_workspace_without_focus(before: Seq<char>, events: Seq<EventView>)
    requires
        forall|j: int| 0 <= j < events.len() ==> !(events[j] is FocusedWorkspace),
    ensures
        workspace_after_all(before, events) == before,
    decreases events.len(),
{
    if events.len() > 0 {
        law_keeps_workspace_without_focus(before, events.drop_last());
    }
}

/// Workspace `1`, which a new tracker remembers, is special under neither
/// rule.
pub proof fn law_default_is_not_special(rule: SpecialRule)
    ensures
        !is_special_workspace("1"@, rule),
{
    reveal_strlit("1");
    reveal_strlit("special:special");
    reveal_strlit("special:");
    assert("1"@.len() != "special:special"@.len());
    assert(!"special:"@.is_prefix_of("1"@));
}

/// Focus changes are taken as they come. So the remembered workspace is
/// never a special one as long as the stream never reports the focus on
/// one, and the workspace remembered at the start is not special.
pub proof fn law_never_special(before: Seq<char>, events: Seq<EventView>, rule: SpecialRule)
    requires
        !is_special_workspace(before, rule),
        forall|j: int|
            0 <= j < events.len() && events[j] is FocusedWorkspace ==> !is_special_workspace(
                events[j]->name,
                rule,
            ),
    ensures
        !is_special_workspace(workspace_after_all(before, events), rule),
    decreases events.len(),
{
    if events.len() > 0 {
        law_never_special(before, events.drop_last(), rule);
    }
}

/// Every order sends its window to the workspace that was remembered when
/// the window opened.
pub proof fn law_order_targets_remembered(before: Seq<char>, address: Seq<char>)
    ensures
        order_for(before, EventView::SpawnedWindowOnSpecial { address }) == Some(
            MoveView { workspace: before, address },
        ),
        workspace_after(before, EventView::SpawnedWindowOnSpecial { address }) == before,
{
}

} // verus!
