//! Properties that hold across several key presses.
use vstd::prelude::*;
use crate::editor::{deleted, inserted, offset_after_delete};
use crate::greeter::{GreeterView, Key, Mode, Outcome};
use crate::keyboard::{
    delete_step, enter_overlay_step, insert_step, key_step, outcome_of, power_finished,
};
use crate::power::failure_prefix;

verus! {

/// Typing a character and then deleting forward gives back the buffer, with
/// the cursor one step further towards the end, exactly when the cursor
/// stood inside the buffer before a character equal to the one typed.
pub proof fn law_insert_then_forward_delete(s: Seq<char>, offset: int, c: char)
    requires
        -s.len() <= offset < 0,
        s[s.len() + offset] == c,
    ensures
        deleted(inserted(s, offset, c), offset, true) == s,
        offset_after_delete(s.len() as int + 1, offset, true) == offset + 1,
{
    let i = s.len() + offset;
    assert(inserted(s, offset, c).remove(i + 1) =~= s);
}

/// The same law on the greeter: in a mode with a buffer, a character key
/// followed by Delete restores the buffer and advances the cursor offset.
pub proof fn law_type_then_delete(g: GreeterView, c: char)
    requires
        g.mode.has_buffer(),
        -g.active().len() <= g.cursor_offset < 0,
        g.active()[g.active().len() + g.cursor_offset] == c,
    ensures
        delete_step(insert_step(g, c), true) == (GreeterView {
            cursor_offset: g.cursor_offset + 1,
            ..g
        }),
{
    law_insert_then_forward_delete(g.active(), g.cursor_offset, c);
}

/// Typing a character and deleting backward gives back the buffer and the
/// cursor, for every cursor inside the buffer.
pub proof fn law_insert_then_backward_delete(s: Seq<char>, offset: int, c: char)
    requires
        -s.len() <= offset <= 0,
    ensures
        deleted(inserted(s, offset, c), offset, false) == s,
        offset_after_delete(s.len() as int + 1, offset, false) == offset,
{
    let i = s.len() + offset;
    assert(inserted(s, offset, c).remove(i) =~= s);
}

/// Ctrl-A puts the cursor at the start of the active buffer, for any buffer
/// whose length an offset can hold; Ctrl-E puts it at the end.
pub proof fn law_move_to_ends(g: GreeterView)
    requires
        g.active().len() <= i64::MAX,
    ensures
        key_step(g, Key::Ctrl('a')).cursor_offset == -g.active().len(),
        key_step(g, Key::Ctrl('e')).cursor_offset == 0,
{
}

/// Entering an overlay from a base mode remembers that base mode; entering a
/// second overlay keeps it; Escape from any overlay returns to it.
pub proof fn law_overlay_nesting(g: GreeterView, first: Mode, second: Mode)
    requires
        !g.mode.is_overlay(),
        first.is_overlay(),
        second.is_overlay(),
    ensures
        enter_overlay_step(g, first).previous_mode == g.mode,
        enter_overlay_step(enter_overlay_step(g, first), second).previous_mode == g.mode,
        key_step(enter_overlay_step(g, first), Key::Esc).mode == g.mode,
        key_step(enter_overlay_step(enter_overlay_step(g, first), second), Key::Esc).mode
            == g.mode,
{
}

/// Escape in any overlay returns to the remembered base mode.
pub proof fn law_escape_restores(g: GreeterView)
    requires
        g.mode.is_overlay(),
    ensures
        key_step(g, Key::Esc).mode == g.previous_mode,
        outcome_of(g.mode, Key::Esc) == Outcome::Continue,
{
}

/// Selections stop at both ends of their lists.
pub proof fn law_selection_stops_at_ends(g: GreeterView)
    requires
        g.wf(),
    ensures
        g.mode is Sessions && g.selected_session == 0 ==> key_step(g, Key::Up).selected_session
            == 0,
        g.mode is Sessions && g.selected_session == g.sessions.len() - 1 ==> key_step(
            g,
            Key::Down,
        ).selected_session == g.selected_session,
        g.mode is Power && g.selected_power_option == 0 ==> key_step(
            g,
            Key::Up,
        ).selected_power_option == 0,
        g.mode is Power && g.selected_power_option == 1 ==> key_step(
            g,
            Key::Down,
        ).selected_power_option == 1,
{
}

/// Backspace and Delete on an empty buffer change nothing, at any offset.
pub proof fn law_delete_on_empty(g: GreeterView)
    requires
        g.active().len() == 0,
    ensures
        key_step(g, Key::Backspace) == g,
        key_step(g, Key::Delete) == g,
{
}

/// A failed power action leaves a non-empty message, returns to the base
/// mode, and the greeter carries on.
pub proof fn law_power_failure_reported(g: GreeterView, description: Seq<char>)
    requires
        g.wf(),
        g.mode is Power,
    ensures
        power_finished(g, Some(description)).message matches Some(m) && m.len() > 0,
        power_finished(g, Some(description)).mode == g.previous_mode,
        !power_finished(g, Some(description)).mode.is_overlay(),
        outcome_of(g.mode, Key::Char('\n')) == Outcome::Continue,
{
    reveal_strlit("Failed to perform power action: ");
    assert(failure_prefix().len() > 0);
}

} // verus!
