//! Key handling: each key press becomes a mode change, an edit of the active
//! buffer, a selection move, a pending request or a power action.
//!
//! Every transition is first stated on [`GreeterView`]; the functions that
//! perform it are proved to match.
use vstd::prelude::*;
use crate::editor::{
    char_count, delete_index, deleted, inserted, insert_char, negated_count,
    offset_after_delete, remove_char,
};
use crate::greeter::{Greeter, GreeterView, Key, Mode, Outcome, Request, RequestView, POWER_OPTION_COUNT};
use crate::power::{
    failure_message, power_call, power_failure_message, power_option, PowerControl, PowerError,
};

verus! {

/// Enters an overlay. The remembered base mode is only replaced when coming
/// from a base mode; the command overlay starts from the committed command.
pub open spec fn enter_overlay_step(g: GreeterView, target: Mode) -> GreeterView {
    let previous = if g.mode.is_overlay() {
        g.previous_mode
    } else {
        g.mode
    };
    if target is Command {
        GreeterView {
            previous_mode: previous,
            mode: target,
            new_command: match g.command {
                Some(c) => c,
                None => Seq::empty(),
            },
            ..g
        }
    } else {
        GreeterView { previous_mode: previous, mode: target, ..g }
    }
}

/// Returns from an overlay to the remembered base mode.
pub open spec fn leave_overlay_step(g: GreeterView) -> GreeterView {
    GreeterView { mode: g.previous_mode, ..g }
}

/// Moves the cursor one character left, without clamping.
pub open spec fn left_step(g: GreeterView) -> GreeterView {
    if g.cursor_offset > i64::MIN {
        GreeterView { cursor_offset: g.cursor_offset - 1, ..g }
    } else {
        g
    }
}

/// Moves the cursor one character right, without clamping.
pub open spec fn right_step(g: GreeterView) -> GreeterView {
    if g.cursor_offset < i64::MAX {
        GreeterView { cursor_offset: g.cursor_offset + 1, ..g }
    } else {
        g
    }
}

/// Moves the cursor to the start of the active buffer.
pub open spec fn start_step(g: GreeterView) -> GreeterView {
    let n = g.active().len();
    GreeterView {
        cursor_offset: if n <= i64::MAX {
            -n
        } else {
            -i64::MAX
        },
        ..g
    }
}

/// Moves the cursor to the end of the active buffer.
pub open spec fn end_step(g: GreeterView) -> GreeterView {
    GreeterView { cursor_offset: 0, ..g }
}

/// Moves the selection of the current mode up, stopping at the first entry.
pub open spec fn up_step(g: GreeterView) -> GreeterView {
    match g.mode {
        Mode::Sessions => if g.selected_session > 0 {
            GreeterView { selected_session: g.selected_session - 1, ..g }
        } else {
            g
        },
        Mode::Power => if g.selected_power_option > 0 {
            GreeterView { selected_power_option: g.selected_power_option - 1, ..g }
        } else {
            g
        },
        _ => g,
    }
}

/// Moves the selection of the current mode down, stopping at the last entry.
pub open spec fn down_step(g: GreeterView) -> GreeterView {
    match g.mode {
        Mode::Sessions => if g.selected_session < g.sessions.len() - 1 {
            GreeterView { selected_session: g.selected_session + 1, ..g }
        } else {
            g
        },
        Mode::Power => if g.selected_power_option < POWER_OPTION_COUNT - 1 {
            GreeterView { selected_power_option: g.selected_power_option + 1, ..g }
        } else {
            g
        },
        _ => g,
    }
}

/// Inserts a character at the cursor of the active buffer.
pub open spec fn insert_step(g: GreeterView, c: char) -> GreeterView {
    if g.mode.has_buffer() {
        g.with_active(inserted(g.active(), g.cursor_offset, c))
    } else {
        g
    }
}

/// Deletes the character under (forward) or before (backward) the cursor.
pub open spec fn delete_step(g: GreeterView, forward: bool) -> GreeterView {
    if g.mode.has_buffer() {
        let n = g.active().len() as int;
        GreeterView {
            cursor_offset: offset_after_delete(n, g.cursor_offset, forward),
            ..g.with_active(deleted(g.active(), g.cursor_offset, forward))
        }
    } else {
        g
    }
}

/// Empties the active buffer; the cursor offset is left as it is.
pub open spec fn clear_step(g: GreeterView) -> GreeterView {
    if g.mode.has_buffer() {
        g.with_active(Seq::empty())
    } else {
        g
    }
}

/// The first session, counted from the front, whose command is `cmd`.
pub open spec fn first_with_command(s: Seq<(Seq<char>, Seq<char>)>, cmd: Seq<char>) -> Option<int>
    decreases s.len(),
{
    if s.len() == 0 {
        None
    } else {
        match first_with_command(s.drop_last(), cmd) {
            Some(i) => Some(i),
            None => if s.last().1 == cmd {
                Some(s.len() - 1)
            } else {
                None
            },
        }
    }
}

/// A session found for a command is one of the sessions.
pub proof fn lemma_first_with_command_in_range(s: Seq<(Seq<char>, Seq<char>)>, cmd: Seq<char>)
    ensures
        first_with_command(s, cmd) matches Some(i) ==> 0 <= i < s.len() && s[i].1 == cmd,
    decreases s.len(),
{
    if s.len() > 0 {
        lemma_first_with_command_in_range(s.drop_last(), cmd);
    }
}

/// The session selected for a committed command: the first one that runs
/// it, or the first session where none does.
pub open spec fn session_for(s: Seq<(Seq<char>, Seq<char>)>, cmd: Seq<char>) -> int {
    match first_with_command(s, cmd) {
        Some(i) => i,
        None => 0,
    }
}

/// Enter or Tab. In a base mode this leaves a request for the daemon; in an
/// overlay it commits the choice and returns to the base mode. In `Power`
/// mode the outcome of the power call is applied by [`power_finished`].
pub open spec fn submit_step(g: GreeterView) -> GreeterView {
    match g.mode {
        Mode::Username => GreeterView {
            working: true,
            message: None,
            request: Some(RequestView::CreateSession { username: g.username }),
            answer: Seq::empty(),
            ..g
        },
        Mode::Password => GreeterView {
            working: true,
            message: None,
            request: Some(RequestView::PostAuthMessageResponse { response: Some(g.answer) }),
            answer: Seq::empty(),
            ..g
        },
        Mode::Command => GreeterView {
            command: Some(g.new_command),
            selected_session: session_for(g.sessions, g.new_command),
            mode: g.previous_mode,
            ..g
        },
        Mode::Sessions => GreeterView {
            command: Some(g.sessions[g.selected_session].1),
            mode: g.previous_mode,
            ..g
        },
        Mode::Power => power_finished(g, None),
    }
}

/// The state after a power action: back in the base mode, and where the
/// call failed with `failure`, a message that says so.
pub open spec fn power_finished(g: GreeterView, failure: Option<Seq<char>>) -> GreeterView {
    GreeterView {
        mode: g.previous_mode,
        message: match failure {
            Some(d) => Some(failure_message(d)),
            None => g.message,
        },
        ..g
    }
}

pub open spec fn is_submit(key: Key) -> bool {
    key == Key::Char('\n') || key == Key::Char('\t')
}

/// Whether the key runs a power action.
pub open spec fn is_power_submit(g: GreeterView, key: Key) -> bool {
    g.mode is Power && is_submit(key)
}

/// The state after one key, for every key but one that runs a power action.
pub open spec fn key_step(g: GreeterView, key: Key) -> GreeterView {
    match key {
        Key::Esc => if g.mode.is_overlay() {
            leave_overlay_step(g)
        } else {
            g
        },
        Key::Left => left_step(g),
        Key::Right => right_step(g),
        Key::F(n) => if n == 2 {
            enter_overlay_step(g, Mode::Command)
        } else if n == 3 {
            enter_overlay_step(g, Mode::Sessions)
        } else if n == 12 {
            enter_overlay_step(g, Mode::Power)
        } else {
            g
        },
        Key::Up => up_step(g),
        Key::Down => down_step(g),
        Key::Ctrl(c) => if c == 'a' {
            start_step(g)
        } else if c == 'e' {
            end_step(g)
        } else if c == 'u' {
            clear_step(g)
        } else {
            g
        },
        Key::Char(c) => if c == '\n' || c == '\t' {
            submit_step(g)
        } else {
            insert_step(g, c)
        },
        Key::Backspace => delete_step(g, false),
        Key::Delete => delete_step(g, true),
        Key::Other => g,
    }
}

/// Escape in a base mode cancels the login; every other key continues.
pub open spec fn outcome_of(mode: Mode, key: Key) -> Outcome {
    if key == Key::Esc && !mode.is_overlay() {
        Outcome::Cancel
    } else {
        Outcome::Continue
    }
}

/// Inserts `c` at the cursor of the active buffer; nothing happens in a mode
/// without a buffer.
pub fn insert_key(greeter: &mut Greeter, c: char)
    ensures
        final(greeter)@ == insert_step(old(greeter)@, c),
{
    let offset = greeter.cursor_offset;
    match greeter.mode {
        Mode::Username => {
            greeter.username = insert_char(&greeter.username, offset, c);
        },
        Mode::Password => {
            greeter.answer = insert_char(&greeter.answer, offset, c);
        },
        Mode::Command => {
            greeter.new_command = insert_char(&greeter.new_command, offset, c);
        },
        Mode::Sessions | Mode::Power => {},
    }
}

/// The buffer and cursor offset after a delete.
fn delete_from(value: &String, offset: i64, forward: bool) -> (r: (String, i64))
    ensures
        r.0@ == deleted(value@, offset as int, forward),
        r.1 as int == offset_after_delete(value@.len() as int, offset as int, forward),
{
    let n = char_count(value);
    match delete_index(n, offset, forward) {
        Some(i) => {
            let v = remove_char(value, i);
            if forward {
                (v, offset + 1)
            } else {
                (v, offset)
            }
        },
        None => (value.clone(), offset),
    }
}

/// Backspace removes the character before the cursor, Delete the one under
/// it. Where there is no such character nothing changes.
pub fn delete_key(greeter: &mut Greeter, key: Key)
    requires
        key == Key::Backspace || key == Key::Delete,
    ensures
        final(greeter)@ == delete_step(old(greeter)@, key == Key::Delete),
{
    let forward = match key {
        Key::Delete => true,
        _ => false,
    };
    let offset = greeter.cursor_offset;
    match greeter.mode {
        Mode::Username => {
            let (v, o) = delete_from(&greeter.username, offset, forward);
            greeter.username = v;
            greeter.cursor_offset = o;
        },
        Mode::Password => {
            let (v, o) = delete_from(&greeter.answer, offset, forward);
            greeter.answer = v;
            greeter.cursor_offset = o;
        },
        Mode::Command => {
            let (v, o) = delete_from(&greeter.new_command, offset, forward);
            greeter.new_command = v;
            greeter.cursor_offset = o;
        },
        Mode::Sessions | Mode::Power => {},
    }
}

/// Empties the active buffer.
pub fn clear_buffer(greeter: &mut Greeter)
    ensures
        final(greeter)@ == clear_step(old(greeter)@),
{
    match greeter.mode {
        Mode::Username => greeter.username = String::new(),
        Mode::Password => greeter.answer = String::new(),
        Mode::Command => greeter.new_command = String::new(),
        Mode::Sessions | Mode::Power => {},
    }
}

/// Moves the cursor to the start of the active buffer.
pub fn move_to_start(greeter: &mut Greeter)
    ensures
        final(greeter)@ == start_step(old(greeter)@),
{
    let n = match greeter.mode {
        Mode::Password => char_count(&greeter.answer),
        Mode::Command => char_count(&greeter.new_command),
        _ => char_count(&greeter.username),
    };
    greeter.cursor_offset = negated_count(n);
}

/// Enters the overlay `target`, keeping the base mode to return to.
pub fn enter_overlay(greeter: &mut Greeter, target: Mode)
    requires
        target.is_overlay(),
    ensures
        final(greeter)@ == enter_overlay_step(old(greeter)@, target),
{
    if !greeter.mode.overlay() {
        greeter.previous_mode = greeter.mode;
    }
    if let Mode::Command = target {
        greeter.new_command = match &greeter.command {
            Some(c) => c.clone(),
            None => String::new(),
        };
    }
    greeter.mode = target;
}

/// The index of the first session whose command is `command`, or 0.
pub fn session_index(sessions: &Vec<(String, String)>, command: &String) -> (i: usize)
    ensures
        i as int == session_for(
            sessions@.map_values(|p: (String, String)| (p.0@, p.1@)),
            command@,
        ),
        sessions.len() > 0 ==> i < sessions.len(),
{
    let ghost s = sessions@.map_values(|p: (String, String)| (p.0@, p.1@));
    let n = sessions.len();
    let mut found: Option<usize> = None;
    let mut i: usize = 0;
    while i < n
        invariant
            n == sessions.len(),
            s == sessions@.map_values(|p: (String, String)| (p.0@, p.1@)),
            i <= n,
            found is None <==> first_with_command(s.take(i as int), command@) is None,
            found is Some ==> first_with_command(s.take(i as int), command@) == Some(
                found->0 as int,
            ),
            found is Some ==> found->0 < i,
        decreases n - i,
    {
        assert(s.take(i + 1).drop_last() =~= s.take(i as int));
        if found.is_none() && sessions[i].1 == *command {
            found = Some(i);
        }
        i = i + 1;
    }
    assert(s.take(n as int) =~= s);
    match found {
        Some(k) => k,
        None => 0,
    }
}

/// Enter or Tab outside `Power` mode.
fn submit(greeter: &mut Greeter)
    requires
        old(greeter).wf(),
        !(old(greeter).mode is Power),
    ensures
        final(greeter)@ == submit_step(old(greeter)@),
        final(greeter).wf(),
{
    match greeter.mode {
        Mode::Username => {
            greeter.working = true;
            greeter.message = None;
            greeter.request = Some(Request::CreateSession { username: greeter.username.clone() });
            greeter.answer = String::new();
        },
        Mode::Password => {
            greeter.working = true;
            greeter.message = None;
            greeter.request = Some(
                Request::PostAuthMessageResponse { response: Some(greeter.answer.clone()) },
            );
            greeter.answer = String::new();
        },
        Mode::Command => {
            proof {
                lemma_first_with_command_in_range(greeter@.sessions, greeter@.new_command);
            }
            greeter.command = Some(greeter.new_command.clone());
            greeter.selected_session = session_index(&greeter.sessions, &greeter.new_command);
            greeter.mode = greeter.previous_mode;
        },
        Mode::Sessions => {
            greeter.command = Some(greeter.sessions[greeter.selected_session].1.clone());
            greeter.mode = greeter.previous_mode;
        },
        Mode::Power => {},
    }
}

/// Applies the outcome of a power action: a failure is reported in the
/// message, and the greeter returns to its base mode either way.
pub fn finish_power_action(greeter: &mut Greeter, result: Result<(), PowerError>)
    ensures
        final(greeter)@ == power_finished(
            old(greeter)@,
            match result {
                Ok(_) => None,
                Err(e) => Some(e.description@),
            },
        ),
{
    if let Err(e) = result {
        greeter.message = Some(power_failure_message(&e));
    }
    greeter.mode = greeter.previous_mode;
}

/// Handles one key press.
///
/// Enter or Tab in `Power` mode performs the call of the selected option
/// (see [`crate::power::call_for`]) through `power`; the greeter then
/// returns to its base mode, with a message where the call failed.
pub fn handle<P: PowerControl>(greeter: &mut Greeter, key: Key, power: &mut P) -> (r: Outcome)
    requires
        old(greeter).wf(),
    ensures
        final(greeter).wf(),
        r == outcome_of(old(greeter)@.mode, key),
        !is_power_submit(old(greeter)@, key) ==> final(greeter)@ == key_step(old(greeter)@, key),
        is_power_submit(old(greeter)@, key) ==> (final(greeter)@ == power_finished(
            old(greeter)@,
            None,
        ) || exists|d: Seq<char>| final(greeter)@ == power_finished(old(greeter)@, Some(d))),
{
    match key {
        Key::Esc => {
            if greeter.mode.overlay() {
                greeter.mode = greeter.previous_mode;
            } else {
                return Outcome::Cancel;
            }
        },
        Key::Left => {
            if greeter.cursor_offset > i64::MIN {
                greeter.cursor_offset = greeter.cursor_offset - 1;
            }
        },
        Key::Right => {
            if greeter.cursor_offset < i64::MAX {
                greeter.cursor_offset = greeter.cursor_offset + 1;
            }
        },
        Key::F(n) => {
            if n == 2 {
                enter_overlay(greeter, Mode::Command);
            } else if n == 3 {
                enter_overlay(greeter, Mode::Sessions);
            } else if n == 12 {
                enter_overlay(greeter, Mode::Power);
            }
        },
        Key::Up => match greeter.mode {
            Mode::Sessions => {
                if greeter.selected_session > 0 {
                    greeter.selected_session = greeter.selected_session - 1;
                }
            },
            Mode::Power => {
                if greeter.selected_power_option > 0 {
                    greeter.selected_power_option = greeter.selected_power_option - 1;
                }
            },
            _ => {},
        },
        Key::Down => match greeter.mode {
            Mode::Sessions => {
                if greeter.selected_session < greeter.sessions.len() - 1 {
                    greeter.selected_session = greeter.selected_session + 1;
                }
            },
            Mode::Power => {
                if greeter.selected_power_option < POWER_OPTION_COUNT - 1 {
                    greeter.selected_power_option = greeter.selected_power_option + 1;
                }
            },
            _ => {},
        },
        Key::Ctrl(c) => {
            if c == 'a' {
                move_to_start(greeter);
            } else if c == 'e' {
                greeter.cursor_offset = 0;
            } else if c == 'u' {
                clear_buffer(greeter);
            }
        },
        Key::Char(c) => {
            if c == '\n' || c == '\t' {
                if let Mode::Power = greeter.mode {
                    let call = power_call(power_option(greeter.selected_power_option));
                    let result = power.perform(call);
                    finish_power_action(greeter, result);
                } else {
                    submit(greeter);
                }
            } else {
                insert_key(greeter, c);
            }
        },
        Key::Backspace | Key::Delete => delete_key(greeter, key),
        Key::Other => {},
    }
    Outcome::Continue
}

} // verus!
