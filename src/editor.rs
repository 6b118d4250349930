//! Cursor-relative editing of a text buffer, counted in characters.
//!
//! The cursor is stored as an offset from the end of the buffer. Moving the
//! cursor never clamps it; an offset outside `[-len, 0]` is only resolved when
//! it is used for an edit.
use vstd::prelude::*;
use vstd::string::*;

verus! {

/// The position at which a character is inserted into a buffer of `len`
/// characters when the cursor sits `offset` characters from its end. An
/// offset that points outside the buffer places the character at the end.
pub open spec fn insert_position(len: int, offset: int) -> int {
    if -len <= offset && offset <= 0 {
        len + offset
    } else {
        len
    }
}

/// The buffer after inserting `c` at the cursor.
pub open spec fn inserted(s: Seq<char>, offset: int, c: char) -> Seq<char> {
    s.insert(insert_position(s.len() as int, offset), c)
}

/// The index a delete aims at: the character under the cursor for a forward
/// delete, the one before it for a backward delete.
pub open spec fn delete_target(len: int, offset: int, forward: bool) -> int {
    if forward {
        len + offset
    } else {
        len + offset - 1
    }
}

/// Whether a delete removes a character at all.
pub open spec fn deletes(len: int, offset: int, forward: bool) -> bool {
    0 <= delete_target(len, offset, forward) < len
}

/// The buffer after a delete; unchanged where there is nothing to remove.
pub open spec fn deleted(s: Seq<char>, offset: int, forward: bool) -> Seq<char> {
    if deletes(s.len() as int, offset, forward) {
        s.remove(delete_target(s.len() as int, offset, forward))
    } else {
        s
    }
}

/// The cursor offset after a delete: a forward delete that removed a
/// character moves the offset one step towards the end.
pub open spec fn offset_after_delete(len: int, offset: int, forward: bool) -> int {
    if forward && deletes(len, offset, forward) {
        offset + 1
    } else {
        offset
    }
}

/// Relies on `String::push`: appends one character.
#[verifier::external_body]
fn push_char(s: &mut String, c: char)
    ensures
        final(s)@ == old(s)@.push(c),
{
    s.push(c)
}

/// The number of characters in `s`.
pub fn char_count(s: &String) -> (n: usize)
    ensures
        n == s@.len(),
{
    s.as_str().unicode_len()
}

/// Converts a character count into an offset, saturating at the most
/// negative offset for counts beyond it.
pub fn negated_count(n: usize) -> (r: i64)
    ensures
        n <= i64::MAX ==> r == -(n as int),
        n > i64::MAX ==> r == -i64::MAX,
{
    if n as u128 <= i64::MAX as u128 {
        -(n as i64)
    } else {
        -i64::MAX
    }
}

/// Resolves the cursor offset into the insertion index.
fn insert_index(n: usize, offset: i64) -> (i: usize)
    ensures
        i == insert_position(n as int, offset as int),
{
    let at: i128 = n as i128 + offset as i128;
    if 0 <= at && at <= n as i128 {
        at as usize
    } else {
        n
    }
}

/// `value` with `c` inserted at the cursor.
pub fn insert_char(value: &String, offset: i64, c: char) -> (r: String)
    ensures
        r@ == inserted(value@, offset as int, c),
{
    let n = char_count(value);
    let i = insert_index(n, offset);
    let mut r = String::from_str(value.as_str().substring_char(0, i));
    push_char(&mut r, c);
    r.append(value.as_str().substring_char(i, n));
    assert(r@ =~= inserted(value@, offset as int, c));
    r
}

/// `value` without the character at `index`.
pub fn remove_char(value: &String, index: usize) -> (r: String)
    requires
        index < value@.len(),
    ensures
        r@ == value@.remove(index as int),
{
    let n = char_count(value);
    let mut r = String::from_str(value.as_str().substring_char(0, index));
    r.append(value.as_str().substring_char(index + 1, n));
    assert(r@ =~= value@.remove(index as int));
    r
}

/// Resolves the target of a delete, or `None` where nothing is removed.
pub fn delete_index(n: usize, offset: i64, forward: bool) -> (r: Option<usize>)
    ensures
        r is Some <==> deletes(n as int, offset as int, forward),
        r is Some ==> r->0 == delete_target(n as int, offset as int, forward),
{
    let back: i128 = if forward { 0 } else { 1 };
    let at: i128 = n as i128 + offset as i128 - back;
    if 0 <= at && at < n as i128 {
        Some(at as usize)
    } else {
        None
    }
}

} // verus!
