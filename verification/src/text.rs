//! Unicode-safe text editing and terminal-width display helpers.
//!
//! Cursors are byte offsets into UTF-8 text, as in Rust strings. Every
//! operation first moves an arbitrary cursor back to the nearest character
//! boundary at or before it (and no further than the end of the text), so a
//! stale cursor can never split a character.

use vstd::prelude::*;

use crate::keys::KeyCode;
use crate::chars::{
    byte_len, byte_length, byte_offset, char_utf8_len, chars_of, lemma_byte_offset_full, lemma_byte_offset_mono,
    lemma_byte_offset_step, lemma_byte_offset_strict_mono, lemma_encode_concat, lemma_encode_single,
    lemma_utf8_len_bounds, string_from_chars, text_chars, utf8_len,
};

verus! {

/// The number of whole characters that end at or before byte `cursor`:
/// the character index of the boundary that a cursor normalizes to.
pub open spec fn cursor_index(s: Seq<char>, cursor: nat) -> nat
    decreases s.len(),
{
    if s.len() == 0 {
        0
    } else {
        let k = cursor_index(s.drop_last(), cursor);
        if k == s.len() - 1 && byte_offset(s, s.len() as int) <= cursor {
            s.len()
        } else {
            k
        }
    }
}

/// Offsets of a prefix do not depend on what follows it.
pub proof fn lemma_byte_offset_prefix(s: Seq<char>, t: Seq<char>, k: int)
    requires
        0 <= k <= s.len(),
        s.len() <= t.len(),
        s == t.take(s.len() as int),
    ensures
        byte_offset(s, k) == byte_offset(t, k),
{
    assert(s.take(k) =~= t.take(k));
}

/// `cursor_index` picks the last character boundary at or before the cursor.
pub proof fn lemma_cursor_index(s: Seq<char>, cursor: nat)
    ensures
        ({
            let k = cursor_index(s, cursor);
            &&& k <= s.len()
            &&& byte_offset(s, k as int) <= cursor
            &&& (k == s.len() || byte_offset(s, k + 1 as int) > cursor)
        }),
    decreases s.len(),
{
    lemma_byte_offset_full(s);
    if s.len() > 0 {
        let p = s.drop_last();
        lemma_cursor_index(p, cursor);
        let k = cursor_index(p, cursor);
        assert(p =~= s.take(p.len() as int));
        lemma_byte_offset_prefix(p, s, k as int);
        if k < p.len() {
            lemma_byte_offset_prefix(p, s, k + 1 as int);
        }
    }
}

/// The boundary characterization determines the index uniquely.
pub proof fn lemma_cursor_index_unique(s: Seq<char>, cursor: nat, j: nat)
    requires
        j <= s.len(),
        byte_offset(s, j as int) <= cursor,
        j == s.len() || byte_offset(s, j + 1 as int) > cursor,
    ensures
        cursor_index(s, cursor) == j,
{
    lemma_cursor_index(s, cursor);
    let k = cursor_index(s, cursor);
    if k < j {
        lemma_byte_offset_mono(s, k + 1 as int, j as int);
    } else if j < k {
        lemma_byte_offset_mono(s, j + 1 as int, k as int);
    }
}

/// Byte offset that an arbitrary cursor normalizes to.
pub open spec fn normalized(s: Seq<char>, cursor: nat) -> nat {
    byte_offset(s, cursor_index(s, cursor) as int)
}

/// Text after inserting `v` at the cursor.
pub open spec fn inserted(s: Seq<char>, cursor: nat, v: char) -> Seq<char> {
    let k = cursor_index(s, cursor) as int;
    s.take(k) + seq![v] + s.skip(k)
}

/// Cursor after inserting `v`: just past the new character.
pub open spec fn inserted_cursor(s: Seq<char>, cursor: nat, v: char) -> nat {
    normalized(s, cursor) + utf8_len(v)
}

/// Text after deleting the character before the cursor (if any).
pub open spec fn backspaced(s: Seq<char>, cursor: nat) -> Seq<char> {
    let k = cursor_index(s, cursor) as int;
    if k == 0 { s } else { s.take(k - 1) + s.skip(k) }
}

/// Cursor after a backspace.
pub open spec fn backspaced_cursor(s: Seq<char>, cursor: nat) -> nat {
    let k = cursor_index(s, cursor) as int;
    if k == 0 { 0 } else { byte_offset(s, k - 1) }
}

/// Text after deleting the character at the cursor (if any).
pub open spec fn deleted(s: Seq<char>, cursor: nat) -> Seq<char> {
    let k = cursor_index(s, cursor) as int;
    if k == s.len() { s } else { s.take(k) + s.skip(k + 1) }
}

/// Cursor one character to the left (or unchanged at the start).
pub open spec fn left_of(s: Seq<char>, cursor: nat) -> nat {
    let k = cursor_index(s, cursor) as int;
    if k == 0 { 0 } else { byte_offset(s, k - 1) }
}

/// Cursor one character to the right (or at the end).
pub open spec fn right_of(s: Seq<char>, cursor: nat) -> nat {
    let k = cursor_index(s, cursor) as int;
    if k == s.len() { byte_offset(s, k) } else { byte_offset(s, k + 1) }
}

/// Text after an editing key: characters insert, Backspace and Delete
/// remove one character; other keys leave the text.
pub open spec fn edited(s: Seq<char>, c: nat, code: KeyCode) -> Seq<char> {
    match code {
        KeyCode::Char(ch) => inserted(s, c, ch),
        KeyCode::Backspace => backspaced(s, c),
        KeyCode::Delete => deleted(s, c),
        _ => s,
    }
}

/// Cursor after an editing or movement key.
pub open spec fn edited_cursor(s: Seq<char>, c: nat, code: KeyCode) -> nat {
    match code {
        KeyCode::Char(ch) => inserted_cursor(s, c, ch),
        KeyCode::Backspace => if cursor_index(s, c) > 0 {
            backspaced_cursor(s, c)
        } else {
            normalized(s, c)
        },
        KeyCode::Delete => normalized(s, c),
        KeyCode::Left => left_of(s, c),
        KeyCode::Right => right_of(s, c),
        KeyCode::Home => 0,
        KeyCode::End => byte_len(s),
        _ => c,
    }
}

/// Whether an editing key changed the text.
pub open spec fn edit_changes(s: Seq<char>, c: nat, code: KeyCode) -> bool {
    match code {
        KeyCode::Char(_) => true,
        KeyCode::Backspace => cursor_index(s, c) > 0,
        KeyCode::Delete => cursor_index(s, c) < s.len(),
        _ => false,
    }
}

/// Apply one editing or movement key to a text field.
pub fn edit(text: &mut String, cursor: &mut usize, code: KeyCode) -> (changed: bool)
    requires
        byte_len(old(text)@) + 4 <= usize::MAX,
    ensures
        final(text)@ == edited(old(text)@, *old(cursor) as nat, code),
        *final(cursor) == edited_cursor(old(text)@, *old(cursor) as nat, code),
        changed == edit_changes(old(text)@, *old(cursor) as nat, code),
{
    match code {
        KeyCode::Char(c) => {
            insert_char(text, cursor, c);
            true
        },
        KeyCode::Backspace => backspace(text, cursor),
        KeyCode::Delete => delete(text, cursor),
        KeyCode::Left => {
            move_left(text.as_str(), cursor);
            false
        },
        KeyCode::Right => {
            move_right(text.as_str(), cursor);
            false
        },
        KeyCode::Home => {
            *cursor = 0;
            false
        },
        KeyCode::End => {
            *cursor = byte_length(text.as_str());
            false
        },
        _ => false,
    }
}

/// Character index and byte offset of the normalized cursor.
pub(crate) fn locate(chars: &Vec<char>, cursor: usize) -> (r: (usize, usize))
    requires
        byte_len(chars@) <= usize::MAX,
    ensures
        r.0 == cursor_index(chars@, cursor as nat),
        r.0 <= chars.len(),
        r.1 == normalized(chars@, cursor as nat),
        r.1 <= cursor,
        r.1 <= byte_len(chars@),
{
    let ghost s = chars@;
    let mut k: usize = 0;
    let mut off: usize = 0;
    proof {
        lemma_byte_offset_full(s);
    }
    while k < chars.len()
        invariant
            s == chars@,
            k <= chars.len(),
            off == byte_offset(s, k as int),
            off <= cursor,
            byte_len(s) <= usize::MAX,
        ensures
            k <= chars.len(),
            off == byte_offset(s, k as int),
            off <= cursor,
            k == chars.len() || byte_offset(s, k + 1 as int) > cursor,
        decreases chars.len() - k,
    {
        let w = char_utf8_len(chars[k]);
        proof {
            lemma_byte_offset_step(s, k as int);
            lemma_byte_offset_mono(s, k + 1, s.len() as int);
            lemma_byte_offset_full(s);
        }
        if w > cursor - off {
            break;
        }
        off = off + w;
        k = k + 1;
    }
    proof {
        lemma_cursor_index_unique(s, cursor as nat, k as nat);
        lemma_byte_offset_mono(s, k as int, s.len() as int);
        lemma_byte_offset_full(s);
    }
    (k, off)
}

/// Move a cursor back to the last character boundary at or before it.
pub fn normalize_cursor(text: &str, cursor: &mut usize)
    ensures
        *final(cursor) == normalized(text@, *old(cursor) as nat),
        *final(cursor) <= *old(cursor),
        *final(cursor) <= text.len(),
{
    let chars = text_chars(text);
    proof {
        lemma_byte_offset_full(text@);
    }
    let (_, off) = locate(&chars, *cursor);
    *cursor = off;
}

/// Insert one character at the cursor and advance past it.
pub fn insert_char(text: &mut String, cursor: &mut usize, value: char)
    requires
        byte_len(old(text)@) + 4 <= usize::MAX,
    ensures
        final(text)@ == inserted(old(text)@, *old(cursor) as nat, value),
        *final(cursor) == inserted_cursor(old(text)@, *old(cursor) as nat, value),
{
    let chars = text_chars(text.as_str());
    proof {
        lemma_byte_offset_full(chars@);
    }
    let (k, off) = locate(&chars, *cursor);
    let mut out: Vec<char> = Vec::new();
    let mut i: usize = 0;
    while i < k
        invariant
            k <= chars.len(),
            i <= k,
            out@ == chars@.take(i as int),
        decreases k - i,
    {
        out.push(chars[i]);
        assert(chars@.take(i as int + 1) =~= chars@.take(i as int).push(chars@[i as int]));
        i = i + 1;
    }
    out.push(value);
    while i < chars.len()
        invariant
            k <= i <= chars.len(),
            out@ == chars@.take(k as int) + seq![value] + chars@.subrange(k as int, i as int),
        decreases chars.len() - i,
    {
        out.push(chars[i]);
        assert(chars@.subrange(k as int, i as int + 1) =~= chars@.subrange(k as int, i as int).push(
            chars@[i as int],
        ));
        i = i + 1;
    }
    assert(chars@.subrange(k as int, chars.len() as int) =~= chars@.skip(k as int));
    *text = string_from_chars(out.as_slice());
    *cursor = off + char_utf8_len(value);
}

/// Characters of `s` without the one at index `k`.
fn remove_at(chars: &Vec<char>, k: usize) -> (out: Vec<char>)
    requires
        k < chars.len(),
    ensures
        out@ == chars@.take(k as int) + chars@.skip(k + 1),
{
    let mut out: Vec<char> = Vec::new();
    let mut i: usize = 0;
    while i < chars.len()
        invariant
            k < chars.len(),
            i <= chars.len(),
            i <= k ==> out@ == chars@.take(i as int),
            i > k ==> out@ == chars@.take(k as int) + chars@.subrange(k + 1, i as int),
        decreases chars.len() - i,
    {
        if i != k {
            out.push(chars[i]);
        }
        if i < k {
            assert(chars@.take(i as int + 1) =~= chars@.take(i as int).push(chars@[i as int]));
        } else if i == k {
            assert(chars@.subrange(k + 1, i as int + 1) =~= Seq::<char>::empty());
            assert(chars@.take(k as int) + Seq::<char>::empty() =~= chars@.take(k as int));
        } else {
            assert(chars@.subrange(k + 1, i as int + 1) =~= chars@.subrange(k + 1, i as int).push(
                chars@[i as int],
            ));
            assert(chars@.take(k as int) + chars@.subrange(k + 1, i as int + 1) =~= (chars@.take(
                k as int,
            ) + chars@.subrange(k + 1, i as int)).push(chars@[i as int]));
        }
        i = i + 1;
    }
    assert(chars@.subrange(k + 1, chars.len() as int) =~= chars@.skip(k + 1));
    out
}

/// Delete the character before the cursor. Returns whether one was deleted;
/// the cursor is normalized either way.
pub fn backspace(text: &mut String, cursor: &mut usize) -> (deleted_one: bool)
    ensures
        deleted_one == (cursor_index(old(text)@, *old(cursor) as nat) > 0),
        final(text)@ == backspaced(old(text)@, *old(cursor) as nat),
        deleted_one ==> *final(cursor) == backspaced_cursor(old(text)@, *old(cursor) as nat),
        !deleted_one ==> *final(cursor) == normalized(old(text)@, *old(cursor) as nat),
{
    let chars = text_chars(text.as_str());
    proof {
        lemma_byte_offset_full(chars@);
    }
    let (k, off) = locate(&chars, *cursor);
    if k == 0 {
        *cursor = off;
        return false;
    }
    let w = char_utf8_len(chars[k - 1]);
    proof {
        lemma_byte_offset_step(chars@, k - 1);
    }
    let out = remove_at(&chars, k - 1);
    assert(chars@.skip(k as int) =~= chars@.skip(k - 1 + 1));
    *text = string_from_chars(out.as_slice());
    *cursor = off - w;
    true
}

/// Delete the character at the cursor. Returns whether one was deleted.
pub fn delete(text: &mut String, cursor: &mut usize) -> (deleted_one: bool)
    ensures
        deleted_one == (cursor_index(old(text)@, *old(cursor) as nat) < old(text)@.len()),
        final(text)@ == deleted(old(text)@, *old(cursor) as nat),
        *final(cursor) == normalized(old(text)@, *old(cursor) as nat),
{
    let chars = text_chars(text.as_str());
    proof {
        lemma_byte_offset_full(chars@);
    }
    let (k, off) = locate(&chars, *cursor);
    *cursor = off;
    if k == chars.len() {
        return false;
    }
    let out = remove_at(&chars, k);
    *text = string_from_chars(out.as_slice());
    true
}

/// Move the cursor one character to the left.
pub fn move_left(text: &str, cursor: &mut usize)
    ensures
        *final(cursor) == left_of(text@, *old(cursor) as nat),
{
    let chars = text_chars(text);
    proof {
        lemma_byte_offset_full(chars@);
    }
    let (k, off) = locate(&chars, *cursor);
    if k == 0 {
        *cursor = off;
    } else {
        let w = char_utf8_len(chars[k - 1]);
        proof {
            lemma_byte_offset_step(chars@, k - 1);
        }
        *cursor = off - w;
    }
}

/// Move the cursor one character to the right.
pub fn move_right(text: &str, cursor: &mut usize)
    ensures
        *final(cursor) == right_of(text@, *old(cursor) as nat),
{
    let chars = text_chars(text);
    proof {
        lemma_byte_offset_full(chars@);
    }
    let (k, off) = locate(&chars, *cursor);
    if k == chars.len() {
        *cursor = off;
    } else {
        let w = char_utf8_len(chars[k]);
        proof {
            lemma_byte_offset_step(chars@, k as int);
            lemma_byte_offset_mono(chars@, k + 1, chars@.len() as int);
        }
        *cursor = off + w;
    }
}

/// Inserting a character and then deleting backwards restores the text, and
/// leaves the cursor on the boundary where the insertion happened.
pub proof fn lemma_insert_then_backspace(s: Seq<char>, cursor: nat, v: char)
    ensures
        backspaced(inserted(s, cursor, v), inserted_cursor(s, cursor, v)) == s,
        backspaced_cursor(inserted(s, cursor, v), inserted_cursor(s, cursor, v)) == normalized(
            s,
            cursor,
        ),
{
    lemma_cursor_index(s, cursor);
    let k = cursor_index(s, cursor) as int;
    let t = inserted(s, cursor, v);
    let c2 = inserted_cursor(s, cursor, v);
    assert(t.take(k) =~= s.take(k));
    assert(t.take(k + 1) =~= s.take(k) + seq![v]);
    lemma_encode_concat(s.take(k), seq![v]);
    lemma_encode_single(v);
    assert(byte_offset(t, k + 1) == c2);
    if k + 1 < t.len() {
        assert(t.take(k + 2) =~= s.take(k) + seq![v] + seq![s[k]]);
        lemma_byte_offset_step(t, k + 1);
        assert(t[k + 1] == s[k]);
        lemma_utf8_len_bounds(s[k]);
    }
    lemma_cursor_index_unique(t, c2, (k + 1) as nat);
    assert(t.take(k) + t.skip(k + 1) =~= s);
    assert(byte_offset(t, k) == byte_offset(s, k));
}

/// Moving right and then left returns to the same boundary whenever the
/// cursor was not already at the end of the text.
pub proof fn lemma_right_then_left(s: Seq<char>, cursor: nat)
    requires
        cursor_index(s, cursor) < s.len(),
    ensures
        left_of(s, right_of(s, cursor)) == normalized(s, cursor),
{
    lemma_cursor_index(s, cursor);
    let k = cursor_index(s, cursor) as int;
    let c2 = right_of(s, cursor);
    if k + 1 < s.len() {
        lemma_byte_offset_strict_mono(s, k + 1, k + 2);
    }
    lemma_cursor_index_unique(s, c2, (k + 1) as nat);
}

} // verus!

verus! {

/// Display width that `unicode-width` assigns to one character; `None` for
/// control characters.
pub uninterp spec fn unicode_char_width(c: char) -> Option<usize>;

/// Display width that `unicode-width` assigns to a whole string.
pub uninterp spec fn unicode_str_width(s: Seq<char>) -> usize;

/// `UnicodeWidthChar::width`: the character's width in terminal cells, or
/// `None` for a control character. Printable ASCII is one cell; C0 and C1
/// control characters have no width.
#[verifier::external_body]
pub(crate) fn char_width(c: char) -> (w: Option<usize>)
    ensures
        w == unicode_char_width(c),
        0x20 <= (c as u32) < 0x7F ==> w == Some(1usize),
        (c as u32) < 0x20 || (0x7F <= (c as u32) && (c as u32) < 0xA0) ==> w == None::<usize>,
{
    unicode_width::UnicodeWidthChar::width(c)
}

/// `UnicodeWidthStr::width`: the string's width in terminal cells. The empty
/// string is zero cells wide, and a string of printable ASCII is one cell
/// per character.
#[verifier::external_body]
pub(crate) fn str_width(s: &str) -> (w: usize)
    ensures
        w == unicode_str_width(s@),
        s@.len() == 0 ==> w == 0,
        (forall|i: int| 0 <= i < s@.len() ==> 0x20 <= #[trigger] (s@[i] as u32) < 0x7F) ==> w
            == s@.len(),
{
    unicode_width::UnicodeWidthStr::width(s)
}

/// Cells taken by one character, control characters counting as zero.
pub open spec fn cell_width(c: char) -> nat {
    match unicode_char_width(c) {
        Some(w) => w as nat,
        None => 0,
    }
}

/// Sum of the cell widths of the characters of `s`.
pub open spec fn cells(s: Seq<char>) -> nat
    decreases s.len(),
{
    if s.len() == 0 {
        0
    } else {
        cell_width(s[0]) + cells(s.drop_first())
    }
}

/// The longest prefix of `s` whose characters fit in `max` cells, taking
/// characters greedily; zero-width characters never stop the prefix.
pub open spec fn prefix_chars(s: Seq<char>, max: int) -> Seq<char>
    decreases s.len(),
{
    if s.len() == 0 {
        s
    } else if cell_width(s[0]) > 0 && cell_width(s[0]) > max {
        Seq::<char>::empty()
    } else {
        seq![s[0]] + prefix_chars(s.drop_first(), max - cell_width(s[0]))
    }
}

/// Cells of one character, computed.
pub fn cell_width_of(c: char) -> (w: usize)
    ensures
        w == cell_width(c),
{
    match char_width(c) {
        Some(w) => w,
        None => 0,
    }
}

/// Terminal-cell width of the text before the cursor.
pub fn width_before_cursor(text: &str, cursor: usize) -> (w: usize)
    ensures
        w == unicode_str_width(text@.take(cursor_index(text@, cursor as nat) as int)),
{
    let chars = text_chars(text);
    let (k, _) = locate(&chars, cursor);
    let mut before: Vec<char> = Vec::new();
    let mut i: usize = 0;
    while i < k
        invariant
            k <= chars.len(),
            i <= k,
            before@ == chars@.take(i as int),
        decreases k - i,
    {
        before.push(chars[i]);
        assert(chars@.take(i as int + 1) =~= chars@.take(i as int).push(chars@[i as int]));
        i = i + 1;
    }
    let s = string_from_chars(before.as_slice());
    str_width(s.as_str())
}

/// Terminal-cell width of complete text.
pub fn display_width(value: &str) -> (w: usize)
    ensures
        w == unicode_str_width(value@),
{
    str_width(value)
}

/// Return the longest character-boundary-safe prefix within `max_width` cells.
pub fn prefix(text: &str, max_width: usize) -> (r: String)
    ensures
        r@ == prefix_chars(text@, max_width as int),
{
    let chars = text_chars(text);
    let mut out: Vec<char> = Vec::new();
    let mut width: usize = 0;
    let mut i: usize = 0;
    assert(chars@.skip(0) =~= chars@);
    assert(out@ + prefix_chars(chars@, max_width as int) =~= prefix_chars(chars@, max_width as int));
    while i < chars.len()
        invariant
            chars@ == text@,
            i <= chars.len(),
            width <= max_width,
            prefix_chars(chars@, max_width as int) == out@ + prefix_chars(
                chars@.skip(i as int),
                max_width - width,
            ),
        decreases chars.len() - i,
    {
        let c = chars[i];
        let w = cell_width_of(c);
        let ghost rest = chars@.skip(i as int);
        assert(rest[0] == c);
        assert(rest.drop_first() =~= chars@.skip(i + 1));
        if w > 0 && w > max_width - width {
            assert(rest.len() > 0);
            assert(prefix_chars(rest, max_width - width) =~= Seq::<char>::empty());
            assert(out@ + Seq::<char>::empty() =~= out@);
            return string_from_chars(out.as_slice());
        }
        out.push(c);
        proof {
            assert(out@ =~= out@.drop_last() + seq![c]);
        }
        assert((out@.drop_last() + seq![c]) + prefix_chars(chars@.skip(i + 1), max_width - width - w)
            =~= out@.drop_last() + (seq![c] + prefix_chars(chars@.skip(i + 1), max_width - width - w)));
        width = width + w;
        i = i + 1;
    }
    assert(chars@.skip(i as int) =~= Seq::<char>::empty());
    assert(out@ + Seq::<char>::empty() =~= out@);
    string_from_chars(out.as_slice())
}

/// What `truncate` shows: the text itself when it fits, otherwise the
/// widest prefix followed by `...` (or only a prefix when at most three cells
/// are available).
pub open spec fn truncated(s: Seq<char>, max: nat) -> Seq<char> {
    if unicode_str_width(s) <= max {
        s
    } else if max <= 3 {
        prefix_chars(s, max as int)
    } else {
        prefix_chars(s, max - 3) + seq!['.', '.', '.']
    }
}

/// Truncate text to terminal cells, adding `...` when it does not fit.
pub fn truncate(text: &str, max_width: usize) -> (r: String)
    ensures
        r@ == truncated(text@, max_width as nat),
{
    if str_width(text) <= max_width {
        let chars = text_chars(text);
        return string_from_chars(chars.as_slice());
    }
    if max_width <= 3 {
        return prefix(text, max_width);
    }
    let mut result = prefix(text, max_width - 3);
    crate::chars::push_char(&mut result, '.');
    crate::chars::push_char(&mut result, '.');
    crate::chars::push_char(&mut result, '.');
    assert(result@ =~= prefix_chars(text@, max_width - 3) + seq!['.', '.', '.']);
    result
}

/// The prefix is a prefix of the text, and its characters fit in the
/// requested number of cells.
pub proof fn lemma_prefix_fits(s: Seq<char>, max: int)
    requires
        max >= 0,
    ensures
        prefix_chars(s, max).len() <= s.len(),
        prefix_chars(s, max) == s.take(prefix_chars(s, max).len() as int),
        cells(prefix_chars(s, max)) <= max,
        prefix_chars(s, max).len() < s.len() ==> cell_width(s[prefix_chars(s, max).len() as int])
            > max - cells(prefix_chars(s, max)),
    decreases s.len(),
{
    if s.len() == 0 {
    } else if cell_width(s[0]) > 0 && cell_width(s[0]) > max {
        assert(s.take(0) =~= Seq::<char>::empty());
    } else {
        let t = s.drop_first();
        let m = max - cell_width(s[0]);
        lemma_prefix_fits(t, m);
        let p = prefix_chars(t, m);
        assert(prefix_chars(s, max) == seq![s[0]] + p);
        assert(s.take(p.len() + 1 as int) =~= seq![s[0]] + t.take(p.len() as int));
        assert((seq![s[0]] + p).drop_first() =~= p);
        if p.len() < t.len() {
            assert(s[p.len() + 1 as int] == t[p.len() as int]);
        }
    }
}

} // verus!

verus! {

/// The Unicode `White_Space` property, which `char::is_whitespace` tests.
pub open spec fn is_white_space(c: char) -> bool {
    let v = c as u32;
    ||| (0x09 <= v && v <= 0x0D)
    ||| v == 0x20
    ||| v == 0x85
    ||| v == 0xA0
    ||| v == 0x1680
    ||| (0x2000 <= v && v <= 0x200A)
    ||| v == 0x2028
    ||| v == 0x2029
    ||| v == 0x202F
    ||| v == 0x205F
    ||| v == 0x3000
}

/// Whether `c` is white space in the Unicode sense.
pub fn is_whitespace(c: char) -> (r: bool)
    ensures
        r == is_white_space(c),
{
    let v = c as u32;
    (0x09 <= v && v <= 0x0D) || v == 0x20 || v == 0x85 || v == 0xA0 || v == 0x1680 || (0x2000 <= v
        && v <= 0x200A) || v == 0x2028 || v == 0x2029 || v == 0x202F || v == 0x205F || v == 0x3000
}

/// `s` without leading white space.
pub open spec fn trim_start_seq(s: Seq<char>) -> Seq<char>
    decreases s.len(),
{
    if s.len() > 0 && is_white_space(s[0]) {
        trim_start_seq(s.drop_first())
    } else {
        s
    }
}

/// `s` without trailing white space.
pub open spec fn trim_end_seq(s: Seq<char>) -> Seq<char>
    decreases s.len(),
{
    if s.len() > 0 && is_white_space(s.last()) {
        trim_end_seq(s.drop_last())
    } else {
        s
    }
}

/// `s` without leading and trailing white space.
pub fn trim_text(s: &str) -> (r: String)
    ensures
        r@ == trim_end_seq(trim_start_seq(s@)),
{
    let v = chars_of(s);
    let t = trim_start_from(&v, 0);
    assert(v@.skip(0) =~= v@);
    let u = trim_end_to(&t, t.len());
    assert(t@.take(t.len() as int) =~= t@);
    string_from_chars(u.as_slice())
}

/// Characters `a..b` of `v`.
pub(crate) fn slice_chars(v: &Vec<char>, a: usize, b: usize) -> (out: Vec<char>)
    requires
        a <= b <= v.len(),
    ensures
        out@ == v@.subrange(a as int, b as int),
{
    let mut out: Vec<char> = Vec::new();
    let mut i = a;
    while i < b
        invariant
            a <= i <= b <= v.len(),
            out@ == v@.subrange(a as int, i as int),
        decreases b - i,
    {
        out.push(v[i]);
        assert(v@.subrange(a as int, i + 1) =~= v@.subrange(a as int, i as int).push(v@[i as int]));
        i = i + 1;
    }
    out
}

/// `v[from..]` with leading white space removed.
fn trim_start_from(v: &Vec<char>, from: usize) -> (out: Vec<char>)
    requires
        from <= v.len(),
    ensures
        out@ == trim_start_seq(v@.skip(from as int)),
{
    let mut i = from;
    while i < v.len() && is_whitespace(v[i])
        invariant
            from <= i <= v.len(),
            trim_start_seq(v@.skip(from as int)) == trim_start_seq(v@.skip(i as int)),
        decreases v.len() - i,
    {
        assert(v@.skip(i as int).drop_first() =~= v@.skip(i + 1));
        i = i + 1;
    }
    assert(v@.skip(i as int) =~= v@.subrange(i as int, v.len() as int));
    slice_chars(v, i, v.len())
}

/// `v[..to]` with trailing white space removed.
fn trim_end_to(v: &Vec<char>, to: usize) -> (out: Vec<char>)
    requires
        to <= v.len(),
    ensures
        out@ == trim_end_seq(v@.take(to as int)),
{
    let mut j = to;
    while j > 0 && is_whitespace(v[j - 1])
        invariant
            j <= to <= v.len(),
            trim_end_seq(v@.take(to as int)) == trim_end_seq(v@.take(j as int)),
        decreases j,
    {
        assert(v@.take(j as int).drop_last() =~= v@.take(j - 1));
        j = j - 1;
    }
    assert(v@.take(j as int) =~= v@.subrange(0, j as int));
    slice_chars(v, 0, j)
}

/// State of the greedy wrapper after some characters of a paragraph.
pub struct WrapState {
    /// Finished lines.
    pub lines: Seq<Seq<char>>,
    /// The line being filled.
    pub line: Seq<char>,
    /// Display width counted for the current line.
    pub width: int,
    /// Index in `line` of its last white space, where a break may fall.
    pub brk: Option<int>,
}

pub open spec fn wrap_init() -> WrapState {
    WrapState { lines: Seq::empty(), line: Seq::empty(), width: 0, brk: None }
}

/// The break before a character `vw` cells wide, when it would overflow
/// the line (see `wrap_char`).
pub open spec fn wrap_step_break(st: WrapState, vw: int, mw: int) -> WrapState {
    if vw > 0 && st.line.len() > 0 && st.width + vw > mw {
        match st.brk {
            Some(b) => {
                let head = trim_end_seq(st.line.take(b));
                let rest = trim_start_seq(st.line.skip(b));
                let lines = if head.len() > 0 { st.lines.push(head) } else { st.lines };
                if rest.len() > 0 && cells(rest) + vw > mw {
                    WrapState { lines: lines.push(rest), line: Seq::empty(), width: 0, brk: None }
                } else {
                    WrapState { lines, line: rest, width: cells(rest) as int, brk: None }
                }
            },
            None => WrapState { lines: st.lines.push(st.line), line: Seq::empty(), width: 0, brk: None },
        }
    } else {
        st
    }
}

/// One step of the greedy wrapper. Widths are counted per character. A
/// character that would overflow the line first breaks it: at the last
/// white space when there is one (trimming the white space around the
/// break, and keeping no empty head), or else right before the character.
/// When the words carried over from a break still leave no room for the
/// character, they close a line of their own. A character wider than the
/// whole line stands alone on a line.
pub open spec fn wrap_char(st: WrapState, v: char, mw: int) -> WrapState {
    let vw = cell_width(v) as int;
    let st1 = wrap_step_break(st, vw, mw);
    let brk2 = if is_white_space(v) { Some(st1.line.len() as int) } else { st1.brk };
    let line2 = st1.line.push(v);
    let w2 = st1.width + vw;
    if w2 > mw {
        WrapState { lines: st1.lines.push(line2), line: Seq::empty(), width: 0, brk: None }
    } else {
        WrapState { lines: st1.lines, line: line2, width: w2, brk: brk2 }
    }
}

/// The wrapper's state after all characters of `p`.
pub open spec fn wrap_run(p: Seq<char>, mw: int) -> WrapState
    decreases p.len(),
{
    if p.len() == 0 {
        wrap_init()
    } else {
        wrap_char(wrap_run(p.drop_last(), mw), p.last(), mw)
    }
}

/// Lines of one paragraph (text without line feeds); an empty paragraph is
/// one empty line.
pub open spec fn wrap_para(p: Seq<char>, mw: int) -> Seq<Seq<char>> {
    if p.len() == 0 {
        seq![Seq::<char>::empty()]
    } else {
        let st = wrap_run(p, mw);
        if st.line.len() > 0 {
            st.lines.push(trim_end_seq(st.line))
        } else {
            st.lines
        }
    }
}

/// The pieces of `s` between line feeds (one more than the line feeds).
pub open spec fn split_paras(s: Seq<char>) -> Seq<Seq<char>>
    decreases s.len(),
{
    if s.len() == 0 {
        seq![Seq::<char>::empty()]
    } else {
        let ps = split_paras(s.drop_last());
        if s.last() == '\n' {
            ps.push(Seq::<char>::empty())
        } else {
            ps.update(ps.len() - 1, ps.last().push(s.last()))
        }
    }
}

/// Wrapped lines of several paragraphs, in order.
pub open spec fn wrap_paras(ps: Seq<Seq<char>>, mw: int) -> Seq<Seq<char>>
    decreases ps.len(),
{
    if ps.len() == 0 {
        Seq::empty()
    } else {
        wrap_paras(ps.drop_last(), mw) + wrap_para(ps.last(), mw)
    }
}

/// The lines of the greedy wrapper, before over-wide lines are refitted:
/// one empty line for empty text, otherwise each line-feed-separated
/// paragraph wrapped to `max(max_width, 1)` cells.
pub open spec fn wrapped_cells(s: Seq<char>, max_width: nat) -> Seq<Seq<char>> {
    if s.len() == 0 {
        seq![Seq::<char>::empty()]
    } else {
        wrap_paras(split_paras(s), if max_width == 0 { 1 } else { max_width as int })
    }
}

/// How far a line's first piece reaches: from `k` characters, one more
/// character at a time while the longer start still fits `mw` cells of
/// display width.
pub open spec fn fit_len(l: Seq<char>, mw: int, k: int) -> int
    decreases l.len() - k,
{
    if 0 <= k < l.len() && unicode_str_width(l.take(k + 1)) <= mw {
        fit_len(l, mw, k + 1)
    } else {
        k
    }
}

/// A line split so that each piece fits `mw` cells of display width, or is
/// a single character: a line that fits stays whole.
pub open spec fn refit(l: Seq<char>, mw: int) -> Seq<Seq<char>>
    decreases l.len(),
{
    if l.len() <= 1 || unicode_str_width(l) <= mw {
        seq![l]
    } else {
        let k = fit_len(l, mw, 1);
        if 1 <= k < l.len() {
            seq![l.take(k)] + refit(l.skip(k), mw)
        } else {
            seq![l]
        }
    }
}

/// Every line refitted, in order.
pub open spec fn refit_all(ls: Seq<Seq<char>>, mw: int) -> Seq<Seq<char>>
    decreases ls.len(),
{
    if ls.len() == 0 {
        Seq::empty()
    } else {
        refit_all(ls.drop_last(), mw) + refit(ls.last(), mw)
    }
}

/// The lines `wrap` produces: the greedy wrapper's lines, with any line
/// whose display width still exceeds the limit refitted.
pub open spec fn wrapped(s: Seq<char>, max_width: nat) -> Seq<Seq<char>> {
    refit_all(wrapped_cells(s, max_width), if max_width == 0 { 1 } else { max_width as int })
}

/// Character views of a list of lines.
pub open spec fn line_views(ls: Seq<Vec<char>>) -> Seq<Seq<char>> {
    Seq::new(ls.len(), |i: int| ls[i]@)
}

pub proof fn lemma_split_paras_nonempty(s: Seq<char>)
    ensures
        split_paras(s).len() >= 1,
    decreases s.len(),
{
    if s.len() > 0 {
        lemma_split_paras_nonempty(s.drop_last());
    }
}

fn push_line(lines: &mut Vec<Vec<char>>, line: Vec<char>)
    ensures
        line_views(final(lines)@) == line_views(old(lines)@).push(line@),
{
    let ghost l = line@;
    lines.push(line);
    assert(line_views(lines@) =~= line_views(old(lines)@).push(l));
}

/// Cells of a run of characters, computed.
fn cells_of(v: &Vec<char>) -> (w: usize)
    requires
        cells(v@) <= usize::MAX,
    ensures
        w == cells(v@),
{
    let mut acc: usize = 0;
    let mut k: usize = 0;
    assert(v@.take(0) =~= Seq::<char>::empty());
    while k < v.len()
        invariant
            k <= v.len(),
            acc == cells(v@.take(k as int)),
            cells(v@) <= usize::MAX,
        decreases v.len() - k,
    {
        proof {
            lemma_cells_concat(v@.take(k as int), seq![v@[k as int]]);
            lemma_cells_one(v@[k as int]);
            assert(v@.take(k + 1) =~= v@.take(k as int) + seq![v@[k as int]]);
            lemma_cells_split(v@, k + 1);
        }
        acc = acc + cell_width_of(v[k]);
        k = k + 1;
    }
    assert(v@.take(v.len() as int) =~= v@);
    acc
}

/// Display width of the first `k` characters of a line.
fn prefix_width(l: &Vec<char>, k: usize) -> (w: usize)
    requires
        k <= l.len(),
    ensures
        w == unicode_str_width(l@.take(k as int)),
{
    let head = slice_chars(l, 0, k);
    assert(l@.subrange(0, k as int) =~= l@.take(k as int));
    let t = string_from_chars(head.as_slice());
    str_width(t.as_str())
}

/// A copy of a run of characters.
fn copy_chars(v: &Vec<char>) -> (out: Vec<char>)
    ensures
        out@ == v@,
{
    let out = slice_chars(v, 0, v.len());
    assert(v@.subrange(0, v.len() as int) =~= v@);
    out
}

fn fit_len_of(l: &Vec<char>, mw: usize, k: usize) -> (r: usize)
    requires
        1 <= k <= l.len(),
    ensures
        r == fit_len(l@, mw as int, k as int),
    decreases l.len() - k,
{
    if k < l.len() && prefix_width(l, k + 1) <= mw {
        fit_len_of(l, mw, k + 1)
    } else {
        k
    }
}

/// Append the pieces of a refitted line.
fn refit_line(line: Vec<char>, mw: usize, out: &mut Vec<Vec<char>>)
    ensures
        line_views(final(out)@) == line_views(old(out)@) + refit(line@, mw as int),
    decreases line.len(),
{
    if line.len() <= 1 {
        push_line(out, line);
        assert(line_views(out@) =~= line_views(old(out)@) + seq![line@]);
        return;
    }
    let whole = prefix_width(&line, line.len());
    assert(line@.take(line.len() as int) =~= line@);
    if whole <= mw {
        let ghost lv = line@;
        push_line(out, line);
        assert(line_views(out@) =~= line_views(old(out)@) + seq![lv]);
        return;
    }
    let k = fit_len_of(&line, mw, 1);
    if 1 <= k && k < line.len() {
        let head = slice_chars(&line, 0, k);
        let tail = slice_chars(&line, k, line.len());
        assert(line@.subrange(0, k as int) =~= line@.take(k as int));
        assert(line@.subrange(k as int, line.len() as int) =~= line@.skip(k as int));
        let ghost mid_before = line_views(out@);
        push_line(out, head);
        refit_line(tail, mw, out);
        assert(line_views(out@) =~= line_views(old(out)@) + (seq![line@.take(k as int)] + refit(
            line@.skip(k as int),
            mw as int,
        )));
    } else {
        let ghost lv = line@;
        push_line(out, line);
        assert(line_views(out@) =~= line_views(old(out)@) + seq![lv]);
    }
}

/// Wrap one paragraph, appending its lines.
fn wrap_paragraph(p: &Vec<char>, mw: usize, lines: &mut Vec<Vec<char>>)
    requires
        mw >= 1,
    ensures
        line_views(final(lines)@) == line_views(old(lines)@) + wrap_para(p@, mw as int),
{
    let ghost base = line_views(lines@);
    if p.len() == 0 {
        push_line(lines, Vec::new());
        return;
    }
    let mut line: Vec<char> = Vec::new();
    let mut width: u128 = 0;
    let mut brk: Option<usize> = None;
    let mut i: usize = 0;
    assert(p@.take(0) =~= Seq::<char>::empty());
    assert(wrap_run(p@.take(0), mw as int).lines + Seq::<Seq<char>>::empty() =~= Seq::<
        Seq<char>,
    >::empty());
    assert(base + wrap_init().lines =~= base);
    while i < p.len()
        invariant
            mw >= 1,
            i <= p.len(),
            width <= usize::MAX as u128,
            brk matches Some(b) ==> b < line.len(),
            ({
                let st = wrap_run(p@.take(i as int), mw as int);
                &&& line_views(lines@) == base + st.lines
                &&& line@ == st.line
                &&& width as int == st.width
                &&& brk matches Some(b) ==> st.brk == Some(b as int)
                &&& brk is None ==> st.brk is None
            }),
        decreases p.len() - i,
    {
        let v = p[i];
        let ghost st = wrap_run(p@.take(i as int), mw as int);
        assert(p@.take(i + 1).drop_last() =~= p@.take(i as int));
        assert(p@.take(i + 1).last() == v);
        let vw = cell_width_of(v);
        if vw > 0 && line.len() > 0 && width + (vw as u128) > (mw as u128) {
            match brk {
                Some(b) => {
                    proof {
                        lemma_wrap_run_fits(p@.take(i as int), mw as int);
                        lemma_break_cells(line@, b as int);
                    }
                    let rest = trim_start_from(&line, b);
                    let head = trim_end_to(&line, b);
                    if head.len() > 0 {
                        push_line(lines, head);
                    }
                    let rw = cells_of(&rest);
                    if rest.len() > 0 && (rw as u128) + (vw as u128) > (mw as u128) {
                        push_line(lines, rest);
                        line = Vec::new();
                        width = 0;
                    } else {
                        width = rw as u128;
                        line = rest;
                    }
                },
                None => {
                    let done = line;
                    push_line(lines, done);
                    line = Vec::new();
                    width = 0;
                },
            }
            brk = None;
        }
        if is_whitespace(v) {
            brk = Some(line.len());
        }
        line.push(v);
        width = width + vw as u128;
        if width > mw as u128 {
            let done = line;
            push_line(lines, done);
            line = Vec::new();
            width = 0;
            brk = None;
        }
        assert(line_views(lines@) == base + wrap_run(p@.take(i + 1), mw as int).lines);
        i = i + 1;
    }
    assert(p@.take(p.len() as int) =~= p@);
    if line.len() > 0 {
        let last = trim_end_to(&line, line.len());
        assert(line@.take(line.len() as int) =~= line@);
        push_line(lines, last);
    }
}

/// Wrap text into display-width-safe lines no wider than `max_width` cells
/// (counted character by character); only a lone character wider than that
/// may stand on a line of its own.
///
/// Breaks preferentially fall on whitespace, so prose reads as words rather
/// than fragments split mid-word. A run with no whitespace at all (a path,
/// hash, or any single word wider than `max_width`) falls back to a
/// character-level break so content is never lost or corrupted.
pub fn wrap(text: &str, max_width: usize) -> (r: Vec<String>)
    ensures
        r.len() == wrapped(text@, max_width as nat).len(),
        forall|i: int| 0 <= i < r.len() ==> #[trigger] r[i]@ == wrapped(text@, max_width as nat)[i],
        forall|i: int|
            0 <= i < r.len() ==> fits(#[trigger] r[i]@, if max_width == 0 { 1 } else { max_width as int }),
        forall|i: int|
            0 <= i < r.len() ==> unicode_str_width(#[trigger] r[i]@) <= (if max_width == 0 {
                1
            } else {
                max_width as int
            }) || r[i]@.len() <= 1,
        visible_chars(joined(r@.map_values(|l: String| l@))) == visible_chars(text@),
{
    proof {
        lemma_wrap_fits(text@, max_width as nat);
        lemma_wrap_keeps_content(text@, max_width as nat);
    }
    let chars = text_chars(text);
    let mut lines: Vec<Vec<char>> = Vec::new();
    if chars.len() == 0 {
        push_line(&mut lines, Vec::new());
    } else {
        let mw = if max_width == 0 { 1 } else { max_width };
        let mut para: Vec<char> = Vec::new();
        let mut i: usize = 0;
        assert(chars@.take(0) =~= Seq::<char>::empty());
        assert(line_views(lines@) =~= wrap_paras(split_paras(chars@.take(0)).drop_last(), mw as int));
        while i < chars.len()
            invariant
                mw >= 1,
                i <= chars.len(),
                ({
                    let ps = split_paras(chars@.take(i as int));
                    &&& line_views(lines@) == wrap_paras(ps.drop_last(), mw as int)
                    &&& para@ == ps.last()
                }),
            decreases chars.len() - i,
        {
            let c = chars[i];
            let ghost ps = split_paras(chars@.take(i as int));
            proof {
                lemma_split_paras_nonempty(chars@.take(i as int));
            }
            assert(chars@.take(i + 1).drop_last() =~= chars@.take(i as int));
            assert(chars@.take(i + 1).last() == c);
            if c == '\n' {
                wrap_paragraph(&para, mw, &mut lines);
                para = Vec::new();
                let ghost ps2 = ps.push(Seq::<char>::empty());
                assert(ps2.drop_last() =~= ps);
                assert(ps =~= ps.drop_last().push(ps.last()));
            } else {
                para.push(c);
                let ghost ps2 = ps.update(ps.len() - 1, ps.last().push(c));
                assert(ps2.drop_last() =~= ps.drop_last());
            }
            i = i + 1;
        }
        proof {
            lemma_split_paras_nonempty(chars@);
        }
        assert(chars@.take(chars.len() as int) =~= chars@);
        let ghost ps = split_paras(chars@);
        assert(ps =~= ps.drop_last().push(ps.last()));
        wrap_paragraph(&para, mw, &mut lines);
    }
    let fw: usize = if max_width == 0 { 1 } else { max_width };
    let mut fitted: Vec<Vec<char>> = Vec::new();
    let mut j: usize = 0;
    assert(line_views(lines@).take(0) =~= Seq::<Seq<char>>::empty());
    assert(line_views(fitted@) =~= refit_all(Seq::<Seq<char>>::empty(), fw as int));
    while j < lines.len()
        invariant
            j <= lines.len(),
            fw as int == if max_width == 0 { 1 } else { max_width as int },
            line_views(lines@) == wrapped_cells(text@, max_width as nat),
            line_views(fitted@) == refit_all(line_views(lines@).take(j as int), fw as int),
        decreases lines.len() - j,
    {
        let ghost ls = line_views(lines@);
        assert(ls.take(j + 1).drop_last() =~= ls.take(j as int));
        assert(ls.take(j + 1).last() == lines@[j as int]@);
        refit_line(copy_chars(&lines[j]), fw, &mut fitted);
        j = j + 1;
    }
    assert(line_views(lines@).take(lines.len() as int) =~= line_views(lines@));
    let lines = fitted;
    let mut out: Vec<String> = Vec::new();
    let mut j: usize = 0;
    while j < lines.len()
        invariant
            j <= lines.len(),
            out.len() == j,
            line_views(lines@) == wrapped(text@, max_width as nat),
            forall|k: int| 0 <= k < j ==> #[trigger] out[k]@ == lines@[k]@,
        decreases lines.len() - j,
    {
        out.push(string_from_chars(lines[j].as_slice()));
        j = j + 1;
    }
    let ghost w = wrapped(text@, max_width as nat);
    assert(out@.map_values(|l: String| l@) =~= w) by {
        assert forall|k: int| 0 <= k < w.len() implies out@.map_values(|l: String| l@)[k] == w[k] by {
            assert(line_views(lines@)[k] == lines@[k]@);
        }
    }
    assert forall|k: int| 0 <= k < out.len() implies fits(
        #[trigger] out[k]@,
        if max_width == 0 { 1 } else { max_width as int },
    ) && (unicode_str_width(out[k]@) <= (if max_width == 0 { 1 } else { max_width as int }) || out[k]@.len() <= 1) by {
        assert(line_views(lines@)[k] == lines@[k]@);
        assert(out[k]@ == w[k]);
    }
    out
}

} // verus!

verus! {

/// The characters of `s` that are not white space, in order.
pub open spec fn visible_chars(s: Seq<char>) -> Seq<char>
    decreases s.len(),
{
    if s.len() == 0 {
        s
    } else if is_white_space(s.last()) {
        visible_chars(s.drop_last())
    } else {
        visible_chars(s.drop_last()).push(s.last())
    }
}

/// All lines joined end to end.
pub open spec fn joined(ls: Seq<Seq<char>>) -> Seq<char>
    decreases ls.len(),
{
    if ls.len() == 0 {
        Seq::empty()
    } else {
        joined(ls.drop_last()) + ls.last()
    }
}

proof fn lemma_visible_concat(a: Seq<char>, b: Seq<char>)
    ensures
        visible_chars(a + b) == visible_chars(a) + visible_chars(b),
    decreases b.len(),
{
    if b.len() == 0 {
        assert(a + b =~= a);
        assert(visible_chars(a) + visible_chars(b) =~= visible_chars(a));
    } else {
        lemma_visible_concat(a, b.drop_last());
        assert((a + b).drop_last() =~= a + b.drop_last());
        assert((a + b).last() == b.last());
        if !is_white_space(b.last()) {
            assert(visible_chars(a) + visible_chars(b.drop_last()).push(b.last()) =~= (visible_chars(a)
                + visible_chars(b.drop_last())).push(b.last()));
        }
    }
}

proof fn lemma_visible_trim_start(s: Seq<char>)
    ensures
        visible_chars(trim_start_seq(s)) == visible_chars(s),
    decreases s.len(),
{
    if s.len() > 0 && is_white_space(s[0]) {
        lemma_visible_trim_start(s.drop_first());
        assert(s =~= seq![s[0]] + s.drop_first());
        lemma_visible_concat(seq![s[0]], s.drop_first());
        assert(seq![s[0]].drop_last() =~= Seq::<char>::empty());
        assert(visible_chars(seq![s[0]]) == visible_chars(Seq::<char>::empty()));
        assert(Seq::<char>::empty() + visible_chars(s.drop_first()) =~= visible_chars(s.drop_first()));
    }
}

proof fn lemma_visible_trim_end(s: Seq<char>)
    ensures
        visible_chars(trim_end_seq(s)) == visible_chars(s),
    decreases s.len(),
{
    if s.len() > 0 && is_white_space(s.last()) {
        lemma_visible_trim_end(s.drop_last());
    }
}

proof fn lemma_visible_split(s: Seq<char>, b: int)
    requires
        0 <= b <= s.len(),
    ensures
        visible_chars(s) == visible_chars(trim_end_seq(s.take(b))) + visible_chars(
            trim_start_seq(s.skip(b)),
        ),
{
    assert(s =~= s.take(b) + s.skip(b));
    lemma_visible_concat(s.take(b), s.skip(b));
    lemma_visible_trim_end(s.take(b));
    lemma_visible_trim_start(s.skip(b));
}

proof fn lemma_joined_push(ls: Seq<Seq<char>>, x: Seq<char>)
    ensures
        joined(ls.push(x)) == joined(ls) + x,
{
    assert(ls.push(x).drop_last() =~= ls);
}

/// The running state of the wrapper never loses a visible character.
proof fn lemma_wrap_run_visible(p: Seq<char>, mw: int)
    ensures
        ({
            let st = wrap_run(p, mw);
            visible_chars(joined(st.lines) + st.line) == visible_chars(p)
        }),
        wrap_run(p, mw).brk matches Some(b) ==> 0 <= b <= wrap_run(p, mw).line.len(),
    decreases p.len(),
{
    if p.len() == 0 {
        assert(joined(Seq::<Seq<char>>::empty()) + Seq::<char>::empty() =~= Seq::<char>::empty());
    } else {
        let q = p.drop_last();
        let v = p.last();
        lemma_wrap_run_visible(q, mw);
        let st = wrap_run(q, mw);
        let vw = cell_width(v) as int;
        let j = joined(st.lines);
        lemma_visible_concat(j, st.line);
        let st1 = wrap_step_break(st, vw, mw);
        if vw > 0 && st.line.len() > 0 && st.width + vw > mw {
            match st.brk {
                Some(b) => {
                    let head = trim_end_seq(st.line.take(b));
                    let rest = trim_start_seq(st.line.skip(b));
                    let lines = if head.len() > 0 { st.lines.push(head) } else { st.lines };
                    lemma_visible_split(st.line, b);
                    lemma_visible_concat(j, head);
                    if head.len() > 0 {
                        lemma_joined_push(st.lines, head);
                    } else {
                        assert(j + head =~= j);
                    }
                    assert(visible_chars(joined(lines)) == visible_chars(j) + visible_chars(head));
                    lemma_visible_concat(joined(lines), rest);
                    if rest.len() > 0 && cells(rest) + vw > mw {
                        lemma_joined_push(lines, rest);
                        assert(joined(st1.lines) + st1.line =~= joined(lines) + rest);
                    }
                    assert(visible_chars(joined(st1.lines) + st1.line) == visible_chars(j) + visible_chars(head)
                        + visible_chars(rest));
                },
                None => {
                    lemma_joined_push(st.lines, st.line);
                    assert(joined(st1.lines) + st1.line =~= j + st.line);
                },
            }
        }
        assert(visible_chars(joined(st1.lines) + st1.line) == visible_chars(q));
        let line2 = st1.line.push(v);
        let j1 = joined(st1.lines);
        assert(j1 + line2 =~= (j1 + st1.line).push(v));
        assert((j1 + line2).drop_last() =~= j1 + st1.line);
        assert(p =~= q.push(v));
        assert(p.drop_last() =~= q);
        lemma_joined_push(st1.lines, line2);
        assert(joined(st1.lines.push(line2)) + Seq::<char>::empty() =~= j1 + line2);
    }
}

/// Wrapping a paragraph keeps every visible character, in order: only white
/// space at a break is dropped.
pub proof fn lemma_wrap_para_keeps_content(p: Seq<char>, mw: int)
    ensures
        visible_chars(joined(wrap_para(p, mw))) == visible_chars(p),
{
    if p.len() == 0 {
        lemma_joined_push(Seq::<Seq<char>>::empty(), Seq::<char>::empty());
        assert(joined(Seq::<Seq<char>>::empty()) =~= Seq::<char>::empty());
        assert(joined(seq![Seq::<char>::empty()]) =~= Seq::<char>::empty());
        assert(seq![Seq::<char>::empty()] =~= Seq::<Seq<char>>::empty().push(Seq::<char>::empty()));
    } else {
        lemma_wrap_run_visible(p, mw);
        let st = wrap_run(p, mw);
        lemma_visible_concat(joined(st.lines), st.line);
        if st.line.len() > 0 {
            lemma_joined_push(st.lines, trim_end_seq(st.line));
            lemma_visible_concat(joined(st.lines), trim_end_seq(st.line));
            lemma_visible_trim_end(st.line);
        } else {
            assert(joined(st.lines) + st.line =~= joined(st.lines));
        }
    }
}

proof fn lemma_joined_concat(a: Seq<Seq<char>>, b: Seq<Seq<char>>)
    ensures
        joined(a + b) == joined(a) + joined(b),
    decreases b.len(),
{
    if b.len() == 0 {
        assert(a + b =~= a);
        assert(joined(a) + joined(b) =~= joined(a));
    } else {
        lemma_joined_concat(a, b.drop_last());
        assert((a + b).drop_last() =~= a + b.drop_last());
        assert((a + b).last() == b.last());
        assert(joined(a) + (joined(b.drop_last()) + b.last()) =~= (joined(a) + joined(b.drop_last()))
            + b.last());
    }
}

/// Visible characters of the paragraphs of `s`, read in order, are those of `s`.
proof fn lemma_split_paras_visible(s: Seq<char>)
    ensures
        visible_chars(joined(split_paras(s))) == visible_chars(s),
    decreases s.len(),
{
    if s.len() == 0 {
        assert(seq![Seq::<char>::empty()] =~= Seq::<Seq<char>>::empty().push(Seq::<char>::empty()));
        lemma_joined_push(Seq::<Seq<char>>::empty(), Seq::<char>::empty());
        assert(joined(Seq::<Seq<char>>::empty()) =~= Seq::<char>::empty());
    } else {
        let q = s.drop_last();
        let c = s.last();
        lemma_split_paras_visible(q);
        lemma_split_paras_nonempty(q);
        let ps = split_paras(q);
        if c == '\n' {
            lemma_joined_push(ps, Seq::<char>::empty());
            assert(joined(ps) + Seq::<char>::empty() =~= joined(ps));
        } else {
            let ps2 = ps.update(ps.len() - 1, ps.last().push(c));
            assert(ps2.drop_last() =~= ps.drop_last());
            assert(ps =~= ps.drop_last().push(ps.last()));
            lemma_joined_push(ps.drop_last(), ps.last());
            lemma_joined_push(ps2.drop_last(), ps.last().push(c));
            assert(ps2 =~= ps2.drop_last().push(ps.last().push(c)));
            assert(joined(ps2) =~= joined(ps).push(c));
            assert(joined(ps).push(c).drop_last() =~= joined(ps));
        }
    }
}

proof fn lemma_wrap_paras_visible(ps: Seq<Seq<char>>, mw: int)
    ensures
        visible_chars(joined(wrap_paras(ps, mw))) == visible_chars(joined(ps)),
    decreases ps.len(),
{
    if ps.len() == 0 {
    } else {
        lemma_wrap_paras_visible(ps.drop_last(), mw);
        lemma_joined_concat(wrap_paras(ps.drop_last(), mw), wrap_para(ps.last(), mw));
        lemma_visible_concat(joined(wrap_paras(ps.drop_last(), mw)), joined(wrap_para(ps.last(), mw)));
        lemma_wrap_para_keeps_content(ps.last(), mw);
        lemma_visible_concat(joined(ps.drop_last()), ps.last());
    }
}

proof fn lemma_cells_concat(a: Seq<char>, b: Seq<char>)
    ensures
        cells(a + b) == cells(a) + cells(b),
    decreases a.len(),
{
    if a.len() > 0 {
        lemma_cells_concat(a.drop_first(), b);
        assert((a + b).drop_first() =~= a.drop_first() + b);
        assert((a + b)[0] == a[0]);
    } else {
        assert(a + b =~= b);
    }
}

proof fn lemma_cells_one(c: char)
    ensures
        cells(seq![c]) == cell_width(c),
{
    assert(seq![c].drop_first() =~= Seq::<char>::empty());
    assert(cells(Seq::<char>::empty()) == 0);
    assert(seq![c][0] == c);
}

proof fn lemma_cells_split(s: Seq<char>, k: int)
    requires
        0 <= k <= s.len(),
    ensures
        cells(s) == cells(s.take(k)) + cells(s.skip(k)),
{
    lemma_cells_concat(s.take(k), s.skip(k));
    assert(s =~= s.take(k) + s.skip(k));
}

proof fn lemma_trim_end_prefix(s: Seq<char>)
    ensures
        trim_end_seq(s).len() <= s.len(),
        trim_end_seq(s) == s.take(trim_end_seq(s).len() as int),
    decreases s.len(),
{
    if s.len() > 0 && is_white_space(s.last()) {
        lemma_trim_end_prefix(s.drop_last());
        let t = trim_end_seq(s.drop_last());
        assert(s.drop_last().take(t.len() as int) =~= s.take(t.len() as int));
    } else {
        assert(s.take(s.len() as int) =~= s);
    }
}

proof fn lemma_trim_start_suffix(s: Seq<char>)
    ensures
        trim_start_seq(s).len() <= s.len(),
        trim_start_seq(s) == s.skip(s.len() - trim_start_seq(s).len()),
    decreases s.len(),
{
    if s.len() > 0 && is_white_space(s[0]) {
        lemma_trim_start_suffix(s.drop_first());
        let t = trim_start_seq(s.drop_first());
        let k = s.drop_first().len() - t.len();
        assert(s.drop_first().skip(k) =~= s.skip(k + 1));
    } else {
        assert(s.skip(0) =~= s);
    }
}

/// The pieces around a break are no wider than the line they came from.
proof fn lemma_break_cells(line: Seq<char>, b: int)
    requires
        0 <= b <= line.len(),
    ensures
        cells(trim_end_seq(line.take(b))) <= cells(line),
        cells(trim_start_seq(line.skip(b))) <= cells(line),
{
    lemma_cells_split(line, b);
    let h = line.take(b);
    let r = line.skip(b);
    lemma_trim_end_prefix(h);
    lemma_cells_split(h, trim_end_seq(h).len() as int);
    lemma_trim_start_suffix(r);
    lemma_cells_split(r, r.len() - trim_start_seq(r).len());
}

proof fn lemma_trim_end_cells(line: Seq<char>)
    ensures
        cells(trim_end_seq(line)) <= cells(line),
{
    assert(line.take(line.len() as int) =~= line);
    lemma_break_cells(line, line.len() as int);
}

/// A line fits in `mw` cells, or holds a lone character wider than that.
pub open spec fn fits(l: Seq<char>, mw: int) -> bool {
    cells(l) <= mw || l.len() == 1
}

/// The wrapper's running state: every finished line fits, and the line
/// being filled is counted exactly and fits.
proof fn lemma_wrap_run_fits(p: Seq<char>, mw: int)
    requires
        mw >= 1,
    ensures
        ({
            let st = wrap_run(p, mw);
            &&& forall|i: int| 0 <= i < st.lines.len() ==> fits(#[trigger] st.lines[i], mw)
            &&& st.width == cells(st.line)
            &&& 0 <= st.width <= mw
            &&& st.brk matches Some(b) ==> 0 <= b <= st.line.len()
        }),
    decreases p.len(),
{
    if p.len() > 0 {
        let q = p.drop_last();
        let v = p.last();
        lemma_wrap_run_fits(q, mw);
        let st = wrap_run(q, mw);
        let vw = cell_width(v) as int;
        let st1 = wrap_step_break(st, vw, mw);
        if vw > 0 && st.line.len() > 0 && st.width + vw > mw {
            match st.brk {
                Some(b) => {
                    lemma_break_cells(st.line, b);
                    let head = trim_end_seq(st.line.take(b));
                    let rest = trim_start_seq(st.line.skip(b));
                    let lines = if head.len() > 0 { st.lines.push(head) } else { st.lines };
                    assert forall|i: int| 0 <= i < lines.len() implies fits(#[trigger] lines[i], mw) by {
                        if i < st.lines.len() {
                            assert(lines[i] == st.lines[i]);
                        }
                    }
                    assert forall|i: int| 0 <= i < st1.lines.len() implies fits(#[trigger] st1.lines[i], mw) by {
                        if i < lines.len() {
                            assert(st1.lines[i] == lines[i]);
                        }
                    }
                },
                None => {
                    assert forall|i: int| 0 <= i < st1.lines.len() implies fits(#[trigger] st1.lines[i], mw) by {
                        if i < st.lines.len() {
                            assert(st1.lines[i] == st.lines[i]);
                        }
                    }
                },
            }
        }
        assert(st1.width == cells(st1.line) && 0 <= st1.width <= mw);
        assert(st1.width + vw > mw ==> st1.line.len() == 0);
        let line2 = st1.line.push(v);
        lemma_cells_concat(st1.line, seq![v]);
        lemma_cells_one(v);
        assert(line2 =~= st1.line + seq![v]);
        let st2 = wrap_char(st, v, mw);
        assert(p =~= q.push(v));
        assert(p.drop_last() =~= q);
        assert(wrap_run(p, mw) == st2);
        assert forall|i: int| 0 <= i < st2.lines.len() implies fits(#[trigger] st2.lines[i], mw) by {
            if i < st1.lines.len() {
                assert(st2.lines[i] == st1.lines[i]);
            } else {
                assert(st2.lines[i] == line2);
                assert(line2.len() == 1);
            }
        }
    }
}

/// Every line of a wrapped paragraph fits.
proof fn lemma_wrap_para_fits(p: Seq<char>, mw: int)
    requires
        mw >= 1,
    ensures
        forall|i: int| 0 <= i < wrap_para(p, mw).len() ==> fits(#[trigger] wrap_para(p, mw)[i], mw),
{
    if p.len() == 0 {
        assert(seq![Seq::<char>::empty()][0] =~= Seq::<char>::empty());
    } else {
        lemma_wrap_run_fits(p, mw);
        let st = wrap_run(p, mw);
        lemma_trim_end_cells(st.line);
        let out = wrap_para(p, mw);
        assert forall|i: int| 0 <= i < out.len() implies fits(#[trigger] out[i], mw) by {
            if i < st.lines.len() {
                assert(out[i] == st.lines[i]);
            }
        }
    }
}

proof fn lemma_wrap_paras_fits(ps: Seq<Seq<char>>, mw: int)
    requires
        mw >= 1,
    ensures
        forall|i: int| 0 <= i < wrap_paras(ps, mw).len() ==> fits(#[trigger] wrap_paras(ps, mw)[i], mw),
    decreases ps.len(),
{
    if ps.len() > 0 {
        lemma_wrap_paras_fits(ps.drop_last(), mw);
        lemma_wrap_para_fits(ps.last(), mw);
        let a = wrap_paras(ps.drop_last(), mw);
        let b = wrap_para(ps.last(), mw);
        assert forall|i: int| 0 <= i < (a + b).len() implies fits(#[trigger] (a + b)[i], mw) by {
            if i < a.len() {
                assert((a + b)[i] == a[i]);
            } else {
                assert((a + b)[i] == b[i - a.len()]);
            }
        }
    }
}

proof fn lemma_wrap_cells_fit(s: Seq<char>, max_width: nat)
    ensures
        forall|i: int|
            0 <= i < wrapped_cells(s, max_width).len() ==> fits(
                #[trigger] wrapped_cells(s, max_width)[i],
                if max_width == 0 { 1 } else { max_width as int },
            ),
{
    if s.len() == 0 {
        assert(seq![Seq::<char>::empty()][0] =~= Seq::<char>::empty());
    } else {
        lemma_wrap_paras_fits(split_paras(s), if max_width == 0 { 1 } else { max_width as int });
    }
}

proof fn lemma_wrap_cells_keep_content(s: Seq<char>, max_width: nat)
    ensures
        visible_chars(joined(wrapped_cells(s, max_width))) == visible_chars(s),
{
    if s.len() == 0 {
        assert(seq![Seq::<char>::empty()] =~= Seq::<Seq<char>>::empty().push(Seq::<char>::empty()));
        lemma_joined_push(Seq::<Seq<char>>::empty(), Seq::<char>::empty());
        assert(joined(Seq::<Seq<char>>::empty()) =~= Seq::<char>::empty());
    } else {
        let mw = if max_width == 0 { 1 } else { max_width as int };
        lemma_wrap_paras_visible(split_paras(s), mw);
        lemma_split_paras_visible(s);
    }
}

proof fn lemma_fit_len(l: Seq<char>, mw: int, k: int)
    requires
        1 <= k <= l.len(),
        k == 1 || unicode_str_width(l.take(k)) <= mw,
    ensures
        k <= fit_len(l, mw, k) <= l.len(),
        fit_len(l, mw, k) == 1 || unicode_str_width(l.take(fit_len(l, mw, k))) <= mw,
    decreases l.len() - k,
{
    if k < l.len() && unicode_str_width(l.take(k + 1)) <= mw {
        lemma_fit_len(l, mw, k + 1);
    }
}

/// The cells of a run inside a line are no more than the line's.
proof fn lemma_cells_subrange(l: Seq<char>, a: int, b: int)
    requires
        0 <= a <= b <= l.len(),
    ensures
        cells(l.subrange(a, b)) <= cells(l),
{
    lemma_cells_split(l, b);
    let h = l.take(b);
    lemma_cells_split(h, a);
    assert(h.skip(a) =~= l.subrange(a, b));
}

/// The pieces of a refitted line read back as the line; each fits by
/// display width or is at most one character; and a line that fits by
/// cells gives pieces that fit by cells.
proof fn lemma_refit(l: Seq<char>, mw: int)
    ensures
        joined(refit(l, mw)) == l,
        forall|i: int|
            0 <= i < refit(l, mw).len() ==> unicode_str_width(#[trigger] refit(l, mw)[i]) <= mw
                || refit(l, mw)[i].len() <= 1,
        fits(l, mw) ==> forall|i: int| 0 <= i < refit(l, mw).len() ==> fits(#[trigger] refit(l, mw)[i], mw),
    decreases l.len(),
{
    lemma_joined_push(Seq::<Seq<char>>::empty(), l);
    assert(joined(Seq::<Seq<char>>::empty()) =~= Seq::<char>::empty());
    assert(seq![l] =~= Seq::<Seq<char>>::empty().push(l));
    assert(Seq::<char>::empty() + l =~= l);
    if l.len() <= 1 || unicode_str_width(l) <= mw {
        assert(refit(l, mw)[0] == l);
    } else {
        lemma_fit_len(l, mw, 1);
        let k = fit_len(l, mw, 1);
        assert(l.take(l.len() as int) =~= l);
        if 1 <= k < l.len() {
            let h = l.take(k);
            let t = l.skip(k);
            lemma_refit(t, mw);
            let rt = refit(t, mw);
            lemma_joined_concat(seq![h], rt);
            lemma_joined_push(Seq::<Seq<char>>::empty(), h);
            assert(seq![h] =~= Seq::<Seq<char>>::empty().push(h));
            assert(Seq::<char>::empty() + h =~= h);
            assert(h + t =~= l);
            let r = refit(l, mw);
            assert(r == seq![h] + rt);
            if fits(l, mw) {
                assert(l.len() > 1);
                lemma_cells_subrange(l, 0, k);
                assert(l.subrange(0, k) =~= h);
                lemma_cells_subrange(l, k, l.len() as int);
                assert(l.subrange(k, l.len() as int) =~= t);
            }
            assert forall|i: int| 0 <= i < r.len() implies (unicode_str_width(#[trigger] r[i]) <= mw || r[i].len()
                <= 1) && (fits(l, mw) ==> fits(r[i], mw)) by {
                if i == 0 {
                    assert(r[0] == h);
                } else {
                    assert(r[i] == rt[i - 1]);
                }
            }
        }
    }
}

proof fn lemma_refit_all(ls: Seq<Seq<char>>, mw: int)
    ensures
        joined(refit_all(ls, mw)) == joined(ls),
        forall|i: int|
            0 <= i < refit_all(ls, mw).len() ==> unicode_str_width(#[trigger] refit_all(ls, mw)[i]) <= mw
                || refit_all(ls, mw)[i].len() <= 1,
        (forall|i: int| 0 <= i < ls.len() ==> fits(#[trigger] ls[i], mw)) ==> forall|i: int|
            0 <= i < refit_all(ls, mw).len() ==> fits(#[trigger] refit_all(ls, mw)[i], mw),
    decreases ls.len(),
{
    if ls.len() > 0 {
        let h = ls.drop_last();
        lemma_refit_all(h, mw);
        lemma_refit(ls.last(), mw);
        let a = refit_all(h, mw);
        let b = refit(ls.last(), mw);
        lemma_joined_concat(a, b);
        assert(ls =~= h.push(ls.last()));
        lemma_joined_push(h, ls.last());
        if forall|i: int| 0 <= i < ls.len() ==> fits(#[trigger] ls[i], mw) {
            assert forall|i: int| 0 <= i < h.len() implies fits(#[trigger] h[i], mw) by {
                assert(h[i] == ls[i]);
            }
            assert(fits(ls[ls.len() - 1], mw));
        }
        assert forall|i: int| 0 <= i < (a + b).len() implies (unicode_str_width(#[trigger] (a + b)[i]) <= mw
            || (a + b)[i].len() <= 1) && ((forall|j: int| 0 <= j < ls.len() ==> fits(#[trigger] ls[j], mw))
            ==> fits((a + b)[i], mw)) by {
            if i < a.len() {
                assert((a + b)[i] == a[i]);
            } else {
                assert((a + b)[i] == b[i - a.len()]);
            }
        }
    }
}

/// Every line `wrap` produces fits in `max_width` cells of display width
/// (at least one), or holds at most one character; and it fits by the
/// cells of its characters too, unless it is a lone character wider than
/// that.
pub proof fn lemma_wrap_fits(s: Seq<char>, max_width: nat)
    ensures
        ({
            let mw = if max_width == 0 { 1 } else { max_width as int };
            let w = wrapped(s, max_width);
            forall|i: int| 0 <= i < w.len() ==> (unicode_str_width(#[trigger] w[i]) <= mw || w[i].len() <= 1)
                && fits(w[i], mw)
        }),
{
    let mw = if max_width == 0 { 1 } else { max_width as int };
    lemma_wrap_cells_fit(s, max_width);
    lemma_refit_all(wrapped_cells(s, max_width), mw);
}

/// `wrap` never loses or reorders content: reading its lines in order gives
/// back every character of the text except white space (line feeds and the
/// spaces at which lines were broken).
pub proof fn lemma_wrap_keeps_content(s: Seq<char>, max_width: nat)
    ensures
        visible_chars(joined(wrapped(s, max_width))) == visible_chars(s),
{
    lemma_wrap_cells_keep_content(s, max_width);
    lemma_refit_all(wrapped_cells(s, max_width), if max_width == 0 { 1 } else { max_width as int });
}


/// Text that fits in the column, exactly or with room to spare, comes back
/// unchanged: no character is cut and no ellipsis is added.
pub proof fn lemma_truncate_keeps_fitting_text(s: Seq<char>, max: nat)
    requires
        unicode_str_width(s) <= max,
    ensures
        truncated(s, max) == s,
{
}

/// Text too wide for the column is cut: what is kept is the longest start of
/// the text whose characters fit in the cells left (all of them when at most
/// three, otherwise all but three), and when more than three cells are
/// available `...` follows it.
pub proof fn lemma_truncate_cuts_wide_text(s: Seq<char>, max: nat)
    requires
        unicode_str_width(s) > max,
    ensures
        ({
            let t = truncated(s, max);
            let room: int = if max <= 3 { max as int } else { max - 3 };
            let kept = if max <= 3 { t } else { t.take(t.len() - 3) };
            &&& max > 3 ==> t.len() >= 3 && t.skip(t.len() - 3) == seq!['.', '.', '.']
            &&& kept == s.take(kept.len() as int)
            &&& cells(kept) <= room
            &&& kept.len() < s.len() ==> cell_width(s[kept.len() as int]) > room - cells(kept)
        }),
{
    let room: int = if max <= 3 { max as int } else { max - 3 };
    lemma_prefix_fits(s, room);
    let p = prefix_chars(s, room);
    if max > 3 {
        let t = p + seq!['.', '.', '.'];
        assert(t.take(t.len() - 3) =~= p);
        assert(t.skip(t.len() - 3) =~= seq!['.', '.', '.']);
    }
}

} // verus!
