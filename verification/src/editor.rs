use crate::keys::{EditorSignal, Key, TermMode};
use crate::layout::{spec_split_layout, split_layout, Rect};
use vstd::prelude::*;

verus! {

/// The editor state as mathematics: buffer text, cursor (in character
/// units), current mode, and the committed message history.
#[verifier::ext_equal]
pub struct EditorView {
    pub text: Seq<char>,
    pub cursor: int,
    pub mode: TermMode,
    pub messages: Seq<Seq<char>>,
}

/// The cursor stays inside the buffer: `0 <= cursor <= count_chars(text)`.
pub open spec fn view_wf(v: EditorView) -> bool {
    0 <= v.cursor <= v.text.len()
}

/// One tick of the mode controller: what a single key event does to the
/// editor state, and whether the host loop should keep running.
///
/// In `Normal` mode, `Enter` starts editing, `Esc` asks the host to leave,
/// and every other key is ignored. In `Editing` mode, `Enter` commits the
/// buffer into the history, `Esc` returns to `Normal`, `Backspace` removes
/// the character left of the cursor, `Left` and `Right` move the cursor
/// with saturation, a printable character is inserted at the cursor, and
/// every other key is ignored.
pub open spec fn step(s: EditorView, key: Key) -> (EditorView, EditorSignal)
    recommends
        view_wf(s),
{
    match s.mode {
        TermMode::Normal => match key {
            Key::Enter => ((EditorView { mode: TermMode::Editing, ..s }), EditorSignal::Continue),
            Key::Esc => (s, EditorSignal::Exit),
            _ => (s, EditorSignal::Continue),
        },
        TermMode::Editing => match key {
            Key::Enter => (
                (EditorView {
                    text: Seq::<char>::empty(),
                    cursor: 0,
                    messages: s.messages.push(s.text),
                    ..s
                }),
                EditorSignal::Continue,
            ),
            Key::Char(c) => (
                (EditorView { text: s.text.insert(s.cursor, c), cursor: s.cursor + 1, ..s }),
                EditorSignal::Continue,
            ),
            Key::Backspace => if s.cursor > 0 {
                (
                    (EditorView { text: s.text.remove(s.cursor - 1), cursor: s.cursor - 1, ..s }),
                    EditorSignal::Continue,
                )
            } else {
                (s, EditorSignal::Continue)
            },
            Key::Left => (
                (EditorView {
                    cursor: if s.cursor > 0 {
                        s.cursor - 1
                    } else {
                        0
                    },
                    ..s
                }),
                EditorSignal::Continue,
            ),
            Key::Right => (
                (EditorView {
                    cursor: if s.cursor + 1 <= s.text.len() {
                        s.cursor + 1
                    } else {
                        s.text.len() as int
                    },
                    ..s
                }),
                EditorSignal::Continue,
            ),
            Key::Esc => (
                (EditorView { mode: TermMode::Normal, ..s }),
                EditorSignal::Continue,
            ),
            _ => (s, EditorSignal::Continue),
        },
    }
}

/// The state after a whole sequence of key events, first key first.
pub open spec fn run(s: EditorView, keys: Seq<Key>) -> EditorView
    decreases keys.len(),
{
    if keys.len() == 0 {
        s
    } else {
        run(step(s, keys[0]).0, keys.drop_first())
    }
}

/// The modal line editor: an editable buffer with a character-unit cursor,
/// the current mode, the committed history, and the three frame regions it
/// draws into.
pub struct InputEditorWidget {
    pub input: Vec<char>,
    pub mode: TermMode,
    pub messages: Vec<Vec<char>>,
    pub chunks: Vec<Rect>,
    pub character_index: usize,
}

impl View for InputEditorWidget {
    type V = EditorView;

    open spec fn view(&self) -> EditorView {
        EditorView {
            text: self.input@,
            cursor: self.character_index as int,
            mode: self.mode,
            messages: self.messages.deep_view(),
        }
    }
}

impl InputEditorWidget {
    /// The cursor sits inside the buffer and the three frame regions exist.
    pub open spec fn wf(&self) -> bool {
        &&& self.character_index <= self.input.len()
        &&& self.chunks.len() == 3
    }

    /// A fresh editor for the given screen area: empty buffer, cursor 0,
    /// `Normal` mode, no history, regions cut by `spec_split_layout`.
    pub fn new(area: Rect) -> (r: Self)
        requires
            crate::layout::rect_fits(area),
        ensures
            r.wf(),
            r@.text =~= Seq::<char>::empty(),
            r@.cursor == 0,
            r@.mode == TermMode::Normal,
            r@.messages =~= Seq::<Seq<char>>::empty(),
            r.chunks@ =~= seq![
                spec_split_layout(area).0,
                spec_split_layout(area).1,
                spec_split_layout(area).2,
            ],
    {
        let (r0, r1, r2) = split_layout(area);
        let mut chunks: Vec<Rect> = Vec::new();
        chunks.push(r0);
        chunks.push(r1);
        chunks.push(r2);
        InputEditorWidget {
            input: Vec::new(),
            mode: TermMode::Normal,
            messages: Vec::new(),
            chunks,
            character_index: 0,
        }
    }

    /// The cursor moves one character left, saturating at the start (and,
    /// should it stand past the end of the buffer, it is clamped back in).
    pub fn move_cursor_left(&mut self)
        ensures
            final(self).input@ == old(self).input@,
            final(self).mode == old(self).mode,
            final(self).messages == old(self).messages,
            final(self).chunks == old(self).chunks,
            final(self).character_index == ({
                let m: int = if old(self).character_index > 0 {
                    old(self).character_index - 1
                } else {
                    0
                };
                if m <= old(self).input@.len() {
                    m
                } else {
                    old(self).input@.len() as int
                }
            }),
            final(self).character_index <= final(self).input@.len(),
    {
        let moved = if self.character_index > 0 {
            self.character_index - 1
        } else {
            0
        };
        self.character_index = self.clamp_cursor(moved);
    }

    /// The cursor moves one character right, saturating at the end.
    pub fn move_cursor_right(&mut self)
        requires
            old(self).wf(),
        ensures
            final(self).wf(),
            final(self).input@ == old(self).input@,
            final(self).mode == old(self).mode,
            final(self).messages == old(self).messages,
            final(self).chunks == old(self).chunks,
            final(self).character_index == (if old(self).character_index + 1
                <= old(self).input@.len() {
                old(self).character_index + 1
            } else {
                old(self).input@.len() as int
            }),
    {
        let moved = if self.character_index < usize::MAX {
            self.character_index + 1
        } else {
            usize::MAX
        };
        self.character_index = self.clamp_cursor(moved);
    }

    /// `new_cursor_pos` pulled back into the buffer: at most `count_chars`.
    pub fn clamp_cursor(&self, new_cursor_pos: usize) -> (r: usize)
        ensures
            r == (if new_cursor_pos <= self.input@.len() {
                new_cursor_pos as int
            } else {
                self.input@.len() as int
            }),
    {
        if new_cursor_pos <= self.input.len() {
            new_cursor_pos
        } else {
            self.input.len()
        }
    }

    /// The cursor returns to the start of the buffer.
    pub fn reset_cursor(&mut self)
        ensures
            final(self).input@ == old(self).input@,
            final(self).mode == old(self).mode,
            final(self).messages == old(self).messages,
            final(self).chunks == old(self).chunks,
            final(self).character_index == 0,
    {
        self.character_index = 0;
    }

    /// `new_char` is inserted at the cursor; the cursor moves past it.
    pub fn enter_char(&mut self, new_char: char)
        requires
            old(self).wf(),
        ensures
            final(self).wf(),
            final(self).input@ == old(self).input@.insert(
                old(self).character_index as int,
                new_char,
            ),
            final(self).mode == old(self).mode,
            final(self).messages == old(self).messages,
            final(self).chunks == old(self).chunks,
            final(self).character_index == old(self).character_index + 1,
    {
        let index = self.character_index;
        self.input.insert(index, new_char);
        self.move_cursor_right();
    }

    /// The byte offset of the cursor in the UTF-8 encoding of the buffer:
    /// derived by walking the characters before the cursor, never stored.
    pub fn byte_index(&self) -> (r: usize)
        requires
            self.wf(),
            vstd::utf8::encode_utf8(self.input@.take(self.character_index as int)).len()
                <= usize::MAX,
        ensures
            r == vstd::utf8::encode_utf8(self.input@.take(self.character_index as int)).len(),
    {
        let mut i: usize = 0;
        let mut offset: usize = 0;
        while i < self.character_index
            invariant
                self.wf(),
                i <= self.character_index,
                offset == vstd::utf8::encode_utf8(self.input@.take(i as int)).len(),
                vstd::utf8::encode_utf8(
                    self.input@.take(self.character_index as int),
                ).len() <= usize::MAX,
            decreases self.character_index - i,
        {
            let c = self.input[i];
            proof {
                lemma_encode_utf8_take_step(self.input@, i as int);
                lemma_encode_utf8_take_mono(
                    self.input@,
                    i + 1,
                    self.character_index as int,
                );
            }
            offset = offset + scalar_utf8_len(c);
            i = i + 1;
        }
        offset
    }

    /// The buffer is committed: its text becomes one new history entry, and
    /// the buffer is cleared with the cursor back at the start.
    pub fn submit_message(&mut self)
        requires
            old(self).wf(),
        ensures
            final(self).wf(),
            final(self).input@ =~= Seq::<char>::empty(),
            final(self).mode == old(self).mode,
            final(self).messages.deep_view() =~= old(self).messages.deep_view().push(
                old(self).input@,
            ),
            final(self).chunks == old(self).chunks,
            final(self).character_index == 0,
    {
        let ghost pre = self.messages.deep_view();
        let ghost pre_text = self.input@;
        let mut message: Vec<char> = Vec::new();
        core::mem::swap(&mut self.input, &mut message);
        proof {
            assert(message.deep_view() =~= pre_text);
        }
        self.messages.push(message);
        proof {
            assert(self.messages.deep_view() =~= pre.push(pre_text));
        }
        self.reset_cursor();
    }

    /// The character left of the cursor is removed and the cursor follows
    /// it; at the start of the buffer nothing happens.
    pub fn delete_char(&mut self)
        requires
            old(self).wf(),
        ensures
            final(self).wf(),
            final(self).mode == old(self).mode,
            final(self).messages == old(self).messages,
            final(self).chunks == old(self).chunks,
            old(self).character_index > 0 ==> {
                &&& final(self).input@ == old(self).input@.remove(
                    old(self).character_index - 1,
                )
                &&& final(self).character_index == old(self).character_index - 1
            },
            old(self).character_index == 0 ==> {
                &&& final(self).input@ == old(self).input@
                &&& final(self).character_index == 0
            },
    {
        let is_not_cursor_leftmost = self.character_index != 0;
        if is_not_cursor_leftmost {
            let from_left_to_current_index = self.character_index - 1;
            self.input.remove(from_left_to_current_index);
            self.move_cursor_left();
        }
    }

    /// One tick of the mode controller on this editor: the state changes
    /// exactly as `step` says, and the returned signal is `step`'s.
    pub fn handle_key(&mut self, key: Key) -> (sig: EditorSignal)
        requires
            old(self).wf(),
        ensures
            final(self).wf(),
            final(self)@ =~= step(old(self)@, key).0,
            sig == step(old(self)@, key).1,
            final(self).chunks == old(self).chunks,
    {
        match self.mode {
            TermMode::Normal => match key {
                Key::Enter => {
                    self.mode = TermMode::Editing;
                    EditorSignal::Continue
                },
                Key::Esc => EditorSignal::Exit,
                _ => EditorSignal::Continue,
            },
            TermMode::Editing => match key {
                Key::Enter => {
                    self.submit_message();
                    EditorSignal::Continue
                },
                Key::Char(to_insert) => {
                    self.enter_char(to_insert);
                    EditorSignal::Continue
                },
                Key::Backspace => {
                    self.delete_char();
                    EditorSignal::Continue
                },
                Key::Left => {
                    self.move_cursor_left();
                    EditorSignal::Continue
                },
                Key::Right => {
                    self.move_cursor_right();
                    EditorSignal::Continue
                },
                Key::Esc => {
                    self.mode = TermMode::Normal;
                    EditorSignal::Continue
                },
                _ => EditorSignal::Continue,
            },
        }
    }
}

/// How many bytes the UTF-8 encoding of one scalar takes: its width class.
pub open spec fn spec_scalar_utf8_len(c: char) -> int {
    if (c as u32) < 0x80 {
        1
    } else if (c as u32) < 0x800 {
        2
    } else if (c as u32) < 0x10000 {
        3
    } else {
        4
    }
}

/// Computes `spec_scalar_utf8_len`, the byte width of one character.
pub fn scalar_utf8_len(c: char) -> (r: usize)
    ensures
        r == spec_scalar_utf8_len(c),
{
    let v = c as u32;
    if v < 0x80 {
        1
    } else if v < 0x800 {
        2
    } else if v < 0x10000 {
        3
    } else {
        4
    }
}

/// The width class above is exactly the length of vstd's `encode_scalar`.
proof fn lemma_scalar_len_matches_encoding(c: char)
    ensures
        vstd::utf8::encode_scalar(c as u32).len() == spec_scalar_utf8_len(c),
{
    vstd::utf8::char_is_scalar(c);
}

/// Taking one more character adds exactly that character's byte width to
/// the length of the encoded prefix.
proof fn lemma_encode_utf8_take_step(s: Seq<char>, i: int)
    requires
        0 <= i < s.len(),
    ensures
        vstd::utf8::encode_utf8(s.take(i + 1)).len() == vstd::utf8::encode_utf8(s.take(i)).len()
            + spec_scalar_utf8_len(s[i]),
    decreases i,
{
    lemma_scalar_len_matches_encoding(s[i]);
    if i == 0 {
        assert(s.take(1)[0] == s[0]);
        assert(s.take(1).drop_first() =~= s.take(0));
        assert(s.take(0).len() == 0);
        assert(s.take(1).drop_first().len() == 0);
    } else {
        let t = s.drop_first();
        lemma_encode_utf8_take_step(t, i - 1);
        assert(s.take(i + 1)[0] == s[0]);
        assert(s.take(i)[0] == s[0]);
        assert(s.take(i + 1).drop_first() =~= t.take(i));
        assert(s.take(i).drop_first() =~= t.take(i - 1));
        assert(t[i - 1] == s[i]);
    }
}

/// One key event keeps the cursor inside the buffer.
pub proof fn lemma_step_preserves_wf(s: EditorView, key: Key)
    requires
        view_wf(s),
    ensures
        view_wf(step(s, key).0),
{
}

/// Every state reachable from a well-formed one by any sequence of key
/// events keeps the cursor inside the buffer.
pub proof fn lemma_run_preserves_wf(s: EditorView, keys: Seq<Key>)
    requires
        view_wf(s),
    ensures
        view_wf(run(s, keys)),
    decreases keys.len(),
{
    if keys.len() > 0 {
        lemma_step_preserves_wf(s, keys[0]);
        lemma_run_preserves_wf(step(s, keys[0]).0, keys.drop_first());
    }
}

/// Inserting a character and then deleting before the cursor restores the
/// whole editor state, the buffer text in particular, exactly.
pub proof fn lemma_insert_then_delete(s: EditorView, c: char)
    requires
        view_wf(s),
        s.mode == TermMode::Editing,
    ensures
        step(step(s, Key::Char(c)).0, Key::Backspace).0 =~= s,
{
    assert(s.text.insert(s.cursor, c).remove(s.cursor) =~= s.text);
}

/// After an insert, one `Left` returns the cursor to its prior place.
pub proof fn lemma_move_left_after_insert(s: EditorView, c: char)
    requires
        view_wf(s),
        s.mode == TermMode::Editing,
    ensures
        step(step(s, Key::Char(c)).0, Key::Left).0.cursor == s.cursor,
{
}

/// A commit empties the buffer, resets the cursor, and appends exactly one
/// entry, the pre-commit text, to the history.
pub proof fn lemma_commit(s: EditorView)
    requires
        view_wf(s),
        s.mode == TermMode::Editing,
    ensures
        step(s, Key::Enter).0.text =~= Seq::<char>::empty(),
        step(s, Key::Enter).0.cursor == 0,
        step(s, Key::Enter).0.messages =~= s.messages.push(s.text),
{
}

/// A key that is neither `Enter` nor `Esc`.
pub open spec fn is_passive_key(key: Key) -> bool {
    key != Key::Enter && key != Key::Esc
}

/// From `Normal` mode, a sequence of keys other than `Enter` and `Esc`
/// leaves the mode, the buffer and the history untouched.
pub proof fn lemma_normal_ignores_other_keys(s: EditorView, keys: Seq<Key>)
    requires
        s.mode == TermMode::Normal,
        forall|i: int| 0 <= i < keys.len() ==> is_passive_key(#[trigger] keys[i]),
    ensures
        run(s, keys) == s,
    decreases keys.len(),
{
    if keys.len() > 0 {
        assert(is_passive_key(keys[0]));
        assert(step(s, keys[0]).0 == s);
        assert(forall|i: int|
            0 <= i < keys.drop_first().len() ==> is_passive_key(#[trigger] keys.drop_first()[i]));
        lemma_normal_ignores_other_keys(s, keys.drop_first());
    }
}

/// `keys` is, key for key, the characters of `cs` typed in order.
pub open spec fn are_typed_chars(keys: Seq<Key>, cs: Seq<char>) -> bool {
    &&& keys.len() == cs.len()
    &&& forall|i: int| 0 <= i < keys.len() ==> keys[i] == Key::Char(#[trigger] cs[i])
}

/// With the cursor at the end of the buffer, typing characters appends
/// them in order and moves the cursor past them; nothing else changes.
pub proof fn lemma_typing_appends(s: EditorView, cs: Seq<char>, keys: Seq<Key>)
    requires
        view_wf(s),
        s.mode == TermMode::Editing,
        s.cursor == s.text.len(),
        are_typed_chars(keys, cs),
    ensures
        ({
            let s1 = run(s, keys);
            &&& s1.text =~= s.text + cs
            &&& s1.cursor == s.text.len() + cs.len()
            &&& s1.mode == TermMode::Editing
            &&& s1.messages == s.messages
        }),
    decreases cs.len(),
{
    if cs.len() == 0 {
        assert(s.text + cs =~= s.text);
    } else {
        assert(keys[0] == Key::Char(cs[0]));
        let s1 = step(s, keys[0]).0;
        assert(s1.text =~= s.text.push(cs[0]));
        assert(are_typed_chars(keys.drop_first(), cs.drop_first()));
        lemma_typing_appends(s1, cs.drop_first(), keys.drop_first());
        assert(s.text.push(cs[0]) + cs.drop_first() =~= s.text + cs);
    }
}

/// From an empty buffer in `Editing` mode, the printable characters typed
/// are, in order, exactly the entry the next commit adds to the history.
pub proof fn lemma_typed_chars_are_committed(s: EditorView, cs: Seq<char>, keys: Seq<Key>)
    requires
        view_wf(s),
        s.mode == TermMode::Editing,
        s.text.len() == 0,
        are_typed_chars(keys, cs),
    ensures
        step(run(s, keys), Key::Enter).0.messages =~= s.messages.push(cs),
{
    assert(s.cursor == 0);
    lemma_typing_appends(s, cs, keys);
    let s1 = run(s, keys);
    assert(s.text + cs =~= cs);
    assert(s1.text == cs);
}

/// A longer prefix never has a shorter encoding.
proof fn lemma_encode_utf8_take_mono(s: Seq<char>, i: int, j: int)
    requires
        0 <= i <= j <= s.len(),
    ensures
        vstd::utf8::encode_utf8(s.take(i)).len() <= vstd::utf8::encode_utf8(s.take(j)).len(),
    decreases j - i,
{
    if i < j {
        lemma_encode_utf8_take_step(s, j - 1);
        lemma_encode_utf8_take_mono(s, i, j - 1);
    }
}

} // verus!
