use crate::editor::InputEditorWidget;
use crate::keys::TermMode;
use crate::layout::Rect;
use vstd::prelude::*;

verus! {

/// One run of help-line text, possibly shown bold.
pub struct StyledSpan {
    pub content: String,
    pub bold: bool,
}

/// The whole help line: its runs of text and whether the line blinks.
pub struct HelpLine {
    pub spans: Vec<StyledSpan>,
    pub rapid_blink: bool,
}

/// The title paragraph: centered text inside a plain white border.
pub struct TitleParagraph {
    pub content: String,
    pub centered: bool,
    pub bordered: bool,
    pub white_fg: bool,
}

/// One line of the message list: a history entry and its zero-based index,
/// which the host prints before the entry as a prefix.
pub struct MessageEntry {
    pub index: usize,
    pub content: Vec<char>,
}

/// Where the hardware cursor goes, in terminal coordinates.
#[derive(Clone, Copy, Debug, PartialEq, Eq, Structural)]
pub struct ScreenCursor {
    pub col: u16,
    pub row: u16,
}

/// A frame, projected to plain values: the input box with its title, style
/// and cursor, and the titled message list, each with the region it is
/// drawn into.
pub struct FrameSketch {
    pub input_area: Rect,
    pub input_title: String,
    pub input_text: Vec<char>,
    pub input_yellow: bool,
    pub screen_cursor: Option<ScreenCursor>,
    pub messages_area: Rect,
    pub messages_title: String,
    pub entries: Vec<MessageEntry>,
}

/// The title widget of the frame.
pub struct TitleWidget {
    pub title: String,
}

impl TitleWidget {
    /// A title widget remembering the given title.
    pub fn new(title: String) -> (r: Self)
        ensures
            r.title@ == title@,
    {
        TitleWidget { title }
    }

    /// The title paragraph drawn for this widget: centered bordered text.
    pub fn draw(&self) -> (r: TitleParagraph)
        ensures
            r.content@ == "test"@,
            r.centered,
            r.bordered,
            r.white_fg,
    {
        TitleParagraph { content: "test".to_owned(), centered: true, bordered: true, white_fg: true }
    }
}

/// The help line of the frame, worded for the current mode.
pub struct HelpMessage {
    pub mode: TermMode,
}

impl HelpMessage {
    /// A help line for `Normal` mode, the mode the editor starts in.
    pub fn new() -> (r: Self)
        ensures
            r.mode == TermMode::Normal,
    {
        HelpMessage { mode: TermMode::Normal }
    }

    /// The help line for the current mode. In `Normal` mode the whole line
    /// blinks and names the exit and edit keys; in `Editing` mode it is
    /// calm and names `Esc` and `Enter`. The single-key mnemonics are bold.
    pub fn draw(&self) -> (r: HelpLine)
        ensures
            r.rapid_blink == (self.mode == TermMode::Normal),
            r.spans@.len() == 5,
            !r.spans@[0].bold && r.spans@[1].bold && !r.spans@[2].bold && r.spans@[3].bold
                && !r.spans@[4].bold,
            r.spans@[0].content@ == "Press "@,
            self.mode == TermMode::Normal ==> r.spans@[1].content@ == "q"@
                && r.spans@[2].content@ == " to exit, "@ && r.spans@[3].content@ == "i"@
                && r.spans@[4].content@ == " to start editing."@,
            self.mode == TermMode::Editing ==> r.spans@[1].content@ == "Esc"@
                && r.spans@[2].content@ == " to stop editing, "@ && r.spans@[3].content@
                == "Enter"@ && r.spans@[4].content@ == " to record the message"@,
    {
        let mut spans: Vec<StyledSpan> = Vec::new();
        match self.mode {
            TermMode::Normal => {
                spans.push(StyledSpan { content: "Press ".to_owned(), bold: false });
                spans.push(StyledSpan { content: "q".to_owned(), bold: true });
                spans.push(StyledSpan { content: " to exit, ".to_owned(), bold: false });
                spans.push(StyledSpan { content: "i".to_owned(), bold: true });
                spans.push(StyledSpan { content: " to start editing.".to_owned(), bold: false });
                HelpLine { spans, rapid_blink: true }
            },
            TermMode::Editing => {
                spans.push(StyledSpan { content: "Press ".to_owned(), bold: false });
                spans.push(StyledSpan { content: "Esc".to_owned(), bold: true });
                spans.push(StyledSpan { content: " to stop editing, ".to_owned(), bold: false });
                spans.push(StyledSpan { content: "Enter".to_owned(), bold: true });
                spans.push(StyledSpan {
                    content: " to record the message".to_owned(),
                    bold: false,
                });
                HelpLine { spans, rapid_blink: false }
            },
        }
    }
}

/// Whether the character occupies two terminal cells: the East-Asian wide
/// and fullwidth blocks.
pub open spec fn spec_is_wide(u: u32) -> bool {
    u >= 0x1100 && (u <= 0x115F || u == 0x2329 || u == 0x232A || (u >= 0x2E80 && u <= 0xA4CF && u
        != 0x303F) || (u >= 0xAC00 && u <= 0xD7A3) || (u >= 0xF900 && u <= 0xFAFF) || (u >= 0xFE30
        && u <= 0xFE6F) || (u >= 0xFF00 && u <= 0xFF60) || (u >= 0xFFE0 && u <= 0xFFE6) || (u
        >= 0x20000 && u <= 0x2FFFD) || (u >= 0x30000 && u <= 0x3FFFD))
}

/// How many terminal cells one character occupies.
pub open spec fn spec_char_cells(c: char) -> int {
    if spec_is_wide(c as u32) {
        2
    } else {
        1
    }
}

/// How many terminal cells a string occupies: the sum of its characters'
/// East-Asian-width cells.
pub open spec fn spec_display_width(s: Seq<char>) -> int
    decreases s.len(),
{
    if s.len() == 0 {
        0
    } else {
        spec_display_width(s.drop_last()) + spec_char_cells(s.last())
    }
}

/// An integer pulled into the range of `u16`.
pub open spec fn sat_u16(v: int) -> u16 {
    if v > u16::MAX {
        u16::MAX
    } else if v < 0 {
        0
    } else {
        v as u16
    }
}

/// The cursor column inside the input box: the box's left edge, plus the
/// display width of the text before the cursor, plus the border cell.
pub open spec fn spec_cursor_col(r1: Rect, prefix: Seq<char>) -> u16 {
    sat_u16(r1.x + spec_display_width(prefix) + 1)
}

/// The cursor row inside the input box: under its top border.
pub open spec fn spec_cursor_row(r1: Rect) -> u16 {
    sat_u16(r1.y + 1)
}

/// A display width is never negative.
proof fn lemma_display_width_nonneg(s: Seq<char>)
    ensures
        spec_display_width(s) >= 0,
    decreases s.len(),
{
    if s.len() > 0 {
        lemma_display_width_nonneg(s.drop_last());
    }
}

/// Taking one more character adds exactly that character's cells.
proof fn lemma_display_width_take_step(s: Seq<char>, i: int)
    requires
        0 <= i < s.len(),
    ensures
        spec_display_width(s.take(i + 1)) == spec_display_width(s.take(i)) + spec_char_cells(s[i]),
{
    assert(s.take(i + 1).drop_last() =~= s.take(i));
    assert(s.take(i + 1).last() == s[i]);
}

/// Computes `spec_char_cells`, the cell count of one character.
pub fn char_cells(c: char) -> (r: u16)
    ensures
        r == spec_char_cells(c),
{
    let u = c as u32;
    if u >= 0x1100 && (u <= 0x115F || u == 0x2329 || u == 0x232A || (u >= 0x2E80 && u <= 0xA4CF && u
        != 0x303F) || (u >= 0xAC00 && u <= 0xD7A3) || (u >= 0xF900 && u <= 0xFAFF) || (u >= 0xFE30
        && u <= 0xFE6F) || (u >= 0xFF00 && u <= 0xFF60) || (u >= 0xFFE0 && u <= 0xFFE6) || (u
        >= 0x20000 && u <= 0x2FFFD) || (u >= 0x30000 && u <= 0x3FFFD)) {
        2
    } else {
        1
    }
}

/// Computes `spec_cursor_col` for the text before the cursor, saturating
/// instead of leaving the coordinate space.
pub fn cursor_col(r1: Rect, text: &Vec<char>, upto: usize) -> (r: u16)
    requires
        upto <= text@.len(),
    ensures
        r == spec_cursor_col(r1, text@.take(upto as int)),
{
    let mut acc: u16 = if r1.x < u16::MAX {
        r1.x + 1
    } else {
        u16::MAX
    };
    let mut i: usize = 0;
    proof {
        assert(text@.take(0).len() == 0);
    }
    while i < upto
        invariant
            upto <= text@.len(),
            i <= upto,
            acc == sat_u16(r1.x + spec_display_width(text@.take(i as int)) + 1),
        decreases upto - i,
    {
        let cells = char_cells(text[i]);
        proof {
            lemma_display_width_take_step(text@, i as int);
            lemma_display_width_nonneg(text@.take(i as int));
        }
        acc = if acc <= u16::MAX - cells {
            acc + cells
        } else {
            u16::MAX
        };
        i = i + 1;
    }
    acc
}

/// Copies a character vector, one character at a time.
fn copy_chars(v: &Vec<char>) -> (r: Vec<char>)
    ensures
        r@ == v@,
{
    let mut r: Vec<char> = Vec::new();
    let mut i: usize = 0;
    while i < v.len()
        invariant
            i <= v@.len(),
            r@ =~= v@.take(i as int),
        decreases v@.len() - i,
    {
        r.push(v[i]);
        proof {
            assert(r@ =~= v@.take(i + 1));
        }
        i = i + 1;
    }
    proof {
        assert(v@.take(v@.len() as int) =~= v@);
    }
    r
}

impl InputEditorWidget {
    /// The frame this editor shows: the buffer inside the input box, drawn
    /// yellow while editing, the hardware cursor under the edited character
    /// in `Editing` mode and hidden in `Normal` mode, and one message line
    /// per history entry, indexed from zero, top to bottom.
    pub fn draw(&self) -> (r: FrameSketch)
        requires
            self.wf(),
        ensures
            r.input_area == self.chunks@[1],
            r.messages_area == self.chunks@[2],
            r.input_title@ == "Input"@,
            r.messages_title@ == "Messages"@,
            r.input_text@ == self.input@,
            r.input_yellow == (self.mode == TermMode::Editing),
            self.mode == TermMode::Normal ==> r.screen_cursor is None,
            self.mode == TermMode::Editing ==> r.screen_cursor == Some(
                (ScreenCursor {
                    col: spec_cursor_col(
                        self.chunks@[1],
                        self.input@.take(self.character_index as int),
                    ),
                    row: spec_cursor_row(self.chunks@[1]),
                }),
            ),
            r.entries@.len() == self.messages@.len(),
            forall|j: int|
                0 <= j < r.entries@.len() ==> (#[trigger] r.entries@[j]).index == j
                    && r.entries@[j].content@ == self.messages@[j]@,
    {
        let r1 = self.chunks[1];
        let r2 = self.chunks[2];
        let input_text = copy_chars(&self.input);
        let input_yellow = match self.mode {
            TermMode::Normal => false,
            TermMode::Editing => true,
        };
        let screen_cursor = match self.mode {
            TermMode::Normal => None,
            TermMode::Editing => Some(
                ScreenCursor {
                    col: cursor_col(r1, &self.input, self.character_index),
                    row: if r1.y < u16::MAX {
                        r1.y + 1
                    } else {
                        u16::MAX
                    },
                },
            ),
        };
        let mut entries: Vec<MessageEntry> = Vec::new();
        let mut j: usize = 0;
        while j < self.messages.len()
            invariant
                j <= self.messages@.len(),
                entries@.len() == j,
                forall|k: int|
                    0 <= k < j ==> (#[trigger] entries@[k]).index == k && entries@[k].content@
                        == self.messages@[k]@,
            decreases self.messages@.len() - j,
        {
            let content = copy_chars(&self.messages[j]);
            entries.push(MessageEntry { index: j, content });
            j = j + 1;
        }
        FrameSketch {
            input_area: r1,
            input_title: "Input".to_owned(),
            input_text,
            input_yellow,
            screen_cursor,
            messages_area: r2,
            messages_title: "Messages".to_owned(),
            entries,
        }
    }
}

} // verus!
