//! Cursor, quit flag, and the screen-refresh computation of the editor.
//!
//! The editor itself is a state machine: every key event maps to a new
//! cursor position or to the quit state, and every refresh maps the state to
//! the exact text the terminal should show. The surrounding binary queries
//! the terminal size, reads keys, and paints the frames computed here.

use vstd::prelude::*;

verus! {

/// A cursor cell: 0-based column (`x`) and row (`y`) offsets.
#[derive(Clone, Copy, Debug, PartialEq, Eq, Structural)]
pub struct Position {
    pub x: usize,
    pub y: usize,
}

/// A key event, as the editor core understands it. The binary translates
/// the terminal's own event type into this one, variant for variant.
#[derive(Clone, Copy, Debug, PartialEq, Eq, Structural)]
pub enum Key {
    Char(char),
    Ctrl(char),
    PageUp,
    PageDown,
    Home,
    End,
    Other,
}

/// The largest addressable cell index along an axis of `dim` cells:
/// `dim - 1`, saturating at 0.
pub open spec fn last_cell(dim: u16) -> int {
    if dim >= 1 {
        dim - 1
    } else {
        0
    }
}

/// The column after `key` is applied to a cursor at column `x` on a
/// viewport `width` columns wide.
pub open spec fn new_x(x: int, key: Key, width: u16) -> int {
    let w = last_cell(width);
    match key {
        Key::Char(c) => {
            if c == 'h' {
                if x >= 1 {
                    x - 1
                } else {
                    0
                }
            } else if c == 'l' {
                if x < w {
                    x + 1
                } else {
                    x
                }
            } else {
                x
            }
        },
        Key::Home => 0,
        Key::End => w,
        _ => x,
    }
}

/// The row after `key` is applied to a cursor at row `y` on a viewport
/// `height` rows tall.
pub open spec fn new_y(y: int, key: Key, height: u16) -> int {
    let h = last_cell(height);
    match key {
        Key::Char(c) => {
            if c == 'k' {
                if y >= 1 {
                    y - 1
                } else {
                    0
                }
            } else if c == 'j' {
                if y < h {
                    y + 1
                } else {
                    y
                }
            } else {
                y
            }
        },
        Key::PageUp => 0,
        Key::PageDown => h,
        _ => y,
    }
}

/// How the quit flag evolves when a key is processed: the quit key sets it,
/// no key clears it.
pub open spec fn quit_after(should_quit: bool, key: Key) -> bool {
    should_quit || is_quit_key(key)
}

/// The quit state is terminal: once the flag is set, no key event leaves it.
pub proof fn lemma_quitting_is_terminal(key: Key)
    ensures
        quit_after(true, key),
{
}

/// The key that quits the editor.
pub open spec fn is_quit_key(key: Key) -> bool {
    match key {
        Key::Ctrl(c) => c == 'q',
        _ => false,
    }
}

/// The keys that move the cursor.
pub open spec fn is_move_key(key: Key) -> bool {
    match key {
        Key::Char(c) => c == 'h' || c == 'j' || c == 'k' || c == 'l',
        Key::PageUp => true,
        Key::PageDown => true,
        Key::Home => true,
        Key::End => true,
        _ => false,
    }
}

/// The cursor after a whole sequence of keys, starting from `(x, y)`.
pub open spec fn cursor_after(x: int, y: int, keys: Seq<Key>, width: u16, height: u16) -> (
    int,
    int,
)
    decreases keys.len(),
{
    if keys.len() == 0 {
        (x, y)
    } else {
        cursor_after(
            new_x(x, keys[0], width),
            new_y(y, keys[0], height),
            keys.drop_first(),
            width,
            height,
        )
    }
}

/// One move keeps an in-bounds cursor in bounds.
pub proof fn lemma_move_preserves_bounds(x: int, y: int, key: Key, width: u16, height: u16)
    requires
        width >= 1,
        height >= 1,
        0 <= x <= width - 1,
        0 <= y <= height - 1,
    ensures
        0 <= new_x(x, key, width) <= width - 1,
        0 <= new_y(y, key, height) <= height - 1,
{
}

/// On any viewport of at least one cell, the cursor never escapes the
/// viewport, whatever sequence of keys is pressed from the origin.
pub proof fn lemma_cursor_stays_in_bounds(keys: Seq<Key>, width: u16, height: u16)
    requires
        width >= 1,
        height >= 1,
    ensures
        ({
            let (x, y) = cursor_after(0, 0, keys, width, height);
            0 <= x <= width - 1 && 0 <= y <= height - 1
        }),
    decreases keys.len(),
{
    lemma_cursor_stays_in_bounds_from(0, 0, keys, width, height);
}

/// The induction behind `lemma_cursor_stays_in_bounds`: preservation from
/// any in-bounds starting cell.
pub proof fn lemma_cursor_stays_in_bounds_from(
    x: int,
    y: int,
    keys: Seq<Key>,
    width: u16,
    height: u16,
)
    requires
        width >= 1,
        height >= 1,
        0 <= x <= width - 1,
        0 <= y <= height - 1,
    ensures
        ({
            let (x2, y2) = cursor_after(x, y, keys, width, height);
            0 <= x2 <= width - 1 && 0 <= y2 <= height - 1
        }),
    decreases keys.len(),
{
    if keys.len() > 0 {
        lemma_move_preserves_bounds(x, y, keys[0], width, height);
        lemma_cursor_stays_in_bounds_from(
            new_x(x, keys[0], width),
            new_y(y, keys[0], height),
            keys.drop_first(),
            width,
            height,
        );
    }
}

/// Moving off an edge is idempotent: up at the top row, down at the bottom
/// row, left at the first column and right at the last column all stay put.
pub proof fn lemma_edge_moves_idempotent(width: u16, height: u16)
    requires
        width >= 1,
        height >= 1,
    ensures
        new_y(0, Key::Char('k'), height) == 0,
        new_y(height - 1, Key::Char('j'), height) == height - 1,
        new_x(0, Key::Char('h'), width) == 0,
        new_x(width - 1, Key::Char('l'), width) == width - 1,
{
}

/// The banner text before centering: the application name and version,
/// with the carriage return the editor prints after it.
pub open spec fn welcome_text_spec(version: Seq<char>) -> Seq<char> {
    "Hecto editor -- version "@ + version + "\r"@
}

/// How many cells are left of the banner on a `width`-wide line, halved;
/// zero when the banner does not fit.
pub open spec fn welcome_padding(width: int, msg_len: int) -> int {
    if width >= msg_len {
        (width - msg_len) / 2
    } else {
        0
    }
}

/// The centered welcome line: a leading tilde, one space fewer than the
/// padding, the banner text, the whole truncated to the viewport width.
pub open spec fn welcome_line_spec(width: int, version: Seq<char>) -> Seq<char> {
    let msg = welcome_text_spec(version);
    let padding = welcome_padding(width, msg.len() as int);
    let spaces = if padding >= 1 {
        padding - 1
    } else {
        0
    };
    let full = seq!['~'] + Seq::new(spaces as nat, |k: int| ' ') + msg;
    if width < full.len() {
        full.take(width)
    } else {
        full
    }
}

/// The text of display row `r`: the welcome line a third of the way down
/// the viewport, a tilde marker everywhere else. Every line carries the
/// carriage return that raw mode needs before the newline.
pub open spec fn row_line_spec(r: int, width: u16, height: u16, version: Seq<char>) -> Seq<char> {
    if r == height as int / 3 {
        welcome_line_spec(width as int, version) + "\r"@
    } else {
        "~\r"@
    }
}

/// The farewell line printed by the last refresh before the editor stops.
pub open spec fn goodbye_text() -> Seq<char> {
    "Goodbye.\r"@
}

/// What one screen refresh paints.
pub enum Frame {
    /// The editor is quitting: the screen is cleared and this line is
    /// printed; no further key is read.
    Farewell { text: String },
    /// The editor is running: these lines are drawn from the top of the
    /// screen and the hardware cursor is placed on `cursor`.
    Screen { lines: Vec<String>, cursor: Position },
}

/// The frame a refresh of `editor` on a `width` x `height` viewport must
/// produce.
pub open spec fn frame_ok(editor: Editor, width: u16, height: u16, frame: Frame) -> bool {
    match frame {
        Frame::Farewell { text } => editor.should_quit && text@ == goodbye_text(),
        Frame::Screen { lines, cursor } => {
            &&& !editor.should_quit
            &&& cursor == editor.cursor_position
            &&& lines.len() == height - 1
            &&& forall|r: int|
                0 <= r < lines.len() ==> (#[trigger] lines[r])@ == row_line_spec(
                    r,
                    width,
                    height,
                    editor.version@,
                )
        },
    }
}

/// The editor state: the quit flag, the cursor, and the version string
/// shown in the welcome banner, injected at construction.
pub struct Editor {
    pub should_quit: bool,
    pub cursor_position: Position,
    pub version: String,
}

impl Editor {
    /// A fresh editor: running, cursor at the origin.
    pub fn default() -> (editor: Editor)
        ensures
            !editor.should_quit,
            editor.cursor_position == (Position { x: 0, y: 0 }),
            editor.version@ == "0.1.0"@,
    {
        Editor {
            should_quit: false,
            cursor_position: Position { x: 0, y: 0 },
            version: String::from_str("0.1.0"),
        }
    }

    /// The centered, truncated welcome banner. Never wider than the
    /// viewport.
    pub fn draw_welcome_message(&self, width: u16) -> (line: String)
        ensures
            line@ == welcome_line_spec(width as int, self.version@),
            line@.len() <= width,
    {
        let mut text = String::from_str("Hecto editor -- version ");
        text.append(self.version.as_str());
        text.append("\r");
        let len = text.as_str().unicode_len();
        let w = width as usize;
        let padding: usize = if w >= len {
            (w - len) / 2
        } else {
            0
        };
        let spaces_n: usize = if padding >= 1 {
            padding - 1
        } else {
            0
        };
        let mut line = String::from_str("~");
        proof {
            reveal_strlit("~");
            assert(line@ =~= seq!['~'] + Seq::new(0nat, |k: int| ' '));
        }
        let mut i: usize = 0;
        while i < spaces_n
            invariant
                i <= spaces_n,
                line@ == seq!['~'] + Seq::new(i as nat, |k: int| ' '),
            decreases spaces_n - i,
        {
            line.append(" ");
            i = i + 1;
            proof {
                reveal_strlit(" ");
                assert(line@ =~= seq!['~'] + Seq::new(i as nat, |k: int| ' '));
            }
        }
        line.append(text.as_str());
        let total = line.as_str().unicode_len();
        if w < total {
            let truncated = line.as_str().substring_char(0, w);
            proof {
                assert(truncated@ =~= welcome_line_spec(width as int, self.version@));
            }
            truncated.to_owned()
        } else {
            line
        }
    }

    /// The text of every display row of one running-state frame, top to
    /// bottom.
    pub fn draw_rows(&self, width: u16, height: u16) -> (lines: Vec<String>)
        requires
            height >= 1,
        ensures
            lines@.len() == height - 1,
            forall|r: int|
                0 <= r < lines@.len() ==> (#[trigger] lines@[r])@ == row_line_spec(
                    r,
                    width,
                    height,
                    self.version@,
                ),
    {
        let rows: usize = (height - 1) as usize;
        let welcome_row: usize = (height / 3) as usize;
        let mut lines: Vec<String> = Vec::new();
        let mut r: usize = 0;
        while r < rows
            invariant
                r <= rows,
                rows == height - 1,
                welcome_row == height as int / 3,
                lines@.len() == r,
                forall|k: int|
                    0 <= k < r ==> (#[trigger] lines@[k])@ == row_line_spec(
                        k,
                        width,
                        height,
                        self.version@,
                    ),
            decreases rows - r,
        {
            if r == welcome_row {
                let mut line = self.draw_welcome_message(width);
                line.append("\r");
                lines.push(line);
            } else {
                lines.push(String::from_str("~\r"));
            }
            r = r + 1;
        }
        lines
    }

    /// Compute what the next refresh paints: the farewell frame once the
    /// quit flag is set, otherwise the drawn rows with the stored cursor.
    pub fn refresh_screen(&self, width: u16, height: u16) -> (frame: Frame)
        requires
            height >= 1,
        ensures
            frame_ok(*self, width, height, frame),
    {
        if self.should_quit {
            Frame::Farewell { text: String::from_str("Goodbye.\r") }
        } else {
            let lines = self.draw_rows(width, height);
            Frame::Screen { lines, cursor: self.cursor_position }
        }
    }

    /// Apply one movement key to the cursor, clamped to the viewport:
    /// decrements saturate at 0, increments stop at the last addressable
    /// cell, and the paging keys jump straight to an edge.
    pub fn move_cursor(&mut self, key: Key, width: u16, height: u16)
        ensures
            final(self).cursor_position.x as int == new_x(
                old(self).cursor_position.x as int,
                key,
                width,
            ),
            final(self).cursor_position.y as int == new_y(
                old(self).cursor_position.y as int,
                key,
                height,
            ),
            final(self).should_quit == old(self).should_quit,
            final(self).version == old(self).version,
    {
        let mut x = self.cursor_position.x;
        let mut y = self.cursor_position.y;
        let height_idx: usize = (if height >= 1 {
            height - 1
        } else {
            0
        }) as usize;
        let width_idx: usize = (if width >= 1 {
            width - 1
        } else {
            0
        }) as usize;
        match key {
            Key::Char(c) => {
                if c == 'k' {
                    y = if y >= 1 {
                        y - 1
                    } else {
                        0
                    };
                } else if c == 'j' {
                    if y < height_idx {
                        y = y + 1;
                    }
                } else if c == 'h' {
                    x = if x >= 1 {
                        x - 1
                    } else {
                        0
                    };
                } else if c == 'l' {
                    if x < width_idx {
                        x = x + 1;
                    }
                }
            },
            Key::PageUp => {
                y = 0;
            },
            Key::PageDown => {
                y = height_idx;
            },
            Key::Home => {
                x = 0;
            },
            Key::End => {
                x = width_idx;
            },
            _ => {},
        }
        self.cursor_position = Position { x, y };
    }

    /// Process one key event: the quit key sets the quit flag, a movement
    /// key moves the cursor, and anything else changes nothing. Returns
    /// whether the key was recognized.
    pub fn process_keypress(&mut self, key: Key, width: u16, height: u16) -> (handled: bool)
        ensures
            handled == (is_quit_key(key) || is_move_key(key)),
            final(self).should_quit == quit_after(old(self).should_quit, key),
            is_quit_key(key) ==> final(self).cursor_position == old(self).cursor_position,
            !is_quit_key(key) ==> final(self).cursor_position.x as int == new_x(
                old(self).cursor_position.x as int,
                key,
                width,
            ),
            !is_quit_key(key) ==> final(self).cursor_position.y as int == new_y(
                old(self).cursor_position.y as int,
                key,
                height,
            ),
            final(self).version == old(self).version,
    {
        match key {
            Key::Ctrl(c) => {
                if c == 'q' {
                    self.should_quit = true;
                    true
                } else {
                    false
                }
            },
            Key::Char(c) => {
                if c == 'h' || c == 'j' || c == 'k' || c == 'l' {
                    self.move_cursor(key, width, height);
                    true
                } else {
                    false
                }
            },
            Key::PageUp => {
                self.move_cursor(key, width, height);
                true
            },
            Key::PageDown => {
                self.move_cursor(key, width, height);
                true
            },
            Key::Home => {
                self.move_cursor(key, width, height);
                true
            },
            Key::End => {
                self.move_cursor(key, width, height);
                true
            },
            Key::Other => false,
        }
    }
}

} // verus!
