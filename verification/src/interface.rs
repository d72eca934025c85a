use vstd::prelude::*;
use vstd::string::*;
use vstd::utf8::*;

verus! {

/// Column where dialog text starts.
pub const DIALOG_LEFT: u16 = 3;

/// Widest a dialog line may grow (the terminal width, 80, less 4).
pub const DIALOG_LINE_LENGTH: usize = 76;

/// Number of text lines of the dialog box.
pub const DIALOG_LINES: u16 = 3;

/// Pause before a new page of dialog, in milliseconds.
pub const PAGE_PAUSE_MS: u64 = 1300;

/// Milliseconds to wait between two characters of scrolling text at the
/// given text speed: `1000 / ((speed + 5) * 2)`.
pub fn calc_text_rate(text_speed: u8) -> (r: u64)
    ensures
        r == 1000int / ((text_speed as int + 5) * 2),
{
    1000 / ((text_speed as u64 + 5) * 2)
}

/// How many characters follow position `k` of `t` before the next space or
/// the end of the text: the length of the word about to start after a space.
pub open spec fn word_after(t: Seq<char>, k: int) -> nat
    decreases t.len() - k,
{
    if k + 1 >= t.len() || k + 1 < 0 || t[k + 1] == ' ' {
        0
    } else {
        1 + word_after(t, k + 1)
    }
}

/// The state of a dialog box as the contracts see it.
pub struct DialogState {
    /// Characters of the current page: what is left of the message, from
    /// the byte at which the page began (the whole message on the first
    /// page).
    pub text: Seq<char>,
    /// Byte length of the speaker's name; 0 once the first page is done.
    pub speaker_len: nat,
    /// Index in `text` of the next character to print.
    pub char_idx: int,
    /// Column of the next character, relative to the box's left edge.
    pub in_line_position: int,
    /// Line of the box the next character goes to.
    pub which_line: int,
    /// Row of the box's first line.
    pub y_top: int,
    /// Row of the box's last line.
    pub y_bottom: int,
    /// Milliseconds between two characters.
    pub timeout: int,
    /// Characters are left to print.
    pub open: bool,
}

/// A dialog box printing its text one character at a time.
pub struct DialogBox {
    text: String,
    chars: Vec<char>,
    byte_len: usize,
    speaker_len: usize,
    char_idx: usize,
    in_line_position: usize,
    which_line: u16,
    y_top: u16,
    y_bottom: u16,
    timeout: u64,
    open: bool,
}

impl View for DialogBox {
    type V = DialogState;

    closed spec fn view(&self) -> DialogState {
        DialogState {
            text: self.chars@,
            speaker_len: self.speaker_len as nat,
            char_idx: self.char_idx as int,
            in_line_position: self.in_line_position as int,
            which_line: self.which_line as int,
            y_top: self.y_top as int,
            y_bottom: self.y_bottom as int,
            timeout: self.timeout as int,
            open: self.open,
        }
    }
}

/// What one step of the dialog box asks its caller to show.
#[derive(Debug, Clone, Copy, PartialEq, Eq, Structural)]
pub struct DialogFrame {
    /// Print the speaker's name and ": " first, at column `DIALOG_LEFT` of
    /// row `speaker_y`.
    pub show_speaker: bool,
    pub speaker_y: u16,
    /// Do not print before this many milliseconds since the page began.
    pub wait_until_ms: u64,
    /// The character to print.
    pub ch: char,
    /// Column of the character.
    pub x: u16,
    /// Row of the character.
    pub y: u16,
    /// After printing: pause, clear the rows `clear_from..=clear_to` and
    /// start the page clock again.
    pub page_break: bool,
    pub clear_from: u16,
    pub clear_to: u16,
}

/// The speaker's name and ": " come first on the first line of the first
/// page.
pub open spec fn shows_speaker(s: DialogState) -> bool {
    s.which_line == 0 && s.speaker_len > 0 && s.in_line_position == 0
}

/// Column of the printed character, relative to the box's left edge.
pub open spec fn column_before(s: DialogState) -> int {
    if shows_speaker(s) {
        s.in_line_position + 2 + s.speaker_len
    } else {
        s.in_line_position
    }
}

/// The length of the word that follows the printed character if it is a
/// space, else 0.
pub open spec fn next_word(s: DialogState) -> nat {
    if s.text[s.char_idx] == ' ' {
        word_after(s.text, s.char_idx)
    } else {
        0
    }
}

/// The printed character ends its line: the word after it does not fit, or
/// the line is full.
pub open spec fn breaks_line(s: DialogState) -> bool {
    let col = column_before(s) + 1;
    (next_word(s) > 0 && col + next_word(s) > DIALOG_LINE_LENGTH) || col > DIALOG_LINE_LENGTH
}

/// Line and column of the next character, before a page break.
pub open spec fn line_after(s: DialogState) -> int {
    if breaks_line(s) {
        s.which_line + 1
    } else {
        s.which_line
    }
}

pub open spec fn position_after(s: DialogState) -> int {
    if breaks_line(s) {
        0
    } else {
        column_before(s) + 1
    }
}

/// The box is full: the next character would start at the last column of
/// the last line, so a new page begins.
pub open spec fn breaks_page(s: DialogState) -> bool {
    line_after(s) == DIALOG_LINES - 1 && position_after(s) == DIALOG_LINE_LENGTH
}

/// Column of the printed character on screen; the relative column is cut
/// to 16 bits as the screen coordinates are.
pub open spec fn screen_x(s: DialogState) -> int {
    DIALOG_LEFT + (column_before(s) as u16)
}

/// What one step shows.
pub open spec fn dialog_frame(s: DialogState) -> DialogFrame {
    DialogFrame {
        show_speaker: shows_speaker(s),
        speaker_y: s.y_top as u16,
        wait_until_ms: (s.timeout * s.char_idx) as u64,
        ch: s.text[s.char_idx],
        x: screen_x(s) as u16,
        y: (s.y_top + s.which_line) as u16,
        page_break: breaks_page(s),
        clear_from: if breaks_page(s) { (s.y_top - 1) as u16 } else { 0 },
        clear_to: (s.y_bottom + 1) as u16,
    }
}

/// Byte length of the current page's text; a page ends when the index of
/// the next character reaches it.
pub open spec fn byte_len(s: DialogState) -> int {
    encode_utf8(s.text).len() as int
}

/// The text of the next page: what follows the byte whose number is the
/// index of the character just printed.
pub open spec fn next_page_text(s: DialogState) -> Seq<char> {
    decode_utf8(encode_utf8(s.text).subrange(s.char_idx, byte_len(s)))
}

/// The state after one step.
pub open spec fn dialog_next(s: DialogState) -> DialogState {
    if breaks_page(s) {
        DialogState {
            text: next_page_text(s),
            speaker_len: 0,
            char_idx: 1,
            in_line_position: 0,
            which_line: 0,
            open: 1 < byte_len(s) - s.char_idx,
            ..s
        }
    } else {
        DialogState {
            char_idx: s.char_idx + 1,
            in_line_position: position_after(s),
            which_line: line_after(s),
            open: s.char_idx + 1 < byte_len(s),
            ..s
        }
    }
}

/// A step of `s` is defined: the next character exists, a new page starts
/// at a character boundary, and the character's row and column, the line
/// count, the wait and, at a page break, the rows to clear stay within what
/// their integer types hold.
pub open spec fn step_fits(s: DialogState) -> bool {
    &&& 0 <= s.char_idx < s.text.len()
    &&& breaks_page(s) ==> is_char_boundary(encode_utf8(s.text), s.char_idx)
    &&& s.timeout * s.char_idx <= u64::MAX
    &&& screen_x(s) <= u16::MAX
    &&& s.y_top + s.which_line <= u16::MAX
    &&& breaks_line(s) ==> s.which_line < u16::MAX
    &&& breaks_page(s) ==> s.y_top >= 1
}

impl DialogBox {
    /// The characters and the byte length are those of the page's text.
    pub closed spec fn wf(&self) -> bool {
        &&& self.chars@ == self.text@
        &&& self.byte_len == encode_utf8(self.text@).len()
        &&& encode_utf8(self.text@).len() <= usize::MAX
        &&& self.open ==> self.char_idx < self.byte_len
        &&& self.y_bottom == self.y_top + DIALOG_LINES
        &&& self.y_bottom < u16::MAX
        &&& self.in_line_position <= DIALOG_LINE_LENGTH
        &&& self.speaker_len < isize::MAX
    }

    /// Characters are left to print.
    pub fn is_open(&self) -> (r: bool)
        ensures
            r == self@.open,
    {
        self.open
    }

    /// Opens a dialog box for `text`, said by a speaker whose name is
    /// `speaker`, on a terminal `term_height` rows high, waiting `timeout`
    /// milliseconds between characters. The box's three lines are the rows
    /// just above the last one.
    pub fn new(text: &str, speaker: &str, timeout: u64, term_height: u16) -> (b: DialogBox)
        requires
            text@.len() > 0,
            text.spec_bytes().len() <= usize::MAX,
            term_height >= DIALOG_LINES + 1,
            speaker.len() < isize::MAX,
        ensures
            b.wf(),
            b@ == (DialogState {
                text: text@,
                speaker_len: speaker.len() as nat,
                char_idx: 0,
                in_line_position: 0,
                which_line: 0,
                y_top: term_height - DIALOG_LINES - 1,
                y_bottom: term_height - 1,
                timeout: timeout as int,
                open: true,
            }),
    {
        let owned = String::from_str(text);
        let chars = Self::chars_of(owned.as_str());
        let byte_len = owned.as_str().len();
        proof {
            encode_utf8_valid_utf8(text@);
            encode_utf8_decode_utf8(text@);
            if encode_utf8(text@).len() == 0 {
                assert(decode_utf8(encode_utf8(text@)) =~= Seq::<char>::empty());
            }
        }
        DialogBox {
            text: owned,
            chars,
            byte_len,
            speaker_len: speaker.len(),
            char_idx: 0,
            in_line_position: 0,
            which_line: 0,
            y_top: term_height - DIALOG_LINES - 1,
            y_bottom: term_height - 1,
            timeout,
            open: true,
        }
    }

    /// The characters of `text`, in order.
    fn chars_of(text: &str) -> (chars: Vec<char>)
        ensures
            chars@ == text@,
    {
        let n = text.unicode_len();
        let mut chars: Vec<char> = Vec::new();
        let mut i: usize = 0;
        while i < n
            invariant
                i <= n,
                n == text@.len(),
                chars@ == text@.subrange(0, i as int),
            decreases n - i,
        {
            chars.push(text.get_char(i));
            i = i + 1;
            assert(chars@ =~= text@.subrange(0, i as int));
        }
        assert(chars@ =~= text@);
        chars
    }

    /// Length of the word that starts after position `k`.
    fn word_length_after(&self, k: usize) -> (r: usize)
        requires
            k < self.chars@.len(),
        ensures
            r == word_after(self.chars@, k as int),
    {
        let n = self.chars.len();
        let mut j: usize = n;
        let mut count: usize = 0;
        // Walk back from the end so that each count extends the word after
        // the position before it.
        while j > k + 1
            invariant
                k + 1 <= j <= n,
                n == self.chars@.len(),
                k < n,
                count == word_after(self.chars@, j as int - 1),
                count <= n - j,
            decreases j,
        {
            j = j - 1;
            if self.chars[j] == ' ' {
                count = 0;
            } else {
                count = count + 1;
            }
        }
        count
    }

    /// Where the next character goes: whether the speaker's name comes
    /// first, the character's column, whether it ends its line, and whether
    /// it ends the page.
    fn plan(&self) -> (p: (bool, usize, bool, bool))
        requires
            self.wf(),
            self@.char_idx < self@.text.len(),
        ensures
            p.0 == shows_speaker(self@),
            p.1 == column_before(self@),
            p.2 == breaks_line(self@),
            p.3 == breaks_page(self@),
    {
        let shows = self.which_line == 0 && self.speaker_len > 0 && self.in_line_position == 0;
        let column = if shows {
            self.in_line_position + 2 + self.speaker_len
        } else {
            self.in_line_position
        };
        let word = if self.chars[self.char_idx] == ' ' {
            self.word_length_after(self.char_idx)
        } else {
            0
        };
        let after = column + 1;
        let breaks = (word > 0 && (after > DIALOG_LINE_LENGTH || word > DIALOG_LINE_LENGTH - after))
            || after > DIALOG_LINE_LENGTH;
        let page = !breaks && self.which_line == DIALOG_LINES - 1 && after == DIALOG_LINE_LENGTH;
        (shows, column, breaks, page)
    }

    /// The next step is defined (see `step_fits`): the caller checks this
    /// before `step`.
    pub fn step_defined(&self) -> (r: bool)
        requires
            self.wf(),
        ensures
            r == step_fits(self@),
    {
        if self.char_idx >= self.chars.len() {
            return false;
        }
        let (_, column, breaks, page) = self.plan();
        let x_fits = (column as u16) <= u16::MAX - DIALOG_LEFT;
        let y_fits = self.which_line <= u16::MAX - self.y_top;
        let wait_fits = self.char_idx == 0 || self.timeout <= u64::MAX / (self.char_idx as u64);
        proof {
            if self.char_idx > 0 {
                let t = self.timeout as int;
                let c = self.char_idx as int;
                let q = u64::MAX as int / c;
                assert(t <= q ==> t * c <= u64::MAX) by (nonlinear_arith)
                    requires
                        c > 0,
                        q == u64::MAX as int / c,
                ;
                assert(t > q ==> t * c > u64::MAX) by (nonlinear_arith)
                    requires
                        c > 0,
                        q == u64::MAX as int / c,
                ;
            }
        }
        let line_fits = !breaks || self.which_line < u16::MAX;
        let page_fits = !page || (self.y_top >= 1 && self.text.as_str().is_char_boundary(
            self.char_idx,
        ));
        x_fits && y_fits && wait_fits && line_fits && page_fits
    }

    /// Prints the next character: returns where and when, and moves on to
    /// the character after it, starting a new page once the box is full.
    pub fn step(&mut self) -> (f: DialogFrame)
        requires
            old(self).wf(),
            old(self)@.open,
            step_fits(old(self)@),
        ensures
            final(self).wf(),
            f == dialog_frame(old(self)@),
            final(self)@ == dialog_next(old(self)@),
    {
        let (shows, column, breaks, page_break) = self.plan();
        let ch = self.chars[self.char_idx];
        let x = DIALOG_LEFT + (column as u16);
        let y = self.y_top + self.which_line;
        let wait = self.timeout * (self.char_idx as u64);
        if breaks {
            self.in_line_position = 0;
            self.which_line = self.which_line + 1;
        } else {
            self.in_line_position = column + 1;
        }
        let frame = DialogFrame {
            show_speaker: shows,
            speaker_y: self.y_top,
            wait_until_ms: wait,
            ch,
            x,
            y,
            page_break,
            clear_from: if page_break { self.y_top - 1 } else { 0 },
            clear_to: self.y_bottom + 1,
        };
        if page_break {
            let ghost bytes = encode_utf8(self.text@);
            let rest = String::from_str(self.text.as_str().split_at(self.char_idx).1);
            proof {
                assert(rest@ == decode_utf8(bytes.subrange(self.char_idx as int, bytes.len() as int))) by {
                    encode_utf8_decode_utf8(rest@);
                }
            }
            self.chars = Self::chars_of(rest.as_str());
            self.byte_len = rest.as_str().len();
            self.text = rest;
            self.speaker_len = 0;
            self.which_line = 0;
            self.in_line_position = 0;
            self.char_idx = 1;
            self.open = 1 < self.byte_len;
        } else {
            self.char_idx = self.char_idx + 1;
            self.open = self.char_idx < self.byte_len;
        }
        frame
    }
}

/// The ranges of a dialog box's state: the screen coordinates fit 16 bits,
/// the wait per character fits 64 bits, the box's last row is three below
/// its first, and the next column is at most the line length.
pub proof fn lemma_dialog_view_ranges(b: DialogBox)
    requires
        b.wf(),
    ensures
        0 <= b@.y_top < u16::MAX,
        b@.y_bottom == b@.y_top + DIALOG_LINES,
        b@.y_bottom < u16::MAX,
        0 <= b@.which_line <= u16::MAX,
        0 <= b@.timeout <= u64::MAX,
        0 <= b@.char_idx <= usize::MAX,
        0 <= b@.in_line_position <= DIALOG_LINE_LENGTH,
        b@.speaker_len < isize::MAX,
        b@.open ==> b@.char_idx < byte_len(b@),
{
}

/// The word that follows position `k` has `w` characters: the `w`
/// characters after `k` are not spaces, and after them comes a space or the
/// end of the text.
pub open spec fn word_of_length(t: Seq<char>, k: int, w: int) -> bool {
    &&& 0 <= k
    &&& 0 <= w
    &&& k + w < t.len()
    &&& forall|j: int| k < j <= k + w ==> t[j] != ' '
    &&& (k + w + 1 == t.len() || t[k + w + 1] == ' ')
}

proof fn lemma_word_after_counts(t: Seq<char>, k: int, w: int)
    requires
        word_of_length(t, k, w),
    ensures
        word_after(t, k) == w,
    decreases w,
{
    if w > 0 {
        assert(t[k + 1] != ' ');
        lemma_word_after_counts(t, k + 1, w - 1);
    }
}

/// Word wrap: when the character printed is a space and the word after it
/// (of `w` letters) would run past the end of the line, the next character
/// starts the next line at its left edge; when the word fits, the line goes
/// on right after the space. A character that is not a space ends its line
/// only when the line is full.
pub proof fn lemma_dialog_wraps_words(s: DialogState, w: int)
    requires
        0 <= s.char_idx < s.text.len(),
        0 <= s.in_line_position <= DIALOG_LINE_LENGTH,
        s.speaker_len <= DIALOG_LINE_LENGTH - 2,
    ensures
        s.text[s.char_idx] == ' ' && w > 0 && word_of_length(s.text, s.char_idx, w)
            && column_before(s) + 1 + w > DIALOG_LINE_LENGTH ==> dialog_next(s).in_line_position
            == 0 && dialog_next(s).which_line == s.which_line + 1,
        s.text[s.char_idx] == ' ' && word_of_length(s.text, s.char_idx, w) && column_before(s) + 1
            + w <= DIALOG_LINE_LENGTH && !breaks_page(s) ==> dialog_next(s).in_line_position
            == column_before(s) + 1 && dialog_next(s).which_line == s.which_line,
        s.text[s.char_idx] != ' ' && column_before(s) + 1 <= DIALOG_LINE_LENGTH && !breaks_page(s)
            ==> dialog_next(s).in_line_position == column_before(s) + 1 && dialog_next(s).which_line
            == s.which_line,
        s.text[s.char_idx] != ' ' && column_before(s) + 1 > DIALOG_LINE_LENGTH ==> dialog_next(
            s,
        ).in_line_position == 0 && dialog_next(s).which_line == s.which_line + 1,
{
    if word_of_length(s.text, s.char_idx, w) {
        lemma_word_after_counts(s.text, s.char_idx, w);
    }
}

/// Dialog text stays inside the 80-column terminal: while the speaker's
/// name leaves room on its line (at most 74 bytes), every character is
/// printed at a column below 80, and the box keeps that property.
pub proof fn lemma_dialog_stays_within_width(s: DialogState)
    requires
        0 <= s.in_line_position <= DIALOG_LINE_LENGTH,
        s.speaker_len <= DIALOG_LINE_LENGTH - 2,
        0 <= s.char_idx < s.text.len(),
    ensures
        dialog_frame(s).x < 80,
        0 <= dialog_next(s).in_line_position <= DIALOG_LINE_LENGTH,
        dialog_next(s).speaker_len <= DIALOG_LINE_LENGTH - 2,
{
}

/// The encoding of a slice of an ASCII text is the slice of its encoding.
proof fn lemma_ascii_encoding_slices(t: Seq<char>, k: int)
    requires
        is_ascii_chars(t),
        0 <= k <= t.len(),
    ensures
        encode_utf8(t).len() == t.len(),
        encode_utf8(t).subrange(k, t.len() as int) == encode_utf8(t.subrange(k, t.len() as int)),
        decode_utf8(encode_utf8(t).subrange(k, t.len() as int)) == t.subrange(k, t.len() as int),
        is_ascii_chars(t.subrange(k, t.len() as int)),
{
    let r = t.subrange(k, t.len() as int);
    assert(is_ascii_chars(r));
    is_ascii_chars_encode_utf8(t);
    is_ascii_chars_encode_utf8(r);
    assert(encode_utf8(t).subrange(k, t.len() as int) =~= encode_utf8(r));
    encode_utf8_decode_utf8(r);
}

/// An ASCII message is printed in order, each character once: a step prints
/// the character at the current index, the next step prints the one after
/// it (also across a page break), and the box closes right after the last
/// one. (With other characters, byte and character positions part ways.)
pub proof fn lemma_dialog_prints_in_order(s: DialogState)
    requires
        0 <= s.char_idx < s.text.len(),
        is_ascii_chars(s.text),
    ensures
        dialog_frame(s).ch == s.text[s.char_idx],
        dialog_next(s).open <==> s.char_idx + 1 < s.text.len(),
        dialog_next(s).open ==> 0 <= dialog_next(s).char_idx < dialog_next(s).text.len()
            && dialog_next(s).text[dialog_next(s).char_idx] == s.text[s.char_idx + 1],
        dialog_next(s).text.len() - dialog_next(s).char_idx == s.text.len() - s.char_idx - 1,
        is_ascii_chars(dialog_next(s).text),
{
    lemma_ascii_encoding_slices(s.text, s.char_idx);
}

/// A new page starts on the box's first line, at its left edge, without the
/// speaker's name.
pub proof fn lemma_dialog_page_restarts(s: DialogState)
    requires
        breaks_page(s),
        0 <= s.char_idx < s.text.len(),
    ensures
        dialog_next(s).which_line == 0,
        dialog_next(s).in_line_position == 0,
        dialog_next(s).speaker_len == 0,
        !shows_speaker(dialog_next(s)),
{
}

} // verus!
