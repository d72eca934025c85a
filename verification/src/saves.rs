use vstd::prelude::*;
use vstd::string::*;
use crate::menu::{Options, BORDER_COLOR_COUNT, BORDER_STYLE_COUNT, MAX_TEXT_SPEED};

verus! {

/// `c` is one of the ASCII digits `0`..`9`.
pub open spec fn is_digit(c: char) -> bool {
    48 <= c as int <= 57
}

/// The value of an ASCII digit.
pub open spec fn digit_value(c: char) -> nat {
    (c as int - 48) as nat
}

/// The ASCII digit of a value below ten.
pub open spec fn digit_char(d: nat) -> char {
    ((d + 48) as u8) as char
}

/// The number a string of decimal digits denotes.
pub open spec fn digits_value(s: Seq<char>) -> nat
    decreases s.len(),
{
    if s.len() == 0 {
        0
    } else {
        digits_value(s.drop_last()) * 10 + digit_value(s.last())
    }
}

/// A line with one optional leading `+` dropped.
pub open spec fn without_plus(s: Seq<char>) -> Seq<char> {
    if s.len() > 0 && s[0] == '+' {
        s.drop_first()
    } else {
        s
    }
}

/// The unsigned number a line spells the way Rust's `from_str` for unsigned
/// integers reads it: an optional `+` followed by at least one decimal
/// digit and nothing else. `None` for any other line.
pub open spec fn unsigned_value(s: Seq<char>) -> Option<nat> {
    let d = without_plus(s);
    if d.len() > 0 && (forall|i: int| 0 <= i < d.len() ==> is_digit(#[trigger] d[i])) {
        Some(digits_value(d))
    } else {
        None
    }
}

/// The shortest decimal spelling of `n`.
pub open spec fn decimal(n: nat) -> Seq<char>
    decreases n,
{
    if n < 10 {
        seq![digit_char(n)]
    } else {
        decimal(n / 10).push(digit_char(n % 10))
    }
}

/// Appends one character to a `String` with `String::push`, which the
/// standard library documents as appending the character to the end.
#[verifier::external_body]
fn push_char(s: &mut String, c: char)
    ensures
        final(s)@ == old(s)@.push(c),
{
    s.push(c);
}

proof fn lemma_digits_value_prefix(s: Seq<char>, k: int)
    requires
        0 <= k <= s.len(),
    ensures
        digits_value(s.subrange(0, k)) <= digits_value(s),
    decreases s.len() - k,
{
    if k < s.len() {
        lemma_digits_value_prefix(s, k + 1);
        assert(s.subrange(0, k + 1).drop_last() =~= s.subrange(0, k));
    } else {
        assert(s.subrange(0, k) =~= s);
    }
}

/// Reads an unsigned number as `usize::from_str` does: `None` when the line
/// is not an optional `+` and decimal digits, or when its value does not fit
/// in `usize`.
pub fn parse_usize(line: &str) -> (r: Option<usize>)
    ensures
        r == (match unsigned_value(line@) {
            Some(v) => if v <= usize::MAX { Some(v as usize) } else { None },
            None => None,
        }),
{
    let len = line.unicode_len();
    let mut start: usize = 0;
    if len > 0 && line.get_char(0) == '+' {
        start = 1;
    }
    let ghost d = without_plus(line@);
    assert(d =~= line@.subrange(start as int, len as int));
    if start == len {
        return None;
    }
    let mut acc: usize = 0;
    let mut i: usize = start;
    while i < len
        invariant
            start <= i <= len,
            len == line@.len(),
            d =~= line@.subrange(start as int, len as int),
            d == without_plus(line@),
            forall|j: int| 0 <= j < i - start ==> is_digit(#[trigger] d[j]),
            acc == digits_value(d.subrange(0, i - start)),
        decreases len - i,
    {
        let c = line.get_char(i);
        let code = c as u32;
        if code < 48 || code > 57 {
            assert(d[i - start] == c);
            assert(unsigned_value(line@) is None);
            return None;
        }
        let digit = (code - 48) as usize;
        assert(d.subrange(0, i + 1 - start).drop_last() =~= d.subrange(0, i - start));
        match acc.checked_mul(10) {
            Some(m) => match m.checked_add(digit) {
                Some(v) => {
                    acc = v;
                },
                None => {
                    proof {
                        lemma_digits_value_prefix(d, i + 1 - start);
                        assert(digits_value(d.subrange(0, i + 1 - start)) > usize::MAX);
                    }
                    return None;
                },
            },
            None => {
                proof {
                    lemma_digits_value_prefix(d, i + 1 - start);
                    assert(digits_value(d.subrange(0, i + 1 - start)) > usize::MAX);
                }
                return None;
            },
        }
        i = i + 1;
    }
    assert(d.subrange(0, len - start) =~= d);
    Some(acc)
}


fn write_decimal(n: usize, out: &mut String)
    ensures
        final(out)@ == old(out)@ + decimal(n as nat),
    decreases n,
{
    if n >= 10 {
        write_decimal(n / 10, out);
    }
    let d = n % 10;
    push_char(out, ((d + 48) as u8) as char);
    proof {
        if n >= 10 {
            assert(old(out)@ + decimal(n as nat) =~= old(out)@ + decimal((n / 10) as nat) + seq![
                digit_char((n % 10) as nat),
            ]);
        }
    }
}

/// Writes `n` in decimal, as `usize::to_string` does.
pub fn decimal_string(n: usize) -> (s: String)
    ensures
        s@ == decimal(n as nat),
{
    let mut s = String::new();
    write_decimal(n, &mut s);
    assert(s@ =~= decimal(n as nat));
    s
}

/// A decimal spelling is read back as the number it spells.
pub proof fn lemma_decimal_reads_back(n: nat)
    ensures
        unsigned_value(decimal(n)) == Some(n),
        decimal(n).len() > 0,
        forall|i: int| 0 <= i < decimal(n).len() ==> is_digit(#[trigger] decimal(n)[i]),
        digits_value(decimal(n)) == n,
    decreases n,
{
    if n < 10 {
        assert((((n + 48) as u8) as char) as int == n + 48);
        assert(decimal(n).drop_last() =~= Seq::<char>::empty());
        assert(digit_value(decimal(n).last()) == n);
        assert(digits_value(Seq::<char>::empty()) == 0);
        assert(digits_value(decimal(n)) == n);
    } else {
        let d = n % 10;
        assert((((d + 48) as u8) as char) as int == d + 48);
        lemma_decimal_reads_back(n / 10);
        assert(decimal(n).drop_last() =~= decimal(n / 10));
        assert(digit_value(decimal(n).last()) == d);
        assert(forall|i: int| 0 <= i < decimal(n).len() - 1 ==> decimal(n)[i] == decimal(n / 10)[i]);
        assert(digits_value(decimal(n)) == digits_value(decimal(n / 10)) * 10 + d);
        assert((n / 10) * 10 + n % 10 == n) by (nonlinear_arith);
    }
    assert(decimal(n)[0] != '+');
    assert(without_plus(decimal(n)) == decimal(n));
}

/// The options after reading line `index` of a save file: line 0 holds the
/// frame colour, line 1 the frame style, line 2 the text speed (larger
/// speeds are read as the highest). A line that does not hold a fitting
/// number leaves its option as it was, and so do the other lines (line 3,
/// the volume, is read by the caller).
pub open spec fn options_after_line(o: Options, index: int, line: Seq<char>) -> Options {
    let v = unsigned_value(line);
    if index == 0 {
        if v is Some && v->0 < BORDER_COLOR_COUNT {
            Options { frame_color_index: v->0 as usize, ..o }
        } else {
            o
        }
    } else if index == 1 {
        if v is Some && v->0 < BORDER_STYLE_COUNT {
            Options { frame_style_index: v->0 as usize, ..o }
        } else {
            o
        }
    } else if index == 2 {
        if v is Some && v->0 <= u8::MAX {
            Options { text_speed: if v->0 <= 5 { v->0 as u8 } else { 5 }, ..o }
        } else {
            o
        }
    } else {
        o
    }
}

/// The options after reading the lines of a save file in order.
pub open spec fn options_after_lines(o: Options, lines: Seq<Seq<char>>) -> Options
    decreases lines.len(),
{
    if lines.len() == 0 {
        o
    } else {
        options_after_line(
            options_after_lines(o, lines.drop_last()),
            lines.len() - 1,
            lines.last(),
        )
    }
}

/// The characters of each line.
pub open spec fn lines_view(lines: Seq<String>) -> Seq<Seq<char>> {
    lines.map_values(|l: String| l@)
}

impl Options {
    /// The save file's lines for the frame colour, the frame style and the
    /// text speed, each in decimal.
    pub fn save_lines(&self) -> (lines: Vec<String>)
        ensures
            lines@.len() == 3,
            lines@[0]@ == decimal(self.frame_color_index as nat),
            lines@[1]@ == decimal(self.frame_style_index as nat),
            lines@[2]@ == decimal(self.text_speed as nat),
    {
        let mut lines: Vec<String> = Vec::new();
        lines.push(decimal_string(self.frame_color_index));
        lines.push(decimal_string(self.frame_style_index));
        lines.push(decimal_string(self.text_speed as usize));
        lines
    }

    /// Reads line `index` of a save file into these options.
    pub fn load_line(&mut self, index: usize, line: &str)
        ensures
            *final(self) == options_after_line(*old(self), index as int, line@),
    {
        if index == 0 {
            match parse_usize(line) {
                Some(num) => {
                    if num < BORDER_COLOR_COUNT {
                        self.set_frame_color(num);
                    }
                },
                None => {},
            }
        } else if index == 1 {
            match parse_usize(line) {
                Some(num) => {
                    if num < BORDER_STYLE_COUNT {
                        self.set_frame_style(num);
                    }
                },
                None => {},
            }
        } else if index == 2 {
            match parse_usize(line) {
                Some(num) => {
                    if num <= 255 {
                        let speed = num as u8;
                        self.set_text_speed(if speed <= MAX_TEXT_SPEED { speed } else { MAX_TEXT_SPEED });
                    }
                },
                None => {},
            }
        }
    }

    /// Reads the lines of a save file, in order, into these options.
    pub fn load_lines(&mut self, lines: &Vec<String>)
        ensures
            *final(self) == options_after_lines(*old(self), lines_view(lines@)),
    {
        let n = lines.len();
        let mut i: usize = 0;
        while i < n
            invariant
                i <= n,
                n == lines@.len(),
                *self == options_after_lines(*old(self), lines_view(lines@).subrange(0, i as int)),
            decreases n - i,
        {
            let ghost before = *self;
            self.load_line(i, lines[i].as_str());
            assert(lines_view(lines@).subrange(0, i + 1).drop_last() =~= lines_view(lines@).subrange(
                0,
                i as int,
            ));
            i = i + 1;
        }
        assert(lines_view(lines@).subrange(0, n as int) =~= lines_view(lines@));
    }
}

/// What a save gives back: reading the lines written for valid options
/// restores their frame colour, frame style and text speed, whatever options
/// the reading starts from (the volume is not among these lines).
pub proof fn lemma_save_then_load(o: Options, base: Options, lines: Seq<String>)
    requires
        o.frame_color_index < BORDER_COLOR_COUNT,
        o.frame_style_index < BORDER_STYLE_COUNT,
        o.text_speed <= MAX_TEXT_SPEED,
        lines.len() == 3,
        lines[0]@ == decimal(o.frame_color_index as nat),
        lines[1]@ == decimal(o.frame_style_index as nat),
        lines[2]@ == decimal(o.text_speed as nat),
    ensures
        options_after_lines(base, lines_view(lines)) == (Options {
            master_volume: base.master_volume,
            ..o
        }),
{
    let v = lines_view(lines);
    lemma_decimal_reads_back(o.frame_color_index as nat);
    lemma_decimal_reads_back(o.frame_style_index as nat);
    lemma_decimal_reads_back(o.text_speed as nat);
    assert(v.drop_last().drop_last().drop_last() =~= Seq::<Seq<char>>::empty());
    assert(v.drop_last().drop_last().last() == lines[0]@);
    assert(v.drop_last().last() == lines[1]@);
    assert(v.last() == lines[2]@);
    reveal_with_fuel(options_after_lines, 4);
}

} // verus!
