//! The grammar of a file of handwritten words, as functions on a sequence of
//! characters and a position in it.
//!
//! A file is a run of words. A word is any number of comment lines, the
//! keyword `WORD`, what the word reads, who wrote it up to the end of the
//! line, and its strokes. The strokes are the keyword `NUMSTROKES` with a
//! count, and one `POINTS` line per stroke: a count, a `#`, and the
//! coordinates of the points as whole numbers, column before row.

use vstd::prelude::*;
use crate::unipen::Point;

verus! {

/// The kinds of characters that a run is made of.
#[derive(Clone, Copy, Debug, PartialEq, Eq, Structural)]
pub enum Class {
    /// A space, a tab, a carriage return or a line feed.
    Space,
    /// A decimal digit.
    Digit,
    /// Anything but a space.
    Solid,
    /// Anything but a carriage return and a line feed.
    Text,
}

pub open spec fn is_space(c: char) -> bool {
    c == ' ' || c == '\t' || c == '\r' || c == '\n'
}

pub open spec fn is_digit(c: char) -> bool {
    '0' <= c <= '9'
}

pub open spec fn in_class(class: Class, c: char) -> bool {
    match class {
        Class::Space => is_space(c),
        Class::Digit => is_digit(c),
        Class::Solid => c != ' ',
        Class::Text => c != '\r' && c != '\n',
    }
}

/// Where the longest run of characters of one class that starts at `i` ends.
pub open spec fn run_end(s: Seq<char>, i: int, class: Class) -> int
    decreases s.len() - i,
{
    if 0 <= i < s.len() && in_class(class, s[i]) {
        run_end(s, i + 1, class)
    } else {
        i
    }
}

/// Whether the characters of `tag` stand at `i`.
pub open spec fn has_tag(s: Seq<char>, i: int, tag: Seq<char>) -> bool {
    &&& 0 <= i
    &&& i + tag.len() <= s.len()
    &&& forall|k: int| 0 <= k < tag.len() ==> s[i + k] == #[trigger] tag[k]
}

/// The number that the digits from `i` up to `j` write.
pub open spec fn digits_value(s: Seq<char>, i: int, j: int) -> nat
    decreases j - i,
{
    if j <= i {
        0
    } else {
        digits_value(s, i, j - 1) * 10 + (s[j - 1] as u32 - '0' as u32) as nat
    }
}

/// A number without a sign at `i`, if one stands there and is at most `max`:
/// where it ends, and its value.
pub open spec fn number_at(s: Seq<char>, i: int, max: nat) -> Option<(int, nat)> {
    let end = run_end(s, i, Class::Digit);
    if end > i && digits_value(s, i, end) <= max {
        Some((end, digits_value(s, i, end)))
    } else {
        None
    }
}

/// A whole number at `i`, with a minus sign or without, if one stands there
/// and fits in sixteen bits: where it ends, and its value.
pub open spec fn int_at(s: Seq<char>, i: int) -> Option<(int, i16)> {
    if 0 <= i < s.len() && s[i] == '-' {
        match number_at(s, i + 1, 32768) {
            Some((end, value)) => Some((end, (-value) as i16)),
            None => None,
        }
    } else {
        match number_at(s, i, 32767) {
            Some((end, value)) => Some((end, value as i16)),
            None => None,
        }
    }
}

/// The whole numbers that follow a number that ended at `i`, each after a
/// run of space: where the last of them ends, and their values.
pub open spec fn ints_after(s: Seq<char>, i: int) -> (int, Seq<i16>)
    decreases s.len() - i,
{
    let next = run_end(s, i, Class::Space);
    if next > i {
        match int_at(s, next) {
            Some((end, value)) => if end > i && end <= s.len() {
                let rest = ints_after(s, end);
                (rest.0, seq![value] + rest.1)
            } else {
                (i, Seq::empty())
            },
            None => (i, Seq::empty()),
        }
    } else {
        (i, Seq::empty())
    }
}

/// The whole numbers from `i` on, with runs of space between them: where the
/// last of them ends, and their values. There may be none.
pub open spec fn ints_at(s: Seq<char>, i: int) -> (int, Seq<i16>) {
    match int_at(s, i) {
        Some((end, value)) => {
            let rest = ints_after(s, end);
            (rest.0, seq![value] + rest.1)
        },
        None => (i, Seq::empty()),
    }
}

/// The points that a row of numbers writes: the numbers two by two, column
/// before row. A last number without a partner is dropped.
pub open spec fn paired(values: Seq<i16>) -> Seq<Point> {
    Seq::new(values.len() / 2, |k: int| Point { x: values[2 * k], y: values[2 * k + 1] })
}

/// The count of a `POINTS` line at `i`: where the `#` after it ends, and the
/// count.
pub open spec fn points_count_at(s: Seq<char>, i: int) -> Option<(int, u16)> {
    let a = run_end(s, i, Class::Space);
    if has_tag(s, a, seq!['P', 'O', 'I', 'N', 'T', 'S']) {
        let b = a + 6;
        let c = run_end(s, b, Class::Space);
        if c > b {
            match number_at(s, c, 65535) {
                Some((d, count)) => {
                    let e = run_end(s, d, Class::Space);
                    if e > d && has_tag(s, e, seq!['#']) {
                        Some((e + 1, count as u16))
                    } else {
                        None
                    }
                },
                None => None,
            }
        } else {
            None
        }
    } else {
        None
    }
}

/// The stroke of a `POINTS` line at `i`: where its last number ends, and its
/// points. The count of the line does not limit them.
pub open spec fn points_at(s: Seq<char>, i: int) -> Option<(int, Seq<Point>)> {
    match points_count_at(s, i) {
        Some((j, _)) => {
            let ints = ints_at(s, run_end(s, j, Class::Space));
            Some((ints.0, paired(ints.1)))
        },
        None => None,
    }
}

/// The count of a `NUMSTROKES` line at `i`: where it ends, and the count.
pub open spec fn strokes_count_at(s: Seq<char>, i: int) -> Option<(int, u8)> {
    let a = run_end(s, i, Class::Space);
    if has_tag(s, a, seq!['N', 'U', 'M', 'S', 'T', 'R', 'O', 'K', 'E', 'S']) {
        let b = a + 10;
        let c = run_end(s, b, Class::Space);
        if c > b {
            match number_at(s, c, 255) {
                Some((d, count)) => Some((d, count as u8)),
                None => None,
            }
        } else {
            None
        }
    } else {
        None
    }
}

/// The strokes that follow a stroke that ended at `i`, each after a run of
/// space: where the last of them ends, and their points.
pub open spec fn strokes_after(s: Seq<char>, i: int) -> (int, Seq<Seq<Point>>)
    decreases s.len() - i,
{
    let next = run_end(s, i, Class::Space);
    if next > i {
        match points_at(s, next) {
            Some((end, points)) => if end > i && end <= s.len() {
                let rest = strokes_after(s, end);
                (rest.0, seq![points] + rest.1)
            } else {
                (i, Seq::empty())
            },
            None => (i, Seq::empty()),
        }
    } else {
        (i, Seq::empty())
    }
}

/// The strokes of a word at `i`: the `NUMSTROKES` line, then the `POINTS`
/// lines with runs of space between them. The count does not limit them.
pub open spec fn strokes_at(s: Seq<char>, i: int) -> Option<(int, Seq<Seq<Point>>)> {
    match strokes_count_at(s, i) {
        Some((j, _)) => {
            let k = run_end(s, j, Class::Space);
            match points_at(s, k) {
                Some((end, points)) => {
                    let rest = strokes_after(s, end);
                    Some((rest.0, seq![points] + rest.1))
                },
                None => Some((k, Seq::empty())),
            }
        },
        None => None,
    }
}

/// The rest of a line from `i`: where it ends, before the line's end. A
/// carriage return that no line feed follows is no end of a line, and a line
/// that holds one is refused.
pub open spec fn line_at(s: Seq<char>, i: int) -> Option<int> {
    let j = run_end(s, i, Class::Text);
    if 0 <= j < s.len() && s[j] == '\r' && !(j + 1 < s.len() && s[j + 1] == '\n') {
        None
    } else {
        Some(j)
    }
}

/// The end of a line at `i`, a line feed or a carriage return and a line
/// feed: where the next line starts.
pub open spec fn line_ending_at(s: Seq<char>, i: int) -> Option<int> {
    if 0 <= i < s.len() && s[i] == '\n' {
        Some(i + 1)
    } else if 0 <= i && i + 1 < s.len() && s[i] == '\r' && s[i + 1] == '\n' {
        Some(i + 2)
    } else {
        None
    }
}

/// A comment line at `i`: where the next line starts, and where the text of
/// the comment starts and ends.
pub open spec fn comment_at(s: Seq<char>, i: int) -> Option<(int, int, int)> {
    let a = run_end(s, i, Class::Space);
    if has_tag(s, a, seq!['/', '/']) {
        match line_at(s, a + 2) {
            Some(j) => match line_ending_at(s, j) {
                Some(next) => Some((next, a + 2, j)),
                None => None,
            },
            None => None,
        }
    } else {
        None
    }
}

/// Where the comment lines that start at `i` end.
pub open spec fn comments_end(s: Seq<char>, i: int) -> int
    decreases s.len() - i,
{
    match comment_at(s, i) {
        Some((next, _, _)) => if i < next <= s.len() {
            comments_end(s, next)
        } else {
            i
        },
        None => i,
    }
}

/// What a word holds.
pub struct WordView {
    pub glyph: Seq<char>,
    pub id: Seq<char>,
    pub strokes: Seq<Seq<Point>>,
}

/// A word at `i`: where it ends, after the space that follows it, and what
/// it holds.
pub open spec fn word_at(s: Seq<char>, i: int) -> Option<(int, WordView)> {
    let a = run_end(s, comments_end(s, i), Class::Space);
    if has_tag(s, a, seq!['W', 'O', 'R', 'D']) {
        let b = a + 4;
        let c = run_end(s, b, Class::Space);
        let d = run_end(s, c, Class::Solid);
        let e = run_end(s, d, Class::Space);
        if c > b && d > c && e > d {
            match line_at(s, e) {
                Some(f) => match line_ending_at(s, f) {
                    Some(g) => {
                        let h = run_end(s, g, Class::Space);
                        if h > g {
                            match strokes_at(s, h) {
                                Some((k, strokes)) => Some(
                                    (
                                        run_end(s, k, Class::Space),
                                        WordView {
                                            glyph: s.subrange(c, d),
                                            id: s.subrange(e, f),
                                            strokes,
                                        },
                                    ),
                                ),
                                None => None,
                            }
                        } else {
                            None
                        }
                    },
                    None => None,
                },
                None => None,
            }
        } else {
            None
        }
    } else {
        None
    }
}

/// The words from `i` on: where the last of them ends, and what they hold.
/// What follows the last word is left unread.
pub open spec fn words_at(s: Seq<char>, i: int) -> (int, Seq<WordView>)
    decreases s.len() - i,
{
    match word_at(s, i) {
        Some((end, word)) => if i < end <= s.len() {
            let rest = words_at(s, end);
            (rest.0, seq![word] + rest.1)
        } else {
            (i, Seq::empty())
        },
        None => (i, Seq::empty()),
    }
}

} // verus!
