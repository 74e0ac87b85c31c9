//! The reader of a file of handwritten words: it walks the characters once
//! and gives what the grammar says.

use vstd::prelude::*;
use crate::unipen::grammar::{
    comment_at, comments_end, digits_value, has_tag, in_class, int_at, ints_after, ints_at,
    line_at, line_ending_at, number_at, paired, points_at, points_count_at, run_end,
    strokes_after, strokes_at, strokes_count_at, word_at, words_at, Class, WordView,
};
use crate::unipen::{Point, Word};

verus! {

/// A run ends inside the text, all of its characters are of its class, and
/// the character after it is not.
pub proof fn lemma_run_end(s: Seq<char>, i: int, class: Class)
    requires
        0 <= i <= s.len(),
    ensures
        i <= run_end(s, i, class) <= s.len(),
        forall|k: int| i <= k < run_end(s, i, class) ==> in_class(class, #[trigger] s[k]),
        run_end(s, i, class) < s.len() ==> !in_class(class, s[run_end(s, i, class)]),
    decreases s.len() - i,
{
    if i < s.len() && in_class(class, s[i]) {
        lemma_run_end(s, i + 1, class);
    }
}

/// More digits never write a smaller number.
pub proof fn lemma_digits_grow(s: Seq<char>, i: int, k: int, j: int)
    requires
        i <= k <= j,
    ensures
        digits_value(s, i, k) <= digits_value(s, i, j),
    decreases j - k,
{
    if k < j {
        lemma_digits_grow(s, i, k, j - 1);
    }
}

/// Whether a character is of a class.
fn belongs(class: Class, c: char) -> (r: bool)
    ensures
        r == in_class(class, c),
{
    match class {
        Class::Space => c == ' ' || c == '\t' || c == '\r' || c == '\n',
        Class::Digit => '0' <= c && c <= '9',
        Class::Solid => c != ' ',
        Class::Text => c != '\r' && c != '\n',
    }
}

/// Walks to the end of the run of one class that starts at `i`.
fn scan(s: &Vec<char>, i: usize, class: Class) -> (j: usize)
    requires
        i <= s@.len(),
    ensures
        j == run_end(s@, i as int, class),
        i <= j <= s@.len(),
{
    let mut j = i;
    while j < s.len() && belongs(class, s[j])
        invariant
            i <= j <= s@.len(),
            run_end(s@, i as int, class) == run_end(s@, j as int, class),
        decreases s@.len() - j,
    {
        j = j + 1;
    }
    j
}

/// Whether the characters of `tag` stand at `i`.
fn tagged(s: &Vec<char>, i: usize, tag: &Vec<char>) -> (r: bool)
    requires
        i <= s@.len(),
    ensures
        r == has_tag(s@, i as int, tag@),
{
    if tag.len() > s.len() - i {
        return false;
    }
    let mut k: usize = 0;
    while k < tag.len()
        invariant
            i + tag@.len() <= s@.len() <= usize::MAX,
            k <= tag@.len(),
            forall|m: int| 0 <= m < k ==> s@[i + m] == #[trigger] tag@[m],
        decreases tag@.len() - k,
    {
        if s[i + k] != tag[k] {
            return false;
        }
        k = k + 1;
    }
    true
}

/// Reads a number without a sign at `i` that is at most `max`.
fn number(s: &Vec<char>, i: usize, max: u32) -> (r: Option<(usize, u32)>)
    requires
        i <= s@.len(),
    ensures
        match r {
            Some((end, value)) => number_at(s@, i as int, max as nat) == Some(
                (end as int, value as nat),
            ) && i < end <= s@.len() && value <= max,
            None => number_at(s@, i as int, max as nat).is_none(),
        },
{
    let end = scan(s, i, Class::Digit);
    if end == i {
        return None;
    }
    proof {
        lemma_run_end(s@, i as int, Class::Digit);
    }
    let mut value: u64 = 0;
    let mut k: usize = i;
    while k < end
        invariant
            i <= k <= end <= s@.len(),
            i < end == run_end(s@, i as int, Class::Digit),
            value == digits_value(s@, i as int, k as int),
            value <= max,
            forall|m: int| i <= m < end ==> in_class(Class::Digit, #[trigger] s@[m]),
        decreases end - k,
    {
        let c = s[k];
        assert(in_class(Class::Digit, s@[k as int]));
        let digit: u64 = (c as u32 - '0' as u32) as u64;
        value = value * 10 + digit;
        k = k + 1;
        assert(value == digits_value(s@, i as int, k as int));
        if value > max as u64 {
            proof {
                lemma_digits_grow(s@, i as int, k as int, end as int);
            }
            return None;
        }
    }
    Some((end, value as u32))
}

/// Reads a whole number at `i`, with a minus sign or without.
fn whole(s: &Vec<char>, i: usize) -> (r: Option<(usize, i16)>)
    requires
        i <= s@.len(),
    ensures
        match r {
            Some((end, value)) => int_at(s@, i as int) == Some((end as int, value)) && i < end
                <= s@.len(),
            None => int_at(s@, i as int).is_none(),
        },
{
    if i < s.len() && s[i] == '-' {
        match number(s, i + 1, 32768) {
            Some((end, value)) => {
                let negated: i32 = -(value as i32);
                Some((end, negated as i16))
            },
            None => None,
        }
    } else {
        match number(s, i, 32767) {
            Some((end, value)) => Some((end, value as i16)),
            None => None,
        }
    }
}

/// Reads the whole numbers from `i` on.
fn ints(s: &Vec<char>, i: usize) -> (r: (usize, Vec<i16>))
    requires
        i <= s@.len(),
    ensures
        ints_at(s@, i as int) == (r.0 as int, r.1@),
        i <= r.0 <= s@.len(),
{
    let mut values: Vec<i16> = Vec::new();
    let mut pos: usize = match whole(s, i) {
        Some((end, value)) => {
            values.push(value);
            end
        },
        None => {
            return (i, values);
        },
    };
    loop
        invariant
            i <= pos <= s@.len(),
            ints_at(s@, i as int) == (ints_after(s@, pos as int).0, values@ + ints_after(
                s@,
                pos as int,
            ).1),
        ensures
            ints_after(s@, pos as int) == (pos as int, Seq::<i16>::empty()),
        decreases s@.len() - pos,
    {
        let next = scan(s, pos, Class::Space);
        if next == pos {
            break ;
        }
        match whole(s, next) {
            Some((end, value)) => {
                let ghost rest = ints_after(s@, end as int);
                assert(ints_after(s@, pos as int) == (rest.0, seq![value] + rest.1));
                assert(values@.push(value) + rest.1 =~= values@ + (seq![value] + rest.1));
                values.push(value);
                pos = end;
            },
            None => {
                break ;
            },
        }
    }
    assert(values@ + Seq::<i16>::empty() =~= values@);
    (pos, values)
}

/// Turns a row of numbers into points, two by two.
fn pair_up(values: &Vec<i16>) -> (r: Vec<Point>)
    ensures
        r@ == paired(values@),
{
    let mut points: Vec<Point> = Vec::new();
    let n = values.len() / 2;
    let mut k: usize = 0;
    while k < n
        invariant
            n == values@.len() / 2,
            values@.len() <= usize::MAX,
            k <= n,
            points@.len() == k,
            forall|m: int|
                0 <= m < k ==> points@[m] == (Point { x: values@[2 * m], y: values@[2 * m + 1] }),
        decreases n - k,
    {
        points.push(Point { x: values[2 * k], y: values[2 * k + 1] });
        k = k + 1;
    }
    assert(points@ =~= paired(values@));
    points
}

/// Reads the count of a `POINTS` line at `i`.
pub fn points_count_from(s: &Vec<char>, i: usize) -> (r: Option<(usize, u16)>)
    requires
        i <= s@.len(),
    ensures
        match r {
            Some((end, count)) => points_count_at(s@, i as int) == Some((end as int, count)) && i
                < end <= s@.len(),
            None => points_count_at(s@, i as int).is_none(),
        },
{
    let tag: Vec<char> = vec!['P', 'O', 'I', 'N', 'T', 'S'];
    assert(tag@ =~= seq!['P', 'O', 'I', 'N', 'T', 'S']);
    let hash: Vec<char> = vec!['#'];
    assert(hash@ =~= seq!['#']);
    let len = s.len();
    let a = scan(s, i, Class::Space);
    if !tagged(s, a, &tag) {
        return None;
    }
    let b = a + 6;
    let c = scan(s, b, Class::Space);
    if c == b {
        return None;
    }
    match number(s, c, 65535) {
        Some((d, count)) => {
            let e = scan(s, d, Class::Space);
            if e > d && tagged(s, e, &hash) {
                Some((e + 1, count as u16))
            } else {
                None
            }
        },
        None => None,
    }
}

/// Reads the stroke of a `POINTS` line at `i`.
pub fn points_from(s: &Vec<char>, i: usize) -> (r: Option<(usize, Vec<Point>)>)
    requires
        i <= s@.len(),
    ensures
        match r {
            Some((end, points)) => points_at(s@, i as int) == Some((end as int, points@)) && i
                < end <= s@.len(),
            None => points_at(s@, i as int).is_none(),
        },
{
    match points_count_from(s, i) {
        Some((j, _)) => {
            let k = scan(s, j, Class::Space);
            let (end, values) = ints(s, k);
            Some((end, pair_up(&values)))
        },
        None => None,
    }
}

/// The characters of a text, in order.
pub fn chars_of(text: &str) -> (chars: Vec<char>)
    ensures
        chars@ == text@,
{
    let mut chars: Vec<char> = Vec::new();
    for c in it: text.chars()
        invariant
            it.seq() == text@,
            chars@ == it.seq().take(it.index()),
    {
        chars.push(c);
        assert(chars@ =~= it.seq().take(it.index() + 1));
    }
    assert(chars@ =~= text@);
    chars
}

/// Calls `String::push`, which appends one character to the text.
#[verifier::external_body]
fn push_char(text: &mut String, c: char)
    ensures
        final(text)@ == old(text)@.push(c),
{
    text.push(c)
}

/// The text that the characters from `from` up to `to` make.
pub fn text_of(chars: &Vec<char>, from: usize, to: usize) -> (text: String)
    requires
        from <= to <= chars@.len(),
    ensures
        text@ == chars@.subrange(from as int, to as int),
{
    let mut text = String::new();
    let mut k: usize = from;
    while k < to
        invariant
            from <= k <= to <= chars@.len(),
            text@ == chars@.subrange(from as int, k as int),
        decreases to - k,
    {
        push_char(&mut text, chars[k]);
        assert(text@ =~= chars@.subrange(from as int, k + 1));
        k = k + 1;
    }
    text
}

/// What a sequence of strokes holds.
pub open spec fn strokes_view(strokes: Seq<Vec<Point>>) -> Seq<Seq<Point>> {
    Seq::new(strokes.len(), |i: int| strokes[i]@)
}

/// What a word holds.
pub open spec fn word_view(word: Word) -> WordView {
    WordView { glyph: word.glyph@, id: word.id@, strokes: strokes_view(word.strokes@) }
}

/// What a sequence of words holds.
pub open spec fn words_view(words: Seq<Word>) -> Seq<WordView> {
    Seq::new(words.len(), |i: int| word_view(words[i]))
}

/// Reads the count of a `NUMSTROKES` line at `i`.
pub fn strokes_count_from(s: &Vec<char>, i: usize) -> (r: Option<(usize, u8)>)
    requires
        i <= s@.len(),
    ensures
        match r {
            Some((end, count)) => strokes_count_at(s@, i as int) == Some((end as int, count)) && i
                < end <= s@.len(),
            None => strokes_count_at(s@, i as int).is_none(),
        },
{
    let tag: Vec<char> = vec!['N', 'U', 'M', 'S', 'T', 'R', 'O', 'K', 'E', 'S'];
    assert(tag@ =~= seq!['N', 'U', 'M', 'S', 'T', 'R', 'O', 'K', 'E', 'S']);
    let len = s.len();
    let a = scan(s, i, Class::Space);
    if !tagged(s, a, &tag) {
        return None;
    }
    let b = a + 10;
    let c = scan(s, b, Class::Space);
    if c == b {
        return None;
    }
    match number(s, c, 255) {
        Some((d, count)) => Some((d, count as u8)),
        None => None,
    }
}

/// Reads the strokes of a word at `i`.
pub fn strokes_from(s: &Vec<char>, i: usize) -> (r: Option<(usize, Vec<Vec<Point>>)>)
    requires
        i <= s@.len(),
    ensures
        match r {
            Some((end, strokes)) => strokes_at(s@, i as int) == Some(
                (end as int, strokes_view(strokes@)),
            ) && i < end <= s@.len(),
            None => strokes_at(s@, i as int).is_none(),
        },
{
    let j = match strokes_count_from(s, i) {
        Some((j, _)) => j,
        None => {
            return None;
        },
    };
    let k = scan(s, j, Class::Space);
    let mut strokes: Vec<Vec<Point>> = Vec::new();
    let mut pos: usize = match points_from(s, k) {
        Some((end, points)) => {
            strokes.push(points);
            assert(strokes_view(strokes@) =~= seq![points@]);
            end
        },
        None => {
            assert(strokes_view(strokes@) =~= Seq::<Seq<Point>>::empty());
            return Some((k, strokes));
        },
    };
    loop
        invariant
            i < pos <= s@.len(),
            strokes_at(s@, i as int) == Some(
                (
                    strokes_after(s@, pos as int).0,
                    strokes_view(strokes@) + strokes_after(s@, pos as int).1,
                ),
            ),
        ensures
            strokes_after(s@, pos as int) == (pos as int, Seq::<Seq<Point>>::empty()),
        decreases s@.len() - pos,
    {
        let next = scan(s, pos, Class::Space);
        if next == pos {
            break ;
        }
        match points_from(s, next) {
            Some((end, points)) => {
                let ghost rest = strokes_after(s@, end as int);
                let ghost before = strokes_view(strokes@);
                assert(strokes_after(s@, pos as int) == (rest.0, seq![points@] + rest.1));
                assert(before.push(points@) + rest.1 =~= before + (seq![points@] + rest.1));
                strokes.push(points);
                assert(strokes_view(strokes@) =~= before.push(points@));
                pos = end;
            },
            None => {
                break ;
            },
        }
    }
    assert(strokes_view(strokes@) + Seq::<Seq<Point>>::empty() =~= strokes_view(strokes@));
    Some((pos, strokes))
}

/// Walks to the end of the line at `i`.
fn line(s: &Vec<char>, i: usize) -> (r: Option<usize>)
    requires
        i <= s@.len(),
    ensures
        match r {
            Some(end) => line_at(s@, i as int) == Some(end as int) && i <= end <= s@.len(),
            None => line_at(s@, i as int).is_none(),
        },
{
    let j = scan(s, i, Class::Text);
    if j < s.len() && s[j] == '\r' && !(j + 1 < s.len() && s[j + 1] == '\n') {
        None
    } else {
        Some(j)
    }
}

/// Steps over the end of a line at `i`.
fn line_ending(s: &Vec<char>, i: usize) -> (r: Option<usize>)
    requires
        i <= s@.len(),
    ensures
        match r {
            Some(next) => line_ending_at(s@, i as int) == Some(next as int) && i < next
                <= s@.len(),
            None => line_ending_at(s@, i as int).is_none(),
        },
{
    if i < s.len() && s[i] == '\n' {
        Some(i + 1)
    } else if i < s.len() && i + 1 < s.len() && s[i] == '\r' && s[i + 1] == '\n' {
        Some(i + 2)
    } else {
        None
    }
}

/// Reads a comment line at `i`: where the next line starts, and where the
/// text of the comment starts and ends.
pub fn comment_from(s: &Vec<char>, i: usize) -> (r: Option<(usize, usize, usize)>)
    requires
        i <= s@.len(),
    ensures
        match r {
            Some((next, from, to)) => comment_at(s@, i as int) == Some(
                (next as int, from as int, to as int),
            ) && i < next <= s@.len() && from <= to <= s@.len(),
            None => comment_at(s@, i as int).is_none(),
        },
{
    let tag: Vec<char> = vec!['/', '/'];
    assert(tag@ =~= seq!['/', '/']);
    let len = s.len();
    let a = scan(s, i, Class::Space);
    if !tagged(s, a, &tag) {
        return None;
    }
    match line(s, a + 2) {
        Some(j) => match line_ending(s, j) {
            Some(next) => Some((next, a + 2, j)),
            None => None,
        },
        None => None,
    }
}

/// Walks over the comment lines that start at `i`.
fn comments(s: &Vec<char>, i: usize) -> (end: usize)
    requires
        i <= s@.len(),
    ensures
        end == comments_end(s@, i as int),
        i <= end <= s@.len(),
{
    let mut pos = i;
    loop
        invariant
            i <= pos <= s@.len(),
            comments_end(s@, i as int) == comments_end(s@, pos as int),
        ensures
            comments_end(s@, pos as int) == pos,
        decreases s@.len() - pos,
    {
        match comment_from(s, pos) {
            Some((next, _, _)) => {
                pos = next;
            },
            None => {
                break ;
            },
        }
    }
    pos
}

/// Reads a word at `i`.
pub fn word_from(s: &Vec<char>, i: usize) -> (r: Option<(usize, Word)>)
    requires
        i <= s@.len(),
    ensures
        match r {
            Some((end, word)) => word_at(s@, i as int) == Some((end as int, word_view(word))) && i
                < end <= s@.len(),
            None => word_at(s@, i as int).is_none(),
        },
{
    let tag: Vec<char> = vec!['W', 'O', 'R', 'D'];
    assert(tag@ =~= seq!['W', 'O', 'R', 'D']);
    let len = s.len();
    let a = scan(s, comments(s, i), Class::Space);
    if !tagged(s, a, &tag) {
        return None;
    }
    let b = a + 4;
    let c = scan(s, b, Class::Space);
    let d = scan(s, c, Class::Solid);
    let e = scan(s, d, Class::Space);
    if !(c > b && d > c && e > d) {
        return None;
    }
    let f = match line(s, e) {
        Some(f) => f,
        None => {
            return None;
        },
    };
    let g = match line_ending(s, f) {
        Some(g) => g,
        None => {
            return None;
        },
    };
    let h = scan(s, g, Class::Space);
    if h == g {
        return None;
    }
    match strokes_from(s, h) {
        Some((k, strokes)) => {
            let end = scan(s, k, Class::Space);
            Some((end, Word { glyph: text_of(s, c, d), id: text_of(s, e, f), strokes }))
        },
        None => None,
    }
}

/// Reads the words from `i` on.
pub fn words_from(s: &Vec<char>, i: usize) -> (r: (usize, Vec<Word>))
    requires
        i <= s@.len(),
    ensures
        words_at(s@, i as int) == (r.0 as int, words_view(r.1@)),
        i <= r.0 <= s@.len(),
{
    let mut words: Vec<Word> = Vec::new();
    let mut pos = i;
    assert(words_view(words@) =~= Seq::<WordView>::empty());
    assert(Seq::<WordView>::empty() + words_at(s@, i as int).1 =~= words_at(s@, i as int).1);
    loop
        invariant
            i <= pos <= s@.len(),
            words_at(s@, i as int) == (
                words_at(s@, pos as int).0,
                words_view(words@) + words_at(s@, pos as int).1,
            ),
        ensures
            words_at(s@, pos as int) == (pos as int, Seq::<WordView>::empty()),
        decreases s@.len() - pos,
    {
        match word_from(s, pos) {
            Some((end, word)) => {
                let ghost rest = words_at(s@, end as int);
                let ghost before = words_view(words@);
                let ghost view = word_view(word);
                assert(words_at(s@, pos as int) == (rest.0, seq![view] + rest.1));
                assert(before.push(view) + rest.1 =~= before + (seq![view] + rest.1));
                words.push(word);
                assert(words_view(words@) =~= before.push(view));
                pos = end;
            },
            None => {
                break ;
            },
        }
    }
    assert(words_view(words@) + Seq::<WordView>::empty() =~= words_view(words@));
    (pos, words)
}

} // verus!
