//! Handwritten words as sequences of strokes of points, and the reader of
//! the files that record them.

use vstd::prelude::*;
use crate::unipen::grammar::{
    comment_at, points_at, points_count_at, strokes_at, strokes_count_at, word_at, words_at,
};
use crate::unipen::parse::{
    chars_of, comment_from, points_count_from, points_from, strokes_count_from, strokes_from,
    strokes_view, text_of, word_from, word_view, words_from, words_view,
};

pub mod grammar;
pub mod parse;

verus! {

/// One point of a handwritten stroke.
#[derive(Clone, Copy, Debug, PartialEq, Eq, Structural)]
pub struct Point {
    pub x: i16,
    pub y: i16,
}

/// One handwritten word: what it reads, who wrote it, and its strokes.
#[derive(Debug, PartialEq, Eq)]
pub struct Word {
    pub glyph: String,
    pub id: String,
    pub strokes: Vec<Vec<Point>>,
}

/// What is left of a text after the first `end` characters.
pub open spec fn rest_of(text: Seq<char>, end: int) -> Seq<char> {
    text.subrange(end, text.len() as int)
}

/// Reads a comment line at the start of a text: what is left of the text,
/// and the comment.
pub fn comment(input: &str) -> (r: Option<(String, String)>)
    ensures
        match comment_at(input@, 0) {
            Some((next, from, to)) => r.is_some() && r.unwrap().0@ == rest_of(input@, next)
                && r.unwrap().1@ == input@.subrange(from, to),
            None => r.is_none(),
        },
{
    let chars = chars_of(input);
    match comment_from(&chars, 0) {
        Some((next, from, to)) => Some(
            (text_of(&chars, next, chars.len()), text_of(&chars, from, to)),
        ),
        None => None,
    }
}

/// Reads the count of a `POINTS` line at the start of a text: what is left
/// of the text, and the count.
pub fn points_count(input: &str) -> (r: Option<(String, u16)>)
    ensures
        match points_count_at(input@, 0) {
            Some((end, count)) => r.is_some() && r.unwrap().0@ == rest_of(input@, end)
                && r.unwrap().1 == count,
            None => r.is_none(),
        },
{
    let chars = chars_of(input);
    match points_count_from(&chars, 0) {
        Some((end, count)) => Some((text_of(&chars, end, chars.len()), count)),
        None => None,
    }
}

/// Reads the stroke of a `POINTS` line at the start of a text: what is left
/// of the text, and the points.
pub fn points(input: &str) -> (r: Option<(String, Vec<Point>)>)
    ensures
        match points_at(input@, 0) {
            Some((end, stroke)) => r.is_some() && r.unwrap().0@ == rest_of(input@, end)
                && r.unwrap().1@ == stroke,
            None => r.is_none(),
        },
{
    let chars = chars_of(input);
    match points_from(&chars, 0) {
        Some((end, stroke)) => Some((text_of(&chars, end, chars.len()), stroke)),
        None => None,
    }
}

/// Reads the count of a `NUMSTROKES` line at the start of a text: what is
/// left of the text, and the count.
pub fn strokes_count(input: &str) -> (r: Option<(String, u8)>)
    ensures
        match strokes_count_at(input@, 0) {
            Some((end, count)) => r.is_some() && r.unwrap().0@ == rest_of(input@, end)
                && r.unwrap().1 == count,
            None => r.is_none(),
        },
{
    let chars = chars_of(input);
    match strokes_count_from(&chars, 0) {
        Some((end, count)) => Some((text_of(&chars, end, chars.len()), count)),
        None => None,
    }
}

/// Reads the strokes of a word at the start of a text: what is left of the
/// text, and the strokes.
pub fn strokes(input: &str) -> (r: Option<(String, Vec<Vec<Point>>)>)
    ensures
        match strokes_at(input@, 0) {
            Some((end, all)) => r.is_some() && r.unwrap().0@ == rest_of(input@, end)
                && strokes_view(r.unwrap().1@) == all,
            None => r.is_none(),
        },
{
    let chars = chars_of(input);
    match strokes_from(&chars, 0) {
        Some((end, all)) => Some((text_of(&chars, end, chars.len()), all)),
        None => None,
    }
}

/// Reads one word at the start of a text: what is left of the text, and the
/// word.
pub fn word(input: &str) -> (r: Option<(String, Word)>)
    ensures
        match word_at(input@, 0) {
            Some((end, view)) => r.is_some() && r.unwrap().0@ == rest_of(input@, end) && word_view(
                r.unwrap().1,
            ) == view,
            None => r.is_none(),
        },
{
    let chars = chars_of(input);
    match word_from(&chars, 0) {
        Some((end, word)) => Some((text_of(&chars, end, chars.len()), word)),
        None => None,
    }
}

/// Reads the words of a text, as many as stand at its start: what is left
/// of the text, and the words.
pub fn words(input: &str) -> (r: (String, Vec<Word>))
    ensures
        r.0@ == rest_of(input@, words_at(input@, 0).0),
        words_view(r.1@) == words_at(input@, 0).1,
{
    let chars = chars_of(input);
    let (end, all) = words_from(&chars, 0);
    (text_of(&chars, end, chars.len()), all)
}

} // verus!
