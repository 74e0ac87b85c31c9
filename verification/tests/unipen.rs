use marauder::unipen::{comment, points, points_count, strokes, strokes_count, word, words, Point, Word};

fn some<T>(rest: &str, value: T) -> Option<(String, T)> {
    Some((rest.to_string(), value))
}

#[test]
fn parse_comment() {
    assert_eq!(comment("// ASCII char: @\n"), some("", " ASCII char: @".to_string()));
}

#[test]
fn parse_points_count() {
    assert_eq!(points_count("  POINTS 114 #"), some("", 114));
}

#[test]
fn mod_parse_points() {
    assert_eq!(
        points("  POINTS 2 # 398 270 385 276"),
        some("", vec![Point { x: 398, y: 270 }, Point { x: 385, y: 276 }])
    );
}

#[test]
fn parse_strokes_count() {
    assert_eq!(strokes_count("  NUMSTROKES 42"), some("", 42));
}

#[test]
fn parse_strokes() {
    assert_eq!(
        strokes(
            "  NUMSTROKES 2
  POINTS 1 # 1 3
  POINTS 1 # 2 -4
"
        ),
        some("\n", vec![vec![Point { x: 1, y: 3 }], vec![Point { x: 2, y: -4 }]])
    );
}

fn pts(values: &[i16]) -> Vec<Point> {
    values.chunks(2).map(|c| Point { x: c[0], y: c[1] }).collect()
}

#[test]
fn parse_word() {
    let inp = "
// Non-ASCII char: euro
WORD € trn_UJI_W11-01
  NUMSTROKES 3
  POINTS 39 # 699 197 694 185 694 185 681 176 671 175 657 175 643 171 624 175 607 175 581 182 556 188 527 197 498 206 466 224 433 240 397 266 362 293 329 327 299 366 270 414 246 468 225 527 216 592 209 666 211 735 221 807 239 869 264 929 296 978 331 1020 370 1053 415 1068 458 1075 502 1071 535 1064 567 1043 593 1023 608 1010 617 989
  POINTS 25 # 156 489 145 493 145 493 141 504 141 504 154 507 165 513 184 507 206 507 233 498 264 492 299 479 335 473 372 461 410 456 445 449 474 442 500 438 520 436 531 440 531 440 536 458 520 478 505 497 481 522
  POINTS 17 # 62 773 48 787 48 787 53 800 63 809 85 811 106 817 136 814 171 814 214 811 254 802 295 799 339 786 379 777 411 774 442 775 464 777
";
    assert_eq!(
        word(inp),
        some(
            "",
            Word {
                glyph: "€".to_owned(),
                id: "trn_UJI_W11-01".to_owned(),
                strokes: vec![
                    pts(&[
                        699, 197, 694, 185, 694, 185, 681, 176, 671, 175, 657, 175, 643, 171, 624,
                        175, 607, 175, 581, 182, 556, 188, 527, 197, 498, 206, 466, 224, 433, 240,
                        397, 266, 362, 293, 329, 327, 299, 366, 270, 414, 246, 468, 225, 527, 216,
                        592, 209, 666, 211, 735, 221, 807, 239, 869, 264, 929, 296, 978, 331, 1020,
                        370, 1053, 415, 1068, 458, 1075, 502, 1071, 535, 1064, 567, 1043, 593,
                        1023, 608, 1010, 617, 989
                    ]),
                    pts(&[
                        156, 489, 145, 493, 145, 493, 141, 504, 141, 504, 154, 507, 165, 513, 184,
                        507, 206, 507, 233, 498, 264, 492, 299, 479, 335, 473, 372, 461, 410, 456,
                        445, 449, 474, 442, 500, 438, 520, 436, 531, 440, 531, 440, 536, 458, 520,
                        478, 505, 497, 481, 522
                    ]),
                    pts(&[
                        62, 773, 48, 787, 48, 787, 53, 800, 63, 809, 85, 811, 106, 817, 136, 814,
                        171, 814, 214, 811, 254, 802, 295, 799, 339, 786, 379, 777, 411, 774, 442,
                        775, 464, 777
                    ]),
                ],
            }
        )
    );
}

#[test]
fn comments_need_a_whole_line() {
    assert_eq!(comment("  \t// a\r\nrest"), some("rest", " a".to_string()));
    assert_eq!(comment("//\n"), some("", "".to_string()));
    assert_eq!(comment("// no end of line"), None);
    assert_eq!(comment("// lone \r return\n"), None);
    assert_eq!(comment("/ / a\n"), None);
    assert_eq!(comment(""), None);
    assert_eq!(comment("// é€\nx"), some("x", " é€".to_string()));
}

#[test]
fn counts_must_fit() {
    assert_eq!(points_count("POINTS 65535 #"), some("", 65535));
    assert_eq!(points_count("POINTS 65536 #"), None);
    assert_eq!(points_count("POINTS 00007 # 1"), some(" 1", 7));
    assert_eq!(points_count("POINTS 7#"), None);
    assert_eq!(points_count("POINTS7 #"), None);
    assert_eq!(points_count("POINTS  #"), None);
    assert_eq!(points_count("POINT 7 #"), None);
    assert_eq!(points_count("POINTS 99999999999999999999999999 #"), None);
    assert_eq!(strokes_count("NUMSTROKES 255 x"), some(" x", 255));
    assert_eq!(strokes_count("NUMSTROKES 256"), None);
    assert_eq!(strokes_count("NUMSTROKES"), None);
    assert_eq!(strokes_count("NUMSTROKES -1"), None);
}

#[test]
fn points_come_in_pairs() {
    assert_eq!(points("POINTS 1 # 1 2 3"), some("", vec![Point { x: 1, y: 2 }]));
    assert_eq!(points("POINTS 1 # 7"), some("", vec![]));
    assert_eq!(points("POINTS 1 #"), some("", vec![]));
    assert_eq!(points("POINTS 1 #  "), some("", vec![]));
    assert_eq!(points("POINTS 1 # x"), some("x", vec![]));
    assert_eq!(points("POINTS 0 # -32768 32767 "), some(" ", vec![Point { x: -32768, y: 32767 }]));
    assert_eq!(points("POINTS 0 # 1 2 32768 4"), some(" 32768 4", vec![Point { x: 1, y: 2 }]));
    assert_eq!(points("POINTS 0 # 1 2 -32769 4"), some(" -32769 4", vec![Point { x: 1, y: 2 }]));
    assert_eq!(points("POINTS 0 # 1 - 2"), some(" - 2", vec![]));
    assert_eq!(points("POINTS 0 # -0 -00012"), some("", vec![Point { x: 0, y: -12 }]));
    assert_eq!(points("POINTS 0 # 1 2,3"), some(",3", vec![Point { x: 1, y: 2 }]));
}

#[test]
fn strokes_may_be_none() {
    assert_eq!(strokes("NUMSTROKES 3"), some("", vec![]));
    assert_eq!(strokes("NUMSTROKES 3 \n x"), some("x", vec![]));
    assert_eq!(strokes("NUMSTROKES 1 POINTS 9 # 1 2POINTS 1 # 3 4"), some("POINTS 1 # 3 4", vec![vec![Point { x: 1, y: 2 }]]));
    assert_eq!(strokes("POINTS 1 # 1 2"), None);
}

#[test]
fn words_are_read_until_one_fails() {
    let text = "WORD a w1\n NUMSTROKES 1\n POINTS 1 # 1 2\n// c\nWORD b w2\r\n NUMSTROKES 0\nWORD c\n";
    let (rest, all) = words(text);
    assert_eq!(rest, "WORD c\n");
    assert_eq!(
        all,
        vec![
            Word { glyph: "a".into(), id: "w1".into(), strokes: vec![vec![Point { x: 1, y: 2 }]] },
            Word { glyph: "b".into(), id: "w2".into(), strokes: vec![] },
        ]
    );
    assert_eq!(words(""), ("".to_string(), vec![]));
    assert_eq!(words("nothing here"), ("nothing here".to_string(), vec![]));
}

#[test]
fn a_word_needs_all_its_parts() {
    assert_eq!(word("WORD a id\n NUMSTROKES 1").map(|r| r.0), Some("".to_string()));
    assert_eq!(word("WORD a id\nNUMSTROKES 1"), None);
    assert_eq!(word("WORD a id"), None);
    assert_eq!(word("WORD a\n NUMSTROKES 1"), None);
    assert_eq!(word("WORDa id\n NUMSTROKES 1"), None);
    assert_eq!(word("WORD  a\tb  the id \n NUMSTROKES 1 ").unwrap().1.glyph, "a\tb");
    assert_eq!(word("WORD  a\tb  the id \n NUMSTROKES 1 ").unwrap().1.id, "the id ");
    assert_eq!(word("// c\n  // d\n\n WORD a id\n NUMSTROKES 1 x").map(|r| r.0), Some("x".to_string()));
    assert_eq!(word("// c\n / WORD a id\n NUMSTROKES 1"), None);
}
