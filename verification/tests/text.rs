use llmq::text;
use llmq::text::{
    byte_at, chars_of, clip, cut, ends_with, is_control, is_whitespace, join, pad_clip,
    repeat, same, selectable_lines, show, show_signed, split_lines, strip_prefix, text_of, trim,
    trim_end, trim_slashes, trim_start, wrap,
};

const SAMPLES: [&str; 12] = [
    "",
    "a",
    "\n",
    "\r\n",
    "a\nb",
    "a\r\nb\r\n",
    "a\r\rb\r",
    "\n\n x \n\n",
    "  héllo wörld  ",
    "\u{3000}日本\u{a0}",
    "\u{2028}x\u{85}",
    "🦀 crab\t\u{b}",
];

#[test]
fn fences_and_blank_lines_are_dropped() {
    let text = "```bash\nls -la  \n\n```\nfd -t f\n";
    assert_eq!(selectable_lines(text), vec!["ls -la", "fd -t f"]);
}

#[test]
fn wrap_splits_on_chars_not_bytes() {
    // "é" is two bytes; a byte-wise split would not give 4 chars per row.
    assert_eq!(wrap("aébcdéf", 4), vec!["aébc", "déf"]);
    assert_eq!(wrap("", 10), vec![""]);
    assert_eq!(wrap("abcdefghijkl", 4), vec!["abcd", "efgh", "ijkl"]);
}

#[test]
fn wrap_gives_up_below_four_columns() {
    assert_eq!(wrap("hello", 3), vec!["hello"]);
}

#[test]
fn clip_and_pad_count_chars() {
    assert_eq!(clip("héllo", 3), "hél");
    assert_eq!(pad_clip("hé", 4).chars().count(), 4);
}

#[test]
fn padding_and_clipping_at_the_edges() {
    assert_eq!(pad_clip("hé", 4), "hé  ");
    assert_eq!(pad_clip("héllo", 4), "héll");
    assert_eq!(pad_clip("", 2), "  ");
    assert_eq!(pad_clip("abc", 0), "");
    assert_eq!(clip("héllo", 0), "");
    assert_eq!(clip("héllo", 9), "héllo");
}

#[test]
fn characters_are_classified_as_unicode_does() {
    for c in '\0'..=char::MAX {
        assert_eq!(is_whitespace(c), c.is_whitespace(), "{:?}", c);
        assert_eq!(is_control(c), c.is_control(), "{:?}", c);
    }
}

#[test]
fn trimming_agrees_with_the_standard_library() {
    for s in SAMPLES {
        assert_eq!(trim(s), s.trim());
        assert_eq!(trim_start(s), s.trim_start());
        assert_eq!(trim_end(s), s.trim_end());
    }
    assert_eq!(trim_slashes("a//"), "a");
    assert_eq!(trim_slashes("//"), "");
    assert_eq!(trim_slashes("/a"), "/a");
}

#[test]
fn lines_agree_with_the_standard_library() {
    for s in SAMPLES {
        let expected: Vec<&str> = s.lines().collect();
        assert_eq!(split_lines(s), expected, "{:?}", s);
    }
}

#[test]
fn byte_offsets_agree_with_the_standard_library() {
    for s in SAMPLES {
        for i in 0..s.chars().count() + 2 {
            let expected = s.char_indices().nth(i).map(|(b, _)| b).unwrap_or(s.len());
            assert_eq!(byte_at(s, i), expected);
            assert_eq!(cut(s, i), s.split_at(expected));
        }
    }
    assert_eq!(byte_at("a🦀é", 2), 5);
    assert_eq!(byte_at("a🦀é", 3), 7);
}

#[test]
fn prefixes_and_suffixes() {
    assert_eq!(strip_prefix("data: x", "data:"), Some(" x"));
    assert_eq!(strip_prefix("dat", "data:"), None);
    assert_eq!(strip_prefix("date:", "data:"), None);
    assert_eq!(strip_prefix("é", ""), Some("é"));
    assert!(ends_with("héé", "éé"));
    assert!(!ends_with("é", "éé"));
    assert!(!ends_with("hée", "éé"));
    assert!(same("é", "é"));
    assert!(!same("é", "e"));
    assert!(!same("e", "ee"));
}

#[test]
fn characters_come_and_go() {
    assert_eq!(chars_of("aé🦀"), vec!['a', 'é', '🦀']);
    assert_eq!(text_of(&vec!['a', 'é', '🦀'], 1, 3), "é🦀");
    assert_eq!(text_of(&vec!['a'], 1, 1), "");
    assert_eq!(text::concat("ab", "é"), "abé");
    assert_eq!(repeat('─', 3), "───");
    assert_eq!(repeat('x', 0), "");
}

#[test]
fn numbers_in_decimal() {
    for n in [0u64, 7, 10, 99, 100, 1024, u64::MAX] {
        assert_eq!(show(n), n.to_string());
    }
    for n in [0i32, 5, -1, -10, i32::MAX, i32::MIN] {
        assert_eq!(show_signed(n), n.to_string());
    }
}

#[test]
fn joining_puts_the_separator_between() {
    let none: Vec<String> = Vec::new();
    assert_eq!(join(&none, "\n"), "");
    assert_eq!(join(&vec!["a".to_string()], "\n"), "a");
    assert_eq!(join(&vec!["a".to_string(), String::new(), "c".to_string()], "--"), "a----c");
}

#[test]
fn wrapping_loses_nothing_and_fits() {
    let line = "the quick brown fox jümps over the lazy dög";
    for width in 4..50 {
        let rows = wrap(line, width);
        assert_eq!(rows.concat(), line);
        for (i, row) in rows.iter().enumerate() {
            assert!(row.chars().count() <= width);
            assert!(i + 1 == rows.len() || row.chars().count() == width);
        }
    }
}

#[test]
fn offered_lines_survive_insertion() {
    let answer = "  ```\n\tls  \r\n\n   \ncd /tmp && ls\n```sh\nx";
    let lines = selectable_lines(answer);
    assert_eq!(lines, vec!["\tls", "cd /tmp && ls", "x"]);
    assert_eq!(selectable_lines(&lines.join("\n")), lines);
    assert!(selectable_lines("```\n \n```").is_empty());
}
