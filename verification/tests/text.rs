use tmprocs::text;

const SAMPLES: [&str; 14] = [
    "",
    " ",
    "\n",
    "\r\n",
    "a",
    "a\n",
    "a\r\nb\n\nc",
    "  two words \t three\u{3000}wide ",
    "\u{a0}no-break\u{a0}",
    "line\rreturn\nlast\r",
    "\tone\ttwo\tthree\tfour",
    "main\tvim\t%3\n",
    "é\u{2028}x\u{85}y",
    "\n\n\n",
];

#[test]
fn white_space_is_that_of_std() {
    for n in 0..=0x10ffffu32 {
        if let Some(c) = char::from_u32(n) {
            assert_eq!(text::white_space(c), c.is_whitespace(), "{n:x}");
        }
    }
}

#[test]
fn trims_as_std_does() {
    for s in SAMPLES {
        assert_eq!(text::trim(s), s.trim());
    }
    assert_eq!(text::trim("  a b \n"), "a b");
}

#[test]
fn splits_lines_as_std_does() {
    for s in SAMPLES {
        let expected: Vec<String> = s.lines().map(|l| l.to_string()).collect();
        assert_eq!(text::lines(s), expected, "{s:?}");
    }
    assert_eq!(text::lines("a\r\nb\r"), vec!["a".to_string(), "b\r".to_string()]);
}

#[test]
fn splits_words_as_std_does() {
    for s in SAMPLES {
        let expected: Vec<String> = s.split_whitespace().map(|w| w.to_string()).collect();
        assert_eq!(text::words(s), expected, "{s:?}");
    }
}

#[test]
fn splits_pieces_as_std_does() {
    for s in SAMPLES {
        for most in 0..5usize {
            let expected: Vec<String> = s.splitn(most, '\t').map(|p| p.to_string()).collect();
            assert_eq!(text::pieces(s, '\t', most), expected, "{s:?} {most}");
        }
    }
}

#[test]
fn prefixes_as_std_does() {
    for s in SAMPLES {
        for p in SAMPLES {
            assert_eq!(text::starts_with(s, p), s.starts_with(p));
            assert_eq!(text::strip_prefix(s, p), s.strip_prefix(p));
            assert_eq!(text::same(s, p), s == p);
        }
    }
    assert_eq!(text::strip_prefix("running:12", "running:"), Some("12"));
    assert_eq!(text::strip_prefix("dead:0", "running:"), None);
}

#[test]
fn orders_as_std_does() {
    let names = ["", "a", "aa", "ab", "b", "B", "é", "z", "\u{ffff}", "\u{10000}", "web", "web2"];
    for a in names {
        for b in names {
            assert_eq!(text::comes_before(a, b), a < b, "{a} {b}");
        }
    }
}

#[test]
fn joins_with_blanks() {
    let none: Vec<String> = vec![];
    assert_eq!(text::join(&none, " "), "");
    assert_eq!(text::join(&vec!["one".to_string()], " "), "one");
    let words = vec!["npm".to_string(), "run".to_string(), "dev".to_string()];
    assert_eq!(text::join(&words, " "), "npm run dev");
}

#[test]
fn place_of_a_separator() {
    let chars = text::chars_of("a:b:c");
    assert_eq!(chars, vec!['a', ':', 'b', ':', 'c']);
    assert_eq!(text::place_from(&chars, 0, ':'), 1);
    assert_eq!(text::place_from(&chars, 2, ':'), 3);
    assert_eq!(text::place_from(&chars, 4, ':'), 5);
}
