use copy_crab::merge::{filter_out, merge_files};
use copy_crab::models::Runtime;
use copy_crab::text::{
    begins_with, chars_of, concat3, contains, is_whitespace, joined, lines_of, matches_at,
    same_text, trimmed,
};

fn chars(s: &str) -> Vec<char> {
    s.chars().collect()
}

fn text(v: &Vec<char>) -> String {
    v.iter().collect()
}

fn owned(lines: &[&str]) -> Vec<String> {
    lines.iter().map(|l| l.to_string()).collect()
}

#[test]
fn chars_of_yields_the_characters() {
    assert_eq!(chars_of("héllo\n"), vec!['h', 'é', 'l', 'l', 'o', '\n']);
    assert_eq!(chars_of(""), Vec::<char>::new());
}

#[test]
fn concat3_puts_three_texts_in_a_row() {
    assert_eq!(concat3("a", "/", "b.ts"), "a/b.ts");
    assert_eq!(concat3("", "", ""), "");
    assert_eq!(concat3("é", "", "ü"), "éü");
}

#[test]
fn white_space_is_what_std_says_it_is() {
    for code in 0..0x11000u32 {
        if let Some(c) = char::from_u32(code) {
            assert_eq!(is_whitespace(c), c.is_whitespace(), "U+{:04X}", code);
        }
    }
    assert!(!is_whitespace('\u{10FFFF}'));
}

#[test]
fn trimmed_agrees_with_str_trim() {
    for s in ["", " ", "  a  ", "a", "\t\na b\r\n", "\u{3000}x\u{a0}", "   ", "a ", " a", "é "] {
        assert_eq!(text(&trimmed(&chars(s))), s.trim(), "{:?}", s);
    }
}

#[test]
fn lines_of_agrees_with_str_split() {
    for s in ["", "a", "a\n", "\n", "a\nb", "a\n\nb\n", "\n\n", "a\r\nb"] {
        let want: Vec<String> = s.split("\n").map(|l| l.to_string()).collect();
        let got: Vec<String> = lines_of(&chars(s)).iter().map(text).collect();
        assert_eq!(got, want, "{:?}", s);
    }
}

#[test]
fn joined_puts_a_line_feed_between_lines() {
    let lines = vec![chars("a"), chars(""), chars("b")];
    assert_eq!(text(&joined(&lines)), "a\n\nb");
    assert_eq!(text(&joined(&vec![])), "");
    assert_eq!(text(&joined(&vec![chars("only")])), "only");
    assert_eq!(text(&joined(&vec![chars(""), chars("")])), "\n");
}

#[test]
fn joining_the_lines_of_a_text_gives_it_back() {
    for s in ["", "a", "a\n", "\n", "a\nb", "a\n\nb\n", "\n\n"] {
        assert_eq!(text(&joined(&lines_of(&chars(s)))), s);
    }
}

#[test]
fn contains_agrees_with_str_contains() {
    let hays = ["", "a", "abc", "aab", "import x from \"./y\"", "https://x", "ab\"./"];
    let needles = ["", "a", "b", "ab", "abc", "abcd", "\"./", "http", "c"];
    for hay in hays {
        for needle in needles {
            assert_eq!(
                contains(&chars(hay), &chars(needle)),
                hay.contains(needle),
                "{:?} in {:?}",
                needle,
                hay
            );
        }
    }
}

#[test]
fn begins_with_agrees_with_str_starts_with() {
    for s in ["", "import", "import x", "impor", " import", "xport"] {
        for prefix in ["", "import", "i"] {
            assert_eq!(begins_with(&chars(s), &chars(prefix)), s.starts_with(prefix));
        }
    }
}

#[test]
fn matches_at_looks_at_one_position() {
    assert!(matches_at(&chars("abcabc"), &chars("bc"), 1));
    assert!(matches_at(&chars("abcabc"), &chars("bc"), 4));
    assert!(!matches_at(&chars("abcabc"), &chars("bc"), 0));
    assert!(matches_at(&chars("abc"), &chars(""), 3));
}

#[test]
fn same_text_compares_character_by_character() {
    assert!(same_text(&chars("Core"), &chars("Core")));
    assert!(!same_text(&chars("Core"), &chars("core")));
    assert!(!same_text(&chars("Core"), &chars("CorePlus")));
    assert!(same_text(&chars(""), &chars("")));
}

#[test]
fn filter_out_drops_the_lines_that_hold_the_text() {
    let lines = owned(&["import a from \"./a.ts\";", "import b from \"https://b\";", "keep"]);
    assert_eq!(filter_out(lines.clone(), "http"), owned(&["import a from \"./a.ts\";", "keep"]));
    assert_eq!(
        filter_out(lines.clone(), "\"./"),
        owned(&["import b from \"https://b\";", "keep"])
    );
    assert_eq!(filter_out(lines.clone(), "zzz"), lines);
    assert_eq!(filter_out(lines, ""), Vec::<String>::new());
    assert_eq!(filter_out(vec![], "x"), Vec::<String>::new());
}

#[test]
fn merge_lifts_imports_to_the_top() {
    let a = "import x from \"x\";\nconst a = 1;\n";
    let b = "  import y from \"y\";\nconst b = 2;\n";
    assert_eq!(
        merge_files(Runtime::Deno, &vec![a, b]),
        "import x from \"x\";\n  import y from \"y\";\n\nconst a = 1;\nconst b = 2;"
    );
}

#[test]
fn merge_joins_bodies_without_a_separator() {
    assert_eq!(merge_files(Runtime::Deno, &vec!["a", "b"]), "ab");
    assert_eq!(merge_files(Runtime::Deno, &vec!["a\n", "b"]), "a\nb");
    assert_eq!(merge_files(Runtime::Deno, &vec!["import k;\na", "b"]), "import k;\n\nab");
}

#[test]
fn merge_drops_remote_imports_outside_deno_only() {
    let file = "import r from \"https://r\";\nimport l from \"./l.ts\";\nimport p from \"p\";\nbody";
    assert_eq!(
        merge_files(Runtime::Deno, &vec![file]),
        "import r from \"https://r\";\nimport p from \"p\";\n\nbody"
    );
    assert_eq!(merge_files(Runtime::NodeJs, &vec![file]), "import p from \"p\";\n\nbody");
    assert_eq!(merge_files(Runtime::ClientSide, &vec![file]), "import p from \"p\";\n\nbody");
}

#[test]
fn merge_without_imports_has_no_head() {
    assert_eq!(merge_files(Runtime::NodeJs, &vec!["\n\n  body  \n"]), "body");
    assert_eq!(merge_files(Runtime::NodeJs, &vec!["import a from \"./a\";\nbody"]), "body");
    assert_eq!(merge_files(Runtime::NodeJs, &vec![]), "");
    assert_eq!(merge_files(Runtime::Deno, &vec![""]), "");
}

#[test]
fn merge_keeps_equal_import_lines() {
    let file = "import a;\nimport a;\nx";
    assert_eq!(merge_files(Runtime::Deno, &vec![file, file]), "import a;\nimport a;\nimport a;\nimport a;\n\nxx");
}

#[test]
fn merge_treats_any_line_beginning_with_import_as_one() {
    assert_eq!(merge_files(Runtime::Deno, &vec!["important();\nx"]), "important();\n\nx");
    assert_eq!(merge_files(Runtime::Deno, &vec!["// import\nx"]), "// import\nx");
}
