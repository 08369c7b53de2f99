use trane_cli::cli::{
    command_arguments, dependency_version, highlight_hint, highlight_prompt, search_query,
    InvalidKeyValue, KeyValue,
};
use trane_cli::text::{decimal, split, trim};

fn strings(values: &[&str]) -> Vec<String> {
    values.iter().map(|value| value.to_string()).collect()
}

fn pair(key: &str, value: &str) -> Result<KeyValue, InvalidKeyValue> {
    Ok(KeyValue { key: key.to_string(), value: value.to_string() })
}

#[test]
fn key_value_is_key_colon_value() {
    assert_eq!(KeyValue::parse("genre:jazz"), pair("genre", "jazz"));
    assert_eq!(KeyValue::parse("  genre:jazz \n"), pair("genre", "jazz"));
    assert_eq!(KeyValue::parse("a b:c d"), pair("a b", "c d"));
    assert_eq!(KeyValue::parse("key: value"), pair("key", " value"));
    assert_eq!(KeyValue::parse("schlüssel:wert€"), pair("schlüssel", "wert€"));
    assert_eq!("genre:jazz".parse::<KeyValue>(), pair("genre", "jazz"));
}

#[test]
fn key_value_rejects_other_shapes() {
    let texts = ["", " ", "genre", ":", "genre:", ":jazz", " :jazz", "a:b:c", "a::b", "::", "a:b:"];
    for text in texts {
        assert_eq!(KeyValue::parse(text), Err(InvalidKeyValue));
        assert!(text.parse::<KeyValue>().is_err());
    }
    // White space inside counts as text: only the ends are trimmed.
    assert_eq!(KeyValue::parse(" : "), Err(InvalidKeyValue));
    assert_eq!(KeyValue::parse("a : b"), pair("a ", " b"));
    assert_eq!(KeyValue::error_message(), "Invalid key-value pair");
}

#[test]
fn command_line_gets_the_program_name() {
    assert_eq!(command_arguments("next"), Some(strings(&["trane", "next"])));
    assert_eq!(command_arguments("  score 5  "), Some(strings(&["trane", "score", "5"])));
    assert_eq!(command_arguments("trane score 5"), Some(strings(&["trane", "score", "5"])));
    assert_eq!(command_arguments("trane"), Some(strings(&["trane"])));
    assert_eq!(command_arguments("tranes"), Some(strings(&["trane", "tranes"])));
    // Every blank cuts: two blanks in a row leave an empty argument.
    assert_eq!(command_arguments("open  lib"), Some(strings(&["trane", "open", "", "lib"])));
    assert_eq!(command_arguments("a\tb"), Some(strings(&["trane", "a\tb"])));
}

#[test]
fn comments_and_empty_lines_are_ignored() {
    for line in ["", " ", "\t\n", "#", "# a comment", "   #next", "#trane next"] {
        assert_eq!(command_arguments(line), None);
    }
    assert_eq!(command_arguments("next # not a comment"),
        Some(strings(&["trane", "next", "#", "not", "a", "comment"])));
}

#[test]
fn search_query_quotes_each_term() {
    assert_eq!(search_query(&[]), None);
    assert_eq!(search_query(&strings(&["jazz"])), Some("\"jazz\"".to_string()));
    assert_eq!(
        search_query(&strings(&["john", "coltrane"])),
        Some("\"john\" \"coltrane\"".to_string())
    );
    assert_eq!(
        search_query(&strings(&["a b", "", "c"])),
        Some("\"a b\" \"\" \"c\"".to_string())
    );
}

#[test]
fn prompt_and_hint_are_highlighted() {
    assert_eq!(highlight_prompt("trane >> ", true), "\x1b[1;31mtrane >> \x1b[0m");
    assert_eq!(highlight_prompt("trane >> ", false), "trane >> ");
    assert_eq!(highlight_hint("next"), "\x1b[1mnext\x1b[m");
}

#[test]
fn dependency_version_is_that_of_the_first_entry() {
    let dependencies = vec![
        ("anyhow".to_string(), "1.0.0".to_string()),
        ("trane".to_string(), "0.23.0".to_string()),
        ("trane".to_string(), "0.1.0".to_string()),
    ];
    assert_eq!(dependency_version(&dependencies, "trane"), Some("0.23.0".to_string()));
    assert_eq!(dependency_version(&dependencies, "anyhow"), Some("1.0.0".to_string()));
    assert_eq!(dependency_version(&dependencies, "tran"), None);
    assert_eq!(dependency_version(&[], "trane"), None);
}

#[test]
fn trim_removes_white_space_at_both_ends() {
    assert_eq!(trim(""), "");
    assert_eq!(trim("   "), "");
    assert_eq!(trim("a"), "a");
    assert_eq!(trim("  a b \t\r\n"), "a b");
    assert_eq!(trim("\u{a0}\u{3000}x\u{2003}"), "x");
    assert_eq!(trim("\u{200b}x"), "\u{200b}x");
    for text in ["", " a ", "\n\ta  b\n", "ü ", " \u{1680}é\u{2028}"] {
        assert_eq!(trim(text), text.trim());
    }
}

#[test]
fn split_cuts_at_every_separator() {
    assert_eq!(split("", ':'), strings(&[""]));
    assert_eq!(split("a", ':'), strings(&["a"]));
    assert_eq!(split("a:b", ':'), strings(&["a", "b"]));
    assert_eq!(split(":", ':'), strings(&["", ""]));
    assert_eq!(split("a::b:", ':'), strings(&["a", "", "b", ""]));
    assert_eq!(split("ä é", ' '), strings(&["ä", "é"]));
    for text in ["", "::", "a:b:c", ":a", "a:", "日:本:語"] {
        let expected: Vec<String> = text.split(':').map(str::to_string).collect();
        assert_eq!(split(text, ':'), expected);
    }
}

#[test]
fn decimal_writes_numbers_without_leading_zeros() {
    assert_eq!(decimal(0), "0");
    assert_eq!(decimal(7), "7");
    assert_eq!(decimal(10), "10");
    assert_eq!(decimal(99), "99");
    assert_eq!(decimal(100), "100");
    assert_eq!(decimal(105), "105");
    assert_eq!(decimal(255), "255");
    for number in 0..=255u8 {
        assert_eq!(decimal(number), number.to_string());
    }
}
