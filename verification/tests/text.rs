use roslyn_official::paths::{file_name, join, parent};
use roslyn_official::roslyn::RoslynOfficial;
use roslyn_official::text::{is_white_space, lines_of, split_text, trim, word};
use roslyn_official::version::{is_before, major_and_minor, parse_number};
use std::path::Path;

/// All texts of at most `len` characters out of `alphabet`.
fn texts(alphabet: &[char], len: usize) -> Vec<String> {
    let mut all = vec![String::new()];
    let mut last = vec![String::new()];
    for _ in 0..len {
        let mut next = Vec::new();
        for text in &last {
            for c in alphabet {
                let mut longer = text.clone();
                longer.push(*c);
                next.push(longer);
            }
        }
        all.extend(next.iter().cloned());
        last = next;
    }
    all
}

#[test]
fn white_space_is_that_of_unicode() {
    for code in 0..=0x10ffffu32 {
        if let Some(c) = char::from_u32(code) {
            assert_eq!(is_white_space(c), c.is_whitespace(), "{:x}", code);
        }
    }
}

#[test]
fn text_is_trimmed() {
    assert_eq!(trim("  /usr/bin/dotnet \r\n"), "/usr/bin/dotnet");
    assert_eq!(trim("\u{a0}a b\u{3000}"), "a b");
    assert_eq!(trim(" \n\t"), "");
    for text in texts(&[' ', '\n', 'a', '\u{2003}'], 5) {
        assert_eq!(trim(&text), text.trim());
    }
}

#[test]
fn first_words_are_found() {
    assert_eq!(word("9.0.100 [/usr/share/dotnet/sdk]"), Some("9.0.100".to_string()));
    assert_eq!(word("  \t"), None);
    for text in texts(&[' ', '\r', 'a', '\u{e9}'], 5) {
        assert_eq!(word(&text).as_deref(), text.split_whitespace().next());
    }
}

#[test]
fn text_is_split() {
    assert_eq!(split_text("1.2.3", '.'), vec!["1", "2", "3"]);
    assert_eq!(split_text("", '.'), vec![""]);
    assert_eq!(split_text(".", '.'), vec!["", ""]);
    for text in texts(&['.', 'a', '\u{fc}'], 6) {
        let expected: Vec<&str> = text.split('.').collect();
        assert_eq!(split_text(&text, '.'), expected);
    }
}

#[test]
fn lines_are_found() {
    assert_eq!(lines_of("a\r\nb\nc"), vec!["a", "b", "c"]);
    assert_eq!(lines_of("a\n\n"), vec!["a", ""]);
    assert_eq!(lines_of("a\r"), vec!["a\r"]);
    assert!(lines_of("").is_empty());
    for text in texts(&['\n', '\r', 'a'], 7) {
        let expected: Vec<&str> = text.lines().collect();
        assert_eq!(lines_of(&text), expected, "{:?}", text);
    }
}

#[test]
fn parents_are_found() {
    assert_eq!(parent("/usr/share/dotnet/dotnet"), Some("/usr/share/dotnet".to_string()));
    assert_eq!(parent("dotnet"), Some(String::new()));
    assert_eq!(parent("/dotnet"), Some("/".to_string()));
    assert_eq!(parent("a//b/./c/"), Some("a//b".to_string()));
    assert_eq!(parent("/"), None);
    assert_eq!(parent(""), None);
    for path in texts(&['/', '.', 'a', 'b'], 7) {
        let expected = Path::new(&path).parent().map(|p| p.to_string_lossy().to_string());
        assert_eq!(parent(&path), expected, "{:?}", path);
    }
}

#[test]
fn file_names_are_found() {
    assert_eq!(file_name("/usr/lib/dotnet/9.0.100"), Some("9.0.100".to_string()));
    assert_eq!(file_name("a/.."), None);
    for path in texts(&['/', '.', 'a', 'b'], 7) {
        let expected = Path::new(&path).file_name().map(|p| p.to_string_lossy().to_string());
        assert_eq!(file_name(&path), expected, "{:?}", path);
    }
}

#[test]
fn paths_are_joined() {
    assert_eq!(join("/usr/share/dotnet/sdk", "9.0.100"), "/usr/share/dotnet/sdk/9.0.100");
    assert_eq!(join("/usr/", "9.0.100"), "/usr/9.0.100");
    assert_eq!(join("/usr", "/opt"), "/opt");
    assert_eq!(join("", "a"), "a");
    let all = texts(&['/', '.', 'a'], 4);
    for base in &all {
        for rest in &all {
            let expected = Path::new(base).join(rest).to_string_lossy().to_string();
            assert_eq!(&join(base, rest), &expected, "{:?} {:?}", base, rest);
        }
    }
}

#[test]
fn what_is_joined_lies_in_its_base() {
    assert_eq!(parent(&join("/opt/9.0.1/", "dotnet")), Some("/opt/9.0.1".to_string()));
    assert_eq!(file_name(&join("/opt/9.0.1/", "dotnet")), Some("dotnet".to_string()));
}

#[test]
fn numbers_are_read() {
    assert_eq!(parse_number("4294967295"), Some(4294967295));
    assert_eq!(parse_number("4294967296"), None);
    assert_eq!(parse_number("0010"), Some(10));
    assert_eq!(parse_number("+7"), Some(7));
    assert_eq!(parse_number("99999999999999999999999"), None);
    for text in texts(&['+', '-', '0', '9', 'x'], 5) {
        assert_eq!(parse_number(&text), text.parse::<u32>().ok(), "{:?}", text);
    }
}

#[test]
fn versions_are_read() {
    assert_eq!(RoslynOfficial::parse_dotnet_version("9.0.100"), Some(vec![9, 0, 100]));
    assert_eq!(RoslynOfficial::parse_dotnet_version("10"), Some(vec![10]));
    assert_eq!(RoslynOfficial::parse_dotnet_version(""), None);
    assert_eq!(RoslynOfficial::parse_dotnet_version("9."), None);
    assert_eq!(RoslynOfficial::parse_dotnet_version("9.0.100-preview.1"), None);
    for text in texts(&['.', '+', '1', '2', 'x'], 5) {
        let expected: Option<Vec<u32>> = text.split('.').map(|part| part.parse().ok()).collect();
        assert_eq!(RoslynOfficial::parse_dotnet_version(&text), expected, "{:?}", text);
    }
}

#[test]
fn versions_are_ordered() {
    let versions = vec![
        vec![],
        vec![8],
        vec![8, 0, 400],
        vec![9, 0],
        vec![9, 0, 0],
        vec![9, 0, 100],
        vec![10, 0, 1],
    ];
    for (i, a) in versions.iter().enumerate() {
        for (j, b) in versions.iter().enumerate() {
            assert_eq!(is_before(a, b), i < j);
            assert_eq!(is_before(a, b), a < b);
        }
    }
}

#[test]
fn versions_are_shortened() {
    assert_eq!(major_and_minor("9.0.100"), "9.0");
    assert_eq!(major_and_minor("9.0"), "9.0");
    assert_eq!(major_and_minor("9"), "9");
    for text in texts(&['.', '1', 'a'], 6) {
        let expected = text.split('.').take(2).collect::<Vec<_>>().join(".");
        assert_eq!(major_and_minor(&text), expected, "{:?}", text);
    }
}
