use ctest_next::rustc_version::{parse_version, RustcVersion, VersionError};
use ctest_next::text::{contains, decimal_text, join, replace_all, same_text, starts_with, tail};

#[test]
fn versions_are_ordered() {
    let old = RustcVersion::new(1, 29, 2);
    let limit = RustcVersion::new(1, 30, 0);
    let new = RustcVersion::new(1, 87, 0);
    assert!(old < limit);
    assert!(old.is_before(&limit));
    assert!(!limit.is_before(&old));
    assert!(!limit.is_before(&limit));
    assert!(limit.is_before(&new));
    assert!(RustcVersion::new(1, 30, 0).is_before(&RustcVersion::new(1, 30, 1)));
    assert!(RustcVersion::new(1, 255, 255).is_before(&RustcVersion::new(2, 0, 0)));
    assert_eq!(limit, RustcVersion::new(1, 30, 0));
    assert_ne!(limit, RustcVersion::new(1, 30, 1));
    assert_eq!(old.max(new), new);

    let a = RustcVersion::new(1, 29, 9);
    let b = RustcVersion::new(1, 30, 0);
    let c = RustcVersion::new(2, 0, 0);
    assert!(a < b && b < c && a < c && b == RustcVersion::new(1, 30, 0));
    assert_eq!(b.text(), "RustcVersion(1, 30, 0)");
}

#[test]
fn version_text() {
    assert_eq!(RustcVersion::new(1, 87, 0).text(), "RustcVersion(1, 87, 0)");
    assert_eq!(RustcVersion::new(0, 10, 255).text(), "RustcVersion(0, 10, 255)");
}

#[test]
fn decimal() {
    for n in [0u8, 1, 9, 10, 11, 99, 100, 101, 110, 200, 255] {
        assert_eq!(decimal_text(n), n.to_string());
    }
}

#[test]
fn text_operations() {
    assert!(same_text("abc", "abc"));
    assert!(!same_text("abc", "abd"));
    assert!(starts_with("c_int", "c_"));
    assert!(starts_with("c_", "c_"));
    assert!(!starts_with("c", "c_"));
    assert!(starts_with("anything", ""));
    assert!(contains("void(*)(void)", "(*)"));
    assert!(!contains("void*", "(*)"));
    assert!(contains("abc", ""));
    assert!(contains("", ""));
    assert!(contains("i686-pc-windows-msvc", "i686-pc-windows"));
    assert_eq!(tail("c_int", 2), "int");
    assert_eq!(tail("c_", 2), "");
    assert_eq!(tail("héllo", 2), "llo");
}

#[test]
fn replacing() {
    assert_eq!(replace_all("ulonglong", "long", " long"), "u long long");
    assert_eq!(replace_all("aaa", "aa", "b"), "ba");
    assert_eq!(replace_all("abc", "", "x"), "abc");
    assert_eq!(replace_all("", "a", "x"), "");
    assert_eq!(replace_all("abab", "ab", "abab"), "abababab");
    assert_eq!(replace_all("f(*)(*)", "(*)", "(*(*)(int))"), "f(*(*)(int))(*(*)(int))");
    assert_eq!(replace_all("ünï", "n", "NN"), "üNNï");
    for (s, pat, to) in [("hello world", "o", "0"), ("xxxx", "xx", "y"), ("mississippi", "ss", "SS"), ("abc", "abcd", "x")] {
        assert_eq!(replace_all(s, pat, to), s.replace(pat, to));
    }
}

#[test]
fn joining() {
    let parts = |list: &[&str]| list.iter().map(|s| s.to_string()).collect::<Vec<_>>();
    assert_eq!(join(&parts(&[]), ", "), "");
    assert_eq!(join(&parts(&["a"]), ", "), "a");
    assert_eq!(join(&parts(&["a", "b", "c"]), ", "), "a, b, c");
    assert_eq!(join(&parts(&["", ""]), "-"), "-");
}

#[test]
fn version_of_compiler_output() {
    assert_eq!(
        parse_version("rustc 1.87.0-nightly (17067e9ac 2025-05-09)\n"),
        Ok(RustcVersion::new(1, 87, 0))
    );
    assert_eq!(parse_version("rustc 1.30.1"), Ok(RustcVersion::new(1, 30, 1)));
    assert_eq!(parse_version("  rustc\t 0.0.255 (x)"), Ok(RustcVersion::new(0, 0, 255)));
    assert_eq!(parse_version("rustc 1.2.3.4"), Ok(RustcVersion::new(1, 2, 3)));
    assert_eq!(parse_version("rustc 01.002.3beta.7"), Ok(RustcVersion::new(1, 2, 3)));
    assert_eq!(parse_version("rustc 1x.2y.3z"), Ok(RustcVersion::new(1, 2, 3)));
}

#[test]
fn version_errors() {
    assert_eq!(parse_version(""), Err(VersionError::MissingVersion));
    assert_eq!(parse_version("   "), Err(VersionError::MissingVersion));
    assert_eq!(parse_version("rustc"), Err(VersionError::MissingVersion));
    assert_eq!(parse_version("rustc  \n"), Err(VersionError::MissingVersion));
    assert_eq!(parse_version("rustc 1"), Err(VersionError::Incomplete));
    assert_eq!(parse_version("rustc 1.2"), Err(VersionError::Incomplete));
    assert_eq!(parse_version("rustc 1.2 3"), Err(VersionError::Incomplete));
    assert_eq!(parse_version("rustc x"), Err(VersionError::NotANumber));
    assert_eq!(parse_version("rustc 1.x"), Err(VersionError::NotANumber));
    assert_eq!(parse_version("rustc 1."), Err(VersionError::NotANumber));
    assert_eq!(parse_version("rustc 1.2."), Err(VersionError::NotANumber));
    assert_eq!(parse_version("rustc .1.2"), Err(VersionError::NotANumber));
    assert_eq!(parse_version("rustc 1.256.0"), Err(VersionError::NotANumber));
    assert_eq!(parse_version("rustc 1.2.99999999999999999999"), Err(VersionError::NotANumber));
    assert_eq!(parse_version("rustc 256"), Err(VersionError::NotANumber));
    assert_eq!(parse_version("rustc -1.2.3"), Err(VersionError::NotANumber));
}

/// The version as the standard library's own functions read it; `None`
/// where they find no second word or fewer than three parts.
fn by_the_standard_library(output: &str) -> Option<Result<RustcVersion, ()>> {
    let word = output.split_whitespace().nth(1)?;
    let parts = word
        .split('.')
        .take(3)
        .map(|s| s.chars().take_while(|c| c.is_ascii_digit()).collect::<String>().trim().parse::<u8>())
        .collect::<Result<Vec<u8>, _>>();
    match parts {
        Err(_) => Some(Err(())),
        Ok(parts) => match parts[..] {
            [major, minor, patch] => Some(Ok(RustcVersion::new(major, minor, patch))),
            _ => None,
        },
    }
}

#[test]
fn version_agrees_with_the_standard_library() {
    let pieces = ["", " ", "\t", "\u{a0}", "\u{3000}", "rustc", "1", "25", "255", "256", "0300", ".", "..", "-", "x", "1.2.3", "١"];
    for a in pieces {
        for b in pieces {
            for c in pieces {
                for d in pieces {
                    let output = format!("{}{}{}{}", a, b, c, d);
                    let expected = by_the_standard_library(&output);
                    match parse_version(&output) {
                        Ok(version) => assert_eq!(expected, Some(Ok(version)), "{:?}", output),
                        Err(VersionError::NotANumber) => assert_eq!(expected, Some(Err(())), "{:?}", output),
                        Err(_) => assert_eq!(expected, None, "{:?}", output),
                    }
                }
            }
        }
    }
}

#[test]
fn white_space_is_that_of_unicode() {
    for c in '\0'..=char::MAX {
        let parted = parse_version(&format!("a{}1.2.3", c)).is_ok();
        assert_eq!(parted, c.is_whitespace(), "{:?}", c);
    }
}
