use wallpaper_ctl::command::{dispatch, parse_index, text_eq, Command};
use wallpaper_ctl::usage::{usage, USAGE};

fn args(tokens: &[&str]) -> Vec<String> {
    tokens.iter().map(|t| String::from(*t)).collect()
}

#[test]
fn parse_index_reads_decimal_digits() {
    assert_eq!(parse_index("0"), Some(0));
    assert_eq!(parse_index("12"), Some(12));
    assert_eq!(parse_index("007"), Some(7));
    assert_eq!(parse_index("4294967295"), Some(4294967295));
}

#[test]
fn parse_index_accepts_one_plus_sign() {
    assert_eq!(parse_index("+5"), Some(5));
    assert_eq!(parse_index("+"), None);
    assert_eq!(parse_index("++5"), None);
    assert_eq!(parse_index("5+"), None);
}

#[test]
fn parse_index_rejects_what_is_no_number() {
    assert_eq!(parse_index(""), None);
    assert_eq!(parse_index("all"), None);
    assert_eq!(parse_index("random"), None);
    assert_eq!(parse_index("-1"), None);
    assert_eq!(parse_index("-0"), None);
    assert_eq!(parse_index("1 "), None);
    assert_eq!(parse_index(" 1"), None);
    assert_eq!(parse_index("1.0"), None);
    assert_eq!(parse_index("0x10"), None);
    assert_eq!(parse_index("\u{0663}"), None);
    assert_eq!(parse_index("1\u{e9}"), None);
}

#[test]
fn parse_index_rejects_what_does_not_fit() {
    let max = usize::MAX.to_string();
    assert_eq!(parse_index(&max), Some(usize::MAX));
    let mut beyond = max.clone();
    beyond.push('0');
    assert_eq!(parse_index(&beyond), None);
    assert_eq!(parse_index("340282366920938463463374607431768211456"), None);
    if usize::BITS == 64 {
        assert_eq!(parse_index("18446744073709551615"), Some(usize::MAX));
        assert_eq!(parse_index("18446744073709551616"), None);
        assert_eq!(parse_index("18446744073709551620"), None);
    }
}

#[test]
fn parse_index_agrees_with_std() {
    for token in ["", "+", "-", "0", "+0", "-0", "42", "+42", "0042", "4 2", "four", "18446744073709551615", "18446744073709551616", "99999999999999999999999"] {
        assert_eq!(parse_index(token), token.parse::<usize>().ok(), "token {:?}", token);
    }
}

#[test]
fn text_eq_compares_whole_texts() {
    assert!(text_eq("", ""));
    assert!(text_eq("png", "png"));
    assert!(!text_eq("png", "PNG"));
    assert!(!text_eq("png", "pn"));
    assert!(!text_eq("pn", "png"));
    assert!(!text_eq("jpg", "jpe"));
    assert!(text_eq("\u{e9}\u{1F600}", "\u{e9}\u{1F600}"));
    assert!(!text_eq("\u{e9}", "e"));
}

#[test]
fn dispatch_without_command_is_usage() {
    assert_eq!(dispatch(&args(&[])), Command::Usage);
    assert_eq!(dispatch(&args(&["pwc"])), Command::Usage);
}

#[test]
fn dispatch_known_commands() {
    assert_eq!(dispatch(&args(&["pwc", "ls"])), Command::Ls);
    assert_eq!(dispatch(&args(&["pwc", "ls", "all"])), Command::Ls);
    assert_eq!(dispatch(&args(&["pwc", "set", "0", "a.png"])), Command::SetWallpaper);
    assert_eq!(dispatch(&args(&["pwc", "slideshow"])), Command::Slideshow);
    assert_eq!(dispatch(&args(&["pwc", "slideshow", "advance"])), Command::Slideshow);
}

#[test]
fn dispatch_unknown_command_is_usage() {
    assert_eq!(dispatch(&args(&["pwc", "list"])), Command::Usage);
    assert_eq!(dispatch(&args(&["pwc", "LS"])), Command::Usage);
    assert_eq!(dispatch(&args(&["pwc", ""])), Command::Usage);
    assert_eq!(dispatch(&args(&["pwc", "ls "])), Command::Usage);
    assert_eq!(dispatch(&args(&["ls"])), Command::Usage);
}

#[test]
fn usage_names_every_command() {
    let text = usage();
    assert_eq!(text, USAGE);
    assert!(text.starts_with("USAGE\n\nCOMMANDS\t\t\tls, set, slideshow\n\n"));
    assert!(text.contains("ls\t\t\t\tlist wallpapers on attached monitors\n"));
    assert!(text.contains("ls n\t\t\t\tlist wallpaper on monitor at index n\n"));
    assert!(text.contains("ls all\t\t\t\tlist wallpapers on all monitors\n\n"));
    assert!(text.contains("set n {path}\t\t\tsets wallpaper of monitor n to path\n"));
    assert!(text.contains(
        "set n random {directory}\tsets wallpaper of monitor n to a random image from directory\n\n"
    ));
    assert!(text.contains("slideshow\t\t\tshow details of wallpaper slideshow\n"));
    assert!(text.ends_with("slideshow advance\t\tadvance slideshow to next wallpaper\n"));
}
