use rust_concepts::runner::{
    banner, chapters, dispatch, lookup, preamble, usage, usage_line, Chapter, Dispatch,
};

fn args(list: &[&str]) -> Vec<String> {
    list.iter().map(|s| s.to_string()).collect()
}

fn usage_block() -> Vec<String> {
    args(&[
        "Please specify a module to run. Examples:",
        "cargo run -- 01 (or ch01, or ownership)",
        "cargo run -- 02 (or ch02, or borrowing)",
        "cargo run -- 03 (or ch03, or lifetime)",
        "cargo run -- 04 (or ch04, or pattern_matching)",
    ])
}

#[test]
fn test_selector_01_shows_ownership_banner() {
    let d = dispatch(&args(&["prog", "01"]));
    assert_eq!(d, Dispatch::Run(Chapter::Ownership));
    let out = preamble(d);
    assert_eq!(out[0], "Demonstrating Rust ownership!");
    assert_eq!(out[1], "--------------");
    assert_eq!(out.len(), 2);
}

#[test]
fn test_no_arguments_show_usage() {
    let d = dispatch(&args(&["prog"]));
    assert_eq!(d, Dispatch::Usage);
    assert_eq!(preamble(d), usage_block());
    assert_eq!(preamble(dispatch(&Vec::new())), usage_block());
}

#[test]
fn test_nonexistent_selector_shows_usage() {
    let none = preamble(dispatch(&args(&["prog"])));
    let unknown = preamble(dispatch(&args(&["prog", "nonexistent"])));
    assert_eq!(unknown, none);
    assert_eq!(preamble(dispatch(&args(&["prog", "99"]))), none);
}

#[test]
fn test_selectors_match_exactly() {
    assert_eq!(lookup(&"Ownership".to_string()), None);
    assert_eq!(lookup(&"1".to_string()), None);
    assert_eq!(lookup(&"ch0".to_string()), None);
    assert_eq!(lookup(&"01 ".to_string()), None);
    assert_eq!(lookup(&"".to_string()), None);
    assert_eq!(lookup(&"lifetimes".to_string()), None);
}

#[test]
fn test_every_alias_picks_its_chapter() {
    let table = [
        (Chapter::Ownership, ["01", "ch01", "ownership"]),
        (Chapter::Borrowing, ["02", "ch02", "borrowing"]),
        (Chapter::Lifetime, ["03", "ch03", "lifetime"]),
        (Chapter::PatternMatching, ["04", "ch04", "pattern_matching"]),
    ];
    for (chapter, aliases) in table.iter() {
        let first = preamble(dispatch(&args(&["prog", aliases[0]])));
        for alias in aliases.iter() {
            assert_eq!(lookup(&alias.to_string()), Some(*chapter));
            let d = dispatch(&args(&["prog", alias]));
            assert_eq!(d, Dispatch::Run(*chapter));
            assert_eq!(preamble(d), first);
        }
        assert_eq!(chapter.aliases(), args(aliases));
    }
}

#[test]
fn test_banners() {
    assert_eq!(
        banner(Chapter::Borrowing),
        args(&["Demonstrating Rust borrowing!", "--------------"])
    );
    assert_eq!(
        banner(Chapter::Lifetime),
        args(&["Demonstrating Rust lifetimes!", "--------------"])
    );
    assert_eq!(
        banner(Chapter::PatternMatching),
        args(&["Demonstrating Rust pattern matching!", "--------------"])
    );
    assert_eq!(Chapter::PatternMatching.topic(), "pattern matching");
}

#[test]
fn test_usage_lists_chapters_in_order() {
    let out = usage();
    assert_eq!(out, usage_block());
    let chs = chapters();
    assert_eq!(
        chs,
        vec![
            Chapter::Ownership,
            Chapter::Borrowing,
            Chapter::Lifetime,
            Chapter::PatternMatching
        ]
    );
    for (i, c) in chs.iter().enumerate() {
        assert_eq!(out[i + 1], usage_line(*c));
    }
    assert_eq!(usage_line(Chapter::Lifetime), "cargo run -- 03 (or ch03, or lifetime)");
}

#[test]
fn test_same_selector_same_output() {
    let first = preamble(dispatch(&args(&["prog", "ch03"])));
    let second = preamble(dispatch(&args(&["other", "ch03", "extra"])));
    assert_eq!(first, second);
    assert_eq!(first, args(&["Demonstrating Rust lifetimes!", "--------------"]));
}
