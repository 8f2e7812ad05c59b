use ansi_term::Colour::{Blue, Cyan, Green, Red, Yellow};
use ansi_term::{ANSIString, ANSIStrings};
use prompt_status::path::{prompt_line, shorten_path};
use prompt_status::render::{paint, summary_tokens, Colour, Style, Token};
use prompt_status::repo::{divergence, summarize};
use prompt_status::status::{
    classify, Flags, CURRENT, INDEX_DELETED, INDEX_MODIFIED, INDEX_NEW, INDEX_RENAMED,
    INDEX_TYPECHANGE, WT_DELETED, WT_MODIFIED, WT_NEW, WT_RENAMED, WT_TYPECHANGE,
};

fn texts(tokens: &[Token]) -> Vec<String> {
    tokens.iter().map(|t| t.text.clone()).collect()
}

fn flags(dirty: bool, new_files: bool, untracked: bool, deleted: bool, moved: bool) -> Flags {
    Flags { dirty, new_files, untracked, deleted, moved }
}

fn tokens_for(branch: &str, entries: Vec<u32>, counts: Option<(usize, usize)>) -> Vec<String> {
    let f = classify(&entries);
    let (ahead, behind) = divergence(counts);
    texts(&summary_tokens(branch, f, ahead, behind))
}

#[test]
fn only_index_new_sets_new_flag() {
    assert_eq!(classify(&vec![INDEX_NEW]), flags(false, true, false, false, false));
    assert_eq!(classify(&vec![INDEX_NEW, INDEX_NEW, INDEX_NEW]), flags(false, true, false, false, false));
}

#[test]
fn unchanged_entries_are_clean() {
    let f = classify(&vec![]);
    assert!(f.is_clean());
    let f = classify(&vec![CURRENT, CURRENT]);
    assert!(f.is_clean());
    assert_eq!(tokens_for("main", vec![CURRENT], None), vec!["main", " ✔"]);
}

#[test]
fn each_status_bit_sets_its_flag() {
    assert_eq!(classify(&vec![INDEX_MODIFIED]), flags(true, false, false, false, false));
    assert_eq!(classify(&vec![INDEX_TYPECHANGE]), flags(true, false, false, false, false));
    assert_eq!(classify(&vec![WT_MODIFIED]), flags(true, false, false, false, false));
    assert_eq!(classify(&vec![WT_TYPECHANGE]), flags(true, false, false, false, false));
    assert_eq!(classify(&vec![WT_NEW]), flags(false, false, true, false, false));
    assert_eq!(classify(&vec![INDEX_DELETED]), flags(false, false, false, true, false));
    assert_eq!(classify(&vec![WT_DELETED]), flags(false, false, false, true, false));
    assert_eq!(classify(&vec![INDEX_RENAMED]), flags(false, false, false, false, true));
    assert_eq!(classify(&vec![WT_RENAMED]), flags(false, false, false, false, true));
    assert_eq!(classify(&vec![INDEX_NEW | WT_MODIFIED]), flags(true, true, false, false, false));
}

#[test]
fn summary_is_the_same_when_read_again() {
    let entries = vec![WT_MODIFIED, WT_NEW, INDEX_RENAMED];
    let first = summarize("main", &entries, Some((1, 2)));
    let second = summarize("main", &entries, Some((1, 2)));
    assert_eq!(first, second);
}

#[test]
fn glyph_order_ignores_entry_order() {
    let a = vec![WT_RENAMED, INDEX_DELETED, WT_NEW, INDEX_NEW, WT_MODIFIED];
    let b = vec![WT_MODIFIED, INDEX_NEW, WT_NEW, INDEX_DELETED, WT_RENAMED];
    assert_eq!(classify(&a), classify(&b));
    assert_eq!(tokens_for("dev", a.clone(), None), vec!["dev", "＊", "＋", "？", "Ｘ", "➜"]);
    assert_eq!(summarize("dev", &a, Some((1, 1))), summarize("dev", &b, Some((1, 1))));
}

#[test]
fn no_upstream_means_no_arrows() {
    assert_eq!(divergence(None), (false, false));
    assert_eq!(divergence(Some((3, 0))), (true, false));
    assert_eq!(divergence(Some((0, 4))), (false, true));
    assert_eq!(divergence(Some((0, 0))), (false, false));
    assert_eq!(tokens_for("main", vec![WT_MODIFIED], None), vec!["main", "＊"]);
}

#[test]
fn modified_and_untracked_on_main() {
    let tokens = summary_tokens("main", classify(&vec![WT_MODIFIED, WT_NEW]), false, false);
    assert_eq!(texts(&tokens), vec!["main", "＊", "？"]);
    assert_eq!(tokens[0].style, Style { colour: Colour::Green, bold: false });
    assert_eq!(tokens[1].style, Style { colour: Colour::Blue, bold: false });
    assert_eq!(tokens[2].style, Style { colour: Colour::Yellow, bold: true });
    let expected: Vec<ANSIString> = vec![Green.paint("main"), Blue.paint("＊"), Yellow.bold().paint("？")];
    assert_eq!(summarize("main", &vec![WT_MODIFIED, WT_NEW], None), ANSIStrings(&expected).to_string());
}

#[test]
fn clean_branch_ahead_of_upstream() {
    assert_eq!(tokens_for("feature/x", vec![], Some((2, 0))), vec!["feature/x", " ✔", " ↑"]);
    let expected: Vec<ANSIString> = vec![Green.paint("feature/x"), Green.bold().paint(" ✔"), Cyan.paint(" ↑")];
    assert_eq!(summarize("feature/x", &vec![], Some((2, 0))), ANSIStrings(&expected).to_string());
}

#[test]
fn outside_a_repository_prints_path_and_space() {
    let line = prompt_line("/tmp/work", Some("/home/ann"), None);
    assert_eq!(line, format!("{} {}", Blue.paint("/tmp/work"), Green.paint("")));
}

#[test]
fn prompt_line_with_summary() {
    let summary = summarize("main", &vec![], None);
    let line = prompt_line("/home/ann/src", Some("/home/ann"), Some(summary.clone()));
    assert_eq!(line, format!("{} {}", Blue.paint("~/src"), Green.paint(summary.as_str())));
}

#[test]
fn deleted_glyph_is_red_and_bold() {
    let tokens = summary_tokens("main", classify(&vec![WT_DELETED]), false, false);
    assert_eq!(texts(&tokens), vec!["main", "Ｘ"]);
    let expected: Vec<ANSIString> = vec![Green.paint("main"), Red.bold().paint("Ｘ")];
    assert_eq!(summarize("main", &vec![WT_DELETED], None), ANSIStrings(&expected).to_string());
}

#[test]
fn ahead_spacing_rules() {
    assert_eq!(tokens_for("m", vec![WT_MODIFIED], Some((1, 0))), vec!["m", "＊", "↑"]);
    assert_eq!(tokens_for("m", vec![WT_DELETED], Some((1, 0))), vec!["m", "Ｘ", " ↑"]);
    assert_eq!(tokens_for("m", vec![WT_RENAMED], Some((1, 0))), vec!["m", "➜", " ↑"]);
    assert_eq!(tokens_for("m", vec![WT_NEW], Some((1, 0))), vec!["m", "？", "↑"]);
}

#[test]
fn behind_spacing_rules() {
    assert_eq!(tokens_for("m", vec![], Some((0, 1))), vec!["m", " ✔", " ↓"]);
    assert_eq!(tokens_for("m", vec![WT_RENAMED], Some((0, 1))), vec!["m", "➜", " ↓"]);
    assert_eq!(tokens_for("m", vec![WT_DELETED], Some((0, 1))), vec!["m", "Ｘ", "↓"]);
    assert_eq!(tokens_for("m", vec![], Some((2, 3))), vec!["m", " ✔", " ↑", "↓"]);
    assert_eq!(tokens_for("m", vec![WT_MODIFIED], Some((2, 3))), vec!["m", "＊", "↑", "↓"]);
}

#[test]
fn shorten_path_replaces_leading_home() {
    assert_eq!(shorten_path("/home/ann/src", Some("/home/ann")), "~/src");
    assert_eq!(shorten_path("/home/ann", Some("/home/ann")), "~");
    assert_eq!(shorten_path("/srv/home/ann", Some("/home/ann")), "/srv/home/ann");
    assert_eq!(shorten_path("/tmp", None), "");
}

#[test]
fn paint_wraps_text_in_escape_codes() {
    assert_eq!(paint(Colour::Blue, "x"), Blue.paint("x").to_string());
    assert_ne!(paint(Colour::Blue, "x"), "x");
}
