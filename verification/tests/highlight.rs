use thetadata_terminal_manager::highlight::{highlight_config_text, Chunk};

fn chunk(text: &str, comment: bool) -> Chunk {
    Chunk { text: text.to_string(), comment }
}

#[test]
fn lines_are_cut_after_their_ends() {
    assert_eq!(
        highlight_config_text("a=1\n# note\nb=2"),
        vec![chunk("a=1\n", false), chunk("# note\n", true), chunk("b=2", false)]
    );
}

#[test]
fn empty_text_has_no_lines() {
    assert_eq!(highlight_config_text(""), Vec::<Chunk>::new());
}

#[test]
fn final_line_end_opens_no_new_line() {
    assert_eq!(highlight_config_text("a\n"), vec![chunk("a\n", false)]);
    assert_eq!(highlight_config_text("\n"), vec![chunk("\n", false)]);
    assert_eq!(
        highlight_config_text("\n\n#"),
        vec![chunk("\n", false), chunk("\n", false), chunk("#", true)]
    );
}

#[test]
fn comment_may_be_indented() {
    assert_eq!(
        highlight_config_text("  \t# x\n\u{3000}#y\n x # z\n"),
        vec![chunk("  \t# x\n", true), chunk("\u{3000}#y\n", true), chunk(" x # z\n", false)]
    );
}

#[test]
fn white_space_alone_is_no_comment() {
    assert_eq!(highlight_config_text("   "), vec![chunk("   ", false)]);
    assert_eq!(highlight_config_text(" \r\n#"), vec![chunk(" \r\n", false), chunk("#", true)]);
}

#[test]
fn chunks_put_together_give_the_text() {
    let text = "# head\r\n\r\nkey = value # not a comment\n   # tail";
    let chunks = highlight_config_text(text);
    let joined: String = chunks.iter().map(|c| c.text.as_str()).collect();
    assert_eq!(joined, text);
    let flags: Vec<bool> = chunks.iter().map(|c| c.comment).collect();
    assert_eq!(flags, vec![true, false, false, true]);
}
