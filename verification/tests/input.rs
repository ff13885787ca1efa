use danmu_terminal::input::EditorInput;
use danmu_terminal::unicode::{
    column_line, fit_display_width, repeat_char, wrapped_cursor_position, wrapped_input_lines,
};
use tui_input::{Input, InputRequest};
use unicode_segmentation::UnicodeSegmentation;
use unicode_width::UnicodeWidthStr;

#[test]
fn edits_unicode_graphemes_without_splitting_them() {
    let mut input = EditorInput::from_text("a👨‍👩‍👧‍👦你");
    input.move_left();
    input.delete_before_cursor();
    assert_eq!(input.as_str(), "a你");
    assert_eq!(input.cursor(), 1);
}

#[test]
fn inserts_text_at_the_current_grapheme_cursor() {
    let mut input = EditorInput::from_text("甲乙");
    input.set_cursor(1);
    input.insert_text("🙂");
    assert_eq!(input.as_str(), "甲🙂乙");
    assert_eq!(input.cursor(), 2);
}

#[test]
fn paste_normalizes_line_endings_without_inserting_terminal_controls() {
    for (multiline, expected) in [(false, "甲A B C乙"), (true, "甲A\nB C乙")] {
        let mut input = EditorInput::from_text("甲乙");
        input.set_cursor(1);
        input.insert_paste("A\r\nB\tC\u{1b}\u{3}\u{10}\u{7f}\u{85}", multiline);
        assert_eq!(input.as_str(), expected);
    }
}

#[test]
fn words_and_line_ends_are_edited() {
    let mut input = EditorInput::from_string("one two three".to_owned());
    assert_eq!(input.cursor(), 13);
    input.delete_previous_word();
    assert_eq!(input.as_str(), "one two ");
    input.move_to_start();
    assert_eq!(input.cursor(), 0);
    input.move_word_right();
    assert_eq!(input.cursor(), 4);
    input.delete_to_end();
    assert_eq!(input.as_str(), "one ");
    input.move_word_left();
    assert_eq!(input.cursor(), 0);
    input.delete_at_cursor();
    assert_eq!(input.as_str(), "ne ");
    input.move_to_end();
    assert_eq!(input.previous_grapheme().as_deref(), Some(" "));
    assert_eq!(input.take(), "ne ");
    assert!(input.is_empty());
    assert_eq!(input.previous_grapheme(), None);
}

#[test]
fn an_edge_moves_no_further() {
    let mut input = EditorInput::from_text("你");
    input.move_right();
    assert_eq!(input.cursor(), 1);
    input.delete_at_cursor();
    assert_eq!(input.as_str(), "你");
    input.move_to_start();
    input.move_left();
    input.delete_before_cursor();
    assert_eq!(input.as_str(), "你");
    input.clear();
    assert!(input.is_empty());
    input.replace("甲".to_owned());
    assert_eq!(input.as_str(), "甲");
    assert_eq!(input.cursor(), 1);
}

#[test]
fn text_is_cut_to_its_columns() {
    assert_eq!(fit_display_width("你好", 4), "你好");
    let cut = fit_display_width("你好世界", 5);
    assert_eq!(cut, "你好…");
    assert!(UnicodeWidthStr::width(cut.as_str()) <= 5);
    assert_eq!(fit_display_width("你好", 0), "");
    assert_eq!(repeat_char('─', 3), "───");
}

#[test]
fn a_line_has_its_two_columns() {
    let line = column_line("名称", "值", 20, 8);
    assert!(line.contains("名称"));
    assert!(line.contains("值"));
    assert!(UnicodeWidthStr::width(line.as_str()) <= 20);
}

#[test]
fn wrapping_gives_all_of_the_text_back() {
    let value = "第一行内容很长需要换行显示";
    let lines = wrapped_input_lines(value, 8);
    assert_eq!(lines.len(), 4);
    assert_eq!(lines.concat(), value);
    for line in &lines {
        assert!(UnicodeWidthStr::width(line.as_str()) <= 8);
    }
    assert_eq!(wrapped_cursor_position("abcd", 2, 8), (0, 2));
}

/// The edges of the clusters of a text, in characters.
fn edges(text: &str) -> Vec<usize> {
    let mut edges = vec![0];
    for cluster in text.graphemes(true) {
        edges.push(edges.last().unwrap() + cluster.chars().count());
    }
    edges
}

#[test]
fn steps_go_to_the_nearest_edge_of_a_cluster() {
    let signs = [
        'a', '\u{301}', '\u{200d}', '👩', '🏽', '🇨', '🇳', '\u{fe0f}', 'क', '\u{94d}', '\u{93c}', '\r',
        '\n', '각', '\u{1100}', '\u{1161}', '\u{600}', '正', '\u{e0020}', '\u{9cd}',
    ];
    let mut state: u64 = 7;
    for _ in 0..4000 {
        let mut line = String::new();
        for _ in 0..9 {
            state = state.wrapping_mul(6364136223846793005).wrapping_add(1442695040888963407);
            line.push(signs[(state >> 33) as usize % signs.len()]);
        }
        let edges = edges(&line);
        let count = line.chars().count();
        for at in 0..=count {
            let before = edges.iter().rev().find(|edge| **edge < at).copied().unwrap_or(0);
            let after = edges.iter().find(|edge| **edge > at).copied().unwrap_or(count);
            let mut input = Input::new(line.clone()).with_cursor(at);
            input.handle(InputRequest::GoToPrevChar);
            assert_eq!(input.cursor(), before, "{line:?} {at}");
            let mut input = Input::new(line.clone()).with_cursor(at);
            input.handle(InputRequest::GoToNextChar);
            assert_eq!(input.cursor(), after, "{line:?} {at}");
        }
    }
}

#[test]
fn deletions_take_whole_clusters_away() {
    let mut input = EditorInput::from_text("甲👩🏽‍🚀乙");
    input.move_left();
    input.delete_before_cursor();
    assert_eq!(input.as_str(), "甲乙");
    let mut input = EditorInput::from_text("e\u{301}🇨🇳x");
    input.move_to_start();
    input.delete_at_cursor();
    assert_eq!(input.as_str(), "🇨🇳x");
    input.move_right();
    assert_eq!(input.cursor(), 1);
    input.delete_before_cursor();
    assert_eq!(input.as_str(), "x");
}
