use clipcat::config;
use clipcat::finder::{Fuzzel, SelectionMode};

fn fuzzel(menu_length: usize, menu_prompt: &str, extra_arguments: Vec<String>) -> Fuzzel {
    Fuzzel::from(config::Fuzzel {
        line_length: 40,
        menu_length,
        menu_prompt: menu_prompt.to_owned(),
        extra_arguments,
    })
}

#[test]
fn test_args() {
    let menu_length = 30;
    let menu_prompt = "Clipcat".to_owned();
    let config = config::Fuzzel { line_length: 40, menu_length, menu_prompt, extra_arguments: Vec::new() };
    let fuzzel = Fuzzel::from(config.clone());
    assert_eq!(
        fuzzel.args(SelectionMode::Single),
        vec![
            "--dmenu".to_string(),
            "--width".to_string(),
            config.menu_length.to_string(),
            "--prompt".to_string(),
            config.menu_prompt,
        ]
    );
}

#[test]
fn args_with_prompt_have_no_trailing_tokens() {
    let f = fuzzel(30, "prompt", Vec::new());
    assert_eq!(f.args(SelectionMode::Single), vec!["--dmenu", "--width", "30", "--prompt", "prompt"]);
}

#[test]
fn args_same_for_both_modes() {
    let f = fuzzel(30, "prompt", vec!["-x".to_owned()]);
    assert_eq!(f.args(SelectionMode::Single), f.args(SelectionMode::Multiple));
}

#[test]
fn extra_arguments_follow_builtin_flags_in_order() {
    let f = fuzzel(7, "pick", vec!["--lines".to_owned(), "5".to_owned(), "--log-level=none".to_owned()]);
    assert_eq!(
        f.args(SelectionMode::Multiple),
        vec!["--dmenu", "--width", "7", "--prompt", "pick", "--lines", "5", "--log-level=none"]
    );
}

#[test]
fn width_is_decimal_for_zero_and_large_values() {
    assert_eq!(fuzzel(0, "p", Vec::new()).args(SelectionMode::Single)[2], "0");
    assert_eq!(fuzzel(1234567, "p", Vec::new()).args(SelectionMode::Single)[2], "1234567");
    assert_eq!(fuzzel(usize::MAX, "p", Vec::new()).args(SelectionMode::Single)[2], usize::MAX.to_string());
}

#[test]
fn setters_take_effect_on_next_args() {
    let mut f = fuzzel(30, "prompt", Vec::new());
    f.set_menu_length(12);
    f.set_line_length(80);
    f.set_extra_arguments(&["--a".to_owned(), "--b".to_owned()]);
    assert_eq!(f.args(SelectionMode::Single), vec!["--dmenu", "--width", "12", "--prompt", "prompt", "--a", "--b"]);
    f.set_extra_arguments(&[]);
    assert_eq!(f.args(SelectionMode::Single), vec!["--dmenu", "--width", "12", "--prompt", "prompt"]);
}

#[test]
fn program_is_fuzzel() {
    assert_eq!(fuzzel(1, "p", Vec::new()).program(), "fuzzel");
}

#[test]
fn parse_output_reads_index_before_separator() {
    let f = fuzzel(30, "prompt", Vec::new());
    assert_eq!(f.parse_output(b"3:ignored-trailing-text"), vec![3]);
    assert_eq!(f.parse_output(b"42"), vec![42]);
    assert_eq!(f.parse_output(b"0:"), vec![0]);
    assert_eq!(f.parse_output(b"+8:x"), vec![8]);
    assert_eq!(f.parse_output(b"12:34:56"), vec![12]);
}

#[test]
fn parse_output_malformed_reads_as_nothing() {
    let f = fuzzel(30, "prompt", Vec::new());
    let none: Vec<usize> = Vec::new();
    assert_eq!(f.parse_output(b"not-a-number"), none);
    assert_eq!(f.parse_output(b""), none);
    assert_eq!(f.parse_output(b":5"), none);
    assert_eq!(f.parse_output(b"+"), none);
    assert_eq!(f.parse_output(b"-1"), none);
    assert_eq!(f.parse_output(b" 3"), none);
    assert_eq!(f.parse_output(b"3 :x"), none);
    assert_eq!(f.parse_output(b"3\n"), none);
}

#[test]
fn parse_output_rejects_out_of_range() {
    let f = fuzzel(30, "prompt", Vec::new());
    let max = usize::MAX.to_string();
    assert_eq!(f.parse_output(max.as_bytes()), vec![usize::MAX]);
    let over = format!("{max}0:x");
    assert_eq!(f.parse_output(over.as_bytes()), Vec::<usize>::new());
    assert_eq!(f.parse_output(b"99999999999999999999999999999999"), Vec::<usize>::new());
}

#[test]
fn parse_output_accepts_invalid_utf8() {
    let f = fuzzel(30, "prompt", Vec::new());
    assert_eq!(f.parse_output(&[0xff, 0xfe, 0x3a, 0x31]), Vec::<usize>::new());
    assert_eq!(f.parse_output(&[0x35, 0x3a, 0xff, 0xc3]), vec![5]);
    assert_eq!(f.parse_output(&[0x35, 0xc3, 0x3a]), Vec::<usize>::new());
}
