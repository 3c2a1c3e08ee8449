use mycli::setup::{api_key_from, greeting_lines, key_prompt, menu_lines, model_from, model_prompt, pick_model};

#[test]
fn api_key_from_trims_and_prefixes() {
    assert_eq!(api_key_from("  gsk_123 \n"), "Bearer gsk_123");
    assert_eq!(api_key_from("gsk_123"), "Bearer gsk_123");
}

#[test]
fn api_key_from_keeps_inner_spaces() {
    assert_eq!(api_key_from(" a b \r\n"), "Bearer a b");
}

#[test]
fn api_key_from_an_empty_answer_is_the_bare_scheme() {
    assert_eq!(api_key_from("\n"), "Bearer ");
}

#[test]
fn model_from_accepts_the_four_entries() {
    assert_eq!(model_from("1").as_deref(), Some("llama3-8b-8192"));
    assert_eq!(model_from("2").as_deref(), Some("mixtral-8x7b-32768"));
    assert_eq!(model_from("3").as_deref(), Some("llama3-70b-8192"));
    assert_eq!(model_from("4").as_deref(), Some("gemma-7b-it"));
}

#[test]
fn model_from_accepts_entries_with_white_space_around() {
    assert_eq!(model_from("1\n").as_deref(), Some("llama3-8b-8192"));
    assert_eq!(model_from("  4 \r\n").as_deref(), Some("gemma-7b-it"));
}

#[test]
fn model_from_rejects_everything_else() {
    for answer in ["0", "5", "-1", "abc", "", "\n", "11", "1 2", "01", "1.0", "+1", "one"] {
        assert_eq!(model_from(answer), None, "accepted {:?}", answer);
    }
}

#[test]
fn model_from_gives_the_same_answer_each_time() {
    for answer in ["1", "2", "3", "4", "x"] {
        assert_eq!(model_from(answer), model_from(answer));
    }
}

#[test]
fn pick_model_takes_the_choice_as_it_stands() {
    assert_eq!(pick_model("2").as_deref(), Some("mixtral-8x7b-32768"));
    assert_eq!(pick_model(" 2"), None);
    assert_eq!(pick_model("2\n"), None);
}

#[test]
fn the_prompts_read_as_expected() {
    assert_eq!(greeting_lines(), vec!["Initializing setup".to_string()]);
    assert_eq!(key_prompt(), "Enter your Api Key: ");
    assert_eq!(model_prompt(), "  Select your model: ");
}

#[test]
fn the_menu_has_four_entries() {
    let wanted = vec![
        "-------------------------------------------------".to_string(),
        "  1 : LLaMA3 8b".to_string(),
        "  2 : Mixtral 8x7b".to_string(),
        "  3 : LLAMA3 70B".to_string(),
        "  4 : Gemma 7b".to_string(),
    ];
    assert_eq!(menu_lines(false), wanted);
}

#[test]
fn the_menu_after_a_wrong_answer_starts_with_the_complaint() {
    let lines = menu_lines(true);
    assert_eq!(lines.len(), 6);
    assert_eq!(lines[0], "Enter an option between 1-4");
    assert_eq!(lines[1..].to_vec(), menu_lines(false));
}
