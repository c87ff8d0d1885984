use llama_chat::sys::llm::{Content, PromptTemplate, Role};

fn template(end_of_content: &str, stops: Vec<&str>) -> PromptTemplate {
    PromptTemplate {
        header_prefix: String::from("<|"),
        header_suffix: String::from("|>"),
        end_of_content: String::from(end_of_content),
        stops: stops.into_iter().map(String::from).collect(),
    }
}

fn turn(role: Role, message: &str) -> Content {
    Content { role, message: String::from(message) }
}

#[test]
fn encode_system_then_user() {
    let t = template("\n", vec![]);
    let turns = vec![turn(Role::System, "s"), turn(Role::User, "hi")];
    assert_eq!(t.encode_string(&turns), "<|system|>s\n<|user|>hi\n<|assistant|>");
}

#[test]
fn encode_empty_conversation_without_separator() {
    let t = template("", vec![]);
    let turns: Vec<Content> = vec![];
    assert_eq!(t.encode_string(&turns), "<|assistant|>");
}

#[test]
fn encode_empty_conversation_with_separator() {
    let t = template("\n", vec![]);
    let turns: Vec<Content> = vec![];
    assert_eq!(t.encode_string(&turns), "\n<|assistant|>");
}

#[test]
fn encode_last_turn_assistant_appends_no_header() {
    let t = template("\n", vec![]);
    let turns = vec![turn(Role::User, "hi"), turn(Role::Assistant, "yes")];
    assert_eq!(t.encode_string(&turns), "<|user|>hi\n<|assistant|>yes");
}

#[test]
fn encode_single_assistant_turn() {
    let t = template("\n", vec![]);
    let turns = vec![turn(Role::Assistant, "")];
    assert_eq!(t.encode_string(&turns), "<|assistant|>");
}

#[test]
fn encode_empty_template_parts() {
    let t = PromptTemplate {
        header_prefix: String::new(),
        header_suffix: String::new(),
        end_of_content: String::new(),
        stops: vec![],
    };
    let turns = vec![turn(Role::User, "a"), turn(Role::User, "b")];
    assert_eq!(t.encode_string(&turns), "userauserbassistant");
}

#[test]
fn role_names() {
    assert_eq!(Role::System.as_str(), "system");
    assert_eq!(Role::User.as_str(), "user");
    assert_eq!(Role::Assistant.as_str(), "assistant");
}

#[test]
fn stop_marker_trims_tail() {
    let t = template("\n", vec!["<|end|>"]);
    let mut text = String::from("hello<|end|>");
    assert!(t.post_handle_content(&mut text));
    assert_eq!(text, "hello");
}

#[test]
fn no_stop_marker_leaves_text() {
    let t = template("\n", vec!["<|end|>"]);
    let mut text = String::from("hello");
    assert!(!t.post_handle_content(&mut text));
    assert_eq!(text, "hello");
}

#[test]
fn first_matching_stop_wins() {
    let t = template("\n", vec!["ab", "b"]);
    let mut text = String::from("cab");
    assert!(t.post_handle_content(&mut text));
    assert_eq!(text, "c");
}

#[test]
fn later_stop_matches_when_first_does_not() {
    let t = template("\n", vec!["xy", "b"]);
    let mut text = String::from("cab");
    assert!(t.post_handle_content(&mut text));
    assert_eq!(text, "ca");
}

#[test]
fn empty_stop_marker_matches_everything() {
    let t = template("\n", vec![""]);
    let mut text = String::from("hello");
    assert!(t.post_handle_content(&mut text));
    assert_eq!(text, "hello");
}

#[test]
fn stop_marker_wider_than_text_does_not_match() {
    let t = template("\n", vec!["a long marker"]);
    let mut text = String::from("hi");
    assert!(!t.post_handle_content(&mut text));
    assert_eq!(text, "hi");
}

#[test]
fn multibyte_stop_marker() {
    let t = template("\n", vec!["∎"]);
    let mut text = String::from("héllo∎");
    assert!(t.post_handle_content(&mut text));
    assert_eq!(text, "héllo");
}

#[test]
fn stop_marker_equal_to_whole_text() {
    let t = template("\n", vec!["done"]);
    let mut text = String::from("done");
    assert!(t.post_handle_content(&mut text));
    assert_eq!(text, "");
}
