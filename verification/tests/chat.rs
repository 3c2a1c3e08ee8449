use mycli::chat::{content_type, endpoint, read_reply, request_body, request_for, Reply};
use mycli::config::ApiInfo;
use mycli::json::{parse, Json};

const DIVIDER: &str = "-----------------------------------------------------------------------------------";

fn record(model: &str) -> ApiInfo {
    ApiInfo { api_key: "Bearer k".to_string(), model: model.to_string() }
}

fn printed(body: &str) -> Vec<String> {
    read_reply(body).report()
}

#[test]
fn the_endpoint_and_the_media_type() {
    assert_eq!(endpoint(), "https://api.groq.com/openai/v1/chat/completions");
    assert_eq!(content_type(), "application/json");
}

#[test]
fn request_body_gives_the_exact_text() {
    let body = request_body(&record("gemma-7b-it"), "hi there").unwrap();
    assert_eq!(body, "{\"messages\":[{\"content\":\"hi there\",\"role\":\"user\"}],\"model\":\"gemma-7b-it\"}");
}

#[test]
fn request_body_escapes_the_query() {
    let body = request_body(&record("m"), "say \"x\"\\").unwrap();
    assert_eq!(body, "{\"messages\":[{\"content\":\"say \\\"x\\\"\\\\\",\"role\":\"user\"}],\"model\":\"m\"}");
}

#[test]
fn request_for_holds_one_message_of_the_user() {
    let doc = request_for(&record("llama3-8b-8192"), "why?");
    assert_eq!(doc.get("model"), Some(&Json::Text("llama3-8b-8192".to_string())));
    let messages = doc.get("messages").unwrap().as_items().unwrap();
    assert_eq!(messages.len(), 1);
    assert_eq!(messages[0].get("role"), Some(&Json::Text("user".to_string())));
    assert_eq!(messages[0].get("content"), Some(&Json::Text("why?".to_string())));
}

#[test]
fn a_single_choice_prints_one_divider_and_the_content() {
    let lines = printed("{\"choices\":[{\"message\":{\"content\":\"hello\"}}]}");
    assert_eq!(lines, vec![DIVIDER.to_string(), "hello".to_string()]);
}

#[test]
fn an_error_with_a_message_prints_the_message() {
    let body = "{\"error\":{\"message\":\"invalid_api_key\"}}";
    assert_eq!(read_reply(body), Reply::Failure("invalid_api_key".to_string()));
    assert_eq!(printed(body), vec!["Error message: invalid_api_key".to_string()]);
}

#[test]
fn other_json_prints_nothing() {
    assert_eq!(read_reply("{\"foo\":1}"), Reply::Silent);
    assert_eq!(printed("{\"foo\":1}"), Vec::<String>::new());
}

#[test]
fn a_body_that_is_not_json_prints_the_notice() {
    for body in ["", "<html>Bad Gateway</html>", "{\"choices\":", "upstream timed out"] {
        assert_eq!(read_reply(body), Reply::Unreadable);
        assert_eq!(printed(body), vec!["Error parsing error response".to_string()]);
    }
}

#[test]
fn choices_print_in_the_order_of_the_response() {
    let body = "{\"id\":\"x\",\"choices\":[{\"index\":0,\"message\":{\"role\":\"assistant\",\"content\":\"one\"}},{\"message\":{\"content\":\"two\"}},{\"message\":{\"content\":\"\"}}]}";
    assert_eq!(
        read_reply(body),
        Reply::Choices(vec!["one".to_string(), "two".to_string(), String::new()])
    );
    let wanted = vec![
        DIVIDER.to_string(),
        "one".to_string(),
        DIVIDER.to_string(),
        "two".to_string(),
        DIVIDER.to_string(),
        String::new(),
    ];
    assert_eq!(printed(body), wanted);
}

#[test]
fn no_choices_print_nothing() {
    assert_eq!(read_reply("{\"choices\":[]}"), Reply::Choices(vec![]));
    assert_eq!(printed("{\"choices\":[]}"), Vec::<String>::new());
}

#[test]
fn a_choice_without_content_spoils_the_success_shape() {
    let body = "{\"choices\":[{\"message\":{\"content\":\"one\"}},{\"message\":{}}]}";
    assert_eq!(read_reply(body), Reply::Silent);
    let body = "{\"choices\":[{\"message\":{\"content\":7}}],\"error\":{\"message\":\"odd\"}}";
    assert_eq!(read_reply(body), Reply::Failure("odd".to_string()));
}

#[test]
fn choices_that_are_no_array_are_no_success() {
    assert_eq!(read_reply("{\"choices\":null}"), Reply::Silent);
    assert_eq!(read_reply("{\"choices\":{\"message\":{\"content\":\"x\"}}}"), Reply::Silent);
}

#[test]
fn choices_come_before_an_error() {
    let body = "{\"choices\":[{\"message\":{\"content\":\"fine\"}}],\"error\":{\"message\":\"ignored\"}}";
    assert_eq!(read_reply(body), Reply::Choices(vec!["fine".to_string()]));
}

#[test]
fn an_error_without_a_text_message_prints_nothing() {
    for body in [
        "{\"error\":{}}",
        "{\"error\":\"boom\"}",
        "{\"error\":{\"message\":42}}",
        "{\"error\":{\"message\":null}}",
        "[1,2,3]",
        "\"error\"",
        "null",
    ] {
        assert_eq!(read_reply(body), Reply::Silent, "for {:?}", body);
        assert_eq!(printed(body), Vec::<String>::new());
    }
}

#[test]
fn of_document_reads_a_parsed_body() {
    let doc = parse("{\"error\":{\"message\":\"rate limit\",\"code\":429}}").unwrap();
    assert_eq!(Reply::of_document(&doc), Reply::Failure("rate limit".to_string()));
}

#[test]
fn report_of_each_kind_of_reply() {
    assert_eq!(Reply::Silent.report(), Vec::<String>::new());
    assert_eq!(Reply::Unreadable.report(), vec!["Error parsing error response".to_string()]);
    assert_eq!(Reply::Failure(String::new()).report(), vec!["Error message: ".to_string()]);
    assert_eq!(
        Reply::Choices(vec!["a\nb".to_string()]).report(),
        vec![DIVIDER.to_string(), "a\nb".to_string()]
    );
}
