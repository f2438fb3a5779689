use llm::backends::xai::{
    XAIChatChoice, XAIChatMsg, XAIChatResponse, XAIEmbeddingData, XAIEmbeddingResponse,
    XAIResponseType, XAI,
};
use llm::chat::{ChatMessage, ChatResponse, StructuredOutputFormat};
use llm::completion::CompletionRequest;
use llm::error::LLMError;

fn adapter(key: &str, system: Option<&str>, schema: Option<StructuredOutputFormat>) -> XAI {
    XAI::new(
        key.to_string(),
        None,
        Some(256),
        Some(0.5f32.to_bits()),
        Some(30),
        system.map(|s| s.to_string()),
        None,
        None,
        Some(40),
        None,
        None,
        schema,
    )
}

fn student_format() -> StructuredOutputFormat {
    let schema: serde_json::Value = serde_json::from_str(
        r#"{"type":"object","properties":{"name":{"type":"string"},"age":{"type":"integer"}},"required":["name","age"]}"#,
    )
    .unwrap();
    StructuredOutputFormat {
        name: "Student".to_string(),
        description: None,
        schema: Some(schema),
        strict: None,
    }
}

fn request() -> CompletionRequest {
    CompletionRequest { prompt: "Once".to_string(), max_tokens: None }
}

#[test]
fn new_defaults_model() {
    let x = adapter("k", None, None);
    assert_eq!(x.model, "grok-2-latest");
    assert_eq!(x.api_key, "k");
    assert_eq!(x.temperature, Some(0.5f32.to_bits()));
    let y = XAI::new(
        "k".to_string(),
        Some("grok-beta".to_string()),
        None,
        None,
        None,
        None,
        None,
        None,
        None,
        None,
        None,
        None,
    );
    assert_eq!(y.model, "grok-beta");
}

#[test]
fn empty_key_fails_every_call() {
    let x = adapter("", Some("sys"), Some(student_format()));
    let msgs = vec![ChatMessage::user().content("Hi").build()];
    assert!(matches!(x.chat_request(&msgs), Err(LLMError::AuthError(_))));
    assert!(matches!(x.chat_with_tools_request(&msgs, None), Err(LLMError::AuthError(_))));
    assert!(matches!(x.complete(&request()), Err(LLMError::AuthError(_))));
    assert!(matches!(
        x.embed_request(vec!["a".to_string()]),
        Err(LLMError::AuthError(_))
    ));
}

#[test]
fn single_user_message_request() {
    let x = adapter("key", None, None);
    let msgs = vec![ChatMessage::user().content("Hi").build()];
    let req = x.chat_request(&msgs).unwrap();
    assert_eq!(req.messages.len(), 1);
    assert_eq!(req.messages[0].role, "user");
    assert_eq!(req.messages[0].content, "Hi");
    assert!(!req.stream);
    assert!(req.response_format.is_none());
    assert_eq!(req.model, "grok-2-latest");
    assert_eq!(req.max_tokens, Some(256));
    assert_eq!(req.top_k, Some(40));
    assert_eq!(req.top_p, None);
}

#[test]
fn system_prompt_comes_first() {
    let x = adapter("key", Some("Be brief."), None);
    let msgs = vec![
        ChatMessage::user().content("Hi").build(),
        ChatMessage::assistant().content("Hello").build(),
    ];
    let req = x.chat_request(&msgs).unwrap();
    let got: Vec<(&str, &str)> = req.messages.iter().map(|m| (m.role, m.content)).collect();
    assert_eq!(
        got,
        vec![("system", "Be brief."), ("user", "Hi"), ("assistant", "Hello")]
    );
}

#[test]
fn schema_is_sent_as_json_schema() {
    let format = student_format();
    let x = adapter("key", None, Some(format.clone()));
    let msgs = vec![ChatMessage::user().content("Who?").build()];
    let req = x.chat_request(&msgs).unwrap();
    let rf = req.response_format.unwrap();
    assert_eq!(rf.response_type, XAIResponseType::JsonSchema);
    let sent = rf.json_schema.unwrap();
    assert_eq!(sent.name, "Student");
    assert_eq!(sent.description, None);
    assert_eq!(sent.strict, None);
    assert_eq!(sent.schema, format.schema);
}

#[test]
fn streaming_flag_is_passed() {
    let mut x = adapter("key", None, None);
    x.stream = Some(true);
    let msgs = vec![ChatMessage::user().content("Hi").build()];
    assert!(x.chat_request(&msgs).unwrap().stream);
}

#[test]
fn tools_are_unsupported() {
    let x = adapter("key", None, None);
    let msgs = vec![ChatMessage::user().content("Hi").build()];
    assert!(matches!(
        x.chat_with_tools_request(&msgs, None),
        Err(LLMError::Unsupported(_))
    ));
}

#[test]
fn completion_placeholder() {
    let x = adapter("key", None, None);
    let r = x.complete(&request()).unwrap();
    assert_eq!(r.text, "X.AI completion not implemented.");
}

#[test]
fn empty_choices_give_no_text() {
    let r = XAIChatResponse { choices: vec![] };
    assert_eq!(r.text(), None);
    assert_eq!(r.display_text(), "");
    assert!(r.tool_calls().is_none());
    assert!(r.thinking().is_none());
}

#[test]
fn first_choice_gives_text() {
    let r = XAIChatResponse {
        choices: vec![
            XAIChatChoice { message: XAIChatMsg { content: "one".to_string() } },
            XAIChatChoice { message: XAIChatMsg { content: "two".to_string() } },
        ],
    };
    assert_eq!(r.text(), Some("one".to_string()));
    assert_eq!(r.display_text(), "one");
}

#[test]
fn embedding_request_keeps_input_order() {
    let mut x = adapter("key", None, None);
    x.embedding_dimensions = Some(3);
    let req = x.embed_request(vec!["a".to_string(), "b".to_string()]).unwrap();
    assert_eq!(req.input, vec!["a".to_string(), "b".to_string()]);
    assert_eq!(req.encoding_format, Some("float".to_string()));
    assert_eq!(req.dimensions, Some(3));
    assert_eq!(req.model, "grok-2-latest");
    x.embedding_encoding_format = Some("base64".to_string());
    let req = x.embed_request(vec!["a".to_string()]).unwrap();
    assert_eq!(req.encoding_format, Some("base64".to_string()));
}

#[test]
fn embeddings_keep_order_and_dimension() {
    let a: Vec<u32> = [0.1f32, 0.2, 0.3].iter().map(|f| f.to_bits()).collect();
    let b: Vec<u32> = [1.0f32, -1.0, 0.0].iter().map(|f| f.to_bits()).collect();
    let resp = XAIEmbeddingResponse {
        data: vec![
            XAIEmbeddingData { embedding: a.clone() },
            XAIEmbeddingData { embedding: b.clone() },
        ],
    };
    let out = resp.into_embeddings();
    assert_eq!(out.len(), 2);
    assert_eq!(out[0], a);
    assert_eq!(out[1], b);
    assert!(out.iter().all(|v| v.len() == 3));
    assert_eq!(f32::from_bits(out[1][1]), -1.0);
}
