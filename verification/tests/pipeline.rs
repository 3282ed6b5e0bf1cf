//! The generation pipeline end to end: normalization, orchestration and
//! model discovery against mocked transport outcomes.

use flashcards::catalog::{read_model_catalog, DiscoveryError};
use flashcards::generate::{
    build_generation_request, complete_generation, GenerationError, InferenceOutcome,
};
use flashcards::normalize::{assemble_cards, normalize, GeneratedCard, ValidationError};

#[test]
fn normalize_accepts_all_well_formed_entries_in_order() {
    let raw = r#"{"cards":[
        {"question":"Q1","answer":"A1"},
        {"question":"Q2","answer":"A2"},
        {"question":"Q3","answer":"A3"}
    ]}"#;
    let cards = normalize(raw).unwrap();
    assert_eq!(cards.len(), 3);
    assert_eq!(cards[0].question, "Q1");
    assert_eq!(cards[0].answer, "A1");
    assert_eq!(cards[1].question, "Q2");
    assert_eq!(cards[1].answer, "A2");
    assert_eq!(cards[2].question, "Q3");
    assert_eq!(cards[2].answer, "A3");
    for c in &cards {
        assert!(!c.id.is_empty());
        assert_eq!(c.id.chars().count(), 36);
    }
    assert_ne!(cards[0].id, cards[1].id);
    assert_ne!(cards[0].id, cards[2].id);
    assert_ne!(cards[1].id, cards[2].id);
}

#[test]
fn normalize_accepts_empty_card_list() {
    let cards = normalize(r#"{"cards":[]}"#).unwrap();
    assert_eq!(cards.len(), 0);
}

#[test]
fn normalize_keeps_texts_verbatim() {
    let raw = "{\"cards\":[{\"question\":\"What is \\\"quoted\\\"?\\nReally?\",\"answer\":\"  spaced  \"}]}";
    let cards = normalize(raw).unwrap();
    assert_eq!(cards.len(), 1);
    assert_eq!(cards[0].question, "What is \"quoted\"?\nReally?");
    assert_eq!(cards[0].answer, "  spaced  ");
}

#[test]
fn normalize_ignores_extra_fields_on_entries() {
    let raw = r#"{"cards":[{"question":"Q","answer":"A","hint":"H"}],"meta":1}"#;
    let cards = normalize(raw).unwrap();
    assert_eq!(cards.len(), 1);
    assert_eq!(cards[0].question, "Q");
    assert_eq!(cards[0].answer, "A");
}

#[test]
fn normalize_rejects_text_that_is_not_json() {
    assert_eq!(normalize("not json"), Err(ValidationError::MalformedOutput));
}

#[test]
fn normalize_rejects_missing_cards_field() {
    assert_eq!(
        normalize(r#"{"decks":[]}"#),
        Err(ValidationError::MalformedOutput)
    );
}

#[test]
fn normalize_rejects_cards_that_is_not_an_array() {
    assert_eq!(
        normalize(r#"{"cards":"many"}"#),
        Err(ValidationError::MalformedOutput)
    );
}

#[test]
fn normalize_rejects_whole_batch_on_one_bad_entry() {
    let missing_answer = r#"{"cards":[
        {"question":"Q1","answer":"A1"},
        {"question":"Q2"}
    ]}"#;
    assert_eq!(normalize(missing_answer), Err(ValidationError::MalformedOutput));
    let missing_question = r#"{"cards":[{"answer":"A1"}]}"#;
    assert_eq!(normalize(missing_question), Err(ValidationError::MalformedOutput));
    let non_string_field = r#"{"cards":[{"question":"Q1","answer":3}]}"#;
    assert_eq!(normalize(non_string_field), Err(ValidationError::MalformedOutput));
    let non_object_entry = r#"{"cards":["flat"]}"#;
    assert_eq!(normalize(non_object_entry), Err(ValidationError::MalformedOutput));
}

#[test]
fn validation_error_message_suggests_regenerating() {
    let m = ValidationError::MalformedOutput.message();
    assert_eq!(m, "LLM returned invalid JSON. Try regenerating.");
}

#[test]
fn identifiers_do_not_collide_across_calls() {
    let raw = r#"{"cards":[{"question":"Q","answer":"A"}]}"#;
    let first = normalize(raw).unwrap();
    let second = normalize(raw).unwrap();
    assert_ne!(first[0].id, second[0].id);
}

#[test]
fn assemble_cards_carries_given_identifiers_in_order() {
    let entries = vec![
        GeneratedCard { question: "Q1".to_string(), answer: "A1".to_string() },
        GeneratedCard { question: "Q2".to_string(), answer: "A2".to_string() },
    ];
    let ids = vec!["one".to_string(), "two".to_string()];
    let cards = assemble_cards(&entries, &ids);
    assert_eq!(cards.len(), 2);
    assert_eq!(cards[0].id, "one");
    assert_eq!(cards[1].id, "two");
    assert_eq!(cards[0].question, "Q1");
    assert_eq!(cards[1].answer, "A2");
}

#[test]
fn request_uses_fallback_model_for_empty_choice() {
    let r = build_generation_request("Paris is the capital of France.", "");
    assert_eq!(r.model, "mistral");
    assert!(r.prompt.starts_with("You are a flashcard generator."));
    assert!(r.prompt.ends_with("Text to analyze:\nParis is the capital of France."));
    assert!(!r.stream);
    assert_eq!(r.output_format, "json");
    assert_eq!(r.temperature_tenths, 3);
    assert_eq!(r.num_predict, 4096);
}

#[test]
fn request_keeps_a_chosen_model() {
    let r = build_generation_request("text", "llama3");
    assert_eq!(r.model, "llama3");
}

#[test]
fn generation_succeeds_end_to_end_with_mocked_response() {
    let body = r#"{"response":"{\"cards\":[{\"question\":\"What is the capital of France?\",\"answer\":\"Paris\"}]}"}"#;
    let outcome = InferenceOutcome::Http { status: 200, body: body.to_string() };
    let cards = complete_generation(&outcome).unwrap();
    assert_eq!(cards.len(), 1);
    assert_eq!(cards[0].question, "What is the capital of France?");
    assert_eq!(cards[0].answer, "Paris");
    assert!(!cards[0].id.is_empty());
}

#[test]
fn generation_fails_with_connection_error_when_unreachable() {
    let r = complete_generation(&InferenceOutcome::Unreachable);
    assert_eq!(r, Err(GenerationError::Connection));
    let m = GenerationError::Connection.message();
    assert!(m.contains("Is it running?"));
    assert_eq!(m, "Failed to connect to Ollama. Is it running?");
}

#[test]
fn generation_fails_with_server_error_on_bad_status() {
    let outcome = InferenceOutcome::Http { status: 500, body: String::new() };
    assert_eq!(complete_generation(&outcome), Err(GenerationError::Server(500)));
    assert_eq!(
        GenerationError::Server(500).message(),
        "Ollama returned status: 500"
    );
    assert_eq!(
        GenerationError::Server(65535).message(),
        "Ollama returned status: 65535"
    );
    assert_eq!(GenerationError::Server(0).message(), "Ollama returned status: 0");
}

#[test]
fn generation_status_boundaries_follow_http_success() {
    let body = r#"{"response":"{\"cards\":[]}"}"#;
    let just_inside = InferenceOutcome::Http { status: 299, body: body.to_string() };
    assert_eq!(complete_generation(&just_inside), Ok(vec![]));
    let just_below = InferenceOutcome::Http { status: 199, body: body.to_string() };
    assert_eq!(complete_generation(&just_below), Err(GenerationError::Server(199)));
    let just_above = InferenceOutcome::Http { status: 300, body: body.to_string() };
    assert_eq!(complete_generation(&just_above), Err(GenerationError::Server(300)));
}

#[test]
fn generation_fails_with_decode_error_on_bad_envelope() {
    let no_envelope = InferenceOutcome::Http { status: 200, body: "[]".to_string() };
    assert_eq!(complete_generation(&no_envelope), Err(GenerationError::Decode));
    let wrong_field = InferenceOutcome::Http {
        status: 200,
        body: r#"{"reply":"x"}"#.to_string(),
    };
    assert_eq!(complete_generation(&wrong_field), Err(GenerationError::Decode));
    let not_json = InferenceOutcome::Http { status: 200, body: "garbage".to_string() };
    assert_eq!(complete_generation(&not_json), Err(GenerationError::Decode));
    assert_eq!(
        GenerationError::Decode.message(),
        "Failed to parse Ollama response"
    );
}

#[test]
fn generation_fails_with_malformed_output_on_non_json_payload() {
    let outcome = InferenceOutcome::Http {
        status: 200,
        body: r#"{"response":"not json"}"#.to_string(),
    };
    assert_eq!(complete_generation(&outcome), Err(GenerationError::Malformed));
    let m = GenerationError::Malformed.message();
    assert!(m.contains("Try regenerating"));
}

#[test]
fn discovery_returns_named_models_in_order_and_skips_nameless() {
    let body = r#"{"models":[{"name":"a"},{"not_name":"x"},{"name":"b"}]}"#;
    let outcome = InferenceOutcome::Http { status: 200, body: body.to_string() };
    let models = read_model_catalog(&outcome).unwrap();
    assert_eq!(models, vec!["a".to_string(), "b".to_string()]);
}

#[test]
fn discovery_keeps_duplicates_and_server_order() {
    let body = r#"{"models":[{"name":"b"},{"name":"a"},{"name":"b"}]}"#;
    let outcome = InferenceOutcome::Http { status: 200, body: body.to_string() };
    let models = read_model_catalog(&outcome).unwrap();
    assert_eq!(models, vec!["b".to_string(), "a".to_string(), "b".to_string()]);
}

#[test]
fn discovery_tolerates_missing_or_ill_shaped_models_field() {
    let missing = InferenceOutcome::Http { status: 200, body: "{}".to_string() };
    assert_eq!(read_model_catalog(&missing).unwrap().len(), 0);
    let not_array = InferenceOutcome::Http {
        status: 200,
        body: r#"{"models":"none"}"#.to_string(),
    };
    assert_eq!(read_model_catalog(&not_array).unwrap().len(), 0);
    let not_object = InferenceOutcome::Http { status: 200, body: "[1,2]".to_string() };
    assert_eq!(read_model_catalog(&not_object).unwrap().len(), 0);
}

#[test]
fn discovery_fails_hard_only_on_connection_or_decode() {
    assert_eq!(
        read_model_catalog(&InferenceOutcome::Unreachable),
        Err(DiscoveryError::Connection)
    );
    assert_eq!(DiscoveryError::Connection.message(), "Cannot connect to Ollama");
    let bad = InferenceOutcome::Http { status: 200, body: "no json".to_string() };
    assert_eq!(read_model_catalog(&bad), Err(DiscoveryError::Decode));
    assert_eq!(DiscoveryError::Decode.message(), "Invalid response from Ollama");
}
