use dialogue::content::{generate_dialogue_from_yaml, parse_dialogue_yaml, ContentParseError, ContentValue};
use dialogue::tree::DialogueTree;

const TEST_DIALOGUE_YAML: &str = "\
default:
  dialogue:
    text: \"Hi\"
    responses:
      - text: \"Hello\"
        dialogue:
          text: \"I can't talk now.\"
          responses:
            - text: \"Oh..\"
      - text: \"Goodbye\"
";

#[test]
pub fn test_generate_dialogue_from_yaml() {
    let node = generate_dialogue_from_yaml(&"default".to_string(), TEST_DIALOGUE_YAML).unwrap();
    assert_eq!(node.text, "Hi");
    assert_eq!(node.responses[0].text, "Hello");
    assert_eq!(
        node.responses[0].dialogue_node.as_ref().unwrap().text,
        "I can't talk now."
    );
    assert_eq!(
        node.responses[0].dialogue_node.as_ref().unwrap().responses[0].text,
        "Oh.."
    );
    assert_eq!(
        node.responses[0].dialogue_node.as_ref().unwrap().responses[0].dialogue_node,
        None
    );
    assert_eq!(node.responses[1].text, "Goodbye");
}

#[test]
fn explicit_null_dialogue_marks_terminal_response() {
    let source = "\
default:
  dialogue:
    text: \"Hi\"
    responses:
      - text: \"Bye\"
        dialogue:
";
    let node = generate_dialogue_from_yaml(&"default".to_string(), source).unwrap();
    assert_eq!(node.responses[0].dialogue_node, None);
}

#[test]
fn unscannable_text_is_invalid_syntax() {
    let err = generate_dialogue_from_yaml(&"default".to_string(), "a: [unclosed").unwrap_err();
    assert_eq!(err, ContentParseError::InvalidSyntax);
}

#[test]
fn absent_stage_key_is_missing_stage() {
    let err = generate_dialogue_from_yaml(&"other".to_string(), TEST_DIALOGUE_YAML).unwrap_err();
    assert_eq!(err, ContentParseError::MissingStage);
}

#[test]
fn empty_document_is_missing_stage() {
    let err = generate_dialogue_from_yaml(&"default".to_string(), "").unwrap_err();
    assert_eq!(err, ContentParseError::MissingStage);
}

#[test]
fn stage_without_dialogue_entry_is_missing_stage() {
    let err = generate_dialogue_from_yaml(&"default".to_string(), "default: 3\n").unwrap_err();
    assert_eq!(err, ContentParseError::MissingStage);
}

#[test]
fn node_without_text_is_malformed() {
    let source = "\
default:
  dialogue:
    responses: []
";
    let err = generate_dialogue_from_yaml(&"default".to_string(), source).unwrap_err();
    assert_eq!(err, ContentParseError::MalformedNode);
}

#[test]
fn node_without_responses_is_malformed() {
    let source = "\
default:
  dialogue:
    text: \"Hi\"
";
    let err = generate_dialogue_from_yaml(&"default".to_string(), source).unwrap_err();
    assert_eq!(err, ContentParseError::MalformedNode);
}

#[test]
fn deep_malformed_response_fails_the_whole_load() {
    let source = "\
default:
  dialogue:
    text: \"Hi\"
    responses:
      - text: \"Hello\"
        dialogue:
          text: \"nested\"
          responses:
            - dialogue:
";
    let err = generate_dialogue_from_yaml(&"default".to_string(), source).unwrap_err();
    assert_eq!(err, ContentParseError::MalformedNode);
}

#[test]
fn parse_dialogue_yaml_rejects_non_mapping_content() {
    let err = parse_dialogue_yaml(&ContentValue::Int(4)).unwrap_err();
    assert_eq!(err, ContentParseError::MalformedNode);
}

#[test]
fn load_stage_keeps_the_old_tree_on_failure() {
    let root = generate_dialogue_from_yaml(&"default".to_string(), TEST_DIALOGUE_YAML).unwrap();
    let mut tree = DialogueTree::new(root);
    let err = tree.load_stage(&"default".to_string(), "a: [unclosed").unwrap_err();
    assert_eq!(err, ContentParseError::InvalidSyntax);
    assert_eq!(tree.root.text, "Hi");
    assert_eq!(tree.root.responses.len(), 2);
}

#[test]
fn load_stage_replaces_the_tree_on_success() {
    let root = generate_dialogue_from_yaml(&"default".to_string(), TEST_DIALOGUE_YAML).unwrap();
    let mut tree = DialogueTree::new(root);
    let other = "\
other:
  dialogue:
    text: \"Second\"
    responses: []
";
    tree.load_stage(&"other".to_string(), other).unwrap();
    assert_eq!(tree.root.text, "Second");
    assert_eq!(tree.root.responses.len(), 0);
}
