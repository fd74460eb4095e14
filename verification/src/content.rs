use vstd::prelude::*;

use crate::tree::{DialogueNode, DialogueTree, NodeView, ResponseNode, ResponseView, response_view, responses_view};
use yaml_rust::Yaml;

verus! {

/// Why a content asset failed to load.
#[derive(Clone, Copy, Debug, PartialEq, Eq, Structural)]
pub enum ContentParseError {
    /// The text is not well-formed YAML.
    InvalidSyntax,
    /// No document carries a dialogue definition for the requested stage key.
    MissingStage,
    /// A dialogue definition lacks a required field or nests wrongly.
    MalformedNode,
}

/// A content document carried over into owned plain values, one for each
/// kind of YAML node, so that the loader's work can be stated and checked
/// over ordinary data.
pub enum ContentValue {
    /// A numeric scalar, kept as the raw text it was written as.
    Real(String),
    /// An integer scalar.
    Int(i64),
    /// A text scalar.
    Text(String),
    /// A boolean scalar.
    Flag(bool),
    /// An ordered list of values.
    List(Vec<ContentValue>),
    /// A mapping, kept as its entries in document order.
    Entries(Vec<ContentEntry>),
    /// An alias reference.
    Alias(usize),
    /// An explicit null.
    Null,
    /// A placeholder for a value the document does not actually hold.
    Bad,
}

/// One key-value entry of a content mapping.
pub struct ContentEntry {
    pub key: ContentValue,
    pub value: ContentValue,
}

/// The value stored under the first text key equal to `key`, if any.
pub open spec fn lookup_key(es: Seq<ContentEntry>, key: Seq<char>) -> Option<ContentValue>
    decreases es.len(),
{
    if es.len() == 0 {
        None
    } else if es[0].key matches ContentValue::Text(t) && t@ == key {
        Some(es[0].value)
    } else {
        lookup_key(es.drop_first(), key)
    }
}

/// A value found by `lookup_key` sits inside the entry sequence, so it is
/// smaller than the sequence for termination purposes.
pub proof fn lemma_lookup_key_decreases(es: Seq<ContentEntry>, key: Seq<char>)
    requires
        lookup_key(es, key) is Some,
    ensures
        decreases_to!(es => lookup_key(es, key).unwrap()),
    decreases es.len(),
{
    if es[0].key matches ContentValue::Text(t) && t@ == key {
        assert(decreases_to!(es => es[0]));
        assert(decreases_to!(es[0] => es[0].value));
    } else {
        lemma_lookup_key_decreases(es.drop_first(), key);
        assert(decreases_to!(es => es.drop_first()));
    }
}

/// The dialogue definition that `c` describes: `Some` exactly when `c` is a
/// mapping whose `text` entry is a text scalar and whose `responses` entry is
/// a list of well-formed response definitions.
pub open spec fn parse_node_spec(c: ContentValue) -> Option<NodeView>
    decreases c,
{
    match c {
        ContentValue::Entries(es) => match (lookup_key(es@, "text"@), lookup_key(es@, "responses"@)) {
            (Some(ContentValue::Text(t)), Some(ContentValue::List(rs))) => {
                proof {
                    lemma_lookup_key_decreases(es@, "responses"@);
                }
                match parse_responses_spec(rs@) {
                    Some(views) => Some(NodeView { text: t@, responses: views }),
                    None => None,
                }
            },
            _ => None,
        },
        _ => None,
    }
}

/// The response definitions that the list elements describe, in order;
/// `Some` exactly when every element is well formed.
pub open spec fn parse_responses_spec(s: Seq<ContentValue>) -> Option<Seq<ResponseView>>
    decreases s,
{
    if s.len() == 0 {
        Some(Seq::empty())
    } else {
        match (parse_response_spec(s[0]), parse_responses_spec(s.drop_first())) {
            (Some(r), Some(rest)) => Some(seq![r] + rest),
            _ => None,
        }
    }
}

/// The response definition that `c` describes: `Some` exactly when `c` is a
/// mapping whose `text` entry is a text scalar and whose `dialogue` entry,
/// when present and not null, is itself a well-formed dialogue definition.
/// A missing or null `dialogue` entry marks a terminal response.
pub open spec fn parse_response_spec(c: ContentValue) -> Option<ResponseView>
    decreases c,
{
    match c {
        ContentValue::Entries(es) => match lookup_key(es@, "text"@) {
            Some(ContentValue::Text(t)) => match lookup_key(es@, "dialogue"@) {
                None => Some(ResponseView { text: t@, dialogue_node: None }),
                Some(ContentValue::Null) => Some(ResponseView { text: t@, dialogue_node: None }),
                Some(d) => {
                    proof {
                        lemma_lookup_key_decreases(es@, "dialogue"@);
                    }
                    match parse_node_spec(d) {
                        Some(v) => Some(ResponseView { text: t@, dialogue_node: Some(Box::new(v)) }),
                        None => None,
                    }
                },
            },
            _ => None,
        },
        _ => None,
    }
}

/// Declares yaml_rust's node type so that the conversion wrappers below may
/// name it; the library never looks inside a value of it.
#[verifier::external_type_specification]
#[verifier::external_body]
pub struct ExYaml(Yaml);

/// The documents that the YAML text denotes, carried over into content
/// values, or `None` where the text does not scan.
pub uninterp spec fn parsed_documents(s: Seq<char>) -> Option<Vec<ContentValue>>;

/// Relies on yaml_rust::YamlLoader::load_from_str: whether YAML text scans,
/// and which documents it yields, depend on the text alone.
#[verifier::external_body]
fn load_documents(source: &str) -> (r: Option<Vec<ContentValue>>)
    ensures
        r == parsed_documents(source@),
{
    match yaml_rust::YamlLoader::load_from_str(source) {
        Ok(docs) => Some(docs.iter().map(content_of_yaml).collect()),
        Err(_) => None,
    }
}

/// Relies on the shape of yaml_rust::Yaml: each variant is carried over one
/// for one into the library's own content values, mapping entries in their
/// document order.
#[verifier::external_body]
fn content_of_yaml(y: &Yaml) -> ContentValue {
    match y {
        Yaml::Real(s) => ContentValue::Real(s.clone()),
        Yaml::Integer(i) => ContentValue::Int(*i),
        Yaml::String(s) => ContentValue::Text(s.clone()),
        Yaml::Boolean(b) => ContentValue::Flag(*b),
        Yaml::Array(v) => ContentValue::List(v.iter().map(content_of_yaml).collect()),
        Yaml::Hash(h) => ContentValue::Entries(h.iter().map(|(k, v)| ContentEntry { key: content_of_yaml(k), value: content_of_yaml(v) }).collect()),
        Yaml::Alias(a) => ContentValue::Alias(*a),
        Yaml::Null => ContentValue::Null,
        Yaml::BadValue => ContentValue::Bad,
    }
}

/// The value stored under the first text key equal to `key`, if any.
fn lookup_field<'a>(es: &'a Vec<ContentEntry>, key: &str) -> (r: Option<&'a ContentValue>)
    ensures
        match r {
            Some(v) => lookup_key(es@, key@) == Some(*v),
            None => lookup_key(es@, key@) is None,
        },
{
    let wanted: String = key.to_owned();
    let mut j: usize = 0;
    proof {
        assert(es@.skip(0) =~= es@);
    }
    while j < es.len()
        invariant
            j <= es@.len(),
            wanted@ == key@,
            lookup_key(es@, key@) == lookup_key(es@.skip(j as int), key@),
        decreases es@.len() - j,
    {
        match &es[j].key {
            ContentValue::Text(t) => {
                if *t == wanted {
                    proof {
                        assert(es@.skip(j as int)[0] == es@[j as int]);
                    }
                    return Some(&es[j].value);
                }
            },
            _ => {},
        }
        proof {
            assert(es@.skip(j as int)[0] == es@[j as int]);
            assert(es@.skip(j as int).drop_first() =~= es@.skip(j as int + 1));
        }
        j += 1;
    }
    None
}

/// The dialogue content recorded for a stage key: the value under the
/// `dialogue` entry of the mapping stored under the key in the first
/// document, where that chain exists.
pub open spec fn stage_dialogue(docs: Vec<ContentValue>, stage: Seq<char>) -> Option<ContentValue> {
    if docs@.len() > 0 {
        match docs@[0] {
            ContentValue::Entries(es) => match lookup_key(es@, stage) {
                Some(ContentValue::Entries(ses)) => lookup_key(ses@, "dialogue"@),
                _ => None,
            },
            _ => None,
        }
    } else {
        None
    }
}

/// What loading a stage from YAML text must yield: the view of the loaded
/// tree, or the one error owed for the text and key.
pub open spec fn load_result(source: Seq<char>, stage: Seq<char>) -> Result<NodeView, ContentParseError> {
    match parsed_documents(source) {
        None => Err(ContentParseError::InvalidSyntax),
        Some(docs) => match stage_dialogue(docs, stage) {
            None => Err(ContentParseError::MissingStage),
            Some(c) => match parse_node_spec(c) {
                Some(v) => Ok(v),
                None => Err(ContentParseError::MalformedNode),
            },
        },
    }
}

/// Builds the dialogue node that a content value describes: exactly the
/// tree that `parse_node_spec` gives, or the malformed-node error where it
/// gives none. Building is atomic: a node is returned only when the whole
/// definition below it is well formed.
#[verifier::loop_isolation(false)]
pub fn parse_dialogue_yaml(c: &ContentValue) -> (r: Result<DialogueNode, ContentParseError>)
    ensures
        match parse_node_spec(*c) {
            Some(v) => r matches Ok(n) && n@ == v,
            None => r == Err::<DialogueNode, ContentParseError>(ContentParseError::MalformedNode),
        },
    decreases *c,
{
    let es = match c {
        ContentValue::Entries(es) => es,
        _ => {
            return Err(ContentParseError::MalformedNode);
        },
    };
    let text: String = match lookup_field(es, "text") {
        Some(ContentValue::Text(t)) => t.clone(),
        _ => {
            return Err(ContentParseError::MalformedNode);
        },
    };
    let rs = match lookup_field(es, "responses") {
        Some(ContentValue::List(rs)) => rs,
        _ => {
            return Err(ContentParseError::MalformedNode);
        },
    };
    let mut responses: Vec<ResponseNode> = Vec::new();
    let mut i: usize = 0;
    proof {
        assert(rs@.skip(0) =~= rs@);
    }
    while i < rs.len()
        invariant
            i <= rs@.len(),
            responses@.len() == i as int,
            match parse_responses_spec(rs@.skip(i as int)) {
                Some(rest) => parse_responses_spec(rs@) matches Some(whole)
                    && whole =~= responses_view(responses@) + rest,
                None => parse_responses_spec(rs@) is None,
            },
        decreases rs@.len() - i,
    {
        proof {
            assert(rs@.skip(i as int)[0] == rs@[i as int]);
            assert(rs@.skip(i as int).drop_first() =~= rs@.skip(i as int + 1));
        }
        let res_es = match &rs[i] {
            ContentValue::Entries(res_es) => res_es,
            _ => {
                return Err(ContentParseError::MalformedNode);
            },
        };
        let rtext: String = match lookup_field(res_es, "text") {
            Some(ContentValue::Text(t)) => t.clone(),
            _ => {
                return Err(ContentParseError::MalformedNode);
            },
        };
        let child: Option<DialogueNode> = match lookup_field(res_es, "dialogue") {
            None => None,
            Some(ContentValue::Null) => None,
            Some(d) => {
                proof {
                    assert(decreases_to!(*c => *es));
                    assert(decreases_to!(*es => es@));
                    lemma_lookup_key_decreases(es@, "responses"@);
                    assert(decreases_to!(es@ => ContentValue::List(*rs)));
                    assert(decreases_to!(ContentValue::List(*rs) => *rs));
                    assert(decreases_to!(*rs => rs@));
                    assert(decreases_to!(rs@ => rs@[i as int]));
                    assert(rs@[i as int] == ContentValue::Entries(*res_es));
                    assert(decreases_to!(ContentValue::Entries(*res_es) => *res_es));
                    assert(decreases_to!(*res_es => res_es@));
                    lemma_lookup_key_decreases(res_es@, "dialogue"@);
                    assert(decreases_to!(res_es@ => *d));
                    assert(decreases_to!(*c => *d));
                }
                match parse_dialogue_yaml(d) {
                    Ok(n) => Some(n),
                    Err(e) => {
                        return Err(e);
                    },
                }
            },
        };
        let node = ResponseNode { text: rtext, dialogue_node: child };
        let ghost prevr = responses@;
        responses.push(node);
        proof {
            assert(parse_response_spec(rs@[i as int]) == Some(response_view(node)));
            crate::tree::lemma_responses_view_push(prevr, node);
            match parse_responses_spec(rs@.skip(i as int + 1)) {
                Some(rest) => {
                    assert(parse_responses_spec(rs@.skip(i as int))
                        == Some(seq![response_view(node)] + rest));
                    assert(responses_view(prevr) + (seq![response_view(node)] + rest)
                        =~= responses_view(prevr.push(node)) + rest);
                },
                None => {
                    assert(parse_responses_spec(rs@.skip(i as int)) is None);
                },
            }
        }
        i += 1;
    }
    proof {
        assert(rs@.skip(rs@.len() as int) =~= Seq::<ContentValue>::empty());
        assert(responses_view(responses@) + Seq::<ResponseView>::empty() =~= responses_view(responses@));
    }
    Ok(DialogueNode { text, responses })
}

/// Loads the dialogue tree for a stage from YAML text. Fails with
/// `InvalidSyntax` exactly when the text does not scan as YAML, with
/// `MissingStage` exactly when the scanned documents carry no dialogue entry
/// under the stage key, and with `MalformedNode` exactly when that entry is
/// not a well-formed dialogue definition; otherwise returns the whole tree
/// the definition describes.
pub fn generate_dialogue_from_yaml(stage_str: &String, source: &str) -> (r: Result<
    DialogueNode,
    ContentParseError,
>)
    ensures
        match load_result(source@, stage_str@) {
            Ok(v) => r matches Ok(n) && n@ == v,
            Err(e) => r == Err::<DialogueNode, ContentParseError>(e),
        },
{
    let docs = match load_documents(source) {
        Some(docs) => docs,
        None => {
            return Err(ContentParseError::InvalidSyntax);
        },
    };
    if docs.len() == 0 {
        return Err(ContentParseError::MissingStage);
    }
    let es = match &docs[0] {
        ContentValue::Entries(es) => es,
        _ => {
            return Err(ContentParseError::MissingStage);
        },
    };
    let ses = match lookup_field(es, stage_str.as_str()) {
        Some(ContentValue::Entries(ses)) => ses,
        _ => {
            return Err(ContentParseError::MissingStage);
        },
    };
    let d = match lookup_field(ses, "dialogue") {
        Some(d) => d,
        None => {
            return Err(ContentParseError::MissingStage);
        },
    };
    parse_dialogue_yaml(d)
}

impl DialogueTree {
    /// Replaces the whole tree with the stage's dialogue from the YAML text;
    /// on any load failure the previous tree is kept unchanged, so a
    /// malformed asset never degrades into a partial conversation.
    pub fn load_stage(&mut self, stage: &String, source: &str) -> (r: Result<(), ContentParseError>)
        ensures
            match load_result(source@, stage@) {
                Ok(v) => r is Ok && final(self).root@ == v,
                Err(e) => r == Err::<(), ContentParseError>(e) && *final(self) == *old(self),
            },
    {
        match generate_dialogue_from_yaml(stage, source) {
            Ok(n) => {
                self.root = n;
                Ok(())
            },
            Err(e) => Err(e),
        }
    }
}

} // verus!
