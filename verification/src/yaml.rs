//! A parsed YAML document as plain values. The outside parser turns
//! document text into this tree; everything that reads the tree is
//! verified against it. Dictionaries keep their entries in document
//! order; a lookup takes the first entry of the key.

use vstd::prelude::*;

use crate::text;

verus! {

/// One node of a parsed document.
#[derive(Debug, PartialEq, Eq)]
pub enum YamlNode {
    /// The null value, and the value of a key written with nothing
    /// after it.
    Null,
    /// A non-string scalar (a boolean or a number), as its text.
    Scalar(String),
    /// A string scalar.
    Str(String),
    /// A sequence.
    List(Vec<YamlNode>),
    /// A mapping, in document order.
    Dict(Vec<(YamlNode, YamlNode)>),
}

#[verifier::external_type_specification]
#[verifier::external_body]
pub struct ExYamlValue(serde_yaml::Value);

/// Relies on serde_yaml::Value being the closed set of YAML node
/// kinds. Each variant is moved into the plain tree one for one:
/// strings stay strings, booleans and numbers become their text, a
/// tagged value becomes its inner value, sequences and mappings
/// convert their entries in order by this same function.
#[verifier::external_body]
pub(crate) fn node_of(v: serde_yaml::Value) -> YamlNode {
    match v {
        serde_yaml::Value::Null => YamlNode::Null,
        serde_yaml::Value::Bool(b) => YamlNode::Scalar(format!("{}", b)),
        serde_yaml::Value::Number(n) => YamlNode::Scalar(format!("{}", n)),
        serde_yaml::Value::String(s) => YamlNode::Str(s),
        serde_yaml::Value::Sequence(xs) => YamlNode::List(
            xs.into_iter().map(node_of).collect(),
        ),
        serde_yaml::Value::Mapping(m) => YamlNode::Dict(
            m.into_iter().map(|(k, w)| (node_of(k), node_of(w))).collect(),
        ),
        serde_yaml::Value::Tagged(t) => node_of(t.value),
    }
}

/// The parse of one YAML document: the plain tree of documents the
/// parser accepts, nothing for those it rejects. The parse is a
/// function of the text alone, so the name stands for its result;
/// what the tree holds is never assumed, only checked afterwards by
/// the verified shape validators.
pub uninterp spec fn yaml_doc(s: Seq<char>) -> Option<YamlNode>;

/// Relies on serde_yaml::from_str: parses one YAML document, or
/// reports the parser's message. The result depends on the text
/// alone; it is named [`yaml_doc`], and every shape check on the
/// returned plain tree is made afterwards, verified.
#[verifier::external_body]
pub fn parse_yaml_text(s: &str) -> (r: Result<YamlNode, String>)
    ensures
        r is Ok <==> yaml_doc(s@) is Some,
        r matches Ok(n) ==> n == yaml_doc(s@)->Some_0,
{
    match serde_yaml::from_str::<serde_yaml::Value>(s) {
        Ok(v) => Ok(node_of(v)),
        Err(e) => Err(format!("{}", e)),
    }
}

/// `p` is a dictionary entry whose key is the string `key`.
pub open spec fn dict_key_is(p: (YamlNode, YamlNode), key: Seq<char>) -> bool {
    p.0 matches YamlNode::Str(s) && s@ == key
}

/// First entry of `d` with string key `key`; `d.len()` if none.
pub open spec fn dict_find(d: Seq<(YamlNode, YamlNode)>, key: Seq<char>, i: int) -> int
    decreases d.len() - i,
{
    if i < 0 {
        dict_find(d, key, 0)
    } else if i >= d.len() {
        d.len() as int
    } else if dict_key_is(d[i], key) {
        i
    } else {
        dict_find(d, key, i + 1)
    }
}

/// The dictionary has an entry with string key `key`.
pub open spec fn dict_has(d: Seq<(YamlNode, YamlNode)>, key: Seq<char>) -> bool {
    dict_find(d, key, 0) < d.len()
}

/// The value of the first entry with string key `key`.
pub open spec fn dict_val(d: Seq<(YamlNode, YamlNode)>, key: Seq<char>) -> YamlNode {
    d[dict_find(d, key, 0)].1
}

/// Look a string key up in a dictionary's entries.
pub fn dict_get<'a>(d: &'a Vec<(YamlNode, YamlNode)>, key: &str) -> (r: Option<&'a YamlNode>)
    ensures
        r is Some <==> dict_has(d@, key@),
        r matches Some(v) ==> *v == dict_val(d@, key@),
{
    let mut i: usize = 0;
    while i < d.len()
        invariant
            i <= d@.len(),
            dict_find(d@, key@, 0) == dict_find(d@, key@, i as int),
        decreases d@.len() - i,
    {
        match &d[i].0 {
            YamlNode::Str(s) => {
                if text::str_eq(s.as_str(), key) {
                    return Option::Some(&d[i].1);
                }
            },
            _ => {},
        }
        i = i + 1;
    }
    Option::None
}

} // verus!
