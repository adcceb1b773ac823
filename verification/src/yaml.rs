//! A YAML document as a tree of plain values, and the loader that produces it.

use vstd::prelude::*;
use yaml_rust::ScanError;
use yaml_rust::Yaml;
use yaml_rust::YamlLoader;

verus! {

/// A node of `yaml_rust`, carried through as it is.
#[verifier::external_type_specification]
#[verifier::external_body]
pub struct ExYaml(Yaml);

/// The error of the scanner of `yaml_rust`, carried through as it is.
#[verifier::external_type_specification]
#[verifier::external_body]
pub struct ExScanError(ScanError);

/// One node of a loaded YAML document.
///
/// A real number keeps the text it was written with; a mapping keeps its
/// entries in the order in which the loader hands them out.
#[derive(Debug)]
pub enum YamlNode {
    Real(String),
    Integer(i64),
    Text(String),
    Boolean(bool),
    Array(Vec<YamlNode>),
    Hash(Vec<(YamlNode, YamlNode)>),
    Alias(usize),
    Null,
    BadValue,
}

/// The longest text that is handed to the loader, in characters.
pub const MAX_SETTINGS_CHARS: usize = 8192;

/// The largest number of characters that can open a level of nesting in a
/// text that is handed to the loader.
pub const MAX_NESTING_MARKS: usize = 256;

/// Whether a character can open a level of nesting in YAML: the entry of a
/// block sequence, the key or the value of a mapping, or the start of a
/// flow sequence or mapping.
pub open spec fn opens_nesting(c: char) -> bool {
    c == '-' || c == '?' || c == ':' || c == '[' || c == '{'
}

/// How many characters of `text` can open a level of nesting.
pub open spec fn nesting_marks(text: Seq<char>) -> nat
    decreases text.len(),
{
    if text.len() == 0 {
        0
    } else {
        nesting_marks(text.drop_last()) + if opens_nesting(text.last()) {
            1nat
        } else {
            0nat
        }
    }
}

/// A text that may be handed to the loader: no longer than
/// [`MAX_SETTINGS_CHARS`] and with no more than [`MAX_NESTING_MARKS`]
/// characters that can open a level of nesting.
pub open spec fn loadable(text: Seq<char>) -> bool {
    text.len() <= MAX_SETTINGS_CHARS && nesting_marks(text) <= MAX_NESTING_MARKS
}

/// Counts the characters of `text` that can open a level of nesting.
pub fn count_nesting_marks(text: &str) -> (r: usize)
    ensures
        r == nesting_marks(text@),
{
    let len = text.unicode_len();
    let mut marks: usize = 0;
    let mut i: usize = 0;
    while i < len
        invariant
            i <= len,
            len == text@.len(),
            marks == nesting_marks(text@.take(i as int)),
            marks <= i,
        decreases len - i,
    {
        proof {
            assert(text@.take(i + 1).drop_last() == text@.take(i as int));
        }
        let c = text.get_char(i);
        if c == '-' || c == '?' || c == ':' || c == '[' || c == '{' {
            marks += 1;
        }
        i += 1;
    }
    proof {
        assert(text@.take(len as int) == text@);
    }
    marks
}

/// The documents that the YAML loader reads from `text`, or `None` where the
/// text is not well-formed YAML.
pub uninterp spec fn yaml_documents(text: Seq<char>) -> Option<Seq<YamlNode>>;

/// Turns a node of `yaml_rust` into a [`YamlNode`], variant for variant,
/// moving what it holds; a mapping hands its entries over in the order of
/// its own iterator. Nothing is claimed of it alone: [`load_documents`],
/// the one place that uses it, names the whole result.
///
/// It follows the nesting of the node it is given. It is given only what
/// the loader made of a text that [`load_documents`] admits, which is
/// nested no deeper than that text has nesting marks.
#[verifier::external_body]
fn node_of(y: Yaml) -> YamlNode {
    match y {
        Yaml::Real(s) => YamlNode::Real(s),
        Yaml::Integer(i) => YamlNode::Integer(i),
        Yaml::String(s) => YamlNode::Text(s),
        Yaml::Boolean(b) => YamlNode::Boolean(b),
        Yaml::Array(a) => YamlNode::Array(a.into_iter().map(node_of).collect()),
        Yaml::Hash(h) => YamlNode::Hash(
            h.into_iter().map(|(k, v)| (node_of(k), node_of(v))).collect(),
        ),
        Yaml::Alias(n) => YamlNode::Alias(n),
        Yaml::Null => YamlNode::Null,
        Yaml::BadValue => YamlNode::BadValue,
    }
}

/// Calls `yaml_rust::YamlLoader::load_from_str` and hands its documents
/// over as [`YamlNode`]s. The loader reads nothing but the text, so its
/// result is a function of the text: the documents named by
/// [`yaml_documents`], or the scanner's error exactly when there are none.
///
/// The loader calls itself once for every level of nesting, and so do the
/// conversion and the release of what it loaded. Every level is opened by
/// a character of its own, one of `-`, `?`, `:`, `[` and `{`, so a text
/// that is [`loadable`] is nested at most [`MAX_NESTING_MARKS`] deep,
/// which the stack of a thread bears. Other texts are left out.
#[verifier::external_body]
pub(crate) fn load_documents(text: &str) -> (r: Result<Vec<YamlNode>, ScanError>)
    requires
        loadable(text@),
    ensures
        r is Ok <==> yaml_documents(text@) is Some,
        r matches Ok(docs) ==> yaml_documents(text@) == Some(docs@),
{
    YamlLoader::load_from_str(text).map(|docs| docs.into_iter().map(node_of).collect())
}

/// Formats a scanner error of `yaml_rust` through its `Display` impl: the
/// reason, the line and the column.
#[verifier::external_body]
pub(crate) fn describe_scan_error(e: &ScanError) -> String {
    format!("{}", e)
}

} // verus!
