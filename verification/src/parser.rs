//! The document model and the typed node accessor.
//!
//! A scene description is parsed into an ordered list of top-level trees.
//! Each tree is built from three node shapes: scalars (plain text),
//! sequences, and mappings from scalar text keys to nodes. The accessor
//! looks a key up in a mapping and views the value under a requested shape;
//! a missing key and a value of the wrong shape are both silent absences,
//! never errors.

mod error;

pub mod lexer;

pub use error::IoFailure;
pub use error::ParseError;
pub use error::ScanFailure;

use vstd::prelude::*;
use yaml_rust::Yaml;

verus! {

/// One node of a parsed scene-description tree.
///
/// Mapping keys are scalar text, ordinarily unique; a mapping holds its
/// entries in insertion order, though lookup ignores that order and takes
/// the first entry under a key. Nodes never reference their parents, so a
/// document is a tree.
pub enum Node {
    Scalar(String),
    Sequence(Vec<Node>),
    Mapping(Vec<(String, Node)>),
}

/// An abstraction of the node type: the scene description is encapsulated in
/// the parser, and callers hold values of this alias.
pub type ParserNode = Node;

/// The value under the first entry of the mapping whose key reads as `key`,
/// if any.
pub open spec fn map_lookup(entries: Seq<(String, Node)>, key: Seq<char>) -> Option<Node>
    decreases entries.len(),
{
    if entries.len() == 0 {
        None
    } else if entries.first().0@ == key {
        Some(entries.first().1)
    } else {
        map_lookup(entries.drop_first(), key)
    }
}

/// The value under `key` when the node is a mapping; any other shape holds
/// no keyed values.
pub open spec fn node_lookup(n: Node, key: Seq<char>) -> Option<Node> {
    match n {
        Node::Mapping(entries) => map_lookup(entries@, key),
        _ => None,
    }
}

/// The text of a scalar node; other shapes have none.
pub open spec fn scalar_text(n: Node) -> Option<Seq<char>> {
    match n {
        Node::Scalar(s) => Some(s@),
        _ => None,
    }
}

/// A scan that saw no matching key among the first `i` entries may resume
/// from entry `i`: the lookup result is decided by the remaining entries.
pub proof fn lemma_map_lookup_skip(entries: Seq<(String, Node)>, key: Seq<char>, i: int)
    requires
        0 <= i <= entries.len(),
        forall|j: int| 0 <= j < i ==> entries[j].0@ != key,
    ensures
        map_lookup(entries, key) == map_lookup(entries.skip(i), key),
    decreases i,
{
    if i > 0 {
        lemma_map_lookup_skip(entries, key, i - 1);
        assert(entries.skip(i - 1).first() == entries[i - 1]);
        assert(entries.skip(i - 1).drop_first() =~= entries.skip(i));
    } else {
        assert(entries.skip(0) =~= entries);
    }
}

/// The spec-level value of an optional borrowed node.
pub open spec fn opt_node(p: Option<&Node>) -> Option<Node> {
    match p {
        Some(n) => Some(*n),
        None => None,
    }
}

/// The parsed scene description: an ordered list of top-level trees, of
/// which lookups consume the first. Immutable after loading.
pub struct Parser {
    scene_desc: Vec<Node>,
}

impl Parser {
    /// The top-level trees of the scene description, in order.
    pub closed spec fn docs(&self) -> Seq<Node> {
        self.scene_desc@
    }

    /// The mapping that a lookup searches: the given parent when one is
    /// given, and the root of the first top-level tree otherwise. A
    /// document with no trees offers nothing to search.
    pub open spec fn effective_parent(&self, parent: Option<Node>) -> Option<Node> {
        match parent {
            Some(n) => Some(n),
            None => if self.docs().len() > 0 {
                Some(self.docs()[0])
            } else {
                None
            },
        }
    }

    /// The node under `key` in the effective parent mapping, if the parent
    /// exists, is a mapping, and holds the key.
    pub open spec fn value_under(&self, key: Seq<char>, parent: Option<Node>) -> Option<Node> {
        match self.effective_parent(parent) {
            Some(p) => node_lookup(p, key),
            None => None,
        }
    }

    /// The value under `key` viewed as scalar text; a missing key and a
    /// non-scalar value are both absences.
    pub open spec fn string_under(&self, key: Seq<char>, parent: Option<Node>) -> Option<
        Seq<char>,
    > {
        match self.value_under(key, parent) {
            Some(n) => scalar_text(n),
            None => None,
        }
    }

    /// The value under `key` when it is itself a mapping; a missing key and
    /// a value of another shape are both absences.
    pub open spec fn mapping_under(&self, key: Seq<char>, parent: Option<Node>) -> Option<Node> {
        match self.value_under(key, parent) {
            Some(n) => if n is Mapping {
                Some(n)
            } else {
                None
            },
            None => None,
        }
    }

    /// The items of the value under `key` when it is a sequence; a missing
    /// key and a value of another shape are both absences.
    pub open spec fn sequence_under(&self, key: Seq<char>, parent: Option<Node>) -> Option<
        Seq<Node>,
    > {
        match self.value_under(key, parent) {
            Some(n) => match n {
                Node::Sequence(items) => Some(items@),
                _ => None,
            },
            None => None,
        }
    }

    /// The raw keyed lookup behind the shape-viewing accessors. Searches the
    /// effective parent mapping for `key` and hands back a borrowed view of
    /// the value found there; the view lives exactly as long as the document
    /// it points into.
    #[verifier::loop_isolation(false)]
    pub fn get_hash_value<'a>(&'a self, key: &str, parent_node: Option<&'a ParserNode>) -> (r:
        Option<&'a ParserNode>)
        ensures
            opt_node(r) == self.value_under(key@, opt_node(parent_node)),
    {
        let parent: &Node = match parent_node {
            Some(x) => x,
            None => {
                if self.scene_desc.len() == 0 {
                    return None;
                }
                &self.scene_desc[0]
            },
        };
        match parent {
            Node::Mapping(entries) => {
                let n = entries.len();
                let mut i: usize = 0;
                while i < n
                    invariant
                        0 <= i <= n,
                        n == entries@.len(),
                        forall|j: int| 0 <= j < i ==> entries@[j].0@ != key@,
                    decreases n - i,
                {
                    if str_eq(entries[i].0.as_str(), key) {
                        proof {
                            lemma_map_lookup_skip(entries@, key@, i as int);
                            assert(entries@.skip(i as int).len() > 0);
                            assert(entries@.skip(i as int).first() == entries@[i as int]);
                            assert(entries@[i as int].0@ == key@);
                            assert(map_lookup(entries@.skip(i as int), key@) == Some(
                                entries@[i as int].1,
                            ));
                        }
                        return Some(&entries[i].1);
                    }
                    i += 1;
                }
                proof {
                    lemma_map_lookup_skip(entries@, key@, n as int);
                    assert(entries@.skip(n as int) =~= Seq::<(String, Node)>::empty());
                }
                None
            },
            _ => None,
        }
    }

    /// Retrieves the scalar text under `key`, borrowed from the document. A
    /// missing key and a value of another shape both yield nothing.
    pub fn get_string<'a>(&'a self, key: &str, parent_node: Option<&'a ParserNode>) -> (r: Option<
        &'a String,
    >)
        ensures
            r is Some <==> self.string_under(key@, opt_node(parent_node)) is Some,
            r matches Some(s) ==> Some(s@) == self.string_under(key@, opt_node(parent_node)),
    {
        match self.get_hash_value(key, parent_node) {
            Some(n) => match n {
                Node::Scalar(s) => Some(s),
                _ => None,
            },
            None => None,
        }
    }

    /// Retrieves the mapping under `key`, borrowed from the document, so
    /// that its own entries can be read by further lookups. A missing key
    /// and a value of another shape both yield nothing.
    pub fn get_hash<'a>(&'a self, key: &str, parent_node: Option<&'a ParserNode>) -> (r: Option<
        &'a ParserNode,
    >)
        ensures
            opt_node(r) == self.mapping_under(key@, opt_node(parent_node)),
    {
        match self.get_hash_value(key, parent_node) {
            Some(n) => match n {
                Node::Mapping(_) => Some(n),
                _ => None,
            },
            None => None,
        }
    }

    /// Retrieves the items of the sequence under `key`, borrowed from the
    /// document. A missing key and a value of another shape both yield
    /// nothing.
    pub fn get_sequence<'a>(&'a self, key: &str, parent_node: Option<&'a ParserNode>) -> (r:
        Option<&'a Vec<Node>>)
        ensures
            r is Some <==> self.sequence_under(key@, opt_node(parent_node)) is Some,
            r matches Some(v) ==> Some(v@) == self.sequence_under(key@, opt_node(parent_node)),
    {
        match self.get_hash_value(key, parent_node) {
            Some(n) => match n {
                Node::Sequence(items) => Some(items),
                _ => None,
            },
            None => None,
        }
    }

    /// The top-level trees of the document, for callers that walk it whole.
    pub fn documents(&self) -> (r: &Vec<Node>)
        ensures
            r@ == self.docs(),
    {
        &self.scene_desc
    }
}

/// The parsed source format is YAML, decoded with yaml_rust; this declares
/// its node type so that values of it can be carried through to conversion.
#[verifier::external_type_specification]
#[verifier::external_body]
pub struct ExYaml(yaml_rust::Yaml);

/// The library's model of one decoded yaml_rust node: sequences and
/// mappings keep their converted contents in order, and every scalar keeps
/// a text — string and floating-point scalars their source text, integers
/// the decimal rendering of their value, booleans `true` or `false`, nulls
/// `~`. A mapping key keeps its scalar text the same way; a key that is not
/// scalar flattens to the empty text, so in such an exotic document two
/// keys can read alike and lookup takes the first. A decoded node is plain
/// data, so its model is a function of the value alone.
pub uninterp spec fn yaml_node_model(y: yaml_rust::Yaml) -> Node;

/// The trees that parsing the given source text yields, or nothing when the
/// text is malformed. Parsing is a pure function of the text alone.
pub uninterp spec fn yaml_documents(text: Seq<char>) -> Option<Seq<Node>>;

/// What scanning malformed source text reports: the line (from 1), the
/// column (from 0), and the scanner's rendering of the failure. Like the
/// parse itself, the report is a pure function of the text alone.
pub uninterp spec fn yaml_scan_failure(text: Seq<char>) -> (nat, nat, Seq<char>);

/// Relies on yaml_rust::YamlLoader::load_from_str: it decodes the source
/// text into top-level trees, deterministically, or reports a scan error
/// whose marker carries the line (from 1) and column (from 0) of the
/// failure.
#[verifier::external_body]
fn load_yaml(text: &str) -> (r: Result<Vec<yaml_rust::Yaml>, ScanFailure>)
    ensures
        r is Ok <==> yaml_documents(text@) is Some,
        r matches Ok(docs) ==> Some(docs@.map_values(|y| yaml_node_model(y))) == yaml_documents(
            text@,
        ),
        r matches Err(f) ==> (f.line as nat, f.col as nat, f.message@) == yaml_scan_failure(
            text@,
        ),
{
    match yaml_rust::YamlLoader::load_from_str(text) {
        Ok(docs) => Ok(docs),
        Err(e) => Err(
            ScanFailure { line: e.marker().line(), col: e.marker().col(), message: e.to_string() },
        ),
    }
}

/// Relies on the yaml_rust::Yaml representation: each variant of a decoded
/// node is plain data, mapped one arm at a time onto the library's node
/// model. String and floating-point scalars keep their source text,
/// integers the decimal rendering of their value, booleans `true` or
/// `false`, nulls `~`; a mapping key keeps its scalar text the same way,
/// and a non-scalar key flattens to the empty text.
#[verifier::external_body]
fn yaml_to_node(y: &yaml_rust::Yaml) -> (n: Node)
    ensures
        n == yaml_node_model(*y),
{
    match y {
        Yaml::Real(s) => Node::Scalar(s.clone()),
        Yaml::Integer(i) => Node::Scalar(i.to_string()),
        Yaml::String(s) => Node::Scalar(s.clone()),
        Yaml::Boolean(b) => Node::Scalar(b.to_string()),
        Yaml::Null => Node::Scalar(String::from("~")),
        Yaml::Array(v) => Node::Sequence(v.iter().map(yaml_to_node).collect()),
        Yaml::Hash(h) => Node::Mapping(h.iter().map(|(k, v)| (match yaml_to_node(k) { Node::Scalar(s) => s, _ => String::new() }, yaml_to_node(v))).collect()),
        _ => Node::Scalar(String::new()),
    }
}

impl Parser {
    /// Loads a scene description from its source text.
    ///
    /// The text is decoded into the document's top-level trees in a single
    /// pass; the document is immutable afterwards. Malformed text yields the
    /// syntax error, carrying the scanner's report and position, and no
    /// document.
    pub fn from(source_text: &str) -> (r: Result<Parser, ParseError>)
        ensures
            r is Ok <==> yaml_documents(source_text@) is Some,
            r matches Ok(p) ==> Some(p.docs()) == yaml_documents(source_text@),
            r matches Err(e) ==> (e matches ParseError::YamlScanError(f) && (
            f.line as nat,
            f.col as nat,
            f.message@,
            ) == yaml_scan_failure(source_text@)),
    {
        match load_yaml(source_text) {
            Ok(raw) => {
                let ghost model = yaml_documents(source_text@)->Some_0;
                let n = raw.len();
                let mut docs: Vec<Node> = Vec::new();
                let mut i: usize = 0;
                while i < n
                    invariant
                        0 <= i <= n,
                        n == raw@.len(),
                        model == raw@.map_values(|y| yaml_node_model(y)),
                        docs@.len() == i,
                        forall|j: int| 0 <= j < i ==> docs@[j] == model[j],
                    decreases n - i,
                {
                    docs.push(yaml_to_node(&raw[i]));
                    i += 1;
                }
                proof {
                    assert(docs@ =~= model);
                }
                Ok(Parser { scene_desc: docs })
            },
            Err(d) => Err(ParseError::YamlScanError(d)),
        }
    }
}

/// Compares two pieces of text character by character.
pub fn str_eq(a: &str, b: &str) -> (r: bool)
    ensures
        r == (a@ == b@),
{
    let alen = a.unicode_len();
    let blen = b.unicode_len();
    if alen != blen {
        return false;
    }
    let mut i: usize = 0;
    while i < alen
        invariant
            0 <= i <= alen,
            alen == a@.len(),
            blen == b@.len(),
            alen == blen,
            forall|j: int| 0 <= j < i ==> a@[j] == b@[j],
        decreases alen - i,
    {
        if a.get_char(i) != b.get_char(i) {
            return false;
        }
        i += 1;
    }
    proof {
        assert(a@ =~= b@);
    }
    true
}

} // verus!
