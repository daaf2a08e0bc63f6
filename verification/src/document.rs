//! The registry's JSON answer for a package, read through `serde_json`.
//!
//! A document is kept as `serde_json` parsed it, together with the text it
//! was parsed from. What it holds is stated over that text and a path of
//! object keys, followed from the root.

use vstd::prelude::*;
use crate::text::texts_of;

verus! {

/// `serde_json::Value`, carried as it is. Nothing is known of what is
/// inside.
#[verifier::external_type_specification]
#[verifier::external_body]
pub struct ExValue(serde_json::Value);

/// Whether the text is JSON.
pub uninterp spec fn json_valid(body: Seq<char>) -> bool;

/// Whether the last key of `path` is found: the value that the path
/// leads to without that key is an object, and the object holds the key.
pub uninterp spec fn json_has(body: Seq<char>, path: Seq<Seq<char>>) -> bool;

/// The string that `path` leads to, or `None` where the value there is no
/// string.
pub uninterp spec fn json_string(body: Seq<char>, path: Seq<Seq<char>>) -> Option<Seq<char>>;

/// The keys of the object that `path` leads to, as `serde_json` lists them,
/// or `None` where the value there is no object.
pub uninterp spec fn json_keys(body: Seq<char>, path: Seq<Seq<char>>) -> Option<Seq<Seq<char>>>;

/// The JSON text that `serde_json` writes for the value that `path` leads
/// to.
pub uninterp spec fn json_rendering(body: Seq<char>, path: Seq<Seq<char>>) -> Seq<char>;

/// Whether `path` can be followed from the root of the document, key by
/// key.
pub open spec fn json_reaches(body: Seq<char>, path: Seq<Seq<char>>) -> bool {
    forall|n: int| 1 <= n <= path.len() ==> json_has(body, #[trigger] path.take(n))
}

/// A parsed registry document. Its view is the text it was parsed from.
pub struct RegistryDocument {
    body: Ghost<Seq<char>>,
    root: serde_json::Value,
}

impl View for RegistryDocument {
    type V = Seq<char>;

    closed spec fn view(&self) -> Seq<char> {
        self.body@
    }
}

/// A value inside a document: the one that `path` leads to from the root
/// of what `body` parses to.
struct Node<'a> {
    body: Ghost<Seq<char>>,
    path: Ghost<Seq<Seq<char>>>,
    value: &'a serde_json::Value,
}

/// Parses JSON text with `serde_json::from_str` and keeps the value with
/// its text. Nothing else makes a [`RegistryDocument`].
///
/// Believed: the call succeeds exactly where `json_valid` holds of the
/// text; the document's view is the text.
#[verifier::external_body]
fn parse_json(body: &str) -> (r: Option<RegistryDocument>)
    ensures
        r is Some <==> json_valid(body@),
        r matches Some(document) ==> document@ == body@,
{
    let root = serde_json::from_str(body).ok()?;
    Some(RegistryDocument { body: Ghost(body@), root })
}

/// Borrows the `serde_json::Value` that a document holds, as the node
/// with the empty path. Only this and [`node_get`] make a node.
///
/// Believed: the node belongs to the document's text and has the empty
/// path.
#[verifier::external_body]
fn document_root<'a>(document: &'a RegistryDocument) -> (r: Node<'a>)
    ensures
        r.body@ == document@,
        r.path@ == Seq::<Seq<char>>::empty(),
{
    Node { body: Ghost(document.body@), path: Ghost(Seq::empty()), value: &document.root }
}

/// Looks a key up with `serde_json::Value::get` and keeps what it finds
/// as the node with the longer path.
///
/// Believed: the call finds a value exactly where `json_has` holds of the
/// node's path with the key added; what it finds belongs to the same text
/// and has that path.
#[verifier::external_body]
fn node_get<'a>(node: &Node<'a>, key: &str) -> (r: Option<Node<'a>>)
    ensures
        r is Some <==> json_has(node.body@, node.path@.push(key@)),
        r matches Some(child) ==> child.body@ == node.body@ && child.path@ == node.path@.push(
            key@,
        ),
{
    let value = node.value.get(key)?;
    Some(Node { body: Ghost(node.body@), path: Ghost(node.path@.push(key@)), value })
}

/// Reads a string with `serde_json::Value::as_str`.
///
/// Believed: the string is the one that `json_string` names for the
/// node's text and path.
#[verifier::external_body]
fn node_string(node: &Node) -> (r: Option<String>)
    ensures
        match r {
            Some(s) => json_string(node.body@, node.path@) == Some(s@),
            None => json_string(node.body@, node.path@) is None,
        },
{
    node.value.as_str().map(|s| s.to_owned())
}

/// Lists an object's keys with `serde_json::Value::as_object` and
/// `serde_json::Map::keys`.
///
/// Believed: the keys are those that `json_keys` names for the node's
/// text and path, in that order.
#[verifier::external_body]
fn node_keys(node: &Node) -> (r: Option<Vec<String>>)
    ensures
        match r {
            Some(keys) => json_keys(node.body@, node.path@) == Some(texts_of(keys@)),
            None => json_keys(node.body@, node.path@) is None,
        },
{
    node.value.as_object().map(|object| object.keys().cloned().collect())
}

/// Writes a value as JSON text with `serde_json::Value`'s `to_string`.
///
/// Believed: the text is the one that `json_rendering` names for the
/// node's text and path.
#[verifier::external_body]
fn node_rendering(node: &Node) -> (r: String)
    ensures
        r@ == json_rendering(node.body@, node.path@),
{
    node.value.to_string()
}

impl<'a> Node<'a> {
    /// Whether the node's path can be followed from the root.
    spec fn wf(&self) -> bool {
        json_reaches(self.body@, self.path@)
    }

    /// The value under `key`, where this node is an object that holds it.
    fn member(&self, key: &str) -> (r: Option<Node<'a>>)
        requires
            self.wf(),
        ensures
            r is Some <==> json_has(self.body@, self.path@.push(key@)),
            r is Some <==> json_reaches(self.body@, self.path@.push(key@)),
            r matches Some(child) ==> child.wf() && child.body@ == self.body@ && child.path@
                == self.path@.push(key@),
    {
        let ghost longer = self.path@.push(key@);
        proof {
            assert(longer.take(longer.len() as int) == longer);
            assert forall|n: int| 1 <= n < longer.len() implies longer.take(n) == self.path@.take(
                n,
            ) by {}
        }
        node_get(self, key)
    }
}

/// The distribution metadata of one version, each field as the document
/// writes it in JSON, or `None` where the field is absent.
#[derive(Clone, Debug, PartialEq, Eq)]
pub struct DistMetadata {
    pub tarball: Option<String>,
    pub integrity: Option<String>,
    pub shasum: Option<String>,
}

/// Distribution metadata, its texts as character sequences.
pub ghost struct Dist {
    pub tarball: Option<Seq<char>>,
    pub integrity: Option<Seq<char>>,
    pub shasum: Option<Seq<char>>,
}

/// The view of an optional string.
pub open spec fn optional_text(s: Option<String>) -> Option<Seq<char>> {
    match s {
        Some(s) => Some(s@),
        None => None,
    }
}

impl View for DistMetadata {
    type V = Dist;

    open spec fn view(&self) -> Dist {
        Dist {
            tarball: optional_text(self.tarball),
            integrity: optional_text(self.integrity),
            shasum: optional_text(self.shasum),
        }
    }
}

/// The version that the `latest` tag points to: the string at
/// `dist-tags.latest`.
pub open spec fn doc_latest(body: Seq<char>) -> Option<Seq<char>> {
    let path = seq!["dist-tags"@, "latest"@];
    if json_reaches(body, path) {
        json_string(body, path)
    } else {
        None
    }
}

/// The keys of the object at `versions`.
pub open spec fn doc_version_keys(body: Seq<char>) -> Option<Seq<Seq<char>>> {
    let path = seq!["versions"@];
    if json_reaches(body, path) {
        json_keys(body, path)
    } else {
        None
    }
}

/// The number of keys of the object at `versions.<version>.dependencies`,
/// and zero where there is no object.
pub open spec fn doc_dependency_count(body: Seq<char>, version: Seq<char>) -> nat {
    let path = seq!["versions"@, version, "dependencies"@];
    if json_reaches(body, path) {
        match json_keys(body, path) {
            Some(keys) => keys.len(),
            None => 0,
        }
    } else {
        0
    }
}

/// The JSON text of a field of the object at `path`, where it has the
/// field.
pub open spec fn doc_field(body: Seq<char>, path: Seq<Seq<char>>, key: Seq<char>) -> Option<
    Seq<char>,
> {
    if json_has(body, path.push(key)) {
        Some(json_rendering(body, path.push(key)))
    } else {
        None
    }
}

/// The distribution metadata at `versions.<version>.dist`, where that is
/// an object.
pub open spec fn doc_distribution(body: Seq<char>, version: Seq<char>) -> Option<Dist> {
    let path = seq!["versions"@, version, "dist"@];
    if json_reaches(body, path) && json_keys(body, path) is Some {
        Some(
            Dist {
                tarball: doc_field(body, path, "tarball"@),
                integrity: doc_field(body, path, "integrity"@),
                shasum: doc_field(body, path, "shasum"@),
            },
        )
    } else {
        None
    }
}

/// A path that cannot be followed up to its `n`-th key cannot be followed.
proof fn lemma_unreached_prefix(body: Seq<char>, path: Seq<Seq<char>>, n: int)
    requires
        0 <= n <= path.len(),
        !json_reaches(body, path.take(n)),
    ensures
        !json_reaches(body, path),
{
    let short = path.take(n);
    let m = choose|m: int| 1 <= m <= short.len() && !json_has(body, #[trigger] short.take(m));
    assert(short.take(m) == path.take(m));
}

impl RegistryDocument {
    /// Parses a response body. There is no document where the body is not
    /// JSON.
    pub fn parse(body: &str) -> (r: Option<RegistryDocument>)
        ensures
            r is Some <==> json_valid(body@),
            r matches Some(document) ==> document@ == body@,
    {
        parse_json(body)
    }

    fn root<'a>(&'a self) -> (r: Node<'a>)
        ensures
            r.wf(),
            r.body@ == self@,
            r.path@ == Seq::<Seq<char>>::empty(),
    {
        document_root(self)
    }

    /// Follows two keys from the root.
    fn descend2<'a>(&'a self, first: &str, second: &str) -> (r: Option<Node<'a>>)
        ensures
            r is Some <==> json_reaches(self@, seq![first@, second@]),
            r matches Some(node) ==> node.wf() && node.body@ == self@ && node.path@
                == seq![first@, second@],
    {
        let ghost path = seq![first@, second@];
        proof {
            assert(path.take(1) == Seq::<Seq<char>>::empty().push(first@));
            assert(path == path.take(1).push(second@));
        }
        match self.root().member(first) {
            Some(node) => {
                node.member(second)
            },
            None => {
                proof {
                    lemma_unreached_prefix(self@, path, 1);
                }
                None
            },
        }
    }

    /// Follows three keys from the root.
    fn descend3<'a>(&'a self, first: &str, second: &str, third: &str) -> (r: Option<Node<'a>>)
        ensures
            r is Some <==> json_reaches(self@, seq![first@, second@, third@]),
            r matches Some(node) ==> node.wf() && node.body@ == self@ && node.path@
                == seq![first@, second@, third@],
    {
        let ghost path = seq![first@, second@, third@];
        proof {
            assert(path.take(2) == seq![first@, second@]);
            assert(path == path.take(2).push(third@));
        }
        match self.descend2(first, second) {
            Some(node) => {
                node.member(third)
            },
            None => {
                proof {
                    lemma_unreached_prefix(self@, path, 2);
                }
                None
            },
        }
    }

    /// The version that the `latest` tag points to.
    pub fn latest(&self) -> (r: Option<String>)
        ensures
            optional_text(r) == doc_latest(self@),
    {
        match self.descend2("dist-tags", "latest") {
            Some(node) => node_string(&node),
            None => None,
        }
    }

    /// The version keys of the document, where it has a `versions` object.
    pub fn version_keys(&self) -> (r: Option<Vec<String>>)
        ensures
            match r {
                Some(keys) => doc_version_keys(self@) == Some(texts_of(keys@)),
                None => doc_version_keys(self@) is None,
            },
    {
        match self.root().member("versions") {
            Some(node) => node_keys(&node),
            None => None,
        }
    }

    /// How many dependencies the version declares.
    pub fn dependency_count(&self, version: &str) -> (r: usize)
        ensures
            r == doc_dependency_count(self@, version@),
    {
        match self.descend3("versions", version, "dependencies") {
            Some(node) => match node_keys(&node) {
                Some(keys) => keys.len(),
                None => 0,
            },
            None => 0,
        }
    }

    /// The distribution metadata of the version.
    pub fn distribution(&self, version: &str) -> (r: Option<DistMetadata>)
        ensures
            match r {
                Some(dist) => doc_distribution(self@, version@) == Some(dist@),
                None => doc_distribution(self@, version@) is None,
            },
    {
        match self.descend3("versions", version, "dist") {
            Some(node) => {
                if node_keys(&node).is_none() {
                    return None;
                }
                let tarball = match node.member("tarball") {
                    Some(field) => Some(node_rendering(&field)),
                    None => None,
                };
                let integrity = match node.member("integrity") {
                    Some(field) => Some(node_rendering(&field)),
                    None => None,
                };
                let shasum = match node.member("shasum") {
                    Some(field) => Some(node_rendering(&field)),
                    None => None,
                };
                Some(DistMetadata { tarball, integrity, shasum })
            },
            None => None,
        }
    }
}

} // verus!
