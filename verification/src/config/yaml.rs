//! Access to YAML documents.
//!
//! A document is a `yaml_rust::Yaml` tree. Verified code never looks inside
//! one: it reads a tree through the functions of this module, whose contracts
//! are stated over [`Node`], the mathematical model of a tree.

use crate::config::{failed, ConfigError, ConfigErrorView};
use crate::text::{is_text, lower, to_ascii_lowercase};
use std::path::{Path, PathBuf};
use vstd::prelude::*;
use yaml_rust::Yaml;

verus! {

/// `yaml_rust::Yaml`, carried through verified code as an opaque value.
#[verifier::external_type_specification]
#[verifier::external_body]
pub struct ExYaml(yaml_rust::Yaml);

/// `std::path::PathBuf`, carried through verified code as an opaque value.
#[verifier::external_type_specification]
#[verifier::external_body]
pub struct ExPathBuf(std::path::PathBuf);

/// `std::path::Path`, the borrowed form of a `PathBuf`.
#[verifier::external_type_specification]
#[verifier::external_body]
pub struct ExPath(std::path::Path);

/// The model of a YAML tree.
///
/// A hash keeps only its entries under text keys: those are the only ones a
/// lookup by name can reach.
pub enum Node {
    Real(Seq<char>),
    Integer(i64),
    Text(Seq<char>),
    Boolean(bool),
    Array(Seq<Node>),
    Hash(Map<Seq<char>, Node>),
    Alias(usize),
    Null,
    BadValue,
}

/// The tree that a `yaml_rust::Yaml` value holds.
pub uninterp spec fn node_of(yaml: Yaml) -> Node;

/// The text that an owned path holds.
pub uninterp spec fn path_text(path: PathBuf) -> Seq<char>;

/// The text that a borrowed path holds.
pub uninterp spec fn borrowed_path_text(path: &Path) -> Seq<char>;

/// The trees that a vector of `yaml_rust::Yaml` values holds, in order.
pub open spec fn nodes_of(items: Seq<Yaml>) -> Seq<Node> {
    items.map_values(|y: Yaml| node_of(y))
}

/// The texts that a vector of strings holds, in order.
pub open spec fn texts_of(items: Seq<String>) -> Seq<Seq<char>> {
    items.map_values(|s: String| s@)
}

/// What reading a list of names gave, with each name as its text.
pub open spec fn names_read(r: Result<Option<Vec<String>>, ConfigError>) -> Result<
    Option<Seq<Seq<char>>>,
    ConfigErrorView,
> {
    match r {
        Ok(Some(names)) => Ok(Some(texts_of(names@))),
        Ok(None) => Ok(None),
        Err(e) => Err(e@),
    }
}

/// What a word spelled in lower case says of a switch.
pub open spec fn word_as_bool(word: Seq<char>) -> Option<bool> {
    if word == "yes"@ || word == "true"@ || word == "on"@ {
        Some(true)
    } else if word == "no"@ || word == "false"@ || word == "off"@ {
        Some(false)
    } else {
        None
    }
}

impl Node {
    /// The entry of a hash under `key`; `BadValue` where `self` is no hash or
    /// has no such entry.
    pub open spec fn child(self, key: Seq<char>) -> Node {
        match self {
            Node::Hash(entries) => if entries.contains_key(key) {
                entries[key]
            } else {
                Node::BadValue
            },
            _ => Node::BadValue,
        }
    }

    /// The text of a text scalar.
    pub open spec fn text(self) -> Option<Seq<char>> {
        match self {
            Node::Text(s) => Some(s),
            _ => None,
        }
    }

    /// The items of an array; none for any other node.
    pub open spec fn items(self) -> Seq<Node> {
        match self {
            Node::Array(items) => items,
            _ => Seq::empty(),
        }
    }

    /// An integer scalar within `0..=max`, and `default` for anything else.
    pub open spec fn int_or(self, max: int, default: int) -> int {
        match self {
            Node::Integer(i) => if 0 <= i <= max {
                i as int
            } else {
                default
            },
            _ => default,
        }
    }

    /// A switch: `default` where the node is absent, the value of a boolean,
    /// and the meaning of a text that spells one without regard to case.
    pub open spec fn bool_or(self, default: bool) -> Result<bool, ConfigErrorView> {
        match self {
            Node::BadValue => Ok(default),
            Node::Boolean(b) => Ok(b),
            Node::Text(s) => match word_as_bool(lower(s)) {
                Some(b) => Ok(b),
                None => Err(ConfigErrorView::BadBool),
            },
            _ => Err(ConfigErrorView::BadBool),
        }
    }

    /// A list of names: `None` where the node is absent, the texts of an
    /// array of text scalars, no names for a node that is no array, and an
    /// error for an array that holds anything but text.
    pub open spec fn names(self) -> Result<Option<Seq<Seq<char>>>, ConfigErrorView> {
        if self is BadValue {
            Ok(None)
        } else if forall|i: int| 0 <= i < self.items().len() ==> (#[trigger] self.items()[i]) is Text {
            Ok(Some(Seq::new(self.items().len(), |i: int| self.items()[i]->Text_0)))
        } else {
            Err(ConfigErrorView::BadStringList)
        }
    }
}

/// `Index<&str>` of `yaml_rust::Yaml`: the value stored in a hash under the
/// text key `key`, and the crate's `BadValue` where `yaml` is not a hash or
/// holds no such key.
#[verifier::external_body]
pub(crate) fn get<'a>(yaml: &'a Yaml, key: &str) -> (r: &'a Yaml)
    ensures
        node_of(*r) == node_of(*yaml).child(key@),
{
    &yaml[key]
}

/// `Yaml::as_str`: the text of a `String` node, `None` for any other node.
#[verifier::external_body]
pub(crate) fn as_str<'a>(yaml: &'a Yaml) -> (r: Option<&'a str>)
    ensures
        match r {
            Some(s) => node_of(*yaml) == Node::Text(s@),
            None => !(node_of(*yaml) is Text),
        },
{
    yaml.as_str()
}

/// `Yaml::as_i64`: the number of an `Integer` node, `None` for any other node.
#[verifier::external_body]
pub(crate) fn as_i64(yaml: &Yaml) -> (r: Option<i64>)
    ensures
        match r {
            Some(i) => node_of(*yaml) == Node::Integer(i),
            None => !(node_of(*yaml) is Integer),
        },
{
    yaml.as_i64()
}

/// `Yaml::as_bool`: the value of a `Boolean` node, `None` for any other node.
#[verifier::external_body]
pub(crate) fn as_bool(yaml: &Yaml) -> (r: Option<bool>)
    ensures
        match r {
            Some(b) => node_of(*yaml) == Node::Boolean(b),
            None => !(node_of(*yaml) is Boolean),
        },
{
    yaml.as_bool()
}

/// `Yaml::as_vec`: the items of an `Array` node, `None` for any other node.
#[verifier::external_body]
pub(crate) fn as_vec<'a>(yaml: &'a Yaml) -> (r: Option<&'a Vec<Yaml>>)
    ensures
        match r {
            Some(items) => node_of(*yaml) == Node::Array(nodes_of(items@)),
            None => !(node_of(*yaml) is Array),
        },
{
    yaml.as_vec()
}

/// `Yaml::is_badvalue`: whether the node is `BadValue`.
#[verifier::external_body]
pub(crate) fn is_badvalue(yaml: &Yaml) -> (r: bool)
    ensures
        r == (node_of(*yaml) is BadValue),
{
    yaml.is_badvalue()
}

/// `PathBuf::from` on a `String`: a path that holds exactly that text.
#[verifier::external_body]
pub(crate) fn path_from(text: String) -> (r: PathBuf)
    ensures
        path_text(r) == text@,
{
    PathBuf::from(text)
}

/// `PathBuf::as_path`: the same path, borrowed.
#[verifier::external_body]
pub(crate) fn as_path(path: &PathBuf) -> (r: &Path)
    ensures
        borrowed_path_text(r) == path_text(*path),
{
    path.as_path()
}

/// `PathBuf::clone`: a path that holds the same text.
#[verifier::external_body]
pub(crate) fn clone_path(path: &PathBuf) -> (r: PathBuf)
    ensures
        path_text(r) == path_text(*path),
{
    path.clone()
}

/// The text under `key`, if there is one.
pub fn get_string(yaml: &Yaml, key: &str) -> (r: Option<String>)
    ensures
        match r {
            Some(s) => node_of(*yaml).child(key@).text() == Some(s@),
            None => node_of(*yaml).child(key@).text() is None,
        },
{
    match as_str(get(yaml, key)) {
        Some(s) => Some(s.to_owned()),
        None => None,
    }
}

/// The text under `key` as a path, if there is one.
pub fn get_pathbuf(yaml: &Yaml, key: &str) -> (r: Option<PathBuf>)
    ensures
        match r {
            Some(p) => node_of(*yaml).child(key@).text() == Some(path_text(p)),
            None => node_of(*yaml).child(key@).text() is None,
        },
{
    match get_string(yaml, key) {
        Some(s) => Some(path_from(s)),
        None => None,
    }
}

/// The integer under `key` where it fits a `u16`, else `default`.
pub fn get_u16(yaml: &Yaml, key: &str, default: u16) -> (r: u16)
    ensures
        r == node_of(*yaml).child(key@).int_or(u16::MAX as int, default as int),
{
    match as_i64(get(yaml, key)) {
        Some(i) => if 0 <= i && i <= 65535 {
            i as u16
        } else {
            default
        },
        None => default,
    }
}

/// The integer under `key` where it fits a `u32`, else `default`.
pub fn get_u32(yaml: &Yaml, key: &str, default: u32) -> (r: u32)
    ensures
        r == node_of(*yaml).child(key@).int_or(u32::MAX as int, default as int),
{
    match as_i64(get(yaml, key)) {
        Some(i) => if 0 <= i && i <= 4294967295 {
            i as u32
        } else {
            default
        },
        None => default,
    }
}

/// What a word says of a switch, without regard to the case of its letters.
pub fn to_bool(word: &str) -> (r: Option<bool>)
    ensures
        r == word_as_bool(lower(word@)),
{
    let w = to_ascii_lowercase(word);
    if is_text(&w, "yes") || is_text(&w, "true") || is_text(&w, "on") {
        Some(true)
    } else if is_text(&w, "no") || is_text(&w, "false") || is_text(&w, "off") {
        Some(false)
    } else {
        None
    }
}

/// The switch under `key`, `default` where the key is absent.
pub fn get_bool(yaml: &Yaml, key: &str, default: bool) -> (r: Result<bool, ConfigError>)
    ensures
        failed(r) == node_of(*yaml).child(key@).bool_or(default),
{
    let value = get(yaml, key);
    if is_badvalue(value) {
        return Ok(default);
    }
    if let Some(b) = as_bool(value) {
        return Ok(b);
    }
    match as_str(value) {
        Some(s) => match to_bool(s) {
            Some(b) => Ok(b),
            None => Err(ConfigError::BadBool),
        },
        None => Err(ConfigError::BadBool),
    }
}

/// The list of names under `key`; `None` where the key is absent.
pub fn get_string_vector(yaml: &Yaml, key: &str) -> (r: Result<Option<Vec<String>>, ConfigError>)
    ensures
        names_read(r) == node_of(*yaml).child(key@).names(),
{
    let value = get(yaml, key);
    if is_badvalue(value) {
        return Ok(None);
    }
    let mut names: Vec<String> = Vec::new();
    match as_vec(value) {
        None => {
            assert(texts_of(names@) =~= Seq::new(0, |i: int| node_of(*value).items()[i]->Text_0));
        },
        Some(items) => {
            let ghost nodes = node_of(*value).items();
            let mut i: usize = 0;
            while i < items.len()
                invariant
                    i <= items.len(),
                    nodes == nodes_of(items@),
                    nodes == node_of(*value).items(),
                    !(node_of(*value) is BadValue),
                    node_of(*value) == node_of(*yaml).child(key@),
                    names@.len() == i,
                    forall|j: int| 0 <= j < i ==> (#[trigger] nodes[j]) is Text,
                    forall|j: int| 0 <= j < i ==> (#[trigger] names@[j])@ == nodes[j]->Text_0,
                decreases items.len() - i,
            {
                assert(nodes[i as int] == node_of(items@[i as int]));
                match as_str(&items[i]) {
                    Some(s) => {
                        names.push(s.to_owned());
                    },
                    None => {
                        assert(!(node_of(*value).items()[i as int] is Text));
                        return Err(ConfigError::BadStringList);
                    },
                }
                i += 1;
            }
            assert(texts_of(names@) =~= Seq::new(nodes.len(), |i: int| nodes[i]->Text_0));
        },
    }
    Ok(Some(names))
}

} // verus!
