//! Access to YAML documents through `yaml_rust2`.
//!
//! A parsed document is kept opaque; what the configuration logic reads
//! of it is handed out as a [`YamlEntry`], a plain value.
use vstd::prelude::*;
use yaml_rust2::{ScanError, Yaml, YamlLoader};

verus! {

#[verifier::external_type_specification]
#[verifier::external_body]
pub struct ExYaml(Yaml);

#[verifier::external_type_specification]
#[verifier::external_body]
pub struct ExScanError(ScanError);

/// What the configuration reads of the node at `document[section][key]`:
/// the scalar it holds, or for a sequence, each item as text where it is a string.
pub enum YamlEntry {
    Boolean(bool),
    Integer(i64),
    Text(String),
    List(Vec<Option<String>>),
    /// Any other node: a float, null, a mapping, an alias, or a missing key.
    Other,
}

/// Mathematical model of a [`YamlEntry`].
pub enum YamlEntryView {
    Boolean(bool),
    Integer(i64),
    Text(Seq<char>),
    List(Seq<Option<Seq<char>>>),
    Other,
}

pub open spec fn optional_text_view(o: Option<String>) -> Option<Seq<char>> {
    match o {
        Some(s) => Some(s@),
        None => None,
    }
}

impl View for YamlEntry {
    type V = YamlEntryView;

    open spec fn view(&self) -> YamlEntryView {
        match self {
            YamlEntry::Boolean(b) => YamlEntryView::Boolean(*b),
            YamlEntry::Integer(i) => YamlEntryView::Integer(*i),
            YamlEntry::Text(s) => YamlEntryView::Text(s@),
            YamlEntry::List(items) => YamlEntryView::List(
                items@.map_values(|o: Option<String>| optional_text_view(o)),
            ),
            YamlEntry::Other => YamlEntryView::Other,
        }
    }
}

/// The number of documents that `YamlLoader::load_from_str` finds in `source`,
/// or `None` where it reports a scan error.
pub uninterp spec fn yaml_document_count(source: Seq<char>) -> Option<nat>;

/// The entry at `first_document[section][key]` of the documents that
/// `YamlLoader::load_from_str` reads from `source`.
pub uninterp spec fn yaml_entry(source: Seq<char>, section: Seq<char>, key: Seq<char>) -> YamlEntryView;

/// The first document of a YAML text, together with the text it was read from.
pub struct YamlDocument {
    root: Yaml,
    source: Ghost<Seq<char>>,
}

impl YamlDocument {
    /// The text this document was read from.
    pub closed spec fn source(&self) -> Seq<char> {
        self.source@
    }
}

/// Calls `yaml_rust2::YamlLoader::load_from_str` and keeps the first document.
///
/// Trusted: the call fails exactly when the loader reports a scan error, and
/// otherwise yields a document exactly when the loader found at least one;
/// both facts are named by `yaml_document_count`, which nothing here defines.
#[verifier::external_body]
pub fn load_first_document(text: &str) -> (r: Result<Option<YamlDocument>, ScanError>)
    ensures
        r is Ok <==> yaml_document_count(text@) is Some,
        r matches Ok(d) ==> (d is Some <==> yaml_document_count(text@)->0 > 0),
        r matches Ok(Some(d)) ==> d.source() == text@,
{
    match YamlLoader::load_from_str(text) {
        Ok(docs) => match docs.into_iter().next() {
            Some(root) => Ok(Some(YamlDocument { root, source: Ghost(text@) })),
            None => Ok(None),
        },
        Err(e) => Err(e),
    }
}

/// Reads `document[section][key]` through `yaml_rust2`'s `Index<&str>` for `Yaml`
/// (which yields `BadValue` for a missing key or a node that is not a mapping)
/// and converts the node to a [`YamlEntry`], one variant for one variant.
///
/// Trusted: the result is what `yaml_entry` names for the document's source text.
#[verifier::external_body]
pub fn document_entry(doc: &YamlDocument, section: &str, key: &str) -> (r: YamlEntry)
    ensures
        r@ == yaml_entry(doc.source(), section@, key@),
{
    match &doc.root[section][key] {
        Yaml::Boolean(b) => YamlEntry::Boolean(*b),
        Yaml::Integer(i) => YamlEntry::Integer(*i),
        Yaml::String(s) => YamlEntry::Text(s.clone()),
        Yaml::Array(items) => YamlEntry::List(
            items.iter().map(|item| match item {
                Yaml::String(s) => Some(s.clone()),
                _ => None,
            }).collect(),
        ),
        _ => YamlEntry::Other,
    }
}

impl YamlEntry {
    /// The boolean the entry holds, else `default`.
    pub fn bool_or(&self, default: bool) -> (r: bool)
        ensures
            r == entry_bool_or(self@, default),
    {
        match self {
            YamlEntry::Boolean(b) => *b,
            _ => default,
        }
    }

    /// The integer the entry holds, else `default`.
    pub fn i64_or(&self, default: i64) -> (r: i64)
        ensures
            r == entry_i64_or(self@, default),
    {
        match self {
            YamlEntry::Integer(i) => *i,
            _ => default,
        }
    }

    /// The text the entry holds, else `default`.
    pub fn text_or(&self, default: &str) -> (r: String)
        ensures
            r@ == entry_text_or(self@, default@),
    {
        match self {
            YamlEntry::Text(s) => s.clone(),
            _ => String::from_str(default),
        }
    }

    /// The items of a list whose items are all strings; the empty list where the
    /// entry is not a list; `None` where some item of the list is not a string.
    pub fn text_list(&self) -> (r: Option<Vec<String>>)
        ensures
            r is Some <==> entry_text_list(self@) is Some,
            r matches Some(v) ==> v@.map_values(|s: String| s@) == entry_text_list(self@)->0,
    {
        match self {
            YamlEntry::List(items) => {
                let mut out: Vec<String> = Vec::new();
                let mut i: usize = 0;
                while i < items.len()
                    invariant
                        i <= items.len(),
                        self@ == YamlEntryView::List(items@.map_values(|o: Option<String>| optional_text_view(o))),
                        out@.len() == i,
                        forall|j: int| 0 <= j < i ==> (#[trigger] items@[j]) is Some,
                        forall|j: int| 0 <= j < i ==> (#[trigger] out@[j])@ == items@[j]->0@,
                    decreases items.len() - i,
                {
                    match &items[i] {
                        Some(s) => {
                            out.push(s.clone());
                        },
                        None => {
                            proof {
                                let v = self@->List_0;
                                assert(v[i as int] is None);
                                assert(!(forall|j: int| 0 <= j < v.len() ==> (#[trigger] v[j]) is Some));
                            }
                            return None;
                        },
                    }
                    i = i + 1;
                }
                proof {
                    let v = self@->List_0;
                    assert(forall|j: int| 0 <= j < v.len() ==> (#[trigger] v[j]) is Some);
                    assert(out@.map_values(|s: String| s@) =~= v.map_values(|o: Option<Seq<char>>| o->0));
                }
                Some(out)
            },
            _ => Some(Vec::new()),
        }
    }
}

pub open spec fn entry_bool_or(e: YamlEntryView, default: bool) -> bool {
    match e {
        YamlEntryView::Boolean(b) => b,
        _ => default,
    }
}

pub open spec fn entry_i64_or(e: YamlEntryView, default: i64) -> i64 {
    match e {
        YamlEntryView::Integer(i) => i,
        _ => default,
    }
}

pub open spec fn entry_text_or(e: YamlEntryView, default: Seq<char>) -> Seq<char> {
    match e {
        YamlEntryView::Text(s) => s,
        _ => default,
    }
}

pub open spec fn entry_text_list(e: YamlEntryView) -> Option<Seq<Seq<char>>> {
    match e {
        YamlEntryView::List(items) => if forall|j: int| 0 <= j < items.len() ==> (#[trigger] items[j]) is Some {
            Some(items.map_values(|o: Option<Seq<char>>| o->0))
        } else {
            None
        },
        _ => Some(Seq::empty()),
    }
}

/// An entry of the setting's type gives its own value; only an entry of
/// another type gives the default.
pub proof fn lemma_entry_value_or_default(e: YamlEntryView, default_bool: bool, default_i64: i64, default_text: Seq<char>)
    ensures
        e matches YamlEntryView::Boolean(b) ==> entry_bool_or(e, default_bool) == b,
        !(e is Boolean) ==> entry_bool_or(e, default_bool) == default_bool,
        e matches YamlEntryView::Integer(i) ==> entry_i64_or(e, default_i64) == i,
        !(e is Integer) ==> entry_i64_or(e, default_i64) == default_i64,
        e matches YamlEntryView::Text(t) ==> entry_text_or(e, default_text) == t,
        !(e is Text) ==> entry_text_or(e, default_text) == default_text,
{
}

} // verus!
