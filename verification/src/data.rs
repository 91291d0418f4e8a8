//! The data loader: parses data file text into a value tree and reads
//! the tree's top-level mapping. Parsing itself is the structured-data
//! collaborator's work; this module states what its calls yield and
//! checks that the root is a mapping.

use vstd::prelude::*;

use crate::errors::{app_error, AppError, ErrorKind};
use crate::pairs::{distinct_keys, lemma_entries_denote, map_of_pairs};
use crate::text::has_prefix;

verus! {

#[verifier::external_type_specification]
#[verifier::external_body]
pub struct ExTomlValue(toml::Value);

/// Whether a text is a valid structured-data document: the success of
/// `toml::from_str`, which depends on the text alone.
pub uninterp spec fn toml_ok(s: Seq<char>) -> bool;

/// The top-level mapping of a parsed value, if the value is a mapping at
/// all: what a `toml::Value::Table` holds, keyed by the entry names.
pub uninterp spec fn toml_root_table(v: toml::Value) -> Option<Map<Seq<char>, toml::Value>>;

/// The mapping that a valid document text denotes: parsing is a
/// function of the text, and a document's root is always a mapping.
pub uninterp spec fn toml_table_of(s: Seq<char>) -> Map<Seq<char>, toml::Value>;

/// The diagnostic an invalid document text draws: the collaborator's
/// parse error rendered as text, a function of the text alone.
pub uninterp spec fn toml_diag_of(s: Seq<char>) -> Seq<char>;

/// Relies on `toml::from_str`: parses one document, succeeding exactly
/// on valid document text; the outcome is a function of the text, and
/// the parsed value is rooted at the mapping the text denotes. On
/// failure the collaborator's diagnostic comes back verbatim.
#[verifier::external_body]
fn toml_from_str(text: &String) -> (r: Result<toml::Value, String>)
    ensures
        r is Ok <==> toml_ok(text@),
        r matches Ok(v) ==> toml_root_table(v) == Some(toml_table_of(text@)),
        r matches Err(d) ==> d@ == toml_diag_of(text@),
{
    match toml::from_str::<toml::Value>(text.as_str()) {
        Ok(v) => Ok(v),
        Err(e) => Err(e.to_string()),
    }
}

/// Relies on `toml::Value::clone`: the copy equals the original.
#[verifier::external_body]
pub(crate) fn clone_value(v: &toml::Value) -> (r: toml::Value)
    ensures
        r == *v,
{
    v.clone()
}

/// The stored views of a list of owned entries.
pub open spec fn entry_views(s: Seq<(String, toml::Value)>) -> Seq<(Seq<char>, toml::Value)> {
    s.map_values(|p: (String, toml::Value)| (p.0@, p.1))
}

/// Relies on `toml::Value::as_table` and `toml::map::Map::iter`: hands the
/// top-level entries out when the root is a mapping, each key once, each
/// with its value; yields nothing otherwise.
#[verifier::external_body]
fn table_entries(v: &toml::Value) -> (r: Option<Vec<(String, toml::Value)>>)
    ensures
        r is Some <==> toml_root_table(*v) is Some,
        r matches Some(es) ==> ({
            let s = entry_views(es@);
            let m = toml_root_table(*v)->Some_0;
            &&& distinct_keys(s)
            &&& forall|i: int| 0 <= i < s.len() ==> m.contains_key(s[i].0) && m[s[i].0]
                == s[i].1
            &&& forall|k: Seq<char>| m.contains_key(k) ==> exists|i: int|
                0 <= i < s.len() && s[i].0 == k
        }),
{
    match v.as_table() {
        Some(t) => Some(t.iter().map(|(k, val)| (k.clone(), val.clone())).collect()),
        None => None,
    }
}

/// The parsed data file, rooted at a mapping: its top-level entries, each
/// key once, in the order the collaborator handed them out.
#[derive(Debug)]
pub struct DataTree {
    entries: Vec<(String, toml::Value)>,
}

impl View for DataTree {
    type V = Map<Seq<char>, toml::Value>;

    closed spec fn view(&self) -> Map<Seq<char>, toml::Value> {
        map_of_pairs(entry_views(self.entries@))
    }
}

impl DataTree {
    /// The entries as they are stored.
    pub closed spec fn entries_view(&self) -> Seq<(Seq<char>, toml::Value)> {
        entry_views(self.entries@)
    }

    /// The stored keys are pairwise distinct.
    pub closed spec fn wf(&self) -> bool {
        distinct_keys(entry_views(self.entries@))
    }

    /// The mapping is the one the stored entries denote.
    pub proof fn lemma_view_is_entries(&self)
        ensures
            self@ == map_of_pairs(self.entries_view()),
    {
    }

    /// How many top-level entries the tree has.
    pub fn entry_count(&self) -> (n: usize)
        ensures
            n == self.entries_view().len(),
    {
        self.entries.len()
    }

    /// The entry at one position of the stored list.
    pub fn entry_at(&self, i: usize) -> (e: &(String, toml::Value))
        requires
            i < self.entries_view().len(),
        ensures
            (e.0@, e.1) == self.entries_view()[i as int],
    {
        &self.entries[i]
    }
}

/// Parses data file text into a value tree; fails exactly on invalid
/// document text, with the collaborator's diagnostic verbatim behind
/// the parse failure's prefix.
pub fn parse_data(text: &String) -> (r: Result<toml::Value, AppError>)
    ensures
        r is Ok <==> toml_ok(text@),
        r matches Ok(v) ==> toml_root_table(v) == Some(toml_table_of(text@)),
        r matches Err(e) ==> e.kind == ErrorKind::Parse && e.message@
            == "failed to parse data file: "@ + toml_diag_of(text@),
        r matches Err(e) ==> has_prefix(e.message@, "failed to parse data file: "@),
{
    match toml_from_str(text) {
        Ok(v) => Ok(v),
        Err(diag) => {
            let mut m = "failed to parse data file: ".to_owned();
            m.append(diag.as_str());
            proof {
                assert(m@.subrange(0, "failed to parse data file: "@.len() as int)
                    =~= "failed to parse data file: "@);
            }
            Err(app_error(ErrorKind::Parse, m))
        },
    }
}

/// Reads the top-level mapping out of a parsed value: yields the tree of
/// exactly that mapping, and fails exactly when the root is no mapping.
pub fn data_tree_of(v: &toml::Value) -> (r: Result<DataTree, AppError>)
    ensures
        r is Ok <==> toml_root_table(*v) is Some,
        r matches Ok(t) ==> t.wf() && t@ == toml_root_table(*v)->Some_0,
        r matches Err(e) ==> e.kind == ErrorKind::DataFormat && e.message@
            == "data file root is not a mapping"@,
{
    match table_entries(v) {
        Some(es) => {
            proof {
                lemma_entries_denote(entry_views(es@), toml_root_table(*v)->Some_0);
            }
            Ok(DataTree { entries: es })
        },
        None => Err(
            app_error(ErrorKind::DataFormat, "data file root is not a mapping".to_owned()),
        ),
    }
}

/// The data loader in one step: text to tree. A parse failure is
/// exactly an invalid document; a valid document yields exactly the
/// mapping it denotes. A document's root is always a mapping, so the
/// root check of `data_tree_of` cannot fail on this path.
pub fn load_config(text: &String) -> (r: Result<DataTree, AppError>)
    ensures
        r is Ok <==> toml_ok(text@),
        r matches Err(e) ==> e.kind == ErrorKind::Parse && e.message@
            == "failed to parse data file: "@ + toml_diag_of(text@),
        r matches Ok(t) ==> t.wf() && t@ == toml_table_of(text@),
{
    let v = match parse_data(text) {
        Ok(v) => v,
        Err(e) => {
            return Err(e);
        },
    };
    match data_tree_of(&v) {
        Ok(t) => Ok(t),
        Err(e) => Err(e),
    }
}

} // verus!
