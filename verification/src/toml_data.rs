use vstd::prelude::*;

use crate::types::{FlatTomlValue, SpecScalar};

verus! {

#[verifier::external_type_specification]
#[verifier::external_body]
pub struct ExTomlValue(toml::Value);

/// Ghost model of one parsed toml value.
///
/// Scalars carry their contents; a table carries its entries, keyed by name,
/// in the order the underlying map hands them out; an array's contents are
/// never consulted by this library, so they are not modelled.
pub ghost enum SpecToml {
    Scalar(SpecScalar),
    Array,
    Table(Seq<(Seq<char>, SpecToml)>),
}

/// The model of the toml document a given text parses to, or `None` when the
/// text is not a well-formed toml document. The toml parser is deterministic,
/// so this is a function of the text alone.
pub uninterp spec fn toml_document(s: Seq<char>) -> Option<SpecToml>;

/// The model of one parsed toml value: which kind of value it is and what it
/// holds.
pub uninterp spec fn toml_value_model(v: toml::Value) -> SpecToml;

/// The models of a sequence of table entries.
pub open spec fn spec_entries_model(es: Seq<(String, toml::Value)>) -> Seq<(Seq<char>, SpecToml)> {
    Seq::new(es.len(), |i: int| (es[i].0.deep_view(), toml_value_model(es[i].1)))
}

/// Relies on toml's document parsing (`str::parse::<toml::Table>`): the
/// result is a function of the text alone, and is `None` exactly when the
/// text is not a well-formed toml document; a well-formed document always
/// parses to a table.
#[verifier::external_body]
pub(crate) fn parse_toml(s: &str) -> (r: Option<toml::Value>)
    ensures
        match r {
            Some(v) => toml_document(s@) == Some(toml_value_model(v)),
            None => toml_document(s@) is None,
        },
{
    match s.parse::<toml::Table>() {
        Ok(t) => Some(toml::Value::Table(t)),
        Err(_) => None,
    }
}

/// Relies on `toml::Value`'s `Table` variant, on the table map's iteration,
/// and on `toml::Value::clone` preserving a value: hands out a table's
/// entries as key-value pairs in the map's iteration order, and `None`
/// exactly when the value is not a table.
#[verifier::external_body]
pub(crate) fn toml_table_entries(v: &toml::Value) -> (r: Option<Vec<(String, toml::Value)>>)
    ensures
        match r {
            Some(es) => toml_value_model(*v) == SpecToml::Table(spec_entries_model(es@)),
            None => !(toml_value_model(*v) is Table),
        },
{
    match v {
        toml::Value::Table(t) => Some(t.iter().map(|(k, x)| (k.clone(), x.clone())).collect()),
        _ => None,
    }
}

/// Relies on `toml::Value`'s scalar variants: converts a scalar leaf
/// (string, integer, float, boolean, datetime) into the library's flat
/// value, taking a float as its bit pattern and a datetime as its display
/// text, and returns `None` exactly when the value is an array or a table.
#[verifier::external_body]
pub(crate) fn toml_value_scalar(v: &toml::Value) -> (r: Option<FlatTomlValue>)
    ensures
        match r {
            Some(f) => toml_value_model(*v) == SpecToml::Scalar(f.deep_view()),
            None => !(toml_value_model(*v) is Scalar),
        },
{
    match v {
        toml::Value::String(s) => Some(FlatTomlValue::String(s.clone())),
        toml::Value::Integer(i) => Some(FlatTomlValue::Integer(*i)),
        toml::Value::Float(x) => Some(FlatTomlValue::Float(x.to_bits())),
        toml::Value::Boolean(b) => Some(FlatTomlValue::Boolean(*b)),
        toml::Value::Datetime(d) => Some(FlatTomlValue::Datetime(d.to_string())),
        _ => None,
    }
}

/// The value under the first entry with the given key, if any.
pub open spec fn spec_lookup(es: Seq<(Seq<char>, SpecToml)>, key: Seq<char>) -> Option<SpecToml>
    decreases es.len(),
{
    if es.len() == 0 {
        None
    } else if es[0].0 == key {
        Some(es[0].1)
    } else {
        spec_lookup(es.drop_first(), key)
    }
}

/// Looking a key up is unaffected by dropping a keyless prefix.
proof fn lemma_lookup_skip(es: Seq<(Seq<char>, SpecToml)>, key: Seq<char>, i: int)
    requires
        0 <= i <= es.len(),
        forall|j: int| 0 <= j < i ==> es[j].0 != key,
    ensures
        spec_lookup(es, key) == spec_lookup(es.skip(i), key),
    decreases i,
{
    if i > 0 {
        assert(es[0].0 != key);
        lemma_lookup_skip(es.drop_first(), key, i - 1);
        assert(es.drop_first().skip(i - 1) =~= es.skip(i));
    } else {
        assert(es.skip(0) =~= es);
    }
}

/// Finds the first entry with the given key among a table's entries.
pub(crate) fn lookup_entry<'a>(es: &'a Vec<(String, toml::Value)>, key: &str) -> (r: Option<
    &'a toml::Value,
>)
    ensures
        match r {
            Some(v) => spec_lookup(spec_entries_model(es@), key@) == Some(toml_value_model(*v)),
            None => spec_lookup(spec_entries_model(es@), key@) is None,
        },
{
    let ghost model = spec_entries_model(es@);
    let mut i: usize = 0;
    while i < es.len()
        invariant
            0 <= i <= es.len(),
            model == spec_entries_model(es@),
            forall|j: int| 0 <= j < i ==> model[j].0 != key@,
        decreases es.len() - i,
    {
        if crate::text::str_eq(&es[i].0, key) {
            proof {
                lemma_lookup_skip(model, key@, i as int);
            }
            return Some(&es[i].1);
        }
        i += 1;
    }
    proof {
        lemma_lookup_skip(model, key@, es@.len() as int);
    }
    None
}

} // verus!
