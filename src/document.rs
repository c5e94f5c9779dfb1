use vstd::prelude::*;

verus! {

/// What a key of a TOML table holds, as far as this library reads it.
pub enum Entry {
    Text(Seq<char>),
    Table(Map<Seq<char>, Entry>),
    Other,
}

#[verifier::external_type_specification]
#[verifier::external_body]
pub struct ExValue(toml::Value);

#[verifier::external_type_specification]
#[verifier::external_body]
#[verifier::reject_recursive_types(K)]
#[verifier::reject_recursive_types(V)]
pub struct ExTomlMap<K, V>(toml::map::Map<K, V>);

/// The entries of a TOML table.
pub uninterp spec fn entries(t: toml::Table) -> Map<Seq<char>, Entry>;

/// The top-level table that TOML text denotes, or `None` where the text is not a valid
/// TOML document.
pub uninterp spec fn parsed_document(text: Seq<char>) -> Option<Map<Seq<char>, Entry>>;

/// What the serializer writes for a table with the given entries, where every value is a
/// string or a table of strings (see `plain_table`).
pub uninterp spec fn rendered_document(m: Map<Seq<char>, Entry>) -> Seq<char>;

/// Every value of the table is a string, or a table whose values are all strings. For
/// such a table the entries fix every value, and the serializer cannot fail on it.
pub open spec fn plain_table(m: Map<Seq<char>, Entry>) -> bool {
    forall|k: Seq<char>|
        #[trigger] m.contains_key(k) ==> match m[k] {
            Entry::Text(_) => true,
            Entry::Table(sub) => forall|j: Seq<char>|
                #[trigger] sub.contains_key(j) ==> sub[j] is Text,
            Entry::Other => false,
        }
}

/// What a lookup of one key in a table found.
pub enum Found<'a> {
    Missing,
    Text(String),
    Table(&'a toml::Table),
    Other,
}

/// Relies on toml::from_str, asked for a `toml::Table`: it parses the whole text as a
/// TOML document and fails where the text is not one.
#[verifier::external_body]
pub(crate) fn parse_document(text: &str) -> (r: Option<toml::Table>)
    ensures
        match r {
            Some(t) => parsed_document(text@) == Some(entries(t)),
            None => parsed_document(text@) is None,
        },
{
    toml::from_str::<toml::Table>(text).ok()
}

/// Relies on toml::map::Map::get, telling the variants of `toml::Value` apart.
#[verifier::external_body]
pub(crate) fn lookup<'a>(t: &'a toml::Table, key: &str) -> (r: Found<'a>)
    ensures
        match r {
            Found::Missing => !entries(*t).contains_key(key@),
            Found::Text(s) => entries(*t).contains_key(key@) && entries(*t)[key@] == Entry::Text(
                s@,
            ),
            Found::Table(x) => entries(*t).contains_key(key@) && entries(*t)[key@]
                == Entry::Table(entries(*x)),
            Found::Other => entries(*t).contains_key(key@) && entries(*t)[key@] is Other,
        },
{
    match t.get(key) {
        None => Found::Missing,
        Some(toml::Value::String(s)) => Found::Text(s.clone()),
        Some(toml::Value::Table(x)) => Found::Table(x),
        Some(_) => Found::Other,
    }
}

/// Relies on toml::map::Map::new: a table with no entries.
#[verifier::external_body]
pub(crate) fn new_table() -> (r: toml::Table)
    ensures
        entries(r) =~= Map::empty(),
{
    toml::Table::new()
}

/// Relies on toml::map::Map::insert, with a string value.
#[verifier::external_body]
pub(crate) fn insert_text(t: &mut toml::Table, key: String, value: String)
    ensures
        entries(*final(t)) == entries(*old(t)).insert(key@, Entry::Text(value@)),
{
    t.insert(key, toml::Value::String(value));
}

/// Relies on toml::map::Map::insert, with a table value.
#[verifier::external_body]
pub(crate) fn insert_table(t: &mut toml::Table, key: String, value: toml::Table)
    ensures
        entries(*final(t)) == entries(*old(t)).insert(key@, Entry::Table(entries(value))),
{
    t.insert(key, toml::Value::Table(value));
}

/// Relies on toml::to_string: on a table of strings and tables of strings it succeeds,
/// and its text depends on the entries alone (keys are kept in sorted order).
#[verifier::external_body]
pub(crate) fn render_document(t: &toml::Table) -> (r: Option<String>)
    requires
        plain_table(entries(*t)),
    ensures
        r is Some,
        r matches Some(s) ==> s@ == rendered_document(entries(*t)),
{
    toml::to_string(t).ok()
}

} // verus!
