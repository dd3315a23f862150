//! Trusted interface to TOML documents, through toml_edit.
//!
//! A TOML document is held as an opaque `toml_edit::DocumentMut` so that its
//! formatting and comments survive edits. Its semantic contents are described
//! by the ghost model [`TomlData`], which records exactly the shapes this
//! library reads or writes — strings, arrays of strings, tables — and carries
//! every other item through as an `Opaque` leaf. The names below
//! ([`toml_doc_model`], [`toml_table_model`], [`toml_item_model`],
//! [`toml_of_text`]) tie the trusted wrappers together.

use vstd::prelude::*;

verus! {

#[verifier::external_type_specification]
#[verifier::external_body]
pub struct ExDocumentMut(toml_edit::DocumentMut);

#[verifier::external_type_specification]
#[verifier::external_body]
pub struct ExItem(toml_edit::Item);

#[verifier::external_type_specification]
#[verifier::external_body]
pub struct ExTable(toml_edit::Table);

/// Ghost model of a TOML item, as far as this library reads or writes it.
/// Items the library never inspects are carried as `Opaque` leaves; `Table`
/// stands for a proper (non-inline) table.
#[verifier::ext_equal]
pub enum TomlData {
    Str(Seq<char>),
    StrArr(Seq<Seq<char>>),
    Table(Map<Seq<char>, TomlData>),
    Opaque(toml_edit::Item),
}

/// The entries of a table model; the empty map for any other model.
pub open spec fn table_map_of(d: TomlData) -> Map<Seq<char>, TomlData> {
    match d {
        TomlData::Table(m) => m,
        _ => Map::empty(),
    }
}

/// The model of a held `toml_edit::Item`.
pub uninterp spec fn toml_item_model(i: toml_edit::Item) -> TomlData;

/// The model of a held `toml_edit::Table`: its entries.
pub uninterp spec fn toml_table_model(t: toml_edit::Table) -> Map<Seq<char>, TomlData>;

/// The model of a held `toml_edit::DocumentMut`: its top-level entries.
pub uninterp spec fn toml_doc_model(d: toml_edit::DocumentMut) -> Map<Seq<char>, TomlData>;

/// What parsing a text as TOML gives: `None` where the text is not valid TOML.
pub uninterp spec fn toml_of_text(s: Seq<char>) -> Option<Map<Seq<char>, TomlData>>;

/// Relies on DocumentMut's FromStr: whether a text is valid TOML, and what it
/// parses to, depend on the text alone.
#[verifier::external_body]
pub(crate) fn toml_parse(s: &str) -> (r: Option<toml_edit::DocumentMut>)
    ensures
        r matches Some(d) ==> toml_of_text(s@) == Some(toml_doc_model(d)),
        r is None ==> toml_of_text(s@) is None,
{
    s.parse::<toml_edit::DocumentMut>().ok()
}

/// Relies on DocumentMut::new: the empty document.
#[verifier::external_body]
pub(crate) fn toml_new_doc() -> (r: toml_edit::DocumentMut)
    ensures
        toml_doc_model(r) == (Map::<Seq<char>, TomlData>::empty()),
{
    toml_edit::DocumentMut::new()
}

/// Relies on DocumentMut's Display: the document is written out with its
/// contents kept, so parsing the output gives them back.
#[verifier::external_body]
pub(crate) fn toml_to_string(d: &toml_edit::DocumentMut) -> (r: String)
    ensures
        toml_of_text(r@) == Some(toml_doc_model(*d)),
{
    d.to_string()
}

/// Relies on Table::get, reached through DocumentMut's deref.
#[verifier::external_body]
pub(crate) fn toml_doc_get<'a>(d: &'a toml_edit::DocumentMut, key: &str) -> (r: Option<
    &'a toml_edit::Item,
>)
    ensures
        r is Some <==> toml_doc_model(*d).contains_key(key@),
        r matches Some(i) ==> toml_item_model(*i) == toml_doc_model(*d)[key@],
{
    d.get(key)
}

/// Relies on Item::as_table: the table inside an `Item::Table`, `None` for
/// any other item (an inline table included).
#[verifier::external_body]
pub(crate) fn toml_item_as_table<'a>(i: &'a toml_edit::Item) -> (r: Option<&'a toml_edit::Table>)
    ensures
        r is Some <==> toml_item_model(*i) is Table,
        r matches Some(t) ==> toml_item_model(*i) == TomlData::Table(toml_table_model(*t)),
{
    i.as_table()
}

/// Relies on Table::contains_key.
#[verifier::external_body]
pub(crate) fn toml_table_contains_key(t: &toml_edit::Table, key: &str) -> (r: bool)
    ensures
        r == toml_table_model(*t).contains_key(key@),
{
    t.contains_key(key)
}

/// Relies on Table::insert (through DocumentMut's deref) over
/// toml_edit::table(): puts an empty table under `key`, replacing what was
/// there.
#[verifier::external_body]
pub(crate) fn toml_doc_insert_empty_table(d: &mut toml_edit::DocumentMut, key: &str)
    ensures
        toml_doc_model(*final(d)) == toml_doc_model(*old(d)).insert(
            key@,
            TomlData::Table(Map::empty()),
        ),
{
    d.insert(key, toml_edit::table());
}

/// Relies on Table::remove, reached through Table::get_mut and
/// Item::as_table_mut: removes and hands back the entry `ekey` of the table
/// at `tkey`; a document without a proper table at `tkey` is left unchanged.
#[verifier::external_body]
pub(crate) fn toml_take_entry(d: &mut toml_edit::DocumentMut, tkey: &str, ekey: &str) -> (r: Option<
    toml_edit::Item,
>)
    ensures
        ({
            let m0 = toml_doc_model(*old(d));
            let m1 = toml_doc_model(*final(d));
            if m0.contains_key(tkey@) && m0[tkey@] is Table {
                let tm0 = table_map_of(m0[tkey@]);
                &&& m1 == m0.insert(tkey@, TomlData::Table(tm0.remove(ekey@)))
                &&& (r is Some <==> tm0.contains_key(ekey@))
                &&& (r matches Some(i) ==> toml_item_model(i) == tm0[ekey@])
            } else {
                &&& m1 == m0
                &&& r is None
            }
        }),
{
    d.get_mut(tkey).and_then(|i| i.as_table_mut()).and_then(|t| t.remove(ekey))
}

/// Relies on Table::insert over Item::Table, reached through Table::get_mut
/// and Item::as_table_mut: sets the entry `ekey` of the table at `tkey`.
#[verifier::external_body]
pub(crate) fn toml_put_entry(
    d: &mut toml_edit::DocumentMut,
    tkey: &str,
    ekey: &str,
    entry: toml_edit::Table,
)
    requires
        toml_doc_model(*old(d)).contains_key(tkey@),
        toml_doc_model(*old(d))[tkey@] is Table,
    ensures
        toml_doc_model(*final(d)) == toml_doc_model(*old(d)).insert(
            tkey@,
            TomlData::Table(
                table_map_of(toml_doc_model(*old(d))[tkey@]).insert(
                    ekey@,
                    TomlData::Table(toml_table_model(entry)),
                ),
            ),
        ),
{
    d.get_mut(tkey).unwrap().as_table_mut().unwrap().insert(ekey, toml_edit::Item::Table(entry));
}

/// Relies on Table::new.
#[verifier::external_body]
pub(crate) fn toml_table_new() -> (r: toml_edit::Table)
    ensures
        toml_table_model(r) == (Map::<Seq<char>, TomlData>::empty()),
{
    toml_edit::Table::new()
}

/// Relies on Table::insert over toml_edit::value: sets `key` to a string
/// value with exactly the given contents.
#[verifier::external_body]
pub(crate) fn toml_table_set_str(t: &mut toml_edit::Table, key: &str, v: &str)
    ensures
        toml_table_model(*final(t)) == toml_table_model(*old(t)).insert(
            key@,
            TomlData::Str(v@),
        ),
{
    t.insert(key, toml_edit::value(v));
}

/// Relies on Table::insert over toml_edit::value of an Array collected from
/// the given strings: sets `key` to an array holding exactly those strings,
/// in order.
#[verifier::external_body]
pub(crate) fn toml_table_set_str_array(t: &mut toml_edit::Table, key: &str, items: &Vec<String>)
    ensures
        toml_table_model(*final(t)) == toml_table_model(*old(t)).insert(
            key@,
            TomlData::StrArr(items.deep_view()),
        ),
{
    let arr: toml_edit::Array = items.iter().map(|s| s.as_str()).collect();
    t.insert(key, toml_edit::value(arr));
}

} // verus!
