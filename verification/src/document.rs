//! The configuration file as a TOML document: tables of settings, built
//! entry by entry and rendered as text.

use toml_edit::{DocumentMut, Item, Table};
use vstd::prelude::*;

verus! {

#[verifier::external_type_specification]
#[verifier::external_body]
pub struct ExTable(toml_edit::Table);

/// What a key of a table stands for.
pub enum Setting {
    Text(Seq<char>),
    Integer(i64),
    Flag(bool),
    /// A table of its own, with its entries.
    Section(Seq<(Seq<char>, Setting)>),
    /// Anything else.
    Other,
}

/// The entries of a table, in the order in which it keeps them.
pub uninterp spec fn table_entries(table: Table) -> Seq<(Seq<char>, Setting)>;

/// The text of the document that has `root` as its root table.
pub uninterp spec fn document_text(root: Table) -> Seq<char>;

/// Whether `key` has an entry.
pub open spec fn has_key(entries: Seq<(Seq<char>, Setting)>, key: Seq<char>) -> bool {
    exists|i: int| 0 <= i < entries.len() && (#[trigger] entries[i]).0 == key
}

/// The entries after `key` is set to `value`: the entry is replaced where
/// the key has one, and added at the end where it has none.
pub open spec fn with_entry(entries: Seq<(Seq<char>, Setting)>, key: Seq<char>, value: Setting)
    -> Seq<(Seq<char>, Setting)> {
    if has_key(entries, key) {
        let i = choose|i: int| 0 <= i < entries.len() && (#[trigger] entries[i]).0 == key;
        entries.update(i, (key, value))
    } else {
        entries.push((key, value))
    }
}

/// `Table::new`: a table without entries.
#[verifier::external_body]
pub(crate) fn new_table() -> (t: Table)
    ensures
        table_entries(t) == Seq::<(Seq<char>, Setting)>::empty(),
{
    Table::new()
}

/// `Table::insert` of a string value: sets `key`, in place where the key
/// is there already and at the end where it is new; no other entry
/// changes.
#[verifier::external_body]
pub(crate) fn put_text(table: &mut Table, key: &str, value: &str)
    ensures
        table_entries(*final(table)) == with_entry(
            table_entries(*old(table)),
            key@,
            Setting::Text(value@),
        ),
{
    table.insert(key, toml_edit::value(value.to_owned()));
}

/// `Table::insert` of an integer value; as for a string.
#[verifier::external_body]
pub(crate) fn put_integer(table: &mut Table, key: &str, value: i64)
    ensures
        table_entries(*final(table)) == with_entry(
            table_entries(*old(table)),
            key@,
            Setting::Integer(value),
        ),
{
    table.insert(key, toml_edit::value(value));
}

/// `Table::insert` of a boolean value; as for a string.
#[verifier::external_body]
pub(crate) fn put_flag(table: &mut Table, key: &str, value: bool)
    ensures
        table_entries(*final(table)) == with_entry(
            table_entries(*old(table)),
            key@,
            Setting::Flag(value),
        ),
{
    table.insert(key, toml_edit::value(value));
}

/// `Table::insert` of a table: sets `key` to the table with its entries;
/// as for a string.
#[verifier::external_body]
pub(crate) fn put_section(table: &mut Table, key: &str, section: Table)
    ensures
        table_entries(*final(table)) == with_entry(
            table_entries(*old(table)),
            key@,
            Setting::Section(table_entries(section)),
        ),
{
    table.insert(key, Item::Table(section));
}

/// `DocumentMut::to_string`, on the document made of `root` by
/// `DocumentMut::from`: the document as TOML text.
#[verifier::external_body]
pub(crate) fn render_document(root: Table) -> (r: String)
    ensures
        r@ == document_text(root),
{
    DocumentMut::from(root).to_string()
}

} // verus!
