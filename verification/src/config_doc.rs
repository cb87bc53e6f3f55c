//! The configuration file as a `toml_edit` document: parsing its text,
//! reading which servers it holds, making the changes `config_file` chooses,
//! and writing it back, so that comments, order and unknown keys stay.
//!
//! The library never looks inside a document itself. Each operation on one
//! is `toml_edit`'s own, named here so that contracts can speak of its
//! result; which operations are made, and in what order, is verified.
use crate::config::AppConfig;
use crate::config_file::{config_file_edits, edit_text, edit_texts, file_edits, EditText, FileEdit, FileServer};
use toml_edit::DocumentMut;
use vstd::prelude::*;

verus! {

#[verifier::external_type_specification]
#[verifier::external_body]
pub struct ExDocumentMut(toml_edit::DocumentMut);

/// The document `text.parse::<DocumentMut>()` reads from `text`, or the
/// empty document where it reports an error.
pub uninterp spec fn toml_doc_of(text: Seq<char>) -> DocumentMut;

/// The entries under `servers` of a document (name, and whether it is a
/// table): none when there is no `servers` key, `None` when it holds
/// something other than a table.
pub uninterp spec fn toml_servers_of(doc: DocumentMut) -> Option<Seq<FileServer>>;

/// The text of a document (its `Display`).
pub uninterp spec fn toml_text_of(doc: DocumentMut) -> Seq<char>;

/// The document with the top-level `key` set to the string `value`.
pub uninterp spec fn toml_with_text(doc: DocumentMut, key: Seq<char>, value: Seq<char>) -> DocumentMut;

/// The document with the top-level `key` set to the integer `value`.
pub uninterp spec fn toml_with_integer(doc: DocumentMut, key: Seq<char>, value: i64) -> DocumentMut;

/// The document without the top-level `key`.
pub uninterp spec fn toml_without(doc: DocumentMut, key: Seq<char>) -> DocumentMut;

/// The document with an implicit `servers` table (made where the key is
/// missing, marked implicit where it is a table).
pub uninterp spec fn toml_servers_opened(doc: DocumentMut) -> DocumentMut;

/// The document without the entry `name` of its `servers` table.
pub uninterp spec fn toml_without_server(doc: DocumentMut, name: Seq<char>) -> DocumentMut;

/// The document with `field` of the server table `name` set to the string
/// `value` (the server table made where missing).
pub uninterp spec fn toml_with_server_text(
    doc: DocumentMut,
    name: Seq<char>,
    field: Seq<char>,
    value: Seq<char>,
) -> DocumentMut;

/// The document without `field` of the server table `name` (the server
/// table made where missing).
pub uninterp spec fn toml_without_server_field(doc: DocumentMut, name: Seq<char>, field: Seq<char>) -> DocumentMut;

/// The document with `field` of the server table `name` set to the flag
/// `value` (the server table made where missing).
pub uninterp spec fn toml_with_server_flag(
    doc: DocumentMut,
    name: Seq<char>,
    field: Seq<char>,
    value: bool,
) -> DocumentMut;

/// Parses a configuration text (`str::parse::<DocumentMut>`).
///
/// Trusted: the result is the named parse of the text; a text that is not
/// TOML gives the empty document (`unwrap_or_default`).
#[verifier::external_body]
fn parse_document(text: &str) -> (r: DocumentMut)
    ensures
        r == toml_doc_of(text@),
{
    text.parse::<DocumentMut>().unwrap_or_default()
}

/// Reads the entries under `servers` (`Table::get`, `Item::as_table`,
/// `Table::iter`, `Item::is_table`).
///
/// Trusted: the result, entry for entry, is the named list.
#[verifier::external_body]
fn document_servers(doc: &DocumentMut) -> (r: Option<Vec<FileServer>>)
    ensures
        match r {
            Some(v) => Some(v@),
            None => None,
        } == toml_servers_of(*doc),
{
    match doc.get("servers") {
        None => Some(Vec::new()),
        Some(item) => item.as_table().map(|t| {
            t.iter().map(|(k, v)| FileServer { name: k.to_string(), is_table: v.is_table() }).collect()
        }),
    }
}

/// Writes a document as text (`to_string`).
///
/// Trusted: the result is the named text of the document.
#[verifier::external_body]
fn document_text(doc: &DocumentMut) -> (r: String)
    ensures
        r@ == toml_text_of(*doc),
{
    doc.to_string()
}

/// Sets a top-level key to a string (`doc[key] = value(..)`).
///
/// Trusted: the document afterwards is the named one.
#[verifier::external_body]
fn set_text(doc: &mut DocumentMut, key: &str, value: String)
    ensures
        *final(doc) == toml_with_text(*old(doc), key@, value@),
{
    doc[key] = toml_edit::value(value);
}

/// Sets a top-level key to an integer (`doc[key] = value(..)`).
///
/// Trusted: the document afterwards is the named one.
#[verifier::external_body]
fn set_integer(doc: &mut DocumentMut, key: &str, value: i64)
    ensures
        *final(doc) == toml_with_integer(*old(doc), key@, value),
{
    doc[key] = toml_edit::value(value);
}

/// Removes a top-level key (`Table::remove`).
///
/// Trusted: the document afterwards is the named one.
#[verifier::external_body]
fn remove_key(doc: &mut DocumentMut, key: &str)
    ensures
        *final(doc) == toml_without(*old(doc), key@),
{
    doc.remove(key);
}

/// Makes sure of an implicit `servers` table (`Table::entry`,
/// `Entry::or_insert`, `Table::set_implicit`).
///
/// Trusted: the document afterwards is the named one.
#[verifier::external_body]
fn open_servers(doc: &mut DocumentMut)
    ensures
        *final(doc) == toml_servers_opened(*old(doc)),
{
    let mut fresh = toml_edit::Table::new();
    fresh.set_implicit(true);
    if let Some(t) = doc.entry("servers").or_insert(toml_edit::Item::Table(fresh)).as_table_mut() {
        t.set_implicit(true);
    }
}

/// Removes an entry of the `servers` table (`Table::get_mut`,
/// `Item::as_table_mut`, `Table::remove`).
///
/// Trusted: the document afterwards is the named one.
#[verifier::external_body]
fn remove_server(doc: &mut DocumentMut, name: &str)
    ensures
        *final(doc) == toml_without_server(*old(doc), name@),
{
    if let Some(t) = doc.get_mut("servers").and_then(toml_edit::Item::as_table_mut) {
        t.remove(name);
    }
}

/// Sets a field of a server table to a string (`Table::get_mut`,
/// `Table::entry`, `Entry::or_insert`, `st[field] = value(..)`).
///
/// Trusted: the document afterwards is the named one.
#[verifier::external_body]
fn set_server_text(doc: &mut DocumentMut, name: &str, field: &str, value: String)
    ensures
        *final(doc) == toml_with_server_text(*old(doc), name@, field@, value@),
{
    if let Some(t) = doc.get_mut("servers").and_then(toml_edit::Item::as_table_mut) {
        if let Some(st) = t.entry(name).or_insert(toml_edit::table()).as_table_mut() {
            st[field] = toml_edit::value(value);
        }
    }
}

/// Removes a field of a server table (`Table::get_mut`, `Table::entry`,
/// `Entry::or_insert`, `Table::remove`).
///
/// Trusted: the document afterwards is the named one.
#[verifier::external_body]
fn remove_server_field(doc: &mut DocumentMut, name: &str, field: &str)
    ensures
        *final(doc) == toml_without_server_field(*old(doc), name@, field@),
{
    if let Some(t) = doc.get_mut("servers").and_then(toml_edit::Item::as_table_mut) {
        if let Some(st) = t.entry(name).or_insert(toml_edit::table()).as_table_mut() {
            st.remove(field);
        }
    }
}

/// Sets a field of a server table to a flag (`Table::get_mut`,
/// `Table::entry`, `Entry::or_insert`, `st[field] = value(..)`).
///
/// Trusted: the document afterwards is the named one.
#[verifier::external_body]
fn set_server_flag(doc: &mut DocumentMut, name: &str, field: &str, value: bool)
    ensures
        *final(doc) == toml_with_server_flag(*old(doc), name@, field@, value),
{
    if let Some(t) = doc.get_mut("servers").and_then(toml_edit::Item::as_table_mut) {
        if let Some(st) = t.entry(name).or_insert(toml_edit::table()).as_table_mut() {
            st[field] = toml_edit::value(value);
        }
    }
}

/// The document after one change, made by the `toml_edit` operation for it.
pub open spec fn edit_applied(doc: DocumentMut, e: EditText) -> DocumentMut {
    match e {
        EditText::SetText(k, v) => toml_with_text(doc, k, v),
        EditText::SetInteger(k, v) => toml_with_integer(doc, k, v),
        EditText::Remove(k) => toml_without(doc, k),
        EditText::OpenServers => toml_servers_opened(doc),
        EditText::RemoveServer(n) => toml_without_server(doc, n),
        EditText::SetServerText(n, f, v) => toml_with_server_text(doc, n, f, v),
        EditText::RemoveServerField(n, f) => toml_without_server_field(doc, n, f),
        EditText::SetServerFlag(n, f, v) => toml_with_server_flag(doc, n, f, v),
    }
}

/// The document after the changes `es`, made in order.
pub open spec fn edits_applied(doc: DocumentMut, es: Seq<EditText>) -> DocumentMut
    decreases es.len(),
{
    if es.len() == 0 {
        doc
    } else {
        edit_applied(edits_applied(doc, es.drop_last()), es.last())
    }
}

/// The text the configuration `c` is saved as, over a file that held
/// `existing`: the file's document, with the changes `file_edits` chooses
/// for the servers it holds made in order.
pub open spec fn saved_text(c: AppConfig, existing: Seq<char>) -> Seq<char> {
    let doc = toml_doc_of(existing);
    toml_text_of(edits_applied(doc, file_edits(c, toml_servers_of(doc))))
}

fn apply_edit(doc: &mut DocumentMut, e: &FileEdit)
    ensures
        *final(doc) == edit_applied(*old(doc), edit_text(*e)),
{
    match e {
        FileEdit::SetText(k, v) => set_text(doc, *k, v.clone()),
        FileEdit::SetInteger(k, v) => set_integer(doc, *k, *v),
        FileEdit::Remove(k) => remove_key(doc, *k),
        FileEdit::OpenServers => open_servers(doc),
        FileEdit::RemoveServer(n) => remove_server(doc, n.as_str()),
        FileEdit::SetServerText(n, f, v) => set_server_text(doc, n.as_str(), *f, v.clone()),
        FileEdit::RemoveServerField(n, f) => remove_server_field(doc, n.as_str(), *f),
        FileEdit::SetServerFlag(n, f, v) => set_server_flag(doc, n.as_str(), *f, *v),
    }
}

fn apply_edits(doc: &mut DocumentMut, edits: &Vec<FileEdit>)
    ensures
        *final(doc) == edits_applied(*old(doc), edit_texts(edits@)),
{
    let ghost start = *doc;
    let ghost all = edit_texts(edits@);
    let mut i: usize = 0;
    proof {
        assert(all.take(0) =~= Seq::<EditText>::empty());
    }
    while i < edits.len()
        invariant
            i <= edits@.len(),
            all == edit_texts(edits@),
            *doc == edits_applied(start, all.take(i as int)),
        decreases edits.len() - i,
    {
        apply_edit(doc, &edits[i]);
        proof {
            assert(all.take(i + 1).drop_last() =~= all.take(i as int));
            assert(all.take(i + 1).last() == edit_text(edits@[i as int]));
        }
        i = i + 1;
    }
    proof {
        assert(all.take(i as int) =~= all);
    }
}

/// The text to save the configuration as, over a file that held
/// `existing` ("" where there is none or it cannot be read): comments,
/// order and keys it does not know stay, and the keys of the configuration
/// are written as `file_edits` says (`saved_text`).
pub fn config_file_text(c: &AppConfig, existing: &str) -> (r: String)
    requires
        c.wf(),
    ensures
        r@ == saved_text(*c, existing@),
{
    let mut doc = parse_document(existing);
    let ghost parsed = doc;
    let servers = document_servers(&doc);
    let edits = config_file_edits(c, servers);
    apply_edits(&mut doc, &edits);
    proof {
        assert(parsed == toml_doc_of(existing@));
    }
    document_text(&doc)
}

} // verus!
