//! Structure-preserving edits of the persisted document. Each edit
//! parses the raw text into a `toml_edit` document that keeps
//! comments, spacing and ordering of untouched entries, applies one
//! change, and renders the text back. The whole operation is a
//! function of its arguments alone, so each one's outcome is named
//! and every contract pins the output text through that name. The
//! library validates each edit against the typed snapshot strictly
//! before touching the document; reading and writing the file itself
//! is the caller's business.

use vstd::prelude::*;
use vstd::string::StringExecFns;
use crate::collections::has_key;
use crate::config::{Config, find_collection};
use crate::error::QtaiError;
use crate::run::opt_str_view;
use toml_edit::DocumentMut;

verus! {

/// What parsing `text`, setting `key` to the string `value` inside
/// the table at `collections.<coll>` (creating missing tables on
/// that path), and rendering back yields. `None` when the text is
/// not well-formed TOML or an existing node on the path is not a
/// table.
pub uninterp spec fn set_item_text(
    text: Seq<char>,
    coll: Seq<char>,
    key: Seq<char>,
    value: Seq<char>,
) -> Option<Seq<char>>;

/// Relies on toml_edit's FromStr for DocumentMut, Table::entry/
/// or_insert/insert and Display for DocumentMut: parses, sets one
/// key inside `collections.<coll>`, renders. The outcome is a
/// function of the arguments alone, named by `set_item_text`.
#[verifier::external_body]
fn apply_set_item(document: &str, coll: &str, key: &str, value: &str) -> (r: Option<String>)
    ensures
        opt_str_view(r) == set_item_text(document@, coll@, key@, value@),
{
    let mut doc = match document.parse::<DocumentMut>() {
        Ok(d) => d,
        Err(_) => return None,
    };
    let root = doc.as_table_mut();
    let colls = root.entry("collections").or_insert(toml_edit::table()).as_table_mut()?;
    let target = colls.entry(coll).or_insert(toml_edit::table()).as_table_mut()?;
    target.insert(key, toml_edit::value(value));
    Some(doc.to_string())
}

/// What parsing `text`, removing `key` from the table at
/// `collections.<coll>`, and rendering back yields. `None` when the
/// text is not well-formed TOML or that path does not resolve to a
/// table.
pub uninterp spec fn remove_item_text(text: Seq<char>, coll: Seq<char>, key: Seq<char>) -> Option<
    Seq<char>,
>;

/// Relies on toml_edit's FromStr for DocumentMut, Table::get_mut/
/// remove and Display for DocumentMut: parses, removes one key from
/// `collections.<coll>`, renders. The outcome is a function of the
/// arguments alone, named by `remove_item_text`.
#[verifier::external_body]
fn apply_remove_item(document: &str, coll: &str, key: &str) -> (r: Option<String>)
    ensures
        opt_str_view(r) == remove_item_text(document@, coll@, key@),
{
    let mut doc = match document.parse::<DocumentMut>() {
        Ok(d) => d,
        Err(_) => return None,
    };
    let colls = doc.as_table_mut().get_mut("collections")?.as_table_mut()?;
    let target = colls.get_mut(coll)?.as_table_mut()?;
    target.remove(key);
    Some(doc.to_string())
}

/// What parsing `text`, removing the whole entry `name` from the
/// `collections` table, and rendering back yields. `None` when the
/// text is not well-formed TOML or `collections` is not a table.
pub uninterp spec fn remove_collection_text(text: Seq<char>, name: Seq<char>) -> Option<Seq<char>>;

/// Relies on toml_edit's FromStr for DocumentMut, Table::get_mut/
/// remove and Display for DocumentMut: parses, removes one entry of
/// the `collections` table, renders. The outcome is a function of
/// the arguments alone, named by `remove_collection_text`.
#[verifier::external_body]
fn apply_remove_collection(document: &str, name: &str) -> (r: Option<String>)
    ensures
        opt_str_view(r) == remove_collection_text(document@, name@),
{
    let mut doc = match document.parse::<DocumentMut>() {
        Ok(d) => d,
        Err(_) => return None,
    };
    let colls = doc.as_table_mut().get_mut("collections")?.as_table_mut()?;
    colls.remove(name);
    Some(doc.to_string())
}

/// What parsing `text`, setting the top-level `key` to `value`
/// rendered as a single-quoted TOML string, and rendering back
/// yields. `None` when the text is not well-formed TOML or the
/// quoted value does not parse (the value itself holds a single
/// quote or a newline).
pub uninterp spec fn set_top_quoted_text(text: Seq<char>, key: Seq<char>, value: Seq<char>) -> Option<
    Seq<char>,
>;

/// Relies on toml_edit's FromStr for DocumentMut and for Item,
/// Table::entry/or_insert and Display for DocumentMut: parses, sets
/// one top-level key to a single-quoted value, keeping the key's own
/// comments and spacing, renders. The outcome is a function of the
/// arguments alone, named by `set_top_quoted_text`.
#[verifier::external_body]
fn apply_set_top_quoted(document: &str, key: &str, value: &str) -> (r: Option<String>)
    ensures
        opt_str_view(r) == set_top_quoted_text(document@, key@, value@),
{
    let item = format!("'{}'", value).parse::<toml_edit::Item>().ok()?;
    let mut doc = match document.parse::<DocumentMut>() {
        Ok(d) => d,
        Err(_) => return None,
    };
    *doc.as_table_mut().entry(key).or_insert(toml_edit::Item::None) = item;
    Some(doc.to_string())
}

/// What parsing `text`, setting `default_runner` inside the table at
/// `collections.<coll>` to `value` rendered as a single-quoted TOML
/// string, and rendering back yields. `None` when the text is not
/// well-formed TOML, the quoted value does not parse, or an existing
/// node on the path is not a table.
pub uninterp spec fn set_collection_runner_text(
    text: Seq<char>,
    coll: Seq<char>,
    value: Seq<char>,
) -> Option<Seq<char>>;

/// Relies on toml_edit's FromStr for DocumentMut and for Item,
/// Table::entry/or_insert and Display for DocumentMut: parses, sets
/// `default_runner` inside `collections.<coll>` to a single-quoted
/// value, renders. The outcome is a function of the arguments alone,
/// named by `set_collection_runner_text`.
#[verifier::external_body]
fn apply_set_collection_runner(document: &str, coll: &str, value: &str) -> (r: Option<String>)
    ensures
        opt_str_view(r) == set_collection_runner_text(document@, coll@, value@),
{
    let item = format!("'{}'", value).parse::<toml_edit::Item>().ok()?;
    let mut doc = match document.parse::<DocumentMut>() {
        Ok(d) => d,
        Err(_) => return None,
    };
    let root = doc.as_table_mut();
    let colls = root.entry("collections").or_insert(toml_edit::table()).as_table_mut()?;
    let target = colls.entry(coll).or_insert(toml_edit::table()).as_table_mut()?;
    *target.entry("default_runner").or_insert(toml_edit::Item::None) = item;
    Some(doc.to_string())
}

/// The section that adding a collection appends to the document.
pub open spec fn new_collection_block(name: Seq<char>) -> Seq<char> {
    "[collections.\""@ + name + "\"]\n\n"@
}

/// Adds the pair `key`/`value` to the named collection inside the
/// raw document text. Validation runs strictly first: an unknown
/// collection or a duplicate key leaves the document untouched; a
/// successful edit yields exactly the parse-set-render text.
pub fn add_item(config: &Config, collection_name: &str, key: &str, value: &str, document: &str) -> (r:
    Result<String, QtaiError>)
    ensures
        ({
            let found = find_collection(config@.collections, collection_name@);
            let fresh = (found matches Some(c) && !has_key(c.items, key@));
            let edited = set_item_text(document@, collection_name@, key@, value@);
            &&& (r == Err::<String, QtaiError>(QtaiError::NotFound)) == (found is None)
            &&& (r == Err::<String, QtaiError>(QtaiError::DuplicateKey)) == (found matches Some(c)
                && has_key(c.items, key@))
            &&& (r is Ok) == (fresh && edited is Some)
            &&& r matches Ok(t) ==> Some(t@) == edited
            &&& (r == Err::<String, QtaiError>(QtaiError::StructureMismatch)) == (fresh
                && edited is None)
        }),
{
    match config.get_collection(collection_name) {
        None => Err(QtaiError::NotFound),
        Some(c) => {
            if crate::collections::items_contains_key(&c.items, key) {
                Err(QtaiError::DuplicateKey)
            } else {
                match apply_set_item(document, collection_name, key, value) {
                    Some(t) => Ok(t),
                    None => Err(QtaiError::StructureMismatch),
                }
            }
        },
    }
}

/// Removes the pair stored under `key` from the named collection
/// inside the raw document text. The pair must have been found in
/// the snapshot first: removal never targets a nonexistent path. A
/// successful edit yields exactly the parse-remove-render text.
pub fn remove_item(config: &Config, collection_name: &str, key: &str, document: &str) -> (r: Result<
    String,
    QtaiError,
>)
    ensures
        ({
            let found = find_collection(config@.collections, collection_name@);
            let present = (found matches Some(c) && has_key(c.items, key@));
            let edited = remove_item_text(document@, collection_name@, key@);
            &&& (r == Err::<String, QtaiError>(QtaiError::NotFound)) == !present
            &&& (r is Ok) == (present && edited is Some)
            &&& r matches Ok(t) ==> Some(t@) == edited
            &&& (r == Err::<String, QtaiError>(QtaiError::StructureMismatch)) == (present
                && edited is None)
        }),
{
    match config.get_collection(collection_name) {
        None => Err(QtaiError::NotFound),
        Some(c) => {
            if !crate::collections::items_contains_key(&c.items, key) {
                Err(QtaiError::NotFound)
            } else {
                match apply_remove_item(document, collection_name, key) {
                    Some(t) => Ok(t),
                    None => Err(QtaiError::StructureMismatch),
                }
            }
        },
    }
}

/// Appends a new, empty collection section at the end of the raw
/// document text, so that no existing section is reflowed. A name
/// that already exists leaves the document untouched.
pub fn add_collection(config: &Config, name: &str, document: &str) -> (r: Result<String, QtaiError>)
    ensures
        (r is Err) == (find_collection(config@.collections, name@) is Some),
        r is Err ==> r->Err_0 == QtaiError::DuplicateKey,
        r is Ok ==> r->Ok_0@ == document@ + new_collection_block(name@),
{
    match config.get_collection(name) {
        Some(_) => Err(QtaiError::DuplicateKey),
        None => {
            let mut out: String = document.to_owned();
            out.append("[collections.\"");
            out.append(name);
            out.append("\"]\n\n");
            proof {
                assert(out@ =~= document@ + new_collection_block(name@));
            }
            Ok(out)
        },
    }
}

/// Removes the whole named collection from the raw document text.
/// The collection must exist in the snapshot; the caller confirms
/// the removal before asking for it. A successful edit yields
/// exactly the parse-remove-render text.
pub fn remove_collection(config: &Config, name: &str, document: &str) -> (r: Result<
    String,
    QtaiError,
>)
    ensures
        ({
            let found = find_collection(config@.collections, name@);
            let edited = remove_collection_text(document@, name@);
            &&& (r == Err::<String, QtaiError>(QtaiError::NotFound)) == (found is None)
            &&& (r is Ok) == (found is Some && edited is Some)
            &&& r matches Ok(t) ==> Some(t@) == edited
            &&& (r == Err::<String, QtaiError>(QtaiError::StructureMismatch)) == (found is Some
                && edited is None)
        }),
{
    match config.get_collection(name) {
        None => Err(QtaiError::NotFound),
        Some(_) => {
            match apply_remove_collection(document, name) {
                Some(t) => Ok(t),
                None => Err(QtaiError::StructureMismatch),
            }
        },
    }
}

/// Sets the default runner inside the raw document text: the global
/// one when no collection is named, the named collection's otherwise.
/// A named collection must exist in the snapshot; a successful edit
/// yields exactly the parse-set-render text of the one edit made.
pub fn change_runner(
    config: &Config,
    new_runner: &str,
    collection_name: &Option<String>,
    document: &str,
) -> (r: Result<String, QtaiError>)
    ensures
        ({
            let named = opt_str_view(*collection_name);
            let global_edit = set_top_quoted_text(document@, "default_runner"@, new_runner@);
            &&& named is None ==> {
                &&& (r is Ok) == (global_edit is Some)
                &&& (r matches Ok(t) ==> Some(t@) == global_edit)
                &&& (r == Err::<String, QtaiError>(QtaiError::StructureMismatch)) == (
                global_edit is None)
            }
            &&& named matches Some(n) ==> {
                let found = find_collection(config@.collections, n);
                let coll_edit = set_collection_runner_text(document@, n, new_runner@);
                &&& (r == Err::<String, QtaiError>(QtaiError::NotFound)) == (found is None)
                &&& (r is Ok) == (found is Some && coll_edit is Some)
                &&& (r matches Ok(t) ==> Some(t@) == coll_edit)
                &&& (r == Err::<String, QtaiError>(QtaiError::StructureMismatch)) == (found is Some
                    && coll_edit is None)
            }
        }),
{
    match collection_name {
        Some(n) => {
            match config.get_collection(n.as_str()) {
                None => Err(QtaiError::NotFound),
                Some(_) => {
                    match apply_set_collection_runner(document, n.as_str(), new_runner) {
                        Some(t) => Ok(t),
                        None => Err(QtaiError::StructureMismatch),
                    }
                },
            }
        },
        None => {
            match apply_set_top_quoted(document, "default_runner", new_runner) {
                Some(t) => Ok(t),
                None => Err(QtaiError::StructureMismatch),
            }
        },
    }
}

/// Sets the default menu identifier inside the raw document text. A
/// successful edit yields exactly the parse-set-render text.
pub fn change_menu(new_menu: &str, document: &str) -> (r: Result<String, QtaiError>)
    ensures
        ({
            let edited = set_top_quoted_text(document@, "default_menu"@, new_menu@);
            &&& (r is Ok) == (edited is Some)
            &&& r matches Ok(t) ==> Some(t@) == edited
            &&& (r == Err::<String, QtaiError>(QtaiError::StructureMismatch)) == (edited is None)
        }),
{
    match apply_set_top_quoted(document, "default_menu", new_menu) {
        Some(t) => Ok(t),
        None => Err(QtaiError::StructureMismatch),
    }
}

} // verus!
