//! The content-addressed file store, as far as it computes: where files of
//! a case lie, under which name a file is stored, and which stored file
//! holds the same content. Reading and writing the files is left to the
//! caller.

use crate::text::{
    byte_range, can_cut, concat2, has_part, join_path, joined_path, str_can_cut, str_contains,
    str_head,
};
use vstd::prelude::*;
use vstd::string::StringExecFns;

verus! {

/// What goes wrong with the store.
#[derive(Debug)]
pub enum StorageError {
    /// Reading or writing failed, in the words of the operating system.
    Io(String),
    /// There is no such file, or it lies outside the store.
    NotFound(String),
}

impl StorageError {
    /// The words in which an error is reported.
    pub open spec fn message_text(self) -> Seq<char> {
        match self {
            StorageError::Io(reason) => "IO error: "@ + reason@,
            StorageError::NotFound(what) => "File not found: "@ + what@,
        }
    }

    /// The words in which this error is reported.
    pub fn message(&self) -> (text: String)
        ensures
            text@ == self.message_text(),
    {
        match self {
            StorageError::Io(reason) => concat2("IO error: ", reason.as_str()),
            StorageError::NotFound(what) => concat2("File not found: ", what.as_str()),
        }
    }
}

/// How many bytes of a content hash go into the name of a stored file.
pub const HASH_PREFIX_BYTES: usize = 8;

/// The part of a content hash that goes into the name of a stored file.
pub open spec fn hash_prefix_of(hash: Seq<char>) -> Seq<char> {
    byte_range(hash, 0, HASH_PREFIX_BYTES as int)
}

/// The name under which a file is stored: its base name, a hyphen and the
/// beginning of its content hash, and its extension after a dot where it
/// has one.
pub open spec fn stored_name_of(base_name: Seq<char>, extension: Seq<char>, hash: Seq<char>) -> Seq<
    char,
> {
    if extension.len() == 0 {
        base_name + "-"@ + hash_prefix_of(hash)
    } else {
        base_name + "-"@ + hash_prefix_of(hash) + "."@ + extension
    }
}

/// Whether a stored file with the name `filename` is taken to hold the
/// content with the hash `hash`: its name holds the beginning of the hash,
/// and a hyphen.
pub open spec fn names_same_content(filename: Seq<char>, hash: Seq<char>) -> bool {
    has_part(filename, hash_prefix_of(hash)) && has_part(filename, "-"@)
}

/// The part of a content hash that goes into the name of a stored file.
pub fn hash_prefix(hash: &str) -> (prefix: &str)
    requires
        can_cut(hash@, 8),
    ensures
        prefix@ == hash_prefix_of(hash@),
{
    str_head(hash, HASH_PREFIX_BYTES)
}

/// The name under which a file with the given base name, extension and
/// content hash is stored.
pub fn stored_name(base_name: &str, extension: &str, hash: &str) -> (name: String)
    requires
        can_cut(hash@, 8),
    ensures
        name@ == stored_name_of(base_name@, extension@, hash@),
{
    let mut name = String::from_str(base_name);
    name.append("-");
    name.append(hash_prefix(hash));
    if !extension.is_empty() {
        name.append(".");
        name.append(extension);
    }
    name
}

/// The name under which a file is stored; nothing where the hash cannot be
/// cut after its eighth byte.
pub fn try_stored_name(base_name: &str, extension: &str, hash: &str) -> (name: Option<String>)
    ensures
        match name {
            Some(text) => can_cut(hash@, 8) && text@ == stored_name_of(
                base_name@,
                extension@,
                hash@,
            ),
            None => !can_cut(hash@, 8),
        },
{
    if str_can_cut(hash, HASH_PREFIX_BYTES) {
        Some(stored_name(base_name, extension, hash))
    } else {
        None
    }
}

/// Whether a stored file with the name `filename` is taken to hold the
/// content with the hash `hash`.
pub fn is_same_content(filename: &str, hash: &str) -> (same: bool)
    requires
        can_cut(hash@, 8),
    ensures
        same == names_same_content(filename@, hash@),
{
    str_contains(filename, hash_prefix(hash)) && str_contains(filename, "-")
}

/// Whether a stored file with the name `filename` is taken to hold the
/// content with the hash `hash`; nothing where the hash cannot be cut after
/// its eighth byte.
pub fn try_is_same_content(filename: &str, hash: &str) -> (same: Option<bool>)
    ensures
        match same {
            Some(answer) => can_cut(hash@, 8) && answer == names_same_content(filename@, hash@),
            None => !can_cut(hash@, 8),
        },
{
    if str_can_cut(hash, HASH_PREFIX_BYTES) {
        Some(is_same_content(filename, hash))
    } else {
        None
    }
}

/// The store: the directory below which everything lies.
#[derive(Debug)]
pub struct Storage {
    base_path: String,
}

impl Storage {
    /// The directory of the documents below the base path `base`.
    pub open spec fn documents_path(base: Seq<char>) -> Seq<char> {
        joined_path(base, "documents"@)
    }

    /// The directory of the documents of the case `case_id`.
    pub open spec fn case_path(base: Seq<char>, case_id: Seq<char>) -> Seq<char> {
        joined_path(Self::documents_path(base), case_id)
    }

    /// The base path of a store.
    pub closed spec fn base(&self) -> Seq<char> {
        self.base_path@
    }

    /// A store below `base_path`.
    pub fn new(base_path: String) -> (storage: Self)
        ensures
            storage.base() == base_path@,
    {
        Storage { base_path }
    }

    /// The base path.
    pub fn base_path(&self) -> (path: &String)
        ensures
            path@ == self.base(),
    {
        &self.base_path
    }

    /// The directory of the documents.
    pub fn documents_dir(&self) -> (path: String)
        ensures
            path@ == Self::documents_path(self.base()),
    {
        join_path(self.base_path.as_str(), "documents")
    }

    /// The directory of the documents of a case. The case identifier is
    /// taken as a relative path.
    pub fn case_dir(&self, case_id: &str) -> (path: String)
        ensures
            path@ == Self::case_path(self.base(), case_id@),
    {
        join_path(self.documents_dir().as_str(), case_id)
    }

    /// The content hash of `data`.
    pub fn calculate_hash(data: &[u8]) -> (hash: String)
        ensures
            hash@ == crate::digest::content_hash(data@),
            hash@.len() == 64,
    {
        crate::digest::calculate_hash(data)
    }
}

} // verus!
