//! The layout of the persistence store: one document per key in a directory,
//! replaced by writing a sibling file and renaming it into place.

use vstd::prelude::*;
use crate::text::{push_char, push_text};

verus! {

/// Why the store failed.
#[derive(Debug)]
pub enum DatabaseError {
    /// The file system refused, with its words; `not_found` where the
    /// document does not exist.
    Io { not_found: bool, message: String },
    /// The document could not be written or read as JSON, with the parser's words.
    Serde(String),
}

/// The text that describes a failure of the store.
pub open spec fn database_error_text(e: DatabaseError) -> Seq<char> {
    match e {
        DatabaseError::Io { message, .. } => "IO error: "@ + message@,
        DatabaseError::Serde(message) => "Serde error: "@ + message@,
    }
}

impl DatabaseError {
    /// Human-readable description.
    pub fn message(&self) -> (out: String)
        ensures
            out@ == database_error_text(*self),
    {
        let mut out = String::new();
        match self {
            DatabaseError::Io { message, .. } => {
                push_text(&mut out, "IO error: ");
                push_text(&mut out, message.as_str());
                assert(out@ =~= "IO error: "@ + message@);
            },
            DatabaseError::Serde(message) => {
                push_text(&mut out, "Serde error: ");
                push_text(&mut out, message.as_str());
                assert(out@ =~= "Serde error: "@ + message@);
            },
        }
        out
    }

    /// Whether the failure only says that there is no document.
    pub fn is_not_found(&self) -> (out: bool)
        ensures
            out == (*self matches DatabaseError::Io { not_found, .. } && not_found),
    {
        match self {
            DatabaseError::Io { not_found, .. } => *not_found,
            DatabaseError::Serde(_) => false,
        }
    }
}

/// A store of JSON documents in the directory `root`.
#[derive(Debug)]
pub struct FileDatabase {
    pub root: String,
}

/// Where the document `key` lives below `root`.
pub open spec fn document_path(root: Seq<char>, key: Seq<char>) -> Seq<char> {
    root.push('/') + key + ".json"@
}

/// Where the document `key` is written before it is moved into place.
pub open spec fn partial_path(root: Seq<char>, key: Seq<char>) -> Seq<char> {
    root.push('/') + key + "-part.json"@
}

/// The two steps by which a document is saved.
#[derive(Debug)]
pub struct SavePlan {
    /// The file to write the document to.
    pub write_to: String,
    /// The name to give that file once it is written.
    pub rename_to: String,
}

impl FileDatabase {
    pub fn new(root: String) -> (out: Self)
        ensures
            out.root == root,
    {
        FileDatabase { root }
    }

    /// Where the document `key` lives.
    pub fn path(&self, key: &str) -> (out: String)
        ensures
            out@ == document_path(self.root@, key@),
    {
        let mut out = self.root.clone();
        push_char(&mut out, '/');
        push_text(&mut out, key);
        push_text(&mut out, ".json");
        assert(out@ =~= document_path(self.root@, key@));
        out
    }

    /// Where the document `key` is written before it is moved into place.
    pub fn part_path(&self, key: &str) -> (out: String)
        ensures
            out@ == partial_path(self.root@, key@),
    {
        let mut out = self.root.clone();
        push_char(&mut out, '/');
        push_text(&mut out, key);
        push_text(&mut out, "-part.json");
        assert(out@ =~= partial_path(self.root@, key@));
        out
    }

    /// How the document `key` is saved: written to a sibling file, which is
    /// then renamed to the document's own name.
    pub fn save(&self, key: &str) -> (out: SavePlan)
        ensures
            out.write_to@ == partial_path(self.root@, key@),
            out.rename_to@ == document_path(self.root@, key@),
            out.write_to@ != out.rename_to@,
    {
        proof {
            lemma_save_never_writes_in_place(self.root@, key@);
        }
        SavePlan { write_to: self.part_path(key), rename_to: self.path(key) }
    }
}

/// A document is never written where it lives: the file that is written and
/// the document's own file have different names, so a write that is cut short
/// leaves the document as it was.
pub proof fn lemma_save_never_writes_in_place(root: Seq<char>, key: Seq<char>)
    ensures
        partial_path(root, key) != document_path(root, key),
{
    reveal_strlit(".json");
    reveal_strlit("-part.json");
    assert(partial_path(root, key).len() == root.len() + 1 + key.len() + 10);
    assert(document_path(root, key).len() == root.len() + 1 + key.len() + 5);
}

} // verus!
