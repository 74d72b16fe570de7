//! The rows of the file store, as plain values. An identifier is the 128
//! bits of its UUID.

use vstd::prelude::*;
use vstd::string::StringSliceAdditionalSpecFns;
use crate::workspace::SourceFile;

verus! {

/// A stored file.
#[derive(Debug, PartialEq, Eq)]
pub struct FileModel {
    pub id: u128,
    pub project_id: u128,
    /// The owner; a row may have none.
    pub user_id: Option<u128>,
    pub name: String,
    pub path: String,
    pub language: String,
    pub content: String,
    pub created_at: Option<String>,
    pub updated_at: Option<String>,
}

/// A file to store: a stored file without what the store itself assigns.
#[derive(Debug, PartialEq, Eq)]
pub struct NewFile {
    pub project_id: u128,
    pub name: String,
    pub path: String,
    pub language: String,
    pub content: String,
}

/// A stored project.
#[derive(Debug, PartialEq, Eq)]
pub struct ProjectModel {
    pub id: u128,
    pub name: String,
    pub created_at: String,
}

impl FileModel {
    /// The file as a build sees it: its path, and its text as bytes in UTF-8.
    pub fn source_file(&self) -> (file: SourceFile)
        ensures
            file.path@ == self.path@,
            file.content@ == vstd::utf8::encode_utf8(self.content@),
    {
        SourceFile::from_text(self.path.clone(), self.content.as_str())
    }
}

} // verus!
