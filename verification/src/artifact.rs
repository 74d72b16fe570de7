//! Finding the build's artifact among the entries of the output directory.

use vstd::prelude::*;
use crate::text::{chars_of, contains, ends_with, has_substring, has_suffix, texts};

verus! {

/// The one binary that a build hands back.
#[derive(Debug, PartialEq, Eq)]
pub struct Artifact {
    /// Its file name in the output directory.
    pub filename: String,
    /// Its contents.
    pub bytes: Vec<u8>,
}

/// Where the toolchain leaves its output, relative to the workspace root.
pub const OUTPUT_DIR: &'static str = "target/wasm32-unknown-unknown/release";

/// The extension of an artifact's file name, without the dot.
pub const ARTIFACT_EXTENSION: &'static str = "wasm";

/// Text that marks a file name as a dependency-tracking file.
pub const DEPFILE_MARKER: &'static str = ".d";

/// `name` has the extension `extension`: it ends with a dot and `extension`,
/// and something stands before that dot.
pub open spec fn has_extension(name: Seq<char>, extension: Seq<char>) -> bool {
    name.len() > extension.len() + 1 && has_suffix(name, seq!['.'] + extension)
}

/// `name` is the name of an artifact: it has the extension and holds the
/// marker nowhere.
pub open spec fn qualifies(name: Seq<char>, extension: Seq<char>, marker: Seq<char>) -> bool {
    has_extension(name, extension) && !has_substring(name, marker)
}

/// The place of the first of `names`, at or after place `from`, that is the
/// name of an artifact; `None` where there is none.
pub open spec fn first_qualifying(
    names: Seq<Seq<char>>,
    from: int,
    extension: Seq<char>,
    marker: Seq<char>,
) -> Option<int>
    decreases names.len() - from,
{
    if from < 0 || from >= names.len() {
        None
    } else if qualifies(names[from], extension, marker) {
        Some(from)
    } else {
        first_qualifying(names, from + 1, extension, marker)
    }
}

/// Whether `name` is the name of an artifact.
pub fn is_artifact_name(name: &str, extension: &str, marker: &str) -> (yes: bool)
    ensures
        yes == qualifies(name@, extension@, marker@),
{
    let name_chars = chars_of(name);
    let extension_chars = chars_of(extension);
    let marker_chars = chars_of(marker);
    if name_chars.len() <= extension_chars.len() || name_chars.len() - extension_chars.len() <= 1 {
        return false;
    }
    let mut suffix: Vec<char> = Vec::new();
    suffix.push('.');
    let mut i: usize = 0;
    while i < extension_chars.len()
        invariant
            i <= extension_chars.len(),
            suffix@ == seq!['.'] + extension_chars@.take(i as int),
        decreases extension_chars.len() - i,
    {
        suffix.push(extension_chars[i]);
        assert(extension_chars@.take(i + 1) =~= extension_chars@.take(i as int).push(
            extension_chars@[i as int],
        ));
        i += 1;
    }
    assert(extension_chars@.take(i as int) =~= extension_chars@);
    ends_with(&name_chars, &suffix) && !contains(&name_chars, &marker_chars)
}

/// The first entry at or after place `from` that is the name of an
/// artifact, by its place in `entries`; `None` where there is none. The
/// entries stand in the order in which the directory gave them, so which of
/// several artifacts comes first is the directory's choice. An entry whose
/// name holds the marker is never chosen, whatever its extension.
pub fn locate(entries: &Vec<String>, from: usize, extension: &str, marker: &str) -> (found: Option<
    usize,
>)
    ensures
        match found {
            Some(i) => first_qualifying(texts(entries@), from as int, extension@, marker@) == Some(
                i as int,
            ),
            None => first_qualifying(texts(entries@), from as int, extension@, marker@) is None,
        },
        match found {
            Some(i) => {
                &&& from <= i < entries.len()
                &&& qualifies(entries[i as int]@, extension@, marker@)
                &&& forall|j: int| from <= j < i ==> !qualifies(entries[j]@, extension@, marker@)
            },
            None => forall|j: int|
                from <= j < entries.len() ==> !qualifies(entries[j]@, extension@, marker@),
        },
        found matches Some(i) ==> !has_substring(entries[i as int]@, marker@),
{
    let mut i: usize = from;
    while i < entries.len()
        invariant
            from <= i,
            first_qualifying(texts(entries@), from as int, extension@, marker@)
                == first_qualifying(texts(entries@), i as int, extension@, marker@),
            forall|j: int| from <= j < i && j < entries.len() ==> !qualifies(
                entries[j]@,
                extension@,
                marker@,
            ),
        decreases entries.len() - i,
    {
        assert(texts(entries@)[i as int] == entries[i as int]@);
        if is_artifact_name(entries[i].as_str(), extension, marker) {
            return Some(i);
        }
        i += 1;
    }
    None
}

/// The artifact that is chosen is never a dependency-tracking file: the
/// name at the chosen place has the extension and holds the marker nowhere,
/// and no name before it, from `from` on, is the name of an artifact.
pub proof fn lemma_first_qualifying(
    names: Seq<Seq<char>>,
    from: int,
    extension: Seq<char>,
    marker: Seq<char>,
)
    requires
        0 <= from,
    ensures
        match first_qualifying(names, from, extension, marker) {
            Some(i) => {
                &&& from <= i < names.len()
                &&& has_extension(names[i], extension)
                &&& !has_substring(names[i], marker)
                &&& forall|j: int| from <= j < i ==> !qualifies(names[j], extension, marker)
            },
            None => forall|j: int|
                from <= j < names.len() ==> !qualifies(names[j], extension, marker),
        },
    decreases names.len() - from,
{
    if from < names.len() && !qualifies(names[from], extension, marker) {
        lemma_first_qualifying(names, from + 1, extension, marker);
    }
}

} // verus!
