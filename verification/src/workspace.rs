//! Staging: where in the workspace each source file goes, and what the
//! workspace then holds.

use vstd::prelude::*;
use vstd::slice::slice_to_vec;
use vstd::string::StringSliceAdditionalSpecFns;
use crate::text::{chars_of, texts};

verus! {

/// One source file of a project, as the file store gave it.
#[derive(Debug, PartialEq, Eq)]
pub struct SourceFile {
    /// Its path, relative to the project's root; separators at its start
    /// count for nothing.
    pub path: String,
    /// Its contents.
    pub content: Vec<u8>,
}

/// One file to write into the workspace.
#[derive(Debug, PartialEq, Eq)]
pub struct StagedFile {
    /// The names from the workspace root down to the file, the file's own
    /// name last.
    pub components: Vec<String>,
    /// Its contents.
    pub content: Vec<u8>,
}

/// Why a path has no place in the workspace.
#[derive(Clone, Copy, Debug, PartialEq, Eq, Structural)]
pub enum PathFault {
    /// It climbs above the workspace root.
    Escapes,
    /// It names the workspace root itself, so no file name is left.
    NoFileName,
}

/// The first source file that could not be staged, and why.
#[derive(Clone, Copy, Debug, PartialEq, Eq, Structural)]
pub struct WorkspaceError {
    /// The place of the file among the source files.
    pub index: usize,
    /// What is wrong with its path.
    pub fault: PathFault,
}

/// The path separator.
pub open spec fn separator() -> char {
    '/'
}

/// The name that stands for the directory itself.
pub open spec fn here() -> Seq<char> {
    seq!['.']
}

/// The name that stands for the directory above.
pub open spec fn above() -> Seq<char> {
    seq!['.', '.']
}

/// The parts of `path` between its separators, empty parts included; a path
/// with `n` separators has `n + 1` parts.
pub open spec fn split(path: Seq<char>) -> Seq<Seq<char>>
    decreases path.len(),
{
    if path.len() == 0 {
        seq![Seq::empty()]
    } else {
        let before = split(path.drop_last());
        if path.last() == separator() {
            before.push(Seq::empty())
        } else {
            before.drop_last().push(before.last().push(path.last()))
        }
    }
}

/// Where one is after one more part of a path: an empty part and `.` stay,
/// `..` goes one up, or out of the root (`None`) at the root, and any other
/// part goes one down.
pub open spec fn resolve_step(at: Option<Seq<Seq<char>>>, part: Seq<char>) -> Option<
    Seq<Seq<char>>,
> {
    match at {
        None => None,
        Some(names) => {
            if part.len() == 0 || part == here() {
                Some(names)
            } else if part == above() {
                if names.len() == 0 {
                    None
                } else {
                    Some(names.drop_last())
                }
            } else {
                Some(names.push(part))
            }
        },
    }
}

/// Where the parts lead from the root, part by part; `None` once they have
/// left the root.
pub open spec fn resolve(parts: Seq<Seq<char>>) -> Option<Seq<Seq<char>>>
    decreases parts.len(),
{
    if parts.len() == 0 {
        Some(Seq::empty())
    } else {
        resolve_step(resolve(parts.drop_last()), parts.last())
    }
}

/// `part` is an ordinary name: not empty, not `.` or `..`, and without a
/// separator.
pub open spec fn is_plain(part: Seq<char>) -> bool {
    &&& part.len() > 0
    &&& part != here()
    &&& part != above()
    &&& forall|k: int| 0 <= k < part.len() ==> part[k] != separator()
}

/// `names` lead from the workspace root to a file inside it: there is a
/// name, and every name is an ordinary one.
pub open spec fn confined(names: Seq<Seq<char>>) -> bool {
    &&& names.len() > 0
    &&& forall|j: int| 0 <= j < names.len() ==> is_plain(#[trigger] names[j])
}

/// The place of `path` in the workspace, as the names from the root down,
/// or why it has none.
pub open spec fn placement(path: Seq<char>) -> Result<Seq<Seq<char>>, PathFault> {
    match resolve(split(path)) {
        None => Err(PathFault::Escapes),
        Some(names) => if names.len() == 0 {
            Err(PathFault::NoFileName)
        } else {
            Ok(names)
        },
    }
}

/// The parts of a path: there is at least one, and none holds a separator.
pub proof fn lemma_split_parts(path: Seq<char>)
    ensures
        split(path).len() >= 1,
        forall|i: int, k: int|
            0 <= i < split(path).len() && 0 <= k < split(path)[i].len() ==> split(path)[i][k]
                != separator(),
    decreases path.len(),
{
    if path.len() > 0 {
        lemma_split_parts(path.drop_last());
    }
}

/// Parts without a separator lead only through ordinary names.
proof fn lemma_resolve_plain(parts: Seq<Seq<char>>)
    requires
        forall|i: int, k: int|
            0 <= i < parts.len() && 0 <= k < parts[i].len() ==> parts[i][k] != separator(),
    ensures
        resolve(parts) matches Some(names) ==> forall|j: int|
            0 <= j < names.len() ==> is_plain(#[trigger] names[j]),
    decreases parts.len(),
{
    if parts.len() > 0 {
        let before = parts.drop_last();
        assert forall|i: int, k: int|
            0 <= i < before.len() && 0 <= k < before[i].len() implies before[i][k]
            != separator() by {
            assert(before[i] == parts[i]);
        }
        lemma_resolve_plain(before);
    }
}

/// No place lies outside the workspace root: the names of the place of any
/// path, whatever separators and `..` it holds, are ordinary names.
pub proof fn lemma_placement_confined(path: Seq<char>)
    ensures
        placement(path) matches Ok(names) ==> confined(names),
{
    lemma_split_parts(path);
    lemma_resolve_plain(split(path));
}

/// A separator at the start adds one empty part at the start.
proof fn lemma_split_after_separator(path: Seq<char>)
    ensures
        split(seq![separator()] + path) == seq![Seq::<char>::empty()] + split(path),
    decreases path.len(),
{
    let whole = seq![separator()] + path;
    if path.len() == 0 {
        assert(whole.drop_last() =~= Seq::<char>::empty());
        assert(split(whole.drop_last()) =~= seq![Seq::<char>::empty()]);
        assert(split(whole) =~= seq![Seq::<char>::empty()] + split(path));
    } else {
        lemma_split_after_separator(path.drop_last());
        lemma_split_parts(path.drop_last());
        assert(whole.drop_last() =~= seq![separator()] + path.drop_last());
        assert(whole.last() == path.last());
        assert(split(whole) =~= seq![Seq::<char>::empty()] + split(path));
    }
}

/// An empty part at the start leads nowhere else.
proof fn lemma_resolve_after_empty(parts: Seq<Seq<char>>)
    ensures
        resolve(seq![Seq::<char>::empty()] + parts) == resolve(parts),
    decreases parts.len(),
{
    let whole = seq![Seq::<char>::empty()] + parts;
    if parts.len() == 0 {
        assert(whole.drop_last() =~= Seq::<Seq<char>>::empty());
        assert(resolve(whole.drop_last()) == Some(Seq::<Seq<char>>::empty()));
    } else {
        lemma_resolve_after_empty(parts.drop_last());
        assert(whole.drop_last() =~= seq![Seq::<char>::empty()] + parts.drop_last());
        assert(whole.last() == parts.last());
    }
}

/// A separator at the start of a path counts for nothing: the path has the
/// same place with it as without it.
pub proof fn lemma_leading_separator(path: Seq<char>)
    ensures
        placement(seq![separator()] + path) == placement(path),
{
    lemma_split_after_separator(path);
    lemma_resolve_after_empty(split(path));
}

/// Takes one more part, the characters of `path` from `start` to `end`,
/// into account.
fn settle(
    names: &mut Vec<String>,
    escaped: &mut bool,
    path: &str,
    chars: &Vec<char>,
    start: usize,
    end: usize,
)
    requires
        start <= end <= chars.len(),
        chars@ == path@,
        forall|k: int| start <= k < end ==> chars@[k] != separator(),
        forall|j: int| 0 <= j < old(names).len() ==> is_plain(#[trigger] old(names)[j]@),
    ensures
        ({
            let part = chars@.subrange(start as int, end as int);
            let before = if *old(escaped) {
                None
            } else {
                Some(texts(old(names)@))
            };
            let after = resolve_step(before, part);
            &&& *final(escaped) == (after is None)
            &&& after is Some ==> texts(final(names)@) == after->0
        }),
        forall|j: int| 0 <= j < final(names).len() ==> is_plain(#[trigger] final(names)[j]@),
{
    let ghost part = chars@.subrange(start as int, end as int);
    let ghost before = texts(names@);
    if *escaped {
        return ;
    }
    let len: usize = end - start;
    if len == 0 {
        return ;
    }
    assert(part[0] == chars@[start as int]);
    if len == 1 && chars[start] == '.' {
        assert(part =~= here());
        return ;
    }
    if len == 2 && chars[start] == '.' && chars[start + 1] == '.' {
        assert(part[1] == chars@[start + 1]);
        assert(part =~= above());
        if names.len() == 0 {
            *escaped = true;
        } else {
            names.pop();
            assert(texts(names@) =~= before.drop_last());
        }
        return ;
    }
    assert(part != here()) by {
        if part == here() {
            assert(part.len() == 1 && part[0] == '.');
        }
    }
    assert(part != above()) by {
        if part == above() {
            assert(part.len() == 2 && part[0] == '.' && part[1] == '.');
            assert(part[1] == chars@[start + 1]);
        }
    }
    assert(is_plain(part)) by {
        assert forall|k: int| 0 <= k < part.len() implies part[k] != separator() by {
            assert(part[k] == chars@[start + k]);
        }
    }
    let name = String::from_str(path.substring_char(start, end));
    names.push(name);
    assert(texts(names@) =~= before.push(part));
}

/// The place of `path` in the workspace: the names from the workspace root
/// down to the file. Separators at the start, doubled separators and `.`
/// count for nothing; `..` takes the last name back. A path that climbs
/// above the root at any point has no place, nor has one that leaves no
/// name. Every name of a place is an ordinary one, so a place never lies
/// outside the root.
pub fn place(path: &str) -> (r: Result<Vec<String>, PathFault>)
    ensures
        match placement(path@) {
            Ok(names) => r is Ok && texts(r->Ok_0@) == names,
            Err(fault) => r == Err::<Vec<String>, PathFault>(fault),
        },
        r is Ok ==> confined(texts(r->Ok_0@)),
{
    let chars = chars_of(path);
    let n: usize = chars.len();
    let mut names: Vec<String> = Vec::new();
    let mut escaped = false;
    let mut start: usize = 0;
    let mut i: usize = 0;
    let ghost mut done: Seq<Seq<char>> = Seq::empty();
    proof {
        assert(chars@.take(0) =~= Seq::<char>::empty());
        assert(split(chars@.take(0)) =~= done.push(chars@.subrange(0, 0)));
        assert(texts(names@) =~= Seq::<Seq<char>>::empty());
    }
    while i < n
        invariant
            n == chars.len(),
            chars@ == path@,
            start <= i <= n,
            split(chars@.take(i as int)) == done.push(chars@.subrange(start as int, i as int)),
            forall|k: int| start <= k < i ==> chars@[k] != separator(),
            escaped == (resolve(done) is None),
            !escaped ==> texts(names@) == resolve(done)->0,
            forall|j: int| 0 <= j < names.len() ==> is_plain(#[trigger] names[j]@),
        decreases n - i,
    {
        let ghost before = chars@.take(i as int);
        let ghost after = chars@.take(i + 1);
        let ghost part = chars@.subrange(start as int, i as int);
        proof {
            assert(after.drop_last() =~= before);
            assert(after.last() == chars@[i as int]);
            assert(done.push(part).drop_last() =~= done);
        }
        if chars[i] == '/' {
            settle(&mut names, &mut escaped, path, &chars, start, i);
            proof {
                done = done.push(part);
                assert(chars@.subrange(i + 1, i + 1) =~= Seq::<char>::empty());
            }
            start = i + 1;
        } else {
            proof {
                assert(chars@.subrange(start as int, i + 1) =~= part.push(chars@[i as int]));
            }
        }
        i += 1;
    }
    let ghost last = chars@.subrange(start as int, n as int);
    proof {
        assert(chars@.take(n as int) =~= chars@);
        assert(done.push(last).drop_last() =~= done);
    }
    settle(&mut names, &mut escaped, path, &chars, start, n);
    if escaped {
        Err(PathFault::Escapes)
    } else if names.len() == 0 {
        Err(PathFault::NoFileName)
    } else {
        Ok(names)
    }
}

/// The workspace of one build: the files to write, in the order in which
/// they are written, so that a later file replaces an earlier one at the
/// same place.
#[derive(Debug, PartialEq, Eq)]
pub struct Workspace {
    /// The files, each at its place.
    pub files: Vec<StagedFile>,
}

/// What a workspace holds after the writes `entries`, each a place and the
/// bytes written there, were made in order.
pub open spec fn written(entries: Seq<(Seq<Seq<char>>, Seq<u8>)>) -> Map<Seq<Seq<char>>, Seq<u8>>
    decreases entries.len(),
{
    if entries.len() == 0 {
        Map::empty()
    } else {
        written(entries.drop_last()).insert(entries.last().0, entries.last().1)
    }
}

impl View for Workspace {
    type V = Seq<(Seq<Seq<char>>, Seq<u8>)>;

    /// The writes, in order: the place and the bytes of each.
    open spec fn view(&self) -> Seq<(Seq<Seq<char>>, Seq<u8>)> {
        Seq::new(
            self.files.len() as nat,
            |i: int| (texts(self.files[i].components@), self.files[i].content@),
        )
    }
}

impl SourceFile {
    /// A source file whose contents are `text`, in UTF-8.
    pub fn from_text(path: String, text: &str) -> (file: SourceFile)
        ensures
            file.path@ == path@,
            file.content@ == text.spec_bytes(),
    {
        SourceFile { path, content: text.as_bytes_vec() }
    }
}

impl Workspace {
    /// Every file lies inside the workspace root.
    pub open spec fn wf(&self) -> bool {
        forall|i: int| 0 <= i < self@.len() ==> confined(#[trigger] self@[i].0)
    }

    /// What the workspace holds once all files are written: the bytes at
    /// each place.
    pub open spec fn contents(&self) -> Map<Seq<Seq<char>>, Seq<u8>> {
        written(self@)
    }

    /// The bytes that the workspace holds at the place `names`, `None` where
    /// it holds no file there.
    pub fn content_at(&self, names: &Vec<String>) -> (found: Option<&Vec<u8>>)
        ensures
            match found {
                Some(bytes) => self.contents().contains_key(texts(names@)) && bytes@
                    == self.contents()[texts(names@)],
                None => !self.contents().contains_key(texts(names@)),
            },
    {
        let mut i: usize = self.files.len();
        while i > 0
            invariant
                i <= self.files.len(),
                forall|k: int| i <= k < self@.len() ==> self@[k].0 != texts(names@),
            decreases i,
        {
            i -= 1;
            if same_names(&self.files[i].components, names) {
                proof {
                    lemma_read_back(self@, i as int);
                }
                return Some(&self.files[i].content);
            }
        }
        proof {
            lemma_only_written(self@, texts(names@));
        }
        None
    }
}

/// Whether `a` and `b` hold the same names in the same order.
pub fn same_names(a: &Vec<String>, b: &Vec<String>) -> (same: bool)
    ensures
        same == (texts(a@) == texts(b@)),
{
    if a.len() != b.len() {
        assert(texts(a@).len() != texts(b@).len());
        return false;
    }
    let mut i: usize = 0;
    while i < a.len()
        invariant
            i <= a.len(),
            a.len() == b.len(),
            forall|k: int| 0 <= k < i ==> a[k]@ == b[k]@,
        decreases a.len() - i,
    {
        if a[i] != b[i] {
            assert(texts(a@)[i as int] != texts(b@)[i as int]);
            return false;
        }
        i += 1;
    }
    assert(texts(a@) =~= texts(b@));
    true
}

/// Reading back gives what was written: the workspace holds, at the place
/// of a write that no later write replaced, exactly the bytes of that write.
pub proof fn lemma_read_back(entries: Seq<(Seq<Seq<char>>, Seq<u8>)>, i: int)
    requires
        0 <= i < entries.len(),
        forall|j: int| i < j < entries.len() ==> entries[j].0 != entries[i].0,
    ensures
        written(entries).contains_key(entries[i].0),
        written(entries)[entries[i].0] == entries[i].1,
    decreases entries.len(),
{
    if i < entries.len() - 1 {
        let before = entries.drop_last();
        assert(before[i] == entries[i]);
        assert forall|j: int| i < j < before.len() implies before[j].0 != before[i].0 by {
            assert(before[j] == entries[j]);
        }
        lemma_read_back(before, i);
    }
}

/// A workspace holds nothing but what was written into it: it has a file at
/// a place exactly if one of the writes went there.
pub proof fn lemma_only_written(entries: Seq<(Seq<Seq<char>>, Seq<u8>)>, names: Seq<Seq<char>>)
    ensures
        written(entries).contains_key(names) <==> exists|i: int|
            0 <= i < entries.len() && (#[trigger] entries[i]).0 == names,
    decreases entries.len(),
{
    if entries.len() > 0 {
        let before = entries.drop_last();
        lemma_only_written(before, names);
        if written(entries).contains_key(names) {
            if entries.last().0 == names {
                assert(entries[entries.len() - 1].0 == names);
            } else {
                let i = choose|i: int| 0 <= i < before.len() && (#[trigger] before[i]).0 == names;
                assert(entries[i] == before[i]);
            }
        }
        if exists|i: int| 0 <= i < entries.len() && (#[trigger] entries[i]).0 == names {
            let i = choose|i: int| 0 <= i < entries.len() && (#[trigger] entries[i]).0 == names;
            if i < before.len() {
                assert(before[i] == entries[i]);
            }
        }
    }
}

/// The writes `writes` stage the files `files`: one write for each file, in
/// order, at the place of its path and with its bytes.
pub open spec fn stages(writes: Seq<(Seq<Seq<char>>, Seq<u8>)>, files: Seq<SourceFile>) -> bool {
    &&& writes.len() == files.len()
    &&& forall|i: int|
        0 <= i < files.len() ==> placement(#[trigger] files[i].path@) == Ok::<
            Seq<Seq<char>>,
            PathFault,
        >(writes[i].0)
    &&& forall|i: int| 0 <= i < files.len() ==> (#[trigger] writes[i]).1 == files[i].content@
}

/// Every staged file reads back as it was given: the workspace holds, at
/// the place of a file that no later file shares, exactly that file's
/// bytes.
pub proof fn lemma_staged_reads_back(
    writes: Seq<(Seq<Seq<char>>, Seq<u8>)>,
    files: Seq<SourceFile>,
    i: int,
)
    requires
        stages(writes, files),
        0 <= i < files.len(),
        forall|j: int| i < j < files.len() ==> placement(files[j].path@) != placement(files[i].path@),
    ensures
        written(writes).contains_key(placement(files[i].path@)->Ok_0),
        written(writes)[placement(files[i].path@)->Ok_0] == files[i].content@,
{
    assert forall|j: int| i < j < writes.len() implies writes[j].0 != writes[i].0 by {
        assert(placement(files[j].path@) == Ok::<Seq<Seq<char>>, PathFault>(writes[j].0));
        assert(placement(files[i].path@) == Ok::<Seq<Seq<char>>, PathFault>(writes[i].0));
    }
    assert(placement(files[i].path@) == Ok::<Seq<Seq<char>>, PathFault>(writes[i].0));
    assert(writes[i].1 == files[i].content@);
    lemma_read_back(writes, i);
}

/// A workspace holds the files of its own build and no others: it has a
/// file at a place exactly if that is the place of one of the files it was
/// staged from.
pub proof fn lemma_staged_holds_only_its_files(
    writes: Seq<(Seq<Seq<char>>, Seq<u8>)>,
    files: Seq<SourceFile>,
    names: Seq<Seq<char>>,
)
    requires
        stages(writes, files),
    ensures
        written(writes).contains_key(names) <==> exists|i: int|
            0 <= i < files.len() && placement(#[trigger] files[i].path@) == Ok::<
                Seq<Seq<char>>,
                PathFault,
            >(names),
{
    lemma_only_written(writes, names);
    if written(writes).contains_key(names) {
        let i = choose|i: int| 0 <= i < writes.len() && (#[trigger] writes[i]).0 == names;
        assert(placement(files[i].path@) == Ok::<Seq<Seq<char>>, PathFault>(writes[i].0));
    }
    if exists|i: int|
        0 <= i < files.len() && placement(#[trigger] files[i].path@) == Ok::<
            Seq<Seq<char>>,
            PathFault,
        >(names) {
        let i = choose|i: int|
            0 <= i < files.len() && placement(#[trigger] files[i].path@) == Ok::<
                Seq<Seq<char>>,
                PathFault,
            >(names);
        assert(writes[i].0 == names);
    }
}

/// Plans the workspace for `files`: each file at the place of its path,
/// with its bytes unchanged, in the order given. One path without a place
/// fails the whole plan, with the first such file and its fault; no part of
/// a workspace is handed out then.
pub fn stage(files: &Vec<SourceFile>) -> (r: Result<Workspace, WorkspaceError>)
    ensures
        match r {
            Ok(workspace) => workspace.wf() && stages(workspace@, files@),
            Err(error) => {
                &&& error.index < files.len()
                &&& placement(files[error.index as int].path@) == Err::<
                    Seq<Seq<char>>,
                    PathFault,
                >(error.fault)
                &&& forall|j: int| 0 <= j < error.index ==> placement(#[trigger] files[j].path@) is Ok
            },
        },
{
    let mut staged: Vec<StagedFile> = Vec::new();
    let mut i: usize = 0;
    while i < files.len()
        invariant
            i <= files.len(),
            staged.len() == i,
            forall|k: int|
                0 <= k < i ==> placement(#[trigger] files[k].path@) == Ok::<
                    Seq<Seq<char>>,
                    PathFault,
                >(texts(staged[k].components@)),
            forall|k: int| 0 <= k < i ==> (#[trigger] staged[k]).content@ == files[k].content@,
            forall|k: int| 0 <= k < i ==> confined(texts((#[trigger] staged[k]).components@)),
        decreases files.len() - i,
    {
        match place(files[i].path.as_str()) {
            Ok(components) => {
                let content = slice_to_vec(files[i].content.as_slice());
                staged.push(StagedFile { components, content });
            },
            Err(fault) => {
                return Err(WorkspaceError { index: i, fault });
            },
        }
        i += 1;
    }
    let workspace = Workspace { files: staged };
    assert(stages(workspace@, files@));
    Ok(workspace)
}

} // verus!
