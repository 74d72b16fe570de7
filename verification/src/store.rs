//! The file store, seen from this side: the addresses of its collections,
//! what its answers hold, and how its failures are passed on.

use vstd::prelude::*;
use vstd::string::StringSliceAdditionalSpecFns;
use crate::models::{FileModel, ProjectModel};
use crate::text::chars_of;
use crate::workspace::SourceFile;

verus! {

/// The status of a failure of this service itself.
pub const INTERNAL_SERVER_ERROR: u16 = 500;

/// The status that says that nothing was found.
pub const NOT_FOUND: u16 = 404;

/// A failure as it is reported to the caller: a status and a plain text.
#[derive(Debug, PartialEq, Eq)]
pub struct HttpError {
    pub status: u16,
    pub message: String,
}

/// The hexadecimal digit of `v`, in lower case.
pub open spec fn hex_digit(v: int) -> char {
    if v < 10 {
        (v + 48) as char
    } else {
        (v + 87) as char
    }
}

/// The lowest `width` hexadecimal digits of `v`, the highest of them first.
pub open spec fn hex_text(v: nat, width: nat) -> Seq<char>
    decreases width,
{
    if width == 0 {
        Seq::empty()
    } else {
        hex_text(v / 16, (width - 1) as nat).push(hex_digit((v % 16) as int))
    }
}

/// The text of the UUID whose 128 bits are `id`: its 32 hexadecimal digits
/// from the highest down, in lower case, in groups of 8, 4, 4, 4 and 12 with
/// a hyphen between two groups.
pub open spec fn uuid_text(id: u128) -> Seq<char> {
    let v = id as nat;
    hex_text(v / 0x1_0000_0000_0000_0000_0000_0000, 8) + seq!['-'] + hex_text(
        v / 0x1_0000_0000_0000_0000_0000,
        4,
    ) + seq!['-'] + hex_text(v / 0x1_0000_0000_0000_0000, 4) + seq!['-'] + hex_text(
        v / 0x1_0000_0000_0000,
        4,
    ) + seq!['-'] + hex_text(v, 12)
}

/// `Uuid::from_u128` and the `Display` of `uuid::Uuid`: the hyphenated
/// lower-case text of the UUID whose bits, the highest first, are those of
/// `id`.
#[verifier::external_body]
pub(crate) fn hyphenated(id: u128) -> (text: String)
    ensures
        text@ == uuid_text(id),
{
    uuid::Uuid::from_u128(id).to_string()
}

/// `s` without the characters `c` at its end.
pub open spec fn trimmed_end(s: Seq<char>, c: char) -> Seq<char>
    decreases s.len(),
{
    if s.len() > 0 && s.last() == c {
        trimmed_end(s.drop_last(), c)
    } else {
        s
    }
}

/// `s` without the characters `c` at its end.
pub fn trim_end(s: &str, c: char) -> (out: &str)
    ensures
        out@ == trimmed_end(s@, c),
{
    let chars = chars_of(s);
    let mut end: usize = chars.len();
    assert(chars@.take(end as int) =~= s@);
    while end > 0 && chars[end - 1] == c
        invariant
            end <= chars.len(),
            chars@ == s@,
            trimmed_end(s@, c) == trimmed_end(chars@.take(end as int), c),
        decreases end,
    {
        assert(chars@.take(end as int).drop_last() =~= chars@.take(end - 1));
        end -= 1;
    }
    assert(end > 0 ==> chars@.take(end as int).last() == chars@[end - 1]);
    s.substring_char(0, end)
}

/// The address of the files of the project `project_id`.
pub open spec fn project_files_address(base: Seq<char>, project_id: u128) -> Seq<char> {
    base + "/rest/v1/files?project_id=eq."@ + uuid_text(project_id)
}

/// The address of the collection of files.
pub open spec fn files_address(base: Seq<char>) -> Seq<char> {
    base + "/rest/v1/files"@
}

/// The address of all files, with the columns of a stored file.
pub open spec fn file_list_address(base: Seq<char>) -> Seq<char> {
    base + "/rest/v1/files?select=id,project_id,name,path,language,content"@
}

/// The address of the file `id`, with the columns of a stored file.
pub open spec fn file_address(base: Seq<char>, id: u128) -> Seq<char> {
    base + "/rest/v1/files?id=eq."@ + uuid_text(id)
        + "&select=id,project_id,name,path,language,content"@
}

/// The address of the collection of projects; slashes at the end of `base`
/// count for nothing.
pub open spec fn projects_address(base: Seq<char>) -> Seq<char> {
    trimmed_end(base, '/') + "/rest/v1/projects"@
}

/// The address of all projects, the newest first.
pub open spec fn project_list_address(base: Seq<char>) -> Seq<char> {
    trimmed_end(base, '/') + "/rest/v1/projects?select=*&order=created_at.desc"@
}

/// The address of the project `id`.
pub open spec fn project_address(base: Seq<char>, id: u128) -> Seq<char> {
    trimmed_end(base, '/') + "/rest/v1/projects?id=eq."@ + uuid_text(id) + "&select=*"@
}

/// The address of the files of the project `project_id` in the store at
/// `base`.
pub fn project_files_url(base: &str, project_id: u128) -> (url: String)
    ensures
        url@ == project_files_address(base@, project_id),
{
    let mut url = String::from_str(base);
    url.append("/rest/v1/files?project_id=eq.");
    url.append(hyphenated(project_id).as_str());
    url
}

/// The address of the collection of files in the store at `base`.
pub fn files_url(base: &str) -> (url: String)
    ensures
        url@ == files_address(base@),
{
    let mut url = String::from_str(base);
    url.append("/rest/v1/files");
    url
}

/// The address that lists all files of the store at `base`.
pub fn file_list_url(base: &str) -> (url: String)
    ensures
        url@ == file_list_address(base@),
{
    let mut url = String::from_str(base);
    url.append("/rest/v1/files?select=id,project_id,name,path,language,content");
    url
}

/// The address of the file `id` in the store at `base`.
pub fn file_url(base: &str, id: u128) -> (url: String)
    ensures
        url@ == file_address(base@, id),
{
    let mut url = String::from_str(base);
    url.append("/rest/v1/files?id=eq.");
    url.append(hyphenated(id).as_str());
    url.append("&select=id,project_id,name,path,language,content");
    url
}

/// The address of the collection of projects in the store at `base`.
pub fn projects_url(base: &str) -> (url: String)
    ensures
        url@ == projects_address(base@),
{
    let mut url = String::from_str(trim_end(base, '/'));
    url.append("/rest/v1/projects");
    url
}

/// The address that lists all projects of the store at `base`.
pub fn project_list_url(base: &str) -> (url: String)
    ensures
        url@ == project_list_address(base@),
{
    let mut url = String::from_str(trim_end(base, '/'));
    url.append("/rest/v1/projects?select=*&order=created_at.desc");
    url
}

/// The address of the project `id` in the store at `base`.
pub fn project_url(base: &str, id: u128) -> (url: String)
    ensures
        url@ == project_address(base@, id),
{
    let mut url = String::from_str(trim_end(base, '/'));
    url.append("/rest/v1/projects?id=eq.");
    url.append(hyphenated(id).as_str());
    url.append("&select=*");
    url
}

/// The value of the header that authorizes a request with the key `key`.
pub fn bearer(key: &str) -> (value: String)
    ensures
        value@ == "Bearer "@ + key@,
{
    let mut value = String::from_str("Bearer ");
    value.append(key);
    value
}

/// The status `status` reports success.
pub open spec fn is_success_status(status: u16) -> bool {
    200 <= status < 300
}

/// The status under which a failure of the store with the status `status`
/// is passed on: the same where it is a status at all, else that of a
/// failure of this service.
pub open spec fn relayed_status(status: u16) -> u16 {
    if 100 <= status <= 999 {
        status
    } else {
        INTERNAL_SERVER_ERROR
    }
}

/// Whether the store's answer with the status `status` reports success.
pub fn is_success(status: u16) -> (yes: bool)
    ensures
        yes == is_success_status(status),
{
    200 <= status && status < 300
}

/// The failure to report when the store answered with the status `status`
/// and the text `body`.
pub fn store_refused(status: u16, body: &str) -> (error: HttpError)
    ensures
        error.status == relayed_status(status),
        error.message@ == "Supabase error: "@ + body@,
{
    let mut message = String::from_str("Supabase error: ");
    message.append(body);
    let status = if 100 <= status && status <= 999 {
        status
    } else {
        INTERNAL_SERVER_ERROR
    };
    HttpError { status, message }
}

/// The failure to report when the request to the store failed for `reason`.
pub fn request_failed(reason: &str) -> (error: HttpError)
    ensures
        error.status == INTERNAL_SERVER_ERROR,
        error.message@ == "Request failed: "@ + reason@,
{
    let mut message = String::from_str("Request failed: ");
    message.append(reason);
    HttpError { status: INTERNAL_SERVER_ERROR, message }
}

/// The failure to report when the store's answer could not be read, for
/// `reason`.
pub fn answer_unreadable(reason: &str) -> (error: HttpError)
    ensures
        error.status == INTERNAL_SERVER_ERROR,
        error.message@ == "JSON parse error: "@ + reason@,
{
    let mut message = String::from_str("JSON parse error: ");
    message.append(reason);
    HttpError { status: INTERNAL_SERVER_ERROR, message }
}

/// The project that the store created: the last of the rows it sent back;
/// without a row, a failure of this service.
pub fn created_project(rows: Vec<ProjectModel>) -> (r: Result<ProjectModel, HttpError>)
    ensures
        match r {
            Ok(project) => rows.len() > 0 && project == rows@.last(),
            Err(error) => rows.len() == 0 && error.status == INTERNAL_SERVER_ERROR
                && error.message@ == "No project returned"@,
        },
{
    let mut rows = rows;
    match rows.pop() {
        Some(project) => Ok(project),
        None => Err(
            HttpError {
                status: INTERNAL_SERVER_ERROR,
                message: String::from_str("No project returned"),
            },
        ),
    }
}

/// The project that was asked for: the last of the rows that the store
/// sent; without a row, the failure that says that there is none.
pub fn found_project(rows: Vec<ProjectModel>) -> (r: Result<ProjectModel, HttpError>)
    ensures
        match r {
            Ok(project) => rows.len() > 0 && project == rows@.last(),
            Err(error) => rows.len() == 0 && error.status == NOT_FOUND && error.message@
                == "Project not found"@,
        },
{
    let mut rows = rows;
    match rows.pop() {
        Some(project) => Ok(project),
        None => Err(
            HttpError { status: NOT_FOUND, message: String::from_str("Project not found") },
        ),
    }
}

/// The file that was asked for or created: the first of the rows that the
/// store sent, `None` without a row.
pub fn first_file(rows: Vec<FileModel>) -> (file: Option<FileModel>)
    ensures
        match file {
            Some(found) => rows.len() > 0 && found == rows@[0],
            None => rows.len() == 0,
        },
{
    let mut rows = rows;
    if rows.len() == 0 {
        None
    } else {
        Some(rows.swap_remove(0))
    }
}

/// The files to list, given what reading the store's answer gave: the rows,
/// or no files where the answer could not be read.
pub fn listed_files(parsed: Result<Vec<FileModel>, String>) -> (files: Vec<FileModel>)
    ensures
        match parsed {
            Ok(rows) => files == rows,
            Err(_) => files@.len() == 0,
        },
{
    match parsed {
        Ok(rows) => rows,
        Err(_) => Vec::new(),
    }
}

/// One row of the store's answer to a request for a project's files: its
/// members `path` and `content`, each where the row has it as a string.
#[derive(Debug, PartialEq, Eq)]
pub struct FileRow {
    pub path: Option<String>,
    pub content: Option<String>,
}

/// A `FileRow` as plain values.
pub open spec fn row_view(row: FileRow) -> (Option<Seq<char>>, Option<Seq<char>>) {
    (
        match row.path {
            Some(p) => Some(p@),
            None => None,
        },
        match row.content {
            Some(c) => Some(c@),
            None => None,
        },
    )
}

/// The rows that the JSON text `body` holds where `serde_json` reads it as
/// an array: of each element, in order, the members `path` and `content`,
/// each where the element is an object that has it as a string. `None`
/// where `serde_json` does not read `body` as an array.
pub uninterp spec fn json_file_rows(body: Seq<u8>) -> Option<
    Seq<(Option<Seq<char>>, Option<Seq<char>>)>,
>;

/// `serde_json::from_slice` to a vector of `serde_json::Value`, then of
/// each value the index `"path"` and the index `"content"`, each through
/// `Value::as_str`. The result is `Ok` exactly where the text is an array,
/// and then holds its rows in order; of the text of an error nothing is
/// claimed.
#[verifier::external_body]
pub(crate) fn decode_file_rows(body: &[u8]) -> (r: Result<Vec<FileRow>, String>)
    ensures
        match json_file_rows(body@) {
            Some(rows) => r is Ok && Seq::new(r->Ok_0.len() as nat, |i: int| row_view(r->Ok_0[i]))
                == rows,
            None => r is Err,
        },
{
    let values: Vec<serde_json::Value> = serde_json::from_slice(body).map_err(|e| e.to_string())?;
    Ok(
        values.iter().map(
            |v| FileRow {
                path: v["path"].as_str().map(String::from),
                content: v["content"].as_str().map(String::from),
            },
        ).collect(),
    )
}

/// What a row of a file list lacks.
#[derive(Clone, Copy, Debug, PartialEq, Eq, Structural)]
pub enum Field {
    Path,
    Content,
}

/// The first row of a file list that lacks something: the row at place
/// `index` has no `field`, or has it as something other than a string.
#[derive(Clone, Copy, Debug, PartialEq, Eq, Structural)]
pub struct MissingField {
    pub index: usize,
    pub field: Field,
}

/// Why the files of a project could not be had from the store's answer.
#[derive(Debug, PartialEq, Eq)]
pub enum FetchError {
    /// The answer is not the JSON text of an array; with the reason.
    InvalidBody(String),
    /// A row lacks its path or its content.
    Incomplete(MissingField),
}

/// What the row `row` lacks, `None` where it is complete; the path is
/// looked at first.
pub open spec fn lacking(row: (Option<Seq<char>>, Option<Seq<char>>)) -> Option<Field> {
    if row.0 is None {
        Some(Field::Path)
    } else if row.1 is None {
        Some(Field::Content)
    } else {
        None
    }
}

/// The source files that the rows stand for: of each row its path, and its
/// content as bytes in UTF-8. One row that lacks either fails them all,
/// with the place of the first such row and what it lacks.
pub fn source_files(rows: &Vec<FileRow>) -> (r: Result<Vec<SourceFile>, MissingField>)
    ensures
        match r {
            Ok(files) => {
                &&& files.len() == rows.len()
                &&& forall|i: int|
                    0 <= i < rows.len() ==> {
                        &&& (#[trigger] rows[i]).path matches Some(path)
                        &&& rows[i].content matches Some(content)
                        &&& files[i].path@ == path@
                        &&& files[i].content@ == vstd::utf8::encode_utf8(content@)
                    }
            },
            Err(missing) => {
                &&& missing.index < rows.len()
                &&& lacking(row_view(rows[missing.index as int])) == Some(missing.field)
                &&& forall|j: int|
                    0 <= j < missing.index ==> lacking(row_view(#[trigger] rows[j])) is None
            },
        },
{
    let mut files: Vec<SourceFile> = Vec::new();
    let mut i: usize = 0;
    while i < rows.len()
        invariant
            i <= rows.len(),
            files.len() == i,
            forall|k: int|
                0 <= k < i ==> {
                    &&& (#[trigger] rows[k]).path matches Some(path)
                    &&& rows[k].content matches Some(content)
                    &&& files[k].path@ == path@
                    &&& files[k].content@ == vstd::utf8::encode_utf8(content@)
                },
            forall|j: int| 0 <= j < i ==> lacking(row_view(#[trigger] rows[j])) is None,
        decreases rows.len() - i,
    {
        let row = &rows[i];
        match &row.path {
            None => {
                return Err(MissingField { index: i, field: Field::Path });
            },
            Some(path) => {
                match &row.content {
                    None => {
                        return Err(MissingField { index: i, field: Field::Content });
                    },
                    Some(content) => {
                        files.push(SourceFile::from_text(path.clone(), content.as_str()));
                    },
                }
            },
        }
        i += 1;
    }
    Ok(files)
}

/// The source files in the store's answer `body` to a request for a
/// project's files. An answer that is no JSON array, and one with a row that
/// lacks its path or its content, is a failure; an empty array is a project
/// without files.
pub fn parse_file_list(body: &[u8]) -> (r: Result<Vec<SourceFile>, FetchError>)
    ensures
        match json_file_rows(body@) {
            None => r matches Err(FetchError::InvalidBody(_)),
            Some(rows) => match r {
                Ok(files) => {
                    &&& files.len() == rows.len()
                    &&& forall|i: int|
                        0 <= i < rows.len() ==> {
                            &&& (#[trigger] rows[i]).0 matches Some(path)
                            &&& rows[i].1 matches Some(content)
                            &&& files[i].path@ == path
                            &&& files[i].content@ == vstd::utf8::encode_utf8(content)
                        }
                },
                Err(error) => {
                    &&& error matches FetchError::Incomplete(missing)
                    &&& missing.index < rows.len()
                    &&& lacking(rows[missing.index as int]) == Some(missing.field)
                    &&& forall|j: int|
                        0 <= j < missing.index ==> lacking(#[trigger] rows[j]) is None
                },
            },
        },
{
    match decode_file_rows(body) {
        Err(reason) => Err(FetchError::InvalidBody(reason)),
        Ok(rows) => {
            let ghost plain = json_file_rows(body@)->0;
            assert(forall|i: int| 0 <= i < rows.len() ==> plain[i] == row_view(#[trigger] rows[i]));
            match source_files(&rows) {
                Ok(files) => {
                    proof {
                        assert forall|i: int| 0 <= i < plain.len() implies {
                            &&& (#[trigger] plain[i]).0 matches Some(path)
                            &&& plain[i].1 matches Some(content)
                            &&& files[i].path@ == path
                            &&& files[i].content@ == vstd::utf8::encode_utf8(content)
                        } by {
                            assert(plain[i] == row_view(rows[i]));
                        }
                    }
                    Ok(files)
                },
                Err(missing) => {
                    proof {
                        assert forall|j: int| 0 <= j < missing.index implies lacking(
                            #[trigger] plain[j],
                        ) is None by {
                            assert(plain[j] == row_view(rows[j]));
                        }
                    }
                    Err(FetchError::Incomplete(missing))
                },
            }
        },
    }
}

} // verus!
