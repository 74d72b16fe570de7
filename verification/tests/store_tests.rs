use sandbox_build::models::{FileModel, ProjectModel};
use sandbox_build::store::{
    answer_unreadable, bearer, created_project, file_list_url, file_url, files_url, first_file,
    found_project, is_success, listed_files, parse_file_list, project_files_url, project_list_url, project_url,
    projects_url, request_failed, source_files, store_refused, trim_end, FetchError, Field,
    FileRow, HttpError, MissingField, INTERNAL_SERVER_ERROR, NOT_FOUND,
};
use sandbox_build::workspace::SourceFile;

const ID: u128 = 0xa1a2a3a4b1b2c1c2d1d2d3d4d5d6d7d8;

fn project(id: u128, name: &str) -> ProjectModel {
    ProjectModel { id, name: name.to_string(), created_at: "2024-05-01T10:00:00Z".to_string() }
}

fn stored_file(id: u128, path: &str, content: &str) -> FileModel {
    FileModel {
        id,
        project_id: ID,
        user_id: None,
        name: "lib.rs".to_string(),
        path: path.to_string(),
        language: "rust".to_string(),
        content: content.to_string(),
        created_at: None,
        updated_at: None,
    }
}

#[test]
fn address_of_the_files_of_a_project() {
    assert_eq!(
        project_files_url("https://db.example.co", ID),
        "https://db.example.co/rest/v1/files?project_id=eq.a1a2a3a4-b1b2-c1c2-d1d2-d3d4d5d6d7d8"
    );
    assert_eq!(
        project_files_url("", 0),
        "/rest/v1/files?project_id=eq.00000000-0000-0000-0000-000000000000"
    );
    assert_eq!(
        project_files_url("h", 0x0123456789abcdef0fedcba987654321),
        "h/rest/v1/files?project_id=eq.01234567-89ab-cdef-0fed-cba987654321"
    );
    assert_eq!(
        project_files_url("h", u128::MAX),
        "h/rest/v1/files?project_id=eq.ffffffff-ffff-ffff-ffff-ffffffffffff"
    );
}

#[test]
fn addresses_of_files() {
    assert_eq!(files_url("https://db.example.co"), "https://db.example.co/rest/v1/files");
    assert_eq!(files_url("https://db.example.co/"), "https://db.example.co//rest/v1/files");
    assert_eq!(
        file_list_url("https://db.example.co"),
        "https://db.example.co/rest/v1/files?select=id,project_id,name,path,language,content"
    );
    assert_eq!(
        file_url("https://db.example.co", 1),
        "https://db.example.co/rest/v1/files?id=eq.00000000-0000-0000-0000-000000000001&select=id,project_id,name,path,language,content"
    );
}

#[test]
fn addresses_of_projects() {
    assert_eq!(projects_url("https://db.example.co"), "https://db.example.co/rest/v1/projects");
    assert_eq!(projects_url("https://db.example.co///"), "https://db.example.co/rest/v1/projects");
    assert_eq!(
        project_list_url("https://db.example.co/"),
        "https://db.example.co/rest/v1/projects?select=*&order=created_at.desc"
    );
    assert_eq!(
        project_url("https://db.example.co/", ID),
        "https://db.example.co/rest/v1/projects?id=eq.a1a2a3a4-b1b2-c1c2-d1d2-d3d4d5d6d7d8&select=*"
    );
}

#[test]
fn trim_end_drops_the_character_at_the_end_only() {
    assert_eq!(trim_end("a/b//", '/'), "a/b");
    assert_eq!(trim_end("/a", '/'), "/a");
    assert_eq!(trim_end("///", '/'), "");
    assert_eq!(trim_end("", '/'), "");
    assert_eq!(trim_end("caf\u{e9}\u{e9}", '\u{e9}'), "caf");
}

#[test]
fn bearer_value() {
    assert_eq!(bearer("k3y"), "Bearer k3y");
    assert_eq!(bearer(""), "Bearer ");
}

#[test]
fn success_is_a_status_in_the_two_hundreds() {
    assert!(is_success(200));
    assert!(is_success(201));
    assert!(is_success(299));
    assert!(!is_success(199));
    assert!(!is_success(300));
    assert!(!is_success(404));
    assert!(!is_success(0));
}

#[test]
fn a_refusal_of_the_store_is_passed_on_under_its_status() {
    assert_eq!(
        store_refused(409, "duplicate key"),
        HttpError { status: 409, message: "Supabase error: duplicate key".to_string() }
    );
    assert_eq!(store_refused(100, "").status, 100);
    assert_eq!(store_refused(999, "").status, 999);
    assert_eq!(store_refused(99, "").status, 500);
    assert_eq!(store_refused(1000, "").status, 500);
    assert_eq!(store_refused(0, "x").message, "Supabase error: x");
}

#[test]
fn failures_of_the_service_itself() {
    assert_eq!(
        request_failed("connection refused"),
        HttpError { status: 500, message: "Request failed: connection refused".to_string() }
    );
    assert_eq!(
        answer_unreadable("expected value at line 1 column 1"),
        HttpError {
            status: 500,
            message: "JSON parse error: expected value at line 1 column 1".to_string(),
        }
    );
    assert_eq!(INTERNAL_SERVER_ERROR, 500);
    assert_eq!(NOT_FOUND, 404);
}

#[test]
fn the_created_project_is_the_last_row() {
    assert_eq!(created_project(vec![project(1, "a"), project(2, "b")]), Ok(project(2, "b")));
    assert_eq!(
        created_project(Vec::new()),
        Err(HttpError { status: 500, message: "No project returned".to_string() })
    );
}

#[test]
fn the_project_asked_for_is_the_last_row() {
    assert_eq!(found_project(vec![project(1, "a"), project(2, "b")]), Ok(project(2, "b")));
    assert_eq!(
        found_project(Vec::new()),
        Err(HttpError { status: 404, message: "Project not found".to_string() })
    );
}

#[test]
fn the_file_asked_for_is_the_first_row() {
    assert_eq!(
        first_file(vec![stored_file(1, "a", ""), stored_file(2, "b", ""), stored_file(3, "c", "")]),
        Some(stored_file(1, "a", ""))
    );
    assert_eq!(first_file(vec![stored_file(7, "a", "")]), Some(stored_file(7, "a", "")));
    assert_eq!(first_file(Vec::new()), None);
}

#[test]
fn a_stored_file_is_a_source_file() {
    assert_eq!(
        stored_file(1, "/src/lib.rs", "fn f() {}\n// \u{2705}").source_file(),
        SourceFile {
            path: "/src/lib.rs".to_string(),
            content: b"fn f() {}\n// \xe2\x9c\x85".to_vec(),
        }
    );
}

#[test]
fn a_file_list_gives_its_files_in_order() {
    let body = br#"[
        {"id": "x", "path": "/src/lib.rs", "content": "pub fn f() {}\n", "language": "rust"},
        {"content": "[package]\r\n", "path": "Cargo.toml"},
        {"path": "", "content": "caf\u00e9"}
    ]"#;
    assert_eq!(
        parse_file_list(body),
        Ok(vec![
            SourceFile { path: "/src/lib.rs".to_string(), content: b"pub fn f() {}\n".to_vec() },
            SourceFile { path: "Cargo.toml".to_string(), content: b"[package]\r\n".to_vec() },
            SourceFile { path: String::new(), content: vec![b'c', b'a', b'f', 0xc3, 0xa9] },
        ])
    );
}

#[test]
fn an_empty_file_list_gives_no_files() {
    assert_eq!(parse_file_list(b"[]"), Ok(Vec::new()));
    assert_eq!(parse_file_list(b" [ ] \n"), Ok(Vec::new()));
}

#[test]
fn a_body_that_is_no_list_is_invalid() {
    for body in [&b""[..], b"{", b"[1, 2", b"{\"path\": \"a\"}", b"null", b"\"text\"", b"[] []"] {
        match parse_file_list(body) {
            Err(FetchError::InvalidBody(reason)) => assert!(!reason.is_empty()),
            other => panic!("{:?}", other),
        }
    }
}

#[test]
fn a_row_that_lacks_something_fails_the_list() {
    assert_eq!(
        parse_file_list(br#"[{"path": "a", "content": "x"}, {"content": "y"}, {}]"#),
        Err(FetchError::Incomplete(MissingField { index: 1, field: Field::Path }))
    );
    assert_eq!(
        parse_file_list(br#"[{"path": "a"}]"#),
        Err(FetchError::Incomplete(MissingField { index: 0, field: Field::Content }))
    );
    assert_eq!(
        parse_file_list(br#"[{"path": "a", "content": 5}]"#),
        Err(FetchError::Incomplete(MissingField { index: 0, field: Field::Content }))
    );
    assert_eq!(
        parse_file_list(br#"[{"path": null, "content": null}]"#),
        Err(FetchError::Incomplete(MissingField { index: 0, field: Field::Path }))
    );
    assert_eq!(
        parse_file_list(br#"["a"]"#),
        Err(FetchError::Incomplete(MissingField { index: 0, field: Field::Path }))
    );
}

#[test]
fn rows_become_source_files() {
    let rows = vec![
        FileRow { path: Some("a".to_string()), content: Some("1".to_string()) },
        FileRow { path: Some("b".to_string()), content: Some(String::new()) },
    ];
    assert_eq!(
        source_files(&rows),
        Ok(vec![
            SourceFile { path: "a".to_string(), content: b"1".to_vec() },
            SourceFile { path: "b".to_string(), content: Vec::new() },
        ])
    );
    assert_eq!(source_files(&Vec::new()), Ok(Vec::new()));
    let rows = vec![
        FileRow { path: Some("a".to_string()), content: Some("1".to_string()) },
        FileRow { path: Some("b".to_string()), content: None },
        FileRow { path: None, content: None },
    ];
    assert_eq!(source_files(&rows), Err(MissingField { index: 1, field: Field::Content }));
}

#[test]
fn an_unreadable_list_of_files_lists_none() {
    assert_eq!(
        listed_files(Ok(vec![stored_file(1, "a", "x"), stored_file(2, "b", "y")])),
        vec![stored_file(1, "a", "x"), stored_file(2, "b", "y")]
    );
    assert_eq!(listed_files(Ok(Vec::new())), Vec::new());
    assert_eq!(listed_files(Err("missing field `id`".to_string())), Vec::new());
}
