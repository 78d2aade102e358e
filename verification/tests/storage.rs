use aegis_orchestrator_core::domain::fsal::FsalError;
use aegis_orchestrator_core::domain::shared_kernel::{NodeId, Uuid, VolumeId};
use aegis_orchestrator_core::domain::storage::{
    DirEntry, FileAttributes, FileHandle, FileType, OpenMode, StorageError,
};
use aegis_orchestrator_core::infrastructure::docker::container_verifier::{
    verify_container_running, BollardContainerVerifier, VERIFIER_TIMEOUT_SECS,
};
use aegis_orchestrator_core::infrastructure::storage::http::{
    HttpReply, HttpRequest, HttpStatus, Method,
};
use aegis_orchestrator_core::infrastructure::storage::paths::{
    last_segment, list_ancestors, split_segments, to_forward_slashes, trim_trailing_slashes,
};
use aegis_orchestrator_core::infrastructure::storage::remote_storage_server::{
    Code, NodeEnvelope, RemoteStorageServiceHandler, Status,
};
use aegis_orchestrator_core::infrastructure::storage::seaweedfs::{
    splice, CappedBody, CreationStep, DirectoryEntry, OpenStep, ReadStep, RenameStep,
    SeaweedFSAdapter, WriteStep, SEAWEEDFS_MAX_RESPONSE_BYTES,
};
use aegis_orchestrator_core::support::clock::Span;
use ed25519_dalek::{Signer, SigningKey};

fn adapter() -> SeaweedFSAdapter {
    SeaweedFSAdapter::new("http://localhost:8888")
}

fn status(code: u16) -> HttpStatus {
    HttpStatus::new(code).unwrap()
}

fn reply(code: u16, text: Option<&str>) -> HttpReply {
    HttpReply { status: status(code), text: text.map(|t| t.to_string()) }
}

fn unknown(words: &str) -> StorageError {
    StorageError::Unknown(words.to_string())
}

#[test]
fn test_adapter_creation() {
    let adapter = SeaweedFSAdapter::new("http://localhost:8888");
    assert_eq!(adapter.filer_url, "http://localhost:8888");
}

#[test]
fn test_url_building() {
    let adapter = SeaweedFSAdapter::new("http://localhost:8888");
    assert_eq!(adapter.build_url("/dir/"), "http://localhost:8888/dir/");
    assert_eq!(adapter.build_url("/quota"), "http://localhost:8888/quota");
}

#[test]
fn test_invalid_path_rejection() {
    let adapter = SeaweedFSAdapter::new("http://localhost:8888");

    // Path must start with /
    let result = adapter.create_directory("invalid/path");
    assert!(matches!(result, Err(StorageError::InvalidPath(_))));
}

#[test]
fn relative_paths_are_refused_everywhere() {
    let refused = StorageError::InvalidPath("Path must start with /".to_string());
    assert_eq!(adapter().delete_directory("a").unwrap_err(), refused);
    assert_eq!(adapter().set_quota("", 1).unwrap_err(), refused);
    assert_eq!(adapter().get_usage("a/b").unwrap_err(), refused);
    assert_eq!(adapter().list_directories(".").unwrap_err(), refused);
}

#[test]
fn timeouts_are_kept() {
    assert_eq!(adapter().timeout, Span::from_secs(30));
    let short = Span::new(0, 7_000_000).unwrap();
    assert_eq!(SeaweedFSAdapter::with_timeout("x", short).timeout, short);
}

#[test]
fn paths_are_taken_apart() {
    assert_eq!(split_segments("//a/b//c/"), vec!["a", "b", "c"]);
    assert!(split_segments("///").is_empty());
    assert_eq!(list_ancestors("/a/b/c"), vec!["/a", "/a/b", "/a/b/c"]);
    assert_eq!(trim_trailing_slashes("/a//"), "/a");
    assert_eq!(trim_trailing_slashes("/"), "");
    assert_eq!(last_segment("/foo/bar"), "bar");
    assert_eq!(last_segment("/foo/"), "");
    assert_eq!(last_segment("bar"), "bar");
    assert_eq!(to_forward_slashes("a\\b/c"), "a/b/c");
}

fn create(path: &str, replies: Vec<HttpReply>) -> (Vec<HttpRequest>, Result<(), StorageError>) {
    let mut creation = adapter().create_directory(path).unwrap();
    let mut requests = Vec::new();
    for reply in replies {
        requests.push(creation.request());
        match creation.replied(&reply) {
            CreationStep::Next(next) => creation = next,
            CreationStep::Done(result) => return (requests, result),
        }
    }
    panic!("not done");
}

#[test]
fn directories_are_created_from_the_root_down() {
    let (requests, result) = create(
        "/a/b/",
        vec![reply(201, None), reply(409, None), reply(204, None)],
    );
    assert_eq!(result, Ok(()));
    assert_eq!(requests[0].method, Method::Post);
    assert_eq!(requests[0].url, "http://localhost:8888/dir/");
    assert_eq!(requests[0].form, vec![("path".to_string(), "/a".to_string())]);
    assert_eq!(requests[1].form, vec![("path".to_string(), "/a/b".to_string())]);
    assert_eq!(requests[2].method, Method::Put);
    assert_eq!(requests[2].url, "http://localhost:8888/a/b/.keep");
    assert!(requests[2].body.is_empty());
}

#[test]
fn failed_directories_are_named() {
    let (requests, result) = create("/a/b", vec![reply(500, None)]);
    assert_eq!(requests.len(), 1);
    assert_eq!(
        result,
        Err(unknown("Failed to create directory /a: HTTP 500 Internal Server Error"))
    );
    let (_, result) = create("/a", vec![reply(403, Some("go away"))]);
    assert_eq!(result, Err(unknown("Failed to create directory /a: go away")));
    let (_, result) = create("/a", vec![reply(200, None), reply(404, None)]);
    assert_eq!(
        result,
        Err(unknown("Failed to write .keep sentinel to /a/.keep: HTTP 404 Not Found"))
    );
    let (requests, result) = create("/", vec![reply(200, None)]);
    assert_eq!(result, Ok(()));
    assert_eq!(requests[0].url, "http://localhost:8888/.keep");
}

#[test]
fn directories_are_deleted_with_their_contents() {
    let request = adapter().delete_directory("/a").unwrap();
    assert_eq!(request.method, Method::Delete);
    assert_eq!(request.url, "http://localhost:8888/dir/");
    assert_eq!(
        request.query,
        vec![
            ("path".to_string(), "/a".to_string()),
            ("recursive".to_string(), "true".to_string())
        ]
    );
    assert_eq!(SeaweedFSAdapter::directory_deleted("/a", &reply(204, None)), Ok(()));
    assert_eq!(
        SeaweedFSAdapter::directory_deleted("/a", &reply(404, None)),
        Err(StorageError::NotFound("/a".to_string()))
    );
    assert_eq!(
        SeaweedFSAdapter::directory_deleted("/a", &reply(500, Some("boom"))),
        Err(unknown("Failed to delete directory /a: boom"))
    );
}

#[test]
fn quotas_are_set() {
    let request = adapter().set_quota("/a", 10_000_000).unwrap();
    assert_eq!(request.method, Method::Post);
    assert_eq!(request.url, "http://localhost:8888/quota");
    assert_eq!(
        request.form,
        vec![
            ("path".to_string(), "/a".to_string()),
            ("bytes".to_string(), "10000000".to_string())
        ]
    );
    assert_eq!(SeaweedFSAdapter::quota_set("/a", &reply(201, None)), Ok(()));
    assert_eq!(
        SeaweedFSAdapter::quota_set("/a", &reply(404, None)),
        Err(StorageError::NotFound("/a".to_string()))
    );
    assert_eq!(
        SeaweedFSAdapter::quota_set("/a", &reply(204, None)),
        Err(unknown("Failed to set quota for /a: HTTP 204 No Content"))
    );
}

#[test]
fn test_get_usage_returns_zero_for_not_found() {
    let request = adapter().get_usage("/tenant/vol").unwrap();
    assert_eq!(request.method, Method::Get);
    assert_eq!(request.url, "http://localhost:8888/dir/status");
    assert_eq!(request.query, vec![("path".to_string(), "/tenant/vol".to_string())]);
    let result = SeaweedFSAdapter::usage_known(
        "/tenant/vol",
        &reply(404, None),
        Err("EOF while parsing a value".to_string()),
    );
    assert_eq!(result, Ok(0), "404 from /dir/status must yield Ok(0)");
}

#[test]
fn test_readdir_sends_accept_json_header() {
    let request = adapter().readdir("/tenant/vol");
    assert_eq!(request.method, Method::Get);
    assert_eq!(request.url, "http://localhost:8888/tenant/vol");
    assert!(request.accept_json);
    let result = SeaweedFSAdapter::entries_listed("/tenant/vol", &status(200), &Ok(vec![]));
    assert!(
        result.is_ok(),
        "readdir must succeed when Accept header is present: {result:?}"
    );
    assert!(result.unwrap().is_empty());
}

#[test]
fn test_list_directories_sends_accept_json_header() {
    let request = adapter().list_directories("/tenant/vol").unwrap();
    assert_eq!(request.method, Method::Get);
    assert_eq!(request.url, "http://localhost:8888/tenant/vol");
    assert!(request.accept_json);
    let result =
        SeaweedFSAdapter::directories_listed("/tenant/vol", &reply(200, None), &Ok(vec![]));
    assert!(
        result.is_ok(),
        "list_directories must succeed when Accept header is present: {result:?}"
    );
    assert!(result.unwrap().is_empty());
}

#[test]
fn test_get_usage_sends_accept_json_header() {
    let request = adapter().get_usage("/tenant/vol").unwrap();
    assert!(request.accept_json);
    assert_eq!(request.query, vec![("path".to_string(), "/tenant/vol".to_string())]);
    let result = SeaweedFSAdapter::usage_known("/tenant/vol", &reply(200, None), Ok(4096));
    assert_eq!(
        result,
        Ok(4096),
        "get_usage must parse JSON when Accept header is present"
    );
}

#[test]
fn unreadable_and_failed_usage_is_an_error() {
    let known = |code: u16, size: Result<u64, String>| {
        SeaweedFSAdapter::usage_known("/tenant/vol", &reply(code, None), size)
    };
    assert_eq!(
        known(200, Err("no number".to_string())),
        Err(StorageError::Serialization("no number".to_string()))
    );
    assert_eq!(
        known(503, Ok(1)),
        Err(unknown("Failed to get usage for /tenant/vol: HTTP 503 Service Unavailable"))
    );
}

#[test]
fn health_is_checked_quickly() {
    let request = adapter().health_check();
    assert_eq!(request.url, "http://localhost:8888/");
    assert_eq!(request.timeout_secs, Some(5));
    assert_eq!(SeaweedFSAdapter::health_known(&status(200)), Ok(()));
    assert_eq!(
        SeaweedFSAdapter::health_known(&status(502)),
        Err(StorageError::Unavailable("Filer returned status 502 Bad Gateway".to_string()))
    );
}

fn entry(name: &str, is_directory: bool) -> DirectoryEntry {
    DirectoryEntry { name: name.to_string(), is_directory }
}

#[test]
fn listings_name_their_entries() {
    let entries = Ok(vec![entry("/v/a", true), entry("/v/b.txt", false), entry("/v/c", true)]);
    assert_eq!(
        SeaweedFSAdapter::directories_listed("/v", &reply(200, None), &entries).unwrap(),
        vec!["/v/a", "/v/c"]
    );
    assert_eq!(
        SeaweedFSAdapter::entries_listed("/v", &status(200), &entries).unwrap(),
        vec![
            DirEntry { name: "a".to_string(), file_type: FileType::Directory },
            DirEntry { name: "b.txt".to_string(), file_type: FileType::File },
            DirEntry { name: "c".to_string(), file_type: FileType::Directory },
        ]
    );
    let broken = Err("html".to_string());
    assert_eq!(
        SeaweedFSAdapter::entries_listed("/v", &status(200), &broken),
        Err(StorageError::Serialization("html".to_string()))
    );
    assert_eq!(
        SeaweedFSAdapter::directories_listed("/v", &reply(404, None), &broken),
        Err(StorageError::NotFound("/v".to_string()))
    );
    assert_eq!(
        SeaweedFSAdapter::entries_listed("/v", &status(500), &broken),
        Err(unknown("Failed to readdir /v: HTTP 500 Internal Server Error"))
    );
}

fn handle(path: &str) -> FileHandle {
    FileHandle(path.as_bytes().to_vec())
}

#[test]
fn files_are_opened() {
    match adapter().open_file("/f", OpenMode::ReadOnly) {
        OpenStep::Ask(request) => {
            assert_eq!(request.method, Method::Head);
            assert_eq!(request.url, "http://localhost:8888/f");
        }
        OpenStep::Opened(_) => panic!("opened unseen"),
    }
    assert!(matches!(
        adapter().open_file("/f", OpenMode::Create),
        OpenStep::Opened(h) if h == handle("/f")
    ));
    assert_eq!(SeaweedFSAdapter::file_found("/\u{e9}", &status(200)).unwrap(), handle("/\u{e9}"));
    assert_eq!(
        SeaweedFSAdapter::file_found("/f", &status(404)),
        Err(StorageError::FileNotFound("/f".to_string()))
    );
    assert_eq!(adapter().close_file(&handle("/f")), Ok(()));
}

#[test]
fn reads_ask_for_a_range_and_are_capped() {
    let (path, request) = adapter().read_at(&handle("/\u{e9}"), 10, 5).unwrap();
    assert_eq!(path, "/\u{e9}");
    assert_eq!(request.range.as_deref(), Some("bytes=10-14"));
    assert_eq!(
        adapter().read_at(&FileHandle(vec![0xff]), 0, 0).unwrap_err(),
        StorageError::InvalidPath("Invalid file handle".to_string())
    );
    match SeaweedFSAdapter::read_replied("/f", 4, &status(206)) {
        ReadStep::Collect(body) => {
            let body = body.take_chunk(Ok(vec![1, 2])).unwrap();
            let body = body.take_chunk(Ok(vec![3, 4])).unwrap();
            assert_eq!(
                body.take_chunk(Ok(vec![5])).unwrap_err(),
                unknown("SeaweedFS response exceeded 4-byte cap")
            );
        }
        ReadStep::Failed(e) => panic!("{e:?}"),
    }
    assert!(matches!(
        SeaweedFSAdapter::read_replied("/f", 4, &status(404)),
        ReadStep::Failed(StorageError::FileNotFound(p)) if p == "/f"
    ));
    assert!(matches!(
        SeaweedFSAdapter::read_replied("/f", 4, &status(416)),
        ReadStep::Failed(StorageError::Unknown(m))
            if m == "Failed to read file /f: HTTP 416 Range Not Satisfiable"
    ));
    match SeaweedFSAdapter::read_replied("/f", usize::MAX, &status(200)) {
        ReadStep::Collect(body) => assert_eq!(
            format!("{body:?}"),
            format!("{:?}", CappedBody::new(SEAWEEDFS_MAX_RESPONSE_BYTES))
        ),
        ReadStep::Failed(e) => panic!("{e:?}"),
    }
}

#[test]
fn read_capped_body_rejects_oversize_response() {
    // A body of 1 MiB against a cap of 256 KiB, in chunks: the cap is exceeded
    // well before the whole body is taken in.
    let cap: u64 = 256 * 1024;
    let mut body = CappedBody::new(cap);
    let mut taken = 0;
    let result = loop {
        match body.take_chunk(Ok(vec![0u8; 64 * 1024])) {
            Ok(next) => body = next,
            Err(e) => break e,
        }
        taken += 1;
    };
    assert_eq!(taken, 4);
    match result {
        StorageError::Unknown(msg) => {
            assert!(
                msg.contains("exceeded") && msg.contains(&cap.to_string()),
                "expected cap-exceeded error, got: {msg}"
            );
        }
        other => panic!("expected cap-exceeded Err, got {other:?}"),
    }
    assert!(CappedBody::new(cap).take_chunk(Ok(vec![0u8; 1024 * 1024])).is_err());
}

#[test]
fn read_capped_body_returns_body_under_cap() {
    let body = vec![0xABu8; 1024];
    let got = CappedBody::new(4096).take_chunk(Ok(body.clone())).expect("should succeed");
    assert_eq!(got.finish(), body);
}

#[test]
fn broken_bodies_are_errors() {
    assert_eq!(
        CappedBody::new(1).take_chunk(Err("reset".to_string())).unwrap_err(),
        unknown("body stream error: reset")
    );
}

#[test]
fn writes_are_spliced_into_what_is_there() {
    assert_eq!(splice(vec![1, 2, 3, 4], 1, &[9, 9]), vec![1, 9, 9, 4]);
    assert_eq!(splice(vec![1], 3, &[7]), vec![1, 0, 0, 7]);
    assert_eq!(splice(vec![1, 2], 2, &[]), vec![1, 2]);
    assert_eq!(splice(vec![], 2, &[]), vec![0, 0]);
    let (path, step) = adapter().write_at(&handle("/f"), 0, &[1, 2]).unwrap();
    assert_eq!(path, "/f");
    match step {
        WriteStep::Store(request) => {
            assert_eq!(request.method, Method::Put);
            assert_eq!(request.body, vec![1, 2]);
        }
        WriteStep::Fetch(_) => panic!("fetched in vain"),
    }
    let (_, step) = adapter().write_at(&handle("/f"), 1, &[5]).unwrap();
    assert!(matches!(step, WriteStep::Fetch(request) if request.method == Method::Get));
    let request = adapter().write_fetched("/f", 1, &[5], Some((status(200), Ok(vec![1, 2, 3]))));
    assert_eq!(request.body, vec![1, 5, 3]);
    assert_eq!(request.url, "http://localhost:8888/f");
    let request = adapter().write_fetched("/f", 1, &[5], Some((status(404), Ok(vec![1, 2, 3]))));
    assert_eq!(request.body, vec![0, 5]);
    let request = adapter().write_fetched("/f", 1, &[5], None);
    assert_eq!(request.body, vec![0, 5]);
    assert_eq!(SeaweedFSAdapter::fetch_body().finish(), Vec::<u8>::new());
    assert_eq!(SeaweedFSAdapter::write_replied("/f", 2, &status(201)), Ok(2));
    assert_eq!(
        SeaweedFSAdapter::write_replied("/f", 2, &status(507)),
        Err(unknown("Failed to write file /f: HTTP 507 Insufficient Storage"))
    );
    assert!(adapter().write_at(&FileHandle(vec![0xc0]), 0, &[]).is_err());
}

#[test]
fn file_attributes_come_from_headers() {
    let size = Some("42".to_string());
    let date = Some("Fri, 13 Feb 2009 23:31:30 GMT".to_string());
    let attrs =
        SeaweedFSAdapter::stat_replied_at("/f", &status(200), &size, &date, 7).unwrap();
    assert_eq!(
        attrs,
        FileAttributes {
            file_type: FileType::File,
            size: 42,
            mtime: 1_234_567_890,
            atime: 1_234_567_890,
            ctime: 1_234_567_890,
            mode: 0o644,
            uid: 1000,
            gid: 1000,
            nlink: 1,
        }
    );
    let odd = Some("-1".to_string());
    let attrs = SeaweedFSAdapter::stat_replied_at("/f", &status(200), &odd, &odd, 7).unwrap();
    assert_eq!((attrs.size, attrs.mtime), (0, 7));
    let attrs = SeaweedFSAdapter::stat_replied("/f", &status(200), &None, &None).unwrap();
    assert_eq!(attrs.size, 0);
    assert!(attrs.mtime > 1_700_000_000);
    assert_eq!(adapter().stat("/f").method, Method::Head);
    assert_eq!(
        SeaweedFSAdapter::stat_replied("/f", &status(404), &None, &None),
        Err(StorageError::FileNotFound("/f".to_string()))
    );
    assert_eq!(
        SeaweedFSAdapter::stat_replied("/f", &status(500), &None, &None),
        Err(unknown("Failed to stat /f: HTTP 500 Internal Server Error"))
    );
}

#[test]
fn files_are_created_and_deleted() {
    assert_eq!(adapter().create_file("/f", 0o644).method, Method::Put);
    assert_eq!(SeaweedFSAdapter::file_created("/f", &status(201)).unwrap(), handle("/f"));
    assert_eq!(
        SeaweedFSAdapter::file_created("/f", &status(409)),
        Err(unknown("Failed to create file /f: HTTP 409 Conflict"))
    );
    assert_eq!(adapter().delete_file("/f").method, Method::Delete);
    assert_eq!(SeaweedFSAdapter::file_deleted("/f", &status(204)), Ok(()));
    assert_eq!(
        SeaweedFSAdapter::file_deleted("/f", &status(404)),
        Err(StorageError::FileNotFound("/f".to_string()))
    );
    assert_eq!(
        SeaweedFSAdapter::file_deleted("/f", &status(299)),
        Err(unknown("Failed to delete file /f: HTTP 299 <unknown status code>"))
    );
}

fn rename(codes: &[u16], body: Result<Vec<u8>, StorageError>) -> (Vec<Method>, Result<(), StorageError>) {
    let mut stage = SeaweedFSAdapter::rename();
    let mut methods = Vec::new();
    let mut body = Some(body);
    for code in codes {
        let request = adapter().rename_request("/from", "/to", &stage);
        methods.push(request.method);
        let mut step = SeaweedFSAdapter::rename_replied("/from", "/to", &stage, &status(*code));
        if let RenameStep::Collect(_) = step {
            step = SeaweedFSAdapter::rename_collected(body.take().unwrap());
        }
        match step {
            RenameStep::Next(next) => stage = next,
            RenameStep::Done(result) => return (methods, result),
            RenameStep::Collect(_) => panic!("collected twice"),
        }
    }
    panic!("not done");
}

#[test]
fn renames_copy_and_then_delete() {
    let (methods, result) = rename(&[200, 200, 201, 204], Ok(vec![1, 2]));
    assert_eq!(result, Ok(()));
    assert_eq!(methods, vec![Method::Head, Method::Get, Method::Post, Method::Delete]);
    let (methods, result) = rename(&[404], Ok(vec![]));
    assert_eq!(result, Err(StorageError::FileNotFound("/from".to_string())));
    assert_eq!(methods.len(), 1);
    let (_, result) = rename(&[200, 500], Ok(vec![]));
    assert_eq!(result, Err(unknown("Failed to read source file /from")));
    let (methods, result) = rename(&[200, 200], Err(unknown("too long")));
    assert_eq!(result, Err(unknown("too long")));
    assert_eq!(methods, vec![Method::Head, Method::Get]);
    let (methods, result) = rename(&[200, 200, 500], Ok(vec![]));
    assert_eq!(result, Err(unknown("Failed to write destination file /to")));
    assert!(!methods.contains(&Method::Delete));
    let (_, result) = rename(&[200, 200, 200, 500], Ok(vec![]));
    assert_eq!(
        result,
        Err(unknown("Rename from /from to /to failed on cleanup: source file still exists"))
    );
}

#[test]
fn statuses_have_three_digits() {
    assert!(HttpStatus::new(99).is_none());
    assert!(HttpStatus::new(1000).is_none());
    assert_eq!(status(404).to_string(), "404 Not Found");
    assert_eq!(status(204).code(), 204);
    assert!(status(299).is_success() && !status(300).is_success());
}

// Calls of other nodes.

fn node(bits: u128) -> NodeId {
    NodeId(Uuid { bits })
}

fn refusal(code: Code, message: &str) -> Status {
    Status { code, message: message.to_string() }
}

fn signed(payload: &[u8]) -> (NodeEnvelope, Vec<u8>) {
    let key = SigningKey::from_bytes(&[7u8; 32]);
    let envelope = NodeEnvelope {
        node_security_token: "token".to_string(),
        payload: payload.to_vec(),
        signature: key.sign(payload).to_bytes().to_vec(),
    };
    (envelope, key.verifying_key().to_bytes().to_vec())
}

fn authenticate(
    envelope: Option<NodeEnvelope>,
    claims: Result<NodeId, String>,
    peer: Result<Option<Vec<u8>>, String>,
) -> Result<NodeId, Status> {
    RemoteStorageServiceHandler::authenticate(&envelope, &claims, &peer)
}

#[test]
fn signed_envelopes_are_authenticated() {
    let (envelope, key) = signed(b"payload");
    assert_eq!(authenticate(Some(envelope), Ok(node(3)), Ok(Some(key))), Ok(node(3)));
}

#[test]
fn other_envelopes_are_refused() {
    let (_, key) = signed(b"payload");
    assert_eq!(
        authenticate(None, Ok(node(3)), Ok(Some(key.clone()))),
        Err(refusal(Code::Unauthenticated, "Missing security envelope"))
    );
    assert_eq!(
        authenticate(Some(signed(b"x").0), Err("expired".to_string()), Ok(None)),
        Err(refusal(Code::Unauthenticated, "Invalid token: expired"))
    );
    assert_eq!(
        authenticate(Some(signed(b"x").0), Ok(node(3)), Err("down".to_string())),
        Err(refusal(Code::Internal, "Database error: down"))
    );
    assert_eq!(
        authenticate(Some(signed(b"x").0), Ok(node(3)), Ok(None)),
        Err(refusal(Code::Unauthenticated, "Node not registered"))
    );
    assert_eq!(
        authenticate(Some(signed(b"x").0), Ok(node(3)), Ok(Some(vec![1, 2]))),
        Err(refusal(Code::Internal, "Invalid stored public key length"))
    );
    let (mut envelope, key) = signed(b"payload");
    envelope.payload.push(0);
    let tampered = authenticate(Some(envelope), Ok(node(3)), Ok(Some(key.clone()))).unwrap_err();
    assert_eq!(tampered.code, Code::Unauthenticated);
    assert!(tampered.message.starts_with("Signature verification failed: signature error"));
    let (mut envelope, _) = signed(b"payload");
    envelope.signature.pop();
    assert_eq!(
        authenticate(Some(envelope), Ok(node(3)), Ok(Some(key))),
        Err(refusal(Code::Unauthenticated, "Invalid signature format: signature error"))
    );
    let mut no_point = vec![0xffu8; 32];
    no_point[0] = 2;
    let mut refused = false;
    for first in 0..=255u8 {
        no_point[0] = first;
        let result = authenticate(Some(signed(b"x").0), Ok(node(3)), Ok(Some(no_point.clone())));
        let error = result.unwrap_err();
        refused = refused
            || (error.code == Code::Internal
                && error.message.starts_with("Invalid stored public key: signature error"));
    }
    assert!(refused);
}

#[test]
fn authentication_goes_step_by_step() {
    let (envelope, _) = signed(b"x");
    assert_eq!(
        RemoteStorageServiceHandler::begin_authentication(&Some(envelope)),
        Ok("token".to_string())
    );
    assert!(RemoteStorageServiceHandler::begin_authentication(&None).is_err());
    assert_eq!(RemoteStorageServiceHandler::token_read(&Ok(node(1))), Ok(node(1)));
    assert!(RemoteStorageServiceHandler::token_read(&Err("x".to_string())).is_err());
}

const VOLUME: &str = "550e8400-e29b-41d4-a716-446655440000";

#[test]
fn calls_carry_their_provenance() {
    let handler = RemoteStorageServiceHandler::new(node(1));
    let call = handler.on_volume(node(2), VOLUME).unwrap();
    assert_eq!(call.volume_id.0.to_string(), VOLUME);
    assert_eq!(call.caller_node_id, node(2));
    assert_eq!(call.host_node_id, node(1));
    assert_eq!(
        call.execution_id.0.to_string(),
        "00000000-0000-4000-8000-000000000001"
    );
    let error = handler.on_volume(node(2), "nope").unwrap_err();
    assert_eq!(error.code, Code::InvalidArgument);
    assert!(error.message.starts_with("Invalid volume_id: "));
    let policy = RemoteStorageServiceHandler::system_policy();
    assert_eq!((policy.read, policy.write), (vec!["/**".to_string()], vec!["/**".to_string()]));
}

#[test]
fn open_files_are_known_until_closed() {
    let mut handler = RemoteStorageServiceHandler::new(node(1));
    let volume = VolumeId(Uuid { bits: 4 });
    let canonical = Ok(Some("\\workspace\\f".to_string()));
    let opened = handler.file_opened(volume, &canonical, &Ok(vec![1, 2, 3]));
    assert_eq!(opened, Ok(vec![1, 2, 3]));
    let call = handler.on_handle(node(2), &vec![1, 2, 3]).unwrap();
    assert_eq!(call.path, "/workspace/f");
    assert_eq!(call.provenance.volume_id, volume);
    assert_eq!(
        handler.on_handle(node(2), &vec![9]),
        Err(refusal(Code::InvalidArgument, "Unknown file handle"))
    );
    let reopened = handler.file_reopened(VolumeId(Uuid { bits: 5 }), &Ok(None), &Ok(vec![1, 2, 3]));
    assert_eq!(reopened, Ok(vec![1, 2, 3]));
    assert_eq!(handler.on_handle(node(2), &vec![1, 2, 3]).unwrap().path, "/");
    let closed = handler.close_handle(node(2), &vec![1, 2, 3]).unwrap();
    assert_eq!(closed.provenance.volume_id, VolumeId(Uuid { bits: 5 }));
    assert!(handler.close_handle(node(2), &vec![1, 2, 3]).is_err());
    let blocked = handler.file_opened(volume, &Err("escape".to_string()), &Ok(vec![7]));
    assert_eq!(blocked, Err(refusal(Code::InvalidArgument, "Path traversal blocked: escape")));
    assert!(handler.on_handle(node(2), &vec![7]).is_err());
    let failed = handler.file_opened(
        volume,
        &canonical,
        &Err(FsalError::PolicyViolation("denied".to_string())),
    );
    assert_eq!(failed, Err(refusal(Code::PermissionDenied, "denied")));
}

#[test]
fn created_files_are_opened_again_in_the_store() {
    let canonical = Ok(Some("/f".to_string()));
    assert_eq!(
        RemoteStorageServiceHandler::file_created(VOLUME, &canonical, &Ok(())),
        Ok(format!("/aegis/volumes/{VOLUME}/f"))
    );
    assert_eq!(
        RemoteStorageServiceHandler::file_created(
            VOLUME,
            &canonical,
            &Err(FsalError::QuotaExceeded("full".to_string()))
        ),
        Err(refusal(Code::ResourceExhausted, "full"))
    );
    assert_eq!(
        RemoteStorageServiceHandler::store_call("v", &Ok(Some("/p".to_string()))),
        Ok("/aegis/volumes/v/p".to_string())
    );
    assert!(RemoteStorageServiceHandler::store_call("v", &Err("x".to_string())).is_err());
}

#[test]
fn errors_go_back_with_their_code() {
    let m = || "m".to_string();
    for (error, code) in [
        (FsalError::UnauthorizedAccess(m()), Code::PermissionDenied),
        (FsalError::VolumeNotFound(m()), Code::NotFound),
        (FsalError::VolumeNotAttached(m()), Code::FailedPrecondition),
        (FsalError::PathSanitization(m()), Code::InvalidArgument),
        (FsalError::PolicyViolation(m()), Code::PermissionDenied),
        (FsalError::InvalidFileHandle(m()), Code::InvalidArgument),
        (FsalError::HandleDeserialization(m()), Code::InvalidArgument),
        (FsalError::QuotaExceeded(m()), Code::ResourceExhausted),
        (FsalError::Storage(StorageError::NotFound(m())), Code::NotFound),
        (FsalError::Storage(StorageError::FileNotFound(m())), Code::NotFound),
        (FsalError::Storage(StorageError::PermissionDenied(m())), Code::PermissionDenied),
        (FsalError::Storage(StorageError::AlreadyExists(m())), Code::AlreadyExists),
        (FsalError::Storage(StorageError::Unavailable(m())), Code::Unavailable),
        (FsalError::Storage(StorageError::InvalidPath(m())), Code::InvalidArgument),
    ] {
        assert_eq!(
            RemoteStorageServiceHandler::fsal_err_to_status(&error),
            refusal(code, "m")
        );
    }
    assert_eq!(
        RemoteStorageServiceHandler::storage_err_to_status(&StorageError::QuotaExceeded {
            limit_bytes: 1
        }),
        refusal(Code::ResourceExhausted, "quota exceeded")
    );
    for error in [StorageError::Unknown(m()), StorageError::Serialization(m())] {
        assert_eq!(
            RemoteStorageServiceHandler::storage_err_to_status(&error),
            refusal(Code::Internal, &error.to_string())
        );
    }
}

#[test]
fn modes_and_types_have_numbers() {
    assert_eq!(RemoteStorageServiceHandler::proto_mode_to_open_mode(0), OpenMode::ReadOnly);
    assert_eq!(RemoteStorageServiceHandler::proto_mode_to_open_mode(1), OpenMode::WriteOnly);
    assert_eq!(RemoteStorageServiceHandler::proto_mode_to_open_mode(2), OpenMode::ReadWrite);
    assert_eq!(RemoteStorageServiceHandler::proto_mode_to_open_mode(3), OpenMode::Create);
    assert_eq!(RemoteStorageServiceHandler::proto_mode_to_open_mode(-4), OpenMode::ReadOnly);
    assert_eq!(RemoteStorageServiceHandler::file_type_to_proto(FileType::File), 0);
    assert_eq!(RemoteStorageServiceHandler::file_type_to_proto(FileType::Directory), 1);
    assert_eq!(RemoteStorageServiceHandler::file_type_to_proto(FileType::Symlink), 2);
}

#[test]
fn answers_carry_results() {
    let ok = RemoteStorageServiceHandler::done(&Ok(())).unwrap();
    assert!(ok.success && ok.error_message.is_empty());
    assert!(RemoteStorageServiceHandler::store_done(&Ok(())).is_ok());
    assert_eq!(RemoteStorageServiceHandler::usage(&Ok(9)), Ok(9));
    assert_eq!(RemoteStorageServiceHandler::data_read(Ok(vec![42])), Ok(vec![42]));
    assert_eq!(RemoteStorageServiceHandler::data_written(&Ok(100)), Ok(100));
    let attrs = FileAttributes {
        file_type: FileType::Directory,
        size: 100,
        mtime: 1,
        atime: 2,
        ctime: 3,
        mode: 0o755,
        uid: 4,
        gid: 5,
        nlink: 6,
    };
    let answer = RemoteStorageServiceHandler::attributes(&Ok(attrs)).unwrap();
    assert_eq!((answer.file_type, answer.size, answer.nlink), (1, 100, 6));
    let entries =
        Ok(vec![DirEntry { name: "a".to_string(), file_type: FileType::Symlink }]);
    let answer = RemoteStorageServiceHandler::entries(&entries).unwrap();
    assert_eq!((answer[0].name.as_str(), answer[0].file_type), ("a", 2));
    let gone = || FsalError::VolumeNotFound("v".to_string());
    assert!(RemoteStorageServiceHandler::done(&Err(gone())).is_err());
    assert!(RemoteStorageServiceHandler::data_written(&Err(gone())).is_err());
    assert!(RemoteStorageServiceHandler::data_read(Err(gone())).is_err());
    assert!(RemoteStorageServiceHandler::attributes(&Err(gone())).is_err());
    assert!(RemoteStorageServiceHandler::entries(&Err(gone())).is_err());
}

// The container runtime.

#[test]
fn running_containers_are_verified() {
    assert!(verify_container_running("c", Ok(Some(Some(true)))).is_ok());
    for state in [None, Some(None), Some(Some(false))] {
        assert_eq!(
            verify_container_running("c", Ok(state)).unwrap_err().to_string(),
            "Container 'c' is not in a running state"
        );
    }
    assert_eq!(
        verify_container_running("c", Err("timeout".to_string())).unwrap_err().to_string(),
        "Docker inspect failed for container 'c': timeout"
    );
}

#[test]
fn runtimes_are_reached_through_their_socket() {
    let default = BollardContainerVerifier::new(None, None);
    assert_eq!(default.socket_path, "/var/run/docker.sock");
    assert_eq!(default.timeout_secs, VERIFIER_TIMEOUT_SECS);
    assert_eq!(VERIFIER_TIMEOUT_SECS, 5);
    let socket = |path: Option<&str>, host: Option<&str>| {
        BollardContainerVerifier::new(path, host).socket_path
    };
    assert_eq!(socket(Some("/run/podman.sock"), Some("unix:///x")), "/run/podman.sock");
    assert_eq!(socket(None, Some("unix:///run/user/1/docker.sock")), "unix:///run/user/1/docker.sock");
    assert_eq!(socket(None, Some("tcp://10.0.0.1:2375")), "/var/run/docker.sock");
}

#[test]
fn verifier_fails_fast_when_socket_unreachable() {
    let verifier = BollardContainerVerifier::new(Some("/tmp/verifier.sock"), None);
    assert!(verifier.timeout_secs < 10, "verifier must fail within 10s");
    let inner = verify_container_running("any-container", Err("Timeout error".to_string()));
    assert!(
        inner.is_err(),
        "verifier pointed at a silent socket must return a timeout error"
    );
}

#[test]
fn verifier_uses_configured_socket_path() {
    let verifier_a = BollardContainerVerifier::new(Some("/tmp/a/a.sock"), None);
    let verifier_b = BollardContainerVerifier::new(Some("/tmp/b/b.sock"), None);
    assert_eq!(verifier_a.socket_path, "/tmp/a/a.sock");
    assert_eq!(verifier_b.socket_path, "/tmp/b/b.sock");
    for verifier in [verifier_a, verifier_b] {
        assert!(verifier.timeout_secs < 10);
        assert!(verify_container_running("c", Err("Timeout error".to_string())).is_err());
    }
}
