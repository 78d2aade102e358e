//! The SeaweedFS filer behind its HTTP interface: the requests that an
//! operation makes, and what it makes of the answers.

use vstd::prelude::*;
use crate::domain::storage::{
    DirEntry, FileAttributes, FileHandle, FileType, OpenMode, StorageError,
};
use crate::infrastructure::storage::http;
use crate::infrastructure::storage::http::{
    HttpReply, HttpRequest, HttpStatus, Method, RequestView,
};
use crate::infrastructure::storage::paths;
use crate::infrastructure::storage::paths::{last_segment, list_ancestors, trim_trailing_slashes};
use crate::support::clock;
use crate::support::clock::{parse_rfc2822, Span, Timestamp};
use crate::support::text;
use crate::support::text::{decimal, parse_number, starts_with, text_from_utf8};

verus! {

/// The most bytes that are taken in from one answer, whatever the filer sends.
/// Larger files are read in ranges.
pub const SEAWEEDFS_MAX_RESPONSE_BYTES: u64 = 104_857_600;

/// How many seconds a request may take by default.
pub const DEFAULT_TIMEOUT_SECS: u64 = 30;

/// How many seconds a health check may take.
pub const HEALTH_TIMEOUT_SECS: u64 = 5;

/// A filer, by the URL that it answers under.
#[derive(Debug)]
pub struct SeaweedFSAdapter {
    pub filer_url: String,
    pub timeout: Span,
}

/// One entry of a directory listing, as the filer sends it.
#[derive(Debug)]
pub struct DirectoryEntry {
    pub name: String,
    pub is_directory: bool,
}

/// Whether a path is absolute.
pub open spec fn absolute(path: Seq<char>) -> bool {
    path.len() > 0 && path[0] == '/'
}

/// Refuses a path that is not absolute.
pub fn check_path(path: &str) -> (r: Result<(), StorageError>)
    ensures
        r is Ok <==> absolute(path@),
        r is Err ==> r->Err_0.is_invalid_path("Path must start with /"@),
{
    proof {
        reveal_strlit("/");
        assert("/"@.is_prefix_of(path@) <==> absolute(path@)) by {
            if path@.len() > 0 {
                assert(path@.subrange(0, 1)[0] == path@[0]);
                assert("/"@[0] == '/');
                assert(absolute(path@) ==> "/"@ =~= path@.subrange(0, 1));
            }
        }
    }
    if starts_with(path, "/") {
        Ok(())
    } else {
        Err(StorageError::InvalidPath("Path must start with /".to_owned()))
    }
}

impl SeaweedFSAdapter {
    /// The filer under the given URL.
    pub fn new(filer_url: &str) -> (r: SeaweedFSAdapter)
        ensures
            r.filer_url@ == filer_url@,
            r.timeout@ == (DEFAULT_TIMEOUT_SECS, 0u32),
    {
        SeaweedFSAdapter::with_timeout(filer_url, Span::from_secs(DEFAULT_TIMEOUT_SECS))
    }

    /// The filer under the given URL, with a deadline for each request.
    pub fn with_timeout(filer_url: &str, timeout: Span) -> (r: SeaweedFSAdapter)
        ensures
            r.filer_url@ == filer_url@,
            r.timeout == timeout,
    {
        SeaweedFSAdapter { filer_url: filer_url.to_owned(), timeout }
    }

    /// The URL of a path on the filer.
    pub fn build_url(&self, path: &str) -> (r: String)
        ensures
            r@ == self.filer_url@ + path@,
    {
        self.filer_url.clone().concat(path)
    }
}

/// The path of the empty file that makes a directory real: directories are
/// metadata only until a file stands in them.
pub open spec fn keep_path(path: Seq<char>) -> Seq<char> {
    paths::without_trailing_slashes(path) + "/.keep"@
}

/// The requests that create a directory: one for each directory on the way, the
/// outermost first, as the filer makes none by itself; then the empty file.
pub open spec fn creation_requests(filer: Seq<char>, path: Seq<char>) -> Seq<RequestView> {
    let dirs = paths::ancestors(path);
    Seq::new(
        dirs.len() + 1,
        |i: int|
            if i < dirs.len() {
                RequestView {
                    form: seq![("path"@, dirs[i])],
                    ..http::plain(Method::Post, filer + "/dir/"@)
                }
            } else {
                http::plain(Method::Put, filer + keep_path(path))
            },
    )
}

/// A directory that is being created: which of its requests comes next.
#[derive(Debug)]
pub struct DirectoryCreation {
    filer_url: String,
    path: String,
    dirs: Vec<String>,
    next: usize,
}

/// The contents of a [`DirectoryCreation`].
pub ghost struct CreationView {
    pub filer: Seq<char>,
    pub path: Seq<char>,
    pub next: int,
}

/// What follows an answer.
#[derive(Debug)]
pub enum CreationStep {
    Next(DirectoryCreation),
    Done(Result<(), StorageError>),
}

impl View for DirectoryCreation {
    type V = CreationView;

    closed spec fn view(&self) -> CreationView {
        CreationView { filer: self.filer_url@, path: self.path@, next: self.next as int }
    }
}

/// Whether an answer lets the creation of a directory go on. That a directory
/// on the way exists already does.
pub open spec fn creation_goes_on(path: Seq<char>, next: int, code: u16) -> bool {
    if next < paths::ancestors(path).len() {
        code == 200 || code == 201 || code == 409
    } else {
        http::success(code)
    }
}

/// Why the creation of a directory fails on an answer.
pub open spec fn creation_fault(path: Seq<char>, next: int, reply: HttpReply) -> Seq<char> {
    if next < paths::ancestors(path).len() {
        "Failed to create directory "@ + paths::ancestors(path)[next] + ": "@ + reply.detail()
    } else {
        "Failed to write .keep sentinel to "@ + keep_path(path) + ": HTTP "@ + http::status_text(
            reply.status@,
        )
    }
}

impl DirectoryCreation {
    #[verifier::type_invariant]
    spec fn well_formed(self) -> bool {
        &&& text::texts(self.dirs@) == paths::ancestors(self.path@)
        &&& self.next <= self.dirs@.len()
    }

    /// The request that comes next.
    pub fn request(&self) -> (r: HttpRequest)
        ensures
            0 <= self@.next < creation_requests(self@.filer, self@.path).len(),
            r@ == creation_requests(self@.filer, self@.path)[self@.next],
    {
        proof {
            use_type_invariant(self);
            assert(text::texts(self.dirs@).len() == self.dirs@.len());
        }
        if self.next < self.dirs.len() {
            let url = self.filer_url.clone().concat("/dir/");
            let r = HttpRequest::new(Method::Post, url).with_field(
                "path",
                self.dirs[self.next].as_str(),
            );
            proof {
                assert(paths::ancestors(self.path@)[self.next as int]
                    == self.dirs@[self.next as int]@);
                assert(r@.form =~= seq![("path"@, self.dirs@[self.next as int]@)]);
            }
            r
        } else {
            HttpRequest::new(Method::Put, self.filer_url.clone().concat(self.keep().as_str()))
        }
    }

    fn keep(&self) -> (r: String)
        ensures
            r@ == keep_path(self@.path),
    {
        trim_trailing_slashes(self.path.as_str()).concat("/.keep")
    }

    /// What follows the answer to the request.
    pub fn replied(self, reply: &HttpReply) -> (r: CreationStep)
        ensures
            creation_goes_on(self@.path, self@.next, reply.status@) ==> if self@.next + 1
                < creation_requests(self@.filer, self@.path).len() {
                r matches CreationStep::Next(c) && c@ == (CreationView {
                    next: self@.next + 1,
                    ..self@
                })
            } else {
                r == CreationStep::Done(Ok(()))
            },
            !creation_goes_on(self@.path, self@.next, reply.status@) ==> (r matches
                CreationStep::Done(Err(e)) && e.is_unknown(
                creation_fault(self@.path, self@.next, *reply),
            )),
    {
        proof {
            use_type_invariant(&self);
            assert(text::texts(self.dirs@).len() == self.dirs@.len());
        }
        let code: u16 = reply.status.code();
        if self.next < self.dirs.len() {
            if code == 200 || code == 201 || code == 409 {
                let next: usize = self.next + 1;
                return CreationStep::Next(
                    DirectoryCreation {
                        filer_url: self.filer_url,
                        path: self.path,
                        dirs: self.dirs,
                        next,
                    },
                );
            }
            proof {
                assert(paths::ancestors(self.path@)[self.next as int]
                    == self.dirs@[self.next as int]@);
            }
            let message = "Failed to create directory ".to_owned().concat(
                self.dirs[self.next].as_str(),
            ).concat(": ").concat(reply.error_detail().as_str());
            CreationStep::Done(Err(StorageError::Unknown(message)))
        } else if reply.status.is_success() {
            CreationStep::Done(Ok(()))
        } else {
            let message = "Failed to write .keep sentinel to ".to_owned().concat(
                self.keep().as_str(),
            ).concat(": HTTP ").concat(reply.status.to_string().as_str());
            CreationStep::Done(Err(StorageError::Unknown(message)))
        }
    }
}

/// What an answer comes to, where some statuses are success and others say that
/// the path leads nowhere.
fn refused(what: &str, path: &str, reply: &HttpReply) -> (r: StorageError)
    ensures
        r.is_unknown(what@ + path@ + ": "@ + reply.detail()),
{
    StorageError::Unknown(
        what.to_owned().concat(path).concat(": ").concat(reply.error_detail().as_str()),
    )
}

fn failed_with(what: &str, path: &str, status: &HttpStatus) -> (r: StorageError)
    ensures
        r.is_unknown(what@ + path@ + ": HTTP "@ + http::status_text(status@)),
{
    StorageError::Unknown(
        what.to_owned().concat(path).concat(": HTTP ").concat(status.to_string().as_str()),
    )
}

impl SeaweedFSAdapter {
    /// Begins to create a directory.
    pub fn create_directory(&self, path: &str) -> (r: Result<DirectoryCreation, StorageError>)
        ensures
            r is Ok <==> absolute(path@),
            r is Ok ==> r->Ok_0@ == (CreationView {
                filer: self.filer_url@,
                path: path@,
                next: 0,
            }),
            r is Err ==> r->Err_0.is_invalid_path("Path must start with /"@),
    {
        match check_path(path) {
            Ok(_) => {
                let dirs = list_ancestors(path);
                let owned = path.to_owned();
                Ok(
                    DirectoryCreation {
                        filer_url: self.filer_url.clone(),
                        path: owned,
                        dirs,
                        next: 0,
                    },
                )
            },
            Err(e) => Err(e),
        }
    }

    /// The request that deletes a directory with all that it holds.
    pub fn delete_directory(&self, path: &str) -> (r: Result<HttpRequest, StorageError>)
        ensures
            r is Ok <==> absolute(path@),
            r is Ok ==> r->Ok_0@ == (RequestView {
                query: seq![("path"@, path@), ("recursive"@, "true"@)],
                ..http::plain(Method::Delete, self.filer_url@ + "/dir/"@)
            }),
            r is Err ==> r->Err_0.is_invalid_path("Path must start with /"@),
    {
        match check_path(path) {
            Ok(_) => {
                let r = HttpRequest::new(Method::Delete, self.build_url("/dir/")).with_query(
                    "path",
                    path,
                ).with_query("recursive", "true");
                proof {
                    assert(r@.query =~= seq![("path"@, path@), ("recursive"@, "true"@)]);
                }
                Ok(r)
            },
            Err(e) => Err(e),
        }
    }

    /// What the deletion of a directory comes to.
    pub fn directory_deleted(path: &str, reply: &HttpReply) -> (r: Result<(), StorageError>)
        ensures
            r is Ok <==> reply.status@ == 204 || reply.status@ == 200,
            r is Err && reply.status@ == 404 ==> r->Err_0.is_not_found(path@),
            r is Err && reply.status@ != 404 ==> r->Err_0.is_unknown(
                "Failed to delete directory "@ + path@ + ": "@ + reply.detail(),
            ),
    {
        let code: u16 = reply.status.code();
        if code == 204 || code == 200 {
            Ok(())
        } else if code == 404 {
            Err(StorageError::NotFound(path.to_owned()))
        } else {
            Err(refused("Failed to delete directory ", path, reply))
        }
    }

    /// The request that limits what a directory may hold.
    pub fn set_quota(&self, path: &str, bytes: u64) -> (r: Result<HttpRequest, StorageError>)
        ensures
            r is Ok <==> absolute(path@),
            r is Ok ==> r->Ok_0@ == (RequestView {
                form: seq![("path"@, path@), ("bytes"@, text::decimal_digits(bytes as nat))],
                ..http::plain(Method::Post, self.filer_url@ + "/quota"@)
            }),
            r is Err ==> r->Err_0.is_invalid_path("Path must start with /"@),
    {
        match check_path(path) {
            Ok(_) => {
                let r = HttpRequest::new(Method::Post, self.build_url("/quota")).with_field(
                    "path",
                    path,
                ).with_field("bytes", decimal(bytes).as_str());
                proof {
                    assert(r@.form =~= seq![
                        ("path"@, path@),
                        ("bytes"@, text::decimal_digits(bytes as nat)),
                    ]);
                }
                Ok(r)
            },
            Err(e) => Err(e),
        }
    }

    /// What the limit comes to.
    pub fn quota_set(path: &str, reply: &HttpReply) -> (r: Result<(), StorageError>)
        ensures
            r is Ok <==> reply.status@ == 200 || reply.status@ == 201,
            r is Err && reply.status@ == 404 ==> r->Err_0.is_not_found(path@),
            r is Err && reply.status@ != 404 ==> r->Err_0.is_unknown(
                "Failed to set quota for "@ + path@ + ": "@ + reply.detail(),
            ),
    {
        let code: u16 = reply.status.code();
        if code == 200 || code == 201 {
            Ok(())
        } else if code == 404 {
            Err(StorageError::NotFound(path.to_owned()))
        } else {
            Err(refused("Failed to set quota for ", path, reply))
        }
    }

    /// The request for how much a directory holds.
    pub fn get_usage(&self, path: &str) -> (r: Result<HttpRequest, StorageError>)
        ensures
            r is Ok <==> absolute(path@),
            r is Ok ==> r->Ok_0@ == (RequestView {
                accept_json: true,
                query: seq![("path"@, path@)],
                ..http::plain(Method::Get, self.filer_url@ + "/dir/status"@)
            }),
            r is Err ==> r->Err_0.is_invalid_path("Path must start with /"@),
    {
        match check_path(path) {
            Ok(_) => {
                let r = HttpRequest::new(
                    Method::Get,
                    self.build_url("/dir/status"),
                ).for_json().with_query("path", path);
                proof {
                    assert(r@.query =~= seq![("path"@, path@)]);
                }
                Ok(r)
            },
            Err(e) => Err(e),
        }
    }

    /// How much a directory holds. `total_size` is what the answer's document
    /// gives for it, or why it was not understood. A directory that the filer
    /// has no record of holds nothing yet.
    pub fn usage_known(
        path: &str,
        reply: &HttpReply,
        total_size: Result<u64, String>,
    ) -> (r: Result<u64, StorageError>)
        ensures
            reply.status@ == 200 ==> match total_size {
                Ok(n) => r == Ok::<u64, StorageError>(n),
                Err(e) => r is Err && r->Err_0.is_serialization(e@),
            },
            reply.status@ == 404 ==> r == Ok::<u64, StorageError>(0),
            reply.status@ != 200 && reply.status@ != 404 ==> r is Err && r->Err_0.is_unknown(
                "Failed to get usage for "@ + path@ + ": "@ + reply.detail(),
            ),
    {
        let code: u16 = reply.status.code();
        if code == 200 {
            match total_size {
                Ok(n) => Ok(n),
                Err(e) => Err(StorageError::Serialization(e)),
            }
        } else if code == 404 {
            Ok(0)
        } else {
            Err(refused("Failed to get usage for ", path, reply))
        }
    }

    /// The request that shows whether the filer answers.
    pub fn health_check(&self) -> (r: HttpRequest)
        ensures
            r@ == (RequestView {
                timeout_secs: Some(HEALTH_TIMEOUT_SECS),
                ..http::plain(Method::Get, self.filer_url@ + "/"@)
            }),
    {
        HttpRequest::new(Method::Get, self.build_url("/")).within(HEALTH_TIMEOUT_SECS)
    }

    /// Whether the filer is well.
    pub fn health_known(status: &HttpStatus) -> (r: Result<(), StorageError>)
        ensures
            r is Ok <==> http::success(status@),
            r is Err ==> r->Err_0.is_unavailable(
                "Filer returned status "@ + http::status_text(status@),
            ),
    {
        if status.is_success() {
            Ok(())
        } else {
            Err(
                StorageError::Unavailable(
                    "Filer returned status ".to_owned().concat(status.to_string().as_str()),
                ),
            )
        }
    }

    /// The request for a listing of a directory.
    fn listing(&self, path: &str) -> (r: HttpRequest)
        ensures
            r@ == (RequestView {
                accept_json: true,
                ..http::plain(Method::Get, self.filer_url@ + path@)
            }),
    {
        HttpRequest::new(Method::Get, self.build_url(path)).for_json()
    }

    /// The request for the directories within a directory.
    pub fn list_directories(&self, path: &str) -> (r: Result<HttpRequest, StorageError>)
        ensures
            r is Ok <==> absolute(path@),
            r is Ok ==> r->Ok_0@ == (RequestView {
                accept_json: true,
                ..http::plain(Method::Get, self.filer_url@ + path@)
            }),
            r is Err ==> r->Err_0.is_invalid_path("Path must start with /"@),
    {
        match check_path(path) {
            Ok(_) => Ok(self.listing(path)),
            Err(e) => Err(e),
        }
    }

    /// The directories among the entries of a listing, in order, by the names
    /// that the filer gives them.
    pub fn directories_listed(
        path: &str,
        reply: &HttpReply,
        entries: &Result<Vec<DirectoryEntry>, String>,
    ) -> (r: Result<Vec<String>, StorageError>)
        ensures
            reply.status@ == 200 ==> match *entries {
                Ok(entries) => r is Ok && text::texts(r->Ok_0@) == directory_names(entries@),
                Err(e) => r is Err && r->Err_0.is_serialization(e@),
            },
            reply.status@ == 404 ==> r is Err && r->Err_0.is_not_found(path@),
            reply.status@ != 200 && reply.status@ != 404 ==> r is Err && r->Err_0.is_unknown(
                "Failed to list directories in "@ + path@ + ": "@ + reply.detail(),
            ),
    {
        let code: u16 = reply.status.code();
        if code == 200 {
            match entries {
                Ok(entries) => Ok(pick_directories(entries)),
                Err(e) => Err(StorageError::Serialization(e.clone())),
            }
        } else if code == 404 {
            Err(StorageError::NotFound(path.to_owned()))
        } else {
            Err(refused("Failed to list directories in ", path, reply))
        }
    }
}

/// The names of the directories among `entries`, in order.
pub open spec fn directory_names(entries: Seq<DirectoryEntry>) -> Seq<Seq<char>>
    decreases entries.len(),
{
    if entries.len() == 0 {
        Seq::empty()
    } else {
        let before = directory_names(entries.drop_last());
        if entries.last().is_directory {
            before.push(entries.last().name@)
        } else {
            before
        }
    }
}

fn pick_directories(entries: &Vec<DirectoryEntry>) -> (r: Vec<String>)
    ensures
        text::texts(r@) == directory_names(entries@),
{
    let mut names: Vec<String> = Vec::new();
    let mut i: usize = 0;
    proof {
        assert(text::texts(names@) =~= directory_names(entries@.take(0)));
    }
    while i < entries.len()
        invariant
            i <= entries@.len(),
            text::texts(names@) == directory_names(entries@.take(i as int)),
        decreases entries.len() - i,
    {
        proof {
            let taken = entries@.take(i as int + 1);
            assert(taken.drop_last() =~= entries@.take(i as int));
            assert(taken.last() == entries@[i as int]);
        }
        if entries[i].is_directory {
            let ghost before = names@;
            names.push(entries[i].name.clone());
            proof {
                assert(text::texts(names@) =~= text::texts(before).push(
                    entries@[i as int].name@,
                ));
            }
        }
        i = i + 1;
    }
    proof {
        assert(entries@.take(i as int) =~= entries@);
    }
    names
}

/// A body that is taken in piece by piece, and refused as soon as it grows
/// beyond its cap.
#[derive(Debug)]
pub struct CappedBody {
    buf: Vec<u8>,
    max_bytes: u64,
}

/// The contents of a [`CappedBody`].
pub ghost struct CappedView {
    pub bytes: Seq<u8>,
    pub max_bytes: u64,
}

impl View for CappedBody {
    type V = CappedView;

    closed spec fn view(&self) -> CappedView {
        CappedView { bytes: self.buf@, max_bytes: self.max_bytes }
    }
}

/// Whether a body of that many bytes is beyond its cap. The count stops at the
/// largest number that it can hold.
pub open spec fn beyond(total: int, max_bytes: u64) -> bool {
    total > max_bytes && max_bytes < u64::MAX
}

/// The pieces of a body, one behind the other.
pub open spec fn joined(chunks: Seq<Seq<u8>>) -> Seq<u8>
    decreases chunks.len(),
{
    if chunks.len() == 0 {
        Seq::empty()
    } else {
        joined(chunks.drop_last()) + chunks.last()
    }
}

/// What taking in one piece after the other gives: the body, or nothing once a
/// piece was refused.
pub open spec fn collected(chunks: Seq<Seq<u8>>, max_bytes: u64) -> Option<Seq<u8>>
    decreases chunks.len(),
{
    if chunks.len() == 0 {
        Some(Seq::empty())
    } else {
        match collected(chunks.drop_last(), max_bytes) {
            None => None,
            Some(bytes) => if beyond((bytes.len() + chunks.last().len()) as int, max_bytes) {
                None
            } else {
                Some(bytes + chunks.last())
            },
        }
    }
}

/// A body is taken in whole if and only if it is no longer than its cap,
/// however it was cut into pieces.
pub proof fn cap_is_on_the_whole_body(chunks: Seq<Seq<u8>>, max_bytes: u64)
    ensures
        beyond(joined(chunks).len() as int, max_bytes) ==> collected(chunks, max_bytes) is None,
        !beyond(joined(chunks).len() as int, max_bytes) ==> collected(chunks, max_bytes) == Some(
            joined(chunks),
        ),
    decreases chunks.len(),
{
    if chunks.len() > 0 {
        cap_is_on_the_whole_body(chunks.drop_last(), max_bytes);
    }
}

impl CappedBody {
    /// A body of which nothing has come yet.
    pub fn new(max_bytes: u64) -> (r: CappedBody)
        ensures
            r@ == (CappedView { bytes: Seq::empty(), max_bytes }),
    {
        CappedBody { buf: Vec::new(), max_bytes }
    }

    /// The body with one more piece, or why it is refused. `chunk` is the piece,
    /// or why it did not come.
    pub fn take_chunk(self, chunk: Result<Vec<u8>, String>) -> (r: Result<CappedBody, StorageError>)
        ensures
            match chunk {
                Err(e) => r is Err && r->Err_0.is_unknown("body stream error: "@ + e@),
                Ok(piece) => if beyond(
                    (self@.bytes.len() + piece@.len()) as int,
                    self@.max_bytes,
                ) {
                    r is Err && r->Err_0.is_unknown(
                        "SeaweedFS response exceeded "@ + text::decimal_digits(
                            self@.max_bytes as nat,
                        ) + "-byte cap"@,
                    )
                } else {
                    r is Ok && r->Ok_0@ == (CappedView {
                        bytes: self@.bytes + piece@,
                        ..self@
                    })
                },
            },
    {
        let mut piece = match chunk {
            Ok(piece) => piece,
            Err(e) => return Err(
                StorageError::Unknown("body stream error: ".to_owned().concat(e.as_str())),
            ),
        };
        let so_far: u64 = self.buf.len() as u64;
        let total: u64 = so_far.saturating_add(piece.len() as u64);
        if total > self.max_bytes {
            return Err(
                StorageError::Unknown(
                    "SeaweedFS response exceeded ".to_owned().concat(
                        decimal(self.max_bytes).as_str(),
                    ).concat("-byte cap"),
                ),
            );
        }
        let mut buf = self.buf;
        buf.append(&mut piece);
        Ok(CappedBody { buf, max_bytes: self.max_bytes })
    }

    /// The body, once its last piece has come.
    pub fn finish(self) -> (r: Vec<u8>)
        ensures
            r@ == self@.bytes,
    {
        self.buf
    }
}

/// The path that a handle stands for.
pub open spec fn handle_path(handle: FileHandle) -> Option<Seq<char>> {
    if vstd::utf8::valid_utf8(handle.0@) {
        Some(vstd::utf8::decode_utf8(handle.0@))
    } else {
        None
    }
}

/// A handle leads back to the path that it was made for.
pub proof fn handle_leads_back(handle: FileHandle, path: Seq<char>)
    requires
        handle.0@ == vstd::utf8::encode_utf8(path),
    ensures
        handle_path(handle) == Some(path),
{
    vstd::utf8::encode_utf8_valid_utf8(path);
    vstd::utf8::encode_utf8_decode_utf8(path);
}

/// The path that a handle stands for.
pub fn read_handle(handle: &FileHandle) -> (r: Result<String, StorageError>)
    ensures
        r is Ok <==> handle_path(*handle) is Some,
        r is Ok ==> r->Ok_0@ == handle_path(*handle)->0,
        r is Err ==> r->Err_0.is_invalid_path("Invalid file handle"@),
{
    match text_from_utf8(&handle.0) {
        Some(path) => Ok(path),
        None => Err(StorageError::InvalidPath("Invalid file handle".to_owned())),
    }
}

fn make_handle(path: &str) -> (r: FileHandle)
    ensures
        r.0@ == vstd::utf8::encode_utf8(path@),
{
    FileHandle(text::utf8_bytes(path))
}

/// What opening a file comes to: a question to the filer first, or a handle at
/// once.
#[derive(Debug)]
pub enum OpenStep {
    Ask(HttpRequest),
    Opened(FileHandle),
}

/// What an answer to a read comes to: a body that is then taken in, or an
/// error.
#[derive(Debug)]
pub enum ReadStep {
    Collect(CappedBody),
    Failed(StorageError),
}

/// The smaller of two numbers.
pub open spec fn smaller(a: int, b: int) -> int {
    if a <= b {
        a
    } else {
        b
    }
}

/// The contents of a file after `data` was written at `offset`. Where the file
/// did not reach that far, zeros fill the gap.
pub open spec fn spliced(content: Seq<u8>, offset: int, data: Seq<u8>) -> Seq<u8> {
    Seq::new(
        if content.len() >= offset + data.len() {
            content.len()
        } else {
            (offset + data.len()) as nat
        },
        |i: int|
            if offset <= i < offset + data.len() {
                data[i - offset]
            } else if i < content.len() {
                content[i]
            } else {
                0u8
            },
    )
}

/// What was written is read back at its offset, what stood elsewhere is
/// unchanged, and the file does not shrink.
pub proof fn written_data_is_read_back(content: Seq<u8>, offset: int, data: Seq<u8>, i: int)
    requires
        0 <= offset,
    ensures
        spliced(content, offset, data).subrange(offset, offset + data.len()) == data,
        0 <= i < content.len() && !(offset <= i < offset + data.len()) ==> spliced(
            content,
            offset,
            data,
        )[i] == content[i],
        spliced(content, offset, data).len() >= content.len(),
{
    assert(spliced(content, offset, data).subrange(offset, offset + data.len()) =~= data);
}

/// The contents of a file after `data` was written at `offset`.
pub fn splice(content: Vec<u8>, offset: u64, data: &[u8]) -> (r: Vec<u8>)
    requires
        offset + data@.len() <= isize::MAX,
    ensures
        r@ == spliced(content@, offset as int, data@),
{
    let at: usize = offset as usize;
    let end: usize = at + data.len();
    let mut r = content;
    if r.len() < end {
        r.resize(end, 0);
    }
    proof {
        assert forall|i: int| 0 <= i < content@.len() implies #[trigger] r@[i] == content@[i] by {
            if content@.len() < end {
                assert(r@.subrange(0, content@.len() as int)[i] == content@[i]);
            }
        }
    }
    let ghost grown = r@;
    let mut i: usize = 0;
    while i < data.len()
        invariant
            i <= data@.len(),
            end == at + data@.len(),
            r@.len() == grown.len(),
            end <= r@.len(),
            forall|k: int|
                0 <= k < r@.len() ==> #[trigger] r@[k] == (if at <= k < at + i {
                    data@[k - at]
                } else {
                    grown[k]
                }),
        decreases data.len() - i,
    {
        r[at + i] = data[i];
        i = i + 1;
    }
    proof {
        assert(r@ =~= spliced(content@, offset as int, data@));
    }
    r
}

/// What writing to a file comes to: a question for what it holds, or at once
/// the request that stores it.
#[derive(Debug)]
pub enum WriteStep {
    Fetch(HttpRequest),
    Store(HttpRequest),
}

/// What the fetched contents of a file count as: nothing, unless they came
/// whole.
pub open spec fn fetched_content(fetched: Option<(HttpStatus, Result<Vec<u8>, StorageError>)>) -> Seq<
    u8,
> {
    match fetched {
        Some((status, Ok(bytes))) => if http::success(status@) {
            bytes@
        } else {
            Seq::empty()
        },
        _ => Seq::empty(),
    }
}

impl SeaweedFSAdapter {
    /// Opens a file. Only one that is to be read must exist.
    pub fn open_file(&self, path: &str, mode: OpenMode) -> (r: OpenStep)
        ensures
            match r {
                OpenStep::Ask(request) => mode == OpenMode::ReadOnly && request@ == http::plain(
                    Method::Head,
                    self.filer_url@ + path@,
                ),
                OpenStep::Opened(handle) => mode != OpenMode::ReadOnly && handle.0@
                    == vstd::utf8::encode_utf8(path@),
            },
    {
        match mode {
            OpenMode::ReadOnly => OpenStep::Ask(
                HttpRequest::new(Method::Head, self.build_url(path)),
            ),
            _ => OpenStep::Opened(make_handle(path)),
        }
    }

    /// What the question whether a file exists comes to.
    pub fn file_found(path: &str, status: &HttpStatus) -> (r: Result<FileHandle, StorageError>)
        ensures
            r is Ok <==> http::success(status@),
            r is Ok ==> (r->Ok_0).0@ == vstd::utf8::encode_utf8(path@),
            r is Err ==> r->Err_0.is_file_not_found(path@),
    {
        if status.is_success() {
            Ok(make_handle(path))
        } else {
            Err(StorageError::FileNotFound(path.to_owned()))
        }
    }

    /// The request for a range of a file's bytes, with the file's path. The
    /// last byte of the range must have a number.
    pub fn read_at(&self, handle: &FileHandle, offset: u64, length: usize) -> (r: Result<
        (String, HttpRequest),
        StorageError,
    >)
        requires
            handle_path(*handle) is Some ==> 0 < offset + length <= u64::MAX,
        ensures
            r is Ok <==> handle_path(*handle) is Some,
            r is Ok ==> (r->Ok_0).0@ == handle_path(*handle)->0,
            r is Ok ==> (r->Ok_0).1@ == (RequestView {
                range: Some(
                    "bytes="@ + text::decimal_digits(offset as nat) + "-"@ + text::decimal_digits(
                        (offset + length - 1) as nat,
                    ),
                ),
                ..http::plain(Method::Get, self.filer_url@ + handle_path(*handle)->0)
            }),
            r is Err ==> r->Err_0.is_invalid_path("Invalid file handle"@),
    {
        let path = match read_handle(handle) {
            Ok(path) => path,
            Err(e) => return Err(e),
        };
        let last: u64 = offset + length as u64 - 1;
        let range = "bytes=".to_owned().concat(decimal(offset).as_str()).concat("-").concat(
            decimal(last).as_str(),
        );
        let request = HttpRequest::new(Method::Get, self.build_url(path.as_str())).for_range(range);
        Ok((path, request))
    }

    /// What the answer to a read comes to. No more is taken in than was asked
    /// for, nor than is taken in from any answer.
    pub fn read_replied(path: &str, length: usize, status: &HttpStatus) -> (r: ReadStep)
        ensures
            if status@ == 200 || status@ == 206 {
                r matches ReadStep::Collect(body) && body@.bytes.len() == 0
                    && body@.max_bytes == smaller(
                    length as int,
                    SEAWEEDFS_MAX_RESPONSE_BYTES as int,
                )
            } else if status@ == 404 {
                r matches ReadStep::Failed(e) && e.is_file_not_found(path@)
            } else {
                r matches ReadStep::Failed(e) && e.is_unknown(
                    "Failed to read file "@ + path@ + ": HTTP "@ + http::status_text(status@),
                )
            },
    {
        let code: u16 = status.code();
        if code == 200 || code == 206 {
            let wanted: u64 = length as u64;
            let cap: u64 = if wanted <= SEAWEEDFS_MAX_RESPONSE_BYTES {
                wanted
            } else {
                SEAWEEDFS_MAX_RESPONSE_BYTES
            };
            ReadStep::Collect(CappedBody::new(cap))
        } else if code == 404 {
            ReadStep::Failed(StorageError::FileNotFound(path.to_owned()))
        } else {
            ReadStep::Failed(failed_with("Failed to read file ", path, status))
        }
    }

    /// Begins to write to a file, with the file's path. A write at the start
    /// replaces the file; any other asks first for what the file holds.
    pub fn write_at(&self, handle: &FileHandle, offset: u64, data: &[u8]) -> (r: Result<
        (String, WriteStep),
        StorageError,
    >)
        requires
            data@.len() <= isize::MAX,
        ensures
            r is Ok <==> handle_path(*handle) is Some,
            r is Ok ==> (r->Ok_0).0@ == handle_path(*handle)->0,
            r is Ok ==> match (r->Ok_0).1 {
                WriteStep::Fetch(request) => offset > 0 && request@ == http::plain(
                    Method::Get,
                    self.filer_url@ + handle_path(*handle)->0,
                ),
                WriteStep::Store(request) => offset == 0 && request@ == (RequestView {
                    body: data@,
                    ..http::plain(Method::Put, self.filer_url@ + handle_path(*handle)->0)
                }),
            },
            r is Err ==> r->Err_0.is_invalid_path("Invalid file handle"@),
    {
        let path = match read_handle(handle) {
            Ok(path) => path,
            Err(e) => return Err(e),
        };
        let url = self.build_url(path.as_str());
        if offset > 0 {
            Ok((path, WriteStep::Fetch(HttpRequest::new(Method::Get, url))))
        } else {
            let content = splice(Vec::new(), 0, data);
            proof {
                assert(content@ =~= data@);
            }
            Ok((path, WriteStep::Store(HttpRequest::new(Method::Put, url).with_body(content))))
        }
    }

    /// The body that the fetched contents of a file are taken in with.
    pub fn fetch_body() -> (r: CappedBody)
        ensures
            r@ == (CappedView { bytes: Seq::empty(), max_bytes: SEAWEEDFS_MAX_RESPONSE_BYTES }),
    {
        CappedBody::new(SEAWEEDFS_MAX_RESPONSE_BYTES)
    }

    /// The request that stores a file with `data` written at `offset`.
    /// `fetched` is what came of the question for its contents: nothing, or a
    /// status and the body or why it did not come whole.
    pub fn write_fetched(
        &self,
        path: &str,
        offset: u64,
        data: &[u8],
        fetched: Option<(HttpStatus, Result<Vec<u8>, StorageError>)>,
    ) -> (r: HttpRequest)
        requires
            offset + data@.len() <= isize::MAX,
        ensures
            r@ == (RequestView {
                body: spliced(fetched_content(fetched), offset as int, data@),
                ..http::plain(Method::Put, self.filer_url@ + path@)
            }),
    {
        let content = match fetched {
            Some((status, Ok(bytes))) => if status.is_success() {
                bytes
            } else {
                Vec::new()
            },
            _ => Vec::new(),
        };
        let body = splice(content, offset, data);
        HttpRequest::new(Method::Put, self.build_url(path)).with_body(body)
    }

    /// What the answer to a write comes to: all of the data was written, or an
    /// error.
    pub fn write_replied(path: &str, written: usize, status: &HttpStatus) -> (r: Result<
        usize,
        StorageError,
    >)
        ensures
            http::success(status@) ==> r == Ok::<usize, StorageError>(written),
            !http::success(status@) ==> r is Err && r->Err_0.is_unknown(
                "Failed to write file "@ + path@ + ": HTTP "@ + http::status_text(status@),
            ),
    {
        if status.is_success() {
            Ok(written)
        } else {
            Err(failed_with("Failed to write file ", path, status))
        }
    }

    /// Closes a file. The filer keeps no open files.
    pub fn close_file(&self, _handle: &FileHandle) -> (r: Result<(), StorageError>)
        ensures
            r is Ok,
    {
        Ok(())
    }

    /// The request for what is known of a file.
    pub fn stat(&self, path: &str) -> (r: HttpRequest)
        ensures
            r@ == http::plain(Method::Head, self.filer_url@ + path@),
    {
        HttpRequest::new(Method::Head, self.build_url(path))
    }

    /// What is known of a file, from the headers of the answer.
    pub fn stat_replied(
        path: &str,
        status: &HttpStatus,
        content_length: &Option<String>,
        last_modified: &Option<String>,
    ) -> (r: Result<FileAttributes, StorageError>)
        ensures
            exists|now: i64|
                now >= 0 && #[trigger] stat_comes_to(
                    r,
                    path@,
                    status@,
                    *content_length,
                    *last_modified,
                    now,
                ),
    {
        let now: i64 = Timestamp::now().seconds;
        SeaweedFSAdapter::stat_replied_at(path, status, content_length, last_modified, now)
    }

    /// What is known of a file, from the headers of an answer that came at the
    /// given time.
    pub fn stat_replied_at(
        path: &str,
        status: &HttpStatus,
        content_length: &Option<String>,
        last_modified: &Option<String>,
        now: i64,
    ) -> (r: Result<FileAttributes, StorageError>)
        ensures
            stat_comes_to(r, path@, status@, *content_length, *last_modified, now),
    {
        let code: u16 = status.code();
        if code == 404 {
            return Err(StorageError::FileNotFound(path.to_owned()));
        }
        if code != 200 {
            return Err(failed_with("Failed to stat ", path, status));
        }
        let size: u64 = match content_length {
            Some(s) => match parse_number(s.as_str()) {
                Some(n) => n,
                None => 0,
            },
            None => 0,
        };
        let mtime: i64 = match last_modified {
            Some(s) => match parse_rfc2822(s.as_str()) {
                Some(t) => t,
                None => now,
            },
            None => now,
        };
        Ok(
            FileAttributes {
                file_type: FileType::File,
                size,
                mtime,
                atime: mtime,
                ctime: mtime,
                mode: 420,
                uid: 1000,
                gid: 1000,
                nlink: 1,
            },
        )
    }

    /// The request for the entries of a directory.
    pub fn readdir(&self, path: &str) -> (r: HttpRequest)
        ensures
            r@ == (RequestView {
                accept_json: true,
                ..http::plain(Method::Get, self.filer_url@ + path@)
            }),
    {
        self.listing(path)
    }

    /// The entries of a directory, in order, by what stands behind the last
    /// slash of their names.
    pub fn entries_listed(
        path: &str,
        status: &HttpStatus,
        entries: &Result<Vec<DirectoryEntry>, String>,
    ) -> (r: Result<Vec<DirEntry>, StorageError>)
        ensures
            status@ == 200 ==> match *entries {
                Ok(entries) => r is Ok && r->Ok_0@.len() == entries@.len() && forall|i: int|
                    0 <= i < entries@.len() ==> is_entry_of(#[trigger] r->Ok_0@[i], entries@[i]),
                Err(e) => r is Err && r->Err_0.is_serialization(e@),
            },
            status@ == 404 ==> r is Err && r->Err_0.is_not_found(path@),
            status@ != 200 && status@ != 404 ==> r is Err && r->Err_0.is_unknown(
                "Failed to readdir "@ + path@ + ": HTTP "@ + http::status_text(status@),
            ),
    {
        let code: u16 = status.code();
        if code == 404 {
            return Err(StorageError::NotFound(path.to_owned()));
        }
        if code != 200 {
            return Err(failed_with("Failed to readdir ", path, status));
        }
        let listed = match entries {
            Ok(listed) => listed,
            Err(e) => return Err(StorageError::Serialization(e.clone())),
        };
        let mut found: Vec<DirEntry> = Vec::new();
        let mut i: usize = 0;
        while i < listed.len()
            invariant
                i <= listed@.len(),
                found@.len() == i,
                forall|j: int| 0 <= j < i ==> is_entry_of(#[trigger] found@[j], listed@[j]),
            decreases listed.len() - i,
        {
            let file_type = if listed[i].is_directory {
                FileType::Directory
            } else {
                FileType::File
            };
            found.push(DirEntry { name: last_segment(listed[i].name.as_str()), file_type });
            i = i + 1;
        }
        Ok(found)
    }

    /// The request that creates an empty file.
    pub fn create_file(&self, path: &str, _mode: u32) -> (r: HttpRequest)
        ensures
            r@ == http::plain(Method::Put, self.filer_url@ + path@),
    {
        HttpRequest::new(Method::Put, self.build_url(path))
    }

    /// What the creation of a file comes to.
    pub fn file_created(path: &str, status: &HttpStatus) -> (r: Result<FileHandle, StorageError>)
        ensures
            r is Ok <==> http::success(status@),
            r is Ok ==> (r->Ok_0).0@ == vstd::utf8::encode_utf8(path@),
            r is Err ==> r->Err_0.is_unknown(
                "Failed to create file "@ + path@ + ": HTTP "@ + http::status_text(status@),
            ),
    {
        if status.is_success() {
            Ok(make_handle(path))
        } else {
            Err(failed_with("Failed to create file ", path, status))
        }
    }

    /// The request that deletes a file.
    pub fn delete_file(&self, path: &str) -> (r: HttpRequest)
        ensures
            r@ == http::plain(Method::Delete, self.filer_url@ + path@),
    {
        HttpRequest::new(Method::Delete, self.build_url(path))
    }

    /// What the deletion of a file comes to.
    pub fn file_deleted(path: &str, status: &HttpStatus) -> (r: Result<(), StorageError>)
        ensures
            r is Ok <==> status@ == 204 || status@ == 200,
            r is Err && status@ == 404 ==> r->Err_0.is_file_not_found(path@),
            r is Err && status@ != 404 ==> r->Err_0.is_unknown(
                "Failed to delete file "@ + path@ + ": HTTP "@ + http::status_text(status@),
            ),
    {
        let code: u16 = status.code();
        if code == 204 || code == 200 {
            Ok(())
        } else if code == 404 {
            Err(StorageError::FileNotFound(path.to_owned()))
        } else {
            Err(failed_with("Failed to delete file ", path, status))
        }
    }
}

/// Whether an entry is what the filer lists: the end of its name, and whether
/// it is a directory.
pub open spec fn is_entry_of(entry: DirEntry, listed: DirectoryEntry) -> bool {
    &&& entry.name@ == paths::base_name(listed.name@)
    &&& entry.file_type == (if listed.is_directory {
        FileType::Directory
    } else {
        FileType::File
    })
}

/// The size that a header gives; what is no number counts as none.
pub open spec fn size_of_header(content_length: Option<String>) -> u64 {
    match content_length {
        Some(s) => match text::written_number(s@) {
            Some(n) => n,
            None => 0,
        },
        None => 0,
    }
}

/// The time that a header gives; what is no date counts as now.
pub open spec fn time_of_header(last_modified: Option<String>, now: i64) -> i64 {
    match last_modified {
        Some(s) => match clock::rfc2822(s@) {
            Some(t) => t,
            None => now,
        },
        None => now,
    }
}

/// What a question about a file comes to. The filer keeps neither owner nor
/// mode, and one time for all three.
pub open spec fn stat_comes_to(
    r: Result<FileAttributes, StorageError>,
    path: Seq<char>,
    code: u16,
    content_length: Option<String>,
    last_modified: Option<String>,
    now: i64,
) -> bool {
    if code == 200 {
        let time = time_of_header(last_modified, now);
        r == Ok::<FileAttributes, StorageError>(
            FileAttributes {
                file_type: FileType::File,
                size: size_of_header(content_length),
                mtime: time,
                atime: time,
                ctime: time,
                mode: 0o644,
                uid: 1000,
                gid: 1000,
                nlink: 1,
            },
        )
    } else if code == 404 {
        r is Err && r->Err_0.is_file_not_found(path)
    } else {
        r is Err && r->Err_0.is_unknown(
            "Failed to stat "@ + path + ": HTTP "@ + http::status_text(code),
        )
    }
}

/// How far a rename is. The filer knows no rename: the file is copied and the
/// source deleted.
#[derive(Debug)]
pub enum RenameStage {
    CheckSource,
    ReadSource,
    WriteTarget(Vec<u8>),
    DeleteSource,
}

/// What follows an answer within a rename.
#[derive(Debug)]
pub enum RenameStep {
    Next(RenameStage),
    /// The body of the answer is taken in.
    Collect(CappedBody),
    Done(Result<(), StorageError>),
}

/// The request of a stage.
pub open spec fn rename_asks(
    filer: Seq<char>,
    from: Seq<char>,
    to: Seq<char>,
    stage: RenameStage,
) -> RequestView {
    match stage {
        RenameStage::CheckSource => http::plain(Method::Head, filer + from),
        RenameStage::ReadSource => http::plain(Method::Get, filer + from),
        RenameStage::WriteTarget(data) => RequestView {
            body: data@,
            ..http::plain(Method::Post, filer + to)
        },
        RenameStage::DeleteSource => http::plain(Method::Delete, filer + from),
    }
}

/// Whether `step` is what follows an answer to the request of a stage.
pub open spec fn rename_follows(
    step: RenameStep,
    from: Seq<char>,
    to: Seq<char>,
    stage: RenameStage,
    code: u16,
) -> bool {
    match stage {
        RenameStage::CheckSource => if http::success(code) {
            step == RenameStep::Next(RenameStage::ReadSource)
        } else {
            step matches RenameStep::Done(Err(e)) && e.is_file_not_found(from)
        },
        RenameStage::ReadSource => if http::success(code) {
            step matches RenameStep::Collect(body) && body@.bytes.len() == 0
                && body@.max_bytes == SEAWEEDFS_MAX_RESPONSE_BYTES
        } else {
            step matches RenameStep::Done(Err(e)) && e.is_unknown(
                "Failed to read source file "@ + from,
            )
        },
        RenameStage::WriteTarget(_) => if http::success(code) {
            step == RenameStep::Next(RenameStage::DeleteSource)
        } else {
            step matches RenameStep::Done(Err(e)) && e.is_unknown(
                "Failed to write destination file "@ + to,
            )
        },
        RenameStage::DeleteSource => if http::success(code) {
            step == RenameStep::Done(Ok(()))
        } else {
            step matches RenameStep::Done(Err(e)) && e.is_unknown(
                "Rename from "@ + from + " to "@ + to
                    + " failed on cleanup: source file still exists"@,
            )
        },
    }
}

/// The source is deleted only once the target was written, and a rename
/// succeeds only once the source was deleted.
pub proof fn source_outlives_the_copy(
    step: RenameStep,
    from: Seq<char>,
    to: Seq<char>,
    stage: RenameStage,
    code: u16,
)
    requires
        rename_follows(step, from, to, stage, code),
    ensures
        step == RenameStep::Next(RenameStage::DeleteSource) ==> stage is WriteTarget
            && http::success(code),
        step == RenameStep::Done(Ok(())) ==> stage is DeleteSource && http::success(code),
        !http::success(code) ==> step is Done && step->Done_0 is Err,
{
}

impl SeaweedFSAdapter {
    /// Begins to rename a file.
    pub fn rename() -> (r: RenameStage)
        ensures
            r is CheckSource,
    {
        RenameStage::CheckSource
    }

    /// The request of a stage.
    pub fn rename_request(&self, from: &str, to: &str, stage: &RenameStage) -> (r: HttpRequest)
        ensures
            r@ == rename_asks(self.filer_url@, from@, to@, *stage),
    {
        match stage {
            RenameStage::CheckSource => HttpRequest::new(Method::Head, self.build_url(from)),
            RenameStage::ReadSource => HttpRequest::new(Method::Get, self.build_url(from)),
            RenameStage::WriteTarget(data) => {
                let body = data.clone();
                proof {
                    assert(body@ =~= data@);
                }
                HttpRequest::new(Method::Post, self.build_url(to)).with_body(body)
            },
            RenameStage::DeleteSource => HttpRequest::new(Method::Delete, self.build_url(from)),
        }
    }

    /// What follows the answer to the request of a stage.
    pub fn rename_replied(from: &str, to: &str, stage: &RenameStage, status: &HttpStatus) -> (r:
        RenameStep)
        ensures
            rename_follows(r, from@, to@, *stage, status@),
    {
        let fine = status.is_success();
        match stage {
            RenameStage::CheckSource => if fine {
                RenameStep::Next(RenameStage::ReadSource)
            } else {
                RenameStep::Done(Err(StorageError::FileNotFound(from.to_owned())))
            },
            RenameStage::ReadSource => if fine {
                RenameStep::Collect(CappedBody::new(SEAWEEDFS_MAX_RESPONSE_BYTES))
            } else {
                RenameStep::Done(
                    Err(
                        StorageError::Unknown(
                            "Failed to read source file ".to_owned().concat(from),
                        ),
                    ),
                )
            },
            RenameStage::WriteTarget(_) => if fine {
                RenameStep::Next(RenameStage::DeleteSource)
            } else {
                RenameStep::Done(
                    Err(
                        StorageError::Unknown(
                            "Failed to write destination file ".to_owned().concat(to),
                        ),
                    ),
                )
            },
            RenameStage::DeleteSource => if fine {
                RenameStep::Done(Ok(()))
            } else {
                RenameStep::Done(
                    Err(
                        StorageError::Unknown(
                            "Rename from ".to_owned().concat(from).concat(" to ").concat(to).concat(
                                " failed on cleanup: source file still exists",
                            ),
                        ),
                    ),
                )
            },
        }
    }

    /// What follows once the body of the source came, or did not come whole.
    pub fn rename_collected(body: Result<Vec<u8>, StorageError>) -> (r: RenameStep)
        ensures
            match body {
                Ok(data) => r == RenameStep::Next(RenameStage::WriteTarget(data)),
                Err(e) => r == RenameStep::Done(Err(e)),
            },
    {
        match body {
            Ok(data) => RenameStep::Next(RenameStage::WriteTarget(data)),
            Err(e) => RenameStep::Done(Err(e)),
        }
    }
}

/// What a filer holds under its URLs once a request was carried out: storing a
/// body puts it there, deleting takes it away, asking changes nothing.
pub open spec fn carried_out(
    held: Map<Seq<char>, Seq<u8>>,
    request: RequestView,
) -> Map<Seq<char>, Seq<u8>> {
    match request.method {
        Method::Put => held.insert(request.url, request.body),
        Method::Post => held.insert(request.url, request.body),
        Method::Delete => held.remove(request.url),
        _ => held,
    }
}

/// Two paths of one filer have two URLs.
proof fn lemma_urls_differ(filer: Seq<char>, a: Seq<char>, b: Seq<char>)
    requires
        a != b,
    ensures
        filer + a != filer + b,
{
    if filer + a == filer + b {
        assert((filer + a).skip(filer.len() as int) =~= a);
        assert((filer + b).skip(filer.len() as int) =~= b);
    }
}

/// A rename that succeeds moves the file: once the requests of its stages were
/// carried out, the data stands under the new path, nothing stands under the
/// old one, and every other path holds what it held.
pub proof fn rename_moves_the_file(
    filer: Seq<char>,
    from: Seq<char>,
    to: Seq<char>,
    held: Map<Seq<char>, Seq<u8>>,
    data: Vec<u8>,
    steps: (RenameStep, RenameStep, RenameStep, RenameStep),
    codes: (u16, u16, u16, u16),
    other: Seq<char>,
)
    requires
        held.contains_key(filer + from),
        held[filer + from] == data@,
        from != to,
        200 <= codes.0 < 300,
        200 <= codes.1 < 300,
        200 <= codes.2 < 300,
        200 <= codes.3 < 300,
        rename_follows(steps.0, from, to, RenameStage::CheckSource, codes.0),
        rename_follows(steps.1, from, to, steps.0->Next_0, codes.1),
        rename_follows(steps.2, from, to, RenameStage::WriteTarget(data), codes.2),
        rename_follows(steps.3, from, to, steps.2->Next_0, codes.3),
    ensures
        steps.0 is Next,
        steps.1 is Collect,
        steps.1->Collect_0@.bytes.len() == 0,
        steps.1->Collect_0@.max_bytes == 100 * 1024 * 1024,
        steps.2 is Next,
        steps.3 == RenameStep::Done(Ok(())),
        ({
            let ask = rename_asks(filer, from, to, RenameStage::CheckSource);
            let read = rename_asks(filer, from, to, steps.0->Next_0);
            let write = rename_asks(filer, from, to, RenameStage::WriteTarget(data));
            let delete = rename_asks(filer, from, to, steps.2->Next_0);
            let seen = carried_out(held, ask);
            let after = carried_out(carried_out(carried_out(seen, read), write), delete);
            &&& ask.method == Method::Head && ask.url == filer + from
            &&& read.method == Method::Get && read.url == filer + from
            &&& read.range is None
            &&& after.contains_key(filer + to) && after[filer + to] == data@
            &&& !after.contains_key(filer + from)
            &&& other != from && other != to ==> (after.contains_key(filer + other)
                <==> held.contains_key(filer + other)) && (held.contains_key(filer + other)
                ==> after[filer + other] == held[filer + other])
        }),
{
    lemma_urls_differ(filer, from, to);
    if other != from && other != to {
        lemma_urls_differ(filer, other, from);
        lemma_urls_differ(filer, other, to);
    }
}

/// A rename that fails says where: a source that is not there is a file not
/// found under its old path, and each later failure names the step and the
/// paths that it is about. Until the last request the source holds its data.
pub proof fn failed_rename_says_where(
    filer: Seq<char>,
    from: Seq<char>,
    to: Seq<char>,
    held: Map<Seq<char>, Seq<u8>>,
    stage: RenameStage,
    step: RenameStep,
    code: u16,
)
    requires
        held.contains_key(filer + from),
        from != to,
        !(200 <= code < 300),
        rename_follows(step, from, to, stage, code),
    ensures
        step is Done,
        step->Done_0 is Err,
        stage is CheckSource ==> step->Done_0->Err_0 is FileNotFound && step->Done_0->Err_0.is_file_not_found(
            from,
        ),
        stage is ReadSource ==> step->Done_0->Err_0.is_unknown(
            "Failed to read source file "@ + from,
        ),
        stage is WriteTarget ==> step->Done_0->Err_0.is_unknown(
            "Failed to write destination file "@ + to,
        ),
        stage is DeleteSource ==> step->Done_0->Err_0.is_unknown(
            "Rename from "@ + from + " to "@ + to
                + " failed on cleanup: source file still exists"@,
        ),
        !(stage is DeleteSource) ==> ({
            let after = carried_out(held, rename_asks(filer, from, to, stage));
            after.contains_key(filer + from) && after[filer + from] == held[filer + from]
        }),
{
    lemma_urls_differ(filer, from, to);
}

/// A directory is created from the outside in: one request for each name on its
/// path, each for a directory right within the one before, and the sentinel
/// only at the end, within the directory itself.
pub proof fn directories_are_created_from_the_outside_in(
    filer: Seq<char>,
    path: Seq<char>,
    i: int,
)
    requires
        0 <= i < creation_requests(filer, path).len(),
    ensures
        creation_requests(filer, path).len() == paths::segments(path).len() + 1,
        i < paths::segments(path).len() ==> ({
            let request = creation_requests(filer, path)[i];
            &&& request.method == Method::Post
            &&& request.url == filer + "/dir/"@
            &&& request.body.len() == 0
            &&& request.form.len() == 1
            &&& request.form[0].0 == "path"@
            &&& paths::segments(request.form[0].1) == paths::segments(path).take(i + 1)
            &&& i > 0 ==> request.form[0].1 == creation_requests(filer, path)[i - 1].form[0].1
                + seq!['/'] + paths::segments(path)[i]
            &&& i == 0 ==> request.form[0].1 == seq!['/'] + paths::segments(path)[0]
        }),
        i == paths::segments(path).len() ==> ({
            let request = creation_requests(filer, path)[i];
            &&& request.method == Method::Put
            &&& request.body.len() == 0
            &&& request.form.len() == 0
            &&& exists|kept: Seq<char>|
                #![trigger kept.is_prefix_of(path)]
                kept.is_prefix_of(path) && (kept.len() > 0 ==> kept.last() != '/') && (forall|
                    k: int,
                |
                    kept.len() <= k < path.len() ==> #[trigger] path[k] == '/') && request.url
                    == filer + (kept + "/.keep"@)
        }),
{
    let n = paths::segments(path).len();
    if i < n {
        paths::ancestors_lead_to_the_path(path, i);
        if i > 0 {
            paths::ancestors_descend(path, i);
        } else {
            assert(paths::ancestor(paths::segments(path), 0) =~= Seq::<char>::empty());
            assert(paths::ancestors(path)[0] =~= seq!['/'] + paths::segments(path)[0]);
        }
    } else {
        paths::only_trailing_slashes_go(path);
        let kept = paths::without_trailing_slashes(path);
        assert(kept.is_prefix_of(path));
    }
}

/// A directory on the way counts as made where the filer made it or had it; the
/// sentinel only where it was stored. Anything else ends the creation.
pub proof fn creation_goes_on_where_the_directory_stands(path: Seq<char>, next: int, code: u16)
    requires
        0 <= next <= paths::segments(path).len(),
    ensures
        next < paths::segments(path).len() ==> (creation_goes_on(path, next, code) <==> code == 200
            || code == 201 || code == 409),
        next == paths::segments(path).len() ==> (creation_goes_on(path, next, code) <==> 200
            <= code < 300),
{
}

/// A creation that ends early names the directory, or the sentinel, that it
/// ended on.
pub proof fn creation_faults_name_the_directory(path: Seq<char>, next: int, reply: HttpReply)
    requires
        0 <= next <= paths::segments(path).len(),
    ensures
        next < paths::segments(path).len() ==> exists|dir: Seq<char>|
            paths::segments(dir) == paths::segments(path).take(next + 1) && #[trigger]
            ("Failed to create directory "@ + dir + ": "@ + reply.detail()) == creation_fault(
                path,
                next,
                reply,
            ),
        next == paths::segments(path).len() ==> creation_fault(path, next, reply)
            == "Failed to write .keep sentinel to "@ + (paths::without_trailing_slashes(path)
            + "/.keep"@) + ": HTTP "@ + http::status_text(reply.status@),
{
    if next < paths::segments(path).len() {
        paths::ancestors_lead_to_the_path(path, next);
        let dir = paths::ancestors(path)[next];
        assert("Failed to create directory "@ + dir + ": "@ + reply.detail() == creation_fault(
            path,
            next,
            reply,
        ));
    }
}

/// The directories of a listing are its entries that are directories, under
/// their own names and in their order.
pub proof fn listed_directories_are_the_directories(entries: Seq<DirectoryEntry>)
    ensures
        directory_names(entries) == entries.filter(|e: DirectoryEntry| e.is_directory).map_values(
            |e: DirectoryEntry| e.name@,
        ),
    decreases entries.len(),
{
    reveal(Seq::filter);
    let wanted = |e: DirectoryEntry| e.is_directory;
    let name = |e: DirectoryEntry| e.name@;
    if entries.len() > 0 {
        listed_directories_are_the_directories(entries.drop_last());
        let before = entries.drop_last().filter(wanted);
        if entries.last().is_directory {
            assert(entries.filter(wanted) == before.push(entries.last()));
            assert(before.push(entries.last()).map_values(name) =~= before.map_values(name).push(
                entries.last().name@,
            ));
        } else {
            assert(entries.filter(wanted) == before);
        }
    } else {
        assert(entries.filter(wanted).map_values(name) =~= Seq::<Seq<char>>::empty());
    }
}

/// An entry of a directory is named by what stands behind the last slash, and
/// is a directory exactly where the filer says so.
pub proof fn entries_keep_name_and_kind(
    entry: DirEntry,
    listed: DirectoryEntry,
    dir: Seq<char>,
    name: Seq<char>,
)
    requires
        is_entry_of(entry, listed),
        !name.contains('/'),
    ensures
        listed.is_directory ==> entry.file_type == FileType::Directory,
        !listed.is_directory ==> entry.file_type == FileType::File,
        listed.name@ == dir + seq!['/'] + name ==> entry.name@ == name,
        listed.name@ == name ==> entry.name@ == name,
        !entry.name@.contains('/'),
{
    paths::base_name_is_what_came_last(dir, name);
    paths::base_name_is_what_came_last(listed.name@, name);
}

/// A body is taken in whole exactly where it is no longer than its cap, and
/// nothing of it is taken where it is longer.
pub proof fn no_more_is_taken_than_the_cap(chunks: Seq<Seq<u8>>, max_bytes: u64)
    requires
        max_bytes < u64::MAX,
    ensures
        joined(chunks).len() <= max_bytes ==> collected(chunks, max_bytes) == Some(joined(chunks)),
        joined(chunks).len() > max_bytes ==> collected(chunks, max_bytes) is None,
        SEAWEEDFS_MAX_RESPONSE_BYTES == 100 * 1024 * 1024,
        forall|total: int| #[trigger] beyond(total, max_bytes) <==> total > max_bytes,
{
    cap_is_on_the_whole_body(chunks, max_bytes);
}

/// No more is taken in from a read than was asked for, nor than is taken in
/// from any answer, and all that both allow.
pub proof fn reads_are_bounded_twice(a: int, b: int)
    ensures
        smaller(a, b) <= a,
        smaller(a, b) <= b,
        smaller(a, b) == a || smaller(a, b) == b,
{
}

/// A write reaches as far as the data and no farther than the file or the data
/// did; between the old end and the data lie zeros.
pub proof fn writes_fill_the_gap_with_zeros(
    content: Seq<u8>,
    offset: int,
    data: Seq<u8>,
    i: int,
)
    requires
        0 <= offset,
    ensures
        spliced(content, offset, data).len() == content.len() || spliced(
            content,
            offset,
            data,
        ).len() == offset + data.len(),
        spliced(content, offset, data).len() >= offset + data.len(),
        content.len() <= i < offset ==> spliced(content, offset, data)[i] == 0,
        offset == 0 && content.len() == 0 ==> spliced(content, offset, data) == data,
{
    if offset == 0 && content.len() == 0 {
        assert(spliced(content, offset, data) =~= data);
    }
}

/// Only contents that came whole with a success count as what the file held;
/// otherwise the file counts as empty.
pub proof fn only_whole_contents_count(
    fetched: Option<(HttpStatus, Result<Vec<u8>, StorageError>)>,
)
    ensures
        fetched is None ==> fetched_content(fetched).len() == 0,
        fetched is Some && (fetched->0).1 is Err ==> fetched_content(fetched).len() == 0,
        fetched is Some && !(200 <= (fetched->0).0@ < 300) ==> fetched_content(fetched).len() == 0,
        fetched is Some && 200 <= (fetched->0).0@ < 300 && (fetched->0).1 is Ok
            ==> fetched_content(fetched) == (fetched->0).1->Ok_0@,
{
}

/// What is known of a file is what the headers of the answer say: the size
/// where it is a number, the time where it is a date, and for all three times
/// the same. A file that is not there, and any other refusal, is an error.
pub proof fn stat_tells_what_the_headers_say(
    r: Result<FileAttributes, StorageError>,
    path: Seq<char>,
    code: u16,
    content_length: Option<String>,
    last_modified: Option<String>,
    now: i64,
)
    requires
        stat_comes_to(r, path, code, content_length, last_modified, now),
    ensures
        r is Ok <==> code == 200,
        code == 404 ==> r->Err_0.is_file_not_found(path),
        code != 200 && code != 404 ==> r->Err_0.is_unknown(
            "Failed to stat "@ + path + ": HTTP "@ + http::status_text(code),
        ),
        r is Ok ==> ({
            let found = r->Ok_0;
            &&& found.file_type == FileType::File
            &&& content_length is None ==> found.size == 0
            &&& content_length is Some && text::written_number(content_length->0@) is None
                ==> found.size == 0
            &&& content_length is Some && text::written_number(content_length->0@) is Some
                ==> Some(found.size) == text::written_number(content_length->0@)
            &&& last_modified is None ==> found.mtime == now
            &&& last_modified is Some && clock::rfc2822(last_modified->0@) is None ==> found.mtime
                == now
            &&& last_modified is Some && clock::rfc2822(last_modified->0@) is Some ==> Some(
                found.mtime,
            ) == clock::rfc2822(last_modified->0@)
            &&& found.atime == found.mtime
            &&& found.ctime == found.mtime
            &&& found.mode == 6 * 64 + 4 * 8 + 4
            &&& found.uid == 1000
            &&& found.gid == 1000
            &&& found.nlink == 1
        }),
{
}

/// A path is absolute exactly where it is a slash with something or nothing
/// behind it.
pub proof fn absolute_paths_begin_with_a_slash(path: Seq<char>)
    ensures
        absolute(path) <==> seq!['/'].is_prefix_of(path),
        !absolute(Seq::<char>::empty()),
{
    if path.len() > 0 {
        assert(path.subrange(0, 1)[0] == path[0]);
        assert(absolute(path) ==> seq!['/'] =~= path.subrange(0, 1));
        assert(seq!['/'][0] == '/');
    }
}

/// A write that succeeds is read back: once the request that it comes to was
/// carried out, the file holds the data at its offset, what it held elsewhere,
/// and zeros where it held nothing; no other path changes. `fetched` is what the
/// file held before, where the write asks for it.
pub proof fn writes_reach_their_file(
    adapter: &SeaweedFSAdapter,
    path: &str,
    offset: u64,
    data: &[u8],
    status: HttpStatus,
    bytes: Vec<u8>,
    request: HttpRequest,
    held: Map<Seq<char>, Seq<u8>>,
    i: int,
    other: Seq<char>,
)
    requires
        offset + data@.len() <= isize::MAX,
        held.contains_key(adapter.filer_url@ + path@),
        held[adapter.filer_url@ + path@] == bytes@,
        200 <= status@ < 300,
        call_ensures(
            SeaweedFSAdapter::write_fetched,
            (adapter, path, offset, data, Some((status, Ok(bytes)))),
            request,
        ),
    ensures
        ({
            let url = adapter.filer_url@ + path@;
            let after = carried_out(held, request@);
            &&& after.contains_key(url)
            &&& after[url].len() >= bytes@.len() && after[url].len() >= offset + data@.len()
            &&& after[url].len() == bytes@.len() || after[url].len() == offset + data@.len()
            &&& offset <= i < offset + data@.len() ==> after[url][i] == data@[i - offset]
            &&& 0 <= i < bytes@.len() && !(offset <= i < offset + data@.len()) ==> after[url][i]
                == bytes@[i]
            &&& bytes@.len() <= i < offset ==> after[url][i] == 0
            &&& other != path@ ==> (after.contains_key(adapter.filer_url@ + other)
                <==> held.contains_key(adapter.filer_url@ + other)) && (held.contains_key(
                adapter.filer_url@ + other,
            ) ==> after[adapter.filer_url@ + other] == held[adapter.filer_url@ + other])
        }),
{
    if other != path@ {
        lemma_urls_differ(adapter.filer_url@, other, path@);
    }
}

/// A write at the start replaces the file by the data, and any other asks first
/// for all that the file holds, of the same path.
pub proof fn writes_at_the_start_replace(
    adapter: &SeaweedFSAdapter,
    handle: &FileHandle,
    path: Seq<char>,
    offset: u64,
    data: &[u8],
    r: Result<(String, WriteStep), StorageError>,
    held: Map<Seq<char>, Seq<u8>>,
)
    requires
        data@.len() <= isize::MAX,
        handle.0@ == vstd::utf8::encode_utf8(path),
        call_ensures(SeaweedFSAdapter::write_at, (adapter, handle, offset, data), r),
    ensures
        r is Ok,
        (r->Ok_0).0@ == path,
        offset == 0 ==> (r->Ok_0).1 is Store && ({
            let after = carried_out(held, (r->Ok_0).1->Store_0@);
            after.contains_key(adapter.filer_url@ + path) && after[adapter.filer_url@ + path]
                == data@
        }),
        offset > 0 ==> (r->Ok_0).1 is Fetch && (r->Ok_0).1->Fetch_0@.method == Method::Get
            && (r->Ok_0).1->Fetch_0@.url == adapter.filer_url@ + path
            && (r->Ok_0).1->Fetch_0@.range is None,
{
    handle_leads_back(*handle, path);
}

/// A read asks for the bytes from the offset on, as many as were asked for: the
/// first and the last of them stand in the request's range.
pub proof fn reads_ask_for_their_range(
    adapter: &SeaweedFSAdapter,
    handle: &FileHandle,
    path: Seq<char>,
    offset: u64,
    length: usize,
    r: Result<(String, HttpRequest), StorageError>,
)
    requires
        handle.0@ == vstd::utf8::encode_utf8(path),
        0 < offset + length <= u64::MAX,
        call_ensures(SeaweedFSAdapter::read_at, (adapter, handle, offset, length), r),
    ensures
        r is Ok,
        (r->Ok_0).0@ == path,
        (r->Ok_0).1@.method == Method::Get,
        (r->Ok_0).1@.url == adapter.filer_url@ + path,
        (r->Ok_0).1@.range is Some,
        exists|first: Seq<char>, last: Seq<char>|
            #![trigger text::written_number(first), text::written_number(last)]
            text::written_number(first) == Some(offset) && text::written_number(last) == Some(
                (offset + length - 1) as u64,
            ) && (r->Ok_0).1@.range->0 == "bytes="@ + first + "-"@ + last,
{
    handle_leads_back(*handle, path);
    text::written_decimal_is_read(offset);
    text::written_decimal_is_read((offset + length - 1) as u64);
    let first = text::decimal_digits(offset as nat);
    let last = text::decimal_digits((offset + length - 1) as nat);
    assert(text::written_number(first) == Some(offset));
    assert(text::written_number(last) == Some((offset + length - 1) as u64));
}

/// An answer to a read is taken in where it brings the file or a part of it, up
/// to what was asked for and what is taken in from any answer; a file that is
/// not there is not found; anything else is an error with its status.
pub proof fn read_answers_follow_their_status(
    path: &str,
    length: usize,
    status: &HttpStatus,
    r: ReadStep,
)
    requires
        call_ensures(SeaweedFSAdapter::read_replied, (path, length, status), r),
    ensures
        r is Collect <==> status@ == 200 || status@ == 206,
        r is Collect ==> r->Collect_0@.bytes.len() == 0 && r->Collect_0@.max_bytes <= length
            && r->Collect_0@.max_bytes <= 100 * 1024 * 1024 && (r->Collect_0@.max_bytes == length
            || r->Collect_0@.max_bytes == 100 * 1024 * 1024),
        status@ == 404 ==> r is Failed && r->Failed_0 is FileNotFound
            && r->Failed_0->FileNotFound_0@ == path@,
        r is Failed && status@ != 404 ==> r->Failed_0 is Unknown && r->Failed_0->Unknown_0@
            == "Failed to read file "@ + path@ + ": HTTP "@ + http::status_text(status@),
{
}

/// A file is deleted where the filer says so, with or without a body; one that
/// is not there is not found.
pub proof fn file_deletions_follow_their_status(
    path: &str,
    status: &HttpStatus,
    r: Result<(), StorageError>,
)
    requires
        call_ensures(SeaweedFSAdapter::file_deleted, (path, status), r),
    ensures
        status@ == 200 || status@ == 204 ==> r is Ok,
        status@ == 404 ==> r is Err && r->Err_0 is FileNotFound && r->Err_0->FileNotFound_0@
            == path@,
        status@ != 200 && status@ != 204 && status@ != 404 ==> r is Err && r->Err_0 is Unknown
            && r->Err_0->Unknown_0@ == "Failed to delete file "@ + path@ + ": HTTP "@
            + http::status_text(status@),
{
}

/// A directory is deleted where the filer says so; one that is not there is not
/// found; anything else says what the filer said.
pub proof fn directory_deletions_follow_their_status(
    path: &str,
    reply: &HttpReply,
    r: Result<(), StorageError>,
)
    requires
        call_ensures(SeaweedFSAdapter::directory_deleted, (path, reply), r),
    ensures
        reply.status@ == 200 || reply.status@ == 204 ==> r is Ok,
        reply.status@ == 404 ==> r is Err && r->Err_0 is NotFound && r->Err_0->NotFound_0@
            == path@,
        reply.status@ != 200 && reply.status@ != 204 && reply.status@ != 404 ==> r is Err
            && r->Err_0 is Unknown && r->Err_0->Unknown_0@ == "Failed to delete directory "@
            + path@ + ": "@ + reply.detail(),
{
}

/// A limit is set where the filer says so; on a directory that is not there it
/// is not found; anything else says what the filer said.
pub proof fn quotas_follow_their_status(path: &str, reply: &HttpReply, r: Result<(), StorageError>)
    requires
        call_ensures(SeaweedFSAdapter::quota_set, (path, reply), r),
    ensures
        reply.status@ == 200 || reply.status@ == 201 ==> r is Ok,
        reply.status@ == 404 ==> r is Err && r->Err_0 is NotFound && r->Err_0->NotFound_0@
            == path@,
        reply.status@ != 200 && reply.status@ != 201 && reply.status@ != 404 ==> r is Err
            && r->Err_0 is Unknown && r->Err_0->Unknown_0@ == "Failed to set quota for "@ + path@
            + ": "@ + reply.detail(),
{
}

/// What a directory holds is what the filer counted, and nothing where it has no
/// record of the directory.
pub proof fn usage_is_what_was_counted(
    path: &str,
    reply: &HttpReply,
    total_size: Result<u64, String>,
    r: Result<u64, StorageError>,
)
    requires
        call_ensures(SeaweedFSAdapter::usage_known, (path, reply, total_size), r),
    ensures
        reply.status@ == 200 && total_size is Ok ==> r is Ok && r->Ok_0 == total_size->Ok_0,
        reply.status@ == 200 && total_size is Err ==> r is Err && r->Err_0 is Serialization
            && r->Err_0->Serialization_0@ == total_size->Err_0@,
        reply.status@ == 404 ==> r is Ok && r->Ok_0 == 0,
        reply.status@ != 200 && reply.status@ != 404 ==> r is Err && r->Err_0 is Unknown
            && r->Err_0->Unknown_0@ == "Failed to get usage for "@ + path@ + ": "@
            + reply.detail(),
{
}

/// Requests about a directory name it by its own path, and only an absolute path
/// is asked about.
pub proof fn directory_requests_name_the_directory(
    adapter: &SeaweedFSAdapter,
    path: &str,
    bytes: u64,
    deletion: Result<HttpRequest, StorageError>,
    quota: Result<HttpRequest, StorageError>,
    usage: Result<HttpRequest, StorageError>,
    listing: Result<HttpRequest, StorageError>,
)
    requires
        call_ensures(SeaweedFSAdapter::delete_directory, (adapter, path), deletion),
        call_ensures(SeaweedFSAdapter::set_quota, (adapter, path, bytes), quota),
        call_ensures(SeaweedFSAdapter::get_usage, (adapter, path), usage),
        call_ensures(SeaweedFSAdapter::list_directories, (adapter, path), listing),
    ensures
        path@.len() > 0 && path@[0] == '/' ==> deletion is Ok && quota is Ok && usage is Ok
            && listing is Ok,
        path@.len() == 0 || path@[0] != '/' ==> deletion is Err && quota is Err && usage is Err
            && listing is Err && deletion->Err_0 is InvalidPath && quota->Err_0 is InvalidPath
            && usage->Err_0 is InvalidPath && listing->Err_0 is InvalidPath,
        deletion is Ok ==> ({
            let request = deletion->Ok_0@;
            &&& request.method == Method::Delete
            &&& request.url == adapter.filer_url@ + "/dir/"@
            &&& request.query == seq![("path"@, path@), ("recursive"@, "true"@)]
        }),
        quota is Ok ==> ({
            let request = quota->Ok_0@;
            &&& request.method == Method::Post
            &&& request.url == adapter.filer_url@ + "/quota"@
            &&& request.form.len() == 2
            &&& request.form[0] == ("path"@, path@)
            &&& request.form[1].0 == "bytes"@
            &&& text::written_number(request.form[1].1) == Some(bytes)
        }),
        usage is Ok ==> ({
            let request = usage->Ok_0@;
            &&& request.method == Method::Get
            &&& request.url == adapter.filer_url@ + "/dir/status"@
            &&& request.accept_json
            &&& request.query == seq![("path"@, path@)]
        }),
        listing is Ok ==> ({
            let request = listing->Ok_0@;
            &&& request.method == Method::Get
            &&& request.url == adapter.filer_url@ + path@
            &&& request.accept_json
        }),
{
    text::written_decimal_is_read(bytes);
}

/// A file that is deleted or created is so under its own path and no other.
pub proof fn file_requests_touch_their_file(
    adapter: &SeaweedFSAdapter,
    path: &str,
    mode: u32,
    deletion: HttpRequest,
    creation: HttpRequest,
    question: HttpRequest,
    held: Map<Seq<char>, Seq<u8>>,
    other: Seq<char>,
)
    requires
        call_ensures(SeaweedFSAdapter::delete_file, (adapter, path), deletion),
        call_ensures(SeaweedFSAdapter::create_file, (adapter, path, mode), creation),
        call_ensures(SeaweedFSAdapter::stat, (adapter, path), question),
    ensures
        !carried_out(held, deletion@).contains_key(adapter.filer_url@ + path@),
        carried_out(held, creation@).contains_key(adapter.filer_url@ + path@),
        carried_out(held, creation@)[adapter.filer_url@ + path@].len() == 0,
        carried_out(held, question@) == held,
        question@.method == Method::Head && question@.url == adapter.filer_url@ + path@,
        other != path@ && held.contains_key(adapter.filer_url@ + other) ==> carried_out(
            held,
            deletion@,
        ).contains_key(adapter.filer_url@ + other) && carried_out(held, deletion@)[adapter.filer_url@
            + other] == held[adapter.filer_url@ + other] && carried_out(
            held,
            creation@,
        ).contains_key(adapter.filer_url@ + other) && carried_out(held, creation@)[adapter.filer_url@
            + other] == held[adapter.filer_url@ + other],
{
    if other != path@ {
        lemma_urls_differ(adapter.filer_url@, other, path@);
    }
}

/// A file is found, created or written exactly where the filer answers with a
/// success; a handle leads to the path that it was asked for.
pub proof fn file_answers_follow_their_status(
    path: &str,
    status: &HttpStatus,
    written: usize,
    found: Result<FileHandle, StorageError>,
    created: Result<FileHandle, StorageError>,
    stored: Result<usize, StorageError>,
    health: Result<(), StorageError>,
)
    requires
        call_ensures(SeaweedFSAdapter::file_found, (path, status), found),
        call_ensures(SeaweedFSAdapter::file_created, (path, status), created),
        call_ensures(SeaweedFSAdapter::write_replied, (path, written, status), stored),
        call_ensures(SeaweedFSAdapter::health_known, (status,), health),
    ensures
        200 <= status@ < 300 ==> found is Ok && handle_path(found->Ok_0) == Some(path@)
            && created is Ok && handle_path(created->Ok_0) == Some(path@) && stored is Ok
            && stored->Ok_0 == written && health is Ok,
        !(200 <= status@ < 300) ==> found is Err && found->Err_0 is FileNotFound
            && found->Err_0->FileNotFound_0@ == path@ && created is Err && created->Err_0 is Unknown
            && stored is Err && stored->Err_0 is Unknown && health is Err
            && health->Err_0 is Unavailable,
{
    if 200 <= status@ < 300 {
        handle_leads_back(found->Ok_0, path@);
        handle_leads_back(created->Ok_0, path@);
    }
}

/// A file that is only to be read is asked for first; any other is opened at
/// once, under its own path.
pub proof fn only_reading_asks_first(
    adapter: &SeaweedFSAdapter,
    path: &str,
    mode: OpenMode,
    r: OpenStep,
)
    requires
        call_ensures(SeaweedFSAdapter::open_file, (adapter, path, mode), r),
    ensures
        mode is ReadOnly <==> r is Ask,
        r is Ask ==> r->Ask_0@.method == Method::Head && r->Ask_0@.url == adapter.filer_url@
            + path@,
        r is Opened ==> handle_path(r->Opened_0) == Some(path@),
{
    if r is Opened {
        handle_leads_back(r->Opened_0, path@);
    }
}

/// A listing is read where it came, not found where its directory is not there,
/// and an error with what is known otherwise; entries come in their order, each
/// under the end of its name, directories under their whole name.
pub proof fn listings_follow_their_status(
    path: &str,
    status: &HttpStatus,
    reply: &HttpReply,
    entries: &Result<Vec<DirectoryEntry>, String>,
    all: Result<Vec<DirEntry>, StorageError>,
    directories: Result<Vec<String>, StorageError>,
    i: int,
)
    requires
        reply.status@ == status@,
        call_ensures(SeaweedFSAdapter::entries_listed, (path, status, entries), all),
        call_ensures(SeaweedFSAdapter::directories_listed, (path, reply, entries), directories),
    ensures
        status@ == 200 && *entries is Ok ==> all is Ok && directories is Ok && all->Ok_0@.len()
            == entries->Ok_0@.len() && text::texts(directories->Ok_0@)
            == entries->Ok_0@.filter(|e: DirectoryEntry| e.is_directory).map_values(
            |e: DirectoryEntry| e.name@,
        ),
        status@ == 200 && *entries is Ok && 0 <= i < entries->Ok_0@.len() ==> (
        all->Ok_0@[i].file_type is Directory <==> entries->Ok_0@[i].is_directory) && (
        all->Ok_0@[i].file_type is File <==> !entries->Ok_0@[i].is_directory)
            && all->Ok_0@[i].name@ == paths::base_name(entries->Ok_0@[i].name@),
        status@ == 200 && *entries is Err ==> all is Err && all->Err_0 is Serialization
            && directories is Err && directories->Err_0 is Serialization,
        status@ == 404 ==> all is Err && all->Err_0 is NotFound && all->Err_0->NotFound_0@ == path@
            && directories is Err && directories->Err_0 is NotFound
            && directories->Err_0->NotFound_0@ == path@,
        status@ != 200 && status@ != 404 ==> all is Err && all->Err_0 is Unknown && directories is Err
            && directories->Err_0 is Unknown,
{
    if status@ == 200 && *entries is Ok {
        listed_directories_are_the_directories(entries->Ok_0@);
        if 0 <= i < entries->Ok_0@.len() {
            assert(is_entry_of(all->Ok_0@[i], entries->Ok_0@[i]));
        }
    }
}

/// A filer is asked within half a minute unless told otherwise, and whether it
/// is well within five seconds, at its root.
pub proof fn requests_have_deadlines(
    filer_url: &str,
    timeout: Span,
    adapter: SeaweedFSAdapter,
    told: SeaweedFSAdapter,
    question: HttpRequest,
)
    requires
        call_ensures(SeaweedFSAdapter::new, (filer_url,), adapter),
        call_ensures(SeaweedFSAdapter::with_timeout, (filer_url, timeout), told),
        call_ensures(SeaweedFSAdapter::health_check, (&adapter,), question),
    ensures
        adapter.filer_url@ == filer_url@,
        adapter.timeout@ == (30u64, 0u32),
        told.filer_url@ == filer_url@,
        told.timeout@ == timeout@,
        question@.method == Method::Get,
        question@.url == filer_url@ + "/"@,
        question@.timeout_secs == Some(5u64),
{
}

/// What a rename read is what it writes; a source that did not come whole ends
/// it with the very error.
pub proof fn renames_write_what_they_read(body: Result<Vec<u8>, StorageError>, r: RenameStep)
    requires
        call_ensures(SeaweedFSAdapter::rename_collected, (body,), r),
    ensures
        body is Ok ==> r is Next && r->Next_0 is WriteTarget && r->Next_0->WriteTarget_0@
            == body->Ok_0@,
        body is Err ==> r is Done && r->Done_0 is Err && r->Done_0->Err_0 == body->Err_0,
{
}

/// A piece of a body is put behind what came before it; a piece with which the
/// body grows beyond its cap, and one that did not come, ends it.
pub proof fn pieces_are_put_one_behind_the_other(
    body: CappedBody,
    chunk: Result<Vec<u8>, String>,
    r: Result<CappedBody, StorageError>,
)
    requires
        body@.max_bytes < u64::MAX,
        call_ensures(CappedBody::take_chunk, (body, chunk), r),
    ensures
        chunk is Err ==> r is Err && r->Err_0 is Unknown && r->Err_0->Unknown_0@
            == "body stream error: "@ + chunk->Err_0@,
        chunk is Ok && body@.bytes.len() + chunk->Ok_0@.len() <= body@.max_bytes ==> r is Ok
            && r->Ok_0@.bytes == body@.bytes + chunk->Ok_0@ && r->Ok_0@.max_bytes
            == body@.max_bytes,
        chunk is Ok && body@.bytes.len() + chunk->Ok_0@.len() > body@.max_bytes ==> r is Err
            && r->Err_0 is Unknown && r->Err_0->Unknown_0@ == "SeaweedFS response exceeded "@
            + text::decimal_digits(body@.max_bytes as nat) + "-byte cap"@,
{
}

} // verus!
