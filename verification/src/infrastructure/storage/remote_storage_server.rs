//! Storage calls of other nodes: who may make them, what they come to on the
//! local file system layer, and how its answers go back.

use vstd::prelude::*;
use crate::domain::fsal::{FsalAccessPolicy, FsalError, Provenance};
use crate::domain::shared_kernel;
use crate::domain::shared_kernel::{ExecutionId, NodeId, Uuid, VolumeId};
use crate::domain::storage::{DirEntry, FileAttributes, FileType, OpenMode, StorageError};
use crate::infrastructure::storage::paths;
use crate::infrastructure::storage::paths::to_forward_slashes;
use crate::support::text;

verus! {

/// The sort of a refusal.
#[derive(Clone, Copy, Debug, PartialEq, Eq, Structural)]
pub enum Code {
    Unauthenticated,
    Internal,
    InvalidArgument,
    PermissionDenied,
    NotFound,
    FailedPrecondition,
    ResourceExhausted,
    AlreadyExists,
    Unavailable,
}

/// A refusal, as it goes back to the caller.
#[derive(Debug, PartialEq, Eq)]
pub struct Status {
    pub code: Code,
    pub message: String,
}

impl Status {
    /// Whether the refusal is of the given sort, with the given words.
    pub open spec fn is(self, code: Code, words: Seq<char>) -> bool {
        self.code == code && self.message@ == words
    }

    fn new(code: Code, message: &str) -> (r: Status)
        ensures
            r.is(code, message@),
    {
        Status { code, message: message.to_owned() }
    }

    fn with_cause(code: Code, what: &str, cause: &str) -> (r: Status)
        ensures
            r.is(code, what@ + cause@),
    {
        Status { code, message: what.to_owned().concat(cause) }
    }
}

/// What proves that a call comes from a node: a token that names it, and its
/// signature over the payload.
#[derive(Debug, PartialEq, Eq)]
pub struct NodeEnvelope {
    pub node_security_token: String,
    pub payload: Vec<u8>,
    pub signature: Vec<u8>,
}

/// An Ed25519 public key.
#[verifier::external_type_specification]
#[verifier::external_body]
pub struct ExVerifyingKey(ed25519_dalek::VerifyingKey);

/// An Ed25519 signature.
#[verifier::external_type_specification]
#[verifier::external_body]
pub struct ExSignature(ed25519_dalek::Signature);

/// What `ed25519_dalek::VerifyingKey::from_bytes` reads: the key that the bytes
/// encode, or the text of the error.
pub uninterp spec fn key_read(bytes: Seq<u8>) -> Result<ed25519_dalek::VerifyingKey, Seq<char>>;

/// What `ed25519_dalek::Signature::from_slice` reads: the signature that the
/// bytes encode, or the text of the error.
pub uninterp spec fn signature_read(bytes: Seq<u8>) -> Result<ed25519_dalek::Signature, Seq<char>>;

/// What `ed25519_dalek::Verifier::verify` finds: nothing against a signature, or
/// the text of the error.
pub uninterp spec fn signature_fault(
    key: ed25519_dalek::VerifyingKey,
    message: Seq<u8>,
    signature: ed25519_dalek::Signature,
) -> Option<Seq<char>>;

/// `ed25519_dalek::VerifyingKey::from_bytes`, its error as text.
#[verifier::external_body]
fn read_key(bytes: &[u8; 32]) -> (r: Result<ed25519_dalek::VerifyingKey, String>)
    ensures
        r is Ok <==> key_read(bytes@) is Ok,
        r is Ok ==> r->Ok_0 == key_read(bytes@)->Ok_0,
        r is Err ==> r->Err_0@ == key_read(bytes@)->Err_0,
{
    ed25519_dalek::VerifyingKey::from_bytes(bytes).map_err(|e| e.to_string())
}

/// `ed25519_dalek::Signature::from_slice`, its error as text. Any 64 bytes are
/// taken, and no others.
#[verifier::external_body]
fn read_signature(bytes: &Vec<u8>) -> (r: Result<ed25519_dalek::Signature, String>)
    ensures
        r is Ok <==> signature_read(bytes@) is Ok,
        r is Ok ==> r->Ok_0 == signature_read(bytes@)->Ok_0,
        r is Err ==> r->Err_0@ == signature_read(bytes@)->Err_0,
        r is Ok <==> bytes@.len() == 64,
{
    ed25519_dalek::Signature::from_slice(bytes.as_slice()).map_err(|e| e.to_string())
}

/// `ed25519_dalek::Verifier::verify`, its error as text.
#[verifier::external_body]
fn verify_signature(
    key: &ed25519_dalek::VerifyingKey,
    message: &Vec<u8>,
    signature: &ed25519_dalek::Signature,
) -> (r: Result<(), String>)
    ensures
        r is Ok <==> signature_fault(*key, message@, *signature) is None,
        r is Err ==> r->Err_0@ == signature_fault(*key, message@, *signature)->0,
{
    ed25519_dalek::Verifier::verify(key, message.as_slice(), signature).map_err(|e| e.to_string())
}

/// Key bytes as an array, where there are 32 of them.
fn key_bytes(bytes: &Vec<u8>) -> (r: Option<[u8; 32]>)
    ensures
        r is Some <==> bytes@.len() == 32,
        r is Some ==> r->0@ == bytes@,
{
    if bytes.len() != 32 {
        return None;
    }
    let mut key: [u8; 32] = [0u8; 32];
    let mut i: usize = 0;
    while i < 32
        invariant
            i <= 32,
            bytes@.len() == 32,
            key@.len() == 32,
            forall|k: int| 0 <= k < i ==> #[trigger] key@[k] == bytes@[k],
        decreases 32 - i,
    {
        key[i] = bytes[i];
        i = i + 1;
    }
    proof {
        assert(key@ =~= bytes@);
    }
    Some(key)
}

/// Which node an envelope is from, or why the call is not answered. `claims` is
/// what the token says of the node, `peer` what the cluster knows of it: an
/// error, nothing, or its public key.
pub open spec fn authenticated(
    r: Result<NodeId, Status>,
    envelope: Option<NodeEnvelope>,
    claims: Result<NodeId, String>,
    peer: Result<Option<Vec<u8>>, String>,
) -> bool {
    match envelope {
        None => r is Err && r->Err_0.is(Code::Unauthenticated, "Missing security envelope"@),
        Some(envelope) => match claims {
            Err(e) => r is Err && r->Err_0.is(Code::Unauthenticated, "Invalid token: "@ + e@),
            Ok(node_id) => match peer {
                Err(e) => r is Err && r->Err_0.is(Code::Internal, "Database error: "@ + e@),
                Ok(None) => r is Err && r->Err_0.is(
                    Code::Unauthenticated,
                    "Node not registered"@,
                ),
                Ok(Some(key)) => signed_by(r, node_id, key@, envelope),
            },
        },
    }
}

/// Whether `r` is the node where the envelope bears a signature under its key,
/// and else why it does not.
pub open spec fn signed_by(
    r: Result<NodeId, Status>,
    node_id: NodeId,
    key: Seq<u8>,
    envelope: NodeEnvelope,
) -> bool {
    if key.len() != 32 {
        r is Err && r->Err_0.is(Code::Internal, "Invalid stored public key length"@)
    } else if key_read(key) is Err {
        r is Err && r->Err_0.is(
            Code::Internal,
            "Invalid stored public key: "@ + key_read(key)->Err_0,
        )
    } else if signature_read(envelope.signature@) is Err {
        r is Err && r->Err_0.is(
            Code::Unauthenticated,
            "Invalid signature format: "@ + signature_read(envelope.signature@)->Err_0,
        )
    } else {
        match signature_fault(
            key_read(key)->Ok_0,
            envelope.payload@,
            signature_read(envelope.signature@)->Ok_0,
        ) {
            Some(fault) => r is Err && r->Err_0.is(
                Code::Unauthenticated,
                "Signature verification failed: "@ + fault,
            ),
            None => r == Ok::<NodeId, Status>(node_id),
        }
    }
}

/// A call is answered only where the envelope is there, its token names a node
/// that the cluster knows, and the payload bears that node's signature.
pub proof fn only_signed_calls_are_answered(
    r: Result<NodeId, Status>,
    envelope: Option<NodeEnvelope>,
    claims: Result<NodeId, String>,
    peer: Result<Option<Vec<u8>>, String>,
)
    requires
        authenticated(r, envelope, claims, peer),
        r is Ok,
    ensures
        envelope is Some,
        claims == Ok::<NodeId, String>(r->Ok_0),
        peer is Ok && peer->Ok_0 is Some,
        key_read(peer->Ok_0->0@) is Ok,
        signature_read(envelope->0.signature@) is Ok,
        signature_fault(
            key_read(peer->Ok_0->0@)->Ok_0,
            envelope->0.payload@,
            signature_read(envelope->0.signature@)->Ok_0,
        ) is None,
{
}

/// What an open file was opened as.
#[derive(Debug, PartialEq, Eq)]
pub struct OpenHandleMeta {
    pub volume_id: VolumeId,
    pub path: String,
}

impl Clone for OpenHandleMeta {
    fn clone(&self) -> (r: Self)
        ensures
            r == *self,
    {
        OpenHandleMeta { volume_id: self.volume_id, path: self.path.clone() }
    }
}

/// An open file: the bytes of its handle, and what it was opened as.
#[derive(Debug)]
pub struct OpenHandle {
    pub handle: Vec<u8>,
    pub meta: OpenHandleMeta,
}

/// The contents of an [`OpenHandle`].
pub ghost struct HandleView {
    pub handle: Seq<u8>,
    pub meta: OpenHandleMeta,
}

impl View for OpenHandle {
    type V = HandleView;

    open spec fn view(&self) -> HandleView {
        HandleView { handle: self.handle@, meta: self.meta }
    }
}

/// The open files of a list.
pub open spec fn handles(s: Seq<OpenHandle>) -> Seq<HandleView> {
    Seq::new(s.len(), |i: int| s[i]@)
}

/// Whether no two open files share a handle.
pub open spec fn distinct(s: Seq<HandleView>) -> bool {
    forall|i: int, j: int|
        0 <= i < s.len() && 0 <= j < s.len() && (#[trigger] s[i]).handle == (
        #[trigger] s[j]).handle ==> i == j
}

/// Whether a file is open under the handle.
pub open spec fn is_open(s: Seq<HandleView>, handle: Seq<u8>) -> bool {
    exists|i: int| 0 <= i < s.len() && (#[trigger] s[i]).handle == handle
}

/// Where the file under the handle stands.
pub open spec fn place(s: Seq<HandleView>, handle: Seq<u8>) -> int {
    choose|i: int| 0 <= i < s.len() && (#[trigger] s[i]).handle == handle
}

/// What the file under the handle was opened as.
pub open spec fn opened_as(s: Seq<HandleView>, handle: Seq<u8>) -> Option<OpenHandleMeta> {
    if is_open(s, handle) {
        Some(s[place(s, handle)].meta)
    } else {
        None
    }
}

/// The open files with one more, in the place of one under the same handle.
pub open spec fn with_open(s: Seq<HandleView>, handle: Seq<u8>, meta: OpenHandleMeta) -> Seq<
    HandleView,
> {
    if is_open(s, handle) {
        s.update(place(s, handle), HandleView { handle, meta })
    } else {
        s.push(HandleView { handle, meta })
    }
}

/// The open files without the one under the handle.
pub open spec fn without_open(s: Seq<HandleView>, handle: Seq<u8>) -> Seq<HandleView> {
    if is_open(s, handle) {
        s.remove(place(s, handle))
    } else {
        s
    }
}

/// A file that was opened is known by its handle until it is closed, and no
/// other handle is touched by either.
pub proof fn handles_are_known_until_closed(
    s: Seq<HandleView>,
    handle: Seq<u8>,
    meta: OpenHandleMeta,
    other: Seq<u8>,
)
    requires
        distinct(s),
    ensures
        distinct(with_open(s, handle, meta)),
        distinct(without_open(s, handle)),
        opened_as(with_open(s, handle, meta), handle) == Some(meta),
        opened_as(without_open(s, handle), handle) is None,
        other != handle ==> opened_as(with_open(s, handle, meta), other) == opened_as(s, other),
        other != handle ==> opened_as(without_open(s, handle), other) == opened_as(s, other),
{
    let opened = with_open(s, handle, meta);
    let at = if is_open(s, handle) {
        place(s, handle)
    } else {
        s.len() as int
    };
    assert(opened[at].handle == handle);
    assert forall|k: int| 0 <= k < s.len() && k != at implies #[trigger] opened[k] == s[k] by {}
    assert(is_open(opened, handle));
    if other != handle {
        if is_open(s, other) {
            assert(opened[place(s, other)].handle == other);
        } else {
            assert(!is_open(opened, other));
        }
    }
    if is_open(s, handle) {
        let closed = without_open(s, handle);
        assert forall|k: int| 0 <= k < closed.len() implies #[trigger] closed[k] == s[if k < at {
            k
        } else {
            k + 1
        }] by {}
        assert(!is_open(closed, handle));
        if other != handle {
            if is_open(s, other) {
                let k = place(s, other);
                let m = if k < at {
                    k
                } else {
                    k - 1
                };
                assert(closed[m] == s[k]);
                assert(closed[m].handle == other);
            } else {
                assert(!is_open(closed, other));
            }
        }
    }
}

/// The path of a volume's file in the store.
pub open spec fn store_path(volume_id: Seq<char>, path: Seq<char>) -> Seq<char> {
    "/aegis/volumes/"@ + volume_id + path
}

/// The execution that calls of other nodes are made for, the calls not naming
/// their own: `00000000-0000-4000-8000-000000000001`.
pub open spec fn sentinel() -> ExecutionId {
    ExecutionId(Uuid { bits: 0x0000_0000_0000_4000_8000_0000_0000_0001u128 })
}

/// The sentinel is an identifier of version four.
pub proof fn sentinel_is_version_four()
    ensures
        shared_kernel::is_version_four(sentinel().0.bits),
{
    assert((0x0000_0000_0000_4000_8000_0000_0000_0001u128 >> 76u128) & 0xfu128 == 4u128)
        by (bit_vector);
    assert((0x0000_0000_0000_4000_8000_0000_0000_0001u128 >> 62u128) & 0x3u128 == 2u128)
        by (bit_vector);
}

/// How a canonical path goes on from here; `canonical` is the path, which may
/// not be text, or why there is none.
pub open spec fn sanitized(r: Result<String, Status>, canonical: Result<Option<String>, String>) -> bool {
    match canonical {
        Ok(path) => r is Ok && r->Ok_0@ == paths::forward_slashes(text::text_or(path, "/"@)),
        Err(e) => r is Err && r->Err_0.is(
            Code::InvalidArgument,
            "Path traversal blocked: "@ + e@,
        ),
    }
}

/// What the mode of a request stands for.
pub open spec fn mode_of(mode: i32) -> OpenMode {
    if mode == 1 {
        OpenMode::WriteOnly
    } else if mode == 2 {
        OpenMode::ReadWrite
    } else if mode == 3 {
        OpenMode::Create
    } else {
        OpenMode::ReadOnly
    }
}

/// The number that stands for a file type.
pub open spec fn type_number(file_type: FileType) -> u32 {
    match file_type {
        FileType::File => 0,
        FileType::Directory => 1,
        FileType::Symlink => 2,
    }
}

/// How an error of the store goes back.
pub open spec fn storage_refusal(e: StorageError) -> (Code, Seq<char>) {
    match e {
        StorageError::NotFound(m) => (Code::NotFound, m@),
        StorageError::FileNotFound(m) => (Code::NotFound, m@),
        StorageError::PermissionDenied(m) => (Code::PermissionDenied, m@),
        StorageError::AlreadyExists(m) => (Code::AlreadyExists, m@),
        StorageError::QuotaExceeded { .. } => (Code::ResourceExhausted, "quota exceeded"@),
        StorageError::Unavailable(m) => (Code::Unavailable, m@),
        StorageError::InvalidPath(m) => (Code::InvalidArgument, m@),
        StorageError::Serialization(_) => (Code::Internal, e.message()),
        StorageError::Unknown(_) => (Code::Internal, e.message()),
    }
}

/// How an error of the file system layer goes back.
pub open spec fn fsal_refusal(e: FsalError) -> (Code, Seq<char>) {
    match e {
        FsalError::UnauthorizedAccess(m) => (Code::PermissionDenied, m@),
        FsalError::VolumeNotFound(m) => (Code::NotFound, m@),
        FsalError::VolumeNotAttached(m) => (Code::FailedPrecondition, m@),
        FsalError::PathSanitization(m) => (Code::InvalidArgument, m@),
        FsalError::PolicyViolation(m) => (Code::PermissionDenied, m@),
        FsalError::InvalidFileHandle(m) => (Code::InvalidArgument, m@),
        FsalError::HandleDeserialization(m) => (Code::InvalidArgument, m@),
        FsalError::QuotaExceeded(m) => (Code::ResourceExhausted, m@),
        FsalError::Storage(e) => storage_refusal(e),
    }
}

/// The answer to a call that only succeeds or fails.
#[derive(Debug, PartialEq, Eq)]
pub struct RemoteStorageResponse {
    pub success: bool,
    pub error_message: String,
}

/// What is known of a file, as it goes back.
#[derive(Debug, PartialEq, Eq)]
pub struct StatResponse {
    pub file_type: u32,
    pub size: u64,
    pub mtime: i64,
    pub atime: i64,
    pub ctime: i64,
    pub mode: u32,
    pub uid: u32,
    pub gid: u32,
    pub nlink: u32,
}

/// One entry of a directory, as it goes back.
#[derive(Debug, PartialEq, Eq)]
pub struct DirEntryProto {
    pub name: String,
    pub file_type: u32,
}

/// A call on an open file: whose, and by what path it is known.
#[derive(Debug, PartialEq, Eq)]
pub struct HandleCall {
    pub provenance: Provenance,
    pub path: String,
}

/// The storage calls of other nodes on this one, with the files that they have
/// open.
#[derive(Debug)]
pub struct RemoteStorageServiceHandler {
    host_node_id: NodeId,
    open_handles: Vec<OpenHandle>,
}

/// The contents of a [`RemoteStorageServiceHandler`].
pub ghost struct HandlerView {
    pub host: NodeId,
    pub open: Seq<HandleView>,
}

impl View for RemoteStorageServiceHandler {
    type V = HandlerView;

    closed spec fn view(&self) -> HandlerView {
        HandlerView { host: self.host_node_id, open: handles(self.open_handles@) }
    }
}

/// The provenance of a call on a volume.
pub open spec fn provenance(host: NodeId, caller: NodeId, volume_id: VolumeId) -> Provenance {
    Provenance {
        execution_id: sentinel(),
        volume_id,
        caller_node_id: caller,
        host_node_id: host,
    }
}

/// What a call comes to that names its volume: its provenance, or why there is
/// no such volume.
pub open spec fn volume_call(
    r: Result<Provenance, Status>,
    host: NodeId,
    caller: NodeId,
    volume_id: Seq<char>,
) -> bool {
    match shared_kernel::uuid_parsed(volume_id) {
        Ok(bits) => r == Ok::<Provenance, Status>(
            provenance(host, caller, VolumeId(Uuid { bits })),
        ),
        Err(e) => r is Err && r->Err_0.is(Code::InvalidArgument, "Invalid volume_id: "@ + e),
    }
}

/// What a call on an open file comes to, or that the handle is not known.
pub open spec fn handle_call(
    r: Result<HandleCall, Status>,
    host: NodeId,
    caller: NodeId,
    known: Option<OpenHandleMeta>,
) -> bool {
    match known {
        Some(meta) => r is Ok && r->Ok_0.provenance == provenance(host, caller, meta.volume_id)
            && r->Ok_0.path@ == meta.path@,
        None => r is Err && r->Err_0.is(Code::InvalidArgument, "Unknown file handle"@),
    }
}

impl RemoteStorageServiceHandler {
    #[verifier::type_invariant]
    spec fn well_formed(self) -> bool {
        distinct(handles(self.open_handles@))
    }

    /// The calls on the given node, no file being open.
    pub fn new(host_node_id: NodeId) -> (r: RemoteStorageServiceHandler)
        ensures
            r@ == (HandlerView { host: host_node_id, open: Seq::empty() }),
    {
        let r = RemoteStorageServiceHandler { host_node_id, open_handles: Vec::new() };
        proof {
            assert(r@.open =~= Seq::empty());
        }
        r
    }

    /// The token to read, or that there is no envelope to take it from.
    pub fn begin_authentication(envelope: &Option<NodeEnvelope>) -> (r: Result<String, Status>)
        ensures
            match *envelope {
                Some(envelope) => r is Ok && r->Ok_0@ == envelope.node_security_token@,
                None => r is Err && r->Err_0.is(
                    Code::Unauthenticated,
                    "Missing security envelope"@,
                ),
            },
    {
        match envelope {
            Some(envelope) => Ok(envelope.node_security_token.clone()),
            None => Err(Status::new(Code::Unauthenticated, "Missing security envelope")),
        }
    }

    /// The node that a token names, to be looked up, or that the token is none.
    pub fn token_read(claims: &Result<NodeId, String>) -> (r: Result<NodeId, Status>)
        ensures
            match *claims {
                Ok(node_id) => r == Ok::<NodeId, Status>(node_id),
                Err(e) => r is Err && r->Err_0.is(
                    Code::Unauthenticated,
                    "Invalid token: "@ + e@,
                ),
            },
    {
        match claims {
            Ok(node_id) => Ok(*node_id),
            Err(e) => Err(Status::with_cause(Code::Unauthenticated, "Invalid token: ", e.as_str())),
        }
    }

    /// Which node an envelope is from, or why the call is not answered.
    pub fn authenticate(
        envelope: &Option<NodeEnvelope>,
        claims: &Result<NodeId, String>,
        peer: &Result<Option<Vec<u8>>, String>,
    ) -> (r: Result<NodeId, Status>)
        ensures
            authenticated(r, *envelope, *claims, *peer),
    {
        let envelope = match envelope {
            Some(envelope) => envelope,
            None => return Err(Status::new(Code::Unauthenticated, "Missing security envelope")),
        };
        let node_id = match Self::token_read(claims) {
            Ok(node_id) => node_id,
            Err(e) => return Err(e),
        };
        let stored = match peer {
            Ok(Some(key)) => key,
            Ok(None) => return Err(Status::new(Code::Unauthenticated, "Node not registered")),
            Err(e) => return Err(
                Status::with_cause(Code::Internal, "Database error: ", e.as_str()),
            ),
        };
        let bytes = match key_bytes(stored) {
            Some(bytes) => bytes,
            None => return Err(Status::new(Code::Internal, "Invalid stored public key length")),
        };
        let key = match read_key(&bytes) {
            Ok(key) => key,
            Err(e) => return Err(
                Status::with_cause(Code::Internal, "Invalid stored public key: ", e.as_str()),
            ),
        };
        let signature = match read_signature(&envelope.signature) {
            Ok(signature) => signature,
            Err(e) => return Err(
                Status::with_cause(
                    Code::Unauthenticated,
                    "Invalid signature format: ",
                    e.as_str(),
                ),
            ),
        };
        match verify_signature(&key, &envelope.payload, &signature) {
            Ok(_) => Ok(node_id),
            Err(e) => Err(
                Status::with_cause(
                    Code::Unauthenticated,
                    "Signature verification failed: ",
                    e.as_str(),
                ),
            ),
        }
    }

    /// The path of a volume's file in the store.
    pub fn full_path(volume_id: &str, path: &str) -> (r: String)
        ensures
            r@ == store_path(volume_id@, path@),
    {
        "/aegis/volumes/".to_owned().concat(volume_id).concat(path)
    }

    /// The volume that a request names.
    pub fn parse_volume_id(volume_id: &str) -> (r: Result<VolumeId, Status>)
        ensures
            match shared_kernel::uuid_parsed(volume_id@) {
                Ok(bits) => r == Ok::<VolumeId, Status>(VolumeId(Uuid { bits })),
                Err(e) => r is Err && r->Err_0.is(
                    Code::InvalidArgument,
                    "Invalid volume_id: "@ + e,
                ),
            },
    {
        match Uuid::parse_str(volume_id) {
            Ok(id) => Ok(VolumeId(id)),
            Err(e) => Err(
                Status::with_cause(Code::InvalidArgument, "Invalid volume_id: ", e.as_str()),
            ),
        }
    }

    /// The policy of calls from other nodes: everything may be read and written.
    /// The caller's own node has applied its policy already.
    pub fn system_policy() -> (r: FsalAccessPolicy)
        ensures
            text::texts(r.read@) == seq!["/**"@],
            text::texts(r.write@) == seq!["/**"@],
    {
        let mut read: Vec<String> = Vec::new();
        read.push("/**".to_owned());
        let mut write: Vec<String> = Vec::new();
        write.push("/**".to_owned());
        proof {
            assert(text::texts(read@) =~= seq!["/**"@]);
            assert(text::texts(write@) =~= seq!["/**"@]);
        }
        FsalAccessPolicy { read, write }
    }

    /// The execution that calls of other nodes are made for.
    pub fn sentinel_execution_id() -> (r: ExecutionId)
        ensures
            r == sentinel(),
    {
        ExecutionId(Uuid { bits: 0x0000_0000_0000_4000_8000_0000_0000_0001u128 })
    }

    /// How an error of the file system layer goes back.
    pub fn fsal_err_to_status(e: &FsalError) -> (r: Status)
        ensures
            r.is(fsal_refusal(*e).0, fsal_refusal(*e).1),
    {
        match e {
            FsalError::UnauthorizedAccess(m) => Status::new(Code::PermissionDenied, m.as_str()),
            FsalError::VolumeNotFound(m) => Status::new(Code::NotFound, m.as_str()),
            FsalError::VolumeNotAttached(m) => Status::new(Code::FailedPrecondition, m.as_str()),
            FsalError::PathSanitization(m) => Status::new(Code::InvalidArgument, m.as_str()),
            FsalError::PolicyViolation(m) => Status::new(Code::PermissionDenied, m.as_str()),
            FsalError::InvalidFileHandle(m) => Status::new(Code::InvalidArgument, m.as_str()),
            FsalError::HandleDeserialization(m) => Status::new(Code::InvalidArgument, m.as_str()),
            FsalError::QuotaExceeded(m) => Status::new(Code::ResourceExhausted, m.as_str()),
            FsalError::Storage(e) => Self::storage_err_to_status(e),
        }
    }

    /// How an error of the store goes back.
    pub fn storage_err_to_status(e: &StorageError) -> (r: Status)
        ensures
            r.is(storage_refusal(*e).0, storage_refusal(*e).1),
    {
        match e {
            StorageError::NotFound(m) => Status::new(Code::NotFound, m.as_str()),
            StorageError::FileNotFound(m) => Status::new(Code::NotFound, m.as_str()),
            StorageError::PermissionDenied(m) => Status::new(Code::PermissionDenied, m.as_str()),
            StorageError::AlreadyExists(m) => Status::new(Code::AlreadyExists, m.as_str()),
            StorageError::QuotaExceeded { .. } => Status::new(
                Code::ResourceExhausted,
                "quota exceeded",
            ),
            StorageError::Unavailable(m) => Status::new(Code::Unavailable, m.as_str()),
            StorageError::InvalidPath(m) => Status::new(Code::InvalidArgument, m.as_str()),
            StorageError::Serialization(_) => Status::new(Code::Internal, e.to_string().as_str()),
            StorageError::Unknown(_) => Status::new(Code::Internal, e.to_string().as_str()),
        }
    }

    /// What the mode of a request stands for.
    pub fn proto_mode_to_open_mode(mode: i32) -> (r: OpenMode)
        ensures
            r == mode_of(mode),
    {
        match mode {
            1 => OpenMode::WriteOnly,
            2 => OpenMode::ReadWrite,
            3 => OpenMode::Create,
            _ => OpenMode::ReadOnly,
        }
    }

    /// The number that stands for a file type.
    pub fn file_type_to_proto(ft: FileType) -> (r: u32)
        ensures
            r == type_number(ft),
    {
        match ft {
            FileType::File => 0,
            FileType::Directory => 1,
            FileType::Symlink => 2,
        }
    }

    /// The answer to a call that succeeded.
    pub fn ok_response() -> (r: RemoteStorageResponse)
        ensures
            r.success,
            r.error_message@ == Seq::<char>::empty(),
    {
        RemoteStorageResponse { success: true, error_message: String::new() }
    }

    /// A canonical path as text, with slashes alone; `canonical` is the path,
    /// which may not be text, or why there is none.
    pub fn sanitize_path(canonical: &Result<Option<String>, String>) -> (r: Result<String, Status>)
        ensures
            sanitized(r, *canonical),
    {
        match canonical {
            Ok(path) => {
                let path = text::copy_text_or(path, "/");
                Ok(to_forward_slashes(path.as_str()))
            },
            Err(e) => Err(
                Status::with_cause(Code::InvalidArgument, "Path traversal blocked: ", e.as_str()),
            ),
        }
    }

    /// The call that `create_directory`, `delete_directory`, `open_file`,
    /// `stat`, `readdir`, `create_file`, `delete_file` and `rename` of an
    /// authenticated caller come to: on which volume, and for whom.
    pub fn on_volume(&self, caller: NodeId, volume_id: &str) -> (r: Result<Provenance, Status>)
        ensures
            volume_call(r, self@.host, caller, volume_id@),
    {
        match Self::parse_volume_id(volume_id) {
            Ok(volume_id) => Ok(
                Provenance {
                    execution_id: Self::sentinel_execution_id(),
                    volume_id,
                    caller_node_id: caller,
                    host_node_id: self.host_node_id,
                },
            ),
            Err(e) => Err(e),
        }
    }

    /// What `create_directory`, `delete_directory`, `close_file`, `delete_file`
    /// and `rename` answer.
    pub fn done(result: &Result<(), FsalError>) -> (r: Result<RemoteStorageResponse, Status>)
        ensures
            match *result {
                Ok(_) => r is Ok && r->Ok_0.success && r->Ok_0.error_message@.len() == 0,
                Err(e) => r is Err && r->Err_0.is(fsal_refusal(e).0, fsal_refusal(e).1),
            },
    {
        match result {
            Ok(_) => Ok(Self::ok_response()),
            Err(e) => Err(Self::fsal_err_to_status(e)),
        }
    }

    /// The path in the store that `set_quota` and `get_usage` are about, both
    /// past the file system layer.
    pub fn store_call(volume_id: &str, canonical: &Result<Option<String>, String>) -> (r: Result<
        String,
        Status,
    >)
        ensures
            match *canonical {
                Ok(path) => r is Ok && r->Ok_0@ == store_path(
                    volume_id@,
                    paths::forward_slashes(text::text_or(path, "/"@)),
                ),
                Err(e) => r is Err && r->Err_0.is(
                    Code::InvalidArgument,
                    "Path traversal blocked: "@ + e@,
                ),
            },
    {
        match Self::sanitize_path(canonical) {
            Ok(path) => Ok(Self::full_path(volume_id, path.as_str())),
            Err(e) => Err(e),
        }
    }

    /// What `set_quota` and `health_check` answer.
    pub fn store_done(result: &Result<(), StorageError>) -> (r: Result<
        RemoteStorageResponse,
        Status,
    >)
        ensures
            match *result {
                Ok(_) => r is Ok && r->Ok_0.success && r->Ok_0.error_message@.len() == 0,
                Err(e) => r is Err && r->Err_0.is(storage_refusal(e).0, storage_refusal(e).1),
            },
    {
        match result {
            Ok(_) => Ok(Self::ok_response()),
            Err(e) => Err(Self::storage_err_to_status(e)),
        }
    }

    /// What `get_usage` answers.
    pub fn usage(result: &Result<u64, StorageError>) -> (r: Result<u64, Status>)
        ensures
            match *result {
                Ok(n) => r == Ok::<u64, Status>(n),
                Err(e) => r is Err && r->Err_0.is(storage_refusal(e).0, storage_refusal(e).1),
            },
    {
        match result {
            Ok(n) => Ok(*n),
            Err(e) => Err(Self::storage_err_to_status(e)),
        }
    }

    fn find(&self, handle: &Vec<u8>) -> (r: Option<usize>)
        ensures
            match r {
                Some(i) => i < self.open_handles@.len() && is_open(self@.open, handle@) && place(
                    self@.open,
                    handle@,
                ) == i,
                None => !is_open(self@.open, handle@),
            },
    {
        proof {
            use_type_invariant(self);
        }
        let mut i: usize = 0;
        while i < self.open_handles.len()
            invariant
                i <= self.open_handles@.len(),
                distinct(self@.open),
                self@.open == handles(self.open_handles@),
                forall|j: int| 0 <= j < i ==> (#[trigger] self@.open[j]).handle != handle@,
            decreases self.open_handles.len() - i,
        {
            if same_bytes(&self.open_handles[i].handle, handle) {
                assert(self@.open[i as int].handle == handle@);
                return Some(i);
            }
            i = i + 1;
        }
        None
    }

    /// Keeps what an open file was opened as.
    fn keep(&mut self, handle: &Vec<u8>, meta: OpenHandleMeta)
        ensures
            final(self)@ == (HandlerView {
                open: with_open(old(self)@.open, handle@, meta),
                ..old(self)@
            }),
            distinct(final(self)@.open),
    {
        let at = self.find(handle);
        let ghost before = self@.open;
        proof {
            use_type_invariant(&*self);
            handles_are_known_until_closed(before, handle@, meta, handle@);
        }
        let bytes = handle.clone();
        let entry = OpenHandle { handle: bytes, meta };
        proof {
            assert(bytes@ =~= handle@);
        }
        let mut open: Vec<OpenHandle> = Vec::new();
        std::mem::swap(&mut open, &mut self.open_handles);
        match at {
            Some(i) => {
                open[i] = entry;
            },
            None => {
                open.push(entry);
            },
        }
        proof {
            assert(handles(open@) =~= with_open(before, handle@, meta));
        }
        self.open_handles = open;
    }

    /// What `open_file` answers. `opened` is the handle that the file system
    /// layer gave. From then on the file is known by its handle.
    pub fn file_opened(
        &mut self,
        volume_id: VolumeId,
        canonical: &Result<Option<String>, String>,
        opened: &Result<Vec<u8>, FsalError>,
    ) -> (r: Result<Vec<u8>, Status>)
        ensures
            match *opened {
                Err(e) => {
                    &&& r is Err
                    &&& r->Err_0.is(fsal_refusal(e).0, fsal_refusal(e).1)
                    &&& final(self)@ == old(self)@
                },
                Ok(handle) => now_open(*canonical, handle@, volume_id, r, old(self)@, final(self)@),
            },
            distinct(final(self)@.open),
    {
        proof {
            use_type_invariant(&*self);
        }
        match opened {
            Err(e) => Err(Self::fsal_err_to_status(e)),
            Ok(handle) => match Self::sanitize_path(canonical) {
                Err(e) => Err(e),
                Ok(path) => {
                    self.keep(handle, OpenHandleMeta { volume_id, path });
                    let answer = handle.clone();
                    proof {
                        assert(answer@ =~= handle@);
                    }
                    Ok(answer)
                },
            },
        }
    }

    /// What `create_file` comes to once the file system layer has created the
    /// file: the path in the store under which it is opened again.
    pub fn file_created(
        volume_id: &str,
        canonical: &Result<Option<String>, String>,
        created: &Result<(), FsalError>,
    ) -> (r: Result<String, Status>)
        ensures
            match *created {
                Err(e) => r is Err && r->Err_0.is(fsal_refusal(e).0, fsal_refusal(e).1),
                Ok(_) => match *canonical {
                    Ok(path) => r is Ok && r->Ok_0@ == store_path(
                        volume_id@,
                        paths::forward_slashes(text::text_or(path, "/"@)),
                    ),
                    Err(e) => r is Err && r->Err_0.is(
                        Code::InvalidArgument,
                        "Path traversal blocked: "@ + e@,
                    ),
                },
            },
    {
        match created {
            Err(e) => Err(Self::fsal_err_to_status(e)),
            Ok(_) => Self::store_call(volume_id, canonical),
        }
    }

    /// What `create_file` answers once the store has opened the file again.
    pub fn file_reopened(
        &mut self,
        volume_id: VolumeId,
        canonical: &Result<Option<String>, String>,
        opened: &Result<Vec<u8>, StorageError>,
    ) -> (r: Result<Vec<u8>, Status>)
        ensures
            match *opened {
                Err(e) => {
                    &&& r is Err
                    &&& r->Err_0.is(storage_refusal(e).0, storage_refusal(e).1)
                    &&& final(self)@ == old(self)@
                },
                Ok(handle) => now_open(*canonical, handle@, volume_id, r, old(self)@, final(self)@),
            },
            distinct(final(self)@.open),
    {
        proof {
            use_type_invariant(&*self);
        }
        match opened {
            Err(e) => Err(Self::storage_err_to_status(e)),
            Ok(handle) => match Self::sanitize_path(canonical) {
                Err(e) => Err(e),
                Ok(path) => {
                    self.keep(handle, OpenHandleMeta { volume_id, path });
                    let answer = handle.clone();
                    proof {
                        assert(answer@ =~= handle@);
                    }
                    Ok(answer)
                },
            },
        }
    }

    /// What `read_at` and `write_at` of an authenticated caller come to.
    pub fn on_handle(&self, caller: NodeId, handle: &Vec<u8>) -> (r: Result<HandleCall, Status>)
        ensures
            handle_call(r, self@.host, caller, opened_as(self@.open, handle@)),
    {
        match self.find(handle) {
            Some(i) => {
                let meta = self.open_handles[i].meta.clone();
                Ok(self.call_on(caller, meta))
            },
            None => Err(Status::new(Code::InvalidArgument, "Unknown file handle")),
        }
    }

    fn call_on(&self, caller: NodeId, meta: OpenHandleMeta) -> (r: HandleCall)
        ensures
            r.provenance == provenance(self@.host, caller, meta.volume_id),
            r.path == meta.path,
    {
        HandleCall {
            provenance: Provenance {
                execution_id: Self::sentinel_execution_id(),
                volume_id: meta.volume_id,
                caller_node_id: caller,
                host_node_id: self.host_node_id,
            },
            path: meta.path,
        }
    }

    /// What `read_at` answers.
    pub fn data_read(result: Result<Vec<u8>, FsalError>) -> (r: Result<Vec<u8>, Status>)
        ensures
            match result {
                Ok(data) => r == Ok::<Vec<u8>, Status>(data),
                Err(e) => r is Err && r->Err_0.is(fsal_refusal(e).0, fsal_refusal(e).1),
            },
    {
        match result {
            Ok(data) => Ok(data),
            Err(e) => Err(Self::fsal_err_to_status(&e)),
        }
    }

    /// What `write_at` answers.
    pub fn data_written(result: &Result<usize, FsalError>) -> (r: Result<u32, Status>)
        ensures
            match *result {
                Ok(n) => r == Ok::<u32, Status>(n as u32),
                Err(e) => r is Err && r->Err_0.is(fsal_refusal(e).0, fsal_refusal(e).1),
            },
    {
        match result {
            Ok(n) => {
                let count: usize = *n;
                Ok(count as u32)
            },
            Err(e) => Err(Self::fsal_err_to_status(e)),
        }
    }

    /// What `close_file` of an authenticated caller comes to. The handle is not
    /// known any more, whatever the file system layer then says.
    pub fn close_handle(&mut self, caller: NodeId, handle: &Vec<u8>) -> (r: Result<
        HandleCall,
        Status,
    >)
        ensures
            handle_call(r, old(self)@.host, caller, opened_as(old(self)@.open, handle@)),
            final(self)@ == (HandlerView {
                open: without_open(old(self)@.open, handle@),
                ..old(self)@
            }),
            opened_as(final(self)@.open, handle@) is None,
            distinct(final(self)@.open),
    {
        proof {
            use_type_invariant(&*self);
        }
        let at = self.find(handle);
        let ghost before = self@.open;
        match at {
            None => Err(Status::new(Code::InvalidArgument, "Unknown file handle")),
            Some(i) => {
                let meta = self.open_handles[i].meta.clone();
                proof {
                    use_type_invariant(&*self);
                    handles_are_known_until_closed(before, handle@, meta, handle@);
                }
                let mut open: Vec<OpenHandle> = Vec::new();
                std::mem::swap(&mut open, &mut self.open_handles);
                let _ = open.remove(i);
                proof {
                    assert(handles(open@) =~= without_open(before, handle@));
                }
                self.open_handles = open;
                Ok(self.call_on(caller, meta))
            },
        }
    }

    /// What `stat` answers.
    pub fn attributes(result: &Result<FileAttributes, FsalError>) -> (r: Result<
        StatResponse,
        Status,
    >)
        ensures
            match *result {
                Ok(attrs) => r == Ok::<StatResponse, Status>(
                    StatResponse {
                        file_type: type_number(attrs.file_type),
                        size: attrs.size,
                        mtime: attrs.mtime,
                        atime: attrs.atime,
                        ctime: attrs.ctime,
                        mode: attrs.mode,
                        uid: attrs.uid,
                        gid: attrs.gid,
                        nlink: attrs.nlink,
                    },
                ),
                Err(e) => r is Err && r->Err_0.is(fsal_refusal(e).0, fsal_refusal(e).1),
            },
    {
        match result {
            Ok(attrs) => Ok(
                StatResponse {
                    file_type: Self::file_type_to_proto(attrs.file_type),
                    size: attrs.size,
                    mtime: attrs.mtime,
                    atime: attrs.atime,
                    ctime: attrs.ctime,
                    mode: attrs.mode,
                    uid: attrs.uid,
                    gid: attrs.gid,
                    nlink: attrs.nlink,
                },
            ),
            Err(e) => Err(Self::fsal_err_to_status(e)),
        }
    }

    /// What `readdir` answers.
    pub fn entries(result: &Result<Vec<DirEntry>, FsalError>) -> (r: Result<
        Vec<DirEntryProto>,
        Status,
    >)
        ensures
            match *result {
                Ok(entries) => r is Ok && r->Ok_0@.len() == entries@.len() && forall|i: int|
                    0 <= i < entries@.len() ==> (#[trigger] r->Ok_0@[i]) == (DirEntryProto {
                        name: entries@[i].name,
                        file_type: type_number(entries@[i].file_type),
                    }),
                Err(e) => r is Err && r->Err_0.is(fsal_refusal(e).0, fsal_refusal(e).1),
            },
    {
        let entries = match result {
            Ok(entries) => entries,
            Err(e) => return Err(Self::fsal_err_to_status(e)),
        };
        let mut answer: Vec<DirEntryProto> = Vec::new();
        let mut i: usize = 0;
        while i < entries.len()
            invariant
                i <= entries@.len(),
                answer@.len() == i,
                forall|j: int|
                    0 <= j < i ==> (#[trigger] answer@[j]) == (DirEntryProto {
                        name: entries@[j].name,
                        file_type: type_number(entries@[j].file_type),
                    }),
            decreases entries.len() - i,
        {
            answer.push(
                DirEntryProto {
                    name: entries[i].name.clone(),
                    file_type: Self::file_type_to_proto(entries[i].file_type),
                },
            );
            i = i + 1;
        }
        Ok(answer)
    }
}

/// What an opened file comes to: its handle goes back and is known from then
/// on, or its path is refused and nothing is kept.
pub open spec fn now_open(
    canonical: Result<Option<String>, String>,
    handle: Seq<u8>,
    volume_id: VolumeId,
    r: Result<Vec<u8>, Status>,
    before: HandlerView,
    after: HandlerView,
) -> bool {
    match canonical {
        Err(e) => {
            &&& r is Err
            &&& r->Err_0.is(Code::InvalidArgument, "Path traversal blocked: "@ + e@)
            &&& after == before
        },
        Ok(path) => {
            &&& r is Ok
            &&& r->Ok_0@ == handle
            &&& exists|meta: OpenHandleMeta|
                {
                    &&& meta.volume_id == volume_id
                    &&& meta.path@ == paths::forward_slashes(text::text_or(path, "/"@))
                    &&& after == (HandlerView {
                        open: #[trigger] with_open(before.open, handle, meta),
                        ..before
                    })
                }
        },
    }
}

/// Whether two byte strings are equal.
fn same_bytes(a: &Vec<u8>, b: &Vec<u8>) -> (r: bool)
    ensures
        r == (a@ == b@),
{
    if a.len() != b.len() {
        return false;
    }
    let mut i: usize = 0;
    while i < a.len()
        invariant
            i <= a@.len(),
            a@.len() == b@.len(),
            forall|j: int| 0 <= j < i ==> #[trigger] a@[j] == b@[j],
        decreases a.len() - i,
    {
        if a[i] != b[i] {
            return false;
        }
        i = i + 1;
    }
    proof {
        assert(a@ =~= b@);
    }
    true
}

/// Whether a call was refused with that sort and those words.
pub open spec fn refused<T>(r: Result<T, Status>, code: Code, words: Seq<char>) -> bool {
    r matches Err(status) && status.code == code && status.message@ == words
}

/// A call that bears its node's signature is answered as that node's, whatever
/// node it is.
pub proof fn signed_calls_are_answered(
    r: Result<NodeId, Status>,
    envelope: NodeEnvelope,
    node_id: NodeId,
    key: Vec<u8>,
)
    requires
        authenticated(r, Some(envelope), Ok(node_id), Ok(Some(key))),
        key@.len() == 32,
        key_read(key@) is Ok,
        signature_read(envelope.signature@) is Ok,
        signature_fault(
            key_read(key@)->Ok_0,
            envelope.payload@,
            signature_read(envelope.signature@)->Ok_0,
        ) is None,
    ensures
        r is Ok,
        r->Ok_0 == node_id,
{
}

/// A call that is not answered says why: what the caller lacks makes it
/// unauthenticated, what the cluster's own records lack makes it internal. The
/// first fault counts, in the order envelope, token, records, key, signature.
pub proof fn unanswered_calls_say_why(
    r: Result<NodeId, Status>,
    envelope: Option<NodeEnvelope>,
    claims: Result<NodeId, String>,
    peer: Result<Option<Vec<u8>>, String>,
)
    requires
        authenticated(r, envelope, claims, peer),
    ensures
        envelope is None ==> refused(r, Code::Unauthenticated, "Missing security envelope"@),
        envelope is Some && claims is Err ==> refused(
            r,
            Code::Unauthenticated,
            "Invalid token: "@ + claims->Err_0@,
        ),
        envelope is Some && claims is Ok && peer is Err ==> refused(
            r,
            Code::Internal,
            "Database error: "@ + peer->Err_0@,
        ),
        envelope is Some && claims is Ok && peer is Ok && peer->Ok_0 is None ==> refused(
            r,
            Code::Unauthenticated,
            "Node not registered"@,
        ),
        envelope is Some && claims is Ok && peer is Ok && peer->Ok_0 is Some ==> ({
            let key = peer->Ok_0->0@;
            let signature = envelope->0.signature@;
            &&& key.len() != 32 ==> refused(
                r,
                Code::Internal,
                "Invalid stored public key length"@,
            )
            &&& key.len() == 32 && key_read(key) is Err ==> refused(
                r,
                Code::Internal,
                "Invalid stored public key: "@ + key_read(key)->Err_0,
            )
            &&& key.len() == 32 && key_read(key) is Ok && signature_read(signature) is Err
                ==> refused(
                r,
                Code::Unauthenticated,
                "Invalid signature format: "@ + signature_read(signature)->Err_0,
            )
            &&& key.len() == 32 && key_read(key) is Ok && signature_read(signature) is Ok
                && signature_fault(
                key_read(key)->Ok_0,
                envelope->0.payload@,
                signature_read(signature)->Ok_0,
            ) is Some ==> refused(
                r,
                Code::Unauthenticated,
                "Signature verification failed: "@ + signature_fault(
                    key_read(key)->Ok_0,
                    envelope->0.payload@,
                    signature_read(signature)->Ok_0,
                )->0,
            )
        }),
{
}

/// An error of the store goes back by its sort, with its own words where it is
/// about the caller's request, and with all that it says where it is not.
pub proof fn storage_errors_go_back_by_their_sort(e: StorageError)
    ensures
        e matches StorageError::NotFound(m) ==> storage_refusal(e) == (Code::NotFound, m@),
        e matches StorageError::FileNotFound(m) ==> storage_refusal(e) == (Code::NotFound, m@),
        e matches StorageError::PermissionDenied(m) ==> storage_refusal(e) == (
            Code::PermissionDenied,
            m@,
        ),
        e matches StorageError::AlreadyExists(m) ==> storage_refusal(e) == (
            Code::AlreadyExists,
            m@,
        ),
        e is QuotaExceeded ==> storage_refusal(e) == (
            Code::ResourceExhausted,
            "quota exceeded"@,
        ),
        e matches StorageError::Unavailable(m) ==> storage_refusal(e) == (Code::Unavailable, m@),
        e matches StorageError::InvalidPath(m) ==> storage_refusal(e) == (
            Code::InvalidArgument,
            m@,
        ),
        e matches StorageError::Serialization(m) ==> storage_refusal(e) == (
            Code::Internal,
            "Serialization error: "@ + m@,
        ),
        e matches StorageError::Unknown(m) ==> storage_refusal(e) == (
            Code::Internal,
            "Unknown error: "@ + m@,
        ),
{
}

/// An error of the file system layer goes back by its sort with its own words;
/// what it has from the store goes back as the store's.
pub proof fn layer_errors_go_back_by_their_sort(e: FsalError)
    ensures
        e matches FsalError::UnauthorizedAccess(m) ==> fsal_refusal(e) == (
            Code::PermissionDenied,
            m@,
        ),
        e matches FsalError::VolumeNotFound(m) ==> fsal_refusal(e) == (Code::NotFound, m@),
        e matches FsalError::VolumeNotAttached(m) ==> fsal_refusal(e) == (
            Code::FailedPrecondition,
            m@,
        ),
        e matches FsalError::PathSanitization(m) ==> fsal_refusal(e) == (
            Code::InvalidArgument,
            m@,
        ),
        e matches FsalError::PolicyViolation(m) ==> fsal_refusal(e) == (
            Code::PermissionDenied,
            m@,
        ),
        e matches FsalError::InvalidFileHandle(m) ==> fsal_refusal(e) == (
            Code::InvalidArgument,
            m@,
        ),
        e matches FsalError::HandleDeserialization(m) ==> fsal_refusal(e) == (
            Code::InvalidArgument,
            m@,
        ),
        e matches FsalError::QuotaExceeded(m) ==> fsal_refusal(e) == (
            Code::ResourceExhausted,
            m@,
        ),
        e matches FsalError::Storage(inner) ==> fsal_refusal(e) == storage_refusal(inner),
{
}

/// A refusal is what its sort and its words make it.
pub proof fn refusals_have_sort_and_words(status: Status, code: Code, words: Seq<char>)
    ensures
        status.is(code, words) <==> refused(Err::<(), Status>(status), code, words),
{
}

/// Each number of a mode opens for what it stands for, and a number that stands
/// for nothing only for reading; no two file types share a number.
pub proof fn numbers_stand_for_modes_and_types(mode: i32, a: FileType, b: FileType)
    ensures
        mode_of(mode) == OpenMode::WriteOnly <==> mode == 1,
        mode_of(mode) == OpenMode::ReadWrite <==> mode == 2,
        mode_of(mode) == OpenMode::Create <==> mode == 3,
        mode_of(mode) == OpenMode::ReadOnly <==> !(1 <= mode <= 3),
        type_number(a) == type_number(b) <==> a == b,
        a is File ==> type_number(a) == 0,
        a is Directory ==> type_number(a) == 1,
        a is Symlink ==> type_number(a) == 2,
{
}

/// Two files of the store share a path only where they have the same path on
/// the same volume, identifiers of volumes being of one length; and all lie
/// under the volumes' directory.
pub proof fn store_paths_keep_volumes_apart(
    volume_a: Seq<char>,
    path_a: Seq<char>,
    volume_b: Seq<char>,
    path_b: Seq<char>,
)
    requires
        volume_a.len() == volume_b.len(),
    ensures
        store_path(volume_a, path_a) == store_path(volume_b, path_b) <==> volume_a == volume_b
            && path_a == path_b,
        "/aegis/volumes/"@.is_prefix_of(store_path(volume_a, path_a)),
        store_path(volume_a, path_a).skip("/aegis/volumes/"@.len() as int) == volume_a + path_a,
{
    let root = "/aegis/volumes/"@;
    let a = store_path(volume_a, path_a);
    let b = store_path(volume_b, path_b);
    assert(a.subrange(0, root.len() as int) =~= root);
    assert(a.skip(root.len() as int) =~= volume_a + path_a);
    if a == b {
        assert(a.subrange(root.len() as int, (root.len() + volume_a.len()) as int) =~= volume_a);
        assert(b.subrange(root.len() as int, (root.len() + volume_b.len()) as int) =~= volume_b);
        assert(a.skip((root.len() + volume_a.len()) as int) =~= path_a);
        assert(b.skip((root.len() + volume_b.len()) as int) =~= path_b);
    }
}

/// A path goes on with slashes for backslashes; one that is no text counts as
/// the root; one that leads out is refused.
pub proof fn paths_are_made_uniform(
    r: Result<String, Status>,
    canonical: Result<Option<String>, String>,
    i: int,
)
    requires
        sanitized(r, canonical),
    ensures
        r is Ok <==> canonical is Ok,
        canonical is Err ==> refused(
            r,
            Code::InvalidArgument,
            "Path traversal blocked: "@ + canonical->Err_0@,
        ),
        canonical is Ok && canonical->Ok_0 is None ==> r->Ok_0@ == "/"@,
        canonical is Ok && canonical->Ok_0 is Some ==> r->Ok_0@.len()
            == canonical->Ok_0->0@.len(),
        canonical is Ok && canonical->Ok_0 is Some && 0 <= i < r->Ok_0@.len() ==> r->Ok_0@[i] == (
        if canonical->Ok_0->0@[i] == '\\' {
            '/'
        } else {
            canonical->Ok_0->0@[i]
        }),
{
    reveal_strlit("/");
    if canonical is Ok && canonical->Ok_0 is None {
        assert(paths::forward_slashes("/"@) =~= "/"@);
    }
}

/// A call on a volume is made for that volume, by the caller, on the host, and
/// for no execution but the one that stands for other nodes.
pub proof fn calls_name_volume_caller_and_host(
    r: Result<Provenance, Status>,
    host: NodeId,
    caller: NodeId,
    volume_id: Seq<char>,
)
    requires
        volume_call(r, host, caller, volume_id),
    ensures
        r is Ok <==> shared_kernel::uuid_parsed(volume_id) is Ok,
        r is Ok ==> r->Ok_0.volume_id.0.bits == shared_kernel::uuid_parsed(volume_id)->Ok_0
            && r->Ok_0.caller_node_id == caller && r->Ok_0.host_node_id == host
            && r->Ok_0.execution_id.0.bits == 0x0000_0000_0000_4000_8000_0000_0000_0001u128,
        r is Err ==> refused(
            r,
            Code::InvalidArgument,
            "Invalid volume_id: "@ + shared_kernel::uuid_parsed(volume_id)->Err_0,
        ),
{
}

/// A call on an open file is made on the volume and the path that the file was
/// opened as; a handle that is not known is refused.
pub proof fn open_files_are_called_as_opened(
    r: Result<HandleCall, Status>,
    host: NodeId,
    caller: NodeId,
    known: Option<OpenHandleMeta>,
)
    requires
        handle_call(r, host, caller, known),
    ensures
        known is Some ==> r is Ok && r->Ok_0.provenance.volume_id == known->0.volume_id
            && r->Ok_0.provenance.caller_node_id == caller && r->Ok_0.provenance.host_node_id
            == host && r->Ok_0.provenance.execution_id.0.bits
            == 0x0000_0000_0000_4000_8000_0000_0000_0001u128 && r->Ok_0.path@ == known->0.path@,
        known is None ==> refused(r, Code::InvalidArgument, "Unknown file handle"@),
{
}

/// An opened file is known by the handle that goes back, with its volume and its
/// path, until it is closed; a refused path leaves everything as it was.
pub proof fn opened_files_are_known(
    canonical: Result<Option<String>, String>,
    handle: Seq<u8>,
    volume_id: VolumeId,
    r: Result<Vec<u8>, Status>,
    before: HandlerView,
    after: HandlerView,
    other: Seq<u8>,
    i: int,
)
    requires
        distinct(before.open),
        now_open(canonical, handle, volume_id, r, before, after),
    ensures
        r is Ok <==> canonical is Ok,
        after.host == before.host,
        r is Err ==> after == before && refused(
            r,
            Code::InvalidArgument,
            "Path traversal blocked: "@ + canonical->Err_0@,
        ),
        r is Ok ==> r->Ok_0@ == handle && opened_as(after.open, handle) is Some && opened_as(
            after.open,
            handle,
        )->0.volume_id == volume_id && (canonical->Ok_0 is None ==> opened_as(
            after.open,
            handle,
        )->0.path@ == "/"@) && (canonical->Ok_0 is Some ==> opened_as(
            after.open,
            handle,
        )->0.path@.len() == canonical->Ok_0->0@.len()),
        r is Ok && canonical->Ok_0 is Some && 0 <= i < canonical->Ok_0->0@.len() ==> opened_as(
            after.open,
            handle,
        )->0.path@[i] == (if canonical->Ok_0->0@[i] == '\\' {
            '/'
        } else {
            canonical->Ok_0->0@[i]
        }),
        other != handle ==> opened_as(after.open, other) == opened_as(before.open, other),
{
    reveal_strlit("/");
    if let Ok(path) = canonical {
        let meta = choose|meta: OpenHandleMeta|
            {
                &&& meta.volume_id == volume_id
                &&& meta.path@ == paths::forward_slashes(text::text_or(path, "/"@))
                &&& after == (HandlerView {
                    open: #[trigger] with_open(before.open, handle, meta),
                    ..before
                })
            };
        handles_are_known_until_closed(before.open, handle, meta, other);
        if path is None {
            assert(paths::forward_slashes("/"@) =~= "/"@);
        }
    }
}

/// What a file was opened as is what stands under its handle, and nothing where
/// no file has that handle.
pub proof fn handles_lead_to_their_files(s: Seq<HandleView>, handle: Seq<u8>, i: int)
    requires
        distinct(s),
    ensures
        0 <= i < s.len() && s[i].handle == handle ==> opened_as(s, handle) == Some(s[i].meta),
        (forall|j: int| 0 <= j < s.len() ==> (#[trigger] s[j]).handle != handle) <==> opened_as(
            s,
            handle,
        ) is None,
{
    if 0 <= i < s.len() && s[i].handle == handle {
        assert(is_open(s, handle));
    }
}

/// An open file is known by the bytes of its handle, and as what it was opened.
pub proof fn open_files_are_their_handles(open: OpenHandle)
    ensures
        open@.handle == open.handle@,
        open@.meta == open.meta,
{
}

/// What is known of a file goes back part by part, and its type by its number.
pub proof fn attributes_go_back_part_by_part(
    result: &Result<FileAttributes, FsalError>,
    r: Result<StatResponse, Status>,
)
    requires
        call_ensures(RemoteStorageServiceHandler::attributes, (result,), r),
    ensures
        r is Ok <==> *result is Ok,
        *result is Ok ==> ({
            let found = result->Ok_0;
            let sent = r->Ok_0;
            &&& sent.size == found.size
            &&& sent.mtime == found.mtime
            &&& sent.atime == found.atime
            &&& sent.ctime == found.ctime
            &&& sent.mode == found.mode
            &&& sent.uid == found.uid
            &&& sent.gid == found.gid
            &&& sent.nlink == found.nlink
            &&& found.file_type is File <==> sent.file_type == 0
            &&& found.file_type is Directory <==> sent.file_type == 1
            &&& found.file_type is Symlink <==> sent.file_type == 2
        }),
        *result is Err ==> refused(
            r,
            fsal_refusal(result->Err_0).0,
            fsal_refusal(result->Err_0).1,
        ),
{
}

/// The entries of a directory go back in their order, each with its name and the
/// number of its type.
pub proof fn entries_go_back_in_order(
    result: &Result<Vec<DirEntry>, FsalError>,
    r: Result<Vec<DirEntryProto>, Status>,
    i: int,
)
    requires
        call_ensures(RemoteStorageServiceHandler::entries, (result,), r),
    ensures
        r is Ok <==> *result is Ok,
        *result is Ok ==> r->Ok_0@.len() == result->Ok_0@.len(),
        *result is Ok && 0 <= i < result->Ok_0@.len() ==> r->Ok_0@[i].name@
            == result->Ok_0@[i].name@ && (result->Ok_0@[i].file_type is File <==> r->Ok_0@[i].file_type
            == 0) && (result->Ok_0@[i].file_type is Directory <==> r->Ok_0@[i].file_type == 1) && (
        result->Ok_0@[i].file_type is Symlink <==> r->Ok_0@[i].file_type == 2),
        *result is Err ==> refused(
            r,
            fsal_refusal(result->Err_0).0,
            fsal_refusal(result->Err_0).1,
        ),
{
}

/// What was read and how much was written goes back as it is, and a call that
/// only succeeds or fails says which; a failure goes back by its sort.
pub proof fn outcomes_go_back_as_they_are(
    read: Result<Vec<u8>, FsalError>,
    written: &Result<usize, FsalError>,
    call: &Result<(), FsalError>,
    stored: &Result<(), StorageError>,
    counted: &Result<u64, StorageError>,
    data: Result<Vec<u8>, Status>,
    count: Result<u32, Status>,
    done: Result<RemoteStorageResponse, Status>,
    store_done: Result<RemoteStorageResponse, Status>,
    usage: Result<u64, Status>,
)
    requires
        call_ensures(RemoteStorageServiceHandler::data_read, (read,), data),
        call_ensures(RemoteStorageServiceHandler::data_written, (written,), count),
        call_ensures(RemoteStorageServiceHandler::done, (call,), done),
        call_ensures(RemoteStorageServiceHandler::store_done, (stored,), store_done),
        call_ensures(RemoteStorageServiceHandler::usage, (counted,), usage),
    ensures
        read is Ok ==> data is Ok && data->Ok_0@ == read->Ok_0@,
        *written is Ok && written->Ok_0 <= u32::MAX ==> count is Ok && count->Ok_0 == written->Ok_0,
        *call is Ok ==> done is Ok && done->Ok_0.success && done->Ok_0.error_message@.len() == 0,
        *stored is Ok ==> store_done is Ok && store_done->Ok_0.success
            && store_done->Ok_0.error_message@.len() == 0,
        *counted is Ok ==> usage is Ok && usage->Ok_0 == counted->Ok_0,
        read is Err ==> refused(data, fsal_refusal(read->Err_0).0, fsal_refusal(read->Err_0).1),
        *written is Err ==> refused(
            count,
            fsal_refusal(written->Err_0).0,
            fsal_refusal(written->Err_0).1,
        ),
        *call is Err ==> refused(done, fsal_refusal(call->Err_0).0, fsal_refusal(call->Err_0).1),
        *stored is Err ==> refused(
            store_done,
            storage_refusal(stored->Err_0).0,
            storage_refusal(stored->Err_0).1,
        ),
        *counted is Err ==> refused(
            usage,
            storage_refusal(counted->Err_0).0,
            storage_refusal(counted->Err_0).1,
        ),
{
}

/// A file that was created is opened again under its volume's path in the store;
/// one that was not created is not.
pub proof fn created_files_are_opened_where_they_are(
    volume_id: &str,
    canonical: &Result<Option<String>, String>,
    created: &Result<(), FsalError>,
    r: Result<String, Status>,
    path: Seq<char>,
)
    requires
        call_ensures(RemoteStorageServiceHandler::file_created, (volume_id, canonical, created), r),
    ensures
        *created is Err ==> refused(
            r,
            fsal_refusal(created->Err_0).0,
            fsal_refusal(created->Err_0).1,
        ),
        *created is Ok && *canonical is Err ==> refused(
            r,
            Code::InvalidArgument,
            "Path traversal blocked: "@ + canonical->Err_0@,
        ),
        *created is Ok && *canonical is Ok && canonical->Ok_0 is Some
            && canonical->Ok_0->0@ == path && !path.contains('\\') ==> r is Ok && r->Ok_0@
            == "/aegis/volumes/"@ + volume_id@ + path,
        *created is Ok && *canonical is Ok && canonical->Ok_0 is None ==> r is Ok && r->Ok_0@
            == "/aegis/volumes/"@ + volume_id@ + "/"@,
{
    reveal_strlit("/");
    assert(paths::forward_slashes("/"@) =~= "/"@);
    if !path.contains('\\') {
        assert forall|i: int| 0 <= i < path.len() implies #[trigger] path[i] != '\\' by {
            assert(path.contains(path[i]));
        }
        assert(paths::forward_slashes(path) =~= path);
    }
}

/// Calls of other nodes may read and write everything: their own node has
/// applied its policy already.
pub proof fn other_nodes_may_read_and_write(r: FsalAccessPolicy)
    requires
        call_ensures(RemoteStorageServiceHandler::system_policy, (), r),
    ensures
        r.read@.len() == 1 && r.read@[0]@ == "/**"@,
        r.write@.len() == 1 && r.write@[0]@ == "/**"@,
{
    assert(text::texts(r.read@).len() == 1);
    assert(text::texts(r.write@).len() == 1);
    assert(text::texts(r.read@)[0] == r.read@[0]@);
    assert(text::texts(r.write@)[0] == r.write@[0]@);
}

} // verus!
