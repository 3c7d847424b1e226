//! Hosted workspace attachments: when one may be attached, refreshed, moved or
//! recovered, and the identifiers that go with it.
use vstd::prelude::*;

use crate::model::StoreError;
use crate::paths;
use crate::paths::{PathComponent, PathStyle};
use crate::text;

verus! {

/// What is done with a hosted workspace.
#[derive(Clone, Copy, Debug, PartialEq, Eq, Structural)]
pub enum HostedWorkspaceOperation {
    Attach,
    Refresh,
    Relocate,
}

/// What attaching, refreshing or moving a workspace came to.
#[derive(Debug, PartialEq, Eq)]
pub struct HostedWorkspaceAttachReport {
    pub ok: bool,
    pub api_origin: String,
    pub profile_id: String,
    pub profile_revision: u64,
    pub root: String,
    pub mount_count: usize,
    pub files: u64,
    pub directories: u64,
    pub materialized_bytes: u64,
}

/// The attached workspaces.
#[derive(Debug, PartialEq, Eq)]
pub struct HostedWorkspaceListReport {
    pub ok: bool,
    pub attachments: Vec<HostedWorkspaceListEntry>,
}

/// An attached workspace.
#[derive(Debug, PartialEq, Eq)]
pub struct HostedWorkspaceListEntry {
    pub api_origin: String,
    pub profile_id: String,
    pub profile_revision: u64,
    pub root: String,
    pub layout_version: u16,
    pub layout_digest: String,
    pub mounts: Vec<HostedWorkspaceMountListEntry>,
}

/// A mount of an attached workspace.
#[derive(Debug, PartialEq, Eq)]
pub struct HostedWorkspaceMountListEntry {
    pub portable_mount_id: String,
    pub local_mount_id: String,
    pub mount_target: String,
    pub active: bool,
}

/// Why a workspace could not be attached, refreshed, moved or recovered.
#[derive(Debug, PartialEq, Eq)]
pub enum HostedWorkspaceAttachError {
    InvalidPlacement(String),
    /// The credential store failed, with its own code and words.
    Credential { code: String, message: String },
    /// The hosted service or the talk with it failed, with its own code and
    /// words.
    Protocol { code: String, message: String },
    Store(StoreError),
    Lock(String),
    Materialization(String),
    GenerationTwoRequired,
    Recovery(String),
}

impl HostedWorkspaceAttachError {
    /// The code that names the failure.
    pub open spec fn code_text(self) -> Seq<char> {
        match self {
            HostedWorkspaceAttachError::InvalidPlacement(_) =>
            "hosted_workspace_invalid_placement"@,
            HostedWorkspaceAttachError::Credential { code, .. } => code@,
            HostedWorkspaceAttachError::Protocol { code, .. } => code@,
            HostedWorkspaceAttachError::Store(_) => "hosted_workspace_state_error"@,
            HostedWorkspaceAttachError::Lock(_) => "workspace_path_lock_unavailable"@,
            HostedWorkspaceAttachError::Materialization(_) =>
            "hosted_workspace_materialization_failed"@,
            HostedWorkspaceAttachError::GenerationTwoRequired =>
            "workspace_layout_update_required"@,
            HostedWorkspaceAttachError::Recovery(_) => "hosted_workspace_recovery_required"@,
        }
    }

    /// The code that names the failure.
    pub fn code(&self) -> (r: &str)
        ensures
            r@ == self.code_text(),
    {
        match self {
            HostedWorkspaceAttachError::InvalidPlacement(_) =>
            "hosted_workspace_invalid_placement",
            HostedWorkspaceAttachError::Credential { code, .. } => code.as_str(),
            HostedWorkspaceAttachError::Protocol { code, .. } => code.as_str(),
            HostedWorkspaceAttachError::Store(_) => "hosted_workspace_state_error",
            HostedWorkspaceAttachError::Lock(_) => "workspace_path_lock_unavailable",
            HostedWorkspaceAttachError::Materialization(_) =>
            "hosted_workspace_materialization_failed",
            HostedWorkspaceAttachError::GenerationTwoRequired =>
            "workspace_layout_update_required",
            HostedWorkspaceAttachError::Recovery(_) => "hosted_workspace_recovery_required",
        }
    }

    /// What the failure is, in words.
    pub open spec fn message_text(self) -> Seq<char> {
        match self {
            HostedWorkspaceAttachError::InvalidPlacement(message) => message@,
            HostedWorkspaceAttachError::Credential { message, .. } => message@,
            HostedWorkspaceAttachError::Protocol { message, .. } => message@,
            HostedWorkspaceAttachError::Store(error) => error.message@,
            HostedWorkspaceAttachError::Lock(message) => "workspace path lock unavailable: "@
                + message@,
            HostedWorkspaceAttachError::Materialization(message) => message@,
            HostedWorkspaceAttachError::GenerationTwoRequired =>
            "hosted workspace attachment requires a generation-2 layout-1 profile"@,
            HostedWorkspaceAttachError::Recovery(message) => "hosted workspace recovery: "@
                + message@,
        }
    }

    /// What the failure is, in words.
    pub fn message(&self) -> (r: String)
        ensures
            r@ == self.message_text(),
    {
        match self {
            HostedWorkspaceAttachError::InvalidPlacement(message) => message.clone(),
            HostedWorkspaceAttachError::Credential { message, .. } => message.clone(),
            HostedWorkspaceAttachError::Protocol { message, .. } => message.clone(),
            HostedWorkspaceAttachError::Store(error) => error.message.clone(),
            HostedWorkspaceAttachError::Lock(message) => {
                let mut out = "workspace path lock unavailable: ".to_string();
                out.append(message);
                out
            },
            HostedWorkspaceAttachError::Materialization(message) => message.clone(),
            HostedWorkspaceAttachError::GenerationTwoRequired =>
            "hosted workspace attachment requires a generation-2 layout-1 profile".to_string(),
            HostedWorkspaceAttachError::Recovery(message) => {
                let mut out = "hosted workspace recovery: ".to_string();
                out.append(message);
                out
            },
        }
    }
}

/// Whether an error refuses a placement in these words.
pub open spec fn refuses_placement(error: HostedWorkspaceAttachError, message: Seq<char>) -> bool {
    error matches HostedWorkspaceAttachError::InvalidPlacement(m) && m@ == message
}

/// Whether an error asks for recovery in these words.
pub open spec fn needs_recovery(error: HostedWorkspaceAttachError, message: Seq<char>) -> bool {
    error matches HostedWorkspaceAttachError::Recovery(m) && m@ == message
}

fn placement(message: &str) -> (r: HostedWorkspaceAttachError)
    ensures
        refuses_placement(r, message@),
{
    HostedWorkspaceAttachError::InvalidPlacement(message.to_string())
}

fn recovery(message: &str) -> (r: HostedWorkspaceAttachError)
    ensures
        needs_recovery(r, message@),
{
    HostedWorkspaceAttachError::Recovery(message.to_string())
}

/// Whether a path goes up or stays in place somewhere.
pub open spec fn has_dots(c: Seq<paths::Component>) -> bool {
    exists|i: int| 0 <= i < c.len() && ((#[trigger] c[i]) is Current || c[i] is Parent)
}

/// The root as an absolute path, below `current_dir` where it is relative.
pub open spec fn absolute_root(
    style: PathStyle,
    root: Seq<char>,
    current_dir: Seq<char>,
) -> Seq<char> {
    if paths::absolute(style, root) {
        root
    } else {
        paths::joined(style, current_dir, root)
    }
}

/// The root as an absolute path without `.` and `..`, or why there is none.
/// `current_dir` is the current directory, or why it is not known.
pub fn absolute_normalized_root(
    style: PathStyle,
    root: &str,
    current_dir: Result<String, String>,
) -> (r: Result<
    String,
    HostedWorkspaceAttachError,
>)
    ensures
        match current_dir {
            Err(why) if !paths::absolute(style, root@) => r matches Err(e)
                && refuses_placement(e, why@),
            _ => {
                let path = match current_dir {
                    Ok(dir) => absolute_root(style, root@, dir@),
                    Err(_) => root@,
                };
                if has_dots(paths::components(style, path)) {
                    r matches Err(e) && refuses_placement(
                        e,
                        "hosted workspace root must not contain `.` or `..` components"@,
                    )
                } else {
                    r matches Ok(p) && p@ == path
                }
            },
        },
{
    let path = if paths::is_absolute(style, root) {
        root.to_string()
    } else {
        match current_dir {
            Ok(dir) => paths::join(style, &dir, root),
            Err(why) => {
                return Err(HostedWorkspaceAttachError::InvalidPlacement(why));
            },
        }
    };
    let c = paths::components_of(style, &path);
    let mut i: usize = 0;
    while i < c.len()
        invariant
            i <= c.len(),
            paths::views(c@) == paths::components(style, path@),
            forall|k: int|
                0 <= k < i ==> !((#[trigger] paths::views(c@)[k]) is Current || paths::views(c@)[k]
                    is Parent),
            path@ == (match current_dir {
                Ok(dir) => absolute_root(style, root@, dir@),
                Err(_) => root@,
            }),
            current_dir is Err ==> paths::absolute(style, root@),
        decreases c.len() - i,
    {
        match &c[i] {
            PathComponent::Current => {
                assert(paths::views(c@)[i as int] is Current);
                return Err(
                    placement("hosted workspace root must not contain `.` or `..` components"),
                );
            },
            PathComponent::Parent => {
                assert(paths::views(c@)[i as int] is Parent);
                return Err(
                    placement("hosted workspace root must not contain `.` or `..` components"),
                );
            },
            _ => {},
        }
        i += 1;
    }
    Ok(path)
}

/// What stands where a root's parent should.
#[derive(Debug, PartialEq, Eq)]
pub enum ParentState {
    /// The parent could not be looked at, for this reason.
    Unavailable(String),
    /// A directory that is no symbolic link.
    RealDirectory,
    /// Something else.
    Other,
}

/// Whether a root may be created where it should: its parent has to be a real
/// directory.
pub fn validate_destination_parent(style: PathStyle, root: &str, state: ParentState) -> (r: Result<
    (),
    HostedWorkspaceAttachError,
>)
    ensures
        match paths::parent_of(style, root@) {
            None => r matches Err(e) && refuses_placement(
                e,
                "hosted workspace root must have an existing parent"@,
            ),
            Some(parent) => match state {
                ParentState::Unavailable(why) => r matches Err(e) && refuses_placement(
                    e,
                    "hosted workspace parent `"@ + parent + "` is unavailable: "@ + why@,
                ),
                ParentState::RealDirectory => r is Ok,
                ParentState::Other => r matches Err(e) && refuses_placement(
                    e,
                    "hosted workspace parent `"@ + parent + "` must be a real directory"@,
                ),
            },
        },
{
    let parent = match paths::parent(style, root) {
        Some(parent) => parent,
        None => {
            return Err(placement("hosted workspace root must have an existing parent"));
        },
    };
    match state {
        ParentState::Unavailable(why) => {
            let mut message = text::concat3(
                "hosted workspace parent `",
                &parent,
                "` is unavailable: ",
            );
            message.append(&why);
            Err(HostedWorkspaceAttachError::InvalidPlacement(message))
        },
        ParentState::RealDirectory => Ok(()),
        ParentState::Other => Err(
            HostedWorkspaceAttachError::InvalidPlacement(
                text::concat3(
                    "hosted workspace parent `",
                    &parent,
                    "` must be a real directory",
                ),
            ),
        ),
    }
}

/// Whether an operation may go on to a root: a workspace moves only to where
/// nothing is.
pub fn ensure_relocation_target_absent(
    operation: Option<HostedWorkspaceOperation>,
    root: &str,
    root_exists: bool,
) -> (r: Result<(), HostedWorkspaceAttachError>)
    ensures
        if operation == Some(HostedWorkspaceOperation::Relocate) && root_exists {
            r matches Err(e) && refuses_placement(
                e,
                "hosted workspace relocation destination `"@ + root@ + "` must be absent"@,
            )
        } else {
            r is Ok
        },
{
    let relocating = match operation {
        Some(HostedWorkspaceOperation::Relocate) => true,
        _ => false,
    };
    if relocating && root_exists {
        return Err(
            HostedWorkspaceAttachError::InvalidPlacement(
                text::concat3(
                    "hosted workspace relocation destination `",
                    root,
                    "` must be absent",
                ),
            ),
        );
    }
    Ok(())
}

/// Why an operation is refused, given whether the profile is attached and
/// whether its root is the one asked for.
pub open spec fn operation_refusal(
    operation: Option<HostedWorkspaceOperation>,
    attached: bool,
    same_root: bool,
) -> Option<Seq<char>> {
    match (operation, attached) {
        (Some(HostedWorkspaceOperation::Attach), true) => Some(
            "hosted workspace profile is already attached; use refresh or relocate"@,
        ),
        (Some(HostedWorkspaceOperation::Refresh), false) => Some(
            "hosted workspace profile is not attached; use attach first"@,
        ),
        (Some(HostedWorkspaceOperation::Relocate), false) => Some(
            "hosted workspace profile is not attached; use attach first"@,
        ),
        (Some(HostedWorkspaceOperation::Relocate), true) => if same_root {
            Some("hosted workspace relocation destination must differ from the active root"@)
        } else {
            None
        },
        (Some(HostedWorkspaceOperation::Refresh), true) | (None, true) => if same_root {
            None
        } else {
            Some("hosted workspace root changed; use the explicit relocate workflow"@)
        },
        _ => None,
    }
}

/// The root that an operation goes on with, or why it is refused. `existing`
/// is the root of the profile's attachment, and `same_root` says whether the
/// platform takes it for the root asked for. A refresh keeps the root as it is
/// recorded.
pub fn resolve_operation_root(
    operation: Option<HostedWorkspaceOperation>,
    root: String,
    existing: Option<String>,
    same_root: bool,
) -> (r: Result<String, HostedWorkspaceAttachError>)
    ensures
        match operation_refusal(operation, existing is Some, same_root) {
            Some(why) => r matches Err(e) && refuses_placement(e, why),
            None => r == Ok::<_, HostedWorkspaceAttachError>(
                match (operation, existing) {
                    (Some(HostedWorkspaceOperation::Refresh), Some(recorded)) => recorded,
                    (None, Some(recorded)) => recorded,
                    _ => root,
                },
            ),
        },
{
    match (operation, existing) {
        (Some(HostedWorkspaceOperation::Attach), Some(_)) => Err(
            placement("hosted workspace profile is already attached; use refresh or relocate"),
        ),
        (Some(HostedWorkspaceOperation::Refresh), None) => Err(
            placement("hosted workspace profile is not attached; use attach first"),
        ),
        (Some(HostedWorkspaceOperation::Relocate), None) => Err(
            placement("hosted workspace profile is not attached; use attach first"),
        ),
        (Some(HostedWorkspaceOperation::Relocate), Some(_)) => if same_root {
            Err(
                placement(
                    "hosted workspace relocation destination must differ from the active root",
                ),
            )
        } else {
            Ok(root)
        },
        (Some(HostedWorkspaceOperation::Refresh), Some(recorded)) => if same_root {
            Ok(recorded)
        } else {
            Err(placement("hosted workspace root changed; use the explicit relocate workflow"))
        },
        (None, Some(recorded)) => if same_root {
            Ok(recorded)
        } else {
            Err(placement("hosted workspace root changed; use the explicit relocate workflow"))
        },
        _ => Ok(root),
    }
}

/// Attaching only ever makes a first attachment, refreshing and moving only
/// ever touch one that is there, and no operation but moving changes the root.
pub proof fn law_operations_keep_to_their_state(
    operation: Option<HostedWorkspaceOperation>,
    attached: bool,
    same_root: bool,
)
    requires
        operation_refusal(operation, attached, same_root) is None,
    ensures
        operation == Some(HostedWorkspaceOperation::Attach) ==> !attached,
        operation == Some(HostedWorkspaceOperation::Refresh) ==> attached && same_root,
        operation == Some(HostedWorkspaceOperation::Relocate) ==> attached && !same_root,
        attached && operation != Some(HostedWorkspaceOperation::Relocate) ==> same_root,
{
}

/// SHA-256 of bytes.
pub uninterp spec fn sha256(bytes: Seq<u8>) -> Seq<u8>;

/// `sha2::Sha256`: `new`, `update` with all of `bytes`, then `finalize`. The
/// digest is a function of the bytes alone and 32 bytes long; what its bytes
/// are is left to the name.
#[verifier::external_body]
fn sha256_digest(bytes: &[u8]) -> (r: Vec<u8>)
    ensures
        r@ == sha256(bytes@),
        r@.len() == 32,
{
    let mut digest = <sha2::Sha256 as sha2::Digest>::new();
    sha2::Digest::update(&mut digest, bytes);
    sha2::Digest::finalize(digest).to_vec()
}

/// `getrandom::fill` on a buffer of 16 bytes. The bytes are whatever the
/// system gives; where it gives none, its words say why.
#[verifier::external_body]
pub(crate) fn random_bytes() -> (r: Result<Vec<u8>, String>)
    ensures
        r matches Ok(bytes) ==> bytes@.len() == 16,
{
    let mut bytes = [0u8; 16];
    match getrandom::fill(&mut bytes) {
        Ok(()) => Ok(bytes.to_vec()),
        Err(error) => Err(error.to_string()),
    }
}

/// Whether a text has the form of a time of day in UTC, to the millisecond, behind a date.
pub open spec fn is_utc_timestamp(words: Seq<char>) -> bool {
    let n = words.len() as int;
    &&& n >= 24
    &&& words[n - 20] == '-'
    &&& words[n - 17] == '-'
    &&& words[n - 14] == 'T'
    &&& words[n - 11] == ':'
    &&& words[n - 8] == ':'
    &&& words[n - 5] == '.'
    &&& words[n - 1] == 'Z'
}

/// `chrono::Utc::now` and `to_rfc3339_opts` with milliseconds and `Z`: the
/// time of the call. Only its form is claimed, the digits depend on the clock.
#[verifier::external_body]
pub(crate) fn now_timestamp() -> (r: String)
    ensures
        is_utc_timestamp(r@),
{
    chrono::Utc::now().to_rfc3339_opts(chrono::SecondsFormat::Millis, true)
}

/// Bytes in hexadecimal, two digits each.
pub open spec fn hex(bytes: Seq<u8>) -> Seq<char>
    decreases bytes.len(),
{
    if bytes.len() == 0 {
        Seq::empty()
    } else {
        hex(bytes.drop_last()) + text::hex_digits(bytes.last() as nat, 2)
    }
}

fn push_hex_bytes(out: &mut String, bytes: &Vec<u8>)
    ensures
        final(out)@ == old(out)@ + hex(bytes@),
{
    let ghost before = out@;
    let mut i: usize = 0;
    assert(bytes@.take(0) == Seq::<u8>::empty());
    assert(before + hex(bytes@.take(0)) =~= before);
    while i < bytes.len()
        invariant
            i <= bytes.len(),
            out@ == before + hex(bytes@.take(i as int)),
        decreases bytes.len() - i,
    {
        assert(bytes@.take(i + 1).drop_last() == bytes@.take(i as int));
        text::push_hex(out, bytes[i] as u64, 2);
        assert(out@ =~= before + hex(bytes@.take(i + 1)));
        i += 1;
    }
    assert(bytes@.take(i as int) == bytes@);
}

/// A profile of a hosted service.
#[derive(Debug, PartialEq, Eq)]
pub struct HostedWorkspaceIdentity {
    pub api_origin: String,
    pub profile_id: String,
}

impl HostedWorkspaceIdentity {
    /// Whether two identities are the same.
    pub open spec fn same_as(self, other: HostedWorkspaceIdentity) -> bool {
        self.api_origin@ == other.api_origin@ && self.profile_id@ == other.profile_id@
    }

    /// Whether two identities are the same.
    pub fn is(&self, other: &HostedWorkspaceIdentity) -> (r: bool)
        ensures
            r == self.same_as(*other),
    {
        text::same_text(&self.api_origin, &other.api_origin) && text::same_text(
            &self.profile_id,
            &other.profile_id,
        )
    }
}

/// What the local identifier of a mount is derived from: a fixed prefix, and
/// origin, profile and portable identifier with a zero byte behind the first
/// two.
pub open spec fn mount_id_input(
    api_origin: Seq<char>,
    profile_id: Seq<char>,
    portable_mount_id: Seq<char>,
) -> Seq<u8> {
    vstd::utf8::encode_utf8("locality.hosted-workspace.mount-id.v1"@) + seq![0u8]
        + vstd::utf8::encode_utf8(api_origin) + seq![0u8] + vstd::utf8::encode_utf8(profile_id)
        + seq![0u8] + vstd::utf8::encode_utf8(portable_mount_id)
}

fn push_bytes(out: &mut Vec<u8>, s: &str)
    ensures
        final(out)@ == old(out)@ + vstd::utf8::encode_utf8(s@),
{
    let bytes = s.as_bytes();
    let ghost before = out@;
    let mut i: usize = 0;
    while i < bytes.len()
        invariant
            i <= bytes.len(),
            out@ == before + bytes@.take(i as int),
        decreases bytes.len() - i,
    {
        out.push(bytes[i]);
        assert(out@ =~= before + bytes@.take(i + 1));
        i += 1;
    }
    assert(bytes@.take(i as int) == bytes@);
}

fn mount_id_bytes(identity: &HostedWorkspaceIdentity, portable_mount_id: &str) -> (r: Vec<u8>)
    ensures
        r@ == mount_id_input(identity.api_origin@, identity.profile_id@, portable_mount_id@),
{
    let mut input: Vec<u8> = Vec::new();
    push_bytes(&mut input, "locality.hosted-workspace.mount-id.v1");
    input.push(0);
    push_bytes(&mut input, &identity.api_origin);
    input.push(0);
    push_bytes(&mut input, &identity.profile_id);
    input.push(0);
    push_bytes(&mut input, portable_mount_id);
    assert(input@ =~= mount_id_input(
        identity.api_origin@,
        identity.profile_id@,
        portable_mount_id@,
    ));
    input
}

/// The local identifier that goes with a digest.
pub fn hosted_mount_id(digest: &Vec<u8>) -> (r: String)
    ensures
        r@ == "hosted-mount-"@ + hex(digest@),
{
    let mut value = "hosted-mount-".to_string();
    push_hex_bytes(&mut value, digest);
    value
}

/// The local identifier of a mount: the same for one profile and portable
/// identifier on every run and machine.
pub fn deterministic_local_mount_id(
    identity: &HostedWorkspaceIdentity,
    portable_mount_id: &str,
) -> (r: String)
    ensures
        r@ == "hosted-mount-"@ + hex(
            sha256(
                mount_id_input(identity.api_origin@, identity.profile_id@, portable_mount_id@),
            ),
        ),
        sha256(
            mount_id_input(identity.api_origin@, identity.profile_id@, portable_mount_id@),
        ).len() == 32,
{
    let input = mount_id_bytes(identity, portable_mount_id);
    hosted_mount_id(&sha256_digest(input.as_slice()))
}

proof fn lemma_split_at_zero(a: Seq<u8>, b: Seq<u8>, x: Seq<u8>, y: Seq<u8>)
    requires
        !a.contains(0u8),
        !b.contains(0u8),
        a + seq![0u8] + x == b + seq![0u8] + y,
    ensures
        a == b,
        x == y,
{
    let whole = a + seq![0u8] + x;
    let other = b + seq![0u8] + y;
    assert(whole == other && whole.len() == other.len());
    assert(whole[a.len() as int] == 0u8);
    assert(other[b.len() as int] == 0u8);
    if a.len() < b.len() {
        assert(other[a.len() as int] == b[a.len() as int]);
        assert(b.contains(b[a.len() as int]));
    }
    if b.len() < a.len() {
        assert(whole[b.len() as int] == a[b.len() as int]);
        assert(a.contains(a[b.len() as int]));
    }
    assert forall|i: int| 0 <= i < a.len() implies a[i] == b[i] by {
        assert(whole[i] == a[i] && other[i] == b[i]);
    }
    assert(a =~= b);
    assert(whole.len() == a.len() + 1 + x.len());
    assert(other.len() == b.len() + 1 + y.len());
    assert(x =~= whole.skip(a.len() as int + 1));
    assert(y =~= other.skip(b.len() as int + 1));
}

/// Different mounts have different inputs: no two triples of texts without a
/// zero byte in origin and profile give the same bytes to hash.
pub proof fn law_mount_id_input_is_injective(
    origin_a: Seq<char>,
    profile_a: Seq<char>,
    mount_a: Seq<char>,
    origin_b: Seq<char>,
    profile_b: Seq<char>,
    mount_b: Seq<char>,
)
    requires
        !vstd::utf8::encode_utf8(origin_a).contains(0u8),
        !vstd::utf8::encode_utf8(origin_b).contains(0u8),
        !vstd::utf8::encode_utf8(profile_a).contains(0u8),
        !vstd::utf8::encode_utf8(profile_b).contains(0u8),
        mount_id_input(origin_a, profile_a, mount_a) == mount_id_input(
            origin_b,
            profile_b,
            mount_b,
        ),
    ensures
        origin_a == origin_b,
        profile_a == profile_b,
        mount_a == mount_b,
{
    let head = vstd::utf8::encode_utf8("locality.hosted-workspace.mount-id.v1"@) + seq![0u8];
    let oa = vstd::utf8::encode_utf8(origin_a);
    let ob = vstd::utf8::encode_utf8(origin_b);
    let pa = vstd::utf8::encode_utf8(profile_a);
    let pb = vstd::utf8::encode_utf8(profile_b);
    let ma = vstd::utf8::encode_utf8(mount_a);
    let mb = vstd::utf8::encode_utf8(mount_b);
    let rest_a = pa + seq![0u8] + ma;
    let rest_b = pb + seq![0u8] + mb;
    let whole_a = mount_id_input(origin_a, profile_a, mount_a);
    let whole_b = mount_id_input(origin_b, profile_b, mount_b);
    assert(whole_a.skip(head.len() as int) =~= oa + seq![0u8] + rest_a);
    assert(whole_b.skip(head.len() as int) =~= ob + seq![0u8] + rest_b);
    lemma_split_at_zero(oa, ob, rest_a, rest_b);
    lemma_split_at_zero(pa, pb, ma, mb);
    vstd::utf8::encode_utf8_decode_utf8(origin_a);
    vstd::utf8::encode_utf8_decode_utf8(origin_b);
    vstd::utf8::encode_utf8_decode_utf8(profile_a);
    vstd::utf8::encode_utf8_decode_utf8(profile_b);
    vstd::utf8::encode_utf8_decode_utf8(mount_a);
    vstd::utf8::encode_utf8_decode_utf8(mount_b);
}

/// The identifier made of a prefix and bytes.
pub open spec fn local_id_text(prefix: Seq<char>, bytes: Seq<u8>) -> Seq<char> {
    prefix + "-"@ + hex(bytes)
}

/// The identifier made of a prefix and bytes.
pub fn local_id(prefix: &str, bytes: &Vec<u8>) -> (r: String)
    ensures
        r@ == local_id_text(prefix@, bytes@),
{
    let mut value = prefix.to_string();
    value.append("-");
    push_hex_bytes(&mut value, bytes);
    value
}

/// Whether an outcome is the identifier made of a prefix and the bytes that were
/// drawn for it, or asks for recovery in the words of a draw that failed.
pub open spec fn is_drawn_id(
    r: Result<String, HostedWorkspaceAttachError>,
    prefix: Seq<char>,
    drawn: Result<Vec<u8>, String>,
) -> bool {
    match drawn {
        Ok(bytes) => r matches Ok(id) && id@ == local_id_text(prefix, bytes@),
        Err(why) => r == Err::<String, _>(HostedWorkspaceAttachError::Recovery(why)),
    }
}

/// The identifier made of a prefix and the bytes that were drawn for it.
pub fn drawn_local_id(prefix: &str, drawn: Result<Vec<u8>, String>) -> (r: Result<
    String,
    HostedWorkspaceAttachError,
>)
    ensures
        is_drawn_id(r, prefix@, drawn),
{
    match drawn {
        Ok(bytes) => Ok(local_id(prefix, &bytes)),
        Err(why) => Err(HostedWorkspaceAttachError::Recovery(why)),
    }
}

/// A fresh identifier: a prefix and sixteen random bytes in hexadecimal. What
/// the system draws decides whether there is one; its outcome is followed.
pub fn random_local_id(prefix: &str) -> (r: Result<String, HostedWorkspaceAttachError>)
    ensures
        exists|drawn: Result<Vec<u8>, String>|
            (drawn matches Ok(bytes) ==> bytes@.len() == 16) && #[trigger] is_drawn_id(
                r,
                prefix@,
                drawn,
            ),
{
    let drawn = random_bytes();
    let ghost outcome = drawn;
    let r = drawn_local_id(prefix, drawn);
    assert(is_drawn_id(r, prefix@, outcome));
    r
}

} // verus!
