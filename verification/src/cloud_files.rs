//! The Windows Cloud Files provider: where its state stands, how its helper is
//! called, and what starting, stopping and asking for it come to.
use vstd::prelude::*;

use crate::file_provider;
use crate::file_provider::{WindowsCloudFilesHelperError, WindowsCloudFilesLifecycleAction};
use crate::json;
use crate::json::Json;
use crate::model::MountConfig;
use crate::paths;
use crate::paths::PathStyle;
use crate::text;

verus! {

/// What stands before the last `\` or `/` of a path; none where there is no
/// such separator or nothing before it.
pub open spec fn windows_parent(path: Seq<char>) -> Option<Seq<char>>
    decreases path.len(),
{
    if path.len() == 0 {
        None
    } else if path.last() == '\\' || path.last() == '/' {
        if path.len() == 1 {
            None
        } else {
            Some(path.drop_last())
        }
    } else {
        windows_parent(path.drop_last())
    }
}

/// What stands before the last separator of a path.
pub fn windows_style_parent(path: &str) -> (r: Option<String>)
    ensures
        text::opt_text(r) == windows_parent(path@),
{
    let v = text::chars_of(path);
    let mut n: usize = v.len();
    assert(v@.take(n as int) == v@);
    while n > 0
        invariant
            n <= v.len(),
            v@ == path@,
            windows_parent(path@) == windows_parent(v@.take(n as int)),
        decreases n,
    {
        assert(v@.take(n as int).drop_last() == v@.take(n - 1));
        if v[n - 1] == '\\' || v[n - 1] == '/' {
            if n == 1 {
                return None;
            }
            let r = text::string_of_range(&v, 0, n - 1);
            assert(r@ =~= v@.take(n - 1));
            return Some(r);
        }
        n -= 1;
    }
    None
}

/// The sync root of a mount: the shared root of its projection, or, where that
/// is not known, what holds its own root.
pub open spec fn sync_root(mount: MountConfig) -> Seq<char> {
    if mount.projection_root@.len() > 0 {
        mount.projection_root@
    } else {
        match windows_parent(mount.root@) {
            Some(parent) => parent,
            None => mount.projection_root@,
        }
    }
}

/// The sync root of a mount.
pub fn windows_cloud_files_projection_root(mount: &MountConfig) -> (r: String)
    ensures
        r@ == sync_root(*mount),
{
    if !mount.projection_root.as_str().is_empty() {
        return mount.projection_root.clone();
    }
    match windows_style_parent(&mount.root) {
        Some(parent) => parent,
        None => mount.projection_root.clone(),
    }
}

/// `path` with `\` for `/`.
pub open spec fn backslashed(path: Seq<char>) -> Seq<char> {
    Seq::new(
        path.len(),
        |i: int|
            if path[i] == '/' {
                '\\'
            } else {
                path[i]
            },
    )
}

/// `path` without separators behind, as long as more than three bytes are
/// left.
pub open spec fn without_end_separators(path: Seq<char>) -> Seq<char>
    decreases path.len(),
{
    if path.len() > 0 && path.last() == '\\' && vstd::utf8::encode_utf8(path).len() > 3 {
        without_end_separators(path.drop_last())
    } else {
        path
    }
}

/// What two spellings of one Windows path have in common.
pub open spec fn path_key(path: Seq<char>) -> Seq<char> {
    text::lowered(without_end_separators(backslashed(path)))
}

/// What two spellings of one Windows path have in common.
pub fn windows_cloud_files_path_key(path: &str) -> (r: String)
    ensures
        r@ == path_key(path@),
{
    let v = text::chars_of(path);
    let mut replaced: Vec<char> = Vec::new();
    let mut i: usize = 0;
    while i < v.len()
        invariant
            i <= v.len(),
            v@ == path@,
            replaced@ == backslashed(path@).take(i as int),
        decreases v.len() - i,
    {
        replaced.push(
            if v[i] == '/' {
                '\\'
            } else {
                v[i]
            },
        );
        i += 1;
    }
    assert(replaced@ =~= backslashed(path@));
    let mut value = text::string_of(&replaced);
    while replaced.len() > 0 && replaced[replaced.len() - 1] == '\\' && value.as_str().as_bytes().len()
        > 3
        invariant
            value@ == replaced@,
            without_end_separators(backslashed(path@)) == without_end_separators(value@),
        decreases replaced.len(),
    {
        let ghost before = replaced@;
        let _last = replaced.pop();
        assert(replaced@ =~= before.drop_last());
        value = text::string_of(&replaced);
    }
    text::to_lowercase(&value)
}

/// Whether a recorded sync root is that of a mount.
pub fn windows_cloud_files_lifecycle_metadata_matches_mount(
    metadata_sync_root: &str,
    mount: &MountConfig,
) -> (r: bool)
    ensures
        r == (path_key(metadata_sync_root@) == path_key(sync_root(*mount))),
{
    let recorded = windows_cloud_files_path_key(metadata_sync_root);
    let own = windows_cloud_files_path_key(&windows_cloud_files_projection_root(mount));
    text::same_text(&recorded, &own)
}

/// The name that a value has in the names of lifecycle files: readable where it
/// can be, and with the hash of the value.
pub open spec fn fragment(value: Seq<char>) -> Seq<char> {
    (if value.len() == 0 {
        "mount"@
    } else {
        file_provider::sanitized(value)
    }) + "-"@ + file_provider::hash_text(value)
}

/// The name that a value has in the names of lifecycle files.
pub fn windows_cloud_files_lifecycle_fragment(value: &str) -> (r: String)
    ensures
        r@ == fragment(value@),
{
    let sanitized = file_provider::sanitize_systemd_fragment(value);
    let mut out = if sanitized.as_str().is_empty() {
        "mount".to_string()
    } else {
        sanitized
    };
    out.append("-");
    out.append(&file_provider::stable_hex_hash(value));
    out
}

/// The identifier of a sync root in the names of lifecycle files.
pub open spec fn lifecycle_root_id(mount: MountConfig) -> Seq<char> {
    "root-"@ + fragment(sync_root(mount))
}

/// The identifier of a sync root in the names of lifecycle files.
pub fn windows_cloud_files_lifecycle_root_id(mount: &MountConfig) -> (r: String)
    ensures
        r@ == lifecycle_root_id(*mount),
{
    let mut out = "root-".to_string();
    out.append(
        &windows_cloud_files_lifecycle_fragment(&windows_cloud_files_projection_root(mount)),
    );
    out
}

/// Where lifecycle files stand.
pub open spec fn lifecycle_dir(style: PathStyle, state_root: Seq<char>) -> Seq<char> {
    paths::joined(style, state_root, "cloud-files-lifecycle"@)
}

/// Where lifecycle files stand.
pub fn windows_cloud_files_lifecycle_dir(style: PathStyle, state_root: &str) -> (r: String)
    ensures
        r@ == lifecycle_dir(style, state_root@),
{
    paths::join(style, state_root, "cloud-files-lifecycle")
}

/// The lifecycle file of a provider.
pub open spec fn lifecycle_file(
    style: PathStyle,
    state_root: Seq<char>,
    id: Seq<char>,
) -> Seq<char> {
    paths::joined(style, lifecycle_dir(style, state_root), fragment(id) + ".json"@)
}

/// The lifecycle file of a provider.
pub fn windows_cloud_files_lifecycle_file(
    style: PathStyle,
    state_root: &str,
    mount_id: &str,
) -> (r: String)
    ensures
        r@ == lifecycle_file(style, state_root@, mount_id@),
{
    let mut name = windows_cloud_files_lifecycle_fragment(mount_id);
    name.append(".json");
    paths::join(style, &windows_cloud_files_lifecycle_dir(style, state_root), &name)
}

/// Where the logs stand.
pub fn windows_cloud_files_log_dir(style: PathStyle, state_root: &str) -> (r: String)
    ensures
        r@ == paths::joined(style, state_root@, "logs"@),
{
    paths::join(style, state_root, "logs")
}

/// A log of a provider.
pub open spec fn log_path(
    style: PathStyle,
    state_root: Seq<char>,
    id: Seq<char>,
    end: Seq<char>,
) -> Seq<char> {
    paths::joined(
        style,
        paths::joined(style, state_root, "logs"@),
        "locality-cloud-files."@ + fragment(id) + end,
    )
}

/// The output log of a provider.
pub fn windows_cloud_files_stdout_log_path(
    style: PathStyle,
    state_root: &str,
    mount_id: &str,
) -> (r: String)
    ensures
        r@ == log_path(style, state_root@, mount_id@, ".out.log"@),
{
    let name = text::concat3(
        "locality-cloud-files.",
        &windows_cloud_files_lifecycle_fragment(mount_id),
        ".out.log",
    );
    paths::join(style, &windows_cloud_files_log_dir(style, state_root), &name)
}

/// The error log of a provider.
pub fn windows_cloud_files_stderr_log_path(
    style: PathStyle,
    state_root: &str,
    mount_id: &str,
) -> (r: String)
    ensures
        r@ == log_path(style, state_root@, mount_id@, ".err.log"@),
{
    let name = text::concat3(
        "locality-cloud-files.",
        &windows_cloud_files_lifecycle_fragment(mount_id),
        ".err.log",
    );
    paths::join(style, &windows_cloud_files_log_dir(style, state_root), &name)
}

/// The identifier under which Windows knows a sync root.
pub open spec fn shared_sync_root_id(root: Seq<char>) -> Seq<char> {
    "codeflash.ai.loc!default!"@ + "locality"@ + "-"@ + file_provider::hash_text(path_key(root))
}

/// The identifier under which Windows knows a sync root.
pub fn windows_cloud_files_shared_sync_root_id_for_projection_root(root: &str) -> (r: String)
    ensures
        r@ == shared_sync_root_id(root@),
{
    let mut out = text::concat3("codeflash.ai.loc!default!", "locality", "-");
    out.append(&file_provider::stable_hex_hash(&windows_cloud_files_path_key(root)));
    out
}

/// The identifier under which Windows knows the sync root of a mount.
pub fn windows_cloud_files_shared_sync_root_id(mount: &MountConfig) -> (r: String)
    ensures
        r@ == shared_sync_root_id(sync_root(*mount)),
{
    windows_cloud_files_shared_sync_root_id_for_projection_root(
        &windows_cloud_files_projection_root(mount),
    )
}

/// Two spellings of one path have one identifier.
pub proof fn law_sync_root_id_ignores_spelling(a: Seq<char>, b: Seq<char>)
    requires
        path_key(a) == path_key(b),
    ensures
        shared_sync_root_id(a) == shared_sync_root_id(b),
{
}

fn pairs(a: &str, b: &str, c: &str, d: &str) -> (r: Vec<String>)
    ensures
        text::texts(r@) == seq![a@, b@, c@, d@],
{
    let mut args: Vec<String> = Vec::new();
    args.push(a.to_string());
    args.push(b.to_string());
    args.push(c.to_string());
    args.push(d.to_string());
    assert(text::texts(args@) =~= seq![a@, b@, c@, d@]);
    args
}

/// The arguments that have the helper register the sync root of a mount.
/// `state_dir` is the state directory as an absolute path.
pub fn windows_cloud_files_register_args(
    state_dir: &str,
    mount: &MountConfig,
    _display_name: &str,
) -> (r: Vec<String>)
    ensures
        text::texts(r@) == seq![
            "--display-name"@,
            "Locality"@,
            "--sync-root"@,
            sync_root(*mount),
            "--state-dir"@,
            state_dir@,
        ],
{
    let root = windows_cloud_files_projection_root(mount);
    let mut args = pairs("--display-name", "Locality", "--sync-root", &root);
    text::push_text(&mut args, "--state-dir");
    text::push_text(&mut args, state_dir);
    assert(text::texts(args@) =~= seq![
        "--display-name"@,
        "Locality"@,
        "--sync-root"@,
        sync_root(*mount),
        "--state-dir"@,
        state_dir@,
    ]);
    args
}

/// The arguments that have the helper open the sync root of a mount.
pub fn windows_cloud_files_open_args(mount: &MountConfig) -> (r: Vec<String>)
    ensures
        text::texts(r@) == seq!["--sync-root"@, sync_root(*mount)],
{
    let mut args: Vec<String> = Vec::new();
    args.push("--sync-root".to_string());
    args.push(windows_cloud_files_projection_root(mount));
    assert(text::texts(args@) =~= seq!["--sync-root"@, sync_root(*mount)]);
    args
}

/// The arguments that have the helper serve the sync root of a mount.
/// `state_dir` is the state directory as an absolute path.
pub fn windows_cloud_files_run_args(state_dir: &str, mount: &MountConfig) -> (r: Vec<String>)
    ensures
        text::texts(r@) == seq![
            "--sync-root"@,
            sync_root(*mount),
            "--state-dir"@,
            state_dir@,
        ],
{
    pairs("--sync-root", &windows_cloud_files_projection_root(mount), "--state-dir", state_dir)
}

/// The whole command line that has the helper serve the sync root of a mount.
/// `state_dir` is the state directory as an absolute path.
pub fn windows_cloud_files_run_command_args(state_dir: &str, mount: &MountConfig) -> (r: Vec<
    String,
>)
    ensures
        text::texts(r@) == seq![
            "run"@,
            "--sync-root"@,
            sync_root(*mount),
            "--state-dir"@,
            state_dir@,
        ],
{
    let root = windows_cloud_files_projection_root(mount);
    let mut args = pairs("run", "--sync-root", &root, "--state-dir");
    text::push_text(&mut args, state_dir);
    assert(text::texts(args@) =~= seq![
        "run"@,
        "--sync-root"@,
        sync_root(*mount),
        "--state-dir"@,
        state_dir@,
    ]);
    args
}

/// The arguments that have the helper forget a mount. `state_dir` is the state
/// directory as an absolute path.
pub fn windows_cloud_files_unregister_args(state_dir: &str, mount_id: &str) -> (r: Vec<String>)
    ensures
        text::texts(r@) == seq!["--mount-id"@, mount_id@, "--state-dir"@, state_dir@],
{
    pairs("--mount-id", mount_id, "--state-dir", state_dir)
}

/// The text under the first of two keys that is there at all.
pub open spec fn text_at_either(value: Json, first: Seq<char>, second: Seq<char>) -> Option<Seq<char>> {
    match value.at(first) {
        Some(Json::Text(s)) => Some(s@),
        Some(_) => None,
        None => value.text_at(second),
    }
}

fn get_text_either<'a>(value: &'a Json, first: &str, second: &str) -> (r: Option<&'a str>)
    ensures
        text::opt_str(r) == text_at_either(*value, first@, second@),
{
    match value.get(first) {
        Some(Json::Text(s)) => Some(s.as_str()),
        Some(_) => None,
        None => value.get_text(second),
    }
}

/// Whether a registered root is that of a mount: by its identifier, by the
/// mount that it names, or, under the identifier that all roots once had, by
/// its path.
pub open spec fn is_registration(root: Json, mount: MountConfig) -> bool {
    ||| text_at_either(root, "sync_root_id"@, "id"@) == Some(shared_sync_root_id(sync_root(mount)))
    ||| root.text_at("mount_id"@) == Some(mount.mount_id@)
    ||| text_at_either(root, "sync_root_id"@, "id"@) == Some("codeflash.ai.loc!default!locality"@)
        && (root.text_at("path"@) matches Some(path) && path_key(path) == path_key(
        sync_root(mount),
    ))
}

/// Whether one of the registered roots is that of a mount.
pub open spec fn contains_registration(roots: Seq<Json>, mount: MountConfig) -> bool {
    exists|i: int| 0 <= i < roots.len() && is_registration(#[trigger] roots[i], mount)
}

fn registers(root: &Json, mount: &MountConfig, id: &str, key: &str) -> (r: bool)
    requires
        id@ == shared_sync_root_id(sync_root(*mount)),
        key@ == path_key(sync_root(*mount)),
    ensures
        r == is_registration(*root, *mount),
{
    let named = get_text_either(root, "sync_root_id", "id");
    if let Some(named) = named {
        if text::same_text(named, id) {
            return true;
        }
    }
    if let Some(registered) = root.get_text("mount_id") {
        if text::same_text(registered, &mount.mount_id) {
            return true;
        }
    }
    if let Some(named) = named {
        if text::same_text(named, "codeflash.ai.loc!default!locality") {
            if let Some(path) = root.get_text("path") {
                return text::same_text(&windows_cloud_files_path_key(path), key);
            }
        }
    }
    false
}

/// Whether one of the registered roots is that of a mount.
pub fn windows_cloud_files_roots_contain_registration(roots: &Vec<Json>, mount: &MountConfig) -> (r:
    bool)
    ensures
        r == contains_registration(roots@, *mount),
{
    let id = windows_cloud_files_shared_sync_root_id(mount);
    let key = windows_cloud_files_path_key(&windows_cloud_files_projection_root(mount));
    let mut i: usize = 0;
    while i < roots.len()
        invariant
            i <= roots.len(),
            id@ == shared_sync_root_id(sync_root(*mount)),
            key@ == path_key(sync_root(*mount)),
            forall|k: int| 0 <= k < i ==> !is_registration(#[trigger] roots@[k], *mount),
        decreases roots.len() - i,
    {
        if registers(&roots[i], mount, &id, &key) {
            assert(is_registration(roots@[i as int], *mount));
            return true;
        }
        i += 1;
    }
    false
}

/// Whether the helper's list names a registration of the mount; nothing where
/// it gives no list.
pub fn windows_cloud_files_registration_status(helper_report: &Json, mount: &MountConfig) -> (r:
    Option<bool>)
    ensures
        match helper_report.items_at("roots"@) {
            Some(roots) => r == Some(contains_registration(roots, *mount)),
            None => r is None,
        },
{
    match helper_report.get_items("roots") {
        Some(roots) => Some(windows_cloud_files_roots_contain_registration(roots, mount)),
        None => None,
    }
}

/// What a registration marker says of its sync root.
#[derive(Debug, PartialEq, Eq)]
pub struct RegistrationMarker {
    pub sync_root_id: Option<String>,
    pub path: Option<String>,
}

/// Whether a registration marker is that of a sync root: by its identifier or
/// by its path.
pub open spec fn is_marker_of(
    marker_id: Option<Seq<char>>,
    marker_path: Option<Seq<char>>,
    id: Seq<char>,
    key: Seq<char>,
) -> bool {
    ||| marker_id == Some(id)
    ||| (marker_path matches Some(path) && path_key(path) == key)
}

impl RegistrationMarker {
    /// Whether the marker is that of a sync root.
    pub fn is_of(&self, expected_sync_root_id: &str, expected_sync_root_key: &str) -> (r: bool)
        ensures
            r == is_marker_of(
                text::opt_text(self.sync_root_id),
                text::opt_text(self.path),
                expected_sync_root_id@,
                expected_sync_root_key@,
            ),
    {
        if text::option_is(&self.sync_root_id, expected_sync_root_id) {
            return true;
        }
        match &self.path {
            Some(path) => text::same_text(
                &windows_cloud_files_path_key(path),
                expected_sync_root_key,
            ),
            None => false,
        }
    }
}

/// Whether the text of a registration marker is that of a sync root.
pub open spec fn is_marker_text_of(marker: Seq<char>, id: Seq<char>, key: Seq<char>) -> bool {
    is_marker_of(
        json::text_in_either(marker, "sync_root_id"@, "id"@),
        json::text_in_either(marker, "path"@, "sync_root"@),
        id,
        key,
    )
}

/// Whether a registration marker, if there is one, is that of a sync root. The
/// marker is the text of its file.
pub fn windows_cloud_files_marker_matches(
    marker: &Option<String>,
    expected_sync_root_id: &str,
    expected_sync_root_key: &str,
) -> (r: bool)
    ensures
        r == (marker matches Some(m) && is_marker_text_of(
            m@,
            expected_sync_root_id@,
            expected_sync_root_key@,
        )),
{
    match marker {
        None => false,
        Some(words) => {
            let marker = RegistrationMarker {
                sync_root_id: json::read_text_either(words, "sync_root_id", "id"),
                path: json::read_text_either(words, "path", "sync_root"),
            };
            marker.is_of(expected_sync_root_id, expected_sync_root_key)
        },
    }
}

/// Whether one of the markers of a mount is that of its sync root: the markers
/// under the root's identifier, the mount's identifier and the shared name.
pub fn windows_cloud_files_registration_marker_exists(
    under_root_id: &Option<String>,
    under_mount_id: &Option<String>,
    under_shared_name: &Option<String>,
    mount: &MountConfig,
) -> (r: bool)
    ensures
        ({
            let id = shared_sync_root_id(sync_root(*mount));
            let key = path_key(sync_root(*mount));
            r == ((under_root_id matches Some(m) && is_marker_text_of(m@, id, key)) || (
            under_mount_id matches Some(m) && is_marker_text_of(m@, id, key)) || (
            under_shared_name matches Some(m) && is_marker_text_of(m@, id, key)))
        }),
{
    let id = windows_cloud_files_shared_sync_root_id(mount);
    let key = windows_cloud_files_path_key(&windows_cloud_files_projection_root(mount));
    windows_cloud_files_marker_matches(under_root_id, &id, &key)
        || windows_cloud_files_marker_matches(under_mount_id, &id, &key)
        || windows_cloud_files_marker_matches(under_shared_name, &id, &key)
}

/// The fields of a line of comma-separated values, from the rest of the line,
/// the field so far, and whether it is inside quotes. Inside quotes a doubled
/// quote stands for one and a comma for itself; fields lose the white space at
/// their ends.
pub open spec fn csv_fields(rest: Seq<char>, field: Seq<char>, quotes: bool) -> Seq<Seq<char>>
    decreases rest.len(),
{
    if rest.len() == 0 {
        seq![text::trimmed(field)]
    } else if rest[0] == '"' && quotes && rest.len() > 1 && rest[1] == '"' {
        csv_fields(rest.skip(2), field.push('"'), quotes)
    } else if rest[0] == '"' {
        csv_fields(rest.skip(1), field, !quotes)
    } else if rest[0] == ',' && !quotes {
        seq![text::trimmed(field)] + csv_fields(rest.skip(1), Seq::empty(), quotes)
    } else {
        csv_fields(rest.skip(1), field.push(rest[0]), quotes)
    }
}

/// The fields of a line of comma-separated values.
pub fn parse_tasklist_csv_line(line: &str) -> (r: Vec<String>)
    ensures
        text::texts(r@) == csv_fields(line@, Seq::empty(), false),
{
    let v = text::chars_of(line);
    let ghost whole = csv_fields(line@, Seq::empty(), false);
    let mut fields: Vec<String> = Vec::new();
    let mut current = String::new();
    let mut in_quotes = false;
    let mut i: usize = 0;
    proof {
        assert(v@.skip(0) == v@);
        assert(text::texts(fields@) + whole == whole);
    }
    while i < v.len()
        invariant
            i <= v.len(),
            v@ == line@,
            text::texts(fields@) + csv_fields(v@.skip(i as int), current@, in_quotes) == whole,
        decreases v.len() - i,
    {
        let ghost rest = v@.skip(i as int);
        assert(rest[0] == v@[i as int]);
        assert(rest.skip(1) == v@.skip(i + 1));
        let character = v[i];
        if character == '"' && in_quotes && v.len() - i > 1 && v[i + 1] == '"' {
            assert(rest[1] == v@[i + 1]);
            assert(rest.skip(2) == v@.skip(i + 2));
            current.push('"');
            i += 2;
        } else if character == '"' {
            assert(rest.len() > 1 ==> rest[1] == v@[i + 1]);
            in_quotes = !in_quotes;
            i += 1;
        } else if character == ',' && !in_quotes {
            let ghost before = text::texts(fields@);
            let ghost field = current@;
            fields.push(text::trim(&current));
            assert(text::texts(fields@) =~= before + seq![text::trimmed(field)]);
            current = String::new();
            assert(text::texts(fields@) + csv_fields(rest.skip(1), Seq::empty(), in_quotes)
                =~= before + (seq![text::trimmed(field)] + csv_fields(
                rest.skip(1),
                Seq::empty(),
                in_quotes,
            )));
            i += 1;
        } else {
            current.push(character);
            i += 1;
        }
    }
    let ghost before = text::texts(fields@);
    fields.push(text::trim(&current));
    assert(text::texts(fields@) =~= before + seq![text::trimmed(current@)]);
    fields
}

/// A field as it is written between quotes.
pub open spec fn csv_quoted(field: Seq<char>) -> Seq<char>
    decreases field.len(),
{
    if field.len() == 0 {
        Seq::empty()
    } else {
        (if field[0] == '"' {
            seq!['"', '"']
        } else {
            seq![field[0]]
        }) + csv_quoted(field.skip(1))
    }
}

/// Fields as they are written on a line.
pub open spec fn csv_line(fields: Seq<Seq<char>>) -> Seq<char>
    decreases fields.len(),
{
    if fields.len() == 0 {
        Seq::empty()
    } else if fields.len() == 1 {
        seq!['"'] + csv_quoted(fields[0]) + seq!['"']
    } else {
        seq!['"'] + csv_quoted(fields[0]) + seq!['"', ','] + csv_line(fields.skip(1))
    }
}

proof fn lemma_csv_quoted(field: Seq<char>, sofar: Seq<char>, rest: Seq<char>)
    requires
        rest.len() == 0 || rest[0] != '"',
    ensures
        csv_fields(csv_quoted(field) + seq!['"'] + rest, sofar, true) == csv_fields(
            rest,
            sofar + field,
            false,
        ),
    decreases field.len(),
{
    let all = csv_quoted(field) + seq!['"'] + rest;
    if field.len() == 0 {
        assert(all.skip(1) == rest);
        assert(sofar + field == sofar);
        assert(all.len() > 1 ==> all[1] == rest[0]);
    } else {
        let next = csv_quoted(field.skip(1)) + seq!['"'] + rest;
        lemma_csv_quoted(field.skip(1), sofar.push(field[0]), rest);
        assert(sofar.push(field[0]) + field.skip(1) == sofar + field);
        if field[0] == '"' {
            assert(all == seq!['"', '"'] + next);
            assert(all.skip(2) == next);
        } else {
            assert(all == seq![field[0]] + next);
            assert(all.skip(1) == next);
        }
    }
}

/// Fields that are written on a line are read back, without the white space at
/// their ends.
pub proof fn law_csv_line_reads_back(fields: Seq<Seq<char>>)
    requires
        fields.len() > 0,
    ensures
        csv_fields(csv_line(fields), Seq::empty(), false) == Seq::new(
            fields.len(),
            |i: int| text::trimmed(fields[i]),
        ),
    decreases fields.len(),
{
    let line = csv_line(fields);
    let none = Seq::<char>::empty();
    let first = fields[0];
    let expected = Seq::new(fields.len(), |i: int| text::trimmed(fields[i]));
    assert(none + first == first);
    if fields.len() == 1 {
        lemma_csv_quoted(first, none, none);
        assert(line.skip(1) == csv_quoted(first) + seq!['"'] + none);
        assert(csv_fields(none, first, false) == seq![text::trimmed(first)]);
        assert(expected =~= seq![text::trimmed(first)]);
    } else {
        let tail = csv_line(fields.skip(1));
        let rest = seq![','] + tail;
        lemma_csv_quoted(first, none, rest);
        assert(line.skip(1) == csv_quoted(first) + seq!['"'] + rest);
        assert(rest.skip(1) == tail);
        law_csv_line_reads_back(fields.skip(1));
        assert(expected =~= seq![text::trimmed(first)] + Seq::new(
            fields.skip(1).len(),
            |i: int| text::trimmed(fields.skip(1)[i]),
        ));
    }
}

/// Whether a line of the task list is that of the helper with an identifier.
pub open spec fn is_helper_task(line: Seq<char>, pid: Seq<char>, image: Seq<char>) -> bool {
    let fields = csv_fields(line, Seq::empty(), false);
    &&& fields.len() > 1
    &&& fields[1] == pid
    &&& text::lowered(fields[0]) == text::lowered(image) || text::lowered(fields[0])
        == text::lowered("locality-cloud-files.exe"@)
}

/// The name of a helper's program, by which the task list knows it.
pub open spec fn helper_image(style: PathStyle, helper: Seq<char>) -> Seq<char> {
    match paths::last_name(paths::components(style, helper)) {
        Some(name) => name,
        None => "locality-cloud-files.exe"@,
    }
}

/// Whether the task list shows the helper running under a process identifier.
pub fn windows_process_is_running(
    style: PathStyle,
    task_list: &str,
    pid: u32,
    helper: &str,
) -> (r: bool)
    ensures
        r == exists|i: int|
            0 <= i < text::lines(task_list@).len() && is_helper_task(
                #[trigger] text::lines(task_list@)[i],
                text::decimal(pid as nat),
                helper_image(style, helper@),
            ),
{
    let expected = match paths::file_name(style, helper) {
        Some(name) => name,
        None => "locality-cloud-files.exe".to_string(),
    };
    let pid_text = text::decimal_text(pid as u128);
    let lines = text::lines_of(task_list);
    let ghost all = text::lines(task_list@);
    let mut i: usize = 0;
    while i < lines.len()
        invariant
            i <= lines.len(),
            all == text::lines(task_list@),
            text::texts(lines@) == all,
            pid_text@ == text::decimal(pid as nat),
            expected@ == helper_image(style, helper@),
            forall|k: int|
                0 <= k < i ==> !is_helper_task(
                    #[trigger] all[k],
                    text::decimal(pid as nat),
                    helper_image(style, helper@),
                ),
        decreases lines.len() - i,
    {
        let columns = parse_tasklist_csv_line(&lines[i]);
        let ghost fields = csv_fields(all[i as int], Seq::empty(), false);
        assert(lines@[i as int]@ == all[i as int]);
        assert(text::texts(columns@) == fields);
        if columns.len() > 1 {
            assert(columns@[0]@ == fields[0]);
            assert(columns@[1]@ == fields[1]);
            if text::same_text(&columns[1], &pid_text) && (text::same_ignoring_case(
                &columns[0],
                &expected,
            ) || text::same_ignoring_case(&columns[0], "locality-cloud-files.exe")) {
                assert(is_helper_task(
                    all[i as int],
                    text::decimal(pid as nat),
                    helper_image(style, helper@),
                ));
                return true;
            }
        }
        i += 1;
    }
    false
}

/// Whether the Windows provider serves.
#[derive(Clone, Copy, Debug, PartialEq, Eq, Structural)]
pub enum WindowsCloudFilesProviderState {
    Running,
    Stopped,
}

/// What is recorded of a provider that was started.
#[derive(Debug, PartialEq, Eq)]
pub struct WindowsCloudFilesProcessMetadata {
    pub root_id: String,
    pub pid: u32,
    pub helper: String,
    pub sync_root: String,
    pub state_dir: String,
    pub stdout_log: String,
    pub stderr_log: String,
}

/// Whether a record, if there is one, is of the sync root of a mount.
pub open spec fn is_record_of(record: Option<WindowsCloudFilesProcessMetadata>, mount: MountConfig) -> bool {
    record matches Some(m) && path_key(m.sync_root@) == path_key(sync_root(mount))
}

/// The record of a mount's provider: the one under the root's identifier, or
/// else the one under the mount's, if it is of the mount's sync root.
pub fn windows_cloud_files_lifecycle_metadata_for_mount(
    shared: Option<WindowsCloudFilesProcessMetadata>,
    legacy: Option<WindowsCloudFilesProcessMetadata>,
    mount: &MountConfig,
) -> (r: Option<WindowsCloudFilesProcessMetadata>)
    ensures
        r == (if is_record_of(shared, *mount) {
            shared
        } else if is_record_of(legacy, *mount) {
            legacy
        } else {
            None
        }),
{
    if let Some(metadata) = &shared {
        if windows_cloud_files_lifecycle_metadata_matches_mount(&metadata.sync_root, mount) {
            return shared;
        }
    }
    if let Some(metadata) = &legacy {
        if windows_cloud_files_lifecycle_metadata_matches_mount(&metadata.sync_root, mount) {
            return legacy;
        }
    }
    None
}

/// How to start the provider.
#[derive(Debug, PartialEq, Eq)]
pub enum WindowsStart {
    /// It runs already; it is registered first where that was not done.
    Running { register: bool, pid: u32 },
    /// Register, create the directories, start the helper with its output and
    /// errors in the logs, and record it.
    Launch {
        helper: String,
        args: Vec<String>,
        directories: Vec<String>,
        root_id: String,
        sync_root: String,
        stdout_log: String,
        stderr_log: String,
    },
}

/// Whether `r` is how to start a helper that does not run.
pub open spec fn is_launch(
    style: PathStyle,
    r: WindowsStart,
    path: String,
    state_root: Seq<char>,
    state_dir: Seq<char>,
    mount: MountConfig,
) -> bool {
    let id = lifecycle_root_id(mount);
    r matches WindowsStart::Launch {
        helper,
        args,
        directories,
        root_id,
        sync_root: root,
        stdout_log,
        stderr_log,
    } && {
        &&& helper == path
        &&& text::texts(args@) == seq![
            "run"@,
            "--sync-root"@,
            sync_root(mount),
            "--state-dir"@,
            state_dir,
        ]
        &&& text::texts(directories@) == seq![
            lifecycle_dir(style, state_root),
            paths::joined(style, state_root, "logs"@),
        ]
        &&& root_id@ == id
        &&& root@ == sync_root(mount)
        &&& stdout_log@ == log_path(style, state_root, id, ".out.log"@)
        &&& stderr_log@ == log_path(style, state_root, id, ".err.log"@)
    }
}

/// How to start the provider of a mount: the daemon has to run and the helper
/// has to be there, in this order. `existing` is the record of the mount's
/// provider, `existing_running` says whether that still runs, and `registered`
/// whether the sync root has been registered.
pub fn start_windows_cloud_files_lifecycle(
    style: PathStyle,
    daemon_running: bool,
    helper: Option<String>,
    existing: &Option<WindowsCloudFilesProcessMetadata>,
    existing_running: bool,
    registered: bool,
    state_root: &str,
    state_dir: &str,
    mount: &MountConfig,
) -> (r: Result<WindowsStart, WindowsCloudFilesHelperError>)
    ensures
        if !daemon_running {
            r == Err::<WindowsStart, _>(WindowsCloudFilesHelperError::DaemonNotRunning)
        } else {
            match (helper, existing) {
                (None, _) => r == Err::<WindowsStart, _>(WindowsCloudFilesHelperError::Missing),
                (Some(_), Some(m)) if existing_running => r == Ok::<
                    _,
                    WindowsCloudFilesHelperError,
                >(WindowsStart::Running { register: !registered, pid: m.pid }),
                (Some(path), _) => r matches Ok(start) && is_launch(
                    style,
                    start,
                    path,
                    state_root@,
                    state_dir@,
                    *mount,
                ),
            }
        },
{
    if !daemon_running {
        return Err(WindowsCloudFilesHelperError::DaemonNotRunning);
    }
    let helper = match helper {
        Some(helper) => helper,
        None => {
            return Err(WindowsCloudFilesHelperError::Missing);
        },
    };
    if let Some(metadata) = existing {
        if existing_running {
            return Ok(WindowsStart::Running { register: !registered, pid: metadata.pid });
        }
    }
    let root_id = windows_cloud_files_lifecycle_root_id(mount);
    let mut directories: Vec<String> = Vec::new();
    directories.push(windows_cloud_files_lifecycle_dir(style, state_root));
    directories.push(windows_cloud_files_log_dir(style, state_root));
    assert(text::texts(directories@) =~= seq![
        lifecycle_dir(style, state_root@),
        paths::joined(style, state_root@, "logs"@),
    ]);
    let stdout_log = windows_cloud_files_stdout_log_path(style, state_root, &root_id);
    let stderr_log = windows_cloud_files_stderr_log_path(style, state_root, &root_id);
    Ok(
        WindowsStart::Launch {
            helper,
            args: windows_cloud_files_run_command_args(state_dir, mount),
            directories,
            root_id,
            sync_root: windows_cloud_files_projection_root(mount),
            stdout_log,
            stderr_log,
        },
    )
}

/// What became of a helper shortly after it was started.
#[derive(Debug, PartialEq, Eq)]
pub enum StartedHelper {
    Alive,
    Exited(String),
    Unknown(String),
}

/// What starting a helper came to; the record is to be removed again where
/// `Err` comes with `true`.
pub fn started_windows_cloud_files(child: StartedHelper, stderr_log: &str) -> (r: Result<
    (),
    (WindowsCloudFilesHelperError, bool),
>)
    ensures
        match child {
            StartedHelper::Alive => r is Ok,
            StartedHelper::Exited(status) => r matches Err((
                WindowsCloudFilesHelperError::Failed(m),
                remove,
            )) && remove && m@ == "locality-cloud-files exited immediately with "@ + status@
                + "; see "@ + stderr_log@,
            StartedHelper::Unknown(error) => r == Err::<(), _>(
                (WindowsCloudFilesHelperError::Failed(error), false),
            ),
        },
{
    match child {
        StartedHelper::Alive => Ok(()),
        StartedHelper::Exited(status) => {
            let mut message = text::concat3(
                "locality-cloud-files exited immediately with ",
                &status,
                "; see ",
            );
            message.append(stderr_log);
            Err((WindowsCloudFilesHelperError::Failed(message), true))
        },
        StartedHelper::Unknown(error) => Err((WindowsCloudFilesHelperError::Failed(error), false)),
    }
}

/// What a report says of a lifecycle action.
pub open spec fn lifecycle_message(
    action: WindowsCloudFilesLifecycleAction,
    mount_id: Seq<char>,
    state: WindowsCloudFilesProviderState,
    pid: Option<u32>,
) -> Seq<char> {
    let named = "Windows Cloud Files provider "@;
    match (action, state, pid) {
        (
            WindowsCloudFilesLifecycleAction::Start,
            WindowsCloudFilesProviderState::Running,
            Some(pid),
        ) => named + "started for `"@ + mount_id + "` (pid "@ + text::decimal(pid as nat) + ")"@,
        (
            WindowsCloudFilesLifecycleAction::Restart,
            WindowsCloudFilesProviderState::Running,
            Some(pid),
        ) => named + "restarted for `"@ + mount_id + "` (pid "@ + text::decimal(pid as nat) + ")"@,
        (
            WindowsCloudFilesLifecycleAction::Status,
            WindowsCloudFilesProviderState::Running,
            Some(pid),
        ) => named + "is running for `"@ + mount_id + "` (pid "@ + text::decimal(pid as nat) + ")"@,
        (
            WindowsCloudFilesLifecycleAction::Stop,
            WindowsCloudFilesProviderState::Stopped,
            Some(pid),
        ) => named + "stopped for `"@ + mount_id + "` (pid "@ + text::decimal(pid as nat) + ")"@,
        (
            WindowsCloudFilesLifecycleAction::Stop,
            WindowsCloudFilesProviderState::Stopped,
            None,
        ) => named + "is already stopped for `"@ + mount_id + "`"@,
        (WindowsCloudFilesLifecycleAction::Status, WindowsCloudFilesProviderState::Stopped, _) =>
        named + "is stopped for `"@ + mount_id + "`"@,
        _ => named + action.name() + " complete for `"@ + mount_id + "`"@,
    }
}

fn provider_message(did: &str, mount_id: &str, pid: u32) -> (r: String)
    ensures
        r@ == "Windows Cloud Files provider "@ + did@ + mount_id@ + "` (pid "@ + text::decimal(
            pid as nat,
        ) + ")"@,
{
    let mut out = text::concat3("Windows Cloud Files provider ", did, mount_id);
    out.append("` (pid ");
    out.append(&text::decimal_text(pid as u128));
    out.append(")");
    out
}

/// What a report says of a lifecycle action.
pub fn windows_cloud_files_lifecycle_message(
    action: WindowsCloudFilesLifecycleAction,
    mount_id: &str,
    state: WindowsCloudFilesProviderState,
    pid: Option<u32>,
) -> (r: String)
    ensures
        r@ == lifecycle_message(action, mount_id@, state, pid),
{
    match (action, state, pid) {
        (
            WindowsCloudFilesLifecycleAction::Start,
            WindowsCloudFilesProviderState::Running,
            Some(pid),
        ) => provider_message("started for `", mount_id, pid),
        (
            WindowsCloudFilesLifecycleAction::Restart,
            WindowsCloudFilesProviderState::Running,
            Some(pid),
        ) => provider_message("restarted for `", mount_id, pid),
        (
            WindowsCloudFilesLifecycleAction::Status,
            WindowsCloudFilesProviderState::Running,
            Some(pid),
        ) => provider_message("is running for `", mount_id, pid),
        (
            WindowsCloudFilesLifecycleAction::Stop,
            WindowsCloudFilesProviderState::Stopped,
            Some(pid),
        ) => provider_message("stopped for `", mount_id, pid),
        (
            WindowsCloudFilesLifecycleAction::Stop,
            WindowsCloudFilesProviderState::Stopped,
            None,
        ) => {
            let mut out = text::concat3(
                "Windows Cloud Files provider ",
                "is already stopped for `",
                mount_id,
            );
            out.append("`");
            out
        },
        (WindowsCloudFilesLifecycleAction::Status, WindowsCloudFilesProviderState::Stopped, _) => {
            let mut out = text::concat3(
                "Windows Cloud Files provider ",
                "is stopped for `",
                mount_id,
            );
            out.append("`");
            out
        },
        _ => {
            let mut out = text::concat3(
                "Windows Cloud Files provider ",
                action.as_str(),
                " complete for `",
            );
            out.append(mount_id);
            out.append("`");
            out
        },
    }
}

/// A report on the Windows provider.
#[derive(Debug, PartialEq, Eq)]
pub struct WindowsCloudFilesLifecycleReport {
    pub message: String,
    pub state: WindowsCloudFilesProviderState,
    pub mount_id: String,
    pub root_id: String,
    pub sync_root: String,
    pub state_dir: String,
    pub helper: String,
    pub helper_present: bool,
    pub daemon_running: bool,
    pub registered: Option<bool>,
    pub pid: Option<u32>,
    pub stale_pid_file: bool,
    pub pid_file: String,
    pub stdout_log: String,
    pub stderr_log: String,
}

/// The report on a lifecycle action.
pub fn windows_cloud_files_lifecycle_report(
    style: PathStyle,
    action: WindowsCloudFilesLifecycleAction,
    mount: &MountConfig,
    state_root: &String,
    helper: String,
    helper_present: bool,
    daemon_running: bool,
    registered: Option<bool>,
    pid: Option<u32>,
    stale_pid_file: bool,
    state: WindowsCloudFilesProviderState,
) -> (r: WindowsCloudFilesLifecycleReport)
    ensures
        r.message@ == lifecycle_message(action, mount.mount_id@, state, pid),
        r.state == state,
        r.mount_id == mount.mount_id,
        r.root_id@ == lifecycle_root_id(*mount),
        r.sync_root@ == sync_root(*mount),
        r.state_dir == state_root,
        r.helper == helper,
        r.helper_present == helper_present,
        r.daemon_running == daemon_running,
        r.registered == registered,
        r.pid == pid,
        r.stale_pid_file == stale_pid_file,
        r.pid_file@ == lifecycle_file(style, state_root@, lifecycle_root_id(*mount)),
        r.stdout_log@ == log_path(style, state_root@, lifecycle_root_id(*mount), ".out.log"@),
        r.stderr_log@ == log_path(style, state_root@, lifecycle_root_id(*mount), ".err.log"@),
{
    let root_id = windows_cloud_files_lifecycle_root_id(mount);
    let pid_file = windows_cloud_files_lifecycle_file(style, state_root, &root_id);
    let stdout_log = windows_cloud_files_stdout_log_path(style, state_root, &root_id);
    let stderr_log = windows_cloud_files_stderr_log_path(style, state_root, &root_id);
    WindowsCloudFilesLifecycleReport {
        message: windows_cloud_files_lifecycle_message(action, &mount.mount_id, state, pid),
        state,
        mount_id: mount.mount_id.clone(),
        root_id,
        sync_root: windows_cloud_files_projection_root(mount),
        state_dir: state_root.clone(),
        helper,
        helper_present,
        daemon_running,
        registered,
        pid,
        stale_pid_file,
        pid_file,
        stdout_log,
        stderr_log,
    }
}

/// The helper that a report names: the one found, or else the recorded one, or
/// else its bare name.
pub open spec fn reported_helper(
    found: Option<String>,
    metadata: Option<WindowsCloudFilesProcessMetadata>,
) -> Seq<char> {
    match (found, metadata) {
        (Some(path), _) => path@,
        (None, Some(m)) => m.helper@,
        (None, None) => "locality-cloud-files"@,
    }
}

fn report_helper(found: Option<String>, metadata: &Option<WindowsCloudFilesProcessMetadata>) -> (r:
    String)
    ensures
        r@ == reported_helper(found, *metadata),
{
    match found {
        Some(path) => path,
        None => match metadata {
            Some(m) => m.helper.clone(),
            None => "locality-cloud-files".to_string(),
        },
    }
}

/// What stopping the provider of a mount comes to.
#[derive(Debug, PartialEq, Eq)]
pub struct WindowsStop {
    /// The helper that the report names.
    pub helper: String,
    /// The process to stop, which the report names too.
    pub stop_pid: Option<u32>,
    /// The lifecycle files to remove, absent ones included.
    pub remove: Vec<String>,
}

/// What stopping the provider of a mount comes to. `metadata` is the record of
/// the mount's provider and `running` says whether that still runs.
pub fn stop_windows_cloud_files_lifecycle(
    style: PathStyle,
    helper: Option<String>,
    metadata: &Option<WindowsCloudFilesProcessMetadata>,
    running: bool,
    state_root: &str,
    mount: &MountConfig,
) -> (r: WindowsStop)
    ensures
        r.helper@ == reported_helper(helper, *metadata),
        r.stop_pid == (match metadata {
            Some(m) if running => Some(m.pid),
            _ => None,
        }),
        text::texts(r.remove@) == seq![
            lifecycle_file(style, state_root@, lifecycle_root_id(*mount)),
            lifecycle_file(style, state_root@, mount.mount_id@),
        ],
{
    let helper = report_helper(helper, metadata);
    let stop_pid: Option<u32> = match metadata {
        Some(m) => if running {
            Some(m.pid)
        } else {
            None
        },
        None => None,
    };
    let root_id = windows_cloud_files_lifecycle_root_id(mount);
    let mut remove: Vec<String> = Vec::new();
    remove.push(windows_cloud_files_lifecycle_file(style, state_root, &root_id));
    remove.push(windows_cloud_files_lifecycle_file(style, state_root, &mount.mount_id));
    assert(text::texts(remove@) =~= seq![
        lifecycle_file(style, state_root@, lifecycle_root_id(*mount)),
        lifecycle_file(style, state_root@, mount.mount_id@),
    ]);
    WindowsStop { helper, stop_pid, remove }
}

/// What is known of the provider of a mount.
#[derive(Debug, PartialEq, Eq)]
pub struct WindowsStatus {
    pub helper: String,
    pub pid: Option<u32>,
    pub stale_pid_file: bool,
    pub state: WindowsCloudFilesProviderState,
}

/// What is known of the provider of a mount: a record whose process is gone is
/// stale.
pub fn status_windows_cloud_files_lifecycle(
    helper: Option<String>,
    metadata: &Option<WindowsCloudFilesProcessMetadata>,
    running: bool,
) -> (r: WindowsStatus)
    ensures
        r.helper@ == reported_helper(helper, *metadata),
        r.pid == (match metadata {
            Some(m) => Some(m.pid),
            None => None,
        }),
        r.stale_pid_file == (metadata is Some && !running),
        r.state == (if metadata is Some && running {
            WindowsCloudFilesProviderState::Running
        } else {
            WindowsCloudFilesProviderState::Stopped
        }),
{
    let helper = report_helper(helper, metadata);
    match metadata {
        Some(m) => WindowsStatus {
            helper,
            pid: Some(m.pid),
            stale_pid_file: !running,
            state: if running {
                WindowsCloudFilesProviderState::Running
            } else {
                WindowsCloudFilesProviderState::Stopped
            },
        },
        None => WindowsStatus {
            helper,
            pid: None,
            stale_pid_file: false,
            state: WindowsCloudFilesProviderState::Stopped,
        },
    }
}

/// Something that only Windows can do with its provider.
#[derive(Clone, Copy, Debug, PartialEq, Eq, Structural)]
pub enum WindowsOnly {
    Register,
    Open,
    Run,
    Lifecycle(WindowsCloudFilesLifecycleAction),
    Unregister,
}

/// What is said on other platforms.
pub open spec fn windows_only_text(what: WindowsOnly, mount_id: Seq<char>) -> Seq<char> {
    match what {
        WindowsOnly::Register =>
        "Windows Cloud Files registration is only supported on Windows; mount `"@ + mount_id
            + "` cannot be registered here"@,
        WindowsOnly::Open => "Windows Cloud Files opening is only supported on Windows; mount `"@
            + mount_id + "` cannot be opened here"@,
        WindowsOnly::Run =>
        "Windows Cloud Files provider runtime is only supported on Windows; mount `"@ + mount_id
            + "` cannot run here"@,
        WindowsOnly::Lifecycle(action) =>
        "Windows Cloud Files provider lifecycle is only supported on Windows; mount `"@ + mount_id
            + "` cannot "@ + action.name() + " here"@,
        WindowsOnly::Unregister => "Windows Cloud Files unregister is only supported on Windows for `"@
            + mount_id + "`"@,
    }
}

/// The failure on other platforms.
pub fn unsupported_platform(what: WindowsOnly, mount_id: &str) -> (r: WindowsCloudFilesHelperError)
    ensures
        r matches WindowsCloudFilesHelperError::UnsupportedPlatform(m) && m@ == windows_only_text(
            what,
            mount_id@,
        ),
{
    let message = match what {
        WindowsOnly::Register => text::concat3(
            "Windows Cloud Files registration is only supported on Windows; mount `",
            mount_id,
            "` cannot be registered here",
        ),
        WindowsOnly::Open => text::concat3(
            "Windows Cloud Files opening is only supported on Windows; mount `",
            mount_id,
            "` cannot be opened here",
        ),
        WindowsOnly::Run => text::concat3(
            "Windows Cloud Files provider runtime is only supported on Windows; mount `",
            mount_id,
            "` cannot run here",
        ),
        WindowsOnly::Lifecycle(action) => {
            let mut out = text::concat3(
                "Windows Cloud Files provider lifecycle is only supported on Windows; mount `",
                mount_id,
                "` cannot ",
            );
            out.append(action.as_str());
            out.append(" here");
            out
        },
        WindowsOnly::Unregister => text::concat3(
            "Windows Cloud Files unregister is only supported on Windows for `",
            mount_id,
            "`",
        ),
    };
    WindowsCloudFilesHelperError::UnsupportedPlatform(message)
}

} // verus!
