//! How the programs that show mounts are found, started and spoken of.
use crate::cloud_files;
use crate::cloud_files::{
    WindowsCloudFilesProcessMetadata, WindowsCloudFilesProviderState, WindowsStart,
};
use crate::file_provider;
use crate::file_provider::{
    Candidate, FileProviderHelperError, HelperSearch, LinuxFuseRegistration,
    WindowsCloudFilesLifecycleAction,
};
use crate::json;
use crate::json::Json;
use crate::model::MountConfig;
use crate::paths;
use crate::paths::PathStyle;
use crate::quoting;
use crate::quoting::SafeSet;
use crate::text;
use vstd::prelude::*;

verus! {

/// A name keeps its length and every letter, digit, hyphen, underscore and dot; all else becomes an
/// underscore.
pub proof fn law_names_keep_what_is_safe(value: Seq<char>, i: int)
    requires
        0 <= i < value.len(),
    ensures
        file_provider::sanitized(value).len() == value.len(),
        ({
            let c = value[i];
            let kept = ('a' <= c <= 'z') || ('A' <= c <= 'Z') || ('0' <= c <= '9') || c == '-' || c
                == '_' || c == '.';
            file_provider::sanitized(value)[i] == (if kept {
                c
            } else {
                '_'
            })
        }),
{
}

/// The hash of a text grows byte by byte, from the offset and by the prime of 64-bit FNV-1a.
pub proof fn law_hashes_grow_by_the_byte(bytes: Seq<u8>, b: u8)
    ensures
        file_provider::fnv1a(Seq::empty()) == 14695981039346656037u64,
        file_provider::fnv1a(bytes.push(b)) == (file_provider::fnv1a(bytes)
            ^ b as u64).wrapping_mul(1099511628211u64),
{
    assert(bytes.push(b).drop_last() =~= bytes);
}

proof fn lemma_hex_len(n: nat, width: nat)
    ensures
        text::hex_digits(n, width).len() == width,
    decreases width,
{
    if width > 0 {
        lemma_hex_len(n / 16, (width - 1) as nat);
    }
}

/// What a failed program is told to have said is the first of its errors and its output that is not
/// blank, and else how it ended.
pub proof fn law_failed_programs_are_quoted(
    program: Seq<char>,
    stderr: Seq<char>,
    stdout: Seq<char>,
    status: Seq<char>,
)
    ensures
        text::trimmed(stderr).len() > 0 ==> file_provider::failure_words(
            program,
            stderr,
            stdout,
            status,
        ) == text::trimmed(stderr),
        text::trimmed(stderr).len() == 0 && text::trimmed(stdout).len() > 0
            ==> file_provider::failure_words(program, stderr, stdout, status) == text::trimmed(
            stdout,
        ),
        text::trimmed(stderr).len() == 0 && text::trimmed(stdout).len() == 0
            ==> file_provider::failure_words(program, stderr, stdout, status) == program
            + " exited with "@ + status,
{
}

/// What a failed helper is told to have said is its message, else its errors, else how it ended.
pub proof fn law_failed_helpers_are_quoted(
    program: Seq<char>,
    message: Option<Seq<char>>,
    stderr: Seq<char>,
    status: Seq<char>,
)
    ensures
        ({
            let told = file_provider::failure_told(program, message, stderr, status);
            let said = message is Some && message->0.len() > 0;
            &&& said ==> told == message->0
            &&& !said && text::trimmed(stderr).len() > 0 ==> told == text::trimmed(stderr)
            &&& !said && text::trimmed(stderr).len() == 0 ==> told == program
                + " exited with "@ + status
        }),
{
}

proof fn lemma_first_existing(candidates: Seq<Candidate>)
    ensures
        match file_provider::first_existing(candidates) {
            Some(path) => exists|i: int|
                0 <= i < candidates.len() && (#[trigger] candidates[i]).exists
                    && candidates[i].path == path && forall|j: int|
                    0 <= j < i ==> !(#[trigger] candidates[j]).exists,
            None => forall|i: int| 0 <= i < candidates.len() ==> !(#[trigger] candidates[i]).exists,
        },
    decreases candidates.len(),
{
    if candidates.len() > 0 {
        if candidates[0].exists {
            assert(candidates[0].exists && forall|j: int|
                0 <= j < 0 ==> !(#[trigger] candidates[j]).exists);
        } else {
            let rest = candidates.skip(1);
            lemma_first_existing(rest);
            match file_provider::first_existing(rest) {
                Some(path) => {
                    let i = choose|i: int|
                        0 <= i < rest.len() && (#[trigger] rest[i]).exists && rest[i].path == path
                            && forall|j: int| 0 <= j < i ==> !(#[trigger] rest[j]).exists;
                    assert(candidates[i + 1] == rest[i]);
                    assert forall|j: int| 0 <= j < i + 1 implies !(#[trigger] candidates[j]).exists by {
                        if j > 0 {
                            assert(candidates[j] == rest[j - 1]);
                        }
                    }
                },
                None => {
                    assert forall|i: int| 0 <= i < candidates.len() implies !(
                    #[trigger] candidates[i]).exists by {
                        if i > 0 {
                            assert(candidates[i] == rest[i - 1]);
                        }
                    }
                },
            }
        }
    }
}

/// The place that is taken of several is the first at which something is, and none is taken where
/// nothing is at any.
pub proof fn law_the_first_place_that_holds_is_taken(candidates: Seq<Candidate>)
    ensures
        match file_provider::first_existing(candidates) {
            Some(path) => exists|i: int|
                0 <= i < candidates.len() && (#[trigger] candidates[i]).exists
                    && candidates[i].path == path && forall|j: int|
                    0 <= j < i ==> !(#[trigger] candidates[j]).exists,
            None => forall|i: int| 0 <= i < candidates.len() ==> !(#[trigger] candidates[i]).exists,
        },
{
    lemma_first_existing(candidates);
}

/// A helper is taken from where it was named, else from its usual places, else from the search
/// path; it is found exactly where it is at one of these.
pub proof fn law_helpers_are_found_where_they_are(search: HelperSearch)
    ensures
        (search.named is Some && search.named->0.exists) ==> file_provider::found_helper(search)
            == Some(search.named->0.path),
        !(search.named is Some && search.named->0.exists) && file_provider::first_existing(
            search.usual@,
        ) is Some ==> file_provider::found_helper(search) == file_provider::first_existing(
            search.usual@,
        ),
        !(search.named is Some && search.named->0.exists) && file_provider::first_existing(
            search.usual@,
        ) is None ==> file_provider::found_helper(search) == file_provider::first_existing(
            search.on_path@,
        ),
        file_provider::found_helper(search) is None <==> {
            &&& search.named is None || !search.named->0.exists
            &&& forall|i: int|
                0 <= i < search.usual@.len() ==> !(#[trigger] search.usual@[i]).exists
            &&& forall|i: int|
                0 <= i < search.on_path@.len() ==> !(#[trigger] search.on_path@[i]).exists
        },
{
    lemma_first_existing(search.usual@);
    lemma_first_existing(search.on_path@);
}

/// A folder of the provider is shown without the name of the provider in front, and is otherwise
/// shown by its name.
pub proof fn law_provider_folders_lose_their_prefix(name: Seq<char>)
    ensures
        name.len() > 0 ==> file_provider::without_provider_prefix("Locality-"@ + name) == name,
        file_provider::without_provider_prefix("Locality-"@) == "Locality-"@,
        !text::begins_with(name, "Locality-"@) ==> file_provider::without_provider_prefix(name)
            == name,
{
    let all = "Locality-"@ + name;
    let n = "Locality-"@.len() as int;
    assert(all.subrange(0, n) =~= "Locality-"@);
    assert(all.skip(n) =~= name);
}

/// That macOS has no use for the provider is told with what to do about it; other failures are told
/// as they are.
pub proof fn law_unusable_providers_are_explained(message: String)
    ensures
        ({
            let told = FileProviderHelperError::Failed(message).message_text();
            let unusable = exists|i: int|
                text::occurs_at(message@, "The application cannot be used right now"@, i);
            &&& !unusable ==> told == message@
            &&& unusable ==> told.len() > text::stripped_end(message@, '.').len() && told.take(
                text::stripped_end(message@, '.').len() as int,
            ) == text::stripped_end(message@, '.')
        }),
{
    let front = text::stripped_end(message@, '.');
    let told = FileProviderHelperError::Failed(message).message_text();
    if file_provider::is_unavailable(message@) {
        reveal_strlit(
            ". The Locality macOS File Provider app or extension is not available to macOS. For local development, run `make install-macos-file-provider`, then reopen Locality and enable the File Provider if macOS asks.",
        );
        assert(told.take(front.len() as int) =~= front);
    }
}

/// Registering a mount of Linux writes a unit for its root, named after it, and makes the
/// directories of the unit, of the logs and of the root itself; the unit runs the helper on the
/// state and the root, and unmounts the root when it stops.
pub proof fn law_fuse_units_serve_their_root(
    style: PathStyle,
    locality_fuse: String,
    home: Seq<char>,
    state_root: Seq<char>,
    mount: MountConfig,
    r: LinuxFuseRegistration,
)
    requires
        file_provider::is_fuse_registration(style, locality_fuse, home, state_root, mount, r),
    ensures
        ({
            let id = file_provider::fuse_root_id(mount.projection_root@);
            let word = |s: Seq<char>|
                quoting::double_quoted(SafeSet::PathWord, quoting::Expansion::Systemd, s);
            let log = paths::joined(
                style,
                paths::joined(style, state_root, "logs"@),
                "locality-fuse."@ + id + ".log"@,
            );
            &&& r.report.mountpoint@ == mount.projection_root@
            &&& r.report.locality_fuse@ == locality_fuse@
            &&& r.report.service@ == "ai.codeflash.locality.fuse."@ + id + ".service"@
            &&& r.report.unit_path@ == paths::joined(
                style,
                paths::joined(style, home, ".config/systemd/user"@),
                r.report.service@,
            )
            &&& r.unit@ == "[Unit]\nDescription=Locality FUSE root for "@ + word(
                mount.projection_root@,
            ) + "\nAfter=default.target\n\n[Service]\nType=simple\nExecStart="@ + word(
                locality_fuse@,
            ) + " --state-dir "@ + word(state_root) + " --mountpoint "@ + word(
                mount.projection_root@,
            ) + "\nExecStop=/usr/bin/fusermount3 -uz "@ + word(mount.projection_root@)
                + "\nKillSignal=SIGINT\nTimeoutStopSec=10\nLimitCORE=0\nRestart=on-failure\nRestartSec=2\nStandardOutput=append:"@
                + log + "\nStandardError=append:"@ + log
                + "\n\n[Install]\nWantedBy=default.target\n"@
            &&& r.directories@.len() == 3
            &&& r.directories@[1]@ == paths::joined(style, state_root, "logs"@)
            &&& r.directories@[2]@ == mount.projection_root@
        }),
{
    file_provider::law_fuse_root_id_is_a_bounded_name(mount.projection_root@);
    let shown = text::texts(r.directories@);
    assert(shown.len() == r.directories@.len());
    assert(shown[1] == r.directories@[1]@);
    assert(shown[2] == r.directories@[2]@);
}

/// The directory of a path of Windows is what stands in front of the last separator of either kind.
pub proof fn law_windows_paths_have_their_parent(parent: Seq<char>, separator: char, name: Seq<char>)
    requires
        separator == '\\' || separator == '/',
        parent.len() > 0,
        forall|i: int| 0 <= i < name.len() ==> #[trigger] name[i] != '\\' && name[i] != '/',
    ensures
        cloud_files::windows_parent(parent + seq![separator] + name) == Some(parent),
        cloud_files::windows_parent(name) is None,
    decreases name.len(),
{
    let all = parent + seq![separator] + name;
    if name.len() == 0 {
        assert(all.drop_last() =~= parent);
    } else {
        let front = name.drop_last();
        assert(all.drop_last() =~= parent + seq![separator] + front);
        assert(all.last() == name.last());
        law_windows_paths_have_their_parent(parent, separator, front);
    }
}

/// A mount of Windows is shown at its projection root and, without one, at the directory of its
/// root.
pub proof fn law_sync_roots_of_mounts(mount: MountConfig)
    ensures
        mount.projection_root@.len() > 0 ==> cloud_files::sync_root(mount)
            == mount.projection_root@,
        mount.projection_root@.len() == 0 && cloud_files::windows_parent(mount.root@) is Some
            ==> cloud_files::sync_root(mount) == cloud_files::windows_parent(mount.root@)->0,
{
}

/// Two spellings of a path of Windows are one path: whichever separator stands in it, in whichever
/// case its letters are.
pub proof fn law_spellings_are_one_path(a: Seq<char>, b: Seq<char>)
    requires
        a.len() == b.len(),
        forall|i: int|
            0 <= i < a.len() ==> {
                ||| #[trigger] a[i] == b[i]
                ||| (a[i] == '/' && b[i] == '\\') || (a[i] == '\\' && b[i] == '/')
            },
    ensures
        cloud_files::path_key(a) == cloud_files::path_key(b),
{
    assert(cloud_files::backslashed(a) =~= cloud_files::backslashed(b));
}

/// The key of a path has no capital letter and no slash.
pub proof fn law_path_keys_are_plain(path: Seq<char>, i: int)
    requires
        0 <= i < cloud_files::path_key(path).len(),
    ensures
        cloud_files::path_key(path)[i] != '/',
        !('A' <= cloud_files::path_key(path)[i] <= 'Z'),
{
    let plain = cloud_files::backslashed(path);
    lemma_without_end(plain);
    let kept = cloud_files::without_end_separators(plain);
    assert(kept[i] == plain[i]);
    assert(cloud_files::path_key(path)[i] == text::lower(kept[i]));
}

proof fn lemma_without_end(path: Seq<char>)
    ensures
        cloud_files::without_end_separators(path).len() <= path.len(),
        cloud_files::without_end_separators(path) == path.take(
            cloud_files::without_end_separators(path).len() as int,
        ),
    decreases path.len(),
{
    let kept = cloud_files::without_end_separators(path);
    if path.len() > 0 && path.last() == '\\' && vstd::utf8::encode_utf8(path).len() > 3 {
        lemma_without_end(path.drop_last());
        assert(path.drop_last().take(kept.len() as int) =~= path.take(kept.len() as int));
    } else {
        assert(path.take(path.len() as int) =~= path);
    }
}

/// A separator at the end of a path makes no other path, unless it is that of a drive.
pub proof fn law_end_separators_make_no_other_path(path: Seq<char>)
    requires
        vstd::utf8::encode_utf8(path).len() >= 3,
    ensures
        cloud_files::path_key(path + seq!['\\']) == cloud_files::path_key(path),
        cloud_files::path_key(path + seq!['/']) == cloud_files::path_key(path),
{
    let a = path + seq!['\\'];
    let plain = cloud_files::backslashed(path);
    assert(cloud_files::backslashed(a) =~= plain.push('\\'));
    assert(cloud_files::backslashed(path + seq!['/']) =~= plain.push('\\'));
    assert(plain.push('\\').drop_last() =~= plain);
    lemma_bytes_of_backslashed(path);
    text::lemma_byte_len(path);
    text::lemma_byte_len(plain.push('\\'));
}

proof fn lemma_bytes_of_backslashed(path: Seq<char>)
    ensures
        text::byte_len(cloud_files::backslashed(path)) == text::byte_len(path),
    decreases path.len(),
{
    if path.len() > 0 {
        lemma_bytes_of_backslashed(path.drop_last());
        assert(cloud_files::backslashed(path).drop_last() =~= cloud_files::backslashed(
            path.drop_last(),
        ));
    }
}

/// A registration is that of a mount where it has the identifier of its root, its mount identifier,
/// or the identifier that all roots once shared and the path of its root; and else it is not.
pub proof fn law_registrations_are_of_their_mount(root: Json, mount: MountConfig)
    ensures
        cloud_files::is_registration(root, mount) <==> {
            let id = cloud_files::text_at_either(root, "sync_root_id"@, "id"@);
            let here = cloud_files::path_key(cloud_files::sync_root(mount));
            ||| id == Some(
                "codeflash.ai.loc!default!"@ + "locality"@ + "-"@ + file_provider::hash_text(here),
            )
            ||| root.text_at("mount_id"@) == Some(mount.mount_id@)
            ||| id == Some("codeflash.ai.loc!default!locality"@) && root.text_at("path"@) is Some
                && cloud_files::path_key(root.text_at("path"@)->0) == here
        },
{
}

/// A marker is that of a root by its identifier or by its path.
pub proof fn law_markers_are_of_their_root(
    marker_id: Option<Seq<char>>,
    marker_path: Option<Seq<char>>,
    id: Seq<char>,
    key: Seq<char>,
)
    ensures
        cloud_files::is_marker_of(marker_id, marker_path, id, key) <==> marker_id == Some(id) || (
        marker_path is Some && cloud_files::path_key(marker_path->0) == key),
{
}

/// A record of a running helper is that of a mount exactly where it is of the same root, however
/// that is spelled.
pub proof fn law_records_are_of_their_root(
    record: Option<WindowsCloudFilesProcessMetadata>,
    mount: MountConfig,
)
    ensures
        cloud_files::is_record_of(record, mount) <==> record is Some && cloud_files::path_key(
            record->0.sync_root@,
        ) == cloud_files::path_key(cloud_files::sync_root(mount)),
{
}

/// A task is taken for the helper only with both its number and its name.
pub proof fn law_tasks_are_known_by_number_and_name(
    line: Seq<char>,
    pid: Seq<char>,
    image: Seq<char>,
)
    ensures
        cloud_files::is_helper_task(line, pid, image) <==> {
            let fields = cloud_files::csv_fields(line, Seq::empty(), false);
            &&& fields.len() >= 2
            &&& fields[1] == pid
            &&& text::lowered(fields[0]) == text::lowered(image) || text::lowered(fields[0])
                == text::lowered("locality-cloud-files.exe"@)
        },
{
}

/// A helper is started on the root of its mount and the state directory, with logs and a record
/// named after that root.
pub proof fn law_helpers_are_started_on_their_root(
    style: PathStyle,
    r: WindowsStart,
    path: String,
    state_root: Seq<char>,
    state_dir: Seq<char>,
    mount: MountConfig,
)
    requires
        cloud_files::is_launch(style, r, path, state_root, state_dir, mount),
    ensures
        r matches WindowsStart::Launch {
            helper,
            args,
            directories,
            root_id,
            sync_root,
            stdout_log,
            stderr_log,
        } && {
            let root = cloud_files::sync_root(mount);
            let id = "root-"@ + cloud_files::fragment(root);
            let logs = paths::joined(style, state_root, "logs"@);
            let log = "locality-cloud-files."@ + cloud_files::fragment(id);
            &&& helper@ == path@
            &&& sync_root@ == root
            &&& root_id@ == id
            &&& args@.len() == 5
            &&& args@[0]@ == "run"@
            &&& args@[1]@ == "--sync-root"@ && args@[2]@ == root
            &&& args@[3]@ == "--state-dir"@ && args@[4]@ == state_dir
            &&& directories@.len() == 2
            &&& directories@[0]@ == paths::joined(style, state_root, "cloud-files-lifecycle"@)
            &&& directories@[1]@ == logs
            &&& stdout_log@ == paths::joined(style, logs, log + ".out.log"@)
            &&& stderr_log@ == paths::joined(style, logs, log + ".err.log"@)
        },
{
    if let WindowsStart::Launch { args, directories, .. } = r {
        let a = text::texts(args@);
        let d = text::texts(directories@);
        assert(a.len() == args@.len());
        assert(d.len() == directories@.len());
        assert(a[0] == args@[0]@);
        assert(a[1] == args@[1]@);
        assert(a[2] == args@[2]@);
        assert(a[3] == args@[3]@);
        assert(a[4] == args@[4]@);
        assert(d[0] == directories@[0]@);
        assert(d[1] == directories@[1]@);
    }
}

/// The files of a root are named after it and its hash, so that roots which look alike in a file
/// name stay apart.
pub proof fn law_files_of_roots_bear_its_hash(value: Seq<char>)
    ensures
        ({
            let f = cloud_files::fragment(value);
            let h = text::hex_digits(
                file_provider::fnv1a(vstd::utf8::encode_utf8(value)) as nat,
                16,
            );
            &&& h.len() == 16
            &&& f == (if value.len() == 0 {
                "mount"@
            } else {
                file_provider::sanitized(value)
            }) + "-"@ + h
        }),
{
    lemma_hex_len(file_provider::fnv1a(vstd::utf8::encode_utf8(value)) as nat, 16);
}

/// The helper that a report names is the one that was found, else the one on record.
pub proof fn law_reports_name_the_helper_that_was_found(
    found: Option<String>,
    metadata: Option<WindowsCloudFilesProcessMetadata>,
)
    ensures
        found is Some ==> cloud_files::reported_helper(found, metadata) == found->0@,
        found is None && metadata is Some ==> cloud_files::reported_helper(found, metadata)
            == metadata->0.helper@,
        found is None && metadata is None ==> cloud_files::reported_helper(found, metadata)
            == "locality-cloud-files"@,
{
}

/// A helper is looked for beside the program first, and then in what was built here.
pub proof fn law_helpers_beside_the_program_come_first(
    style: PathStyle,
    name: Seq<char>,
    program_directory: Option<Seq<char>>,
    workspace: Seq<char>,
)
    ensures
        ({
            let places = file_provider::usual_places(style, name, program_directory, workspace);
            let n = places.len() as int;
            &&& n == (if program_directory is Some {
                3int
            } else {
                2int
            })
            &&& program_directory matches Some(d) ==> places[0] == paths::joined(style, d, name)
            &&& places[n - 2] == paths::joined(
                style,
                paths::joined(style, workspace, "target/debug"@),
                name,
            )
            &&& places[n - 1] == paths::joined(
                style,
                paths::joined(style, workspace, "target/release"@),
                name,
            )
        }),
{
}

/// On macOS the helper that was named comes first, then the one beside the program, the installed
/// ones, and what was built here.
pub proof fn law_named_helpers_come_first_on_macos(
    style: PathStyle,
    named: Option<Seq<char>>,
    program_directory: Option<Seq<char>>,
    home: Option<Seq<char>>,
    package: Seq<char>,
)
    ensures
        ({
            let places = file_provider::macos_places(style, named, program_directory, home, package);
            let n = places.len() as int;
            let a = if named is Some {
                1int
            } else {
                0int
            };
            let b = if program_directory is Some {
                a + 1
            } else {
                a
            };
            &&& named matches Some(place) ==> places[0] == place
            &&& program_directory matches Some(d) ==> places[a] == paths::joined(
                style,
                d,
                "locality-file-providerctl"@,
            )
            &&& places[b] == "/Applications/Locality.app/Contents/MacOS/locality-file-providerctl"@
            &&& home matches Some(d) ==> places[b + 1] == paths::joined(
                style,
                d,
                "Applications/Locality.app/Contents/MacOS/locality-file-providerctl"@,
            )
            &&& n == b + 4 + (if home is Some {
                1int
            } else {
                0int
            })
            &&& places[n - 3] == paths::joined(
                style,
                package,
                ".build/dev-bundle/Locality.app/Contents/MacOS/locality-file-providerctl"@,
            )
            &&& places[n - 2] == paths::joined(
                style,
                package,
                ".build/debug/locality-file-providerctl"@,
            )
            &&& places[n - 1] == paths::joined(
                style,
                package,
                ".build/release/locality-file-providerctl"@,
            )
        }),
{
}

/// A folder of macOS is called as its domain is: by the last name of the root, without the name of
/// the provider before it; by nothing where it is the provider itself.
pub proof fn law_folders_are_called_as_their_domain(
    style: PathStyle,
    root: Seq<char>,
    fallback: Seq<char>,
    name: Seq<char>,
)
    requires
        paths::components(style, root).len() < 3 || paths::last_name(
            paths::components(style, root).take(paths::components(style, root).len() - 2),
        ) != Some("CloudStorage"@),
        name.len() > 0,
    ensures
        ({
            let last = paths::last_name(paths::components(style, root));
            let shown = file_provider::display_name(style, root, fallback);
            &&& last is None ==> shown == fallback
            &&& last == Some("Locality"@) ==> shown.len() == 0
            &&& last == Some("Locality-"@ + name) ==> shown == name
            &&& last == Some(name) && name != "Locality"@ && !text::begins_with(name, "Locality-"@)
                ==> shown == name
        }),
{
    reveal_strlit("Locality");
    reveal_strlit("Locality-");
    let whole = "Locality-"@ + name;
    assert(whole.subrange(0, 9) =~= "Locality-"@);
    assert(whole.skip(9) =~= name);
    assert(whole.len() > "Locality"@.len());
}

/// Below the cloud storage of a user, the folder of the provider is what is called, not what is in
/// it.
pub proof fn law_folders_of_the_cloud_storage_are_called_by_their_provider(
    style: PathStyle,
    root: Seq<char>,
)
    requires
        paths::components(style, root).len() >= 3,
        paths::last_name(
            paths::components(style, root).take(paths::components(style, root).len() - 2),
        ) == Some("CloudStorage"@),
        !(paths::components(style, root).last() is Root),
    ensures
        file_provider::domain_components(style, root) == paths::components(style, root).drop_last(),
{
}

/// A provider of Windows that was started, restarted or stopped, or that runs, is told with its
/// mount and its process.
pub proof fn law_processes_are_told(mount_id: Seq<char>, pid: u32)
    ensures
        ({
            let told = |words: Seq<char>|
                "Windows Cloud Files provider "@ + words + mount_id + "` (pid "@ + text::decimal(
                    pid as nat,
                ) + ")"@;
            let running = WindowsCloudFilesProviderState::Running;
            let stopped = WindowsCloudFilesProviderState::Stopped;
            &&& cloud_files::lifecycle_message(
                WindowsCloudFilesLifecycleAction::Start,
                mount_id,
                running,
                Some(pid),
            ) == told("started for `"@)
            &&& cloud_files::lifecycle_message(
                WindowsCloudFilesLifecycleAction::Restart,
                mount_id,
                running,
                Some(pid),
            ) == told("restarted for `"@)
            &&& cloud_files::lifecycle_message(
                WindowsCloudFilesLifecycleAction::Status,
                mount_id,
                running,
                Some(pid),
            ) == told("is running for `"@)
            &&& cloud_files::lifecycle_message(
                WindowsCloudFilesLifecycleAction::Stop,
                mount_id,
                stopped,
                Some(pid),
            ) == told("stopped for `"@)
            &&& cloud_files::lifecycle_message(
                WindowsCloudFilesLifecycleAction::Stop,
                mount_id,
                stopped,
                None,
            ) == "Windows Cloud Files provider is already stopped for `"@ + mount_id + "`"@
            &&& cloud_files::lifecycle_message(
                WindowsCloudFilesLifecycleAction::Status,
                mount_id,
                stopped,
                None,
            ) == "Windows Cloud Files provider is stopped for `"@ + mount_id + "`"@
        }),
{
    reveal_strlit("Windows Cloud Files provider ");
    reveal_strlit("is already stopped for `");
    reveal_strlit("is stopped for `");
    reveal_strlit("Windows Cloud Files provider is already stopped for `");
    reveal_strlit("Windows Cloud Files provider is stopped for `");
    assert("Windows Cloud Files provider "@ + "is already stopped for `"@
        =~= "Windows Cloud Files provider is already stopped for `"@);
    assert("Windows Cloud Files provider "@ + "is stopped for `"@
        =~= "Windows Cloud Files provider is stopped for `"@);
}

/// A process is known by the name of its helper, with no directory before it.
pub proof fn law_processes_bear_the_name_of_their_helper(
    style: PathStyle,
    helper: Seq<char>,
    name: Seq<char>,
)
    ensures
        paths::last_name(paths::components(style, helper)) == Some(name)
            ==> cloud_files::helper_image(style, helper) == name,
        paths::last_name(paths::components(style, helper)) is None ==> cloud_files::helper_image(
            style,
            helper,
        ) == "locality-cloud-files.exe"@,
{
}

/// A key counts before the other one where a document has both.
pub proof fn law_first_keys_count(document: Seq<char>, first: Seq<char>, second: Seq<char>)
    ensures
        ({
            let found = json::text_in_either(document, first, second);
            &&& json::json_field(document, first) matches Some(value) ==> found == value
            &&& json::json_field(document, first) is None ==> found == (match json::json_field(
                document,
                second,
            ) {
                Some(value) => value,
                None => None,
            })
        }),
{
}

} // verus!
