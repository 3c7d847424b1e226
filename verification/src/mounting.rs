//! New mounts: what the arguments ask for, which connection is used, and which
//! identifier the mount gets.
use vstd::prelude::*;

use crate::args;
use crate::connect;
use crate::connect::{ConnectionRecord, ConnectorProfileRecord};
use crate::model;
use crate::model::{CommandError, MountConfig, ProjectionMode, StoreError};
use crate::projection;
use crate::text;

verus! {

/// A source as the commands know it.
#[derive(Debug, PartialEq, Eq)]
pub struct SourceDescriptor {
    pub id: String,
    pub display_name: String,
    pub default_mount_id: String,
    pub connect_command: Option<String>,
}

/// The lower case of an ASCII letter or digit.
pub open spec fn component_char(c: char) -> char {
    if 'A' <= c && c <= 'Z' {
        (c as u8 + 32) as char
    } else {
        c
    }
}

/// The letters and digits of a text in lower case, and one `-` for each run of
/// anything else.
pub open spec fn dashed(s: Seq<char>) -> Seq<char>
    decreases s.len(),
{
    if s.len() == 0 {
        Seq::empty()
    } else {
        let before = dashed(s.drop_last());
        if text::is_ascii_alphanumeric(s.last()) {
            before.push(component_char(s.last()))
        } else if s.len() > 1 && !text::is_ascii_alphanumeric(s[s.len() - 2]) {
            before
        } else {
            before.push('-')
        }
    }
}

/// A text as part of a mount identifier: its letters and digits in lower case,
/// with single dashes between them.
pub open spec fn component_text(value: Seq<char>) -> Seq<char> {
    let kept = text::stripped_end(text::stripped_front(dashed(value), '-'), '-');
    if kept.len() == 0 {
        "mount"@
    } else {
        kept
    }
}

fn to_ascii_lowercase(c: char) -> (r: char)
    ensures
        r == component_char(c),
{
    if 'A' <= c && c <= 'Z' {
        (c as u8 + 32) as char
    } else {
        c
    }
}

/// A text as part of a mount identifier.
pub fn mount_id_component(value: &str) -> (r: String)
    ensures
        r@ == component_text(value@),
{
    let all = text::chars_of(value);
    let mut normalized: Vec<char> = Vec::new();
    let mut last_was_dash = false;
    let mut i: usize = 0;
    assert(value@.take(0) =~= Seq::<char>::empty());
    while i < all.len()
        invariant
            i <= all.len(),
            all@ == value@,
            normalized@ == dashed(value@.take(i as int)),
            last_was_dash == (i > 0 && !text::is_ascii_alphanumeric(value@[i - 1])),
        decreases all.len() - i,
    {
        let c = all[i];
        assert(value@.take(i + 1).drop_last() =~= value@.take(i as int));
        assert(value@.take(i + 1).last() == c);
        if text::is_ascii_alphanumeric(c) {
            normalized.push(to_ascii_lowercase(c));
            last_was_dash = false;
        } else if !last_was_dash {
            normalized.push('-');
            last_was_dash = true;
        }
        i += 1;
    }
    assert(value@.take(i as int) =~= value@);
    let kept = text::strip_end(&text::strip_front(&normalized, '-'), '-');
    if kept.len() == 0 {
        "mount".to_string()
    } else {
        text::string_of(&kept)
    }
}

/// Whether a character is a small letter or a digit.
pub open spec fn is_small(c: char) -> bool {
    ('a' <= c && c <= 'z') || ('0' <= c && c <= '9')
}

/// Whether a text is made of small letters and digits, with single dashes
/// between them and none at the ends.
pub open spec fn is_component(s: Seq<char>) -> bool {
    &&& s.len() > 0
    &&& s[0] != '-'
    &&& s.last() != '-'
    &&& forall|i: int| 0 <= i < s.len() ==> is_small(#[trigger] s[i]) || s[i] == '-'
    &&& forall|i: int| 0 < i < s.len() ==> (#[trigger] s[i]) != '-' || s[i - 1] != '-'
}

proof fn lemma_component_char(c: char)
    requires
        text::is_ascii_alphanumeric(c),
    ensures
        is_small(component_char(c)),
        component_char(c) != '-',
{
    if 'A' <= c && c <= 'Z' {
        let n = c as u8;
        assert(65 <= n <= 90);
        assert(97 <= (n + 32) as u8 <= 122);
    }
}

proof fn lemma_dashed(s: Seq<char>)
    ensures
        forall|i: int|
            0 <= i < dashed(s).len() ==> is_small(#[trigger] dashed(s)[i]) || dashed(s)[i] == '-',
        forall|i: int|
            0 < i < dashed(s).len() ==> (#[trigger] dashed(s)[i]) != '-' || dashed(s)[i - 1]
                != '-',
        s.len() > 0 && text::is_ascii_alphanumeric(s.last()) ==> dashed(s).len() > 0
            && dashed(s).last() != '-',
    decreases s.len(),
{
    if s.len() > 0 {
        lemma_dashed(s.drop_last());
        let before = dashed(s.drop_last());
        if text::is_ascii_alphanumeric(s.last()) {
            lemma_component_char(s.last());
        } else if s.len() > 1 && text::is_ascii_alphanumeric(s[s.len() - 2]) {
            assert(s.drop_last().last() == s[s.len() - 2]);
            assert(before.last() != '-');
        } else if s.len() == 1 {
            assert(before.len() == 0);
        }
    }
}

proof fn lemma_strip_end(s: Seq<char>, c: char)
    ensures
        text::stripped_end(s, c).len() <= s.len(),
        forall|i: int|
            0 <= i < text::stripped_end(s, c).len() ==> #[trigger] text::stripped_end(s, c)[i]
                == s[i],
        text::stripped_end(s, c).len() > 0 ==> text::stripped_end(s, c).last() != c,
    decreases s.len(),
{
    if s.len() > 0 && s.last() == c {
        lemma_strip_end(s.drop_last(), c);
    }
}

proof fn lemma_strip_front(s: Seq<char>, c: char)
    ensures
        text::stripped_front(s, c).len() <= s.len(),
        forall|i: int|
            0 <= i < text::stripped_front(s, c).len() ==> #[trigger] text::stripped_front(s, c)[i]
                == s[i + (s.len() - text::stripped_front(s, c).len())],
        text::stripped_front(s, c).len() > 0 ==> text::stripped_front(s, c)[0] != c,
    decreases s.len(),
{
    if s.len() > 0 && s[0] == c {
        lemma_strip_front(s.skip(1), c);
    }
}

/// A part of a mount identifier is made of small letters and digits, with
/// single dashes between them, whatever it was made of.
pub proof fn law_component_has_its_shape(value: Seq<char>)
    ensures
        is_component(component_text(value)),
{
    let d = dashed(value);
    let front = text::stripped_front(d, '-');
    let kept = text::stripped_end(front, '-');
    lemma_dashed(value);
    lemma_strip_front(d, '-');
    lemma_strip_end(front, '-');
    if kept.len() == 0 {
        reveal_strlit("mount");
    } else {
        let off = d.len() - front.len();
        assert forall|i: int| 0 <= i < kept.len() implies is_small(#[trigger] kept[i]) || kept[i]
            == '-' by {
            assert(kept[i] == front[i] && front[i] == d[i + off]);
        }
        assert forall|i: int| 0 < i < kept.len() implies (#[trigger] kept[i]) != '-' || kept[i - 1]
            != '-' by {
            assert(kept[i] == front[i] && front[i] == d[i + off]);
            assert(kept[i - 1] == front[i - 1] && front[i - 1] == d[i - 1 + off]);
        }
        assert(kept[0] == front[0]);
    }
}

/// A part of a mount identifier with the source in front, unless it is there.
pub open spec fn with_prefix(connector: Seq<char>, component: Seq<char>) -> Seq<char> {
    let c = if component.len() == 0 {
        "mount"@
    } else {
        component
    };
    if c == connector || text::begins_with(c, connector + "-"@) {
        c
    } else {
        connector + "-"@ + c
    }
}

/// A part of a mount identifier with the source in front.
pub fn mount_id_with_source_prefix(connector: &str, component: &str) -> (r: String)
    ensures
        r@ == with_prefix(connector@, component@),
{
    let component = if component.is_empty() {
        "mount"
    } else {
        component
    };
    let mut prefixed = connector.to_string();
    prefixed.append("-");
    if text::same_text(component, connector) || text::starts_with(component, &prefixed) {
        component.to_string()
    } else {
        prefixed.append(component);
        prefixed
    }
}

/// What the identifiers of further mounts of a source begin with: the
/// connection, else the first characters of the remote root, else the default
/// identifier.
pub open spec fn id_base(
    descriptor: SourceDescriptor,
    connection_id: Option<Seq<char>>,
    remote_root_id: Option<Seq<char>>,
) -> Seq<char> {
    match (connection_id, remote_root_id) {
        (Some(id), _) => with_prefix(descriptor.id@, component_text(id)),
        (None, Some(root)) => with_prefix(
            descriptor.id@,
            first_twelve(component_text(root)),
        ),
        (None, None) => descriptor.default_mount_id@,
    }
}

/// The first twelve characters.
pub open spec fn first_twelve(s: Seq<char>) -> Seq<char> {
    if s.len() <= 12 {
        s
    } else {
        s.take(12)
    }
}

/// What the identifiers of further mounts of a source begin with.
pub fn source_mount_id_base(
    descriptor: &SourceDescriptor,
    connection_id: Option<&str>,
    remote_root_id: Option<&str>,
) -> (r: String)
    ensures
        r@ == id_base(*descriptor, text::opt_str(connection_id), text::opt_str(remote_root_id)),
{
    if let Some(id) = connection_id {
        return mount_id_with_source_prefix(&descriptor.id, &mount_id_component(id));
    }
    if let Some(root) = remote_root_id {
        let component = text::chars_of(&mount_id_component(root));
        let n: usize = if component.len() < 12 {
            component.len()
        } else {
            12
        };
        let short = text::string_of_range(&component, 0, n);
        assert(short@ =~= first_twelve(component@));
        proof {
            law_component_has_its_shape(root@);
        }
        return mount_id_with_source_prefix(&descriptor.id, &short);
    }
    descriptor.default_mount_id.clone()
}

/// The first mount with an identifier.
pub open spec fn mount_named(mounts: Seq<MountConfig>, mount_id: Seq<char>) -> Option<MountConfig>
    decreases mounts.len(),
{
    if mounts.len() == 0 {
        None
    } else if mounts[0].mount_id@ == mount_id {
        Some(mounts[0])
    } else {
        mount_named(mounts.skip(1), mount_id)
    }
}

/// Whether a mount is of a source, by the same connection and with the same
/// root.
pub open spec fn is_same_source(
    mount: MountConfig,
    descriptor: SourceDescriptor,
    connection_id: Option<Seq<char>>,
    remote_root_id: Option<Seq<char>>,
) -> bool {
    &&& mount.connector@ == descriptor.id@
    &&& text::opt_text(mount.connection_id) == connection_id
    &&& text::opt_text(mount.remote_root_id) == remote_root_id
}

/// Whether an identifier can be used for a mount of a source: no mount has it,
/// or the mount that has it is of the same source.
pub open spec fn is_available(
    mounts: Seq<MountConfig>,
    mount_id: Seq<char>,
    descriptor: SourceDescriptor,
    connection_id: Option<Seq<char>>,
    remote_root_id: Option<Seq<char>>,
) -> bool {
    match mount_named(mounts, mount_id) {
        None => true,
        Some(mount) => is_same_source(mount, descriptor, connection_id, remote_root_id),
    }
}

/// Whether an identifier can be used for a mount of a source.
pub fn mount_id_available_for_source(
    mounts: &Vec<MountConfig>,
    mount_id: &str,
    descriptor: &SourceDescriptor,
    connection_id: Option<&str>,
    remote_root_id: Option<&str>,
) -> (r: bool)
    ensures
        r == is_available(
            mounts@,
            mount_id@,
            *descriptor,
            text::opt_str(connection_id),
            text::opt_str(remote_root_id),
        ),
{
    let mut i: usize = 0;
    assert(mounts@.skip(0) == mounts@);
    while i < mounts.len()
        invariant
            i <= mounts.len(),
            mount_named(mounts@, mount_id@) == mount_named(mounts@.skip(i as int), mount_id@),
        decreases mounts.len() - i,
    {
        let mount = &mounts[i];
        assert(mounts@.skip(i as int)[0] == mounts@[i as int]);
        assert(mounts@.skip(i as int).skip(1) == mounts@.skip(i + 1));
        if text::same_text(&mount.mount_id, mount_id) {
            return text::same_text(&mount.connector, &descriptor.id) && option_is_str(
                &mount.connection_id,
                connection_id,
            ) && option_is_str(&mount.remote_root_id, remote_root_id);
        }
        i += 1;
    }
    true
}

fn option_is_str(a: &Option<String>, b: Option<&str>) -> (r: bool)
    ensures
        r == (text::opt_text(*a) == text::opt_str(b)),
{
    match (a, b) {
        (Some(x), Some(y)) => text::same_text(x, y),
        (None, None) => true,
        _ => false,
    }
}

/// The candidates for an identifier: the base, then the base with a number from
/// 2 on.
pub open spec fn candidate(base: Seq<char>, suffix: nat) -> Seq<char> {
    if suffix <= 1 {
        base
    } else {
        base + "-"@ + text::decimal(suffix)
    }
}

proof fn lemma_decimal_value(n: nat)
    ensures
        text::value_of_digits(text::decimal(n)) == n,
    decreases n,
{
    if n < 10 {
        let s = seq![text::digit(n as int)];
        assert(s.drop_last() =~= Seq::<char>::empty());
        assert(text::value_of_digits(Seq::<char>::empty()) == 0);
        assert(s.last() as int == 48 + n);
    } else {
        lemma_decimal_value(n / 10);
        let s = text::decimal(n);
        assert(s.drop_last() =~= text::decimal(n / 10));
        assert(s.last() == text::digit((n % 10) as int));
        assert(s.last() as int == 48 + n % 10);
    }
}

proof fn lemma_decimal_not_empty(n: nat)
    ensures
        text::decimal(n).len() > 0,
{
}

/// Different numbers give different candidates.
proof fn lemma_candidates_differ(base: Seq<char>, a: nat, b: nat)
    requires
        1 <= a < b,
    ensures
        candidate(base, a) != candidate(base, b),
{
    reveal_strlit("-");
    lemma_decimal_not_empty(b);
    if a == 1 {
        assert(candidate(base, b).len() > base.len());
    } else {
        let x = candidate(base, a);
        let y = candidate(base, b);
        if x == y {
            let k = base.len() as int + 1;
            assert(x.skip(k) =~= text::decimal(a));
            assert(y.skip(k) =~= text::decimal(b));
            lemma_decimal_value(a);
            lemma_decimal_value(b);
        }
    }
}

proof fn lemma_named_is_there(mounts: Seq<MountConfig>, mount_id: Seq<char>)
    ensures
        mount_named(mounts, mount_id) is Some ==> mounts.map_values(
            |m: MountConfig| m.mount_id@,
        ).contains(mount_id),
    decreases mounts.len(),
{
    let ids = mounts.map_values(|m: MountConfig| m.mount_id@);
    if mounts.len() > 0 {
        if mounts[0].mount_id@ == mount_id {
            assert(ids[0] == mount_id);
        } else {
            lemma_named_is_there(mounts.skip(1), mount_id);
            let rest = mounts.skip(1).map_values(|m: MountConfig| m.mount_id@);
            if rest.contains(mount_id) {
                let k = choose|k: int| 0 <= k < rest.len() && rest[k] == mount_id;
                assert(ids[k + 1] == mount_id);
            }
        }
    }
}

/// Among more candidates than there are mounts, one can be used.
proof fn lemma_some_candidate_is_available(
    mounts: Seq<MountConfig>,
    base: Seq<char>,
    descriptor: SourceDescriptor,
    connection_id: Option<Seq<char>>,
    remote_root_id: Option<Seq<char>>,
)
    ensures
        exists|k: nat|
            1 <= k <= mounts.len() + 1 && #[trigger] is_available(
                mounts,
                candidate(base, k),
                descriptor,
                connection_id,
                remote_root_id,
            ),
{
    let n = mounts.len();
    let ids = mounts.map_values(|m: MountConfig| m.mount_id@);
    let tried = Seq::new(n + 1, |i: int| candidate(base, (i + 1) as nat));
    if forall|k: nat|
        1 <= k <= n + 1 ==> !(#[trigger] is_available(
            mounts,
            candidate(base, k),
            descriptor,
            connection_id,
            remote_root_id,
        )) {
        assert forall|i: int| 0 <= i < tried.len() implies ids.contains(#[trigger] tried[i]) by {
            assert(!is_available(
                mounts,
                candidate(base, (i + 1) as nat),
                descriptor,
                connection_id,
                remote_root_id,
            ));
            lemma_named_is_there(mounts, tried[i]);
        }
        assert(tried.no_duplicates()) by {
            assert forall|i: int, j: int|
                0 <= i < tried.len() && 0 <= j < tried.len() && i != j implies tried[i]
                != tried[j] by {
                if i < j {
                    lemma_candidates_differ(base, (i + 1) as nat, (j + 1) as nat);
                } else {
                    lemma_candidates_differ(base, (j + 1) as nat, (i + 1) as nat);
                }
            }
        }
        tried.unique_seq_to_set();
        ids.lemma_cardinality_of_set();
        vstd::seq_lib::seq_to_set_is_finite(ids);
        assert(tried.to_set().subset_of(ids.to_set())) by {
            assert forall|x: Seq<char>| tried.to_set().contains(x) implies ids.to_set().contains(
                x,
            ) by {
                let i = choose|i: int| 0 <= i < tried.len() && tried[i] == x;
                assert(ids.contains(tried[i]));
            }
        }
        vstd::set_lib::lemma_len_subset(tried.to_set(), ids.to_set());
        assert(false);
    }
}

/// Whether an identifier is the first candidate that can be used.
pub open spec fn is_first_available(
    mount_id: Seq<char>,
    suffix: nat,
    base: Seq<char>,
    mounts: Seq<MountConfig>,
    descriptor: SourceDescriptor,
    connection_id: Option<Seq<char>>,
    remote_root_id: Option<Seq<char>>,
) -> bool {
    &&& suffix >= 1
    &&& mount_id == candidate(base, suffix)
    &&& is_available(mounts, mount_id, descriptor, connection_id, remote_root_id)
    &&& forall|k: nat|
        1 <= k < suffix ==> !(#[trigger] is_available(
            mounts,
            candidate(base, k),
            descriptor,
            connection_id,
            remote_root_id,
        ))
}

/// Whether an identifier is the one that a new mount of a source gets: the
/// default one where it can be used, else the first candidate that can.
pub open spec fn is_default_mount_id(
    mount_id: Seq<char>,
    mounts: Seq<MountConfig>,
    descriptor: SourceDescriptor,
    connection_id: Option<Seq<char>>,
    remote_root_id: Option<Seq<char>>,
) -> bool {
    if is_available(
        mounts,
        descriptor.default_mount_id@,
        descriptor,
        connection_id,
        remote_root_id,
    ) {
        mount_id == descriptor.default_mount_id@
    } else {
        exists|suffix: nat|
            #[trigger] is_first_available(
                mount_id,
                suffix,
                id_base(descriptor, connection_id, remote_root_id),
                mounts,
                descriptor,
                connection_id,
                remote_root_id,
            )
    }
}

/// The identifier that a new mount of a source gets. The search ends: there are
/// more candidates than mounts.
pub fn default_mount_id_for_source(
    mounts: &Result<Vec<MountConfig>, StoreError>,
    descriptor: &SourceDescriptor,
    connection_id: Option<&str>,
    remote_root_id: Option<&str>,
) -> (r: Result<String, CommandError>)
    ensures
        match *mounts {
            Err(e) => r matches Err(error) && model::is_command_error(
                error,
                "mount"@,
                "store_error"@,
                e.message@,
            ),
            Ok(list) => r matches Ok(id) && is_default_mount_id(
                id@,
                list@,
                *descriptor,
                text::opt_str(connection_id),
                text::opt_str(remote_root_id),
            ),
        },
{
    let list = match mounts {
        Ok(list) => list,
        Err(e) => {
            return Err(CommandError::new("mount", "store_error", e.message.clone()));
        },
    };
    let ghost cid = text::opt_str(connection_id);
    let ghost rid = text::opt_str(remote_root_id);
    if mount_id_available_for_source(
        list,
        &descriptor.default_mount_id,
        descriptor,
        connection_id,
        remote_root_id,
    ) {
        return Ok(descriptor.default_mount_id.clone());
    }
    let base = source_mount_id_base(descriptor, connection_id, remote_root_id);
    proof {
        lemma_some_candidate_is_available(list@, base@, *descriptor, cid, rid);
    }
    let ghost known = choose|k: nat|
        1 <= k <= list.len() + 1 && #[trigger] is_available(
            list@,
            candidate(base@, k),
            *descriptor,
            cid,
            rid,
        );
    let mut suffix: u128 = 1;
    loop
        invariant
            1 <= suffix <= known <= list.len() + 1,
            cid == text::opt_str(connection_id),
            rid == text::opt_str(remote_root_id),
            *mounts == Ok::<Vec<MountConfig>, StoreError>(*list),
            base@ == id_base(*descriptor, cid, rid),
            !is_available(list@, descriptor.default_mount_id@, *descriptor, cid, rid),
            is_available(list@, candidate(base@, known), *descriptor, cid, rid),
            forall|k: nat|
                1 <= k < suffix ==> !(#[trigger] is_available(
                    list@,
                    candidate(base@, k),
                    *descriptor,
                    cid,
                    rid,
                )),
        decreases known - suffix,
    {
        let name = if suffix == 1 {
            base.clone()
        } else {
            text::concat3(&base, "-", &text::decimal_text(suffix))
        };
        assert(name@ == candidate(base@, suffix as nat));
        if mount_id_available_for_source(list, &name, descriptor, connection_id, remote_root_id) {
            assert(is_first_available(
                name@,
                suffix as nat,
                base@,
                list@,
                *descriptor,
                cid,
                rid,
            ));
            return Ok(name);
        }
        assert(suffix != known);
        suffix += 1;
    }
}

/// A new mount never takes the identifier of a mount of another source.
pub proof fn law_default_mount_id_is_available(
    mount_id: Seq<char>,
    mounts: Seq<MountConfig>,
    descriptor: SourceDescriptor,
    connection_id: Option<Seq<char>>,
    remote_root_id: Option<Seq<char>>,
)
    requires
        is_default_mount_id(mount_id, mounts, descriptor, connection_id, remote_root_id),
    ensures
        is_available(mounts, mount_id, descriptor, connection_id, remote_root_id),
{
}

/// What the arguments of a mount ask for.
#[derive(Debug, PartialEq, Eq)]
pub struct MountArguments {
    pub connector: String,
    pub root: String,
    pub projection: ProjectionMode,
    pub mount_id: Option<String>,
    pub read_only: bool,
}

/// What the arguments of a mount ask for. A source and a path have to be named,
/// and the projection has to work on the operating system.
pub fn mount_arguments(args: &[String], target_os: &str) -> (r: Result<
    MountArguments,
    CommandError,
>)
    ensures
        ({
            let all = text::texts(args@);
            match (args::positional_at(all, 0), args::positional_at(all, 1)) {
                (Some(connector), Some(root)) => match projection::chosen_projection(
                    args::value_of(all, "--projection"@),
                    target_os@,
                ) {
                    Err(why) => r matches Err(e) && model::is_command_error(
                        e,
                        "mount"@,
                        "usage"@,
                        why,
                    ),
                    Ok(projection) => r matches Ok(a) && a.connector@ == connector && a.root@
                        == root && a.projection == projection && text::opt_text(a.mount_id)
                        == args::value_of(all, "--mount-id"@) && a.read_only == all.contains(
                        "--read-only"@,
                    ),
                },
                _ => r matches Err(e) && model::is_command_error(
                    e,
                    "mount"@,
                    "usage"@,
                    projection::mount_usage_text(target_os@),
                ),
            }
        }),
{
    let connector = match args::first_positional(args) {
        Some(connector) => connector,
        None => {
            return Err(CommandError::new("mount", "usage", projection::mount_usage(target_os)));
        },
    };
    let root = match args::nth_positional(args, 1) {
        Some(root) => root,
        None => {
            return Err(CommandError::new("mount", "usage", projection::mount_usage(target_os)));
        },
    };
    let projection = match projection::projection_mode_for_target(args, target_os) {
        Ok(projection) => projection,
        Err(message) => {
            return Err(CommandError::new("mount", "usage", message));
        },
    };
    let mount_id = match args::flag_value(args, "--mount-id") {
        Some(id) => Some(id.to_string()),
        None => None,
    };
    Ok(
        MountArguments {
            connector: connector.to_string(),
            root: root.to_string(),
            projection,
            mount_id,
            read_only: args::has_flag(args, "--read-only"),
        },
    )
}

/// What of a source is mounted.
#[derive(Debug, PartialEq, Eq)]
pub enum MountRoot {
    /// All of a Notion workspace.
    NotionWorkspace,
    /// A Notion page and what is below it.
    NotionPage(String),
    /// The Google Docs folder with this name or identifier.
    GoogleDocsFolder(String),
}

/// What of a source is mounted, or why the arguments do not say.
pub enum RootChoice {
    Workspace,
    Page(Seq<char>),
    Folder(Seq<char>),
    Refuse(Seq<char>),
}

/// What of a source the arguments ask for.
pub open spec fn root_choice(connector: Seq<char>, args: Seq<Seq<char>>) -> RootChoice {
    let page = args::value_of(args, "--root-page"@);
    let workspace = args.contains("--workspace"@);
    if connector == "notion"@ {
        match page {
            Some(id) => if workspace {
                RootChoice::Refuse(
                    "loc mount notion accepts either --workspace or --root-page <page-id>, not both"@,
                )
            } else {
                RootChoice::Page(id)
            },
            None => if workspace {
                RootChoice::Workspace
            } else {
                RootChoice::Refuse(
                    "loc mount notion requires --workspace or --root-page <page-id>"@,
                )
            },
        }
    } else if connector == "google-docs"@ {
        if workspace || page is Some {
            RootChoice::Refuse(
                "loc mount google-docs uses --workspace-folder <name-or-id>, not Notion root flags"@,
            )
        } else {
            match args::value_of(args, "--workspace-folder"@) {
                Some(folder) => RootChoice::Folder(folder),
                None => RootChoice::Refuse(
                    "loc mount google-docs requires --workspace-folder <name-or-id>"@,
                ),
            }
        }
    } else {
        RootChoice::Refuse("loc mount "@ + connector + " is not supported by this build"@)
    }
}

/// What of a source the arguments ask for.
pub fn mount_root(connector: &str, args: &[String]) -> (r: Result<MountRoot, CommandError>)
    ensures
        match root_choice(connector@, text::texts(args@)) {
            RootChoice::Workspace => r matches Ok(MountRoot::NotionWorkspace),
            RootChoice::Page(id) => r matches Ok(MountRoot::NotionPage(p)) && p@ == id,
            RootChoice::Folder(f) => r matches Ok(MountRoot::GoogleDocsFolder(p)) && p@ == f,
            RootChoice::Refuse(why) => r matches Err(e) && model::is_command_error(
                e,
                "mount"@,
                "usage"@,
                why,
            ),
        },
{
    let page = args::flag_value(args, "--root-page");
    let workspace = args::has_flag(args, "--workspace");
    if text::same_text(connector, "notion") {
        match page {
            Some(id) => if workspace {
                Err(
                    CommandError::new(
                        "mount",
                        "usage",
                        "loc mount notion accepts either --workspace or --root-page <page-id>, not both".to_string(),
                    ),
                )
            } else {
                Ok(MountRoot::NotionPage(id.to_string()))
            },
            None => if workspace {
                Ok(MountRoot::NotionWorkspace)
            } else {
                Err(
                    CommandError::new(
                        "mount",
                        "usage",
                        "loc mount notion requires --workspace or --root-page <page-id>".to_string(),
                    ),
                )
            },
        }
    } else if text::same_text(connector, "google-docs") {
        if workspace || page.is_some() {
            return Err(
                CommandError::new(
                    "mount",
                    "usage",
                    "loc mount google-docs uses --workspace-folder <name-or-id>, not Notion root flags".to_string(),
                ),
            );
        }
        match args::flag_value(args, "--workspace-folder") {
            Some(folder) => Ok(MountRoot::GoogleDocsFolder(folder.to_string())),
            None => Err(
                CommandError::new(
                    "mount",
                    "usage",
                    "loc mount google-docs requires --workspace-folder <name-or-id>".to_string(),
                ),
            ),
        }
    } else {
        Err(
            CommandError::new(
                "mount",
                "usage",
                text::concat3("loc mount ", connector, " is not supported by this build"),
            ),
        )
    }
}

/// The failure to find a Google Docs folder.
pub fn workspace_folder_error(folder: &str, why: &str) -> (r: CommandError)
    ensures
        model::is_suggesting_error(
            r,
            "mount"@,
            "workspace_folder_error"@,
            "failed to resolve Google Docs workspace folder `"@ + folder@ + "`: "@ + why@,
            "loc connect google-docs"@,
        ),
{
    let mut message = text::concat3(
        "failed to resolve Google Docs workspace folder `",
        folder,
        "`: ",
    );
    message.append(why);
    CommandError::new("mount", "workspace_folder_error", message).with_suggested_command(
        "loc connect google-docs".to_string(),
    )
}

/// The exit code where the root of a mount is not settled: 2 for wrong usage,
/// else 1.
pub fn mount_remote_root_error_exit_code(error: &CommandError) -> (r: i32)
    ensures
        r == (if error.code@ == "usage"@ {
            2i32
        } else {
            1i32
        }),
{
    if text::same_text(&error.code, "usage") {
        2
    } else {
        1
    }
}

/// Whether an error says this and suggests how to connect the source.
pub open spec fn suggests_connecting(
    error: CommandError,
    code: Seq<char>,
    message: Seq<char>,
    descriptor: SourceDescriptor,
) -> bool {
    &&& !error.ok
    &&& error.command@ == "mount"@
    &&& error.code@ == code
    &&& error.message@ == message
    &&& text::opt_text(error.suggested_command) == text::opt_text(descriptor.connect_command)
}

fn connecting_error(code: &str, message: String, descriptor: &SourceDescriptor) -> (r: CommandError)
    ensures
        suggests_connecting(r, code@, message@, *descriptor),
{
    CommandError::new("mount", code, message).with_optional_suggested_command(
        text::as_str_option(&descriptor.connect_command),
    )
}

/// Why the profile of a connection does not do.
pub enum ProfileFault {
    Store(StoreError),
    Unavailable(Seq<char>),
}

/// Why the profile of a connection does not do: it has to be there, active, and
/// of the connection's source and way of authorisation. A connection without a
/// profile does.
pub open spec fn profile_fault(
    connection: ConnectionRecord,
    profile: Result<Option<ConnectorProfileRecord>, StoreError>,
) -> Option<ProfileFault> {
    match connection.profile_id {
        None => None,
        Some(id) => match profile {
            Err(e) => Some(ProfileFault::Store(e)),
            Ok(None) => Some(
                ProfileFault::Unavailable(
                    "connector profile `"@ + id@ + "` was not found"@,
                ),
            ),
            Ok(Some(p)) => if p.status@ != "active"@ {
                Some(
                    ProfileFault::Unavailable(
                        "connector profile `"@ + p.profile_id@ + "` is "@ + p.status@,
                    ),
                )
            } else if p.connector@ != connection.connector@ || p.auth_kind@
                != connection.auth_kind@ {
                Some(
                    ProfileFault::Unavailable(
                        "connector profile `"@ + p.profile_id@ + "` does not match connection `"@
                            + connection.connection_id@ + "`"@,
                    ),
                )
            } else {
                None
            },
        },
    }
}

/// Whether an error says why a profile does not do.
pub open spec fn is_profile_error(
    error: CommandError,
    fault: ProfileFault,
    descriptor: SourceDescriptor,
) -> bool {
    match fault {
        ProfileFault::Store(e) => model::is_command_error(
            error,
            "mount"@,
            "store_error"@,
            e.message@,
        ),
        ProfileFault::Unavailable(why) => suggests_connecting(
            error,
            "auth_profile_unavailable"@,
            why,
            descriptor,
        ),
    }
}

/// Whether the profile of a connection does. `profile` is what the store has
/// for it.
pub fn validate_connection_profile(
    connection: &ConnectionRecord,
    profile: &Result<Option<ConnectorProfileRecord>, StoreError>,
    descriptor: &SourceDescriptor,
) -> (r: Result<(), CommandError>)
    ensures
        match profile_fault(*connection, *profile) {
            None => r is Ok,
            Some(fault) => r matches Err(e) && is_profile_error(e, fault, *descriptor),
        },
{
    let id = match &connection.profile_id {
        Some(id) => id,
        None => {
            return Ok(());
        },
    };
    let p = match profile {
        Err(e) => {
            return Err(CommandError::new("mount", "store_error", e.message.clone()));
        },
        Ok(None) => {
            return Err(
                connecting_error(
                    "auth_profile_unavailable",
                    text::concat3("connector profile `", id, "` was not found"),
                    descriptor,
                ),
            );
        },
        Ok(Some(p)) => p,
    };
    if !text::same_text(&p.status, "active") {
        let mut message = text::concat3("connector profile `", &p.profile_id, "` is ");
        message.append(&p.status);
        return Err(connecting_error("auth_profile_unavailable", message, descriptor));
    }
    if !text::same_text(&p.connector, &connection.connector) || !text::same_text(
        &p.auth_kind,
        &connection.auth_kind,
    ) {
        let mut message = text::concat3(
            "connector profile `",
            &p.profile_id,
            "` does not match connection `",
        );
        message.append(&connection.connection_id);
        message.append("`");
        return Err(connecting_error("auth_profile_unavailable", message, descriptor));
    }
    Ok(())
}

/// A connection with what the store has as its profile.
#[derive(Debug, PartialEq, Eq)]
pub struct ProfiledConnection {
    pub connection: ConnectionRecord,
    pub profile: Result<Option<ConnectorProfileRecord>, StoreError>,
}

/// Whether `r` is the connection that is named: it has to be there, active and
/// have a profile that does.
pub open spec fn is_named(
    connection_id: Seq<char>,
    found: Result<Option<ProfiledConnection>, StoreError>,
    descriptor: SourceDescriptor,
    r: Result<String, CommandError>,
) -> bool {
    match found {
        Err(e) => r matches Err(error) && model::is_command_error(
            error,
            "mount"@,
            "store_error"@,
            e.message@,
        ),
        Ok(None) => r matches Err(error) && suggests_connecting(
            error,
            "missing_connection"@,
            "connection `"@ + connection_id + "` was not found"@,
            descriptor,
        ),
        Ok(Some(c)) => if c.connection.status@ != "active"@ {
            r matches Err(error) && suggests_connecting(
                error,
                "connection_revoked"@,
                "connection `"@ + c.connection.connection_id@ + "` is revoked"@,
                descriptor,
            )
        } else {
            match profile_fault(c.connection, c.profile) {
                Some(fault) => r matches Err(error) && is_profile_error(error, fault, descriptor),
                None => r == Ok::<_, CommandError>(c.connection.connection_id),
            }
        },
    }
}

/// The connection that is named.
pub fn named_connection(
    connection_id: &str,
    found: Result<Option<ProfiledConnection>, StoreError>,
    descriptor: &SourceDescriptor,
) -> (r: Result<String, CommandError>)
    ensures
        is_named(connection_id@, found, *descriptor, r),
{
    let c = match found {
        Err(e) => {
            return Err(CommandError::new("mount", "store_error", e.message));
        },
        Ok(None) => {
            return Err(
                connecting_error(
                    "missing_connection",
                    text::concat3("connection `", connection_id, "` was not found"),
                    descriptor,
                ),
            );
        },
        Ok(Some(c)) => c,
    };
    if !text::same_text(&c.connection.status, "active") {
        return Err(
            connecting_error(
                "connection_revoked",
                text::concat3("connection `", &c.connection.connection_id, "` is revoked"),
                descriptor,
            ),
        );
    }
    if let Err(e) = validate_connection_profile(&c.connection, &c.profile, descriptor) {
        return Err(e);
    }
    Ok(c.connection.connection_id)
}

/// The active connections of a source.
pub open spec fn active_of(
    all: Seq<ProfiledConnection>,
    connector: Seq<char>,
) -> Seq<ProfiledConnection> {
    all.filter(|c: ProfiledConnection| connect::is_active_of(c.connection, connector))
}

/// The first fault of a profile.
pub open spec fn first_fault(all: Seq<ProfiledConnection>) -> Option<ProfileFault>
    decreases all.len(),
{
    if all.len() == 0 {
        None
    } else {
        match profile_fault(all[0].connection, all[0].profile) {
            Some(fault) => Some(fault),
            None => first_fault(all.skip(1)),
        }
    }
}

/// What is said where a source has no connection.
pub open spec fn missing_text(descriptor: SourceDescriptor) -> Seq<char> {
    match descriptor.connect_command {
        Some(command) => "missing "@ + descriptor.display_name@ + " connection; run `"@ + command@
            + "`"@,
        None => "missing "@ + descriptor.display_name@ + " connection"@,
    }
}

/// Whether `r` is the connection of a mount that names none: the only active
/// one of the source, none where the environment has a token, else a refusal.
/// Every active connection has to have a profile that does.
pub open spec fn is_only(
    connections: Result<Vec<ProfiledConnection>, StoreError>,
    descriptor: SourceDescriptor,
    has_environment_token: bool,
    r: Result<Option<String>, CommandError>,
) -> bool {
    match connections {
        Err(e) => r matches Err(error) && model::is_command_error(
            error,
            "mount"@,
            "store_error"@,
            e.message@,
        ),
        Ok(all) => {
            let active = active_of(all@, descriptor.id@);
            match first_fault(active) {
                Some(fault) => r matches Err(error) && is_profile_error(error, fault, descriptor),
                None => if active.len() == 1 {
                    r == Ok::<_, CommandError>(Some(active[0].connection.connection_id))
                } else if active.len() == 0 && has_environment_token {
                    r == Ok::<Option<String>, CommandError>(None)
                } else if active.len() == 0 {
                    r matches Err(error) && suggests_connecting(
                        error,
                        "missing_connection"@,
                        missing_text(descriptor),
                        descriptor,
                    )
                } else {
                    r matches Err(error) && model::is_command_error(
                        error,
                        "mount"@,
                        "missing_connection"@,
                        "multiple "@ + descriptor.display_name@
                            + " connections exist; pass --connection <id>"@,
                    )
                },
            }
        },
    }
}

/// The connection of a mount that names none.
pub fn only_connection(
    connections: Result<Vec<ProfiledConnection>, StoreError>,
    descriptor: &SourceDescriptor,
    has_environment_token: bool,
) -> (r: Result<Option<String>, CommandError>)
    ensures
        is_only(connections, *descriptor, has_environment_token, r),
{
    let all = match connections {
        Ok(all) => all,
        Err(e) => {
            return Err(CommandError::new("mount", "store_error", e.message));
        },
    };
    let ghost whole = all@;
    let ghost is_active = |c: ProfiledConnection|
        connect::is_active_of(c.connection, descriptor.id@);
    let mut active: Vec<ProfiledConnection> = Vec::new();
    reveal(Seq::filter);
    assert(whole.take(0) == Seq::<ProfiledConnection>::empty());
    assert(active@ =~= whole.take(0).filter(is_active));
    for c in it: all
        invariant
            it.seq() == whole,
            is_active == (|c: ProfiledConnection|
                connect::is_active_of(c.connection, descriptor.id@)),
            active@ == whole.take(it.index() as int).filter(is_active),
    {
        assert(whole.take(it.index() + 1).drop_last() == whole.take(it.index() as int));
        assert(whole.take(it.index() + 1).last() == c);
        reveal(Seq::filter);
        if text::same_text(&c.connection.connector, &descriptor.id) && text::same_text(
            &c.connection.status,
            "active",
        ) {
            active.push(c);
        }
    }
    assert(whole.take(whole.len() as int) == whole);
    assert(active@ == active_of(whole, descriptor.id@));
    let mut i: usize = 0;
    assert(active@.skip(0) == active@);
    while i < active.len()
        invariant
            i <= active.len(),
            active@ == active_of(whole, descriptor.id@),
            connections matches Ok(list) && list@ == whole,
            first_fault(active@) is Some == first_fault(active@.skip(i as int)) is Some,
            first_fault(active@) == first_fault(active@.skip(i as int)),
        decreases active.len() - i,
    {
        assert(active@.skip(i as int)[0] == active@[i as int]);
        assert(active@.skip(i as int).skip(1) == active@.skip(i + 1));
        if let Err(e) = validate_connection_profile(
            &active[i].connection,
            &active[i].profile,
            descriptor,
        ) {
            return Err(e);
        }
        i += 1;
    }
    if active.len() == 1 {
        return Ok(Some(active[0].connection.connection_id.clone()));
    }
    if active.len() == 0 {
        if has_environment_token {
            return Ok(None);
        }
        let message = match &descriptor.connect_command {
            Some(command) => {
                let mut message = text::concat3(
                    "missing ",
                    &descriptor.display_name,
                    " connection; run `",
                );
                message.append(command);
                message.append("`");
                message
            },
            None => text::concat3("missing ", &descriptor.display_name, " connection"),
        };
        return Err(connecting_error("missing_connection", message, descriptor));
    }
    Err(
        CommandError::new(
            "mount",
            "missing_connection",
            text::concat3(
                "multiple ",
                &descriptor.display_name,
                " connections exist; pass --connection <id>",
            ),
        ),
    )
}

/// The connection of a mount: the one that is named, else the only one of the
/// source. `found` is what the store has under the name.
pub fn resolve_mount_connection(
    requested: Option<&str>,
    found: Result<Option<ProfiledConnection>, StoreError>,
    connections: Result<Vec<ProfiledConnection>, StoreError>,
    descriptor: &SourceDescriptor,
    has_environment_token: bool,
) -> (r: Result<Option<String>, CommandError>)
    ensures
        match requested {
            Some(id) => match r {
                Ok(named) => is_named(id@, found, *descriptor, Ok(named->0)) && named is Some,
                Err(e) => is_named(id@, found, *descriptor, Err(e)),
            },
            None => is_only(connections, *descriptor, has_environment_token, r),
        },
{
    match requested {
        Some(id) => match named_connection(id, found, descriptor) {
            Ok(id) => Ok(Some(id)),
            Err(e) => Err(e),
        },
        None => only_connection(connections, descriptor, has_environment_token),
    }
}

/// The mount that was just made, as the store has it.
pub fn mounted(mount_id: &str, found: Result<Option<MountConfig>, StoreError>) -> (r: Result<
    MountConfig,
    CommandError,
>)
    ensures
        match found {
            Err(e) => r matches Err(error) && model::is_command_error(
                error,
                "mount"@,
                "store_error"@,
                e.message@,
            ),
            Ok(None) => r matches Err(error) && model::is_command_error(
                error,
                "mount"@,
                "mount_not_found"@,
                "mount `"@ + mount_id@ + "` was not found after mount registration"@,
            ),
            Ok(Some(m)) => r == Ok::<_, CommandError>(m),
        },
{
    match found {
        Err(e) => Err(CommandError::new("mount", "store_error", e.message)),
        Ok(None) => Err(
            CommandError::new(
                "mount",
                "mount_not_found",
                text::concat3(
                    "mount `",
                    mount_id,
                    "` was not found after mount registration",
                ),
            ),
        ),
        Ok(Some(m)) => Ok(m),
    }
}

/// The failure to register a mount that was just made; `system` is what it is
/// registered with.
pub fn registration_failed(mount: &MountConfig, system: &str, code: &str, why: &str) -> (r:
    CommandError)
    ensures
        model::is_suggesting_error(
            r,
            "mount"@,
            code@,
            "mounted `"@ + mount.mount_id@ + "` but "@ + system@ + " registration failed: "@
                + why@,
            "loc file-provider register "@ + mount.root@,
        ),
{
    let mut message = text::concat3("mounted `", &mount.mount_id, "` but ");
    message.append(system);
    message.append(" registration failed: ");
    message.append(why);
    let mut command = "loc file-provider register ".to_string();
    command.append(&mount.root);
    CommandError::new("mount", code, message).with_suggested_command(command)
}

} // verus!
