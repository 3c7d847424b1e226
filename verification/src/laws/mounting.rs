//! Which identifier a new mount gets, and what it is of.
use crate::args;
use crate::connect::{ConnectionRecord, ConnectorProfileRecord};
use crate::model::{CommandError, MountConfig, StoreError};
use crate::mount_flow;
use crate::mount_flow::{MountAction, MountProgress, SourceFault};
use crate::mounting;
use crate::mounting::{MountRoot, ProfileFault, ProfiledConnection, RootChoice, SourceDescriptor};
use crate::projection;
use crate::text;
use vstd::prelude::*;

verus! {

/// Whether `i` is the first mount with an identifier.
pub open spec fn is_first_named(mounts: Seq<MountConfig>, i: int, mount_id: Seq<char>) -> bool {
    &&& 0 <= i < mounts.len()
    &&& mounts[i].mount_id@ == mount_id
    &&& forall|j: int| 0 <= j < i ==> (#[trigger] mounts[j]).mount_id@ != mount_id
}

/// Whether no mount has an identifier.
pub open spec fn is_free(mounts: Seq<MountConfig>, mount_id: Seq<char>) -> bool {
    forall|j: int| 0 <= j < mounts.len() ==> (#[trigger] mounts[j]).mount_id@ != mount_id
}

/// Whether an identifier belongs to a mount of another source, another connection
/// or another root.
pub open spec fn is_taken_by_another(
    mounts: Seq<MountConfig>,
    mount_id: Seq<char>,
    connector: Seq<char>,
    connection_id: Option<Seq<char>>,
    remote_root_id: Option<Seq<char>>,
) -> bool {
    exists|i: int| #[trigger]
        is_first_named(mounts, i, mount_id) && {
            ||| mounts[i].connector@ != connector
            ||| text::opt_text(mounts[i].connection_id) != connection_id
            ||| text::opt_text(mounts[i].remote_root_id) != remote_root_id
        }
}

proof fn lemma_named(mounts: Seq<MountConfig>, mount_id: Seq<char>)
    ensures
        match mounting::mount_named(mounts, mount_id) {
            None => is_free(mounts, mount_id),
            Some(m) => exists|i: int| #[trigger]
                is_first_named(mounts, i, mount_id) && mounts[i] == m,
        },
    decreases mounts.len(),
{
    if mounts.len() > 0 {
        if mounts[0].mount_id@ == mount_id {
            assert(is_first_named(mounts, 0, mount_id));
        } else {
            let rest = mounts.skip(1);
            lemma_named(rest, mount_id);
            match mounting::mount_named(rest, mount_id) {
                None => {
                    assert forall|j: int| 0 <= j < mounts.len() implies (
                    #[trigger] mounts[j]).mount_id@ != mount_id by {
                        if j > 0 {
                            assert(rest[j - 1] == mounts[j]);
                        }
                    }
                },
                Some(m) => {
                    let i = choose|i: int| #[trigger]
                        is_first_named(rest, i, mount_id) && rest[i] == m;
                    assert forall|j: int| 0 <= j < i + 1 implies (
                    #[trigger] mounts[j]).mount_id@ != mount_id by {
                        if j > 0 {
                            assert(rest[j - 1] == mounts[j]);
                        }
                    }
                    assert(is_first_named(mounts, i + 1, mount_id));
                },
            }
        }
    }
}

proof fn lemma_available(
    mounts: Seq<MountConfig>,
    mount_id: Seq<char>,
    descriptor: SourceDescriptor,
    connection_id: Option<Seq<char>>,
    remote_root_id: Option<Seq<char>>,
)
    ensures
        mounting::is_available(mounts, mount_id, descriptor, connection_id, remote_root_id)
            == !is_taken_by_another(
            mounts,
            mount_id,
            descriptor.id@,
            connection_id,
            remote_root_id,
        ),
{
    lemma_named(mounts, mount_id);
    if let Some(m) = mounting::mount_named(mounts, mount_id) {
        let i = choose|i: int| #[trigger] is_first_named(mounts, i, mount_id) && mounts[i] == m;
        assert(is_first_named(mounts, i, mount_id));
    }
}

/// The mount that already has the identifier which a new mount gets is of the same
/// source, over the same connection and with the same root: no mount is ever
/// replaced by one of something else.
pub proof fn law_new_mounts_replace_only_their_own_kind(
    mount_id: Seq<char>,
    mounts: Seq<MountConfig>,
    descriptor: SourceDescriptor,
    connection_id: Option<Seq<char>>,
    remote_root_id: Option<Seq<char>>,
    i: int,
)
    requires
        mounting::is_default_mount_id(
            mount_id,
            mounts,
            descriptor,
            connection_id,
            remote_root_id,
        ),
        is_first_named(mounts, i, mount_id),
    ensures
        mounts[i].connector@ == descriptor.id@,
        text::opt_text(mounts[i].connection_id) == connection_id,
        text::opt_text(mounts[i].remote_root_id) == remote_root_id,
{
    lemma_available(mounts, mount_id, descriptor, connection_id, remote_root_id);
}

/// Mounts of two connections, or of two roots, that both stand in the list never get
/// one identifier.
pub proof fn law_different_mounts_get_different_identifiers(
    first: MountConfig,
    mounts: Seq<MountConfig>,
    descriptor: SourceDescriptor,
    connection_id: Option<Seq<char>>,
    remote_root_id: Option<Seq<char>>,
    mount_id: Seq<char>,
)
    requires
        mounts.contains(first),
        forall|a: int, b: int|
            0 <= a < mounts.len() && 0 <= b < mounts.len() && (#[trigger] mounts[a]).mount_id@ == (
            #[trigger] mounts[b]).mount_id@ ==> a == b,
        mounting::is_default_mount_id(
            mount_id,
            mounts,
            descriptor,
            connection_id,
            remote_root_id,
        ),
        text::opt_text(first.connection_id) != connection_id || text::opt_text(
            first.remote_root_id,
        ) != remote_root_id || first.connector@ != descriptor.id@,
    ensures
        mount_id != first.mount_id@,
{
    if mount_id == first.mount_id@ {
        let a = choose|a: int| 0 <= a < mounts.len() && mounts[a] == first;
        assert(is_first_named(mounts, a, mount_id));
        law_new_mounts_replace_only_their_own_kind(
            mount_id,
            mounts,
            descriptor,
            connection_id,
            remote_root_id,
            a,
        );
    }
}

/// A new mount gets the default identifier of its source exactly where that is free
/// or belongs to a mount of the same source, connection and root; else the first
/// numbered one of which that holds.
pub proof fn law_new_mounts_get_the_first_usable_identifier(
    mount_id: Seq<char>,
    mounts: Seq<MountConfig>,
    descriptor: SourceDescriptor,
    connection_id: Option<Seq<char>>,
    remote_root_id: Option<Seq<char>>,
)
    requires
        mounting::is_default_mount_id(
            mount_id,
            mounts,
            descriptor,
            connection_id,
            remote_root_id,
        ),
    ensures
        !is_taken_by_another(
            mounts,
            descriptor.default_mount_id@,
            descriptor.id@,
            connection_id,
            remote_root_id,
        ) ==> mount_id == descriptor.default_mount_id@,
        is_taken_by_another(
            mounts,
            descriptor.default_mount_id@,
            descriptor.id@,
            connection_id,
            remote_root_id,
        ) ==> exists|n: nat|
            #![trigger text::decimal(n)]
            ({
                let base = mounting::id_base(descriptor, connection_id, remote_root_id);
                &&& n >= 1
                &&& mount_id == (if n == 1 {
                    base
                } else {
                    base + "-"@ + text::decimal(n)
                })
                &&& n > 1 ==> is_taken_by_another(
                    mounts,
                    base,
                    descriptor.id@,
                    connection_id,
                    remote_root_id,
                )
                &&& forall|k: nat|
                    2 <= k < n ==> is_taken_by_another(
                        mounts,
                        base + "-"@ + #[trigger] text::decimal(k),
                        descriptor.id@,
                        connection_id,
                        remote_root_id,
                    )
            }),
{
    lemma_available(
        mounts,
        descriptor.default_mount_id@,
        descriptor,
        connection_id,
        remote_root_id,
    );
    if is_taken_by_another(
        mounts,
        descriptor.default_mount_id@,
        descriptor.id@,
        connection_id,
        remote_root_id,
    ) {
        let base = mounting::id_base(descriptor, connection_id, remote_root_id);
        let n = choose|n: nat| #[trigger]
            mounting::is_first_available(
                mount_id,
                n,
                base,
                mounts,
                descriptor,
                connection_id,
                remote_root_id,
            );
        let shown = text::decimal(n);
        if n > 1 {
            assert(!mounting::is_available(
                mounts,
                mounting::candidate(base, 1),
                descriptor,
                connection_id,
                remote_root_id,
            ));
            lemma_available(mounts, base, descriptor, connection_id, remote_root_id);
        }
        assert forall|k: nat| 2 <= k < n implies is_taken_by_another(
            mounts,
            base + "-"@ + #[trigger] text::decimal(k),
            descriptor.id@,
            connection_id,
            remote_root_id,
        ) by {
            let other = mounting::candidate(base, k);
            assert(!mounting::is_available(
                mounts,
                other,
                descriptor,
                connection_id,
                remote_root_id,
            ));
            lemma_available(mounts, other, descriptor, connection_id, remote_root_id);
        }
    }
}

/// The identifiers of further mounts name their source, and what sets the mount
/// apart: the connection, or the first twelve characters of the root where there is no
/// connection.
pub proof fn law_further_identifiers_name_their_source(
    descriptor: SourceDescriptor,
    connection_id: Option<Seq<char>>,
    remote_root_id: Option<Seq<char>>,
)
    requires
        connection_id is Some || remote_root_id is Some,
    ensures
        ({
            let base = mounting::id_base(descriptor, connection_id, remote_root_id);
            let told = match connection_id {
                Some(id) => mounting::component_text(id),
                None => {
                    let root = mounting::component_text(remote_root_id->0);
                    if root.len() <= 12 {
                        root
                    } else {
                        root.subrange(0, 12)
                    }
                },
            };
            &&& base == descriptor.id@ || text::begins_with(base, descriptor.id@ + "-"@)
            &&& told.len() > 0 ==> base == told || base == descriptor.id@ + "-"@ + told
            &&& told.len() == 0 ==> base == "mount"@ || base == descriptor.id@ + "-"@ + "mount"@
        }),
{
    let base = mounting::id_base(descriptor, connection_id, remote_root_id);
    let c = descriptor.id@ + "-"@;
    let told = match connection_id {
        Some(id) => mounting::component_text(id),
        None => mounting::first_twelve(mounting::component_text(remote_root_id->0)),
    };
    if connection_id is None {
        assert(told =~= {
            let root = mounting::component_text(remote_root_id->0);
            if root.len() <= 12 {
                root
            } else {
                root.subrange(0, 12)
            }
        });
    }
    let part = if told.len() == 0 {
        "mount"@
    } else {
        told
    };
    assert((c + part).take(c.len() as int) =~= c);
}

proof fn lemma_dashed(value: Seq<char>)
    requires
        forall|i: int|
            0 <= i < value.len() ==> ('a' <= #[trigger] value[i] <= 'z') || ('0' <= value[i]
                <= '9') || value[i] == '-',
        forall|i: int| 0 < i < value.len() ==> (#[trigger] value[i]) != '-' || value[i - 1] != '-',
    ensures
        mounting::dashed(value) == value,
    decreases value.len(),
{
    if value.len() > 0 {
        let front = value.drop_last();
        assert forall|i: int| 0 < i < front.len() implies (#[trigger] front[i]) != '-' || front[i
            - 1] != '-' by {
            assert(front[i] == value[i]);
        }
        lemma_dashed(front);
        let n = value.len() - 1;
        assert(value[n] == value.last());
        if value.len() > 1 && value.last() == '-' {
            assert(value[n - 1] != '-');
        }
        assert(front.push(value.last()) =~= value);
    }
}

/// A name of small letters and digits with single dashes between them stands in an identifier as it
/// is.
pub proof fn law_plain_names_stand_in_identifiers(value: Seq<char>)
    requires
        value.len() > 0,
        forall|i: int|
            0 <= i < value.len() ==> ('a' <= #[trigger] value[i] <= 'z') || ('0' <= value[i]
                <= '9') || value[i] == '-',
        forall|i: int| 0 < i < value.len() ==> (#[trigger] value[i]) != '-' || value[i - 1] != '-',
        value[0] != '-',
        value.last() != '-',
    ensures
        mounting::component_text(value) == value,
{
    lemma_dashed(value);
}

/// Whether the profile of a connection lets it be used: it is there, in use, and of the same source
/// and way of signing in.
pub open spec fn can_be_used(
    connection: ConnectionRecord,
    profile: Result<Option<ConnectorProfileRecord>, StoreError>,
) -> bool {
    connection.profile_id is None || (profile matches Ok(Some(p)) && p.status@ == "active"@
        && p.connector@ == connection.connector@ && p.auth_kind@ == connection.auth_kind@)
}

/// A connection has a fault exactly where its profile does not let it be used.
pub proof fn law_profiles_have_to_fit_their_connection(
    connection: ConnectionRecord,
    profile: Result<Option<ConnectorProfileRecord>, StoreError>,
)
    ensures
        mounting::profile_fault(connection, profile) is None <==> can_be_used(connection, profile),
        connection.profile_id is Some && profile is Err ==> mounting::profile_fault(
            connection,
            profile,
        ) == Some(ProfileFault::Store(profile->Err_0)),
{
}

/// A connection that is named is used exactly where it is there, in use, and its profile lets it
/// be.
pub proof fn law_named_connections_are_used_where_they_can_be(
    connection_id: Seq<char>,
    found: Result<Option<ProfiledConnection>, StoreError>,
    descriptor: SourceDescriptor,
    r: Result<String, CommandError>,
)
    requires
        mounting::is_named(connection_id, found, descriptor, r),
    ensures
        r is Ok <==> (found matches Ok(Some(c)) && c.connection.status@ == "active"@
            && can_be_used(c.connection, c.profile)),
        r matches Ok(id) ==> id@ == found->Ok_0->0.connection.connection_id@,
        found is Err ==> r->Err_0.code@ == "store_error"@,
        found is Ok && found->Ok_0 is None ==> r->Err_0.code@ == "missing_connection"@,
        found is Ok && found->Ok_0 is Some && found->Ok_0->0.connection.status@ != "active"@
            ==> r->Err_0.code@ == "connection_revoked"@,
{
}

proof fn lemma_no_fault(all: Seq<ProfiledConnection>, i: int)
    requires
        mounting::first_fault(all) is None,
        0 <= i < all.len(),
    ensures
        can_be_used(all[i].connection, all[i].profile),
    decreases all.len(),
{
    if i > 0 {
        assert(all.skip(1)[i - 1] == all[i]);
        lemma_no_fault(all.skip(1), i - 1);
    }
}

proof fn lemma_active(all: Seq<ProfiledConnection>, connector: Seq<char>, c: ProfiledConnection)
    ensures
        mounting::active_of(all, connector).contains(c) <==> all.contains(c)
            && c.connection.connector@ == connector && c.connection.status@ == "active"@,
    decreases all.len(),
{
    reveal(Seq::filter);
    let kept = mounting::active_of(all, connector);
    if all.len() > 0 {
        let front = all.drop_last();
        let before = mounting::active_of(front, connector);
        lemma_active(front, connector, c);
        if kept.contains(c) {
            let k = choose|k: int| 0 <= k < kept.len() && kept[k] == c;
            if k < before.len() {
                assert(before[k] == c);
                let i = choose|i: int| 0 <= i < front.len() && front[i] == c;
                assert(all[i] == c);
            } else {
                assert(all[all.len() - 1] == c);
            }
        }
        if all.contains(c) && c.connection.connector@ == connector && c.connection.status@
            == "active"@ {
            let i = choose|i: int| 0 <= i < all.len() && all[i] == c;
            if i < front.len() {
                assert(front[i] == c);
                let k = choose|k: int| 0 <= k < before.len() && before[k] == c;
                assert(kept[k] == c);
            } else {
                assert(kept[before.len() as int] == c);
            }
        }
    }
}

/// Without a name, a mount uses the one connection of its source that is in use, where there is one
/// alone and its profile lets it be used. It goes without a connection only where there is none
/// and the environment has a token.
pub proof fn law_unnamed_connections_are_the_only_ones(
    connections: Result<Vec<ProfiledConnection>, StoreError>,
    descriptor: SourceDescriptor,
    has_environment_token: bool,
    r: Result<Option<String>, CommandError>,
    c: ProfiledConnection,
)
    requires
        mounting::is_only(connections, descriptor, has_environment_token, r),
        connections matches Ok(all) && all@.contains(c),
        c.connection.connector@ == descriptor.id@,
        c.connection.status@ == "active"@,
    ensures
        r matches Ok(chosen) ==> chosen == Some(c.connection.connection_id) && can_be_used(
            c.connection,
            c.profile,
        ),
{
    let all = connections->Ok_0@;
    let active = mounting::active_of(all, descriptor.id@);
    lemma_active(all, descriptor.id@, c);
    assert(active.contains(c));
    let k = choose|k: int| 0 <= k < active.len() && active[k] == c;
    if r is Ok {
        lemma_no_fault(active, k);
    }
}

/// Where no connection of the source is in use, a mount goes without one exactly where the
/// environment has a token.
pub proof fn law_mounts_without_connections_need_a_token(
    connections: Result<Vec<ProfiledConnection>, StoreError>,
    descriptor: SourceDescriptor,
    has_environment_token: bool,
    r: Result<Option<String>, CommandError>,
)
    requires
        mounting::is_only(connections, descriptor, has_environment_token, r),
        connections matches Ok(all) && forall|i: int|
            0 <= i < all@.len() ==> (#[trigger] all@[i]).connection.connector@ != descriptor.id@
                || all@[i].connection.status@ != "active"@,
    ensures
        has_environment_token ==> r == Ok::<Option<String>, CommandError>(None),
        !has_environment_token ==> r is Err && r->Err_0.code@ == "missing_connection"@,
{
    let all = connections->Ok_0@;
    let active = mounting::active_of(all, descriptor.id@);
    if active.len() > 0 {
        lemma_active(all, descriptor.id@, active[0]);
        assert(active.contains(active[0]));
        let i = choose|i: int| 0 <= i < all.len() && all[i] == active[0];
        assert(all[i].connection.connector@ == descriptor.id@);
    }
}

/// What is mounted is what was asked for: of Notion all of a workspace or one page, and of Google
/// Docs one folder; never two of these, and nothing else.
pub proof fn law_mounts_are_of_what_was_asked_for(connector: Seq<char>, all: Seq<Seq<char>>)
    ensures
        ({
            let choice = mounting::root_choice(connector, all);
            let page = args::value_of(all, "--root-page"@);
            let folder = args::value_of(all, "--workspace-folder"@);
            let workspace = all.contains("--workspace"@);
            &&& choice is Workspace <==> connector == "notion"@ && workspace && page is None
            &&& choice is Page <==> connector == "notion"@ && !workspace && page is Some
            &&& choice matches RootChoice::Page(id) ==> page == Some(id)
            &&& choice is Folder <==> connector == "google-docs"@ && !workspace && page is None
                && folder is Some
            &&& choice matches RootChoice::Folder(name) ==> folder == Some(name)
        }),
{
    reveal_strlit("notion");
    reveal_strlit("google-docs");
    assert("notion"@.len() == 6);
    assert("google-docs"@.len() == 11);
}

/// A mount is made of the source, at the path, over the connection and in the way that were asked
/// for; its root is the page that was named, or the folder that the source found under its name.
pub proof fn law_mounts_are_made_as_asked_for(
    all: Seq<Seq<char>>,
    target_os: Seq<char>,
    daemon_disabled: bool,
    descriptor: SourceDescriptor,
    p: MountProgress,
    r: MountAction,
)
    requires
        mount_flow::follows_mount(all, target_os, daemon_disabled, descriptor, p, r),
        r is Mount,
    ensures
        ({
            let o = r->Mount_0;
            let choice = mounting::root_choice(descriptor.id@, all);
            &&& o.connector@ == descriptor.id@
            &&& args::positional_at(all, 1) == Some(o.root@)
            &&& p.connection matches Some(Ok(id)) && text::opt_text(o.connection_id)
                == text::opt_text(id)
            &&& o.read_only == all.contains("--read-only"@)
            &&& projection::chosen_projection(args::value_of(all, "--projection"@), target_os)
                == Ok::<_, Seq<char>>(o.projection)
            &&& !(choice is Refuse)
            &&& choice is Workspace ==> o.remote_root_id is None
            &&& choice matches RootChoice::Page(id) ==> text::opt_text(o.remote_root_id) == Some(
                id,
            )
            &&& choice is Folder ==> (p.source matches Some(Ok(id)) && text::opt_text(
                o.remote_root_id,
            ) == Some(id@))
            &&& p.source is Some && !(p.source->0 is Err && p.source->0->Err_0 is NoSource)
        }),
{
}

/// The identifier that a mount is made under is the one that was given; without one, the mount that
/// has it already, if any, is of the same source, connection and root.
pub proof fn law_made_mounts_replace_only_their_own_kind(
    all: Seq<Seq<char>>,
    target_os: Seq<char>,
    daemon_disabled: bool,
    descriptor: SourceDescriptor,
    p: MountProgress,
    r: MountAction,
    i: int,
)
    requires
        mount_flow::follows_mount(all, target_os, daemon_disabled, descriptor, p, r),
        r is Mount,
    ensures
        args::value_of(all, "--mount-id"@) is Some ==> r->Mount_0.mount_id@ == args::value_of(
            all,
            "--mount-id"@,
        )->0,
        args::value_of(all, "--mount-id"@) is None ==> p.mounts is Some && p.mounts->0 is Ok && (
        is_first_named(p.mounts->0->Ok_0@, i, r->Mount_0.mount_id@) ==> {
            let m = p.mounts->0->Ok_0@[i];
            &&& m.connector@ == descriptor.id@
            &&& text::opt_text(m.connection_id) == text::opt_text(r->Mount_0.connection_id)
            &&& text::opt_text(m.remote_root_id) == text::opt_text(r->Mount_0.remote_root_id)
        }),
{
    if args::value_of(all, "--mount-id"@) is None {
        let list = p.mounts->0->Ok_0@;
        let o = r->Mount_0;
        if is_first_named(list, i, o.mount_id@) {
            law_new_mounts_replace_only_their_own_kind(
                o.mount_id@,
                list,
                descriptor,
                text::opt_text(o.connection_id),
                text::opt_text(o.remote_root_id),
                i,
            );
        }
    }
}

/// What a source is asked for before a mount is made is what was asked for.
pub proof fn law_sources_are_asked_for_what_is_mounted(
    all: Seq<Seq<char>>,
    target_os: Seq<char>,
    daemon_disabled: bool,
    descriptor: SourceDescriptor,
    p: MountProgress,
    r: MountAction,
)
    requires
        mount_flow::follows_mount(all, target_os, daemon_disabled, descriptor, p, r),
    ensures
        r matches MountAction::ReachSource(l) ==> {
            let choice = mounting::root_choice(descriptor.id@, all);
            &&& choice is Workspace <==> l.root is NotionWorkspace
            &&& choice matches RootChoice::Page(id) ==> (l.root matches MountRoot::NotionPage(n)
                && n@ == id)
            &&& choice matches RootChoice::Folder(name) ==> (
            l.root matches MountRoot::GoogleDocsFolder(f) && f@ == name)
            &&& l.mount.connector@ == descriptor.id@
        },
        r matches MountAction::ChooseConnection(name) ==> text::opt_text(name) == args::value_of(
            all,
            "--connection"@,
        ),
        (p.source matches Some(Err(SourceFault::NoSource(_)))) ==> !(r is Mount || r is ListMounts),
{
}

/// A mount that lacks a connection fails with the way to connect its source, where there is one.
pub proof fn law_missing_connections_suggest_how_to_connect(
    error: CommandError,
    code: Seq<char>,
    message: Seq<char>,
    descriptor: SourceDescriptor,
)
    requires
        mounting::suggests_connecting(error, code, message, descriptor),
    ensures
        !error.ok && error.command@ == "mount"@,
        error.code@ == code && error.message@ == message,
        descriptor.connect_command is None ==> error.suggested_command is None,
        descriptor.connect_command matches Some(command) ==> (
        error.suggested_command matches Some(suggested) && suggested@ == command@),
{
}

} // verus!
