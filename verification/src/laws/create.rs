//! Where pages and databases are created.
use crate::create;
use crate::create::{
    CreateDatabaseReport, CreateDecision, CreateError, CreatePageReport, DraftFile, DraftPlace,
};
use crate::model::{EntityRecord, MountConfig, StoreError};
use crate::paths;
use crate::paths::PathStyle;
use crate::quoting;
use crate::text;
use vstd::prelude::*;

verus! {

/// Whether an entity is the page or the database of a directory.
pub open spec fn is_of_directory(
    style: PathStyle,
    entity: EntityRecord,
    relative: Seq<char>,
) -> bool {
    ||| entity.kind is Page && paths::same(
        style,
        entity.path@,
        paths::joined(style, relative, "page.md"@),
    )
    ||| entity.kind is Database && paths::same(style, entity.path@, relative)
}

/// Whether `i` is the first entity of a directory.
pub open spec fn is_first_of(
    style: PathStyle,
    entities: Seq<EntityRecord>,
    i: int,
    relative: Seq<char>,
) -> bool {
    &&& 0 <= i < entities.len()
    &&& is_of_directory(style, entities[i], relative)
    &&& forall|j: int|
        0 <= j < i ==> !is_of_directory(style, #[trigger] entities[j], relative)
}

proof fn lemma_parent(style: PathStyle, entities: Seq<EntityRecord>, relative: Seq<char>)
    ensures
        match create::parent_entity(style, entities, relative) {
            Some(e) => exists|i: int| #[trigger]
                is_first_of(style, entities, i, relative) && entities[i] == e,
            None => forall|i: int|
                0 <= i < entities.len() ==> !is_of_directory(
                    style,
                    #[trigger] entities[i],
                    relative,
                ),
        },
    decreases entities.len(),
{
    if entities.len() > 0 {
        if create::is_parent_entity(style, entities[0], relative) {
            assert(is_first_of(style, entities, 0, relative));
        } else {
            let rest = entities.skip(1);
            lemma_parent(style, rest, relative);
            match create::parent_entity(style, rest, relative) {
                Some(e) => {
                    let i = choose|i: int| #[trigger]
                        is_first_of(style, rest, i, relative) && rest[i] == e;
                    assert forall|j: int| 0 <= j < i + 1 implies !is_of_directory(
                        style,
                        #[trigger] entities[j],
                        relative,
                    ) by {
                        if j > 0 {
                            assert(entities[j] == rest[j - 1]);
                        }
                    }
                    assert(is_first_of(style, entities, i + 1, relative));
                },
                None => {
                    assert forall|i: int| 0 <= i < entities.len() implies !is_of_directory(
                        style,
                        #[trigger] entities[i],
                        relative,
                    ) by {
                        if i > 0 {
                            assert(entities[i] == rest[i - 1]);
                        }
                    }
                },
            }
        }
    }
}

/// Whether a page can be created: in a mount that takes new pages, outside of what is there
/// already, with an entity to hold it where a virtual filesystem shows the mount, and for one
/// person alone only at a source that can do that.
pub open spec fn takes_page(
    style: PathStyle,
    place: DraftPlace,
    private: bool,
    has_state_root: bool,
    mount: MountConfig,
    decision: CreateDecision,
    directory_exists: bool,
    entities: Result<Vec<EntityRecord>, StoreError>,
) -> bool {
    let parent = paths::below(style, mount.root@, place.parent@);
    let directory = paths::joined(style, place.parent@, create::directory_name(place.title@));
    &&& !mount.read_only
    &&& parent is Some
    &&& decision.reason is None
    &&& private ==> mount.connector@ == "notion"@
    &&& !directory_exists
    &&& !(mount.projection is PlainFiles) ==> {
        &&& has_state_root
        &&& paths::below(style, mount.root@, directory) is Some
        &&& !private ==> parent->0.len() > 0 && (entities matches Ok(all) && exists|i: int|
            0 <= i < all@.len() && is_of_directory(style, #[trigger] all@[i], parent->0))
    }
}

/// A page is created exactly where it can be.
pub proof fn law_pages_are_created_where_they_can_be(
    style: PathStyle,
    place: DraftPlace,
    private: bool,
    has_state_root: bool,
    mount: Option<&MountConfig>,
    decision: CreateDecision,
    directory_exists: bool,
    entities: Result<Vec<EntityRecord>, StoreError>,
)
    ensures
        create::page_refusal(
            style,
            place,
            private,
            has_state_root,
            mount,
            decision,
            directory_exists,
            entities,
        ) is None <==> (mount matches Some(m) && takes_page(
            style,
            place,
            private,
            has_state_root,
            *m,
            decision,
            directory_exists,
            entities,
        )),
{
    if let (Some(m), Ok(all)) = (mount, entities) {
        if let Some(relative) = paths::below(style, m.root@, place.parent@) {
            lemma_parent(style, all@, relative);
            if create::parent_entity(style, all@, relative) is Some {
                let i = choose|i: int| #[trigger] is_first_of(style, all@, i, relative);
                assert(is_of_directory(style, all@[i], relative));
            }
        }
    }
}

/// A refused page says why: each reason is told exactly of what it is.
pub proof fn law_refused_pages_say_why(
    style: PathStyle,
    place: DraftPlace,
    private: bool,
    has_state_root: bool,
    mount: Option<&MountConfig>,
    decision: CreateDecision,
    directory_exists: bool,
    entities: Result<Vec<EntityRecord>, StoreError>,
    error: CreateError,
)
    requires
        ({
            let refusal = create::page_refusal(
                style,
                place,
                private,
                has_state_root,
                mount,
                decision,
                directory_exists,
                entities,
            );
            refusal is Some && create::is_page_refusal(
                style,
                error,
                refusal->0,
                place,
                mount,
                decision,
            )
        }),
    ensures
        error is MountNotFound <==> mount is None,
        error matches CreateError::MountNotFound(path) ==> path@ == place.parent@,
        error is ReadOnlyMount <==> (mount matches Some(m) && m.read_only),
        error matches CreateError::ReadOnlyMount { mount_id } ==> mount_id@
            == mount->0.mount_id@,
        error matches CreateError::ReadOnlySource { mount_id, source, reason } ==> mount_id@
            == mount->0.mount_id@ && source@ == decision.source@ && text::opt_text(
            decision.reason,
        ) == Some(reason@),
        error matches CreateError::PrivateUnsupported { connector } ==> private && connector@
            == mount->0.connector@ && connector@ != "notion"@,
        error matches CreateError::TargetExists(path) ==> directory_exists && path@
            == paths::joined(style, place.parent@, create::directory_name(place.title@)),
        error is VirtualStateRootRequired ==> !has_state_root && !(mount->0.projection
            is PlainFiles),
        error matches CreateError::InvalidParent { path, .. } ==> !private && path@
            == place.parent@ && !(mount->0.projection is PlainFiles),
        error matches CreateError::Store(e) ==> entities == Err::<Vec<EntityRecord>, _>(e),
        error matches CreateError::WriteFile { path, message } ==> message@
            == "prefix not found"@ && paths::below(style, mount->0.root@, path@) is None,
{
}

/// The file of a new page stands in a directory of its own below the parent, has the title, and
/// says that it is private exactly where it is; where a virtual filesystem shows the mount, it
/// is staged at that place below the mount, under the entity of the parent unless it
/// is private.
pub proof fn law_new_pages_stand_below_their_parent(
    style: PathStyle,
    draft: DraftFile,
    report: CreatePageReport,
    place: DraftPlace,
    private: bool,
    mount: MountConfig,
    entities: Result<Vec<EntityRecord>, StoreError>,
)
    requires
        create::is_page_draft(style, draft, place, private, mount, entities),
        create::is_page_report(style, report, place, private, mount),
    ensures
        draft.directory@ == paths::joined(
            style,
            place.parent@,
            create::directory_name(place.title@),
        ),
        draft.path@ == paths::joined(style, draft.directory@, "page.md"@),
        private ==> draft.body@ == "---\nloc:\n  private: true\ntitle: "@ + (seq!['"']
            + quoting::Expansion::Yaml.expand(place.title@) + seq!['"']) + "\n---\n"@,
        !private ==> draft.body@ == "---\ntitle: "@ + (seq!['"']
            + quoting::Expansion::Yaml.expand(place.title@) + seq!['"']) + "\n---\n"@,
        draft.staged is Some <==> !(mount.projection is PlainFiles),
        draft.staged matches Some(staged) ==> {
            &&& staged.display_path@ == draft.directory@
            &&& staged.projected_path@ == paths::joined(
                style,
                paths::below(style, mount.root@, draft.directory@)->0,
                "page.md"@,
            )
            &&& private ==> staged.parent_remote_id is None
            &&& !private && entities is Ok ==> forall|i: int| #[trigger]
                is_first_of(
                    style,
                    entities->Ok_0@,
                    i,
                    paths::below(style, mount.root@, place.parent@)->0,
                ) ==> text::opt_text(staged.parent_remote_id) == Some(
                    entities->Ok_0@[i].remote_id@,
                )
        },
        report.ok,
        report.title@ == place.title@,
        report.parent@ == place.parent@,
        report.directory@ == draft.directory@,
        report.path@ == draft.path@,
        report.mount_id@ == mount.mount_id@,
        report.connector@ == mount.connector@,
        report.private == private,
        report.next@.len() == 2,
        report.next@[0]@ == "loc diff "@ + quoting::shell_word(
            quoting::SafeSet::PathWord,
            draft.path@,
        ),
        report.next@[1]@ == "loc push "@ + quoting::shell_word(
            quoting::SafeSet::PathWord,
            draft.path@,
        ) + " -y"@,
{
    let shown = text::texts(report.next@);
    assert(shown.len() == report.next@.len());
    assert(shown[0] == report.next@[0]@);
    assert(shown[1] == report.next@[1]@);
    if let (Some(staged), Ok(all)) = (draft.staged, entities) {
        let relative = paths::below(style, mount.root@, place.parent@)->0;
        lemma_parent(style, all@, relative);
        assert forall|i: int| !private && #[trigger]
            is_first_of(style, all@, i, relative) implies text::opt_text(staged.parent_remote_id)
            == Some(all@[i].remote_id@) by {
            let e = create::parent_entity(style, all@, relative)->0;
            let j = choose|j: int| #[trigger]
                is_first_of(style, all@, j, relative) && all@[j] == e;
            assert(i == j);
        }
    }
}

/// Whether a database can be created: at a source that can do that, in a mount that takes new
/// items, below a page that is there, outside of what is there or staged already.
pub open spec fn takes_database(
    style: PathStyle,
    place: DraftPlace,
    has_state_root: bool,
    mount: MountConfig,
    entities: Result<Vec<EntityRecord>, StoreError>,
    directory_exists: bool,
    already_staged: Result<bool, StoreError>,
) -> bool {
    let parent = paths::below(style, mount.root@, place.parent@);
    let directory = paths::joined(style, place.parent@, create::directory_name(place.title@));
    &&& !mount.read_only
    &&& mount.connector@ == "notion"@
    &&& parent is Some
    &&& entities matches Ok(all)
    &&& exists|i: int| #[trigger]
        is_first_of(style, all@, i, parent->0) && all@[i].kind is Page
    &&& !directory_exists
    &&& paths::below(
        style,
        mount.root@,
        paths::joined(style, directory, "_schema.yaml"@),
    ) is Some
    &&& already_staged == Ok::<bool, StoreError>(false)
    &&& !(mount.projection is PlainFiles) ==> has_state_root
}

/// A database is created exactly where it can be.
pub proof fn law_databases_are_created_where_they_can_be(
    style: PathStyle,
    place: DraftPlace,
    has_state_root: bool,
    mount: Option<&MountConfig>,
    entities: Result<Vec<EntityRecord>, StoreError>,
    directory_exists: bool,
    already_staged: Result<bool, StoreError>,
)
    ensures
        create::database_refusal(
            style,
            place,
            has_state_root,
            mount,
            entities,
            directory_exists,
            already_staged,
        ) is None <==> (mount matches Some(m) && takes_database(
            style,
            place,
            has_state_root,
            *m,
            entities,
            directory_exists,
            already_staged,
        )),
{
    if let (Some(m), Ok(all)) = (mount, entities) {
        if let Some(relative) = paths::below(style, m.root@, place.parent@) {
            lemma_parent(style, all@, relative);
            if let Some(e) = create::parent_entity(style, all@, relative) {
                let i = choose|i: int| #[trigger]
                    is_first_of(style, all@, i, relative) && all@[i] == e;
                assert forall|j: int| #[trigger]
                    is_first_of(style, all@, j, relative) implies j == i by {}
            }
        }
    }
}

/// A refused database says why: each reason is told exactly of what it is.
pub proof fn law_refused_databases_say_why(
    style: PathStyle,
    place: DraftPlace,
    has_state_root: bool,
    mount: Option<&MountConfig>,
    entities: Result<Vec<EntityRecord>, StoreError>,
    directory_exists: bool,
    already_staged: Result<bool, StoreError>,
    error: CreateError,
)
    requires
        ({
            let refusal = create::database_refusal(
                style,
                place,
                has_state_root,
                mount,
                entities,
                directory_exists,
                already_staged,
            );
            refusal is Some && create::is_database_refusal(
                style,
                error,
                refusal->0,
                place,
                mount,
            )
        }),
    ensures
        error is MountNotFound <==> mount is None,
        error matches CreateError::MountNotFound(path) ==> path@ == place.parent@,
        error is ReadOnlyMount <==> (mount matches Some(m) && m.read_only),
        error matches CreateError::ReadOnlyMount { mount_id } ==> mount_id@
            == mount->0.mount_id@,
        error is DatabaseUnsupported <==> (mount matches Some(m) && !m.read_only && m.connector@
            != "notion"@),
        error matches CreateError::DatabaseUnsupported { connector } ==> connector@
            == mount->0.connector@,
        error matches CreateError::InvalidParent { path, .. } ==> path@ == place.parent@,
        error matches CreateError::TargetExists(path) ==> (directory_exists || already_staged
            == Ok::<bool, StoreError>(true)) && path@ == paths::joined(
            style,
            place.parent@,
            create::directory_name(place.title@),
        ),
        error is VirtualStateRootRequired ==> !has_state_root && !(mount->0.projection
            is PlainFiles),
        error matches CreateError::Store(e) ==> entities == Err::<Vec<EntityRecord>, _>(e)
            || already_staged == Err::<bool, _>(e),
        error matches CreateError::WriteFile { path, message } ==> message@
            == "prefix not found"@ && paths::below(style, mount->0.root@, path@) is None,
{
}

/// The schema of a new database stands in a directory of its own below the parent and is the one
/// that was made for it; where a virtual filesystem shows the mount, it is staged at that place,
/// under the page of the parent.
pub proof fn law_new_databases_stand_below_their_parent(
    style: PathStyle,
    draft: DraftFile,
    report: CreateDatabaseReport,
    place: DraftPlace,
    mount: MountConfig,
    entities: Result<Vec<EntityRecord>, StoreError>,
    schema: Seq<char>,
)
    requires
        create::is_database_draft(style, draft, place, mount, entities, schema),
        create::is_database_report(style, report, place, mount),
    ensures
        draft.directory@ == paths::joined(
            style,
            place.parent@,
            create::directory_name(place.title@),
        ),
        draft.path@ == paths::joined(style, draft.directory@, "_schema.yaml"@),
        draft.body@ == schema,
        draft.staged is Some <==> !(mount.projection is PlainFiles),
        draft.staged matches Some(staged) ==> {
            &&& staged.display_path@ == draft.path@
            &&& Some(staged.projected_path@) == paths::below(style, mount.root@, draft.path@)
            &&& entities is Ok ==> forall|i: int| #[trigger]
                is_first_of(
                    style,
                    entities->Ok_0@,
                    i,
                    paths::below(style, mount.root@, place.parent@)->0,
                ) ==> text::opt_text(staged.parent_remote_id) == Some(
                    entities->Ok_0@[i].remote_id@,
                )
        },
        report.ok,
        report.title@ == place.title@,
        report.parent@ == place.parent@,
        report.directory@ == draft.directory@,
        report.path@ == draft.path@,
        report.mount_id@ == mount.mount_id@,
        report.connector@ == mount.connector@,
        report.next@.len() == 2,
        report.next@[0]@ == "loc diff "@ + quoting::shell_word(
            quoting::SafeSet::PathWord,
            draft.path@,
        ),
        report.next@[1]@ == "loc push "@ + quoting::shell_word(
            quoting::SafeSet::PathWord,
            draft.path@,
        ) + " -y"@,
{
    let shown = text::texts(report.next@);
    assert(shown.len() == report.next@.len());
    assert(shown[0] == report.next@[0]@);
    assert(shown[1] == report.next@[1]@);
    if let (Some(staged), Ok(all)) = (draft.staged, entities) {
        let relative = paths::below(style, mount.root@, place.parent@)->0;
        lemma_parent(style, all@, relative);
        assert forall|i: int| #[trigger]
            is_first_of(style, all@, i, relative) implies text::opt_text(staged.parent_remote_id)
            == Some(all@[i].remote_id@) by {
            let e = create::parent_entity(style, all@, relative)->0;
            let j = choose|j: int| #[trigger]
                is_first_of(style, all@, j, relative) && all@[j] == e;
            assert(i == j);
        }
    }
}

/// A title is taken exactly where it is one plain file name.
pub proof fn law_titles_are_plain_file_names(style: PathStyle, title: Seq<char>)
    ensures
        create::title_refusal(style, title) is None <==> {
            &&& title.len() > 0
            &&& title != "."@
            &&& title != ".."@
            &&& !paths::absolute(style, title)
            &&& paths::components(style, title).len() == 1
            &&& paths::components(style, title)[0] is Normal
        },
{
}

/// A title that a filesystem takes as it is names its directory.
pub proof fn law_plain_titles_name_their_directory(title: Seq<char>)
    requires
        title.len() > 0,
        forall|i: int|
            0 <= i < title.len() ==> {
                let c = #[trigger] title[i];
                &&& c != '/' && c != '\\' && c != ':' && c != '*' && c != '?' && c != '"'
                &&& c != '<' && c != '>' && c != '|' && !create::is_control(c)
            },
        !text::is_white_space(title[0]),
        !text::is_white_space(title.last()),
        title[0] != '.',
        title.last() != '.',
    ensures
        create::directory_name(title) == title,
{
    assert(title.map_values(|c: char| create::name_char(c)) =~= title);
}

/// A draft goes below the parent that was named, read from the current directory where it is no
/// full path, and into the current directory where none was named. Only a full path does without
/// one.
pub proof fn law_parents_are_read_from_the_current_directory(
    style: PathStyle,
    parent: Option<Seq<char>>,
    current_dir: Result<String, String>,
)
    ensures
        ({
            let place = create::parent_text(style, parent, current_dir);
            &&& parent is Some && paths::absolute(style, parent->0) ==> place == parent
            &&& parent is Some && !paths::absolute(style, parent->0) && current_dir is Ok ==> place
                == Some(paths::joined(style, current_dir->Ok_0@, parent->0))
            &&& parent is None && current_dir is Ok ==> place == Some(current_dir->Ok_0@)
            &&& place is None <==> current_dir is Err && !(parent is Some && paths::absolute(
                style,
                parent->0,
            ))
        }),
{
}

/// A new file is titled after its own name; the schema of a database bears the name of the
/// directory that it stands in.
pub proof fn law_new_files_are_titled_after_their_names(
    style: PathStyle,
    display_path: Seq<char>,
    projected_path: Seq<char>,
    name: Seq<char>,
)
    ensures
        ({
            let title = create::staged_title(style, display_path, projected_path);
            let is_schema = paths::last_name(paths::components(style, projected_path)) == Some(
                "_schema.yaml"@,
            );
            &&& !is_schema && paths::last_name(paths::components(style, display_path)) == Some(name)
                ==> title == name
            &&& is_schema && paths::parent_of(style, projected_path) is Some && paths::last_name(
                paths::components(style, paths::parent_of(style, projected_path)->0),
            ) == Some(name) ==> title == name
            &&& !is_schema && paths::last_name(paths::components(style, display_path)) is None
                ==> title == "Untitled"@
            &&& is_schema && paths::parent_of(style, projected_path) is None ==> title
                == "Untitled"@
        }),
{
}

/// A title that cannot be had is refused with the reason.
pub proof fn law_refused_titles_say_why(error: CreateError, message: Seq<char>)
    requires
        create::refuses_title(error, message),
    ensures
        error matches CreateError::InvalidTitle(why) && why@ == message,
{
}

} // verus!
