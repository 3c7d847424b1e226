//! What is put in order before a file is pushed or compared.
use vstd::prelude::*;

use crate::diff::EntityKind;
use crate::failures;
use crate::failures::locality_error_code;
use crate::model;
use crate::model::{CommandError, EntityRecord, LocalityError, MountConfig, StoreError};
use crate::paths;
use crate::paths::PathStyle;
use crate::text;

verus! {

/// The failure to take over what was changed in a virtual filesystem.
pub fn projection_reconcile_error(command: &'static str, why: &str) -> (r: CommandError)
    ensures
        model::is_command_error(
            r,
            command@,
            "projection_reconcile_failed"@,
            "failed to reconcile visible projection changes: "@ + why@,
        ),
{
    let mut message = "failed to reconcile visible projection changes: ".to_string();
    message.append(why);
    CommandError::new(command, "projection_reconcile_failed", message)
}

/// What is said where that failure does not stop a command.
pub fn projection_reconcile_skipped(command: &str, why: &str) -> (r: String)
    ensures
        r@ == "loc "@ + command@ + ": skipped visible projection reconciliation: "@ + why@,
{
    let mut line = text::concat3(
        "loc ",
        command,
        ": skipped visible projection reconciliation: ",
    );
    line.append(why);
    line
}

/// What the store has at a path and, where the path is a directory, at the page
/// document in it.
#[derive(Debug, PartialEq, Eq)]
pub struct TargetEntities {
    pub at_path: Result<Option<EntityRecord>, StoreError>,
    pub is_directory: bool,
    pub at_page_document: Result<Option<EntityRecord>, StoreError>,
}

/// The page that a path stands for, and whether it is the one in a directory.
#[derive(Debug, PartialEq, Eq)]
pub struct TargetPage {
    pub entity: EntityRecord,
    pub in_directory: bool,
}

/// Whether `r` is the Notion page that a path stands for.
pub open spec fn is_target_page(
    mount: MountConfig,
    found: TargetEntities,
    command: Seq<char>,
    r: Result<Option<TargetPage>, CommandError>,
) -> bool {
    let page = |entity: EntityRecord, in_directory: bool|
        if entity.kind is Page {
            r == Ok::<_, CommandError>(Some(TargetPage { entity, in_directory }))
        } else {
            r == Ok::<Option<TargetPage>, CommandError>(None)
        };
    if mount.connector@ != "notion"@ {
        r == Ok::<Option<TargetPage>, CommandError>(None)
    } else {
        match (found.at_path, found.at_page_document) {
            (Err(e), _) => r matches Err(error) && model::is_command_error(
                error,
                command,
                "store_error"@,
                e.message@,
            ),
            (Ok(Some(entity)), _) => page(entity, false),
            (Ok(None), Err(e)) => if found.is_directory {
                r matches Err(error) && model::is_command_error(
                    error,
                    command,
                    "store_error"@,
                    e.message@,
                )
            } else {
                r == Ok::<Option<TargetPage>, CommandError>(None)
            },
            (Ok(None), Ok(Some(entity))) => if found.is_directory {
                page(entity, true)
            } else {
                r == Ok::<Option<TargetPage>, CommandError>(None)
            },
            (Ok(None), Ok(None)) => r == Ok::<Option<TargetPage>, CommandError>(None),
        }
    }
}

fn page_of(entity: EntityRecord, in_directory: bool) -> (r: Option<TargetPage>)
    ensures
        r == (if entity.kind is Page {
            Some(TargetPage { entity, in_directory })
        } else {
            None
        }),
{
    let is_page = match &entity.kind {
        EntityKind::Page => true,
        _ => false,
    };
    if is_page {
        Some(TargetPage { entity, in_directory })
    } else {
        None
    }
}

/// The Notion page that a path stands for, where it does: the page at the path,
/// else the page document in the directory there.
pub fn target_page(command: &'static str, mount: &MountConfig, found: TargetEntities) -> (r: Result<
    Option<TargetPage>,
    CommandError,
>)
    ensures
        is_target_page(*mount, found, command@, r),
{
    if !text::same_text(&mount.connector, "notion") {
        return Ok(None);
    }
    match found.at_path {
        Err(e) => Err(CommandError::new(command, "store_error", e.message)),
        Ok(Some(entity)) => Ok(page_of(entity, false)),
        Ok(None) => if !found.is_directory {
            Ok(None)
        } else {
            match found.at_page_document {
                Err(e) => Err(CommandError::new(command, "store_error", e.message)),
                Ok(Some(entity)) => Ok(page_of(entity, true)),
                Ok(None) => Ok(None),
            }
        },
    }
}

/// Where the columns of a database are kept.
#[derive(Debug, PartialEq, Eq)]
pub struct SchemaCache {
    pub output_root: String,
    pub schema_path: String,
}

/// Where the columns of the database that lists a page are kept, where a
/// database lists it. `parent` is what the store has where the page is listed,
/// `content_root` where a virtual filesystem keeps its files.
pub fn schema_cache(
    style: PathStyle,
    command: &'static str,
    mount: &MountConfig,
    parent: Result<Option<EntityRecord>, StoreError>,
    content_root: &str,
) -> (r: Result<Option<SchemaCache>, CommandError>)
    ensures
        match parent {
            Err(e) => r matches Err(error) && model::is_command_error(
                error,
                command@,
                "store_error"@,
                e.message@,
            ),
            Ok(None) => r == Ok::<Option<SchemaCache>, CommandError>(None),
            Ok(Some(entity)) => if entity.kind is Database {
                r matches Ok(Some(cache)) && cache.output_root@ == (
                if mount.projection.uses_virtual_filesystem() {
                    content_root@
                } else {
                    mount.root@
                }) && cache.schema_path@ == paths::joined(
                    style,
                    paths::joined(style, cache.output_root@, entity.path@),
                    "_schema.yaml"@,
                )
            } else {
                r == Ok::<Option<SchemaCache>, CommandError>(None)
            },
        },
{
    let database = match parent {
        Err(e) => {
            return Err(CommandError::new(command, "store_error", e.message));
        },
        Ok(None) => {
            return Ok(None);
        },
        Ok(Some(entity)) => entity,
    };
    match database.kind {
        EntityKind::Database => {},
        _ => {
            return Ok(None);
        },
    }
    let output_root = if mount.projection.uses_virtual_filesystem() {
        content_root.to_string()
    } else {
        mount.root.clone()
    };
    let schema_path = paths::join(
        style,
        &paths::join(style, &output_root, &database.path),
        "_schema.yaml",
    );
    Ok(Some(SchemaCache { output_root, schema_path }))
}

/// The failure to fetch the columns of a database again.
pub fn schema_repair_error(command: &'static str, error: &LocalityError) -> (r: CommandError)
    ensures
        model::is_command_error(
            r,
            command@,
            failures::locality_code(error.kind),
            "failed to repair Notion database schema cache: "@ + error.message@,
        ),
{
    let mut message = "failed to repair Notion database schema cache: ".to_string();
    message.append(&error.message);
    CommandError::new(command, locality_error_code(error), message)
}

} // verus!
