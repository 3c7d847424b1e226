//! New pages, databases and replies: where their drafts go and what is in
//! them.
//!
//! A draft is a file in the mount. What is decided here is carried out by the
//! caller: a plain mount gets the file itself, a virtual one a staged change.
use vstd::prelude::*;

use crate::diff::EntityKind;
use crate::model::{EntityRecord, MountConfig, StoreError};
use crate::paths;
use crate::paths::{PathComponent, PathStyle};
use crate::quoting;
use crate::text;

verus! {

/// The file that holds a page in its directory.
pub const PAGE_DOCUMENT_FILENAME: &'static str = "page.md";

/// How long the name of a reply draft can be.
pub const MAX_GMAIL_REPLY_FILENAME_BYTES: usize = 128;

/// What is asked for when a page is created.
#[derive(Debug, PartialEq, Eq)]
pub struct CreatePageOptions {
    pub title: String,
    pub parent: Option<String>,
    pub private: bool,
    pub state_root: Option<String>,
}

/// A page that has been drafted.
#[derive(Debug, PartialEq, Eq)]
pub struct CreatePageReport {
    pub ok: bool,
    pub command: &'static str,
    pub kind: &'static str,
    pub title: String,
    pub parent: String,
    pub directory: String,
    pub path: String,
    pub mount_id: String,
    pub connector: String,
    pub private: bool,
    pub next: Vec<String>,
}

/// What is asked for when a database is created.
#[derive(Debug, PartialEq, Eq)]
pub struct CreateDatabaseOptions {
    pub title: String,
    pub parent: Option<String>,
    pub state_root: Option<String>,
}

/// A database that has been drafted.
#[derive(Debug, PartialEq, Eq)]
pub struct CreateDatabaseReport {
    pub ok: bool,
    pub command: &'static str,
    pub kind: &'static str,
    pub title: String,
    pub parent: String,
    pub directory: String,
    pub path: String,
    pub mount_id: String,
    pub connector: String,
    pub next: Vec<String>,
}

/// What is asked for when a reply is created.
#[derive(Debug, PartialEq, Eq)]
pub struct CreateGmailReplyOptions {
    pub thread: String,
    pub message: Option<String>,
    pub state_root: Option<String>,
}

/// A reply that has been drafted.
#[derive(Debug, PartialEq, Eq)]
pub struct CreateGmailReplyReport {
    pub ok: bool,
    pub command: &'static str,
    pub kind: &'static str,
    pub path: String,
    pub mount_id: String,
    pub thread_id: String,
    pub reply_to_message_id: String,
    pub recipient: String,
    pub subject: String,
    pub next: Vec<String>,
}

/// Why nothing was created.
#[allow(inconsistent_fields)]
#[derive(Debug, PartialEq, Eq)]
pub enum CreateError {
    CurrentDir { message: String },
    InvalidTitle(String),
    MountNotFound(String),
    PrivateUnsupported { connector: String },
    DatabaseUnsupported { connector: String },
    GmailReplyUnsupported { connector: String },
    InvalidReply(String),
    InvalidParent { path: String, message: String },
    ReadOnlyMount { mount_id: String },
    /// The source takes no pages here; `source` is what it is called.
    ReadOnlySource { mount_id: String, source: String, reason: String },
    VirtualStateRootRequired,
    Store(StoreError),
    TargetExists(String),
    WriteFile { path: String, message: String },
}

impl CreateError {
    /// The code that names the failure.
    pub open spec fn code_text(self) -> Seq<char> {
        match self {
            CreateError::CurrentDir { .. } => "current_dir_failed"@,
            CreateError::InvalidTitle(_) => "invalid_title"@,
            CreateError::MountNotFound(_) => "mount_not_found"@,
            CreateError::PrivateUnsupported { .. } => "private_unsupported"@,
            CreateError::DatabaseUnsupported { .. } => "database_unsupported"@,
            CreateError::GmailReplyUnsupported { .. } => "gmail_reply_unsupported"@,
            CreateError::InvalidReply(_) => "invalid_gmail_reply"@,
            CreateError::InvalidParent { .. } => "invalid_parent"@,
            CreateError::ReadOnlyMount { .. } => "read_only_mount"@,
            CreateError::ReadOnlySource { .. } => "read_only_source"@,
            CreateError::VirtualStateRootRequired => "virtual_state_root_required"@,
            CreateError::Store(_) => "store_error"@,
            CreateError::TargetExists(_) => "target_exists"@,
            CreateError::WriteFile { .. } => "write_file_failed"@,
        }
    }

    /// The code that names the failure.
    pub fn code(&self) -> (r: &'static str)
        ensures
            r@ == self.code_text(),
    {
        match self {
            CreateError::CurrentDir { .. } => "current_dir_failed",
            CreateError::InvalidTitle(_) => "invalid_title",
            CreateError::MountNotFound(_) => "mount_not_found",
            CreateError::PrivateUnsupported { .. } => "private_unsupported",
            CreateError::DatabaseUnsupported { .. } => "database_unsupported",
            CreateError::GmailReplyUnsupported { .. } => "gmail_reply_unsupported",
            CreateError::InvalidReply(_) => "invalid_gmail_reply",
            CreateError::InvalidParent { .. } => "invalid_parent",
            CreateError::ReadOnlyMount { .. } => "read_only_mount",
            CreateError::ReadOnlySource { .. } => "read_only_source",
            CreateError::VirtualStateRootRequired => "virtual_state_root_required",
            CreateError::Store(_) => "store_error",
            CreateError::TargetExists(_) => "target_exists",
            CreateError::WriteFile { .. } => "write_file_failed",
        }
    }

    /// What the failure is, in words.
    pub open spec fn message_text(self) -> Seq<char> {
        match self {
            CreateError::CurrentDir { message } => "failed to resolve current directory: "@
                + message@,
            CreateError::InvalidTitle(message) => message@,
            CreateError::MountNotFound(path) => "no Locality mount contains parent `"@ + path@
                + "`"@,
            CreateError::PrivateUnsupported { connector } =>
            "--private is only supported for Notion mounts, not `"@ + connector@ + "`"@,
            CreateError::DatabaseUnsupported { connector } =>
            "database creation is only supported for Notion mounts, not `"@ + connector@ + "`"@,
            CreateError::GmailReplyUnsupported { connector } =>
            "Gmail replies are only supported for Gmail mounts, not `"@ + connector@ + "`"@,
            CreateError::InvalidReply(message) => message@,
            CreateError::InvalidParent { path, message } => "cannot create inside `"@ + path@
                + "`: "@ + message@,
            CreateError::ReadOnlyMount { mount_id } => "mount `"@ + mount_id@
                + "` is read-only and cannot accept new items"@,
            CreateError::ReadOnlySource { mount_id, source, reason } => source@ + " mount `"@
                + mount_id@ + "` cannot accept new pages: "@ + reason@,
            CreateError::VirtualStateRootRequired =>
            "creating items in virtual mounts requires a Locality state directory"@,
            CreateError::Store(error) => error.message@,
            CreateError::TargetExists(path) => "target directory `"@ + path@
                + "` already exists"@,
            CreateError::WriteFile { path, message } => "failed to write `"@ + path@ + "`: "@
                + message@,
        }
    }

    /// What the failure is, in words.
    pub fn message(&self) -> (r: String)
        ensures
            r@ == self.message_text(),
    {
        match self {
            CreateError::CurrentDir { message } => {
                let mut out = "failed to resolve current directory: ".to_string();
                out.append(message);
                out
            },
            CreateError::InvalidTitle(message) => message.clone(),
            CreateError::MountNotFound(path) => text::concat3(
                "no Locality mount contains parent `",
                path,
                "`",
            ),
            CreateError::PrivateUnsupported { connector } => text::concat3(
                "--private is only supported for Notion mounts, not `",
                connector,
                "`",
            ),
            CreateError::DatabaseUnsupported { connector } => text::concat3(
                "database creation is only supported for Notion mounts, not `",
                connector,
                "`",
            ),
            CreateError::GmailReplyUnsupported { connector } => text::concat3(
                "Gmail replies are only supported for Gmail mounts, not `",
                connector,
                "`",
            ),
            CreateError::InvalidReply(message) => message.clone(),
            CreateError::InvalidParent { path, message } => {
                let mut out = text::concat3("cannot create inside `", path, "`: ");
                out.append(message);
                out
            },
            CreateError::ReadOnlyMount { mount_id } => text::concat3(
                "mount `",
                mount_id,
                "` is read-only and cannot accept new items",
            ),
            CreateError::ReadOnlySource { mount_id, source, reason } => {
                let mut out = text::concat3(source, " mount `", mount_id);
                out.append("` cannot accept new pages: ");
                out.append(reason);
                out
            },
            CreateError::VirtualStateRootRequired =>
            "creating items in virtual mounts requires a Locality state directory".to_string(),
            CreateError::Store(error) => error.message.clone(),
            CreateError::TargetExists(path) => text::concat3(
                "target directory `",
                path,
                "` already exists",
            ),
            CreateError::WriteFile { path, message } => {
                let mut out = text::concat3("failed to write `", path, "`: ");
                out.append(message);
                out
            },
        }
    }
}

/// Whether a title is refused in these words.
pub open spec fn refuses_title(error: CreateError, message: Seq<char>) -> bool {
    error matches CreateError::InvalidTitle(m) && m@ == message
}

/// Why a title, without white space around it, is refused.
pub open spec fn title_refusal(style: PathStyle, title: Seq<char>) -> Option<Seq<char>> {
    let c = paths::components(style, title);
    if title.len() == 0 {
        Some("page title must not be empty"@)
    } else if title == "."@ || title == ".."@ {
        Some("page title must be a file name, not `.` or `..`"@)
    } else if paths::absolute(style, title) || c.len() != 1 {
        Some("page title must be a single path component"@)
    } else if c[0] is Normal {
        None
    } else {
        Some("page title must be a normal file name"@)
    }
}

/// The title without white space around it, where it can be the name of a file.
pub fn normalized_title(style: PathStyle, title: &str) -> (r: Result<String, CreateError>)
    ensures
        match title_refusal(style, text::trimmed(title@)) {
            Some(why) => r matches Err(e) && refuses_title(e, why),
            None => r matches Ok(t) && t@ == text::trimmed(title@),
        },
{
    let title = text::trim(title);
    if title.as_str().is_empty() {
        return Err(CreateError::InvalidTitle("page title must not be empty".to_string()));
    }
    if text::same_text(&title, ".") || text::same_text(&title, "..") {
        return Err(
            CreateError::InvalidTitle("page title must be a file name, not `.` or `..`".to_string()),
        );
    }
    let c = paths::components_of(style, &title);
    if paths::is_absolute(style, &title) || c.len() != 1 {
        return Err(
            CreateError::InvalidTitle("page title must be a single path component".to_string()),
        );
    }
    assert(paths::views(c@)[0] == c@[0]@);
    match &c[0] {
        PathComponent::Normal(_) => Ok(title),
        _ => Err(CreateError::InvalidTitle("page title must be a normal file name".to_string())),
    }
}

/// Whether a character steers a terminal and shows nothing.
#[verifier::allow_in_spec]
pub fn is_control(c: char) -> (r: bool)
    returns
        c <= '\u{1f}' || ('\u{7f}' <= c && c <= '\u{9f}'),
{
    c <= '\u{1f}' || ('\u{7f}' <= c && c <= '\u{9f}')
}

/// The character that stands for another in the name of a directory.
#[verifier::allow_in_spec]
pub fn name_char(c: char) -> (r: char)
    returns
        (if c == '/' || c == '\\' || c == ':' || c == '*' || c == '?' || c == '"' || c == '<' || c
            == '>' || c == '|' || is_control(c) {
            '-'
        } else {
            c
        }),
{
    if c == '/' || c == '\\' || c == ':' || c == '*' || c == '?' || c == '"' || c == '<' || c == '>'
        || c == '|' || is_control(c) {
        '-'
    } else {
        c
    }
}

/// The name of the directory for a title: characters that a filesystem may
/// refuse replaced, and white space and then dots taken off both ends.
pub open spec fn directory_name(title: Seq<char>) -> Seq<char> {
    let kept = text::stripped_end(
        text::stripped_front(text::trimmed(title.map_values(|c: char| name_char(c))), '.'),
        '.',
    );
    if kept.len() == 0 {
        "Untitled"@
    } else {
        kept
    }
}

/// The name of the directory for a title.
pub fn page_directory_name_for_title(title: &str) -> (r: String)
    ensures
        r@ == directory_name(title@),
{
    let all = text::chars_of(title);
    let mut mapped: Vec<char> = Vec::new();
    let mut i: usize = 0;
    while i < all.len()
        invariant
            i <= all.len(),
            all@ == title@,
            mapped@ == title@.take(i as int).map_values(|c: char| name_char(c)),
        decreases all.len() - i,
    {
        mapped.push(name_char(all[i]));
        assert(mapped@ =~= title@.take(i + 1).map_values(|c: char| name_char(c)));
        i += 1;
    }
    assert(title@.take(i as int) =~= title@);
    let trimmed = text::trim(&text::string_of(&mapped));
    let kept = text::strip_end(&text::strip_front(&text::chars_of(&trimmed), '.'), '.');
    if kept.len() == 0 {
        "Untitled".to_string()
    } else {
        text::string_of(&kept)
    }
}

/// A directory name is never empty, holds no separator, no control character
/// and none of the characters that a filesystem may refuse, and neither begins
/// nor ends with a dot.
pub proof fn law_directory_name_is_one_component(title: Seq<char>, i: int)
    requires
        0 <= i < directory_name(title).len(),
    ensures
        directory_name(title)[i] != '/',
        directory_name(title)[i] != '\\',
        directory_name(title)[i] != ':',
        directory_name(title)[i] != '*',
        directory_name(title)[i] != '?',
        directory_name(title)[i] != '"',
        directory_name(title)[i] != '<',
        directory_name(title)[i] != '>',
        directory_name(title)[i] != '|',
        !is_control(directory_name(title)[i]),
        directory_name(title).len() > 0,
        directory_name(title)[0] != '.',
        directory_name(title).last() != '.',
{
    let mapped = title.map_values(|c: char| name_char(c));
    let trimmed = text::trimmed(mapped);
    let front = text::stripped_front(trimmed, '.');
    let kept = text::stripped_end(front, '.');
    if kept.len() == 0 {
        reveal_strlit("Untitled");
    } else {
        lemma_stripped_from(front, '.', i);
        lemma_stripped_from(front, '.', 0);
        lemma_stripped_last(front, '.');
        lemma_stripped_front_first(trimmed, '.');
        lemma_stripped_front_from(trimmed, '.', i);
        lemma_trimmed_from(mapped, i + (trimmed.len() - front.len()));
        let k = choose|k: int| 0 <= k < mapped.len() && mapped[k] == kept[i];
        assert(mapped[k] == name_char(title[k]));
    }
}

proof fn lemma_stripped_from(s: Seq<char>, c: char, i: int)
    requires
        0 <= i < text::stripped_end(s, c).len(),
    ensures
        i < s.len(),
        text::stripped_end(s, c)[i] == s[i],
    decreases s.len(),
{
    if s.len() > 0 && s.last() == c {
        lemma_stripped_from(s.drop_last(), c, i);
    }
}

proof fn lemma_stripped_last(s: Seq<char>, c: char)
    requires
        text::stripped_end(s, c).len() > 0,
    ensures
        text::stripped_end(s, c).last() != c,
    decreases s.len(),
{
    if s.len() > 0 && s.last() == c {
        lemma_stripped_last(s.drop_last(), c);
    }
}

proof fn lemma_stripped_front_first(s: Seq<char>, c: char)
    requires
        text::stripped_front(s, c).len() > 0,
    ensures
        text::stripped_front(s, c)[0] != c,
    decreases s.len(),
{
    if s.len() > 0 && s[0] == c {
        lemma_stripped_front_first(s.skip(1), c);
    }
}

proof fn lemma_stripped_front_from(s: Seq<char>, c: char, i: int)
    requires
        0 <= i < text::stripped_front(s, c).len(),
    ensures
        text::stripped_front(s, c).len() <= s.len(),
        text::stripped_front(s, c)[i] == s[i + (s.len() - text::stripped_front(s, c).len())],
    decreases s.len(),
{
    if s.len() > 0 && s[0] == c {
        lemma_stripped_front_from(s.skip(1), c, i);
    }
}

proof fn lemma_trimmed_from(s: Seq<char>, i: int)
    requires
        0 <= i < text::trimmed(s).len(),
    ensures
        exists|k: int| 0 <= k < s.len() && s[k] == #[trigger] text::trimmed(s)[i],
{
    lemma_trimmed_start_from(s);
    lemma_trimmed_end_from(text::trimmed_start(s));
    assert(text::trimmed(s)[i] == text::trimmed_start(s)[i]);
}

proof fn lemma_trimmed_start_from(s: Seq<char>)
    ensures
        text::trimmed_start(s).len() <= s.len(),
        forall|i: int|
            0 <= i < text::trimmed_start(s).len() ==> #[trigger] text::trimmed_start(s)[i] == s[i + (
            s.len() - text::trimmed_start(s).len())],
    decreases s.len(),
{
    if s.len() > 0 && text::is_white_space(s[0]) {
        lemma_trimmed_start_from(s.skip(1));
    }
}

proof fn lemma_trimmed_end_from(s: Seq<char>)
    ensures
        text::trimmed_end(s).len() <= s.len(),
        forall|i: int|
            0 <= i < text::trimmed_end(s).len() ==> #[trigger] text::trimmed_end(s)[i] == s[i],
    decreases s.len(),
{
    if s.len() > 0 && text::is_white_space(s.last()) {
        lemma_trimmed_end_from(s.drop_last());
    }
}

/// A path as an absolute one, below the current directory where it is relative.
pub fn absolute_path(
    style: PathStyle,
    path: &str,
    current_dir: &Result<String, String>,
) -> (r: Result<
    String,
    CreateError,
>)
    ensures
        match *current_dir {
            Ok(dir) => r matches Ok(p) && p@ == (if paths::absolute(style, path@) {
                path@
            } else {
                paths::joined(style, dir@, path@)
            }),
            Err(why) => if paths::absolute(style, path@) {
                r matches Ok(p) && p@ == path@
            } else {
                r matches Err(CreateError::CurrentDir { message }) && message@ == why@
            },
        },
{
    if paths::is_absolute(style, path) {
        return Ok(path.to_string());
    }
    match current_dir {
        Ok(dir) => Ok(paths::join(style, dir, path)),
        Err(why) => Err(CreateError::CurrentDir { message: why.clone() }),
    }
}

/// Where something is created: the parent asked for, else the current
/// directory.
pub open spec fn parent_text(
    style: PathStyle,
    parent: Option<Seq<char>>,
    current_dir: Result<String, String>,
) -> Option<Seq<char>> {
    match (parent, current_dir) {
        (Some(p), Ok(dir)) => Some(
            if paths::absolute(style, p) {
                p
            } else {
                paths::joined(style, dir@, p)
            },
        ),
        (Some(p), Err(_)) => if paths::absolute(style, p) {
            Some(p)
        } else {
            None
        },
        (None, Ok(dir)) => Some(dir@),
        (None, Err(_)) => None,
    }
}

/// A title that can be used, and where it is used.
#[derive(Debug, PartialEq, Eq)]
pub struct DraftPlace {
    pub title: String,
    pub parent: String,
}

/// The title and the parent of a new page or database. The title is looked at
/// first.
pub fn draft_place(
    style: PathStyle,
    title: &str,
    parent: &Option<String>,
    current_dir: &Result<String, String>,
) -> (r: Result<DraftPlace, CreateError>)
    ensures
        match title_refusal(style, text::trimmed(title@)) {
            Some(why) => r matches Err(e) && refuses_title(e, why),
            None => match parent_text(style, text::opt_text(*parent), *current_dir) {
                Some(path) => r matches Ok(d) && d.title@ == text::trimmed(title@) && d.parent@
                    == path,
                None => r matches Err(CreateError::CurrentDir { message }) && *current_dir
                    matches Err(why) && message@ == why@,
            },
        },
{
    let title = match normalized_title(style, title) {
        Ok(title) => title,
        Err(e) => {
            return Err(e);
        },
    };
    let parent = match parent {
        Some(parent) => match absolute_path(style, parent, current_dir) {
            Ok(parent) => parent,
            Err(e) => {
                return Err(e);
            },
        },
        None => match current_dir {
            Ok(dir) => dir.clone(),
            Err(why) => {
                return Err(CreateError::CurrentDir { message: why.clone() });
            },
        },
    };
    Ok(DraftPlace { title, parent })
}

impl DraftPlace {
    /// The directory of the new page or database.
    pub open spec fn directory_text(self, style: PathStyle) -> Seq<char> {
        paths::joined(style, self.parent@, directory_name(self.title@))
    }

    /// The directory of the new page or database.
    pub fn directory(&self, style: PathStyle) -> (r: String)
        ensures
            r@ == self.directory_text(style),
    {
        paths::join(style, &self.parent, &page_directory_name_for_title(&self.title))
    }

    /// The schema file of the new database.
    pub fn schema_path(&self, style: PathStyle) -> (r: String)
        ensures
            r@ == paths::joined(style, self.directory_text(style), "_schema.yaml"@),
    {
        paths::join(style, &self.directory(style), "_schema.yaml")
    }
}

/// Whether an error says that a path is not below its mount.
pub open spec fn is_outside(error: CreateError, path: Seq<char>) -> bool {
    error matches CreateError::WriteFile { path: p, message } && p@ == path && message@
        == "prefix not found"@
}

/// A path relative to its mount.
pub fn relative_path(
    style: PathStyle,
    mount: &MountConfig,
    path: &str,
) -> (r: Result<String, CreateError>)
    ensures
        match paths::below(style, mount.root@, path@) {
            Some(rest) => r matches Ok(p) && p@ == rest,
            None => r matches Err(e) && is_outside(e, path@),
        },
{
    match paths::strip_prefix(style, path, &mount.root) {
        Some(rest) => Ok(rest),
        None => Err(
            CreateError::WriteFile {
                path: path.to_string(),
                message: "prefix not found".to_string(),
            },
        ),
    }
}

/// The document of a page in its directory.
pub open spec fn page_document(style: PathStyle, directory: Seq<char>) -> Seq<char> {
    paths::joined(style, directory, "page.md"@)
}

/// Whether an entity is the page or the database at a relative path.
pub open spec fn is_parent_entity(
    style: PathStyle,
    entity: EntityRecord,
    relative: Seq<char>,
) -> bool {
    match entity.kind {
        EntityKind::Page => paths::same(style, entity.path@, page_document(style, relative)),
        EntityKind::Database => paths::same(style, entity.path@, relative),
        _ => false,
    }
}

/// The first page or database at a relative path.
pub open spec fn parent_entity(
    style: PathStyle,
    entities: Seq<EntityRecord>,
    relative: Seq<char>,
) -> Option<
    EntityRecord,
>
    decreases entities.len(),
{
    if entities.len() == 0 {
        None
    } else if is_parent_entity(style, entities[0], relative) {
        Some(entities[0])
    } else {
        parent_entity(style, entities.skip(1), relative)
    }
}

/// The first page or database at a relative path.
pub fn parent_entity_for_path<'a>(
    style: PathStyle,
    relative: &str,
    entities: &'a Vec<EntityRecord>,
) -> (r: Option<
    &'a EntityRecord,
>)
    ensures
        match r {
            Some(e) => parent_entity(style, entities@, relative@) == Some(*e),
            None => parent_entity(style, entities@, relative@) is None,
        },
{
    let document = paths::join(style, relative, PAGE_DOCUMENT_FILENAME);
    let mut i: usize = 0;
    assert(entities@.skip(0) == entities@);
    while i < entities.len()
        invariant
            i <= entities.len(),
            document@ == page_document(style, relative@),
            parent_entity(style, entities@, relative@) == parent_entity(
                style,
                entities@.skip(i as int),
                relative@,
            ),
        decreases entities.len() - i,
    {
        let entity = &entities[i];
        assert(entities@.skip(i as int).skip(1) == entities@.skip(i + 1));
        let found = match &entity.kind {
            EntityKind::Page => paths::same_path(style, &entity.path, &document),
            EntityKind::Database => paths::same_path(style, &entity.path, relative),
            _ => false,
        };
        if found {
            return Some(entity);
        }
        i += 1;
    }
    None
}

/// A file that is staged in a virtual mount.
#[derive(Debug, PartialEq, Eq)]
pub struct StagedFile {
    /// What a failure speaks of, and what the change is titled after.
    pub display_path: String,
    pub projected_path: String,
    pub parent_remote_id: Option<String>,
}

/// A draft to write: the file itself, or the staged change in a virtual mount.
#[derive(Debug, PartialEq, Eq)]
pub struct DraftFile {
    pub directory: String,
    pub path: String,
    pub body: String,
    pub staged: Option<StagedFile>,
}

/// What a source says to a new page at a place.
#[derive(Debug, PartialEq, Eq)]
pub struct CreateDecision {
    /// Why it takes none, if so.
    pub reason: Option<String>,
    /// What the source is called.
    pub source: String,
}

/// Whether commands to look at and push a draft are these two.
pub open spec fn are_next_steps(next: Seq<String>, path: Seq<char>) -> bool {
    text::texts(next) == seq![
        "loc diff "@ + quoting::shell_word(quoting::SafeSet::PathWord, path),
        "loc push "@ + quoting::shell_word(quoting::SafeSet::PathWord, path) + " -y"@,
    ]
}

/// The commands to look at and push a draft.
pub fn next_steps(path: &str) -> (r: Vec<String>)
    ensures
        are_next_steps(r@, path@),
{
    let quoted = quoting::shell_quote_path(path);
    let mut diff = "loc diff ".to_string();
    diff.append(&quoted);
    let push = text::concat3("loc push ", &quoted, " -y");
    let next = vec![diff, push];
    assert(text::texts(next@) =~= seq![diff@, push@]);
    next
}

/// The content of a new page.
pub open spec fn page_body(title: Seq<char>, private: bool) -> Seq<char> {
    (if private {
        "---\nloc:\n  private: true\ntitle: "@
    } else {
        "---\ntitle: "@
    }) + quoting::between('"', quoting::Expansion::Yaml.expand(title)) + "\n---\n"@
}

/// Why a page cannot be created, or nothing.
#[allow(inconsistent_fields)]
pub enum PageRefusal {
    MountNotFound,
    ReadOnlyMount,
    Outside(Seq<char>),
    ReadOnlySource(Seq<char>),
    PrivateUnsupported,
    TargetExists,
    StateRootRequired,
    RootParent,
    Store(StoreError),
    NoParent,
}

/// Why a page cannot be created: the mount has to be found and writable and
/// the source to take it, `--private` is for Notion alone, and nothing may be
/// in the way. In a virtual mount the state directory has to be known, and for
/// a page that is not private the page or database above it.
pub open spec fn page_refusal(
    style: PathStyle,
    place: DraftPlace,
    private: bool,
    has_state_root: bool,
    mount: Option<&MountConfig>,
    decision: CreateDecision,
    directory_exists: bool,
    entities: Result<Vec<EntityRecord>, StoreError>,
) -> Option<PageRefusal> {
    match mount {
        None => Some(PageRefusal::MountNotFound),
        Some(m) => if m.read_only {
            Some(PageRefusal::ReadOnlyMount)
        } else if paths::below(style, m.root@, place.parent@) is None {
            Some(PageRefusal::Outside(place.parent@))
        } else if decision.reason is Some {
            Some(PageRefusal::ReadOnlySource(decision.reason->0@))
        } else if private && m.connector@ != "notion"@ {
            Some(PageRefusal::PrivateUnsupported)
        } else if directory_exists {
            Some(PageRefusal::TargetExists)
        } else if !m.projection.uses_virtual_filesystem() {
            None
        } else if !has_state_root {
            Some(PageRefusal::StateRootRequired)
        } else {
            let relative = paths::below(style, m.root@, place.parent@)->0;
            if !private && relative.len() == 0 {
                Some(PageRefusal::RootParent)
            } else if !private && entities is Err {
                Some(PageRefusal::Store(entities->Err_0))
            } else if !private && parent_entity(style, entities->Ok_0@, relative) is None {
                Some(PageRefusal::NoParent)
            } else if paths::below(style, m.root@, place.directory_text(style)) is None {
                Some(PageRefusal::Outside(place.directory_text(style)))
            } else {
                None
            }
        },
    }
}

/// Whether an error is this refusal of a page.
pub open spec fn is_page_refusal(
    style: PathStyle,
    error: CreateError,
    refusal: PageRefusal,
    place: DraftPlace,
    mount: Option<&MountConfig>,
    decision: CreateDecision,
) -> bool {
    match refusal {
        PageRefusal::MountNotFound => error matches CreateError::MountNotFound(p) && p@
            == place.parent@,
        PageRefusal::ReadOnlyMount => error matches CreateError::ReadOnlyMount { mount_id }
            && mount matches Some(m) && mount_id@ == m.mount_id@,
        PageRefusal::Outside(path) => is_outside(error, path),
        PageRefusal::ReadOnlySource(why) => error matches CreateError::ReadOnlySource {
            mount_id,
            source,
            reason,
        } && mount matches Some(m) && mount_id@ == m.mount_id@ && source@ == decision.source@
            && reason@ == why,
        PageRefusal::PrivateUnsupported => error matches CreateError::PrivateUnsupported {
            connector,
        } && mount matches Some(m) && connector@ == m.connector@,
        PageRefusal::TargetExists => error matches CreateError::TargetExists(p) && p@
            == place.directory_text(style),
        PageRefusal::StateRootRequired => error is VirtualStateRootRequired,
        PageRefusal::RootParent => error matches CreateError::InvalidParent { path, message }
            && path@ == place.parent@ && message@
            == "new pages must be created inside an existing page or database directory"@,
        PageRefusal::Store(e) => error == CreateError::Store(e),
        PageRefusal::NoParent => error matches CreateError::InvalidParent { path, message }
            && path@ == place.parent@ && message@
            == "no existing page or database matches this parent directory"@,
    }
}

/// What a page is staged under: the page or database above it, or nothing for
/// a private page.
pub open spec fn page_parent_id(
    style: PathStyle,
    place: DraftPlace,
    private: bool,
    mount: MountConfig,
    entities: Result<Vec<EntityRecord>, StoreError>,
) -> Option<Seq<char>> {
    if private {
        None
    } else {
        match parent_entity(
            style,
            entities->Ok_0@,
            paths::below(style, mount.root@, place.parent@)->0,
        ) {
            Some(e) => Some(e.remote_id@),
            None => None,
        }
    }
}

fn page_parent(
    style: PathStyle,
    place: &DraftPlace,
    mount: &MountConfig,
    relative: &str,
    entities: Result<Vec<EntityRecord>, StoreError>,
) -> (r: Result<String, CreateError>)
    ensures
        if relative@.len() == 0 {
            r matches Err(CreateError::InvalidParent { path, message }) && path@ == place.parent@
                && message@
                == "new pages must be created inside an existing page or database directory"@
        } else {
            match entities {
                Err(e) => r == Err::<String, _>(CreateError::Store(e)),
                Ok(list) => match parent_entity(style, list@, relative@) {
                    Some(e) => r matches Ok(id) && id@ == e.remote_id@,
                    None => r matches Err(CreateError::InvalidParent { path, message }) && path@
                        == place.parent@ && message@
                        == "no existing page or database matches this parent directory"@,
                },
            }
        },
{
    if relative.is_empty() {
        return Err(
            CreateError::InvalidParent {
                path: place.parent.clone(),
                message: "new pages must be created inside an existing page or database directory".to_string(),
            },
        );
    }
    let list = match entities {
        Ok(list) => list,
        Err(e) => {
            return Err(CreateError::Store(e));
        },
    };
    match parent_entity_for_path(style, relative, &list) {
        Some(entity) => Ok(entity.remote_id.clone()),
        None => Err(
            CreateError::InvalidParent {
                path: place.parent.clone(),
                message: "no existing page or database matches this parent directory".to_string(),
            },
        ),
    }
}

/// Whether a draft is the page of a place.
pub open spec fn is_page_draft(
    style: PathStyle,
    draft: DraftFile,
    place: DraftPlace,
    private: bool,
    mount: MountConfig,
    entities: Result<Vec<EntityRecord>, StoreError>,
) -> bool {
    &&& draft.directory@ == place.directory_text(style)
    &&& draft.path@ == page_document(style, place.directory_text(style))
    &&& draft.body@ == page_body(place.title@, private)
    &&& match draft.staged {
        None => !mount.projection.uses_virtual_filesystem(),
        Some(staged) => {
            &&& mount.projection.uses_virtual_filesystem()
            &&& staged.display_path@ == place.directory_text(style)
            &&& staged.projected_path@ == page_document(
                style,
                paths::below(style, mount.root@, place.directory_text(style))->0,
            )
            &&& text::opt_text(staged.parent_remote_id) == page_parent_id(
                style,
                place,
                private,
                mount,
                entities,
            )
        },
    }
}

/// Whether a report is of the page of a place.
pub open spec fn is_page_report(
    style: PathStyle,
    report: CreatePageReport,
    place: DraftPlace,
    private: bool,
    mount: MountConfig,
) -> bool {
    &&& report.ok
    &&& report.command@ == "create_page"@
    &&& report.kind@ == "page"@
    &&& report.title@ == place.title@
    &&& report.parent@ == place.parent@
    &&& report.directory@ == place.directory_text(style)
    &&& report.path@ == page_document(style, place.directory_text(style))
    &&& report.mount_id@ == mount.mount_id@
    &&& report.connector@ == mount.connector@
    &&& report.private == private
    &&& are_next_steps(report.next@, page_document(style, place.directory_text(style)))
}

/// The draft of a new page and the report of it, or why there is none. `mount`
/// is the mount that holds the parent, `decision` what the source says to a
/// page there, and `entities` the entities of the mount.
pub fn run_create_page(
    style: PathStyle,
    place: DraftPlace,
    private: bool,
    state_root: &Option<String>,
    mount: Option<&MountConfig>,
    decision: CreateDecision,
    directory_exists: bool,
    entities: Result<Vec<EntityRecord>, StoreError>,
) -> (r: Result<(DraftFile, CreatePageReport), CreateError>)
    ensures
        match page_refusal(
            style,
            place,
            private,
            *state_root is Some,
            mount,
            decision,
            directory_exists,
            entities,
        ) {
            Some(refusal) => r matches Err(e) && is_page_refusal(
                style,
                e,
                refusal,
                place,
                mount,
                decision,
            ),
            None => r matches Ok(made) && mount matches Some(m) && is_page_draft(
                style,
                made.0,
                place,
                private,
                *m,
                entities,
            ) && is_page_report(style, made.1, place, private, *m),
        },
{
    let mount = match mount {
        Some(mount) => mount,
        None => {
            return Err(CreateError::MountNotFound(place.parent));
        },
    };
    if mount.read_only {
        return Err(CreateError::ReadOnlyMount { mount_id: mount.mount_id.clone() });
    }
    let relative_parent = match relative_path(style, mount, &place.parent) {
        Ok(relative) => relative,
        Err(e) => {
            return Err(e);
        },
    };
    if let Some(reason) = decision.reason {
        return Err(
            CreateError::ReadOnlySource {
                mount_id: mount.mount_id.clone(),
                source: decision.source,
                reason,
            },
        );
    }
    if private && !text::same_text(&mount.connector, "notion") {
        return Err(CreateError::PrivateUnsupported { connector: mount.connector.clone() });
    }
    let directory = place.directory(style);
    let path = paths::join(style, &directory, PAGE_DOCUMENT_FILENAME);
    if directory_exists {
        return Err(CreateError::TargetExists(directory));
    }
    let quoted = quoting::yaml_double_quoted(&place.title);
    let body = if private {
        text::concat3("---\nloc:\n  private: true\ntitle: ", &quoted, "\n---\n")
    } else {
        text::concat3("---\ntitle: ", &quoted, "\n---\n")
    };
    let staged = if mount.projection.uses_virtual_filesystem() {
        if state_root.is_none() {
            return Err(CreateError::VirtualStateRootRequired);
        }
        let parent_remote_id = if private {
            None
        } else {
            match page_parent(style, &place, mount, &relative_parent, entities) {
                Ok(id) => Some(id),
                Err(e) => {
                    return Err(e);
                },
            }
        };
        let relative = match relative_path(style, mount, &directory) {
            Ok(relative) => relative,
            Err(e) => {
                return Err(e);
            },
        };
        Some(
            StagedFile {
                display_path: directory.clone(),
                projected_path: paths::join(style, &relative, PAGE_DOCUMENT_FILENAME),
                parent_remote_id,
            },
        )
    } else {
        None
    };
    let next = next_steps(&path);
    let report = CreatePageReport {
        ok: true,
        command: "create_page",
        kind: "page",
        title: place.title,
        parent: place.parent,
        directory: directory.clone(),
        path: path.clone(),
        mount_id: mount.mount_id.clone(),
        connector: mount.connector.clone(),
        private,
        next,
    };
    Ok((DraftFile { directory, path, body, staged }, report))
}

/// Why a database cannot be created.
#[allow(inconsistent_fields)]
pub enum DatabaseRefusal {
    MountNotFound,
    ReadOnlyMount,
    Unsupported,
    Store(StoreError),
    Outside(Seq<char>),
    InvalidParent(Seq<char>),
    TargetExists,
    StateRootRequired,
}

/// The schema file of a new database.
pub open spec fn schema_text(style: PathStyle, place: DraftPlace) -> Seq<char> {
    paths::joined(style, place.directory_text(style), "_schema.yaml"@)
}

/// Why a database cannot be created: the mount has to be found, writable and
/// one of Notion, the parent has to be a page, and nothing may be in the way,
/// on disk or staged. In a virtual mount the state directory has to be known.
pub open spec fn database_refusal(
    style: PathStyle,
    place: DraftPlace,
    has_state_root: bool,
    mount: Option<&MountConfig>,
    entities: Result<Vec<EntityRecord>, StoreError>,
    directory_exists: bool,
    already_staged: Result<bool, StoreError>,
) -> Option<DatabaseRefusal> {
    match mount {
        None => Some(DatabaseRefusal::MountNotFound),
        Some(m) => {
            let relative = paths::below(style, m.root@, place.parent@);
            if m.read_only {
                Some(DatabaseRefusal::ReadOnlyMount)
            } else if m.connector@ != "notion"@ {
                Some(DatabaseRefusal::Unsupported)
            } else if entities is Err {
                Some(DatabaseRefusal::Store(entities->Err_0))
            } else if relative is None {
                Some(DatabaseRefusal::Outside(place.parent@))
            } else if parent_entity(style, entities->Ok_0@, relative->0) is None {
                Some(
                    DatabaseRefusal::InvalidParent(
                        "no existing page matches this parent directory"@,
                    ),
                )
            } else if !(parent_entity(style, entities->Ok_0@, relative->0)->0.kind is Page) {
                Some(
                    DatabaseRefusal::InvalidParent(
                        "Notion databases must be created inside an existing page directory"@,
                    ),
                )
            } else if directory_exists {
                Some(DatabaseRefusal::TargetExists)
            } else if paths::below(style, m.root@, schema_text(style, place)) is None {
                Some(DatabaseRefusal::Outside(schema_text(style, place)))
            } else if already_staged is Err {
                Some(DatabaseRefusal::Store(already_staged->Err_0))
            } else if already_staged->Ok_0 {
                Some(DatabaseRefusal::TargetExists)
            } else if m.projection.uses_virtual_filesystem() && !has_state_root {
                Some(DatabaseRefusal::StateRootRequired)
            } else {
                None
            }
        },
    }
}

/// Whether an error is this refusal of a database.
pub open spec fn is_database_refusal(
    style: PathStyle,
    error: CreateError,
    refusal: DatabaseRefusal,
    place: DraftPlace,
    mount: Option<&MountConfig>,
) -> bool {
    match refusal {
        DatabaseRefusal::MountNotFound => error matches CreateError::MountNotFound(p) && p@
            == place.parent@,
        DatabaseRefusal::ReadOnlyMount => error matches CreateError::ReadOnlyMount { mount_id }
            && mount matches Some(m) && mount_id@ == m.mount_id@,
        DatabaseRefusal::Unsupported => error matches CreateError::DatabaseUnsupported {
            connector,
        } && mount matches Some(m) && connector@ == m.connector@,
        DatabaseRefusal::Store(e) => error == CreateError::Store(e),
        DatabaseRefusal::Outside(path) => is_outside(error, path),
        DatabaseRefusal::InvalidParent(why) => error matches CreateError::InvalidParent {
            path,
            message,
        } && path@ == place.parent@ && message@ == why,
        DatabaseRefusal::TargetExists => error matches CreateError::TargetExists(p) && p@
            == place.directory_text(style),
        DatabaseRefusal::StateRootRequired => error is VirtualStateRootRequired,
    }
}

/// Whether a draft is the database of a place.
pub open spec fn is_database_draft(
    style: PathStyle,
    draft: DraftFile,
    place: DraftPlace,
    mount: MountConfig,
    entities: Result<Vec<EntityRecord>, StoreError>,
    schema: Seq<char>,
) -> bool {
    &&& draft.directory@ == place.directory_text(style)
    &&& draft.path@ == schema_text(style, place)
    &&& draft.body@ == schema
    &&& match draft.staged {
        None => !mount.projection.uses_virtual_filesystem(),
        Some(staged) => {
            &&& mount.projection.uses_virtual_filesystem()
            &&& staged.display_path@ == schema_text(style, place)
            &&& Some(staged.projected_path@) == paths::below(
                style,
                mount.root@,
                schema_text(style, place),
            )
            &&& parent_entity(
                style,
                entities->Ok_0@,
                paths::below(style, mount.root@, place.parent@)->0,
            ) matches Some(e) && text::opt_text(staged.parent_remote_id) == Some(e.remote_id@)
        },
    }
}

/// Whether a report is of the database of a place.
pub open spec fn is_database_report(
    style: PathStyle,
    report: CreateDatabaseReport,
    place: DraftPlace,
    mount: MountConfig,
) -> bool {
    &&& report.ok
    &&& report.command@ == "create_database"@
    &&& report.kind@ == "database"@
    &&& report.title@ == place.title@
    &&& report.parent@ == place.parent@
    &&& report.directory@ == place.directory_text(style)
    &&& report.path@ == schema_text(style, place)
    &&& report.mount_id@ == mount.mount_id@
    &&& report.connector@ == mount.connector@
    &&& are_next_steps(report.next@, schema_text(style, place))
}

/// The draft of a new database and the report of it, or why there is none.
/// `schema` is the content of its schema file, and `already_staged` says whether
/// a change of that file is staged.
pub fn run_create_database(
    style: PathStyle,
    place: DraftPlace,
    state_root: &Option<String>,
    mount: Option<&MountConfig>,
    entities: Result<Vec<EntityRecord>, StoreError>,
    directory_exists: bool,
    already_staged: Result<bool, StoreError>,
    schema: String,
) -> (r: Result<(DraftFile, CreateDatabaseReport), CreateError>)
    ensures
        match database_refusal(
            style,
            place,
            *state_root is Some,
            mount,
            entities,
            directory_exists,
            already_staged,
        ) {
            Some(refusal) => r matches Err(e) && is_database_refusal(
                style,
                e,
                refusal,
                place,
                mount,
            ),
            None => r matches Ok(made) && mount matches Some(m) && is_database_draft(
                style,
                made.0,
                place,
                *m,
                entities,
                schema@,
            ) && is_database_report(style, made.1, place, *m),
        },
{
    let mount = match mount {
        Some(mount) => mount,
        None => {
            return Err(CreateError::MountNotFound(place.parent));
        },
    };
    if mount.read_only {
        return Err(CreateError::ReadOnlyMount { mount_id: mount.mount_id.clone() });
    }
    if !text::same_text(&mount.connector, "notion") {
        return Err(CreateError::DatabaseUnsupported { connector: mount.connector.clone() });
    }
    let list = match entities {
        Ok(list) => list,
        Err(e) => {
            return Err(CreateError::Store(e));
        },
    };
    let relative_parent = match relative_path(style, mount, &place.parent) {
        Ok(relative) => relative,
        Err(e) => {
            return Err(e);
        },
    };
    let above = match parent_entity_for_path(style, &relative_parent, &list) {
        Some(entity) => entity,
        None => {
            return Err(
                CreateError::InvalidParent {
                    path: place.parent,
                    message: "no existing page matches this parent directory".to_string(),
                },
            );
        },
    };
    match &above.kind {
        EntityKind::Page => {},
        _ => {
            return Err(
                CreateError::InvalidParent {
                    path: place.parent,
                    message: "Notion databases must be created inside an existing page directory".to_string(),
                },
            );
        },
    }
    let directory = place.directory(style);
    let path = place.schema_path(style);
    if directory_exists {
        return Err(CreateError::TargetExists(directory));
    }
    let relative = match relative_path(style, mount, &path) {
        Ok(relative) => relative,
        Err(e) => {
            return Err(e);
        },
    };
    match already_staged {
        Err(e) => {
            return Err(CreateError::Store(e));
        },
        Ok(true) => {
            return Err(CreateError::TargetExists(directory));
        },
        Ok(false) => {},
    }
    let staged = if mount.projection.uses_virtual_filesystem() {
        if state_root.is_none() {
            return Err(CreateError::VirtualStateRootRequired);
        }
        Some(
            StagedFile {
                display_path: path.clone(),
                projected_path: relative,
                parent_remote_id: Some(above.remote_id.clone()),
            },
        )
    } else {
        None
    };
    let next = next_steps(&path);
    let report = CreateDatabaseReport {
        ok: true,
        command: "create_database",
        kind: "database",
        title: place.title,
        parent: place.parent,
        directory: directory.clone(),
        path: path.clone(),
        mount_id: mount.mount_id.clone(),
        connector: mount.connector.clone(),
        next,
    };
    Ok((DraftFile { directory, path, body: schema, staged }, report))
}

/// Where the content of a staged file is written: refused where a change of the
/// file is staged already. `content_path` is the place in the state directory,
/// or why there is none.
pub fn stage_virtual_file(
    staged: &StagedFile,
    already_staged: Result<bool, StoreError>,
    content_path: Result<String, String>,
) -> (r: Result<String, CreateError>)
    ensures
        match already_staged {
            Err(e) => r == Err::<String, _>(CreateError::Store(e)),
            Ok(true) => r matches Err(CreateError::TargetExists(p)) && p@
                == staged.display_path@,
            Ok(false) => match content_path {
                Err(why) => r matches Err(CreateError::WriteFile { path, message }) && path@
                    == staged.display_path@ && message@ == why@,
                Ok(place) => r == Ok::<_, CreateError>(place),
            },
        },
{
    match already_staged {
        Err(e) => {
            return Err(CreateError::Store(e));
        },
        Ok(true) => {
            return Err(CreateError::TargetExists(staged.display_path.clone()));
        },
        Ok(false) => {},
    }
    match content_path {
        Ok(place) => Ok(place),
        Err(message) => Err(
            CreateError::WriteFile { path: staged.display_path.clone(), message },
        ),
    }
}

/// A new file as it is staged in a virtual mount.
#[derive(Debug, PartialEq, Eq)]
pub struct NewVirtualFile {
    pub mount_id: String,
    pub local_id: String,
    pub parent_remote_id: Option<String>,
    pub projected_path: String,
    pub title: String,
    pub content_path: String,
    pub created_at: String,
    pub updated_at: String,
}

/// What a staged file is titled after: a schema file after its directory, any
/// other after the path on display.
pub open spec fn staged_title(
    style: PathStyle,
    display_path: Seq<char>,
    projected_path: Seq<char>,
) -> Seq<char> {
    let named = if paths::last_name(
        paths::components(style, projected_path),
    ) == Some("_schema.yaml"@) {
        match paths::parent_of(style, projected_path) {
            Some(parent) => paths::last_name(paths::components(style, parent)),
            None => None,
        }
    } else {
        paths::last_name(paths::components(style, display_path))
    };
    match named {
        Some(name) => name,
        None => "Untitled"@,
    }
}

/// A staged file as the store keeps it.
pub fn virtual_file_record(
    style: PathStyle,
    staged: StagedFile,
    mount_id: &str,
    content_path: String,
    local_id: String,
    now: String,
) -> (r: NewVirtualFile)
    ensures
        r.mount_id@ == mount_id@,
        r.local_id == local_id,
        r.parent_remote_id == staged.parent_remote_id,
        r.projected_path == staged.projected_path,
        r.title@ == staged_title(style, staged.display_path@, staged.projected_path@),
        r.content_path == content_path,
        r.created_at == now,
        r.updated_at == now,
{
    let is_schema = match paths::file_name(style, &staged.projected_path) {
        Some(name) => text::same_text(&name, "_schema.yaml"),
        None => false,
    };
    let named = if is_schema {
        match paths::parent(style, &staged.projected_path) {
            Some(parent) => paths::file_name(style, &parent),
            None => None,
        }
    } else {
        paths::file_name(style, &staged.display_path)
    };
    let title = match named {
        Some(name) => name,
        None => "Untitled".to_string(),
    };
    NewVirtualFile {
        mount_id: mount_id.to_string(),
        local_id,
        parent_remote_id: staged.parent_remote_id,
        projected_path: staged.projected_path,
        title,
        content_path,
        created_at: now.clone(),
        updated_at: now,
    }
}

/// The local identifier of a created page, of the process, the time in
/// nanoseconds and a counter.
pub fn local_create_id(process: u32, nanos: u128, counter: u64) -> (r: String)
    ensures
        r@ == "local:create-page-"@ + text::decimal(process as nat) + "-"@ + text::decimal(
            nanos as nat,
        ) + "-"@ + text::decimal(counter as nat),
{
    let mut id = "local:create-page-".to_string();
    id.append(&text::decimal_text(process as u128));
    id.append("-");
    id.append(&text::decimal_text(nanos));
    id.append("-");
    id.append(&text::decimal_text(counter as u128));
    id
}

/// A time in milliseconds as the store keeps it; zero where the clock stands
/// before its epoch.
pub fn timestamp_string(millis: Option<u128>) -> (r: String)
    ensures
        r@ == (match millis {
            Some(ms) => "unix_ms:"@ + text::decimal(ms as nat),
            None => "unix_ms:0"@,
        }),
{
    match millis {
        Some(ms) => {
            let mut out = "unix_ms:".to_string();
            out.append(&text::decimal_text(ms));
            out
        },
        None => "unix_ms:0".to_string(),
    }
}

} // verus!
