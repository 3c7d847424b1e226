//! Replies to mail threads: which message is answered, to whom, and what the
//! draft says.
use vstd::prelude::*;

use crate::create;
use crate::create::{
    CreateError, CreateGmailReplyReport, DraftFile, StagedFile, MAX_GMAIL_REPLY_FILENAME_BYTES,
    PAGE_DOCUMENT_FILENAME,
};
use crate::model::MountConfig;
use crate::paths;
use crate::paths::{PathComponent, PathStyle};
use crate::quoting;
use crate::sorting;
use crate::text;

verus! {

/// A message of a thread, with what its metadata say.
#[derive(Debug, PartialEq, Eq)]
pub struct ReplyMessage {
    pub path: String,
    pub from: String,
    pub subject: String,
    pub message_id: String,
    pub thread_id: String,
    pub rfc_message_id: String,
    pub reply_to: Option<String>,
    pub references: Vec<String>,
    pub internal_date: Option<String>,
}

/// What stands between the two fences in front of a document.
pub open spec fn frontmatter(markdown: Seq<char>) -> Option<Seq<char>> {
    if text::begins_with(markdown, "---\n"@) {
        let rest = markdown.skip("---\n"@.len() as int);
        match text::found_from(rest, "\n---"@, 0) {
            Some(end) => Some(rest.take(end)),
            None => None,
        }
    } else {
        None
    }
}

/// What stands between the two fences in front of a document.
pub fn markdown_frontmatter(markdown: &str) -> (r: Option<String>)
    ensures
        text::opt_text(r) == frontmatter(markdown@),
{
    let all = text::chars_of(markdown);
    let fence = text::chars_of("---\n");
    if !text::matches_at(&all, &fence, 0) {
        return None;
    }
    let rest = text::char_range(&all, fence.len(), all.len());
    assert(rest@ =~= markdown@.skip("---\n"@.len() as int));
    match text::find_from(&rest, &text::chars_of("\n---"), 0) {
        Some(end) => {
            let inner = text::string_of_range(&rest, 0, end);
            assert(inner@ =~= rest@.take(end as int));
            Some(inner)
        },
        None => None,
    }
}

/// Whether a file of a thread's directory can be a message: a Markdown file
/// other than the document of the thread itself.
pub open spec fn is_message_path(style: PathStyle, path: Seq<char>) -> bool {
    paths::last_name(
        paths::components(style, path),
    ) != Some("page.md"@) && paths::extension_of(style, path)
        == Some("md"@)
}

/// Whether a file of a thread's directory can be a message.
pub fn is_message_file(style: PathStyle, path: &str) -> (r: bool)
    ensures
        r == is_message_path(style, path@),
{
    let is_document = match paths::file_name(style, path) {
        Some(name) => text::same_text(&name, PAGE_DOCUMENT_FILENAME),
        None => false,
    };
    !is_document && match paths::extension(style, path) {
        Some(extension) => text::same_text(&extension, "md"),
        None => false,
    }
}

/// Whether a message can be answered: it names its thread and itself.
pub open spec fn can_be_answered(message: ReplyMessage) -> bool {
    &&& text::trimmed(message.thread_id@).len() > 0
    &&& text::trimmed(message.message_id@).len() > 0
    &&& text::trimmed(message.rfc_message_id@).len() > 0
}

/// Whether a message can be answered.
pub fn is_answerable(message: &ReplyMessage) -> (r: bool)
    ensures
        r == can_be_answered(*message),
{
    !text::trim(&message.thread_id).as_str().is_empty() && !text::trim(
        &message.message_id,
    ).as_str().is_empty() && !text::trim(&message.rfc_message_id).as_str().is_empty()
}

/// When a message was received, in milliseconds; zero where it does not say.
pub open spec fn received_at(message: ReplyMessage) -> u64 {
    match message.internal_date {
        Some(date) => match text::parsed_u64(date@) {
            Some(ms) => ms,
            None => 0,
        },
        None => 0,
    }
}

/// Whether a message does not come after another: by the time, then by the
/// path.
pub open spec fn not_after(a: ReplyMessage, b: ReplyMessage) -> bool {
    received_at(a) < received_at(b) || received_at(a) == received_at(b) && sorting::text_le(
        a.path@,
        b.path@,
    )
}

fn received(message: &ReplyMessage) -> (r: u64)
    ensures
        r == received_at(*message),
{
    match &message.internal_date {
        Some(date) => match text::parse_u64(date) {
            Some(ms) => ms,
            None => 0,
        },
        None => 0,
    }
}

/// Which message is the newest; the last of those that are.
pub open spec fn newest(messages: Seq<ReplyMessage>) -> int
    decreases messages.len(),
{
    if messages.len() <= 1 {
        0
    } else {
        let before = newest(messages.drop_last());
        if not_after(messages[before], messages.last()) {
            messages.len() - 1
        } else {
            before
        }
    }
}

proof fn lemma_not_after_total(a: ReplyMessage, b: ReplyMessage)
    ensures
        not_after(a, b) || not_after(b, a),
{
    sorting::lemma_text_le_total(a.path@, b.path@);
}

proof fn lemma_not_after_transitive(a: ReplyMessage, b: ReplyMessage, c: ReplyMessage)
    requires
        not_after(a, b),
        not_after(b, c),
    ensures
        not_after(a, c),
{
    if received_at(a) == received_at(b) && received_at(b) == received_at(c) {
        sorting::lemma_text_le_transitive(a.path@, b.path@, c.path@);
    }
}

/// No message of a thread comes after the newest one.
pub proof fn law_newest_is_last(messages: Seq<ReplyMessage>, i: int)
    requires
        0 <= i < messages.len(),
    ensures
        0 <= newest(messages) < messages.len(),
        not_after(messages[i], messages[newest(messages)]),
    decreases messages.len(),
{
    lemma_not_after_total(messages[i], messages[i]);
    if messages.len() > 1 {
        let front = messages.drop_last();
        let before = newest(front);
        if i < messages.len() - 1 {
            law_newest_is_last(front, i);
            assert(front[i] == messages[i] && front[before] == messages[before]);
            if not_after(messages[before], messages.last()) {
                lemma_not_after_transitive(messages[i], messages[before], messages.last());
            }
        } else {
            law_newest_is_last(front, 0);
            lemma_not_after_total(messages[before], messages.last());
        }
    }
}

fn newest_of(messages: &Vec<ReplyMessage>) -> (r: usize)
    requires
        messages.len() > 0,
    ensures
        r == newest(messages@),
        r < messages.len(),
{
    let mut best: usize = 0;
    let mut i: usize = 1;
    while i < messages.len()
        invariant
            1 <= i <= messages.len(),
            best < i,
            best == newest(messages@.take(i as int)),
        decreases messages.len() - i,
    {
        assert(messages@.take(i + 1).drop_last() == messages@.take(i as int));
        let a = &messages[best];
        let b = &messages[i];
        let at: u64 = received(a);
        let bt: u64 = received(b);
        if at < bt || at == bt && sorting::text_not_after(&a.path, &b.path) {
            best = i;
        }
        i += 1;
    }
    assert(messages@.take(i as int) == messages@);
    best
}

/// Whether a selector means a message: by its path, its file name, its path in
/// the thread or its identifier.
pub open spec fn is_meant(
    style: PathStyle,
    message: ReplyMessage,
    thread: Seq<char>,
    selector: Seq<char>,
) -> bool {
    ||| paths::same(style, message.path@, selector)
    ||| paths::last_name(paths::components(style, message.path@)) == paths::last_name(
        paths::components(style, selector),
    )
    ||| paths::is_below(paths::components(style, message.path@), paths::components(style, thread))
        && paths::components(style, message.path@).skip(
            paths::components(style, thread).len() as int,
        )
        == paths::components(style, selector)
    ||| message.message_id@ == selector
}

/// The first message that a selector means, at or behind position `i`.
pub open spec fn first_meant(
    style: PathStyle,
    messages: Seq<ReplyMessage>,
    thread: Seq<char>,
    selector: Seq<char>,
    i: int,
) -> Option<int>
    decreases messages.len() - i,
{
    if i >= messages.len() {
        None
    } else if is_meant(style, messages[i], thread, selector) {
        Some(i)
    } else {
        first_meant(style, messages, thread, selector, i + 1)
    }
}

fn means(
    style: PathStyle,
    message: &ReplyMessage,
    thread: &Vec<PathComponent>,
    selector: &str,
) -> (r: bool)
    ensures
        forall|t: Seq<char>|
            #![trigger paths::components(style, t)]
            paths::views(thread@) == paths::components(style, t) ==> r == is_meant(
                style,
                *message,
                t,
                selector@,
            ),
{
    let own = paths::components_of(style, &message.path);
    let asked = paths::components_of(style, selector);
    if paths::same_components(&own, &asked) {
        return true;
    }
    if text::same_option(
        &paths::file_name(style, &message.path),
        &paths::file_name(style, selector),
    ) {
        return true;
    }
    if text::same_text(&message.message_id, selector) {
        return true;
    }
    if !paths::begins_with_components(&own, thread) || own.len() - thread.len() != asked.len() {
        return false;
    }
    let n: usize = thread.len();
    let ghost rest = paths::views(own@).skip(n as int);
    let mut i: usize = 0;
    while i < asked.len()
        invariant
            i <= asked.len(),
            n <= own.len(),
            own.len() - n == asked.len(),
            rest == paths::views(own@).skip(n as int),
            forall|k: int| 0 <= k < i ==> rest[k] == paths::views(asked@)[k],
        decreases asked.len() - i,
    {
        if !paths::same_component(&own[n + i], &asked[i]) {
            assert(rest[i as int] != paths::views(asked@)[i as int]);
            break;
        }
        i += 1;
    }
    assert(i == asked.len() ==> rest =~= paths::views(asked@));
    i == asked.len()
}

fn find_meant(
    style: PathStyle,
    messages: &Vec<ReplyMessage>,
    thread: &str,
    selector: &str,
) -> (r: Option<usize>)
    ensures
        match r {
            Some(k) => k < messages.len() && first_meant(style, messages@, thread@, selector@, 0)
                == Some(k as int),
            None => first_meant(style, messages@, thread@, selector@, 0) is None,
        },
{
    let place = paths::components_of(style, thread);
    let mut i: usize = 0;
    while i < messages.len()
        invariant
            i <= messages.len(),
            paths::views(place@) == paths::components(style, thread@),
            first_meant(style, messages@, thread@, selector@, 0) == first_meant(
                style,
                messages@,
                thread@,
                selector@,
                i as int,
            ),
        decreases messages.len() - i,
    {
        if means(style, &messages[i], &place, selector) {
            return Some(i);
        }
        i += 1;
    }
    None
}

/// Whether a reply is refused in these words.
pub open spec fn refuses_reply(error: CreateError, message: Seq<char>) -> bool {
    error matches CreateError::InvalidReply(m) && m@ == message
}

/// The directory of a thread: that of the document, where the path is of one.
pub open spec fn thread_directory(style: PathStyle, path: Seq<char>) -> Option<Seq<char>> {
    if paths::last_name(paths::components(style, path)) == Some("page.md"@) {
        paths::parent_of(style, path)
    } else {
        Some(path)
    }
}

/// The directory of the thread at a path, below the current directory where the
/// path is relative.
pub fn reply_thread(
    style: PathStyle,
    thread: &str,
    current_dir: &Result<String, String>,
) -> (r: Result<
    String,
    CreateError,
>)
    ensures
        match create::parent_text(style, Some(thread@), *current_dir) {
            None => r matches Err(CreateError::CurrentDir { message }) && *current_dir matches Err(
                why,
            ) && message@ == why@,
            Some(path) => match thread_directory(style, path) {
                Some(directory) => r matches Ok(t) && t@ == directory,
                None => r matches Err(e) && refuses_reply(
                    e,
                    "thread page has no parent directory"@,
                ),
            },
        },
{
    let path = match create::absolute_path(style, thread, current_dir) {
        Ok(path) => path,
        Err(e) => {
            return Err(e);
        },
    };
    let is_document = match paths::file_name(style, &path) {
        Some(name) => text::same_text(&name, PAGE_DOCUMENT_FILENAME),
        None => false,
    };
    if is_document {
        match paths::parent(style, &path) {
            Some(directory) => Ok(directory),
            None => Err(
                CreateError::InvalidReply("thread page has no parent directory".to_string()),
            ),
        }
    } else {
        Ok(path)
    }
}

/// Whether a relative path is in the folder of received or of sent mail.
pub open spec fn is_in_mail_folder(style: PathStyle, relative: Seq<char>) -> bool {
    let c = paths::components(style, relative);
    c.len() > 0 && (c[0] == paths::Component::Normal("inbox"@) || c[0]
        == paths::Component::Normal("sent"@))
}

/// Whether a thread can be answered where it is: in a mount that is found and
/// writable and one of Gmail, in a folder of received or sent mail.
pub fn check_reply_thread(
    style: PathStyle,
    mount: Option<&MountConfig>,
    thread: &str,
) -> (r: Result<(), CreateError>)
    ensures
        match mount {
            None => r matches Err(CreateError::MountNotFound(p)) && p@ == thread@,
            Some(m) => if m.read_only {
                r matches Err(CreateError::ReadOnlyMount { mount_id }) && mount_id@ == m.mount_id@
            } else if m.connector@ != "gmail"@ {
                r matches Err(CreateError::GmailReplyUnsupported { connector }) && connector@
                    == m.connector@
            } else {
                match paths::below(style, m.root@, thread@) {
                    None => r matches Err(e) && create::is_outside(e, thread@),
                    Some(relative) => if is_in_mail_folder(style, relative) {
                        r is Ok
                    } else {
                        r matches Err(e) && refuses_reply(
                            e,
                            "Gmail replies must target an inbox/ or sent/ thread directory"@,
                        )
                    },
                }
            },
        },
{
    let mount = match mount {
        Some(mount) => mount,
        None => {
            return Err(CreateError::MountNotFound(thread.to_string()));
        },
    };
    if mount.read_only {
        return Err(CreateError::ReadOnlyMount { mount_id: mount.mount_id.clone() });
    }
    if !text::same_text(&mount.connector, "gmail") {
        return Err(CreateError::GmailReplyUnsupported { connector: mount.connector.clone() });
    }
    let relative = match create::relative_path(style, mount, thread) {
        Ok(relative) => relative,
        Err(e) => {
            return Err(e);
        },
    };
    let c = paths::components_of(style, &relative);
    if c.len() > 0 {
        assert(paths::views(c@)[0] == c@[0]@);
        if let PathComponent::Normal(folder) = &c[0] {
            if text::same_text(folder, "inbox") || text::same_text(folder, "sent") {
                return Ok(());
            }
        }
    }
    Err(
        CreateError::InvalidReply(
            "Gmail replies must target an inbox/ or sent/ thread directory".to_string(),
        ),
    )
}

/// A text between double quotes in YAML.
pub open spec fn yaml_quoted(value: Seq<char>) -> Seq<char> {
    quoting::between('"', quoting::Expansion::Yaml.expand(value))
}

/// The references of a reply, a line each.
pub open spec fn reference_lines(references: Seq<Seq<char>>) -> Seq<char>
    decreases references.len(),
{
    if references.len() == 0 {
        Seq::empty()
    } else {
        reference_lines(references.drop_last()) + "    - "@ + yaml_quoted(references.last())
            + "\n"@
    }
}

/// The draft of a reply.
pub open spec fn reply_body(
    recipient: Seq<char>,
    subject: Seq<char>,
    thread_id: Seq<char>,
    reply_to_message_id: Seq<char>,
    in_reply_to: Seq<char>,
    references: Seq<Seq<char>>,
) -> Seq<char> {
    "---\nto: "@ + yaml_quoted(recipient) + "\nsubject: "@ + yaml_quoted(subject)
        + "\ngmail:\n  thread_id: "@ + yaml_quoted(thread_id) + "\n  reply_to_message_id: "@
        + yaml_quoted(reply_to_message_id) + "\n  in_reply_to: "@ + yaml_quoted(in_reply_to)
        + "\n  references:\n"@ + reference_lines(references) + "---\n\n"@
}

/// The draft of a reply.
pub fn gmail_reply_markdown(
    recipient: &str,
    subject: &str,
    thread_id: &str,
    reply_to_message_id: &str,
    in_reply_to: &str,
    references: &Vec<String>,
) -> (r: String)
    ensures
        r@ == reply_body(
            recipient@,
            subject@,
            thread_id@,
            reply_to_message_id@,
            in_reply_to@,
            text::texts(references@),
        ),
{
    let mut out = "---\nto: ".to_string();
    out.append(&quoting::yaml_double_quoted(recipient));
    out.append("\nsubject: ");
    out.append(&quoting::yaml_double_quoted(subject));
    out.append("\ngmail:\n  thread_id: ");
    out.append(&quoting::yaml_double_quoted(thread_id));
    out.append("\n  reply_to_message_id: ");
    out.append(&quoting::yaml_double_quoted(reply_to_message_id));
    out.append("\n  in_reply_to: ");
    out.append(&quoting::yaml_double_quoted(in_reply_to));
    out.append("\n  references:\n");
    let ghost head = out@;
    let ghost all = text::texts(references@);
    assert(all.take(0) == Seq::<Seq<char>>::empty());
    assert(head + reference_lines(all.take(0)) =~= head);
    let mut i: usize = 0;
    while i < references.len()
        invariant
            i <= references.len(),
            all == text::texts(references@),
            out@ == head + reference_lines(all.take(i as int)),
        decreases references.len() - i,
    {
        assert(all.take(i + 1).drop_last() == all.take(i as int));
        out.append("    - ");
        out.append(&quoting::yaml_double_quoted(&references[i]));
        out.append("\n");
        assert(out@ =~= head + reference_lines(all.take(i + 1)));
        i += 1;
    }
    assert(all.take(i as int) == all);
    out.append("---\n\n");
    out
}

/// What stands before the subject in the name of a reply draft.
pub open spec fn draft_prefix(stamp: u128, counter: u64) -> Seq<char> {
    "reply-"@ + text::decimal(stamp as nat) + "-"@ + text::decimal(counter as nat) + "-"@
}

/// The name of a reply draft: of the time, a counter and as much of the subject
/// as there is room for.
pub open spec fn draft_name(subject: Seq<char>, stamp: u128, counter: u64) -> Seq<char> {
    let prefix = draft_prefix(stamp, counter);
    let room = MAX_GMAIL_REPLY_FILENAME_BYTES - vstd::utf8::encode_utf8(prefix).len() - 3;
    prefix + text::fitted(
        create::directory_name(subject),
        if room < 0 {
            0
        } else {
            room as nat
        },
    ) + ".md"@
}

/// Where a reply draft goes. `stamp` is the time in nanoseconds, and `counter`
/// tells apart the drafts of one moment.
pub fn unique_reply_draft_path(
    style: PathStyle,
    draft_dir: &str,
    subject: &str,
    stamp: u128,
    counter: u64,
) -> (r:
    String)
    ensures
        r@ == paths::joined(style, draft_dir@, draft_name(subject@, stamp, counter)),
{
    let mut name = "reply-".to_string();
    name.append(&text::decimal_text(stamp));
    name.append("-");
    name.append(&text::decimal_text(counter as u128));
    name.append("-");
    let used: usize = name.as_str().as_bytes().len();
    let room: usize = if used <= MAX_GMAIL_REPLY_FILENAME_BYTES - 3 {
        MAX_GMAIL_REPLY_FILENAME_BYTES - used - 3
    } else {
        0
    };
    let slug = text::fit(&create::page_directory_name_for_title(subject), room);
    name.append(&slug);
    name.append(".md");
    paths::join(style, draft_dir, &name)
}

/// The name of a reply draft never takes more bytes than a name may.
pub proof fn law_draft_name_is_bounded(subject: Seq<char>, stamp: u128, counter: u64)
    ensures
        vstd::utf8::encode_utf8(draft_name(subject, stamp, counter)).len()
            <= MAX_GMAIL_REPLY_FILENAME_BYTES,
{
    let prefix = draft_prefix(stamp, counter);
    let s = text::decimal(stamp as nat);
    let c = text::decimal(counter as nat);
    reveal_strlit("reply-");
    reveal_strlit("-");
    reveal_strlit(".md");
    text::lemma_decimal_len(stamp as nat);
    text::lemma_decimal_len(counter as nat);
    lemma_short("reply-"@);
    lemma_short("-"@);
    lemma_short(".md"@);
    text::lemma_byte_len_concat("reply-"@, s);
    text::lemma_byte_len_concat("reply-"@ + s, "-"@);
    text::lemma_byte_len_concat("reply-"@ + s + "-"@, c);
    text::lemma_byte_len_concat("reply-"@ + s + "-"@ + c, "-"@);
    text::lemma_byte_len(prefix);
    let room = MAX_GMAIL_REPLY_FILENAME_BYTES - vstd::utf8::encode_utf8(prefix).len() - 3;
    assert(room >= 0);
    let slug = text::fitted(create::directory_name(subject), room as nat);
    text::lemma_fitted(create::directory_name(subject), room as nat);
    text::lemma_byte_len_concat(prefix, slug);
    text::lemma_byte_len_concat(prefix + slug, ".md"@);
    text::lemma_byte_len(draft_name(subject, stamp, counter));
}

proof fn lemma_short(s: Seq<char>)
    requires
        forall|i: int| 0 <= i < s.len() ==> #[trigger] s[i] <= '\u{7f}',
    ensures
        text::byte_len(s) == s.len(),
    decreases s.len(),
{
    if s.len() > 0 {
        assert forall|i: int| 0 <= i < s.drop_last().len() implies #[trigger] s.drop_last()[i]
            <= '\u{7f}' by {
            assert(s.drop_last()[i] == s[i]);
        }
        lemma_short(s.drop_last());
        assert(s[s.len() - 1] <= '\u{7f}');
    }
}

/// The message that is answered: the first that is meant, or the newest.
pub open spec fn selected(
    style: PathStyle,
    messages: Seq<ReplyMessage>,
    thread: Seq<char>,
    selector: Option<Seq<char>>,
) -> Option<int> {
    match selector {
        Some(s) => first_meant(style, messages, thread, s, 0),
        None => Some(newest(messages)),
    }
}

/// Whether all messages belong to one thread.
pub open spec fn in_one_thread(messages: Seq<ReplyMessage>, thread_id: Seq<char>) -> bool {
    forall|i: int|
        0 <= i < messages.len() ==> text::trimmed((#[trigger] messages[i]).thread_id@) == thread_id
}

/// Whom a reply goes to: who asks for replies, else who wrote.
pub open spec fn recipient_of(message: ReplyMessage) -> Seq<char> {
    match message.reply_to {
        Some(address) if text::trimmed(address@).len() > 0 => text::trimmed(address@),
        _ => text::trimmed(message.from@),
    }
}

/// The references of a reply: those of the message, and the message itself
/// where it is not among them.
pub open spec fn references_of(message: ReplyMessage) -> Seq<Seq<char>> {
    let own = text::trimmed(message.rfc_message_id@);
    let before = text::texts(message.references@);
    if before.contains(own) {
        before
    } else {
        before.push(own)
    }
}

/// Why a reply is refused.
pub open spec fn reply_refusal(
    style: PathStyle,
    messages: Seq<ReplyMessage>,
    thread: Seq<char>,
    selector: Option<Seq<char>>,
) -> Option<Seq<char>> {
    if messages.len() == 0 {
        Some(
            "thread has no hydrated message files with Gmail reply metadata; open or pull a message first"@,
        )
    } else {
        match selected(style, messages, thread, selector) {
            None => Some(
                "no hydrated message in the thread matches `"@ + selector->0 + "`"@,
            ),
            Some(k) => if !in_one_thread(messages, text::trimmed(messages[k].thread_id@)) {
                Some("thread directory contains messages from different Gmail threads"@)
            } else if recipient_of(messages[k]).len() == 0 {
                Some("selected message has neither Reply-To nor From metadata"@)
            } else if text::trimmed(messages[k].subject@).len() == 0 {
                Some("selected message has no subject"@)
            } else {
                None
            },
        }
    }
}

/// Whether a draft is the reply to a message.
pub open spec fn is_reply_draft(
    style: PathStyle,
    draft: DraftFile,
    message: ReplyMessage,
    mount: MountConfig,
    stamp: u128,
    counter: u64,
) -> bool {
    let directory = paths::joined(style, mount.root@, "draft"@);
    let subject = text::trimmed(message.subject@);
    let path = paths::joined(style, directory, draft_name(subject, stamp, counter));
    &&& draft.directory@ == directory
    &&& draft.path@ == path
    &&& draft.body@ == reply_body(
        recipient_of(message),
        subject,
        text::trimmed(message.thread_id@),
        message.message_id@,
        text::trimmed(message.rfc_message_id@),
        references_of(message),
    )
    &&& match draft.staged {
        None => !mount.projection.uses_virtual_filesystem(),
        Some(staged) => {
            &&& mount.projection.uses_virtual_filesystem()
            &&& staged.display_path@ == path
            &&& Some(staged.projected_path@) == paths::below(style, mount.root@, path)
            &&& text::opt_text(staged.parent_remote_id) == Some("gmail-folder:draft"@)
        },
    }
}

/// Whether a report is of the reply to a message.
pub open spec fn is_reply_report(
    report: CreateGmailReplyReport,
    message: ReplyMessage,
    mount: MountConfig,
    path: Seq<char>,
) -> bool {
    &&& report.ok
    &&& report.command@ == "create_gmail_reply"@
    &&& report.kind@ == "gmail_reply_draft"@
    &&& report.path@ == path
    &&& report.mount_id@ == mount.mount_id@
    &&& report.thread_id@ == text::trimmed(message.thread_id@)
    &&& report.reply_to_message_id@ == message.message_id@
    &&& report.recipient@ == recipient_of(message)
    &&& report.subject@ == text::trimmed(message.subject@)
    &&& create::are_next_steps(report.next@, path)
}

fn all_in_thread(messages: &Vec<ReplyMessage>, thread_id: &str) -> (r: bool)
    ensures
        r == in_one_thread(messages@, thread_id@),
{
    let mut i: usize = 0;
    while i < messages.len()
        invariant
            i <= messages.len(),
            forall|k: int|
                0 <= k < i ==> text::trimmed((#[trigger] messages[k]).thread_id@) == thread_id@,
        decreases messages.len() - i,
    {
        if !text::same_text(&text::trim(&messages[i].thread_id), thread_id) {
            assert(text::trimmed(messages[i as int].thread_id@) != thread_id@);
            return false;
        }
        i += 1;
    }
    true
}

/// The draft of a reply and the report of it, or why there is none. `messages`
/// are those of the thread that can be answered; `stamp` and `counter` name the
/// draft.
pub fn run_create_gmail_reply(
    style: PathStyle,
    mount: &MountConfig,
    thread: &str,
    selector: &Option<String>,
    messages: &Vec<ReplyMessage>,
    state_root: &Option<String>,
    stamp: u128,
    counter: u64,
) -> (r: Result<(DraftFile, CreateGmailReplyReport), CreateError>)
    ensures
        match reply_refusal(style, messages@, thread@, text::opt_text(*selector)) {
            Some(why) => r matches Err(e) && refuses_reply(e, why),
            None => {
                let message = messages@[selected(
                    style,
                    messages@,
                    thread@,
                    text::opt_text(*selector),
                )->0];
                let path = paths::joined(
                    style,
                    paths::joined(style, mount.root@, "draft"@),
                    draft_name(text::trimmed(message.subject@), stamp, counter),
                );
                if mount.projection.uses_virtual_filesystem() && *state_root is None {
                    r matches Err(CreateError::VirtualStateRootRequired)
                } else if mount.projection.uses_virtual_filesystem() && paths::below(
                    style,
                    mount.root@,
                    path,
                ) is None {
                    r matches Err(e) && create::is_outside(e, path)
                } else {
                    r matches Ok(made) && is_reply_draft(
                        style,
                        made.0,
                        message,
                        *mount,
                        stamp,
                        counter,
                    )
                        && is_reply_report(made.1, message, *mount, path)
                }
            },
        },
{
    if messages.len() == 0 {
        return Err(
            CreateError::InvalidReply(
                "thread has no hydrated message files with Gmail reply metadata; open or pull a message first".to_string(),
            ),
        );
    }
    let index: usize = match selector {
        Some(selector) => match find_meant(style, messages, thread, selector) {
            Some(k) => k,
            None => {
                return Err(
                    CreateError::InvalidReply(
                        text::concat3(
                            "no hydrated message in the thread matches `",
                            selector,
                            "`",
                        ),
                    ),
                );
            },
        },
        None => newest_of(messages),
    };
    let message = &messages[index];
    let thread_id = text::trim(&message.thread_id);
    if !all_in_thread(messages, &thread_id) {
        return Err(
            CreateError::InvalidReply(
                "thread directory contains messages from different Gmail threads".to_string(),
            ),
        );
    }
    let asked = match &message.reply_to {
        Some(address) => text::trim(address),
        None => String::new(),
    };
    let recipient = if asked.as_str().is_empty() {
        text::trim(&message.from)
    } else {
        asked
    };
    if recipient.as_str().is_empty() {
        return Err(
            CreateError::InvalidReply(
                "selected message has neither Reply-To nor From metadata".to_string(),
            ),
        );
    }
    let subject = text::trim(&message.subject);
    if subject.as_str().is_empty() {
        return Err(CreateError::InvalidReply("selected message has no subject".to_string()));
    }
    let rfc_message_id = text::trim(&message.rfc_message_id);
    let mut references = text::clone_strings(&message.references);
    if !text::holds_text(&references, &rfc_message_id) {
        text::push_text(&mut references, &rfc_message_id);
    }
    let body = gmail_reply_markdown(
        &recipient,
        &subject,
        &thread_id,
        &message.message_id,
        &rfc_message_id,
        &references,
    );
    let directory = paths::join(style, &mount.root, "draft");
    let path = unique_reply_draft_path(style, &directory, &subject, stamp, counter);
    let staged = if mount.projection.uses_virtual_filesystem() {
        if state_root.is_none() {
            return Err(CreateError::VirtualStateRootRequired);
        }
        let projected_path = match create::relative_path(style, mount, &path) {
            Ok(relative) => relative,
            Err(e) => {
                return Err(e);
            },
        };
        Some(
            StagedFile {
                display_path: path.clone(),
                projected_path,
                parent_remote_id: Some("gmail-folder:draft".to_string()),
            },
        )
    } else {
        None
    };
    let next = create::next_steps(&path);
    let report = CreateGmailReplyReport {
        ok: true,
        command: "create_gmail_reply",
        kind: "gmail_reply_draft",
        path: path.clone(),
        mount_id: mount.mount_id.clone(),
        thread_id,
        reply_to_message_id: message.message_id.clone(),
        recipient,
        subject,
        next,
    };
    Ok((DraftFile { directory, path, body, staged }, report))
}

/// The references of a reply end up naming the message that is answered.
pub proof fn law_reply_refers_to_its_message(message: ReplyMessage)
    ensures
        references_of(message).contains(text::trimmed(message.rfc_message_id@)),
{
    let own = text::trimmed(message.rfc_message_id@);
    let before = text::texts(message.references@);
    if !before.contains(own) {
        assert(before.push(own)[before.len() as int] == own);
    }
}

} // verus!
