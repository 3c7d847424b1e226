//! What a reply answers.
use crate::create::{CreateError, CreateGmailReplyReport, DraftFile};
use crate::model::MountConfig;
use crate::paths;
use crate::paths::PathStyle;
use crate::quoting;
use crate::reply;
use crate::reply::ReplyMessage;
use crate::text;
use vstd::prelude::*;

verus! {

/// Whether a message is the one that a selector names: by its path, its file name, its path
/// within the thread, or its identifier.
pub open spec fn is_named(
    style: PathStyle,
    message: ReplyMessage,
    thread: Seq<char>,
    selector: Seq<char>,
) -> bool {
    let path = paths::components(style, message.path@);
    let given = paths::components(style, selector);
    let within = paths::components(style, thread);
    ||| path == given
    ||| paths::last_name(path) == paths::last_name(given)
    ||| path.len() >= within.len() && path.take(within.len() as int) == within && path.skip(
        within.len() as int,
    ) == given
    ||| message.message_id@ == selector
}

proof fn lemma_first_meant(
    style: PathStyle,
    messages: Seq<ReplyMessage>,
    thread: Seq<char>,
    selector: Seq<char>,
    i: int,
)
    requires
        0 <= i <= messages.len(),
    ensures
        match reply::first_meant(style, messages, thread, selector, i) {
            Some(k) => i <= k < messages.len() && reply::is_meant(
                style,
                messages[k],
                thread,
                selector,
            ) && forall|j: int|
                i <= j < k ==> !reply::is_meant(style, #[trigger] messages[j], thread, selector),
            None => forall|j: int|
                i <= j < messages.len() ==> !reply::is_meant(
                    style,
                    #[trigger] messages[j],
                    thread,
                    selector,
                ),
        },
    decreases messages.len() - i,
{
    if i < messages.len() && !reply::is_meant(style, messages[i], thread, selector) {
        lemma_first_meant(style, messages, thread, selector, i + 1);
    }
}

proof fn lemma_named(
    style: PathStyle,
    message: ReplyMessage,
    thread: Seq<char>,
    selector: Seq<char>,
)
    ensures
        reply::is_meant(style, message, thread, selector) == is_named(
            style,
            message,
            thread,
            selector,
        ),
{
    let path = paths::components(style, message.path@);
    let within = paths::components(style, thread);
    if paths::is_below(path, within) {
        assert(path.take(within.len() as int) =~= within);
    }
    if path.len() >= within.len() && path.take(within.len() as int) == within {
        assert(paths::is_below(path, within));
    }
}

/// A reply answers the first message that its selector names and, without one, a message than
/// which none of the thread came later.
pub proof fn law_replies_answer_the_message_that_was_meant(
    style: PathStyle,
    messages: Seq<ReplyMessage>,
    thread: Seq<char>,
    selector: Option<Seq<char>>,
)
    requires
        reply::reply_refusal(style, messages, thread, selector) is None,
    ensures
        ({
            let k = reply::selected(style, messages, thread, selector)->0;
            &&& 0 <= k < messages.len()
            &&& match selector {
                Some(s) => is_named(style, messages[k], thread, s) && forall|j: int|
                    0 <= j < k ==> !is_named(style, #[trigger] messages[j], thread, s),
                None => forall|j: int|
                    0 <= j < messages.len() ==> reply::received_at(#[trigger] messages[j])
                        <= reply::received_at(messages[k]),
            }
        }),
{
    let k = reply::selected(style, messages, thread, selector)->0;
    match selector {
        Some(s) => {
            lemma_first_meant(style, messages, thread, s, 0);
            lemma_named(style, messages[k], thread, s);
            assert forall|j: int| 0 <= j < k implies !is_named(
                style,
                #[trigger] messages[j],
                thread,
                s,
            ) by {
                lemma_named(style, messages[j], thread, s);
            }
        },
        None => {
            reply::law_newest_is_last(messages, 0);
            assert forall|j: int| 0 <= j < messages.len() implies reply::received_at(
                #[trigger] messages[j],
            ) <= reply::received_at(messages[k]) by {
                reply::law_newest_is_last(messages, j);
            }
        },
    }
}

/// A reply is written exactly where a message is meant, all messages are of one thread, and the
/// message says whom to answer and what about.
pub proof fn law_replies_are_written_where_they_can_be(
    style: PathStyle,
    messages: Seq<ReplyMessage>,
    thread: Seq<char>,
    selector: Option<Seq<char>>,
)
    ensures
        reply::reply_refusal(style, messages, thread, selector) is None <==> {
            &&& messages.len() > 0
            &&& reply::selected(style, messages, thread, selector) matches Some(k)
            &&& forall|i: int|
                0 <= i < messages.len() ==> text::trimmed((#[trigger] messages[i]).thread_id@)
                    == text::trimmed(messages[k].thread_id@)
            &&& text::trimmed(messages[k].from@).len() > 0 || (
            messages[k].reply_to matches Some(address) && text::trimmed(address@).len() > 0)
            &&& text::trimmed(messages[k].subject@).len() > 0
        },
{
}

/// A selector that names no message gets no reply.
pub proof fn law_unknown_messages_get_no_reply(
    style: PathStyle,
    messages: Seq<ReplyMessage>,
    thread: Seq<char>,
    selector: Seq<char>,
)
    requires
        forall|j: int|
            0 <= j < messages.len() ==> !is_named(
                style,
                #[trigger] messages[j],
                thread,
                selector,
            ),
    ensures
        reply::reply_refusal(style, messages, thread, Some(selector)) is Some,
{
    lemma_first_meant(style, messages, thread, selector, 0);
    if let Some(k) = reply::first_meant(style, messages, thread, selector, 0) {
        lemma_named(style, messages[k], thread, selector);
        assert(!is_named(style, messages[k], thread, selector));
    }
}

/// A reply goes to the address that the message asks for, and else to its sender.
pub proof fn law_replies_go_to_whom_the_message_names(message: ReplyMessage)
    ensures
        message.reply_to is Some && text::trimmed(message.reply_to->0@).len() > 0
            ==> reply::recipient_of(message) == text::trimmed(message.reply_to->0@),
        (message.reply_to is None || text::trimmed(message.reply_to->0@).len() == 0)
            ==> reply::recipient_of(message) == text::trimmed(message.from@),
{
}

/// The references of a reply are those of its message, in their order, with the message itself
/// behind them unless it is there.
pub proof fn law_replies_keep_the_references(message: ReplyMessage)
    ensures
        ({
            let r = reply::references_of(message);
            let n = message.references@.len() as int;
            let own = text::trimmed(message.rfc_message_id@);
            &&& n <= r.len() <= n + 1
            &&& forall|i: int| 0 <= i < n ==> r[i] == (#[trigger] message.references@[i])@
            &&& r.len() == n + 1 ==> r.last() == own
            &&& r.len() == n ==> exists|i: int|
                0 <= i < n && (#[trigger] message.references@[i])@ == own
        }),
{
    let before = text::texts(message.references@);
    let own = text::trimmed(message.rfc_message_id@);
    let r = reply::references_of(message);
    assert forall|i: int| 0 <= i < before.len() implies r[i] == (#[trigger] message.references@[i])@ by {
        assert(before[i] == message.references@[i]@);
    }
    if before.contains(own) {
        let i = choose|i: int| 0 <= i < before.len() && before[i] == own;
        assert(message.references@[i]@ == own);
    }
}

/// The draft of a reply stands among the drafts of the mount and is addressed to whom the
/// message names, with its subject, its thread and its identifiers; the report tells the same.
pub proof fn law_reply_drafts_answer_their_message(
    style: PathStyle,
    draft: DraftFile,
    report: CreateGmailReplyReport,
    message: ReplyMessage,
    mount: MountConfig,
    stamp: u128,
    counter: u64,
)
    requires
        reply::is_reply_draft(style, draft, message, mount, stamp, counter),
        reply::is_reply_report(report, message, mount, draft.path@),
    ensures
        draft.directory@ == paths::joined(style, mount.root@, "draft"@),
        draft.path@ == paths::joined(
            style,
            draft.directory@,
            reply::draft_name(text::trimmed(message.subject@), stamp, counter),
        ),
        draft.body@ == "---\nto: "@ + in_quotes(reply::recipient_of(message)) + "\nsubject: "@
            + in_quotes(text::trimmed(message.subject@)) + "\ngmail:\n  thread_id: "@ + in_quotes(
            text::trimmed(message.thread_id@),
        ) + "\n  reply_to_message_id: "@ + in_quotes(message.message_id@) + "\n  in_reply_to: "@
            + in_quotes(text::trimmed(message.rfc_message_id@)) + "\n  references:\n"@
            + reply::reference_lines(reply::references_of(message)) + "---\n\n"@,
        draft.staged is Some <==> !(mount.projection is PlainFiles),
        draft.staged matches Some(staged) ==> {
            &&& staged.display_path@ == draft.path@
            &&& Some(staged.projected_path@) == paths::below(style, mount.root@, draft.path@)
            &&& text::opt_text(staged.parent_remote_id) == Some("gmail-folder:draft"@)
        },
        report.ok,
        report.path@ == draft.path@,
        report.mount_id@ == mount.mount_id@,
        report.thread_id@ == text::trimmed(message.thread_id@),
        report.reply_to_message_id@ == message.message_id@,
        report.recipient@ == reply::recipient_of(message),
        report.subject@ == text::trimmed(message.subject@),
{
}

/// A text in double quotes, as YAML reads it.
pub open spec fn in_quotes(value: Seq<char>) -> Seq<char> {
    seq!['"'] + quoting::Expansion::Yaml.expand(value) + seq!['"']
}

/// Each reference stands on a line of its own.
pub proof fn law_references_stand_on_lines_of_their_own(
    references: Seq<Seq<char>>,
    last: Seq<char>,
)
    ensures
        reply::reference_lines(Seq::empty()) == Seq::<char>::empty(),
        reply::reference_lines(references.push(last)) == reply::reference_lines(references)
            + "    - "@ + in_quotes(last) + "\n"@,
{
    assert(references.push(last).drop_last() =~= references);
}

/// Replies are to threads in the inbox or among what was sent, and to nothing else.
pub proof fn law_replies_are_to_mail(style: PathStyle, relative: Seq<char>)
    ensures
        reply::is_in_mail_folder(style, relative) <==> {
            &&& paths::components(style, relative).len() > 0
            &&& paths::components(style, relative)[0] matches paths::Component::Normal(name)
            &&& name == "inbox"@ || name == "sent"@
        },
{
}

/// A message can be answered exactly where the thread, the message and its name in mail headers
/// are all known.
pub proof fn law_messages_need_their_identifiers(message: ReplyMessage)
    ensures
        reply::can_be_answered(message) <==> text::trimmed(message.thread_id@).len() > 0
            && text::trimmed(message.message_id@).len() > 0 && text::trimmed(
            message.rfc_message_id@,
        ).len() > 0,
{
}

/// A thread is its directory, also where its page was named.
pub proof fn law_threads_are_directories(style: PathStyle, path: Seq<char>)
    ensures
        ({
            let is_page = paths::last_name(paths::components(style, path)) == Some("page.md"@);
            &&& is_page ==> reply::thread_directory(style, path) == paths::parent_of(style, path)
            &&& !is_page ==> reply::thread_directory(style, path) == Some(path)
        }),
{
}

/// A reply that cannot be written is refused with the reason.
pub proof fn law_refused_replies_say_why(error: CreateError, message: Seq<char>)
    requires
        reply::refuses_reply(error, message),
    ensures
        error matches CreateError::InvalidReply(why) && why@ == message,
{
}

} // verus!
