//! What the texts that commands read hold.
use crate::oauth;
use crate::paths;
use crate::reply;
use crate::text;
use vstd::prelude::*;

verus! {

/// Whether a text stands in another at a place.
pub open spec fn stands_at(s: Seq<char>, words: Seq<char>, i: int) -> bool {
    0 <= i && i + words.len() <= s.len() && forall|k: int|
        0 <= k < words.len() ==> s[i + k] == #[trigger] words[k]
}

proof fn lemma_stands(s: Seq<char>, words: Seq<char>, i: int)
    ensures
        stands_at(s, words, i) == text::occurs_at(s, words, i),
{
    if stands_at(s, words, i) {
        assert(s.subrange(i, i + words.len()) =~= words);
    }
    if text::occurs_at(s, words, i) {
        assert forall|k: int| 0 <= k < words.len() implies s[i + k] == #[trigger] words[k] by {
            assert(s.subrange(i, i + words.len())[k] == s[i + k]);
        }
    }
}

proof fn lemma_found_from(s: Seq<char>, words: Seq<char>, from: int)
    requires
        0 <= from,
    ensures
        match text::found_from(s, words, from) {
            Some(i) => from <= i && stands_at(s, words, i) && forall|k: int|
                from <= k < i ==> !#[trigger] stands_at(s, words, k),
            None => forall|k: int| from <= k ==> !#[trigger] stands_at(s, words, k),
        },
    decreases s.len() + 1 - from,
{
    if from <= s.len() {
        lemma_stands(s, words, from);
        if !text::occurs_at(s, words, from) {
            lemma_found_from(s, words, from + 1);
        }
    }
}

/// A text is found where it stands first, and nowhere where it does not stand.
pub proof fn law_texts_are_found_where_they_stand_first(s: Seq<char>, words: Seq<char>)
    ensures
        match text::found_from(s, words, 0) {
            Some(i) => stands_at(s, words, i) && forall|k: int|
                0 <= k < i ==> !#[trigger] stands_at(s, words, k),
            None => forall|k: int| !#[trigger] stands_at(s, words, k),
        },
{
    lemma_found_from(s, words, 0);
}

proof fn lemma_pieces_len(s: Seq<char>, separator: char)
    ensures
        text::pieces(s, separator).len() > 0,
    decreases s.len(),
{
    if s.len() > 0 {
        lemma_pieces_len(s.drop_last(), separator);
    }
}

/// A text is cut at each separator: no piece holds one.
pub proof fn law_pieces_hold_no_separator(s: Seq<char>, separator: char, i: int)
    requires
        0 <= i < text::pieces(s, separator).len(),
    ensures
        !text::pieces(s, separator)[i].contains(separator),
    decreases s.len(),
{
    if s.len() > 0 {
        let before = text::pieces(s.drop_last(), separator);
        lemma_pieces_len(s.drop_last(), separator);
        if i < before.len() {
            law_pieces_hold_no_separator(s.drop_last(), separator, i);
            if i == before.len() - 1 && s.last() != separator {
                let piece = text::pieces(s, separator)[i];
                assert(piece == before[i].push(s.last()));
                if piece.contains(separator) {
                    let k = choose|k: int| 0 <= k < piece.len() && piece[k] == separator;
                    assert(before[i][k] == separator);
                }
            }
        }
    }
}

/// The pieces with the separator between them are the text again.
pub proof fn law_pieces_make_the_text_again(s: Seq<char>, separator: char)
    ensures
        text::joined(text::pieces(s, separator), seq![separator]) == s,
    decreases s.len(),
{
    if s.len() > 0 {
        let before = text::pieces(s.drop_last(), separator);
        lemma_pieces_len(s.drop_last(), separator);
        law_pieces_make_the_text_again(s.drop_last(), separator);
        let all = text::pieces(s, separator);
        assert(s == s.drop_last().push(s.last()));
        if s.last() == separator {
            assert(all.drop_last() == before);
            assert(text::joined(all, seq![separator]) == s.drop_last() + seq![separator]
                + Seq::<char>::empty());
            assert(s.drop_last() + seq![separator] + Seq::<char>::empty() =~= s);
        } else if before.len() == 1 {
            assert(before.drop_last().push(before.last().push(s.last()))[0] == before[0].push(
                s.last(),
            ));
        } else {
            assert(all.drop_last() == before.drop_last());
            let front = text::joined(before.drop_last(), seq![separator]) + seq![separator];
            assert(front + before.last().push(s.last()) =~= (front + before.last()).push(s.last()));
        }
    }
}

proof fn lemma_one_piece(s: Seq<char>, separator: char)
    requires
        !s.contains(separator),
    ensures
        text::pieces(s, separator) == seq![s],
    decreases s.len(),
{
    if s.len() > 0 {
        assert(!s.drop_last().contains(separator)) by {
            if s.drop_last().contains(separator) {
                let k = choose|k: int| 0 <= k < s.len() - 1 && s.drop_last()[k] == separator;
                assert(s[k] == separator);
            }
        }
        assert(s[s.len() - 1] == s.last());
        lemma_one_piece(s.drop_last(), separator);
        assert(s.drop_last().push(s.last()) =~= s);
    } else {
        assert(s =~= Seq::empty());
    }
}

proof fn lemma_pieces_before(s: Seq<char>, rest: Seq<char>, separator: char)
    ensures
        text::pieces(s.push(separator) + rest, separator) == text::pieces(s, separator)
            + text::pieces(rest, separator),
    decreases rest.len(),
{
    let all = s.push(separator) + rest;
    if rest.len() == 0 {
        assert(all =~= s.push(separator));
        assert(all.drop_last() =~= s);
    } else {
        lemma_pieces_before(s, rest.drop_last(), separator);
        lemma_pieces_len(rest.drop_last(), separator);
        assert(all.drop_last() =~= s.push(separator) + rest.drop_last());
        assert(all.last() == rest.last());
        let a = text::pieces(s, separator);
        let b = text::pieces(rest.drop_last(), separator);
        if rest.last() == separator {
            assert((a + b).push(Seq::empty()) =~= a + b.push(Seq::empty()));
        } else {
            assert((a + b).last() == b.last());
            assert((a + b).drop_last().push(b.last().push(rest.last())) =~= a
                + b.drop_last().push(b.last().push(rest.last())));
        }
    }
}

/// A browser's request asks for the second word of its first line: the path before the question
/// mark and the query behind it.
pub proof fn law_requests_ask_for_their_second_word(
    path: Seq<char>,
    query: Seq<char>,
    version: Seq<char>,
    rest: Seq<char>,
)
    requires
        !path.contains(' ') && !path.contains('\n') && !path.contains('?'),
        !query.contains(' ') && !query.contains('\n'),
        !version.contains('\n'),
    ensures
        oauth::requested(
            "GET "@ + path + seq!['?'] + query + seq![' '] + version + seq!['\r', '\n'] + rest,
        ) == Some((path, query)),
{
    reveal_strlit("GET ");
    reveal_strlit("GET");
    reveal_strlit("?");
    let target = path.push('?') + query;
    let head = "GET"@.push(' ') + (target.push(' ') + version);
    let line = head.push('\r');
    let request = "GET "@ + path + seq!['?'] + query + seq![' '] + version + seq!['\r', '\n'] + rest;
    assert(request =~= line.push('\n') + rest);
    assert(!line.contains('\n')) by {
        if line.contains('\n') {
            let k = choose|k: int| 0 <= k < line.len() && line[k] == '\n';
            let p = k - 4;
            let q = p - path.len() - 1;
            let v = q - query.len() - 1;
            if 0 <= p < path.len() {
                assert(path[p] == '\n');
            } else if 0 <= q < query.len() {
                assert(query[q] == '\n');
            } else if 0 <= v < version.len() {
                assert(version[v] == '\n');
            }
        }
    }
    assert(!target.contains(' ')) by {
        if target.contains(' ') {
            let k = choose|k: int| 0 <= k < target.len() && target[k] == ' ';
            if k < path.len() {
                assert(path[k] == ' ');
            } else if k > path.len() {
                assert(query[k - path.len() - 1] == ' ');
            }
        }
    }
    lemma_pieces_before(line, rest, '\n');
    lemma_one_piece(line, '\n');
    lemma_pieces_len(rest, '\n');
    let p = text::pieces(request, '\n');
    assert(p[0] == line && p.len() >= 2);
    assert(line.drop_last() =~= head);
    assert(text::lines(request)[0] == head);
    assert(!"GET"@.contains(' '));
    lemma_one_piece("GET"@, ' ');
    lemma_pieces_before("GET"@, target.push(' ') + version, ' ');
    lemma_one_piece(target, ' ');
    lemma_pieces_before(target, version, ' ');
    lemma_pieces_len(version, ' ');
    let words = text::pieces(head, ' ');
    assert(words[0] == "GET"@ && words[1] == target);
    law_texts_are_found_where_they_stand_first(target, "?"@);
    assert(stands_at(target, "?"@, path.len() as int));
    let i = text::found_from(target, "?"@, 0)->0;
    if i < path.len() {
        assert("?"@[0] == '?');
        assert(target[i + 0] == '?');
        assert(path[i] == '?');
    }
    assert(target.take(path.len() as int) =~= path);
    assert(target.skip(path.len() as int + 1) =~= query);
}

/// Nothing but what asks for a document is a request.
pub proof fn law_only_documents_are_asked_for(request: Seq<char>)
    requires
        oauth::requested(request) is Some,
    ensures
        text::begins_with(request, "GET"@),
{
    reveal_strlit("GET");
    let p = text::pieces(request, '\n');
    let all = text::lines(request);
    lemma_pieces_len(request, '\n');
    let words = text::pieces(all[0], ' ');
    lemma_pieces_begin(request, '\n');
    lemma_pieces_begin(all[0], ' ');
    assert(text::begins_with(all[0], "GET"@));
    assert forall|k: int| 0 <= k < 3 implies request[k] == "GET"@[k] by {
        assert(all[0].subrange(0, 3)[k] == all[0][k]);
        assert(p[0][k] == all[0][k]);
        assert(request.subrange(0, p[0].len() as int)[k] == request[k]);
    }
    assert(request.subrange(0, 3) =~= "GET"@);
}

proof fn lemma_pieces_begin(s: Seq<char>, separator: char)
    ensures
        text::pieces(s, separator).len() > 0,
        text::begins_with(s, text::pieces(s, separator)[0]),
    decreases s.len(),
{
    let all = text::pieces(s, separator);
    if s.len() == 0 {
        assert(s.subrange(0, 0) =~= all[0]);
    } else {
        let before = text::pieces(s.drop_last(), separator);
        lemma_pieces_begin(s.drop_last(), separator);
        let first = before[0];
        assert(s.subrange(0, first.len() as int) =~= s.drop_last().subrange(0, first.len() as int));
        if s.last() != separator && before.len() == 1 {
            law_pieces_make_the_text_again(s.drop_last(), separator);
            assert(first == s.drop_last());
            assert(s.subrange(0, s.len() as int) =~= first.push(s.last()));
        }
    }
}

/// The head of a message stands between its first line of dashes and the next one.
pub proof fn law_heads_stand_between_dashes(markdown: Seq<char>)
    ensures
        match reply::frontmatter(markdown) {
            Some(head) => {
                &&& stands_at(markdown, "---\n"@, 0)
                &&& stands_at(markdown, head, 4)
                &&& stands_at(markdown, "\n---"@, 4 + head.len() as int)
                &&& forall|k: int|
                    4 <= k < 4 + head.len() ==> !#[trigger] stands_at(markdown, "\n---"@, k)
            },
            None => stands_at(markdown, "---\n"@, 0) ==> forall|k: int|
                4 <= k ==> !#[trigger] stands_at(markdown, "\n---"@, k),
        },
{
    reveal_strlit("---\n");
    reveal_strlit("\n---");
    let open = "---\n"@;
    let close = "\n---"@;
    lemma_stands(markdown, open, 0);
    if stands_at(markdown, open, 0) {
        let rest = markdown.skip(4);
        law_texts_are_found_where_they_stand_first(rest, close);
        assert forall|k: int| 4 <= k implies stands_at(markdown, close, k) == stands_at(
            rest,
            close,
            k - 4,
        ) by {
            if k + 4 <= markdown.len() {
                assert forall|j: int| 0 <= j < 4 implies markdown[k + j] == rest[k - 4 + j]
                    && #[trigger] close[j] == close[j] by {}
            }
        }
        if let Some(i) = text::found_from(rest, close, 0) {
            let head = rest.take(i);
            assert(stands_at(rest, close, i));
            assert(stands_at(markdown, close, i + 4));
            assert forall|k: int| 4 <= k < 4 + i implies !#[trigger] stands_at(
                markdown,
                close,
                k,
            ) by {
                assert(!stands_at(rest, close, k - 4));
            }
        }
    }
}

proof fn lemma_last_dot(name: Seq<char>, i: int)
    requires
        i < name.len(),
    ensures
        ({
            let dot = paths::last_dot(name, i);
            &&& 0 <= dot
            &&& dot > 0 ==> dot <= i && name[dot] == '.'
            &&& forall|k: int| dot < k <= i && 0 < k ==> #[trigger] name[k] != '.'
        }),
    decreases i,
{
    if i > 0 && name[i] != '.' {
        lemma_last_dot(name, i - 1);
    }
}

/// The extension of a file is what stands behind the last dot of its name, where one stands behind
/// the first character.
pub proof fn law_extensions_stand_behind_the_last_dot(name: Seq<char>)
    ensures
        match paths::name_extension(name) {
            Some(end) => {
                &&& !end.contains('.')
                &&& name.len() >= end.len() + 2
                &&& name[name.len() - end.len() - 1] == '.'
                &&& name.skip(name.len() - end.len()) == end
            },
            None => forall|k: int| 0 < k < name.len() ==> #[trigger] name[k] != '.',
        },
{
    lemma_last_dot(name, name.len() - 1);
    let dot = paths::last_dot(name, name.len() - 1);
    if dot > 0 {
        let end = name.skip(dot + 1);
        if end.contains('.') {
            let k = choose|k: int| 0 <= k < end.len() && end[k] == '.';
            assert(name[dot + 1 + k] == '.');
        }
    }
}

/// The messages of a thread are its files of Markdown but for the page of the thread.
pub proof fn law_messages_are_markdown_beside_the_page(
    style: paths::PathStyle,
    path: Seq<char>,
    name: Seq<char>,
)
    requires
        paths::last_name(paths::components(style, path)) == Some(name),
    ensures
        reply::is_message_path(style, path) <==> name != "page.md"@ && name.len() > 3
            && name.skip(name.len() - 3) == ".md"@,
{
    reveal_strlit("md");
    reveal_strlit(".md");
    law_extensions_stand_behind_the_last_dot(name);
    if name.len() > 3 && name.skip(name.len() - 3) == ".md"@ {
        let n = name.len() as int;
        assert(name.skip(n - 3)[0] == name[n - 3]);
        assert(name.skip(n - 3)[1] == name[n - 2]);
        assert(name.skip(n - 3)[2] == name[n - 1]);
        let end = paths::name_extension(name)->0;
        assert(name[n - 3] == '.');
        assert(paths::name_extension(name) is Some);
        let e = end.len() as int;
        if e < 2 {
            assert(name[n - e - 1] == '.');
        }
        if e > 2 {
            assert(end[e - 3] == name[n - 3]);
            assert(end.contains('.'));
        }
        assert(end =~= "md"@);
    }
    if paths::name_extension(name) == Some("md"@) {
        let n = name.len() as int;
        assert(name.skip(n - 2)[0] == name[n - 2]);
        assert(name.skip(n - 2)[1] == name[n - 1]);
        assert(name.skip(n - 3) =~= ".md"@);
    }
}

proof fn lemma_trimmed_end(s: Seq<char>)
    ensures
        ({
            let t = text::trimmed_end(s);
            &&& t.len() <= s.len()
            &&& t == s.take(t.len() as int)
            &&& t.len() > 0 ==> !text::is_white_space(t.last())
            &&& forall|k: int| t.len() <= k < s.len() ==> #[trigger] text::is_white_space(s[k])
        }),
    decreases s.len(),
{
    if s.len() > 0 && text::is_white_space(s.last()) {
        lemma_trimmed_end(s.drop_last());
        let t = text::trimmed_end(s);
        assert(s.drop_last().take(t.len() as int) =~= s.take(t.len() as int));
        assert forall|k: int| t.len() <= k < s.len() implies #[trigger] text::is_white_space(
            s[k],
        ) by {
            if k < s.len() - 1 {
                assert(s.drop_last()[k] == s[k]);
            }
        }
    } else {
        assert(s =~= s.take(s.len() as int));
    }
}

proof fn lemma_trimmed_start(s: Seq<char>)
    ensures
        ({
            let t = text::trimmed_start(s);
            let cut = s.len() - t.len();
            &&& t.len() <= s.len()
            &&& t == s.skip(cut)
            &&& t.len() > 0 ==> !text::is_white_space(t[0])
            &&& forall|k: int| 0 <= k < cut ==> #[trigger] text::is_white_space(s[k])
        }),
    decreases s.len(),
{
    if s.len() > 0 && text::is_white_space(s[0]) {
        lemma_trimmed_start(s.skip(1));
        let t = text::trimmed_start(s);
        let cut = s.len() - t.len();
        assert(s.skip(1).skip(cut - 1) =~= s.skip(cut));
        assert forall|k: int| 0 <= k < cut implies #[trigger] text::is_white_space(s[k]) by {
            if k > 0 {
                assert(s.skip(1)[k - 1] == s[k]);
            }
        }
    } else {
        assert(s =~= s.skip(0));
    }
}

/// Whether a text is another one from a place on, with nothing but white space before and behind.
pub open spec fn is_core_at(s: Seq<char>, t: Seq<char>, from: int) -> bool {
    &&& 0 <= from && from + t.len() <= s.len()
    &&& forall|k: int| 0 <= k < t.len() ==> #[trigger] t[k] == s[from + k]
    &&& forall|k: int|
        0 <= k < s.len() && !(from <= k < from + t.len()) ==> #[trigger] text::is_white_space(s[k])
}

/// Trimming takes white space away at both ends, all of it and nothing else.
pub proof fn law_trimming_takes_white_space_at_the_ends(s: Seq<char>)
    ensures
        exists|from: int| #[trigger] is_core_at(s, text::trimmed(s), from),
        text::trimmed(s).len() > 0 ==> !text::is_white_space(text::trimmed(s)[0])
            && !text::is_white_space(text::trimmed(s).last()),
{
    let a = text::trimmed_start(s);
    let t = text::trimmed_end(a);
    lemma_trimmed_start(s);
    lemma_trimmed_end(a);
    let from = s.len() - a.len();
    assert forall|k: int| 0 <= k < t.len() implies #[trigger] t[k] == s[from + k] by {
        assert(a.take(t.len() as int)[k] == a[k]);
        assert(s.skip(from)[k] == s[from + k]);
    }
    assert forall|k: int| 0 <= k < s.len() && !(from <= k < from + t.len()) implies #[trigger]
    text::is_white_space(s[k]) by {
        if k >= from {
            assert(s.skip(from)[k - from] == s[k]);
            assert(text::is_white_space(a[k - from]));
        }
    }
    assert(text::trimmed(s) == t);
    assert(is_core_at(s, t, from));
    if t.len() > 0 {
        assert(a.take(t.len() as int)[0] == a[0]);
        assert(t[0] == a[0]);
    }
}

} // verus!
