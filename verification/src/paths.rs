//! Paths as text, with a separator between components.
//!
//! Repeated separators, a trailing separator and inner `.` components carry no
//! meaning: two paths are the same where their components are. What separates,
//! and what may stand in front, depends on the machine.
use vstd::prelude::*;

use crate::sorting;
use crate::text;

verus! {

/// How the paths of a machine are written.
#[derive(Clone, Copy, Debug, PartialEq, Eq, Structural)]
pub enum PathStyle {
    /// With `/` between components.
    Unix,
    /// With `\` or `/` between components, and perhaps a drive, a network share
    /// or a device in front. Behind `\\?\` a path is verbatim: only `\`
    /// separates there, and `.` is a component wherever it stands.
    Windows,
}

/// What stands in front of a path under Windows.
pub enum Prefix {
    /// `\\?\name`.
    Verbatim(Seq<char>),
    /// `\\?\UNC\server\share`.
    VerbatimShare(Seq<char>, Seq<char>),
    /// `\\?\C:`, by its letter in upper case.
    VerbatimDrive(char),
    /// `\\.\name`.
    Device(Seq<char>),
    /// `\\server\share`.
    Share(Seq<char>, Seq<char>),
    /// `C:`, by its letter in upper case.
    Drive(char),
}

/// What stands in front of a path under Windows, as read off its text.
#[derive(Debug, PartialEq, Eq)]
pub enum PathPrefix {
    Verbatim(String),
    VerbatimShare(String, String),
    VerbatimDrive(char),
    Device(String),
    Share(String, String),
    Drive(char),
}

impl View for PathPrefix {
    type V = Prefix;

    open spec fn view(&self) -> Prefix {
        match self {
            PathPrefix::Verbatim(name) => Prefix::Verbatim(name@),
            PathPrefix::VerbatimShare(server, share) => Prefix::VerbatimShare(server@, share@),
            PathPrefix::VerbatimDrive(letter) => Prefix::VerbatimDrive(*letter),
            PathPrefix::Device(name) => Prefix::Device(name@),
            PathPrefix::Share(server, share) => Prefix::Share(server@, share@),
            PathPrefix::Drive(letter) => Prefix::Drive(*letter),
        }
    }
}

/// A component of a path.
pub enum Component {
    Prefix(Prefix),
    Root,
    Current,
    Parent,
    Normal(Seq<char>),
}

/// A component of a path, as read off its text.
#[derive(Debug, PartialEq, Eq)]
pub enum PathComponent {
    Prefix(PathPrefix),
    Root,
    Current,
    Parent,
    Normal(String),
}

impl View for PathComponent {
    type V = Component;

    open spec fn view(&self) -> Component {
        match self {
            PathComponent::Prefix(prefix) => Component::Prefix(prefix@),
            PathComponent::Root => Component::Root,
            PathComponent::Current => Component::Current,
            PathComponent::Parent => Component::Parent,
            PathComponent::Normal(name) => Component::Normal(name@),
        }
    }
}

/// A component and where it stands in the text.
pub struct Part {
    pub component: Component,
    pub from: int,
    pub to: int,
}

/// A component and where it stands in the text, as read off it.
#[derive(Debug, PartialEq, Eq)]
pub struct PathPart {
    pub component: PathComponent,
    pub from: usize,
    pub to: usize,
}

impl View for PathPart {
    type V = Part;

    open spec fn view(&self) -> Part {
        Part { component: self.component@, from: self.from as int, to: self.to as int }
    }
}

/// Whether a character separates components, in a verbatim path or not.
pub open spec fn separates(style: PathStyle, verbatim: bool, c: char) -> bool {
    match style {
        PathStyle::Unix => c == '/',
        PathStyle::Windows => c == '\\' || (c == '/' && !verbatim),
    }
}

/// What is written between components.
pub open spec fn separator(style: PathStyle) -> Seq<char> {
    match style {
        PathStyle::Unix => "/"@,
        PathStyle::Windows => "\\"@,
    }
}

/// Whether a character is an ASCII letter.
pub open spec fn is_letter(c: char) -> bool {
    'a' <= c <= 'z' || 'A' <= c <= 'Z'
}

/// Whether a path begins with `\\?\` under Windows.
pub open spec fn is_verbatim(style: PathStyle, path: Seq<char>) -> bool {
    style == PathStyle::Windows && path.len() >= 4 && path[0] == '\\' && path[1] == '\\' && path[2]
        == '?' && path[3] == '\\'
}

/// Whether a separator stands at position `i`.
pub open spec fn separator_at(style: PathStyle, path: Seq<char>, i: int) -> bool {
    0 <= i < path.len() && separates(style, false, path[i])
}

/// Where the first separator at or behind position `i` stands; the length where
/// there is none.
pub open spec fn segment_end(style: PathStyle, verbatim: bool, path: Seq<char>, i: int) -> int
    decreases path.len() - i,
{
    if i >= path.len() {
        path.len() as int
    } else if separates(style, verbatim, path[i]) {
        i
    } else {
        segment_end(style, verbatim, path, i + 1)
    }
}

/// The segment behind the one that ends at `end`; nothing where the text ends
/// there.
pub open spec fn next_segment(
    style: PathStyle,
    verbatim: bool,
    path: Seq<char>,
    end: int,
) -> Seq<char> {
    if end < path.len() {
        path.subrange(end + 1, segment_end(style, verbatim, path, end + 1))
    } else {
        Seq::empty()
    }
}

/// What stands in front of a path, and how long it is.
pub open spec fn prefix(style: PathStyle, path: Seq<char>) -> Option<(Prefix, int)> {
    let n = path.len() as int;
    if style == PathStyle::Unix {
        None
    } else if is_verbatim(style, path) {
        if n >= 8 && path[4] == 'U' && path[5] == 'N' && path[6] == 'C' && separator_at(
            style,
            path,
            7,
        ) {
            let server = segment_end(style, true, path, 8);
            let share = next_segment(style, true, path, server);
            Some(
                (
                    Prefix::VerbatimShare(path.subrange(8, server), share),
                    if share.len() > 0 {
                        server + 1 + share.len()
                    } else {
                        server
                    },
                ),
            )
        } else if n >= 6 && is_letter(path[4]) && path[5] == ':' && (n == 6 || separator_at(
            style,
            path,
            6,
        )) {
            Some((Prefix::VerbatimDrive(text::upper(path[4])), 6))
        } else {
            let end = segment_end(style, true, path, 4);
            Some((Prefix::Verbatim(path.subrange(4, end)), end))
        }
    } else if separator_at(style, path, 0) && separator_at(style, path, 1) {
        if n >= 4 && path[2] == '.' && separator_at(style, path, 3) {
            let end = segment_end(style, false, path, 4);
            Some((Prefix::Device(path.subrange(4, end)), end))
        } else {
            let server = segment_end(style, false, path, 2);
            let share = next_segment(style, false, path, server);
            if server > 2 && share.len() > 0 {
                Some((Prefix::Share(path.subrange(2, server), share), server + 1 + share.len()))
            } else {
                None
            }
        }
    } else if n >= 2 && is_letter(path[0]) && path[1] == ':' {
        Some((Prefix::Drive(text::upper(path[0])), 2))
    } else {
        None
    }
}

/// How long what stands in front of a path is.
pub open spec fn prefix_len(style: PathStyle, path: Seq<char>) -> int {
    match prefix(style, path) {
        Some(found) => found.1,
        None => 0,
    }
}

/// Whether a separator follows what stands in front of a path.
pub open spec fn has_root(style: PathStyle, path: Seq<char>) -> bool {
    separator_at(style, path, prefix_len(style, path))
}

/// Whether a path does not depend on a current directory: under Windows, it is
/// on a share, a device or the root of a drive.
pub open spec fn absolute(style: PathStyle, path: Seq<char>) -> bool {
    match style {
        PathStyle::Unix => has_root(style, path),
        PathStyle::Windows => match prefix(style, path) {
            Some((Prefix::Drive(_), _)) => has_root(style, path),
            Some(_) => true,
            None => false,
        },
    }
}

/// The components in front of the names of a path: its prefix, and its root. A
/// share or a device has one though none is written.
pub open spec fn front(style: PathStyle, path: Seq<char>) -> Seq<Part> {
    let n = prefix_len(style, path);
    let root = if has_root(style, path) {
        seq![Part { component: Component::Root, from: n, to: n + 1 }]
    } else {
        match prefix(style, path) {
            Some((Prefix::Share(_, _), _)) => seq![
                Part { component: Component::Root, from: n, to: n },
            ],
            Some((Prefix::Device(_), _)) => seq![
                Part { component: Component::Root, from: n, to: n },
            ],
            _ => Seq::empty(),
        }
    };
    match prefix(style, path) {
        Some(found) => seq![Part { component: Component::Prefix(found.0), from: 0, to: n }] + root,
        None => root,
    }
}

/// Where the names of a path begin.
pub open spec fn body_start(style: PathStyle, path: Seq<char>) -> int {
    prefix_len(style, path) + (if has_root(style, path) {
        1int
    } else {
        0int
    })
}

/// The component that a piece of the text stands for, if any. A lone `.` counts
/// only where it is kept.
pub open spec fn piece_part(path: Seq<char>, from: int, to: int, keeps_dot: bool) -> Seq<Part> {
    let piece = path.subrange(from, to);
    if piece.len() == 0 {
        Seq::empty()
    } else if piece == "."@ {
        if keeps_dot {
            seq![Part { component: Component::Current, from, to }]
        } else {
            Seq::empty()
        }
    } else if piece == ".."@ {
        seq![Part { component: Component::Parent, from, to }]
    } else {
        seq![Part { component: Component::Normal(piece), from, to }]
    }
}

/// Where the last piece between `start` and `end` begins: behind the last
/// separator, or at `start`.
pub open spec fn piece_start(
    style: PathStyle,
    verbatim: bool,
    path: Seq<char>,
    start: int,
    end: int,
) -> int
    decreases end - start,
{
    if end <= start {
        start
    } else if separates(style, verbatim, path[end - 1]) {
        end
    } else {
        piece_start(style, verbatim, path, start, end - 1)
    }
}

/// The components between `start` and `end`. A `.` in front is kept where it
/// leads the path, and any in a verbatim one.
pub open spec fn body(
    style: PathStyle,
    verbatim: bool,
    leads: bool,
    path: Seq<char>,
    start: int,
    end: int,
) -> Seq<Part>
    decreases end - start,
{
    let from = piece_start(style, verbatim, path, start, end);
    let last = piece_part(path, from, end, verbatim || (leads && from == start));
    if start < from <= end {
        body(style, verbatim, leads, path, start, from - 1) + last
    } else {
        last
    }
}

/// The components of a path, each with where it stands.
pub open spec fn parts(style: PathStyle, path: Seq<char>) -> Seq<Part> {
    let start = body_start(style, path);
    front(style, path) + body(
        style,
        is_verbatim(style, path),
        start == 0,
        path,
        start,
        path.len() as int,
    )
}

/// The components of a path.
pub open spec fn components(style: PathStyle, path: Seq<char>) -> Seq<Component> {
    Seq::new(parts(style, path).len(), |i: int| parts(style, path)[i].component)
}

/// The components in `v`.
pub open spec fn views(v: Seq<PathComponent>) -> Seq<Component> {
    Seq::new(v.len(), |i: int| v[i]@)
}

/// The parts in `v`.
pub open spec fn part_views(v: Seq<PathPart>) -> Seq<Part> {
    Seq::new(v.len(), |i: int| v[i]@)
}

/// Whether two paths are the same.
pub open spec fn same(style: PathStyle, a: Seq<char>, b: Seq<char>) -> bool {
    components(style, a) == components(style, b)
}

/// The last component of `c`, where it is a name.
pub open spec fn last_name(c: Seq<Component>) -> Option<Seq<char>> {
    if c.len() > 0 {
        match c.last() {
            Component::Normal(name) => Some(name),
            _ => None,
        }
    } else {
        None
    }
}

/// Whether a path begins with all the components of another.
pub open spec fn is_below(path: Seq<Component>, prefix: Seq<Component>) -> bool {
    prefix.len() <= path.len() && path.take(prefix.len() as int) == prefix
}

/// The first component alone, if there is one.
pub open spec fn first_of(c: Seq<Component>) -> Seq<Component> {
    if c.len() > 1 {
        c.take(1)
    } else {
        c
    }
}

/// The components behind the first.
pub open spec fn behind_first(c: Seq<Component>) -> Seq<Component> {
    if c.len() > 0 {
        c.skip(1)
    } else {
        c
    }
}

/// Components with further ones behind them: a root leaves only the first of
/// those before it, `.` is dropped, and `..` takes a name back.
pub open spec fn resolved(c: Seq<Component>, more: Seq<Component>) -> Seq<Component>
    decreases more.len(),
{
    if more.len() == 0 {
        c
    } else {
        let before = resolved(c, more.drop_last());
        match more.last() {
            Component::Root => first_of(before).push(Component::Root),
            Component::Current => before,
            Component::Parent => if before.len() > 0 && before.last() is Normal {
                before.drop_last()
            } else {
                before
            },
            other => before.push(other),
        }
    }
}

/// Components as they are written behind a verbatim prefix.
pub open spec fn written_behind(c: Seq<Component>) -> Seq<char>
    decreases c.len(),
{
    if c.len() == 0 {
        Seq::empty()
    } else {
        let before = written_behind(c.drop_last());
        let joint = if c.last() is Root || (c.len() >= 2 && c[c.len() - 2] is Root) {
            Seq::empty()
        } else {
            "\\"@
        };
        before + joint + (match c.last() {
            Component::Prefix(_) => Seq::empty(),
            Component::Root => "\\"@,
            Component::Current => "."@,
            Component::Parent => ".."@,
            Component::Normal(name) => name,
        })
    }
}

/// `path` appended to `base`; `path` alone where it is absolute or has a prefix,
/// and behind the prefix of `base` where it begins with a separator. What is
/// appended to a verbatim path is resolved.
pub open spec fn joined(style: PathStyle, base: Seq<char>, path: Seq<char>) -> Seq<char> {
    if absolute(style, path) || prefix(style, path) is Some {
        path
    } else if is_verbatim(style, base) && path.len() > 0 {
        base.take(prefix_len(style, base)) + written_behind(
            behind_first(resolved(components(style, base), components(style, path))),
        )
    } else if has_root(style, path) {
        base.take(prefix_len(style, base)) + path
    } else if base.len() == 0 || separates(style, false, base.last()) || (prefix(style, base)
        matches Some((Prefix::Drive(_), _)) && base.len() == 2) {
        base + path
    } else {
        base + separator(style) + path
    }
}

proof fn lemma_segment_end(style: PathStyle, verbatim: bool, path: Seq<char>, i: int)
    requires
        0 <= i <= path.len(),
    ensures
        i <= segment_end(style, verbatim, path, i) <= path.len(),
        segment_end(style, verbatim, path, i) < path.len() ==> separates(
            style,
            verbatim,
            path[segment_end(style, verbatim, path, i)],
        ),
        forall|k: int|
            i <= k < segment_end(style, verbatim, path, i) ==> !separates(
                style,
                verbatim,
                #[trigger] path[k],
            ),
    decreases path.len() - i,
{
    if i < path.len() && !separates(style, verbatim, path[i]) {
        lemma_segment_end(style, verbatim, path, i + 1);
    }
}

proof fn lemma_segment_ends_at(
    style: PathStyle,
    verbatim: bool,
    path: Seq<char>,
    i: int,
    end: int,
)
    requires
        0 <= i <= end < path.len(),
        separates(style, verbatim, path[end]),
        forall|k: int| i <= k < end ==> !separates(style, verbatim, #[trigger] path[k]),
    ensures
        segment_end(style, verbatim, path, i) == end,
    decreases end - i,
{
    if i < end {
        lemma_segment_ends_at(style, verbatim, path, i + 1, end);
    }
}

proof fn lemma_prefix_len(style: PathStyle, path: Seq<char>)
    ensures
        0 <= prefix_len(style, path) <= path.len(),
        is_verbatim(style, path) ==> prefix_len(style, path) >= 4,
        body_start(style, path) <= path.len(),
{
    if style == PathStyle::Windows && path.len() >= 2 {
        lemma_segment_end(style, false, path, 2);
        let server = segment_end(style, false, path, 2);
        if server < path.len() {
            lemma_segment_end(style, false, path, server + 1);
        }
        if path.len() >= 4 {
            lemma_segment_end(style, false, path, 4);
            lemma_segment_end(style, true, path, 4);
        }
        if path.len() >= 8 {
            lemma_segment_end(style, true, path, 8);
            let server = segment_end(style, true, path, 8);
            if server < path.len() {
                lemma_segment_end(style, true, path, server + 1);
            }
        }
    }
}

proof fn lemma_piece_start(style: PathStyle, verbatim: bool, path: Seq<char>, start: int, end: int)
    requires
        start <= end,
    ensures
        start <= piece_start(style, verbatim, path, start, end) <= end,
    decreases end - start,
{
    if end > start && !separates(style, verbatim, path[end - 1]) {
        lemma_piece_start(style, verbatim, path, start, end - 1);
    }
}

proof fn lemma_body_in_order(
    style: PathStyle,
    verbatim: bool,
    leads: bool,
    path: Seq<char>,
    start: int,
    end: int,
)
    requires
        0 <= start <= end <= path.len(),
    ensures
        ({
            let b = body(style, verbatim, leads, path, start, end);
            &&& forall|i: int|
                0 <= i < b.len() ==> start <= (#[trigger] b[i]).from <= b[i].to <= end
            &&& forall|i: int, j: int|
                0 <= i < j < b.len() ==> (#[trigger] b[i]).to <= (#[trigger] b[j]).from
        }),
    decreases end - start,
{
    lemma_piece_start(style, verbatim, path, start, end);
    let from = piece_start(style, verbatim, path, start, end);
    if start < from {
        lemma_body_in_order(style, verbatim, leads, path, start, from - 1);
    }
}

/// The components of a path stand in its text one behind the other.
pub proof fn law_parts_are_in_order(style: PathStyle, path: Seq<char>, i: int, j: int)
    requires
        0 <= i < parts(style, path).len(),
        0 <= j < parts(style, path).len(),
    ensures
        0 <= parts(style, path)[i].from <= parts(style, path)[i].to <= path.len(),
        i < j ==> parts(style, path)[i].to <= parts(style, path)[j].from,
{
    lemma_prefix_len(style, path);
    let start = body_start(style, path);
    lemma_body_in_order(
        style,
        is_verbatim(style, path),
        start == 0,
        path,
        start,
        path.len() as int,
    );
}

proof fn lemma_share_kept(style: PathStyle, path: Seq<char>, whole: Seq<char>)
    requires
        prefix(style, path) matches Some((Prefix::Share(_, _), _)),
        prefix_len(style, path) <= whole.len(),
        forall|k: int| 0 <= k < prefix_len(style, path) ==> whole[k] == #[trigger] path[k],
    ensures
        prefix(style, whole) matches Some((Prefix::Share(_, _), _)),
{
    let server = segment_end(style, false, path, 2);
    lemma_prefix_len(style, path);
    lemma_segment_end(style, false, path, 2);
    lemma_segment_end(style, false, path, server + 1);
    let share = next_segment(style, false, path, server);
    assert(server + 1 + share.len() == prefix_len(style, path));
    assert(whole[server] == path[server]);
    assert forall|k: int| 2 <= k < server implies !separates(style, false, #[trigger] whole[k]) by {
        assert(whole[k] == path[k]);
    }
    lemma_segment_ends_at(style, false, whole, 2, server);
    assert(whole[server + 1] == path[server + 1]);
    lemma_segment_end(style, false, whole, server + 1);
    assert(whole[0] == path[0] && whole[1] == path[1] && whole[2] == path[2] && whole[3]
        == path[3]);
    assert(!separates(style, false, path[server + 1]));
    assert(segment_end(style, false, whole, server + 1) > server + 1);
    assert(next_segment(style, false, whole, server).len() > 0);
}

/// What is joined to an absolute path is absolute, unless it names a drive
/// without its root.
pub proof fn law_join_keeps_absolute(style: PathStyle, base: Seq<char>, path: Seq<char>)
    requires
        absolute(style, base),
        prefix(style, path) is Some ==> absolute(style, path),
    ensures
        absolute(style, joined(style, base, path)),
{
    let whole = joined(style, base, path);
    lemma_prefix_len(style, base);
    if absolute(style, path) {
    } else if is_verbatim(style, base) {
        if path.len() > 0 {
            assert(whole[0] == base[0] && whole[1] == base[1] && whole[2] == base[2] && whole[3]
                == base[3]);
        } else {
            lemma_extended(style, base, whole);
        }
    } else {
        if has_root(style, path) {
            assert(forall|k: int|
                0 <= k < prefix_len(style, base) ==> whole[k] == #[trigger] base[k]);
            if let Some((Prefix::Drive(_), _)) = prefix(style, base) {
                assert(whole[2] == path[0]);
            }
        } else {
            assert(forall|k: int| 0 <= k < base.len() ==> whole[k] == #[trigger] base[k]);
        }
        lemma_extended(style, base, whole);
    }
}

/// What begins as an absolute path does, to the end of its prefix and its root,
/// is absolute.
proof fn lemma_extended(style: PathStyle, base: Seq<char>, whole: Seq<char>)
    requires
        absolute(style, base),
        prefix_len(style, base) <= whole.len(),
        forall|k: int| 0 <= k < prefix_len(style, base) ==> whole[k] == #[trigger] base[k],
        (style == PathStyle::Unix || (prefix(style, base) matches Some((Prefix::Drive(_), _))))
            ==> separator_at(style, whole, prefix_len(style, base)),
    ensures
        absolute(style, whole),
{
    lemma_prefix_len(style, base);
    match prefix(style, base) {
        Some((Prefix::Share(_, _), _)) => lemma_share_kept(style, base, whole),
        Some((Prefix::Drive(_), _)) => {
            assert(whole[0] == base[0] && whole[1] == base[1]);
        },
        Some(_) => {
            lemma_segment_end(style, false, base, 4);
            assert(whole[0] == base[0] && whole[1] == base[1] && whole[2] == base[2] && whole[3]
                == base[3]);
        },
        None => {},
    }
}

fn is_separator(style: PathStyle, verbatim: bool, c: char) -> (r: bool)
    ensures
        r == separates(style, verbatim, c),
{
    match style {
        PathStyle::Unix => c == '/',
        PathStyle::Windows => c == '\\' || (c == '/' && !verbatim),
    }
}

fn separator_text(style: PathStyle) -> (r: &'static str)
    ensures
        r@ == separator(style),
{
    match style {
        PathStyle::Unix => "/",
        PathStyle::Windows => "\\",
    }
}

fn letter(c: char) -> (r: bool)
    ensures
        r == is_letter(c),
{
    ('a' <= c && c <= 'z') || ('A' <= c && c <= 'Z')
}

fn begins_verbatim(style: PathStyle, v: &Vec<char>) -> (r: bool)
    ensures
        r == is_verbatim(style, v@),
{
    match style {
        PathStyle::Unix => false,
        PathStyle::Windows => v.len() >= 4 && v[0] == '\\' && v[1] == '\\' && v[2] == '?' && v[3]
            == '\\',
    }
}

fn has_separator_at(style: PathStyle, v: &Vec<char>, i: usize) -> (r: bool)
    ensures
        r == separator_at(style, v@, i as int),
{
    i < v.len() && is_separator(style, false, v[i])
}

fn segment_end_of(style: PathStyle, verbatim: bool, v: &Vec<char>, i: usize) -> (r: usize)
    requires
        i <= v.len(),
    ensures
        r == segment_end(style, verbatim, v@, i as int),
        i <= r <= v.len(),
{
    let mut k: usize = i;
    while k < v.len()
        invariant
            i <= k <= v.len(),
            segment_end(style, verbatim, v@, i as int) == segment_end(
                style,
                verbatim,
                v@,
                k as int,
            ),
        decreases v.len() - k,
    {
        if is_separator(style, verbatim, v[k]) {
            return k;
        }
        k += 1;
    }
    v.len()
}

fn next_segment_of(style: PathStyle, verbatim: bool, v: &Vec<char>, end: usize) -> (r: String)
    requires
        end <= v.len(),
    ensures
        r@ == next_segment(style, verbatim, v@, end as int),
        r@.len() > 0 ==> end + 1 + r@.len() <= v.len(),
{
    if end < v.len() {
        let to = segment_end_of(style, verbatim, v, end + 1);
        text::string_of_range(v, end + 1, to)
    } else {
        String::new()
    }
}

/// What stands in front of a path, and how long it is.
fn prefix_of(style: PathStyle, v: &Vec<char>) -> (r: Option<(PathPrefix, usize)>)
    ensures
        match prefix(style, v@) {
            Some(found) => r matches Some(p) && p.0@ == found.0 && p.1 == found.1,
            None => r is None,
        },
        r matches Some(p) ==> p.1 <= v.len(),
{
    match style {
        PathStyle::Unix => {
            return None;
        },
        PathStyle::Windows => {},
    }
    if begins_verbatim(style, v) {
        if v.len() >= 8 && v[4] == 'U' && v[5] == 'N' && v[6] == 'C' && has_separator_at(
            style,
            v,
            7,
        ) {
            let server = segment_end_of(style, true, v, 8);
            let share = next_segment_of(style, true, v, server);
            let n: usize = share.as_str().unicode_len();
            let len: usize = if n > 0 {
                server + 1 + n
            } else {
                server
            };
            return Some(
                (PathPrefix::VerbatimShare(text::string_of_range(v, 8, server), share), len),
            );
        }
        if v.len() >= 6 && letter(v[4]) && v[5] == ':' && (v.len() == 6 || has_separator_at(
            style,
            v,
            6,
        )) {
            return Some((PathPrefix::VerbatimDrive(text::to_upper(v[4])), 6));
        }
        let end = segment_end_of(style, true, v, 4);
        return Some((PathPrefix::Verbatim(text::string_of_range(v, 4, end)), end));
    }
    if has_separator_at(style, v, 0) && has_separator_at(style, v, 1) {
        if v.len() >= 4 && v[2] == '.' && has_separator_at(style, v, 3) {
            let end = segment_end_of(style, false, v, 4);
            return Some((PathPrefix::Device(text::string_of_range(v, 4, end)), end));
        }
        let server = segment_end_of(style, false, v, 2);
        let share = next_segment_of(style, false, v, server);
        let n: usize = share.as_str().unicode_len();
        if server > 2 && n > 0 {
            return Some(
                (PathPrefix::Share(text::string_of_range(v, 2, server), share), server + 1 + n),
            );
        }
        return None;
    }
    if v.len() >= 2 && letter(v[0]) && v[1] == ':' {
        return Some((PathPrefix::Drive(text::to_upper(v[0])), 2));
    }
    None
}

fn front_of(style: PathStyle, v: &Vec<char>) -> (r: (Vec<PathPart>, usize))
    ensures
        part_views(r.0@) == front(style, v@),
        r.1 == body_start(style, v@),
        r.1 <= v.len(),
        lie_within(r.0@, v.len() as int),
{
    let mut out: Vec<PathPart> = Vec::new();
    let found = prefix_of(style, v);
    let n: usize = match &found {
        Some(p) => p.1,
        None => 0,
    };
    let rooted = has_separator_at(style, v, n);
    let implied = match &found {
        Some((PathPrefix::Share(_, _), _)) => true,
        Some((PathPrefix::Device(_), _)) => true,
        _ => false,
    };
    if let Some(p) = found {
        out.push(PathPart { component: PathComponent::Prefix(p.0), from: 0, to: n });
    }
    if rooted {
        out.push(PathPart { component: PathComponent::Root, from: n, to: n + 1 });
    } else if implied {
        out.push(PathPart { component: PathComponent::Root, from: n, to: n });
    }
    assert(part_views(out@) =~= front(style, v@));
    if rooted {
        (out, n + 1)
    } else {
        (out, n)
    }
}

/// Whether every part lies within a text of this length.
spec fn lie_within(v: Seq<PathPart>, len: int) -> bool {
    forall|i: int| 0 <= i < v.len() ==> (#[trigger] v[i]).from <= v[i].to <= len
}

fn push_piece(out: &mut Vec<PathPart>, v: &Vec<char>, from: usize, to: usize, keeps_dot: bool)
    requires
        from <= to <= v.len(),
        lie_within(old(out)@, v.len() as int),
    ensures
        part_views(final(out)@) == part_views(old(out)@) + piece_part(
            v@,
            from as int,
            to as int,
            keeps_dot,
        ),
        lie_within(final(out)@, v.len() as int),
{
    let ghost before = out@;
    let piece = text::string_of_range(v, from, to);
    if !piece.as_str().is_empty() {
        if text::same_text(&piece, ".") {
            if keeps_dot {
                out.push(PathPart { component: PathComponent::Current, from, to });
            }
        } else if text::same_text(&piece, "..") {
            out.push(PathPart { component: PathComponent::Parent, from, to });
        } else {
            out.push(PathPart { component: PathComponent::Normal(piece), from, to });
        }
    }
    assert(part_views(out@) =~= part_views(before) + piece_part(
        v@,
        from as int,
        to as int,
        keeps_dot,
    ));
}

fn piece_start_of(style: PathStyle, verbatim: bool, v: &Vec<char>, start: usize, end: usize) -> (r:
    usize)
    requires
        start <= end <= v.len(),
    ensures
        r == piece_start(style, verbatim, v@, start as int, end as int),
        start <= r <= end,
{
    let mut k: usize = end;
    while k > start
        invariant
            start <= k <= end <= v.len(),
            piece_start(style, verbatim, v@, start as int, end as int) == piece_start(
                style,
                verbatim,
                v@,
                start as int,
                k as int,
            ),
        decreases k,
    {
        if is_separator(style, verbatim, v[k - 1]) {
            return k;
        }
        k -= 1;
    }
    start
}

fn body_of(style: PathStyle, verbatim: bool, leads: bool, v: &Vec<char>, start: usize) -> (r: Vec<
    PathPart,
>)
    requires
        start <= v.len(),
    ensures
        part_views(r@) == body(style, verbatim, leads, v@, start as int, v.len() as int),
        lie_within(r@, v.len() as int),
{
    let ghost whole = body(style, verbatim, leads, v@, start as int, v.len() as int);
    let mut found: Vec<PathPart> = Vec::new();
    let mut end: usize = v.len();
    let mut more = true;
    assert(part_views(found@).reverse() =~= Seq::<Part>::empty());
    assert(whole =~= whole + part_views(found@).reverse());
    while more
        invariant
            start <= end <= v.len(),
            lie_within(found@, v.len() as int),
            whole == (if more {
                body(style, verbatim, leads, v@, start as int, end as int)
            } else {
                Seq::empty()
            }) + part_views(found@).reverse(),
        decreases
                (if more {
                    end - start + 1
                } else {
                    0
                }),
    {
        let ghost before = part_views(found@);
        let from = piece_start_of(style, verbatim, v, start, end);
        let keeps_dot = verbatim || (leads && from == start);
        let ghost piece = piece_part(v@, from as int, end as int, keeps_dot);
        push_piece(&mut found, v, from, end, keeps_dot);
        assert(part_views(found@).reverse() =~= piece + before.reverse());
        if from > start {
            let ghost rest = body(style, verbatim, leads, v@, start as int, from - 1);
            assert(rest + (piece + before.reverse()) =~= rest + piece + before.reverse());
            end = from - 1;
        } else {
            assert(Seq::<Part>::empty() + (piece + before.reverse()) =~= piece + before.reverse());
            more = false;
        }
    }
    let ghost last = found@;
    let r = text::reversed(found);
    assert(part_views(r@) =~= part_views(last).reverse());
    assert(whole =~= part_views(last).reverse());
    r
}

fn parts_of(style: PathStyle, v: &Vec<char>) -> (r: Vec<PathPart>)
    ensures
        part_views(r@) == parts(style, v@),
        lie_within(r@, v.len() as int),
{
    let (mut out, start) = front_of(style, v);
    let mut names = body_of(style, begins_verbatim(style, v), start == 0, v, start);
    let ghost first = out@;
    let ghost second = names@;
    out.append(&mut names);
    assert(part_views(out@) =~= part_views(first) + part_views(second));
    out
}

/// The components of a path.
pub fn components_of(style: PathStyle, path: &str) -> (r: Vec<PathComponent>)
    ensures
        views(r@) == components(style, path@),
{
    let found = parts_of(style, &text::chars_of(path));
    let ghost all = found@;
    let mut out: Vec<PathComponent> = Vec::new();
    for part in it: found
        invariant
            it.seq() == all,
            out@.len() == it.index(),
            forall|i: int| 0 <= i < it.index() ==> #[trigger] out@[i] == all[i].component,
    {
        out.push(part.component);
    }
    assert forall|i: int| 0 <= i < out@.len() implies #[trigger] views(out@)[i] == components(
        style,
        path@,
    )[i] by {
        assert(part_views(all)[i] == all[i]@);
        assert(out@[i] == all[i].component);
    }
    assert(part_views(all).len() == all.len());
    assert(views(out@) =~= components(style, path@));
    out
}

fn same_prefix(a: &PathPrefix, b: &PathPrefix) -> (r: bool)
    ensures
        r == (a@ == b@),
{
    match (a, b) {
        (PathPrefix::Verbatim(x), PathPrefix::Verbatim(y)) => text::same_text(x, y),
        (PathPrefix::VerbatimShare(x, s), PathPrefix::VerbatimShare(y, t)) => text::same_text(x, y)
            && text::same_text(s, t),
        (PathPrefix::VerbatimDrive(x), PathPrefix::VerbatimDrive(y)) => *x == *y,
        (PathPrefix::Device(x), PathPrefix::Device(y)) => text::same_text(x, y),
        (PathPrefix::Share(x, s), PathPrefix::Share(y, t)) => text::same_text(x, y)
            && text::same_text(s, t),
        (PathPrefix::Drive(x), PathPrefix::Drive(y)) => *x == *y,
        _ => false,
    }
}

/// Whether two components are the same.
pub fn same_component(a: &PathComponent, b: &PathComponent) -> (r: bool)
    ensures
        r == (a@ == b@),
{
    match (a, b) {
        (PathComponent::Prefix(x), PathComponent::Prefix(y)) => same_prefix(x, y),
        (PathComponent::Root, PathComponent::Root) => true,
        (PathComponent::Current, PathComponent::Current) => true,
        (PathComponent::Parent, PathComponent::Parent) => true,
        (PathComponent::Normal(x), PathComponent::Normal(y)) => text::same_text(x, y),
        _ => false,
    }
}

/// Whether `path` begins with all the components of `prefix`.
pub fn begins_with_components(path: &Vec<PathComponent>, prefix: &Vec<PathComponent>) -> (r: bool)
    ensures
        r == is_below(views(path@), views(prefix@)),
{
    if prefix.len() > path.len() {
        return false;
    }
    let mut i: usize = 0;
    while i < prefix.len()
        invariant
            i <= prefix.len() <= path.len(),
            forall|k: int| 0 <= k < i ==> views(path@)[k] == #[trigger] views(prefix@)[k],
        decreases prefix.len() - i,
    {
        if !same_component(&path[i], &prefix[i]) {
            assert(views(path@).take(prefix.len() as int)[i as int] != views(prefix@)[i as int]);
            return false;
        }
        i += 1;
    }
    assert(views(path@).take(prefix.len() as int) =~= views(prefix@));
    true
}

/// Whether two lists of components are the same.
pub fn same_components(a: &Vec<PathComponent>, b: &Vec<PathComponent>) -> (r: bool)
    ensures
        r == (views(a@) == views(b@)),
{
    if a.len() != b.len() {
        assert(views(a@).len() != views(b@).len());
        return false;
    }
    let r = begins_with_components(a, b);
    assert(views(a@).take(b.len() as int) =~= views(a@));
    r
}

/// Whether two paths are the same.
pub fn same_path(style: PathStyle, a: &str, b: &str) -> (r: bool)
    ensures
        r == same(style, a@, b@),
{
    same_components(&components_of(style, a), &components_of(style, b))
}

/// The last component of a path, where it is a name.
pub fn file_name(style: PathStyle, path: &str) -> (r: Option<String>)
    ensures
        text::opt_text(r) == last_name(components(style, path@)),
{
    let mut c = components_of(style, path);
    let ghost all = views(c@);
    match c.pop() {
        Some(PathComponent::Normal(name)) => {
            assert(all.last() == Component::Normal(name@));
            Some(name)
        },
        Some(other) => {
            assert(all.last() == other@);
            None
        },
        None => None,
    }
}

/// Whether a path does not depend on a current directory.
pub fn is_absolute(style: PathStyle, path: &str) -> (r: bool)
    ensures
        r == absolute(style, path@),
{
    let v = text::chars_of(path);
    match style {
        PathStyle::Unix => has_separator_at(style, &v, 0),
        PathStyle::Windows => match prefix_of(style, &v) {
            Some((PathPrefix::Drive(_), n)) => has_separator_at(style, &v, n),
            Some(_) => true,
            None => false,
        },
    }
}

fn resolve(base: Vec<PathComponent>, more: Vec<PathComponent>) -> (r: Vec<PathComponent>)
    ensures
        views(r@) == resolved(views(base@), views(more@)),
{
    let ghost first = views(base@);
    let ghost all = more@;
    let ghost behind = views(more@);
    let mut out = base;
    assert(behind.take(0) == Seq::<Component>::empty());
    for c in it: more
        invariant
            it.seq() == all,
            behind == views(all),
            views(out@) == resolved(first, behind.take(it.index() as int)),
    {
        let ghost before = views(out@);
        let ghost now = behind.take(it.index() + 1);
        assert(now.drop_last() == behind.take(it.index() as int));
        assert(now.last() == c@);
        match c {
            PathComponent::Root => {
                out.truncate(1);
                out.push(PathComponent::Root);
                assert(views(out@) =~= first_of(before).push(Component::Root));
            },
            PathComponent::Current => {},
            PathComponent::Parent => {
                let named = if out.len() > 0 {
                    assert(before.last() == out@.last()@);
                    match &out[out.len() - 1] {
                        PathComponent::Normal(_) => true,
                        _ => false,
                    }
                } else {
                    false
                };
                if named {
                    out.pop();
                    assert(views(out@) =~= before.drop_last());
                }
            },
            other => {
                out.push(other);
                assert(views(out@) =~= before.push(other@));
            },
        }
    }
    assert(behind.take(all.len() as int) == behind);
    out
}

fn write_behind(out: &mut String, c: &Vec<PathComponent>)
    ensures
        final(out)@ == old(out)@ + written_behind(behind_first(views(c@))),
{
    let ghost before = out@;
    let ghost rest = behind_first(views(c@));
    let mut i: usize = 1;
    assert(before + written_behind(rest.take(0)) =~= before);
    while i < c.len()
        invariant
            1 <= i,
            i <= c.len() || (c.len() == 0 && i == 1),
            rest == behind_first(views(c@)),
            out@ == before + written_behind(rest.take(i - 1)),
        decreases c.len() - i,
    {
        let ghost so_far = out@;
        let ghost now = rest.take(i as int);
        assert(now.drop_last() == rest.take(i - 1));
        assert(now.last() == c@[i as int]@);
        let behind_root = if i >= 2 {
            assert(now[now.len() - 2] == c@[i - 1]@);
            match &c[i - 1] {
                PathComponent::Root => true,
                _ => false,
            }
        } else {
            false
        };
        let is_root = match &c[i] {
            PathComponent::Root => true,
            _ => false,
        };
        if !is_root && !behind_root {
            out.append("\\");
        }
        match &c[i] {
            PathComponent::Prefix(_) => {},
            PathComponent::Root => out.append("\\"),
            PathComponent::Current => out.append("."),
            PathComponent::Parent => out.append(".."),
            PathComponent::Normal(name) => out.append(name),
        }
        assert(out@ =~= before + written_behind(now));
        i += 1;
    }
    assert(rest.take(i - 1) =~= rest);
}

/// `path` appended to `base`.
pub fn join(style: PathStyle, base: &str, path: &str) -> (r: String)
    ensures
        r@ == joined(style, base@, path@),
{
    let v = text::chars_of(path);
    if is_absolute(style, path) || prefix_of(style, &v).is_some() {
        return path.to_string();
    }
    let b = text::chars_of(base);
    let found = prefix_of(style, &b);
    let n: usize = match &found {
        Some(p) => p.1,
        None => 0,
    };
    if begins_verbatim(style, &b) && v.len() > 0 {
        let mut out = text::string_of_range(&b, 0, n);
        let all = resolve(components_of(style, base), components_of(style, path));
        write_behind(&mut out, &all);
        return out;
    }
    if has_separator_at(style, &v, 0) {
        let mut out = text::string_of_range(&b, 0, n);
        out.append(path);
        return out;
    }
    let bare_drive = match &found {
        Some((PathPrefix::Drive(_), _)) => b.len() == 2,
        _ => false,
    };
    let mut out = base.to_string();
    if b.len() > 0 && !is_separator(style, false, b[b.len() - 1]) && !bare_drive {
        out.append(separator_text(style));
    }
    out.append(path);
    out
}

/// The text up to where the component before the last ends; none where the last
/// is a root or a prefix, or there is no component.
pub open spec fn parent_of(style: PathStyle, path: Seq<char>) -> Option<Seq<char>> {
    let p = parts(style, path);
    if p.len() == 0 || p.last().component is Root || p.last().component is Prefix {
        None
    } else if p.len() == 1 {
        Some(Seq::empty())
    } else {
        Some(path.take(p[p.len() - 2].to))
    }
}

/// A path that ends in a name has a parent.
pub proof fn lemma_named_has_parent(style: PathStyle, path: Seq<char>)
    requires
        last_name(components(style, path)) is Some,
    ensures
        parent_of(style, path) is Some,
{
    assert(components(style, path).last() == parts(style, path).last().component);
}

/// The path without its last component.
pub fn parent(style: PathStyle, path: &str) -> (r: Option<String>)
    ensures
        text::opt_text(r) == parent_of(style, path@),
{
    let v = text::chars_of(path);
    let p = parts_of(style, &v);
    let n: usize = p.len();
    assert(part_views(p@).len() == n);
    if n == 0 {
        return None;
    }
    assert(part_views(p@).last() == p@[n - 1]@);
    match &p[n - 1].component {
        PathComponent::Root => {
            return None;
        },
        PathComponent::Prefix(_) => {
            return None;
        },
        _ => {},
    }
    if n == 1 {
        return Some(String::new());
    }
    assert(part_views(p@)[n - 2] == p@[n - 2]@);
    Some(text::string_of_range(&v, 0, p[n - 2].to))
}

/// The place of a prefix's sort among the others.
pub open spec fn prefix_rank(p: Prefix) -> int {
    match p {
        Prefix::Verbatim(_) => 0,
        Prefix::VerbatimShare(_, _) => 1,
        Prefix::VerbatimDrive(_) => 2,
        Prefix::Device(_) => 3,
        Prefix::Share(_, _) => 4,
        Prefix::Drive(_) => 5,
    }
}

/// Whether a prefix comes no later than another.
pub open spec fn prefix_le(a: Prefix, b: Prefix) -> bool {
    match (a, b) {
        (Prefix::Verbatim(x), Prefix::Verbatim(y)) => sorting::text_le(x, y),
        (Prefix::VerbatimShare(x, s), Prefix::VerbatimShare(y, t)) => if x == y {
            sorting::text_le(s, t)
        } else {
            sorting::text_le(x, y)
        },
        (Prefix::VerbatimDrive(x), Prefix::VerbatimDrive(y)) => x <= y,
        (Prefix::Device(x), Prefix::Device(y)) => sorting::text_le(x, y),
        (Prefix::Share(x, s), Prefix::Share(y, t)) => if x == y {
            sorting::text_le(s, t)
        } else {
            sorting::text_le(x, y)
        },
        (Prefix::Drive(x), Prefix::Drive(y)) => x <= y,
        _ => prefix_rank(a) <= prefix_rank(b),
    }
}

/// The place of a component's sort among the others.
pub open spec fn rank(c: Component) -> int {
    match c {
        Component::Prefix(_) => 0,
        Component::Root => 1,
        Component::Current => 2,
        Component::Parent => 3,
        Component::Normal(_) => 4,
    }
}

/// Whether a component comes no later than another.
pub open spec fn component_le(a: Component, b: Component) -> bool {
    match (a, b) {
        (Component::Normal(x), Component::Normal(y)) => sorting::text_le(x, y),
        (Component::Prefix(x), Component::Prefix(y)) => prefix_le(x, y),
        _ => rank(a) <= rank(b),
    }
}

/// Whether a path comes no later than another: component by component.
pub open spec fn components_le(a: Seq<Component>, b: Seq<Component>) -> bool
    decreases a.len(),
{
    if a.len() == 0 {
        true
    } else if b.len() == 0 {
        false
    } else if a[0] == b[0] {
        components_le(a.skip(1), b.skip(1))
    } else {
        component_le(a[0], b[0])
    }
}

proof fn lemma_components_le_reflexive(a: Seq<Component>)
    ensures
        components_le(a, a),
    decreases a.len(),
{
    if a.len() > 0 {
        lemma_components_le_reflexive(a.skip(1));
    }
}

fn component_rank(c: &PathComponent) -> (r: u8)
    ensures
        r == rank(c@),
{
    match c {
        PathComponent::Prefix(_) => 0,
        PathComponent::Root => 1,
        PathComponent::Current => 2,
        PathComponent::Parent => 3,
        PathComponent::Normal(_) => 4,
    }
}

fn rank_of_prefix(p: &PathPrefix) -> (r: u8)
    ensures
        r == prefix_rank(p@),
{
    match p {
        PathPrefix::Verbatim(_) => 0,
        PathPrefix::VerbatimShare(_, _) => 1,
        PathPrefix::VerbatimDrive(_) => 2,
        PathPrefix::Device(_) => 3,
        PathPrefix::Share(_, _) => 4,
        PathPrefix::Drive(_) => 5,
    }
}

fn prefix_not_after(a: &PathPrefix, b: &PathPrefix) -> (r: bool)
    ensures
        r == prefix_le(a@, b@),
{
    match (a, b) {
        (PathPrefix::Verbatim(x), PathPrefix::Verbatim(y)) => sorting::text_not_after(x, y),
        (PathPrefix::VerbatimShare(x, s), PathPrefix::VerbatimShare(y, t)) => if text::same_text(
            x,
            y,
        ) {
            sorting::text_not_after(s, t)
        } else {
            sorting::text_not_after(x, y)
        },
        (PathPrefix::VerbatimDrive(x), PathPrefix::VerbatimDrive(y)) => *x <= *y,
        (PathPrefix::Device(x), PathPrefix::Device(y)) => sorting::text_not_after(x, y),
        (PathPrefix::Share(x, s), PathPrefix::Share(y, t)) => if text::same_text(x, y) {
            sorting::text_not_after(s, t)
        } else {
            sorting::text_not_after(x, y)
        },
        (PathPrefix::Drive(x), PathPrefix::Drive(y)) => *x <= *y,
        _ => rank_of_prefix(a) <= rank_of_prefix(b),
    }
}

fn component_not_after(a: &PathComponent, b: &PathComponent) -> (r: bool)
    ensures
        r == component_le(a@, b@),
{
    match (a, b) {
        (PathComponent::Normal(x), PathComponent::Normal(y)) => sorting::text_not_after(x, y),
        (PathComponent::Prefix(x), PathComponent::Prefix(y)) => prefix_not_after(x, y),
        _ => component_rank(a) <= component_rank(b),
    }
}

/// Whether a path comes no later than another.
pub fn path_not_after(style: PathStyle, a: &str, b: &str) -> (r: bool)
    ensures
        r == components_le(components(style, a@), components(style, b@)),
{
    let x = components_of(style, a);
    let y = components_of(style, b);
    let ghost xs = views(x@);
    let ghost ys = views(y@);
    let mut i: usize = 0;
    proof {
        assert(xs.skip(0) == xs);
        assert(ys.skip(0) == ys);
    }
    while i < x.len()
        invariant
            i <= x.len(),
            i <= y.len(),
            xs == views(x@),
            xs == components(style, a@),
            ys == views(y@),
            ys == components(style, b@),
            components_le(xs, ys) == components_le(xs.skip(i as int), ys.skip(i as int)),
        decreases x.len() - i,
    {
        if i >= y.len() {
            return false;
        }
        assert(xs.skip(i as int)[0] == x@[i as int]@);
        assert(ys.skip(i as int)[0] == y@[i as int]@);
        if !same_component(&x[i], &y[i]) {
            return component_not_after(&x[i], &y[i]);
        }
        assert(xs.skip(i as int).skip(1) == xs.skip(i + 1));
        assert(ys.skip(i as int).skip(1) == ys.skip(i + 1));
        i += 1;
    }
    true
}

/// `path` put where it belongs among paths in order, unless it is there.
pub open spec fn path_insert(style: PathStyle, s: Seq<Seq<char>>, path: Seq<char>) -> Seq<Seq<char>>
    decreases s.len(),
{
    if s.len() == 0 {
        seq![path]
    } else if same(style, s.last(), path) {
        s
    } else if components_le(components(style, s.last()), components(style, path)) {
        s.push(path)
    } else {
        path_insert(style, s.drop_last(), path).push(s.last())
    }
}

proof fn lemma_path_insert_at(style: PathStyle, s: Seq<Seq<char>>, path: Seq<char>, j: int)
    requires
        0 <= j <= s.len(),
        j > 0 ==> components_le(components(style, s[j - 1]), components(style, path)),
        forall|k: int|
            j <= k < s.len() ==> !components_le(
                components(style, #[trigger] s[k]),
                components(style, path),
            ),
    ensures
        path_insert(style, s, path) == (if j > 0 && same(style, s[j - 1], path) {
            s
        } else {
            s.insert(j, path)
        }),
    decreases s.len(),
{
    lemma_components_le_reflexive(components(style, path));
    if s.len() == 0 {
        assert(s.insert(j, path) =~= seq![path]);
    } else if j == s.len() {
        assert(s.insert(j, path) =~= s.push(path));
    } else {
        assert(!components_le(components(style, s[s.len() - 1]), components(style, path)));
        lemma_path_insert_at(style, s.drop_last(), path, j);
        if j > 0 && same(style, s[j - 1], path) {
            assert(s.drop_last().push(s.last()) =~= s);
        } else {
            assert(s.insert(j, path) =~= s.drop_last().insert(j, path).push(s.last()));
        }
    }
}

/// Puts `path` where it belongs among paths in order, unless it is there.
pub fn insert_path(style: PathStyle, out: &mut Vec<String>, path: String)
    ensures
        text::texts(final(out)@) == path_insert(style, text::texts(old(out)@), path@),
{
    let ghost before = text::texts(out@);
    let mut j: usize = out.len();
    while j > 0 && !path_not_after(style, &out[j - 1], &path)
        invariant
            j <= out.len(),
            before == text::texts(out@),
            forall|k: int|
                j <= k < before.len() ==> !components_le(
                    components(style, #[trigger] before[k]),
                    components(style, path@),
                ),
        decreases j,
    {
        j -= 1;
    }
    proof {
        lemma_path_insert_at(style, before, path@, j as int);
    }
    if j > 0 && same_path(style, &out[j - 1], &path) {
        return;
    }
    out.insert(j, path);
    assert(text::texts(out@) =~= before.insert(j as int, path@));
}

/// What is left of a path behind another that it begins with: the text from its
/// next component to the end of its last.
pub open spec fn below(style: PathStyle, root: Seq<char>, path: Seq<char>) -> Option<Seq<char>> {
    let p = parts(style, path);
    let n = components(style, root).len() as int;
    if !is_below(components(style, path), components(style, root)) {
        None
    } else if n == p.len() {
        Some(Seq::empty())
    } else {
        Some(path.subrange(p[n].from, p.last().to))
    }
}

/// What is left of a path behind another that it begins with.
pub fn strip_prefix(style: PathStyle, path: &str, root: &str) -> (r: Option<String>)
    ensures
        text::opt_text(r) == below(style, root@, path@),
{
    let prefix = components_of(style, root);
    if !begins_with_components(&components_of(style, path), &prefix) {
        return None;
    }
    let v = text::chars_of(path);
    let p = parts_of(style, &v);
    let n: usize = prefix.len();
    assert(part_views(p@).len() == p.len());
    assert(views(prefix@).len() == n);
    if n == p.len() {
        return Some(String::new());
    }
    let from: usize = p[n].from;
    let to: usize = p[p.len() - 1].to;
    assert(part_views(p@)[n as int] == p@[n as int]@);
    assert(part_views(p@).last() == p@.last()@);
    proof {
        law_parts_are_in_order(style, v@, n as int, p.len() - 1);
        law_parts_are_in_order(style, v@, p.len() - 1, p.len() - 1);
    }
    Some(text::string_of_range(&v, from, to))
}

/// Where the last `.` of a name stands, from position `i` down; 0 where there
/// is none behind the first character.
pub open spec fn last_dot(name: Seq<char>, i: int) -> int
    decreases i,
{
    if i <= 0 || i >= name.len() {
        0
    } else if name[i] == '.' {
        i
    } else {
        last_dot(name, i - 1)
    }
}

/// What stands behind the last `.` of a name, where something stands before it.
pub open spec fn name_extension(name: Seq<char>) -> Option<Seq<char>> {
    let dot = last_dot(name, name.len() - 1);
    if dot == 0 {
        None
    } else {
        Some(name.skip(dot + 1))
    }
}

/// The extension of the last component of a path.
pub open spec fn extension_of(style: PathStyle, path: Seq<char>) -> Option<Seq<char>> {
    match last_name(components(style, path)) {
        Some(name) => name_extension(name),
        None => None,
    }
}

/// The extension of the last component of a path.
pub fn extension(style: PathStyle, path: &str) -> (r: Option<String>)
    ensures
        text::opt_text(r) == extension_of(style, path@),
{
    let name = match file_name(style, path) {
        Some(name) => name,
        None => {
            return None;
        },
    };
    let all = text::chars_of(&name);
    if all.len() == 0 {
        return None;
    }
    let mut i: usize = all.len() - 1;
    while i > 0
        invariant
            0 <= i < all.len(),
            last_name(components(style, path@)) == Some(all@),
            last_dot(all@, all.len() - 1) == last_dot(all@, i as int),
        decreases i,
    {
        if all[i] == '.' {
            let r = text::string_of_range(&all, i + 1, all.len());
            assert(r@ =~= all@.skip(i + 1));
            return Some(r);
        }
        i -= 1;
    }
    None
}

} // verus!
