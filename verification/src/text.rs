//! Text helpers over the sequence of characters that a string holds.
use vstd::prelude::*;

verus! {

/// `String::push` appends the given character at the end of the string.
pub assume_specification[ std::string::String::push ](s: &mut std::string::String, c: char)
    ensures
        final(s)@ == old(s)@.push(c),
;

/// The characters of `s`, in order.
pub fn chars_of(s: &str) -> (v: Vec<char>)
    ensures
        v@ == s@,
{
    let mut v: Vec<char> = Vec::new();
    for c in it: s.chars()
        invariant
            v@ == it.seq().take(it.index()),
            it.seq() == s@,
    {
        v.push(c);
    }
    v
}

/// The string made of the characters `v[from..to]`.
pub fn string_of_range(v: &Vec<char>, from: usize, to: usize) -> (s: String)
    requires
        from <= to <= v.len(),
    ensures
        s@ == v@.subrange(from as int, to as int),
{
    let mut s = String::new();
    let mut i: usize = from;
    while i < to
        invariant
            from <= i <= to <= v.len(),
            s@ == v@.subrange(from as int, i as int),
        decreases to - i,
    {
        s.push(v[i]);
        i += 1;
    }
    s
}

/// The string made of the characters in `v`.
pub fn string_of(v: &Vec<char>) -> (s: String)
    ensures
        s@ == v@,
{
    let s = string_of_range(v, 0, v.len());
    assert(v@.subrange(0, v.len() as int) == v@);
    s
}

proof fn lemma_utf8_injective(a: Seq<char>, b: Seq<char>)
    requires
        vstd::utf8::encode_utf8(a) == vstd::utf8::encode_utf8(b),
    ensures
        a == b,
{
    vstd::utf8::encode_utf8_decode_utf8(a);
    vstd::utf8::encode_utf8_decode_utf8(b);
}

/// Whether two strings hold the same characters.
pub fn same_text(a: &str, b: &str) -> (r: bool)
    ensures
        r == (a@ == b@),
{
    let x = a.as_bytes();
    let y = b.as_bytes();
    if x.len() != y.len() {
        return false;
    }
    let mut i: usize = 0;
    while i < x.len()
        invariant
            i <= x.len() == y.len(),
            forall|k: int| 0 <= k < i ==> x@[k] == y@[k],
            x@ == vstd::utf8::encode_utf8(a@),
            y@ == vstd::utf8::encode_utf8(b@),
        decreases x.len() - i,
    {
        if x[i] != y[i] {
            return false;
        }
        i += 1;
    }
    proof {
        assert(x@ =~= y@);
        lemma_utf8_injective(a@, b@);
    }
    true
}

/// The characters of each string in `s`.
pub open spec fn texts(s: Seq<String>) -> Seq<Seq<char>> {
    Seq::new(s.len(), |i: int| s[i]@)
}

/// The characters of an optional string.
pub open spec fn opt_text(o: Option<String>) -> Option<Seq<char>> {
    match o {
        Some(s) => Some(s@),
        None => None,
    }
}

/// The characters of an optional borrowed string.
pub open spec fn opt_str(o: Option<&str>) -> Option<Seq<char>> {
    match o {
        Some(s) => Some(s@),
        None => None,
    }
}

/// Borrows the string inside `o`.
pub fn as_str_option(o: &Option<String>) -> (r: Option<&str>)
    ensures
        opt_str(r) == opt_text(*o),
{
    match o {
        Some(s) => Some(s.as_str()),
        None => None,
    }
}

/// Appends a copy of `value`.
pub fn push_text(values: &mut Vec<String>, value: &str)
    ensures
        texts(final(values)@) == texts(old(values)@).push(value@),
{
    values.push(value.to_string());
    assert(texts(values@) =~= texts(old(values)@).push(value@));
}

/// A copy of a list of strings.
pub fn clone_strings(v: &Vec<String>) -> (r: Vec<String>)
    ensures
        r@ == v@,
{
    let mut r: Vec<String> = Vec::new();
    let mut i: usize = 0;
    while i < v.len()
        invariant
            i <= v.len(),
            r@ == v@.take(i as int),
        decreases v.len() - i,
    {
        r.push(v[i].clone());
        i += 1;
    }
    r
}

/// A copy of an optional string.
pub fn clone_option(o: &Option<String>) -> (r: Option<String>)
    ensures
        r == *o,
{
    match o {
        Some(s) => Some(s.clone()),
        None => None,
    }
}

/// Whether `s` begins with `c`.
pub open spec fn begins_with_char(s: Seq<char>, c: char) -> bool {
    s.len() > 0 && s[0] == c
}

/// Whether `s` begins with `c`.
pub fn starts_with_char(s: &str, c: char) -> (r: bool)
    ensures
        r == begins_with_char(s@, c),
{
    s.unicode_len() > 0 && s.get_char(0) == c
}

/// Whether `p` stands in `s` starting at position `i`.
pub open spec fn occurs_at(s: Seq<char>, p: Seq<char>, i: int) -> bool {
    0 <= i && i + p.len() <= s.len() && s.subrange(i, i + p.len()) == p
}

/// Whether `s` begins with `p`.
pub open spec fn begins_with(s: Seq<char>, p: Seq<char>) -> bool {
    occurs_at(s, p, 0)
}

/// Whether `p` stands somewhere in `s`.
pub open spec fn contains_text(s: Seq<char>, p: Seq<char>) -> bool {
    exists|i: int| occurs_at(s, p, i)
}

/// Whether `p` stands in `v` starting at position `i`.
pub fn matches_at(v: &Vec<char>, p: &Vec<char>, i: usize) -> (r: bool)
    ensures
        r == occurs_at(v@, p@, i as int),
{
    if i > v.len() || p.len() > v.len() - i {
        return false;
    }
    let mut k: usize = 0;
    while k < p.len()
        invariant
            k <= p.len(),
            i + p.len() <= v.len(),
            forall|j: int| 0 <= j < k ==> v@[i + j] == p@[j],
        decreases p.len() - k,
    {
        if v[i + k] != p[k] {
            assert(v@.subrange(i as int, i + p.len())[k as int] == v@[i + k]);
            return false;
        }
        k += 1;
    }
    assert(v@.subrange(i as int, i + p.len()) =~= p@);
    true
}

/// Whether `s` begins with `p`.
pub fn starts_with(s: &str, p: &str) -> (r: bool)
    ensures
        r == begins_with(s@, p@),
{
    matches_at(&chars_of(s), &chars_of(p), 0)
}

/// Whether `p` stands somewhere in `s`.
pub fn contains(s: &str, p: &str) -> (r: bool)
    ensures
        r == contains_text(s@, p@),
{
    let v = chars_of(s);
    let q = chars_of(p);
    let mut i: usize = 0;
    while i < v.len()
        invariant
            i <= v.len(),
            v@ == s@,
            q@ == p@,
            forall|j: int| 0 <= j < i ==> !occurs_at(s@, p@, j),
        decreases v.len() - i,
    {
        if matches_at(&v, &q, i) {
            return true;
        }
        i += 1;
    }
    matches_at(&v, &q, i)
}

/// `parts` one behind the other with `separator` between them.
pub open spec fn joined(parts: Seq<Seq<char>>, separator: Seq<char>) -> Seq<char>
    decreases parts.len(),
{
    if parts.len() == 0 {
        Seq::empty()
    } else if parts.len() == 1 {
        parts[0]
    } else {
        joined(parts.drop_last(), separator) + separator + parts.last()
    }
}

/// `parts` one behind the other with `separator` between them.
pub fn join(parts: &Vec<String>, separator: &str) -> (r: String)
    ensures
        r@ == joined(texts(parts@), separator@),
{
    let ghost all = texts(parts@);
    if parts.len() == 0 {
        return String::new();
    }
    let mut out = parts[0].clone();
    let mut i: usize = 1;
    assert(all.take(1)[0] == out@);
    while i < parts.len()
        invariant
            1 <= i <= parts.len(),
            all == texts(parts@),
            out@ == joined(all.take(i as int), separator@),
        decreases parts.len() - i,
    {
        out.append(separator);
        out.append(&parts[i]);
        assert(all.take(i + 1).drop_last() == all.take(i as int));
        i += 1;
    }
    assert(all.take(i as int) == all);
    out
}

/// `a`, then `b`, then `c`.
pub fn concat3(a: &str, b: &str, c: &str) -> (r: String)
    ensures
        r@ == a@ + b@ + c@,
{
    let mut out = a.to_string();
    out.append(b);
    out.append(c);
    out
}

/// Whether `values` holds `value`.
pub fn holds_text(values: &Vec<String>, value: &str) -> (r: bool)
    ensures
        r == texts(values@).contains(value@),
{
    let ghost all = texts(values@);
    let mut i: usize = 0;
    while i < values.len()
        invariant
            i <= values.len(),
            all == texts(values@),
            forall|k: int| 0 <= k < i ==> all[k] != value@,
        decreases values.len() - i,
    {
        if same_text(&values[i], value) {
            assert(all[i as int] == value@);
            return true;
        }
        i += 1;
    }
    false
}

/// Whether an optional string holds `value`.
pub fn option_is(o: &Option<String>, value: &str) -> (r: bool)
    ensures
        r == (opt_text(*o) == Some(value@)),
{
    match o {
        Some(s) => same_text(s, value),
        None => false,
    }
}

/// Whether two optional strings hold the same.
pub fn same_option(a: &Option<String>, b: &Option<String>) -> (r: bool)
    ensures
        r == (opt_text(*a) == opt_text(*b)),
{
    match (a, b) {
        (Some(x), Some(y)) => same_text(x, y),
        (None, None) => true,
        _ => false,
    }
}

/// The items of `v` from last to first.
pub fn reversed<T>(v: Vec<T>) -> (r: Vec<T>)
    ensures
        r@ == v@.reverse(),
{
    let ghost all = v@;
    let mut rest = v;
    let mut out: Vec<T> = Vec::new();
    while rest.len() > 0
        invariant
            rest@.len() + out@.len() == all.len(),
            rest@ == all.take(rest@.len() as int),
            out@ == all.reverse().take(out@.len() as int),
        decreases rest.len(),
    {
        match rest.pop() {
            Some(x) => out.push(x),
            None => {},
        }
    }
    assert(all.reverse().take(out@.len() as int) == all.reverse());
    out
}

/// Whether `c` is an ASCII letter or digit.
#[verifier::allow_in_spec]
pub fn is_ascii_alphanumeric(c: char) -> (r: bool)
    returns
        ('0' <= c && c <= '9') || ('A' <= c && c <= 'Z') || ('a' <= c && c <= 'z'),
{
    ('0' <= c && c <= '9') || ('A' <= c && c <= 'Z') || ('a' <= c && c <= 'z')
}

/// Whether `c` is white space as Unicode defines it.
#[verifier::allow_in_spec]
pub fn is_white_space(c: char) -> (r: bool)
    returns
        ('\u{9}' <= c && c <= '\u{d}') || c == ' ' || c == '\u{85}' || c == '\u{a0}' || c
            == '\u{1680}' || ('\u{2000}' <= c && c <= '\u{200a}') || c == '\u{2028}' || c
            == '\u{2029}' || c == '\u{202f}' || c == '\u{205f}' || c == '\u{3000}',
{
    ('\u{9}' <= c && c <= '\u{d}') || c == ' ' || c == '\u{85}' || c == '\u{a0}' || c == '\u{1680}'
        || ('\u{2000}' <= c && c <= '\u{200a}') || c == '\u{2028}' || c == '\u{2029}' || c
        == '\u{202f}' || c == '\u{205f}' || c == '\u{3000}'
}

/// `s` without white space in front.
pub open spec fn trimmed_start(s: Seq<char>) -> Seq<char>
    decreases s.len(),
{
    if s.len() > 0 && is_white_space(s[0]) {
        trimmed_start(s.skip(1))
    } else {
        s
    }
}

/// `s` without white space behind.
pub open spec fn trimmed_end(s: Seq<char>) -> Seq<char>
    decreases s.len(),
{
    if s.len() > 0 && is_white_space(s.last()) {
        trimmed_end(s.drop_last())
    } else {
        s
    }
}

/// `s` without white space in front and behind.
pub open spec fn trimmed(s: Seq<char>) -> Seq<char> {
    trimmed_end(trimmed_start(s))
}

/// `s` without white space in front and behind.
pub fn trim(s: &str) -> (r: String)
    ensures
        r@ == trimmed(s@),
{
    let v = chars_of(s);
    let mut from: usize = 0;
    assert(v@.skip(0) == v@);
    while from < v.len() && is_white_space(v[from])
        invariant
            from <= v.len(),
            v@ == s@,
            trimmed_start(s@) == trimmed_start(v@.skip(from as int)),
        decreases v.len() - from,
    {
        assert(v@.skip(from as int).skip(1) == v@.skip(from + 1));
        from += 1;
    }
    let ghost start = v@.skip(from as int);
    assert(trimmed_start(s@) == start);
    let mut to: usize = v.len();
    assert(v@.subrange(from as int, to as int) == start);
    while to > from && is_white_space(v[to - 1])
        invariant
            from <= to <= v.len(),
            v@ == s@,
            trimmed_end(start) == trimmed_end(v@.subrange(from as int, to as int)),
        decreases to,
    {
        assert(v@.subrange(from as int, to as int).drop_last() == v@.subrange(
            from as int,
            to - 1,
        ));
        to -= 1;
    }
    string_of_range(&v, from, to)
}

/// `s` without any `c` in front.
pub open spec fn stripped_front(s: Seq<char>, c: char) -> Seq<char>
    decreases s.len(),
{
    if s.len() > 0 && s[0] == c {
        stripped_front(s.skip(1), c)
    } else {
        s
    }
}

/// `s` without any `c` behind.
pub open spec fn stripped_end(s: Seq<char>, c: char) -> Seq<char>
    decreases s.len(),
{
    if s.len() > 0 && s.last() == c {
        stripped_end(s.drop_last(), c)
    } else {
        s
    }
}

/// The characters of `v` without any `c` behind.
pub fn strip_end(v: &Vec<char>, c: char) -> (r: Vec<char>)
    ensures
        r@ == stripped_end(v@, c),
{
    let mut to: usize = v.len();
    assert(v@.take(to as int) == v@);
    while to > 0 && v[to - 1] == c
        invariant
            to <= v.len(),
            stripped_end(v@, c) == stripped_end(v@.take(to as int), c),
        decreases to,
    {
        assert(v@.take(to as int).drop_last() == v@.take(to - 1));
        to -= 1;
    }
    char_range(v, 0, to)
}

/// The characters of `v` without any `c` in front.
pub fn strip_front(v: &Vec<char>, c: char) -> (r: Vec<char>)
    ensures
        r@ == stripped_front(v@, c),
{
    let mut from: usize = 0;
    assert(v@.skip(0) == v@);
    while from < v.len() && v[from] == c
        invariant
            from <= v.len(),
            stripped_front(v@, c) == stripped_front(v@.skip(from as int), c),
        decreases v.len() - from,
    {
        assert(v@.skip(from as int).skip(1) == v@.skip(from + 1));
        from += 1;
    }
    let r = char_range(v, from, v.len());
    assert(v@.skip(from as int) == v@.subrange(from as int, v.len() as int));
    r
}

/// The characters `v[from..to]`.
pub fn char_range(v: &Vec<char>, from: usize, to: usize) -> (r: Vec<char>)
    requires
        from <= to <= v.len(),
    ensures
        r@ == v@.subrange(from as int, to as int),
{
    let mut r: Vec<char> = Vec::new();
    let mut i: usize = from;
    while i < to
        invariant
            from <= i <= to <= v.len(),
            r@ == v@.subrange(from as int, i as int),
        decreases to - i,
    {
        r.push(v[i]);
        i += 1;
    }
    r
}

/// What stands between the occurrences of `separator` in `s`.
pub open spec fn pieces(s: Seq<char>, separator: char) -> Seq<Seq<char>>
    decreases s.len(),
{
    if s.len() == 0 {
        seq![Seq::empty()]
    } else {
        let before = pieces(s.drop_last(), separator);
        if s.last() == separator {
            before.push(Seq::empty())
        } else {
            before.drop_last().push(before.last().push(s.last()))
        }
    }
}

/// What stands between the occurrences of `separator` in `s`.
pub fn split(s: &str, separator: char) -> (r: Vec<String>)
    ensures
        texts(r@) == pieces(s@, separator),
{
    let v = chars_of(s);
    let mut out: Vec<String> = Vec::new();
    let mut piece = String::new();
    let mut i: usize = 0;
    assert(v@.take(0) == Seq::<char>::empty());
    assert(pieces(v@.take(0), separator) =~= texts(out@).push(piece@));
    while i < v.len()
        invariant
            i <= v.len(),
            v@ == s@,
            pieces(v@.take(i as int), separator) == texts(out@).push(piece@),
        decreases v.len() - i,
    {
        let ghost before = pieces(v@.take(i as int), separator);
        let ghost done = texts(out@);
        assert(v@.take(i + 1).drop_last() == v@.take(i as int));
        assert(before.drop_last() == done);
        if v[i] == separator {
            let ghost whole = piece@;
            out.push(piece);
            assert(texts(out@) =~= done.push(whole));
            piece = String::new();
        } else {
            piece.push(v[i]);
        }
        i += 1;
    }
    assert(v@.take(i as int) == s@);
    let ghost done = texts(out@);
    let ghost whole = piece@;
    out.push(piece);
    assert(texts(out@) =~= done.push(whole));
    out
}

/// `s` without the `c` it ends with, if it does.
pub open spec fn without_last(s: Seq<char>, c: char) -> Seq<char> {
    if s.len() > 0 && s.last() == c {
        s.drop_last()
    } else {
        s
    }
}

/// The lines of `s`: each up to a line feed, which may have a carriage return
/// in front; the end of `s` ends the last line.
pub open spec fn lines(s: Seq<char>) -> Seq<Seq<char>> {
    let p = pieces(s, '\n');
    let ended = Seq::new((p.len() - 1) as nat, |i: int| without_last(p[i], '\r'));
    if p.last().len() == 0 {
        ended
    } else {
        ended.push(p.last())
    }
}

proof fn lemma_pieces_not_empty(s: Seq<char>, separator: char)
    ensures
        pieces(s, separator).len() > 0,
    decreases s.len(),
{
    if s.len() > 0 {
        lemma_pieces_not_empty(s.drop_last(), separator);
    }
}

fn drop_last_char(s: &String, c: char) -> (r: String)
    ensures
        r@ == without_last(s@, c),
{
    let v = chars_of(s);
    if v.len() > 0 && v[v.len() - 1] == c {
        let r = string_of_range(&v, 0, v.len() - 1);
        assert(r@ =~= s@.drop_last());
        r
    } else {
        s.clone()
    }
}

/// The lines of `s`.
pub fn lines_of(s: &str) -> (r: Vec<String>)
    ensures
        texts(r@) == lines(s@),
{
    let mut p = split(s, '\n');
    let ghost all = texts(p@);
    proof {
        lemma_pieces_not_empty(s@, '\n');
    }
    let last = match p.pop() {
        Some(last) => last,
        None => String::new(),
    };
    assert(last@ == all.last());
    let mut out: Vec<String> = Vec::new();
    let mut i: usize = 0;
    while i < p.len()
        invariant
            i <= p.len(),
            p@.len() + 1 == all.len(),
            all == pieces(s@, '\n'),
            forall|k: int| 0 <= k < p@.len() ==> #[trigger] all[k] == p@[k]@,
            texts(out@) == Seq::new(i as nat, |k: int| without_last(all[k], '\r')),
        decreases p.len() - i,
    {
        let ghost before = texts(out@);
        out.push(drop_last_char(&p[i], '\r'));
        assert(texts(out@) =~= before.push(without_last(all[i as int], '\r')));
        i += 1;
    }
    if !last.as_str().is_empty() {
        let ghost before = texts(out@);
        out.push(last);
        assert(texts(out@) =~= before.push(all.last()));
    }
    out
}

/// `c` in lower case, where it is an ASCII letter.
pub open spec fn lower(c: char) -> char {
    if 'A' <= c <= 'Z' {
        (c as u8 + 32) as char
    } else {
        c
    }
}

/// `s` with its ASCII letters in lower case.
pub open spec fn lowered(s: Seq<char>) -> Seq<char> {
    Seq::new(s.len(), |i: int| lower(s[i]))
}

/// `c` in lower case, where it is an ASCII letter.
pub fn to_lower(c: char) -> (r: char)
    ensures
        r == lower(c),
{
    if 'A' <= c && c <= 'Z' {
        (c as u8 + 32) as char
    } else {
        c
    }
}

/// `c` in upper case, where it is an ASCII letter.
pub open spec fn upper(c: char) -> char {
    if 'a' <= c <= 'z' {
        (c as u8 - 32) as char
    } else {
        c
    }
}

/// `c` in upper case, where it is an ASCII letter.
pub fn to_upper(c: char) -> (r: char)
    ensures
        r == upper(c),
{
    if 'a' <= c && c <= 'z' {
        (c as u8 - 32) as char
    } else {
        c
    }
}

/// `s` with its ASCII letters in lower case.
pub fn to_lowercase(s: &str) -> (r: String)
    ensures
        r@ == lowered(s@),
{
    let v = chars_of(s);
    let mut out = String::new();
    let mut i: usize = 0;
    while i < v.len()
        invariant
            i <= v.len(),
            v@ == s@,
            out@ == lowered(s@).take(i as int),
        decreases v.len() - i,
    {
        out.push(to_lower(v[i]));
        i += 1;
    }
    out
}

/// Whether two texts are the same but for the case of ASCII letters.
pub fn same_ignoring_case(a: &str, b: &str) -> (r: bool)
    ensures
        r == (lowered(a@) == lowered(b@)),
{
    same_text(&to_lowercase(a), &to_lowercase(b))
}

/// The lower-case hexadecimal digit for `d`.
pub open spec fn hex_lower(d: int) -> char {
    if d < 10 {
        (48 + d) as char
    } else {
        (87 + d) as char
    }
}

/// The last `width` hexadecimal digits of `n`, in lower case.
pub open spec fn hex_digits(n: nat, width: nat) -> Seq<char>
    decreases width,
{
    if width == 0 {
        Seq::empty()
    } else {
        hex_digits(n / 16, (width - 1) as nat).push(hex_lower((n % 16) as int))
    }
}

/// Writes the last `width` hexadecimal digits of `n` at the end of `out`.
pub fn push_hex(out: &mut String, n: u64, width: usize)
    ensures
        final(out)@ == old(out)@ + hex_digits(n as nat, width as nat),
    decreases width,
{
    if width > 0 {
        push_hex(out, n / 16, width - 1);
        let d: u8 = (n % 16) as u8;
        out.push(
            if d < 10 {
                (48 + d) as char
            } else {
                (87 + d) as char
            },
        );
    }
    assert(out@ =~= old(out)@ + hex_digits(n as nat, width as nat));
}

/// The upper-case hexadecimal digit for `d`.
pub open spec fn hex_upper(d: int) -> char {
    if d < 10 {
        (48 + d) as char
    } else {
        (55 + d) as char
    }
}

/// The upper-case hexadecimal digit for `d`.
pub fn hex_upper_digit(d: u8) -> (c: char)
    requires
        d < 16,
    ensures
        c == hex_upper(d as int),
{
    if d < 10 {
        (48 + d) as char
    } else {
        (55 + d) as char
    }
}

/// The decimal digit for `d`.
pub open spec fn digit(d: int) -> char {
    (48 + d) as char
}

/// `n` in decimal, without leading zeros.
pub open spec fn decimal(n: nat) -> Seq<char>
    decreases n,
{
    if n < 10 {
        seq![digit(n as int)]
    } else {
        decimal(n / 10).push(digit((n % 10) as int))
    }
}

/// `n` in decimal, without leading zeros.
pub fn decimal_text(n: u128) -> (s: String)
    ensures
        s@ == decimal(n as nat),
    decreases n,
{
    let last: u8 = 48 + (n % 10) as u8;
    if n < 10 {
        let mut s = String::new();
        s.push(last as char);
        assert(s@ == seq![digit(n as int)]);
        s
    } else {
        let mut s = decimal_text(n / 10);
        s.push(last as char);
        s
    }
}

/// Where `p` first stands in `s` at or behind position `i`.
pub open spec fn found_from(s: Seq<char>, p: Seq<char>, i: int) -> Option<int>
    decreases s.len() + 1 - i,
{
    if i > s.len() {
        None
    } else if occurs_at(s, p, i) {
        Some(i)
    } else {
        found_from(s, p, i + 1)
    }
}

/// Where `p` first stands in `v` at or behind position `i`.
pub fn find_from(v: &Vec<char>, p: &Vec<char>, i: usize) -> (r: Option<usize>)
    requires
        i <= v.len(),
    ensures
        match r {
            Some(k) => found_from(v@, p@, i as int) == Some(k as int) && k + p.len() <= v.len(),
            None => found_from(v@, p@, i as int) is None,
        },
{
    let mut k: usize = i;
    while k < v.len()
        invariant
            i <= k <= v.len(),
            found_from(v@, p@, i as int) == found_from(v@, p@, k as int),
        decreases v.len() - k,
    {
        if matches_at(v, p, k) {
            return Some(k);
        }
        k += 1;
    }
    if matches_at(v, p, k) {
        return Some(k);
    }
    assert(found_from(v@, p@, k + 1) is None);
    None
}

/// Whether a character is a decimal digit.
#[verifier::allow_in_spec]
pub fn is_digit(c: char) -> (r: bool)
    returns
        '0' <= c && c <= '9',
{
    '0' <= c && c <= '9'
}

/// The number that digits stand for.
pub open spec fn value_of_digits(s: Seq<char>) -> int
    decreases s.len(),
{
    if s.len() == 0 {
        0
    } else {
        value_of_digits(s.drop_last()) * 10 + (s.last() as int - 48)
    }
}

/// Whether `s` is made of digits alone.
pub open spec fn all_digits(s: Seq<char>) -> bool {
    forall|i: int| 0 <= i < s.len() ==> is_digit(#[trigger] s[i])
}

/// `s` without one `+` in front.
pub open spec fn unsigned(s: Seq<char>) -> Seq<char> {
    if begins_with_char(s, '+') {
        s.skip(1)
    } else {
        s
    }
}

/// The number that `s` writes in decimal, where it is one of 64 bits.
pub open spec fn parsed_u64(s: Seq<char>) -> Option<u64> {
    let d = unsigned(s);
    if d.len() > 0 && all_digits(d) && value_of_digits(d) <= u64::MAX {
        Some(value_of_digits(d) as u64)
    } else {
        None
    }
}

proof fn lemma_value_of_prefix(s: Seq<char>, n: int)
    requires
        0 <= n <= s.len(),
        all_digits(s),
    ensures
        0 <= value_of_digits(s.take(n)) <= value_of_digits(s),
    decreases s.len(),
{
    if n < s.len() {
        assert forall|i: int| 0 <= i < s.drop_last().len() implies is_digit(
            #[trigger] s.drop_last()[i],
        ) by {
            assert(s.drop_last()[i] == s[i]);
        }
        lemma_value_of_prefix(s.drop_last(), n);
        assert(s.drop_last().take(n) =~= s.take(n));
        assert(is_digit(s[s.len() - 1]));
    } else {
        assert(s.take(n) =~= s);
        if s.len() > 0 {
            assert forall|i: int| 0 <= i < s.drop_last().len() implies is_digit(
                #[trigger] s.drop_last()[i],
            ) by {
                assert(s.drop_last()[i] == s[i]);
            }
            lemma_value_of_prefix(s.drop_last(), s.len() - 1);
            assert(s.drop_last().take(s.len() - 1) =~= s.drop_last());
            assert(is_digit(s[s.len() - 1]));
        }
    }
}

/// The number that `s` writes in decimal, where it is one of 64 bits.
pub fn parse_u64(s: &str) -> (r: Option<u64>)
    ensures
        r == parsed_u64(s@),
{
    let all = chars_of(s);
    let start: usize = if starts_with_char(s, '+') {
        1
    } else {
        0
    };
    let ghost d = unsigned(s@);
    assert(d =~= all@.skip(start as int));
    if start == all.len() {
        return None;
    }
    let mut value: u64 = 0;
    let mut i: usize = start;
    assert(d.take(0) =~= Seq::<char>::empty());
    while i < all.len()
        invariant
            start <= i <= all.len(),
            start <= 1,
            d == all@.skip(start as int),
            d == unsigned(s@),
            value == value_of_digits(d.take(i - start)),
            forall|k: int| 0 <= k < i - start ==> is_digit(#[trigger] d[k]),
        decreases all.len() - i,
    {
        let c = all[i];
        assert(d[i - start] == c);
        if !is_digit(c) {
            return None;
        }
        assert(d.take(i + 1 - start).drop_last() =~= d.take(i - start));
        assert(d.take(i + 1 - start).last() == c);
        let wide: u128 = value as u128 * 10 + (c as u32 - 48) as u128;
        assert(wide == value_of_digits(d.take(i + 1 - start)));
        if wide > u64::MAX as u128 {
            proof {
                if all_digits(d) {
                    lemma_value_of_prefix(d, i + 1 - start);
                }
            }
            return None;
        }
        value = wide as u64;
        i += 1;
    }
    assert(d.take(i - start) =~= d);
    Some(value)
}

/// How many bytes a character takes in UTF-8.
pub open spec fn width(c: char) -> nat {
    if c <= '\u{7f}' {
        1
    } else if c <= '\u{7ff}' {
        2
    } else if c <= '\u{ffff}' {
        3
    } else {
        4
    }
}

/// How many bytes a character takes in UTF-8.
pub fn char_width(c: char) -> (r: usize)
    ensures
        r == width(c),
{
    if c <= '\u{7f}' {
        1
    } else if c <= '\u{7ff}' {
        2
    } else if c <= '\u{ffff}' {
        3
    } else {
        4
    }
}

/// How many bytes a text takes in UTF-8.
pub open spec fn byte_len(s: Seq<char>) -> nat
    decreases s.len(),
{
    if s.len() == 0 {
        0
    } else {
        byte_len(s.drop_last()) + width(s.last())
    }
}

proof fn lemma_byte_len_first(s: Seq<char>)
    requires
        s.len() > 0,
    ensures
        byte_len(s) == width(s[0]) + byte_len(s.skip(1)),
    decreases s.len(),
{
    if s.len() == 1 {
        assert(s.drop_last() =~= Seq::<char>::empty());
        assert(s.skip(1) =~= Seq::<char>::empty());
        assert(byte_len(Seq::<char>::empty()) == 0);
    } else {
        lemma_byte_len_first(s.drop_last());
        assert(s.drop_last().skip(1) =~= s.skip(1).drop_last());
    }
}

/// The widths of the characters add up to the length of the encoding.
pub proof fn lemma_byte_len(s: Seq<char>)
    ensures
        byte_len(s) == vstd::utf8::encode_utf8(s).len(),
    decreases s.len(),
{
    if s.len() > 0 {
        lemma_byte_len_first(s);
        lemma_byte_len(s.skip(1));
        assert(s.drop_first() =~= s.skip(1));
        let c = s[0];
        vstd::utf8::char_u32_cast(c, c as u32);
        assert(vstd::utf8::encode_scalar(c as u32).len() == width(c));
    }
}

/// The bytes of two texts add up.
pub proof fn lemma_byte_len_concat(a: Seq<char>, b: Seq<char>)
    ensures
        byte_len(a + b) == byte_len(a) + byte_len(b),
    decreases b.len(),
{
    if b.len() == 0 {
        assert(a + b =~= a);
    } else {
        lemma_byte_len_concat(a, b.drop_last());
        assert((a + b).drop_last() =~= a + b.drop_last());
    }
}

/// The longest beginning of `s` that fits into a number of bytes.
pub open spec fn fitted(s: Seq<char>, budget: nat) -> Seq<char>
    decreases s.len(),
{
    if byte_len(s) <= budget || s.len() == 0 {
        s
    } else {
        fitted(s.drop_last(), budget)
    }
}

proof fn lemma_byte_len_prefix(s: Seq<char>, n: int)
    requires
        0 <= n <= s.len(),
    ensures
        byte_len(s.take(n)) <= byte_len(s),
    decreases s.len(),
{
    if n < s.len() {
        lemma_byte_len_prefix(s.drop_last(), n);
        assert(s.drop_last().take(n) =~= s.take(n));
    } else {
        assert(s.take(n) =~= s);
    }
}

proof fn lemma_fitted_at(s: Seq<char>, budget: nat, n: int)
    requires
        0 <= n < s.len(),
        byte_len(s.take(n)) <= budget,
        byte_len(s.take(n + 1)) > budget,
    ensures
        fitted(s, budget) == s.take(n),
    decreases s.len(),
{
    lemma_byte_len_prefix(s, n + 1);
    if n == s.len() - 1 {
        assert(s.take(n + 1) =~= s);
        assert(s.drop_last() =~= s.take(n));
        assert(fitted(s.drop_last(), budget) == s.drop_last());
    } else {
        assert(s.drop_last().take(n) =~= s.take(n));
        assert(s.drop_last().take(n + 1) =~= s.take(n + 1));
        lemma_fitted_at(s.drop_last(), budget, n);
    }
}

/// The longest beginning of `s` that fits into a number of bytes.
pub fn fit(s: &str, budget: usize) -> (r: String)
    ensures
        r@ == fitted(s@, budget as nat),
{
    let all = chars_of(s);
    let mut left: usize = budget;
    let mut i: usize = 0;
    assert(all@.take(0) =~= Seq::<char>::empty());
    while i < all.len()
        invariant
            i <= all.len(),
            all@ == s@,
            left <= budget,
            byte_len(all@.take(i as int)) + left == budget,
        decreases all.len() - i,
    {
        let w: usize = char_width(all[i]);
        assert(all@.take(i + 1).drop_last() =~= all@.take(i as int));
        if w > left {
            proof {
                lemma_fitted_at(s@, budget as nat, i as int);
            }
            let r = string_of_range(&all, 0, i);
            assert(r@ =~= all@.take(i as int));
            return r;
        }
        left -= w;
        i += 1;
    }
    assert(all@.take(i as int) =~= all@);
    s.to_string()
}

/// What fits is a beginning of the text, and takes no more bytes than there
/// are.
pub proof fn lemma_fitted(s: Seq<char>, budget: nat)
    ensures
        byte_len(fitted(s, budget)) <= budget,
        fitted(s, budget).len() <= s.len(),
        fitted(s, budget) == s.take(fitted(s, budget).len() as int),
    decreases s.len(),
{
    if byte_len(s) <= budget || s.len() == 0 {
        assert(s.take(s.len() as int) =~= s);
    } else {
        lemma_fitted(s.drop_last(), budget);
        let n = fitted(s, budget).len() as int;
        assert(s.drop_last().take(n) =~= s.take(n));
    }
}

/// Digits take a byte each, and few are needed.
pub proof fn lemma_decimal_len(n: nat)
    ensures
        byte_len(decimal(n)) == decimal(n).len(),
        n < 0x1_0000_0000_0000_0000 ==> decimal(n).len() <= 20,
        n < 0x1_0000_0000_0000_0000_0000_0000_0000_0000 ==> decimal(n).len() <= 39,
{
    lemma_decimal_bytes(n);
    if n < 0x1_0000_0000_0000_0000 {
        assert(n < 100_000_000_000_000_000_000);
        assert(vstd::arithmetic::power::pow(10, 20) == 100_000_000_000_000_000_000) by {
            reveal_with_fuel(vstd::arithmetic::power::pow, 21);
        }
        lemma_decimal_digits(n, 20);
    }
    if n < 0x1_0000_0000_0000_0000_0000_0000_0000_0000 {
        assert(vstd::arithmetic::power::pow(10, 39)
            == 1_000_000_000_000_000_000_000_000_000_000_000_000_000) by {
            reveal_with_fuel(vstd::arithmetic::power::pow, 40);
        }
        lemma_decimal_digits(n, 39);
    }
}

proof fn lemma_decimal_bytes(n: nat)
    ensures
        byte_len(decimal(n)) == decimal(n).len(),
    decreases n,
{
    if n < 10 {
        let s = seq![digit(n as int)];
        assert(s.drop_last() =~= Seq::<char>::empty());
        assert(byte_len(Seq::<char>::empty()) == 0);
    } else {
        lemma_decimal_bytes(n / 10);
        let s = decimal(n);
        assert(s.drop_last() =~= decimal(n / 10));
    }
}

proof fn lemma_decimal_digits(n: nat, k: nat)
    requires
        k > 0,
        n < vstd::arithmetic::power::pow(10, k),
    ensures
        decimal(n).len() <= k,
    decreases n,
{
    if n >= 10 {
        reveal(vstd::arithmetic::power::pow);
        if k == 1 {
            assert(vstd::arithmetic::power::pow(10, 0) == 1);
        } else {
            lemma_decimal_digits(n / 10, (k - 1) as nat);
        }
    }
}

proof fn lemma_decimal_value(n: nat)
    ensures
        decimal(n).len() > 0,
        all_digits(decimal(n)),
        value_of_digits(decimal(n)) == n,
    decreases n,
{
    if n < 10 {
        assert(decimal(n)[0] == digit(n as int));
        assert(decimal(n).drop_last() =~= Seq::<char>::empty());
        assert(value_of_digits(Seq::empty()) == 0);
    } else {
        lemma_decimal_value(n / 10);
        let front = decimal(n / 10);
        assert(decimal(n).drop_last() =~= front);
        assert forall|i: int| 0 <= i < decimal(n).len() implies is_digit(
            #[trigger] decimal(n)[i],
        ) by {
            if i < front.len() {
                assert(decimal(n)[i] == front[i]);
            }
        }
    }
}

/// A number that is written in decimal reads back.
pub proof fn lemma_decimal_parses(n: nat)
    requires
        n <= u64::MAX,
    ensures
        parsed_u64(decimal(n)) == Some(n as u64),
        is_digit(decimal(n)[0]),
{
    lemma_decimal_value(n);
    assert(is_digit(decimal(n)[0]));
}

} // verus!
