//! Quoting and escaping of text for shells, YAML, JSON, systemd and URLs.
use vstd::prelude::*;

use crate::text;

verus! {

/// A set of characters that need no quoting.
#[derive(Clone, Copy, Debug, PartialEq, Eq, Structural)]
pub enum SafeSet {
    /// Safe in a shell command.
    ShellWord,
    /// Safe in a path that is shown as a shell argument or a systemd word.
    PathWord,
    /// Safe as an unquoted YAML scalar.
    YamlScalar,
    /// Safe in a file or unit name.
    Name,
}

impl SafeSet {
    /// Whether `c` is in the set.
    pub open spec fn has_spec(self, c: char) -> bool {
        ||| text::is_ascii_alphanumeric(c)
        ||| match self {
            SafeSet::ShellWord => c == '/' || c == '.' || c == '_' || c == '-' || c == '~'
                || c == ':' || c == '=',
            SafeSet::PathWord => c == '/' || c == '.' || c == '_' || c == '-' || c == ':',
            SafeSet::YamlScalar => c == ' ' || c == '-' || c == '_' || c == '.',
            SafeSet::Name => c == '-' || c == '_' || c == '.',
        }
    }

    /// Whether every character of `s` is in the set.
    pub open spec fn covers_spec(self, s: Seq<char>) -> bool {
        forall|i: int| 0 <= i < s.len() ==> self.has_spec(#[trigger] s[i])
    }

    /// Whether `c` is in the set.
    pub fn has(self, c: char) -> (r: bool)
        ensures
            r == self.has_spec(c),
    {
        text::is_ascii_alphanumeric(c) || match self {
            SafeSet::ShellWord => c == '/' || c == '.' || c == '_' || c == '-' || c == '~'
                || c == ':' || c == '=',
            SafeSet::PathWord => c == '/' || c == '.' || c == '_' || c == '-' || c == ':',
            SafeSet::YamlScalar => c == ' ' || c == '-' || c == '_' || c == '.',
            SafeSet::Name => c == '-' || c == '_' || c == '.',
        }
    }

    /// Whether every character of `s` is in the set.
    pub fn covers(self, s: &str) -> (r: bool)
        ensures
            r == self.covers_spec(s@),
    {
        let v = text::chars_of(s);
        let mut i: usize = 0;
        while i < v.len()
            invariant
                i <= v.len(),
                v@ == s@,
                forall|k: int| 0 <= k < i ==> self.has_spec(#[trigger] v@[k]),
            decreases v.len() - i,
        {
            if !self.has(v[i]) {
                assert(!self.has_spec(s@[i as int]));
                return false;
            }
            i += 1;
        }
        true
    }
}

/// A rule that writes each character of a text as one or more characters.
#[derive(Clone, Copy, Debug, PartialEq, Eq, Structural)]
pub enum Expansion {
    /// Inside single quotes of a shell: a single quote ends the quotes, stands
    /// escaped, and opens them again.
    ShellQuoted,
    /// Backslash and double quote get a backslash in front.
    Quotes,
    /// Backslash, double quote, dollar and backquote get a backslash in front.
    Systemd,
    /// As `Quotes`, and line feed, carriage return and tab are written by letter.
    Yaml,
}

impl Expansion {
    /// What `c` is written as.
    pub open spec fn image(self, c: char) -> Seq<char> {
        match self {
            Expansion::ShellQuoted => if c == '\'' {
                seq!['\'', '\\', '\'', '\'']
            } else {
                seq![c]
            },
            Expansion::Quotes => if c == '\\' || c == '"' {
                seq!['\\', c]
            } else {
                seq![c]
            },
            Expansion::Systemd => if c == '\\' || c == '"' || c == '$' || c == '`' {
                seq!['\\', c]
            } else {
                seq![c]
            },
            Expansion::Yaml => if c == '\\' || c == '"' {
                seq!['\\', c]
            } else if c == '\n' {
                seq!['\\', 'n']
            } else if c == '\r' {
                seq!['\\', 'r']
            } else if c == '\t' {
                seq!['\\', 't']
            } else {
                seq![c]
            },
        }
    }

    /// What `s` is written as.
    pub open spec fn expand(self, s: Seq<char>) -> Seq<char>
        decreases s.len(),
    {
        if s.len() == 0 {
            Seq::empty()
        } else {
            self.expand(s.drop_last()) + self.image(s.last())
        }
    }

    fn push_image(self, out: &mut String, c: char)
        ensures
            final(out)@ == old(out)@ + self.image(c),
    {
        let ghost before = out@;
        match self {
            Expansion::ShellQuoted => {
                if c == '\'' {
                    out.push('\'');
                    out.push('\\');
                    out.push('\'');
                }
                out.push(c);
            },
            Expansion::Quotes => {
                if c == '\\' || c == '"' {
                    out.push('\\');
                }
                out.push(c);
            },
            Expansion::Systemd => {
                if c == '\\' || c == '"' || c == '$' || c == '`' {
                    out.push('\\');
                }
                out.push(c);
            },
            Expansion::Yaml => {
                if c == '\\' || c == '"' {
                    out.push('\\');
                    out.push(c);
                } else if c == '\n' {
                    out.push('\\');
                    out.push('n');
                } else if c == '\r' {
                    out.push('\\');
                    out.push('r');
                } else if c == '\t' {
                    out.push('\\');
                    out.push('t');
                } else {
                    out.push(c);
                }
            },
        }
        assert(out@ =~= before + self.image(c));
    }

    /// Writes `s` at the end of `out`.
    pub fn write(self, out: &mut String, s: &str)
        ensures
            final(out)@ == old(out)@ + self.expand(s@),
    {
        let ghost before = out@;
        let v = text::chars_of(s);
        let mut i: usize = 0;
        assert(v@.take(0) == Seq::<char>::empty());
        while i < v.len()
            invariant
                i <= v.len(),
                v@ == s@,
                out@ == before + self.expand(v@.take(i as int)),
            decreases v.len() - i,
        {
            self.push_image(out, v[i]);
            assert(v@.take(i + 1).drop_last() == v@.take(i as int));
            i += 1;
        }
        assert(v@.take(i as int) == s@);
    }

    /// The first character is written first.
    pub proof fn lemma_expand_first(self, s: Seq<char>)
        requires
            s.len() > 0,
        ensures
            self.expand(s) == self.image(s[0]) + self.expand(s.skip(1)),
        decreases s.len(),
    {
        if s.len() == 1 {
            assert(s.drop_last() == Seq::<char>::empty());
            assert(s.skip(1) == Seq::<char>::empty());
        } else {
            self.lemma_expand_first(s.drop_last());
            assert(s.drop_last().skip(1) == s.skip(1).drop_last());
        }
    }
}

/// `s` between a pair of `quote`.
pub open spec fn between(quote: char, s: Seq<char>) -> Seq<char> {
    seq![quote] + s + seq![quote]
}

fn quoted(expansion: Expansion, quote: char, value: &str) -> (r: String)
    ensures
        r@ == between(quote, expansion.expand(value@)),
{
    let mut out = String::new();
    out.push(quote);
    assert(out@ =~= seq![quote]);
    expansion.write(&mut out, value);
    out.push(quote);
    assert(out@ =~= between(quote, expansion.expand(value@)));
    out
}

/// `value` as one shell word: as it is where every character is safe, else in
/// single quotes.
pub open spec fn shell_word(safe: SafeSet, value: Seq<char>) -> Seq<char> {
    if safe.covers_spec(value) {
        value
    } else {
        between('\'', Expansion::ShellQuoted.expand(value))
    }
}

/// `value` as it is where every character is safe, else in double quotes with
/// `expansion` applied.
pub open spec fn double_quoted(safe: SafeSet, expansion: Expansion, value: Seq<char>) -> Seq<char> {
    if safe.covers_spec(value) {
        value
    } else {
        between('"', expansion.expand(value))
    }
}

/// `value` as a shell word in a suggested command.
pub fn shell_quote(value: &str) -> (r: String)
    ensures
        r@ == shell_word(SafeSet::ShellWord, value@),
{
    if SafeSet::ShellWord.covers(value) {
        return value.to_string();
    }
    quoted(Expansion::ShellQuoted, '\'', value)
}

/// A path as a shell word in a suggested command.
pub fn shell_quote_path(path: &str) -> (r: String)
    ensures
        r@ == shell_word(SafeSet::PathWord, path@),
{
    if SafeSet::PathWord.covers(path) {
        return path.to_string();
    }
    quoted(Expansion::ShellQuoted, '\'', path)
}

/// `value` as a word of a systemd unit.
pub fn systemd_quote(value: &str) -> (r: String)
    ensures
        r@ == double_quoted(SafeSet::PathWord, Expansion::Systemd, value@),
{
    if SafeSet::PathWord.covers(value) {
        return value.to_string();
    }
    quoted(Expansion::Systemd, '"', value)
}

/// `value` as a YAML scalar, quoted where needed.
pub fn yaml_string(value: &str) -> (r: String)
    ensures
        r@ == double_quoted(SafeSet::YamlScalar, Expansion::Quotes, value@),
{
    if SafeSet::YamlScalar.covers(value) {
        return value.to_string();
    }
    quoted(Expansion::Quotes, '"', value)
}

/// `value` as a double-quoted YAML scalar.
pub fn yaml_double_quoted(value: &str) -> (r: String)
    ensures
        r@ == between('"', Expansion::Yaml.expand(value@)),
{
    quoted(Expansion::Yaml, '"', value)
}

/// `value` with backslashes and double quotes escaped.
pub fn escape_json_string(value: &str) -> (r: String)
    ensures
        r@ == Expansion::Quotes.expand(value@),
{
    let mut out = String::new();
    Expansion::Quotes.write(&mut out, value);
    assert(out@ =~= Expansion::Quotes.expand(value@));
    out
}

/// How a POSIX shell reads one word: outside quotes a backslash stands for the
/// next character and a single quote opens quotes; inside them everything
/// stands for itself up to the closing quote.
pub open spec fn shell_reads(s: Seq<char>, quotes: bool) -> Seq<char>
    decreases s.len(),
{
    if s.len() == 0 {
        Seq::empty()
    } else if s[0] == '\'' {
        shell_reads(s.skip(1), !quotes)
    } else if !quotes && s[0] == '\\' && s.len() > 1 {
        seq![s[1]] + shell_reads(s.skip(2), quotes)
    } else {
        seq![s[0]] + shell_reads(s.skip(1), quotes)
    }
}

proof fn lemma_shell_reads_safe(safe: SafeSet, s: Seq<char>)
    requires
        safe.covers_spec(s),
    ensures
        shell_reads(s, false) == s,
    decreases s.len(),
{
    if s.len() > 0 {
        assert(safe.has_spec(s[0]));
        assert forall|i: int| 0 <= i < s.skip(1).len() implies safe.has_spec(
            #[trigger] s.skip(1)[i],
        ) by {
            assert(safe.has_spec(s[i + 1]));
        }
        lemma_shell_reads_safe(safe, s.skip(1));
        assert(seq![s[0]] + s.skip(1) == s);
    }
}

proof fn lemma_shell_reads_quoted(s: Seq<char>)
    ensures
        shell_reads(Expansion::ShellQuoted.expand(s) + seq!['\''], true) == s,
    decreases s.len(),
{
    let e = Expansion::ShellQuoted;
    let end = seq!['\''];
    if s.len() == 0 {
        assert((e.expand(s) + end).skip(1) == Seq::<char>::empty());
        assert(shell_reads(Seq::<char>::empty(), false) == Seq::<char>::empty());
    } else {
        e.lemma_expand_first(s);
        lemma_shell_reads_quoted(s.skip(1));
        let rest = e.expand(s.skip(1)) + end;
        let all = e.expand(s) + end;
        if s[0] == '\'' {
            assert(all == seq!['\'', '\\', '\'', '\''] + rest);
            let a1 = all.skip(1);
            let a2 = a1.skip(2);
            assert(a1[0] == '\\' && a1[1] == '\'');
            assert(a2 == seq!['\''] + rest);
            assert(a2.skip(1) == rest);
            assert(shell_reads(a2, false) == shell_reads(rest, true));
            assert(shell_reads(a1, false) == seq!['\''] + shell_reads(a2, false));
            assert(shell_reads(all, true) == shell_reads(a1, false));
        } else {
            assert(all == seq![s[0]] + rest);
            assert(all.skip(1) == rest);
        }
        assert(seq![s[0]] + s.skip(1) == s);
    }
}

/// A shell reads back the text that was quoted for it.
pub proof fn law_shell_reads_what_was_quoted(safe: SafeSet, value: Seq<char>)
    ensures
        shell_reads(shell_word(safe, value), false) == value,
{
    if safe.covers_spec(value) {
        lemma_shell_reads_safe(safe, value);
    } else {
        lemma_shell_reads_quoted(value);
        let q = between('\'', Expansion::ShellQuoted.expand(value));
        assert(q.skip(1) == Expansion::ShellQuoted.expand(value) + seq!['\'']);
    }
}

/// How a reader of double-quoted text undoes its escapes.
pub open spec fn unescape(s: Seq<char>) -> Seq<char>
    decreases s.len(),
{
    if s.len() == 0 {
        Seq::empty()
    } else if s[0] == '\\' && s.len() > 1 {
        let c = if s[1] == 'n' {
            '\n'
        } else if s[1] == 'r' {
            '\r'
        } else if s[1] == 't' {
            '\t'
        } else {
            s[1]
        };
        seq![c] + unescape(s.skip(2))
    } else {
        seq![s[0]] + unescape(s.skip(1))
    }
}

/// Undoing the escapes of double-quoted text gives the text back.
pub proof fn law_unescape_undoes_escapes(expansion: Expansion, value: Seq<char>)
    requires
        expansion != Expansion::ShellQuoted,
    ensures
        unescape(expansion.expand(value)) == value,
    decreases value.len(),
{
    if value.len() > 0 {
        expansion.lemma_expand_first(value);
        law_unescape_undoes_escapes(expansion, value.skip(1));
        let rest = expansion.expand(value.skip(1));
        let all = expansion.expand(value);
        let image = expansion.image(value[0]);
        if image.len() == 2 {
            assert(all.skip(2) == rest);
            assert(all[0] == '\\' && all[1] == image[1]);
        } else {
            assert(all.skip(1) == rest);
            assert(all[0] == value[0]);
        }
        assert(seq![value[0]] + value.skip(1) == value);
    }
}

/// No unescaped double quote ends the text early: in what is written, every
/// double quote has a backslash in front.
pub proof fn law_escapes_leave_no_bare_quote(expansion: Expansion, value: Seq<char>, i: int)
    requires
        expansion != Expansion::ShellQuoted,
        0 <= i < expansion.expand(value).len(),
        expansion.expand(value)[i] == '"',
    ensures
        i > 0 && expansion.expand(value)[i - 1] == '\\',
    decreases value.len(),
{
    let before = expansion.expand(value.drop_last());
    if i < before.len() {
        law_escapes_leave_no_bare_quote(expansion, value.drop_last(), i);
    }
}

/// The characters that a URL may hold as they are.
pub open spec fn is_unreserved(b: u8) -> bool {
    ||| 'A' as u8 <= b <= 'Z' as u8
    ||| 'a' as u8 <= b <= 'z' as u8
    ||| '0' as u8 <= b <= '9' as u8
    ||| b == '-' as u8
    ||| b == '_' as u8
    ||| b == '.' as u8
    ||| b == '~' as u8
}

/// One byte as it stands in a URL.
pub open spec fn percent_byte(b: u8) -> Seq<char> {
    if is_unreserved(b) {
        seq![b as char]
    } else {
        seq!['%', text::hex_upper(b as int / 16), text::hex_upper(b as int % 16)]
    }
}

/// Bytes as they stand in a URL.
pub open spec fn percent_encoded(bytes: Seq<u8>) -> Seq<char>
    decreases bytes.len(),
{
    if bytes.len() == 0 {
        Seq::empty()
    } else {
        percent_encoded(bytes.drop_last()) + percent_byte(bytes.last())
    }
}

/// `value` with every byte outside the unreserved ones written as `%` and two
/// hexadecimal digits.
pub fn url_encode(value: &str) -> (r: String)
    ensures
        r@ == percent_encoded(vstd::utf8::encode_utf8(value@)),
{
    let bytes = value.as_bytes();
    let mut encoded = String::new();
    let mut i: usize = 0;
    assert(bytes@.take(0) == Seq::<u8>::empty());
    while i < bytes.len()
        invariant
            i <= bytes.len(),
            encoded@ == percent_encoded(bytes@.take(i as int)),
        decreases bytes.len() - i,
    {
        let b: u8 = bytes[i];
        let ghost before = encoded@;
        if (65 <= b && b <= 90) || (97 <= b && b <= 122) || (48 <= b && b <= 57) || b == 45
            || b == 95 || b == 46 || b == 126 {
            encoded.push(b as char);
        } else {
            encoded.push('%');
            encoded.push(text::hex_upper_digit(b / 16));
            encoded.push(text::hex_upper_digit(b % 16));
        }
        assert(encoded@ =~= before + percent_byte(b));
        assert(bytes@.take(i + 1).drop_last() == bytes@.take(i as int));
        i += 1;
    }
    assert(bytes@.take(i as int) == vstd::utf8::encode_utf8(value@));
    encoded
}

/// The value of a hexadecimal digit.
pub open spec fn hex_value(c: char) -> int {
    if '0' <= c <= '9' {
        c as int - '0' as int
    } else {
        c as int - 'A' as int + 10
    }
}

/// How a reader of a URL undoes the percent signs.
pub open spec fn percent_decoded(s: Seq<char>) -> Seq<u8>
    decreases s.len(),
{
    if s.len() == 0 {
        Seq::empty()
    } else if s[0] == '%' && s.len() > 2 {
        seq![(16 * hex_value(s[1]) + hex_value(s[2])) as u8] + percent_decoded(s.skip(3))
    } else {
        seq![s[0] as u8] + percent_decoded(s.skip(1))
    }
}

proof fn lemma_percent_encoded_first(bytes: Seq<u8>)
    requires
        bytes.len() > 0,
    ensures
        percent_encoded(bytes) == percent_byte(bytes[0]) + percent_encoded(bytes.skip(1)),
    decreases bytes.len(),
{
    if bytes.len() == 1 {
        assert(bytes.drop_last() == Seq::<u8>::empty());
        assert(bytes.skip(1) == Seq::<u8>::empty());
    } else {
        lemma_percent_encoded_first(bytes.drop_last());
        assert(bytes.drop_last().skip(1) == bytes.skip(1).drop_last());
    }
}

/// Decoding an encoded text gives its bytes back.
pub proof fn law_percent_decoding_undoes_encoding(bytes: Seq<u8>)
    ensures
        percent_decoded(percent_encoded(bytes)) == bytes,
    decreases bytes.len(),
{
    if bytes.len() > 0 {
        lemma_percent_encoded_first(bytes);
        law_percent_decoding_undoes_encoding(bytes.skip(1));
        let b = bytes[0];
        let rest = percent_encoded(bytes.skip(1));
        let all = percent_encoded(bytes);
        if is_unreserved(b) {
            assert(all.skip(1) == rest);
            assert(all[0] == b as char);
        } else {
            assert(all.skip(3) == rest);
            assert(all[1] == text::hex_upper(b as int / 16));
            assert(all[2] == text::hex_upper(b as int % 16));
            assert(16 * hex_value(all[1]) + hex_value(all[2]) == b);
        }
        assert(seq![b] + bytes.skip(1) == bytes);
    }
}

/// An encoded text holds nothing but unreserved characters and percent signs.
pub proof fn law_percent_encoded_is_url_safe(bytes: Seq<u8>, i: int)
    requires
        0 <= i < percent_encoded(bytes).len(),
    ensures
        percent_encoded(bytes)[i] == '%' || is_unreserved(percent_encoded(bytes)[i] as u8)
            && percent_encoded(bytes)[i] < 128 as char,
    decreases bytes.len(),
{
    let before = percent_encoded(bytes.drop_last());
    if i < before.len() {
        law_percent_encoded_is_url_safe(bytes.drop_last(), i);
    }
}

} // verus!
