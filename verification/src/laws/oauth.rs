//! How the answer of a browser is read, and where it is sent.
use crate::args;
use crate::model::CommandError;
use crate::oauth;
use crate::oauth::{LocalOAuthError, OAuthBrokerCliConfig, OAuthVariables};
use crate::quoting;
use crate::text;
use vstd::prelude::*;

verus! {

/// An address that a browser is sent back to is of this machine, with a port and a path, and
/// nothing else is.
pub proof fn law_browsers_come_back_to_this_machine(uri: Seq<char>)
    ensures
        oauth::redirect_parts(uri) matches Some(parts) ==> {
            let (port, path) = parts;
            &&& uri == "http://"@ + "localhost"@ + ":"@ + port + path || uri == "http://"@
                + "127.0.0.1"@ + ":"@ + port + path
            &&& text::all_digits(port)
            &&& text::parsed_u64(port) matches Some(n) && 0 < n <= 65535
            &&& path.len() > 0 && path[0] == '/'
        },
{
    reveal_strlit("/");
    lemma_parts(uri, "localhost"@);
    lemma_parts(uri, "127.0.0.1"@);
}

proof fn lemma_found(s: Seq<char>, p: Seq<char>, i: int)
    ensures
        text::found_from(s, p, i) matches Some(at) ==> i <= at && text::occurs_at(s, p, at),
    decreases s.len() + 1 - i,
{
    if i <= s.len() && !text::occurs_at(s, p, i) {
        lemma_found(s, p, i + 1);
    }
}

proof fn lemma_parts(uri: Seq<char>, host: Seq<char>)
    ensures
        oauth::local_parts(uri, host) matches Some(parts) ==> {
            let (port, path) = parts;
            &&& uri == "http://"@ + host + ":"@ + port + path
            &&& oauth::is_port(port)
            &&& path.len() > 0 && path[0] == '/'
        },
{
    reveal_strlit("/");
    let front = "http://"@ + host + ":"@;
    let rest = uri.skip(front.len() as int);
    lemma_found(rest, "/"@, 0);
    if let Some(parts) = oauth::local_parts(uri, host) {
        let i = text::found_from(rest, "/"@, 0)->0;
        assert(uri.subrange(0, front.len() as int) =~= uri.take(front.len() as int));
        assert(uri =~= front + rest);
        assert(rest =~= rest.take(i) + rest.skip(i));
        assert(uri =~= front + parts.0 + parts.1);
        assert(rest.subrange(i, i + 1)[0] == rest[i]);
        assert(rest.skip(i)[0] == rest[i]);
    }
}

proof fn lemma_encoded_first(b: u8, rest: Seq<u8>)
    ensures
        quoting::percent_encoded(seq![b] + rest) == quoting::percent_byte(b)
            + quoting::percent_encoded(rest),
    decreases rest.len(),
{
    let all = seq![b] + rest;
    if rest.len() == 0 {
        assert(all.drop_last() =~= Seq::<u8>::empty());
        assert(quoting::percent_encoded(Seq::<u8>::empty()) =~= Seq::<char>::empty());
        assert(quoting::percent_encoded(all) =~= quoting::percent_byte(b)
            + quoting::percent_encoded(rest));
    } else {
        assert(all.drop_last() =~= seq![b] + rest.drop_last());
        lemma_encoded_first(b, rest.drop_last());
        assert(quoting::percent_encoded(all) =~= quoting::percent_byte(b)
            + quoting::percent_encoded(rest));
    }
}

/// The characters of ASCII bytes.
pub open spec fn ascii(bytes: Seq<u8>) -> Seq<char> {
    bytes.map_values(|b: u8| b as char)
}

proof fn lemma_decoded(before: Seq<char>, bytes: Seq<u8>)
    requires
        forall|i: int| 0 <= i < bytes.len() ==> #[trigger] bytes[i] < 128,
    ensures
        oauth::decoded_from(
            before + quoting::percent_encoded(bytes),
            before.len() as int,
        ) == Some(ascii(bytes)),
    decreases bytes.len(),
{
    let n = before.len() as int;
    if bytes.len() == 0 {
        assert(ascii(bytes) =~= Seq::<char>::empty());
    } else {
        let b = bytes[0];
        let rest = bytes.skip(1);
        assert(bytes =~= seq![b] + rest);
        lemma_encoded_first(b, rest);
        let image = quoting::percent_byte(b);
        let all = before + quoting::percent_encoded(bytes);
        assert(all =~= (before + image) + quoting::percent_encoded(rest));
        lemma_decoded(before + image, rest);
        assert(all[n] == image[0]);
        assert(ascii(bytes) =~= seq![b as char] + ascii(rest));
        if !quoting::is_unreserved(b) {
            assert(all[n + 1] == image[1]);
            assert(all[n + 2] == image[2]);
            assert(16 * (b as int / 16) + b as int % 16 == b as int);
            assert(oauth::hex_digit(text::hex_upper(b as int / 16)) == Some(b as int / 16));
            assert(oauth::hex_digit(text::hex_upper(b as int % 16)) == Some(b as int % 16));
        }
    }
}

/// What was written for an address is read back as it was, where it is ASCII.
pub proof fn law_addresses_are_read_back(bytes: Seq<u8>)
    requires
        forall|i: int| 0 <= i < bytes.len() ==> #[trigger] bytes[i] < 128,
    ensures
        oauth::decoded_from(quoting::percent_encoded(bytes), 0) == Some(ascii(bytes)),
{
    lemma_decoded(Seq::empty(), bytes);
    assert(Seq::<char>::empty() + quoting::percent_encoded(bytes)
        =~= quoting::percent_encoded(bytes));
}

/// A plus sign in an address stands for a space.
pub proof fn law_plus_signs_are_spaces(rest: Seq<char>)
    ensures
        oauth::decoded_from(seq!['+'] + rest, 0) == (match oauth::decoded_from(
            seq!['+'] + rest,
            1,
        ) {
            Some(words) => Some(seq![' '] + words),
            None => None,
        }),
{
    assert((seq!['+'] + rest)[0] == '+');
}

/// A parameter is what stands behind its name and the equals sign, in the first pair that begins
/// with these.
pub proof fn law_parameters_stand_behind_their_name(
    before: Seq<Seq<char>>,
    name: Seq<char>,
    value: Seq<char>,
    rest: Seq<Seq<char>>,
)
    requires
        forall|i: int|
            0 <= i < before.len() ==> !text::begins_with(#[trigger] before[i], name + "="@),
    ensures
        oauth::parameter(before + (seq![name + "="@ + value] + rest), name) == Some(value),
        oauth::parameter(before, name) is None,
    decreases before.len(),
{
    let pair = name + "="@ + value;
    let all = before + (seq![pair] + rest);
    let n = (name + "="@).len() as int;
    if before.len() == 0 {
        assert(all[0] == pair);
        assert(pair.subrange(0, n) =~= name + "="@);
        assert(pair.skip(n) =~= value);
    } else {
        let fewer = before.skip(1);
        assert(all[0] == before[0]);
        assert(all.skip(1) =~= fewer + (seq![pair] + rest));
        assert forall|i: int| 0 <= i < fewer.len() implies !text::begins_with(
            #[trigger] fewer[i],
            name + "="@,
        ) by {
            assert(fewer[i] == before[i + 1]);
        }
        law_parameters_stand_behind_their_name(fewer, name, value, rest);
    }
}

/// Of several variables the first that is set counts; set to nothing, it counts as not set.
pub proof fn law_the_first_variable_counts(values: Seq<Option<String>>, i: int)
    requires
        0 <= i < values.len(),
        values[i] is Some,
        forall|j: int| 0 <= j < i ==> (#[trigger] values[j]) is None,
    ensures
        values[i]->0@.len() > 0 ==> oauth::first_set(values) == Some(values[i]->0@),
        values[i]->0@.len() == 0 ==> oauth::first_set(values) is None,
    decreases i,
{
    if i > 0 {
        let rest = values.skip(1);
        assert(rest[i - 1] == values[i]);
        assert forall|j: int| 0 <= j < i - 1 implies (#[trigger] rest[j]) is None by {
            assert(rest[j] == values[j + 1]);
        }
        law_the_first_variable_counts(rest, i - 1);
    }
}

/// An argument counts before a variable, and a variable before what is usual.
pub proof fn law_arguments_count_before_variables(
    argument: Option<Seq<char>>,
    variables: Seq<Option<String>>,
    default: Seq<char>,
)
    ensures
        argument is Some ==> oauth::chosen(argument, variables, default) == argument->0,
        argument is None && oauth::first_set(variables) is Some ==> oauth::chosen(
            argument,
            variables,
            default,
        ) == oauth::first_set(variables)->0,
        argument is None && oauth::first_set(variables) is None ==> oauth::chosen(
            argument,
            variables,
            default,
        ) == default,
{
}

/// A broker is used at the address and with the way back that were chosen, where that way leads to
/// this machine; else nothing is done.
pub proof fn law_brokers_are_used_as_chosen(
    all: Seq<Seq<char>>,
    variables: OAuthVariables,
    default_broker_url: Seq<char>,
    default_redirect_uri: Seq<char>,
    hint: Seq<char>,
    r: Result<OAuthBrokerCliConfig, CommandError>,
)
    requires
        oauth::is_broker_choice(
            all,
            variables,
            default_broker_url,
            default_redirect_uri,
            hint,
            r,
        ),
    ensures
        ({
            let back = oauth::chosen(
                args::value_of(all, "--redirect-uri"@),
                variables.redirect_uris@,
                default_redirect_uri,
            );
            &&& r is Ok <==> oauth::redirect_parts(back) is Some
            &&& r matches Ok(c) ==> c.redirect_uri@ == back && c.broker_url@ == oauth::chosen(
                args::value_of(all, "--broker-url"@),
                variables.broker_urls@,
                default_broker_url,
            )
            &&& r matches Err(e) ==> e.code@ == "invalid_redirect_uri"@ && !e.ok
                && text::opt_text(e.suggested_command) == Some(hint)
        }),
{
}

/// Why signing in failed is told as it is, with a hint exactly where the way back was wrong.
pub proof fn law_failed_sign_ins_are_told(
    error: CommandError,
    cause: LocalOAuthError,
    hint: Seq<char>,
)
    requires
        oauth::tells_oauth_error(error, cause, hint),
    ensures
        !error.ok,
        error.command@ == "connect"@,
        error.code@ == cause.code@,
        error.message@ == cause.message@,
        error.suggested_command is Some <==> cause.code@ == "invalid_redirect_uri"@,
        error.suggested_command matches Some(said) ==> said@ == hint,
{
}

} // verus!
