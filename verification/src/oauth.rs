//! Authorising in a browser: addresses, the redirect to this machine, and the
//! answer that comes back through it.
use vstd::prelude::*;

use crate::args;
use crate::model;
use crate::model::CommandError;
use crate::quoting;
use crate::text;

verus! {

/// Where Notion asks a person for their consent.
pub const NOTION_OAUTH_AUTHORIZE_URL: &'static str = "https://api.notion.com/v1/oauth/authorize";

/// Where the browser comes back to after a consent, unless told otherwise.
pub const DEFAULT_NOTION_REDIRECT_URI: &'static str = "http://localhost:8757/oauth/notion/callback";

/// Why an authorisation did not come about.
#[derive(Debug, PartialEq, Eq)]
pub struct LocalOAuthError {
    pub code: &'static str,
    pub message: String,
}

/// Whether an error says just this.
pub open spec fn is_oauth_error(
    error: LocalOAuthError,
    code: Seq<char>,
    message: Seq<char>,
) -> bool {
    error.code@ == code && error.message@ == message
}

/// What a consent gives.
#[derive(Debug, PartialEq, Eq)]
pub struct LocalOAuthAuthorization {
    pub code: String,
}

/// Where to wait for the browser to come back.
#[derive(Debug, PartialEq, Eq)]
pub struct LocalRedirect {
    pub bind_addr: String,
    pub callback_path: String,
}

/// The parts of an address on this machine: the port, and the path.
pub open spec fn local_parts(uri: Seq<char>, host: Seq<char>) -> Option<(Seq<char>, Seq<char>)> {
    let front = "http://"@ + host + ":"@;
    let rest = uri.skip(front.len() as int);
    match text::found_from(rest, "/"@, 0) {
        Some(i) => if text::begins_with(uri, front) && is_port(rest.take(i)) {
            Some((rest.take(i), rest.skip(i)))
        } else {
            None
        },
        None => None,
    }
}

/// Whether digits name a port.
pub open spec fn is_port(digits: Seq<char>) -> bool {
    text::all_digits(digits) && (text::parsed_u64(digits) matches Some(n) && 0 < n <= 65535)
}

/// The parts of an address on this machine, by name or by number.
pub open spec fn redirect_parts(uri: Seq<char>) -> Option<(Seq<char>, Seq<char>)> {
    match local_parts(uri, "localhost"@) {
        Some(parts) => Some(parts),
        None => local_parts(uri, "127.0.0.1"@),
    }
}

fn is_port_text(digits: &str) -> (r: bool)
    ensures
        r == is_port(digits@),
{
    let chars = text::chars_of(digits);
    let mut i: usize = 0;
    while i < chars.len()
        invariant
            i <= chars.len(),
            chars@ == digits@,
            forall|k: int| 0 <= k < i ==> text::is_digit(#[trigger] digits@[k]),
        decreases chars.len() - i,
    {
        if !text::is_digit(chars[i]) {
            assert(!text::is_digit(digits@[i as int]));
            return false;
        }
        i += 1;
    }
    match text::parse_u64(digits) {
        Some(n) => 0 < n && n <= 65535,
        None => false,
    }
}

fn local_parts_of(uri: &str, host: &str) -> (r: Option<(String, String)>)
    ensures
        match local_parts(uri@, host@) {
            Some((port, path)) => r matches Some(p) && p.0@ == port && p.1@ == path,
            None => r is None,
        },
{
    let front = text::concat3("http://", host, ":");
    if !text::starts_with(uri, &front) {
        return None;
    }
    let chars = text::chars_of(uri);
    let start: usize = text::chars_of(&front).len();
    let rest = text::char_range(&chars, start, chars.len());
    assert(rest@ =~= uri@.skip(start as int));
    let slash = text::chars_of("/");
    match text::find_from(&rest, &slash, 0) {
        Some(i) => {
            let port = text::string_of_range(&rest, 0, i);
            let path = text::string_of_range(&rest, i, rest.len());
            assert(port@ =~= rest@.take(i as int));
            assert(path@ =~= rest@.skip(i as int));
            if is_port_text(&port) {
                Some((port, path))
            } else {
                None
            }
        },
        None => None,
    }
}

/// Where to wait for the browser to come back. The address has to be one of
/// this machine, with a port and a path.
pub fn local_redirect(redirect_uri: &str) -> (r: Result<LocalRedirect, LocalOAuthError>)
    ensures
        match redirect_parts(redirect_uri@) {
            Some((port, path)) => r matches Ok(redirect) && redirect.bind_addr@ == "127.0.0.1:"@
                + port && redirect.callback_path@ == path,
            None => r matches Err(e) && is_oauth_error(
                e,
                "invalid_redirect_uri"@,
                "redirect URI `"@ + redirect_uri@
                    + "` must be http://localhost:<port>/<path> or http://127.0.0.1:<port>/<path>"@,
            ),
        },
{
    let parts = match local_parts_of(redirect_uri, "localhost") {
        Some(parts) => Some(parts),
        None => local_parts_of(redirect_uri, "127.0.0.1"),
    };
    match parts {
        Some((port, path)) => {
            let mut bind_addr = "127.0.0.1:".to_string();
            bind_addr.append(&port);
            Ok(LocalRedirect { bind_addr, callback_path: path })
        },
        None => Err(
            LocalOAuthError {
                code: "invalid_redirect_uri",
                message: text::concat3(
                    "redirect URI `",
                    redirect_uri,
                    "` must be http://localhost:<port>/<path> or http://127.0.0.1:<port>/<path>",
                ),
            },
        ),
    }
}

/// The value of a hexadecimal digit.
pub open spec fn hex_digit(c: char) -> Option<int> {
    if '0' <= c <= '9' {
        Some(c as int - 48)
    } else if 'a' <= c <= 'f' {
        Some(c as int - 87)
    } else if 'A' <= c <= 'F' {
        Some(c as int - 55)
    } else {
        None
    }
}

fn hex_digit_value(c: char) -> (r: Option<u32>)
    ensures
        match r {
            Some(n) => hex_digit(c) == Some(n as int) && n < 16,
            None => hex_digit(c) is None,
        },
{
    if '0' <= c && c <= '9' {
        Some(c as u32 - 48)
    } else if 'a' <= c && c <= 'f' {
        Some(c as u32 - 87)
    } else if 'A' <= c && c <= 'F' {
        Some(c as u32 - 55)
    } else {
        None
    }
}

/// What a percent sign and the two digits behind it stand for, where that is an
/// ASCII character.
pub open spec fn escape_at(s: Seq<char>, i: int) -> Option<char> {
    if i + 2 < s.len() {
        match (hex_digit(s[i + 1]), hex_digit(s[i + 2])) {
            (Some(high), Some(low)) => if high < 8 {
                Some((16 * high + low) as char)
            } else {
                None
            },
            _ => None,
        }
    } else {
        None
    }
}

/// A value as it was before it was put into an address, from position `i` on.
pub open spec fn decoded_from(s: Seq<char>, i: int) -> Option<Seq<char>>
    decreases s.len() - i,
{
    if i >= s.len() {
        Some(Seq::empty())
    } else if s[i] == '%' {
        match escape_at(s, i) {
            Some(c) => match decoded_from(s, i + 3) {
                Some(rest) => Some(seq![c] + rest),
                None => None,
            },
            None => None,
        }
    } else {
        match decoded_from(s, i + 1) {
            Some(rest) => Some(
                seq![
                    if s[i] == '+' {
                        ' '
                    } else {
                        s[i]
                    },
                ] + rest,
            ),
            None => None,
        }
    }
}

/// Whether what was decoded so far, with the rest, is the whole.
spec fn continues(done: Seq<char>, rest: Option<Seq<char>>, whole: Option<Seq<char>>) -> bool {
    match rest {
        Some(r) => whole == Some(done + r),
        None => whole is None,
    }
}

fn decode(s: &str) -> (r: Option<String>)
    ensures
        text::opt_text(r) == decoded_from(s@, 0),
{
    let chars = text::chars_of(s);
    let ghost whole = decoded_from(s@, 0);
    let mut out = String::new();
    let mut i: usize = 0;
    assert(continues(out@, decoded_from(s@, 0), whole)) by {
        if let Some(r) = whole {
            assert(out@ + r =~= r);
        }
    }
    while i < chars.len()
        invariant
            i <= chars.len(),
            chars@ == s@,
            whole == decoded_from(s@, 0),
            continues(out@, decoded_from(s@, i as int), whole),
        decreases chars.len() - i,
    {
        let ghost before = out@;
        let ghost rest = decoded_from(s@, i as int);
        if chars[i] == '%' {
            if chars.len() - i < 3 {
                return None;
            }
            match (hex_digit_value(chars[i + 1]), hex_digit_value(chars[i + 2])) {
                (Some(high), Some(low)) => {
                    if high >= 8 {
                        return None;
                    }
                    let code: u8 = (16 * high + low) as u8;
                    out.push(code as char);
                    assert(escape_at(s@, i as int) == Some(code as char));
                    proof {
                        if let Some(r) = decoded_from(s@, i + 3) {
                            assert(before + (seq![code as char] + r) =~= out@ + r);
                        }
                    }
                },
                _ => {
                    return None;
                },
            }
            i += 3;
        } else {
            let c = if chars[i] == '+' {
                ' '
            } else {
                chars[i]
            };
            out.push(c);
            proof {
                if let Some(r) = decoded_from(s@, i + 1) {
                    assert(before + (seq![c] + r) =~= out@ + r);
                }
            }
            i += 1;
        }
    }
    assert(out@ + Seq::<char>::empty() =~= out@);
    Some(out)
}

/// What stands behind a name and `=` in the first pair that begins so.
pub open spec fn parameter(pairs: Seq<Seq<char>>, name: Seq<char>) -> Option<Seq<char>>
    decreases pairs.len(),
{
    if pairs.len() == 0 {
        None
    } else if text::begins_with(pairs[0], name + "="@) {
        Some(pairs[0].skip((name + "="@).len() as int))
    } else {
        parameter(pairs.skip(1), name)
    }
}

fn find_parameter(pairs: &Vec<String>, name: &str) -> (r: Option<String>)
    ensures
        text::opt_text(r) == parameter(text::texts(pairs@), name@),
{
    let ghost all = text::texts(pairs@);
    let mut front = name.to_string();
    front.append("=");
    let start: usize = text::chars_of(&front).len();
    let mut i: usize = 0;
    assert(all.skip(0) == all);
    while i < pairs.len()
        invariant
            i <= pairs.len(),
            all == text::texts(pairs@),
            front@ == name@ + "="@,
            start == front@.len(),
            parameter(all, name@) == parameter(all.skip(i as int), name@),
        decreases pairs.len() - i,
    {
        assert(all.skip(i as int)[0] == pairs[i as int]@);
        assert(all.skip(i as int).skip(1) == all.skip(i + 1));
        if text::starts_with(&pairs[i], &front) {
            let chars = text::chars_of(&pairs[i]);
            let value = text::string_of_range(&chars, start, chars.len());
            assert(value@ =~= pairs[i as int]@.skip(start as int));
            return Some(value);
        }
        i += 1;
    }
    None
}

/// The path and the query of a request for something; nothing where the
/// request is not a `GET`.
pub open spec fn requested(request: Seq<char>) -> Option<(Seq<char>, Seq<char>)> {
    let all = text::lines(request);
    let words = text::pieces(all[0], ' ');
    if all.len() > 0 && words.len() >= 2 && words[0] == "GET"@ {
        match text::found_from(words[1], "?"@, 0) {
            Some(i) => Some((words[1].take(i), words[1].skip(i + 1))),
            None => Some((words[1], Seq::empty())),
        }
    } else {
        None
    }
}

fn requested_target(request: &str) -> (r: Option<(String, String)>)
    ensures
        match requested(request@) {
            Some((path, query)) => r matches Some(p) && p.0@ == path && p.1@ == query,
            None => r is None,
        },
{
    let lines = text::lines_of(request);
    if lines.len() == 0 {
        assert(text::texts(lines@).len() == 0);
        return None;
    }
    assert(text::texts(lines@)[0] == lines[0]@);
    let words = text::split(&lines[0], ' ');
    let ghost all = text::texts(words@);
    if words.len() < 2 {
        return None;
    }
    assert(all[0] == words[0]@ && all[1] == words[1]@);
    if !text::same_text(&words[0], "GET") {
        return None;
    }
    let chars = text::chars_of(&words[1]);
    let mark = text::chars_of("?");
    proof {
        reveal_strlit("?");
    }
    match text::find_from(&chars, &mark, 0) {
        Some(i) => {
            let path = text::string_of_range(&chars, 0, i);
            let query = text::string_of_range(&chars, i + 1, chars.len());
            assert(path@ =~= words[1]@.take(i as int));
            assert(query@ =~= words[1]@.skip(i + 1));
            Some((path, query))
        },
        None => Some((words[1].clone(), String::new())),
    }
}

/// A parameter of a query, decoded.
pub open spec fn query_value(query: Seq<char>, name: Seq<char>) -> Option<Seq<char>> {
    match parameter(text::pieces(query, '&'), name) {
        Some(value) => decoded_from(value, 0),
        None => None,
    }
}

fn query_value_of(pairs: &Vec<String>, name: &str) -> (r: Option<String>)
    ensures
        text::opt_text(r) == (match parameter(text::texts(pairs@), name@) {
            Some(value) => decoded_from(value, 0),
            None => None,
        }),
{
    match find_parameter(pairs, name) {
        Some(value) => decode(&value),
        None => None,
    }
}

/// What the browser brought back. It has to come to the right path with the
/// state that was sent along, and to bring a code.
pub fn parse_oauth_callback(
    request: &str,
    callback_path: &str,
    expected_state: &str,
) -> (r: Result<LocalOAuthAuthorization, LocalOAuthError>)
    ensures
        match requested(request@) {
            None => r matches Err(e) && is_oauth_error(
                e,
                "oauth_callback_invalid"@,
                "OAuth callback request could not be parsed"@,
            ),
            Some((path, query)) => if path != callback_path@ {
                r matches Err(e) && is_oauth_error(
                    e,
                    "oauth_callback_invalid"@,
                    "OAuth callback path `"@ + path + "` was not expected"@,
                )
            } else if query_value(query, "state"@) != Some(expected_state@) {
                r matches Err(e) && is_oauth_error(
                    e,
                    "oauth_state_mismatch"@,
                    "OAuth callback state did not match"@,
                )
            } else {
                match (query_value(query, "error"@), query_value(query, "code"@)) {
                    (Some(why), _) => r matches Err(e) && is_oauth_error(
                        e,
                        "oauth_denied"@,
                        "OAuth authorization failed: "@ + why,
                    ),
                    (None, Some(code)) => r matches Ok(a) && a.code@ == code,
                    (None, None) => r matches Err(e) && is_oauth_error(
                        e,
                        "oauth_code_missing"@,
                        "OAuth callback did not include a code"@,
                    ),
                }
            },
        },
{
    let (path, query) = match requested_target(request) {
        Some(target) => target,
        None => {
            return Err(
                LocalOAuthError {
                    code: "oauth_callback_invalid",
                    message: "OAuth callback request could not be parsed".to_string(),
                },
            );
        },
    };
    if !text::same_text(&path, callback_path) {
        return Err(
            LocalOAuthError {
                code: "oauth_callback_invalid",
                message: text::concat3("OAuth callback path `", &path, "` was not expected"),
            },
        );
    }
    let pairs = text::split(&query, '&');
    let state_matches = match query_value_of(&pairs, "state") {
        Some(state) => text::same_text(&state, expected_state),
        None => false,
    };
    if !state_matches {
        return Err(
            LocalOAuthError {
                code: "oauth_state_mismatch",
                message: "OAuth callback state did not match".to_string(),
            },
        );
    }
    if let Some(why) = query_value_of(&pairs, "error") {
        let mut message = "OAuth authorization failed: ".to_string();
        message.append(&why);
        return Err(LocalOAuthError { code: "oauth_denied", message });
    }
    match query_value_of(&pairs, "code") {
        Some(code) => Ok(LocalOAuthAuthorization { code }),
        None => Err(
            LocalOAuthError {
                code: "oauth_code_missing",
                message: "OAuth callback did not include a code".to_string(),
            },
        ),
    }
}

/// A text as it stands in an address.
pub open spec fn encoded(value: Seq<char>) -> Seq<char> {
    quoting::percent_encoded(vstd::utf8::encode_utf8(value))
}

/// Where a person is sent to give their consent.
pub fn notion_authorize_url(client_id: &str, redirect_uri: &str, state: &str) -> (r: String)
    ensures
        r@ == NOTION_OAUTH_AUTHORIZE_URL@ + "?client_id="@ + encoded(client_id@)
            + "&response_type=code&owner=user&redirect_uri="@ + encoded(redirect_uri@) + "&state="@
            + encoded(state@),
{
    let mut url = NOTION_OAUTH_AUTHORIZE_URL.to_string();
    url.append("?client_id=");
    url.append(&quoting::url_encode(client_id));
    url.append("&response_type=code&owner=user&redirect_uri=");
    url.append(&quoting::url_encode(redirect_uri));
    url.append("&state=");
    url.append(&quoting::url_encode(state));
    url
}

/// The value of the first variable that is set, unless that is empty.
pub open spec fn first_set(values: Seq<Option<String>>) -> Option<Seq<char>>
    decreases values.len(),
{
    if values.len() == 0 {
        None
    } else {
        match values[0] {
            Some(value) => if value@.len() > 0 {
                Some(value@)
            } else {
                None
            },
            None => first_set(values.skip(1)),
        }
    }
}

/// The value of the first variable that is set, unless that is empty.
pub fn env_first(values: &Vec<Option<String>>) -> (r: Option<String>)
    ensures
        text::opt_text(r) == first_set(values@),
{
    let mut i: usize = 0;
    assert(values@.skip(0) == values@);
    while i < values.len()
        invariant
            i <= values.len(),
            first_set(values@) == first_set(values@.skip(i as int)),
        decreases values.len() - i,
    {
        assert(values@.skip(i as int)[0] == values@[i as int]);
        assert(values@.skip(i as int).skip(1) == values@.skip(i + 1));
        if let Some(value) = &values[i] {
            if value.as_str().is_empty() {
                return None;
            }
            return Some(value.clone());
        }
        i += 1;
    }
    None
}

/// A value that the arguments say, else the environment, else the default.
pub open spec fn chosen(
    argument: Option<Seq<char>>,
    variables: Seq<Option<String>>,
    default: Seq<char>,
) -> Seq<char> {
    match argument {
        Some(value) => value,
        None => match first_set(variables) {
            Some(value) => value,
            None => default,
        },
    }
}

fn choose_value(
    args: &[String],
    flag: &str,
    variables: &Vec<Option<String>>,
    default: &str,
) -> (r: String)
    ensures
        r@ == chosen(args::value_of(text::texts(args@), flag@), variables@, default@),
{
    match args::flag_value(args, flag) {
        Some(value) => value.to_string(),
        None => match env_first(variables) {
            Some(value) => value,
            None => default.to_string(),
        },
    }
}

/// The variables that say how to authorise, each in the order in which they
/// count.
#[derive(Debug, PartialEq, Eq)]
pub struct OAuthVariables {
    pub client_ids: Vec<Option<String>>,
    pub client_secrets: Vec<Option<String>>,
    pub broker_urls: Vec<Option<String>>,
    pub redirect_uris: Vec<Option<String>>,
}

/// How to authorise through a broker.
#[derive(Debug, PartialEq, Eq)]
pub struct OAuthBrokerCliConfig {
    pub broker_url: String,
    pub redirect_uri: String,
}

/// Whether an error says why an address to come back to does not do.
pub open spec fn refuses_redirect(error: CommandError, uri: Seq<char>, hint: Seq<char>) -> bool {
    model::is_suggesting_error(
        error,
        "connect"@,
        "invalid_redirect_uri"@,
        "redirect URI `"@ + uri
            + "` must be http://localhost:<port>/<path> or http://127.0.0.1:<port>/<path>"@,
        hint,
    )
}

fn check_redirect(redirect_uri: &str, hint: &str) -> (r: Result<(), CommandError>)
    ensures
        match r {
            Ok(_) => redirect_parts(redirect_uri@) is Some,
            Err(e) => redirect_parts(redirect_uri@) is None && refuses_redirect(
                e,
                redirect_uri@,
                hint@,
            ),
        },
{
    match local_redirect(redirect_uri) {
        Ok(_) => Ok(()),
        Err(e) => Err(
            CommandError::new("connect", e.code, e.message).with_suggested_command(
                hint.to_string(),
            ),
        ),
    }
}

/// Whether `r` says how to authorise through a broker.
pub open spec fn is_broker_choice(
    all: Seq<Seq<char>>,
    variables: OAuthVariables,
    default_broker_url: Seq<char>,
    default_redirect_uri: Seq<char>,
    hint: Seq<char>,
    r: Result<OAuthBrokerCliConfig, CommandError>,
) -> bool {
    let redirect = chosen(
        args::value_of(all, "--redirect-uri"@),
        variables.redirect_uris@,
        default_redirect_uri,
    );
    if redirect_parts(redirect) is Some {
        r matches Ok(c) && c.redirect_uri@ == redirect && c.broker_url@ == chosen(
            args::value_of(all, "--broker-url"@),
            variables.broker_urls@,
            default_broker_url,
        )
    } else {
        r matches Err(e) && refuses_redirect(e, redirect, hint)
    }
}

fn broker_config(
    args: &[String],
    variables: &OAuthVariables,
    default_broker_url: &str,
    default_redirect_uri: &str,
    hint: &str,
) -> (r: Result<OAuthBrokerCliConfig, CommandError>)
    ensures
        is_broker_choice(
            text::texts(args@),
            *variables,
            default_broker_url@,
            default_redirect_uri@,
            hint@,
            r,
        ),
{
    let broker_url = choose_value(
        args,
        "--broker-url",
        &variables.broker_urls,
        default_broker_url,
    );
    let redirect_uri = choose_value(
        args,
        "--redirect-uri",
        &variables.redirect_uris,
        default_redirect_uri,
    );
    match check_redirect(&redirect_uri, hint) {
        Ok(_) => Ok(OAuthBrokerCliConfig { broker_url, redirect_uri }),
        Err(e) => Err(e),
    }
}

/// How to authorise with Notion through the broker.
pub fn notion_oauth_broker_config(
    args: &[String],
    variables: &OAuthVariables,
    default_broker_url: &str,
) -> (r: Result<OAuthBrokerCliConfig, CommandError>)
    ensures
        is_broker_choice(
            text::texts(args@),
            *variables,
            default_broker_url@,
            DEFAULT_NOTION_REDIRECT_URI@,
            "loc connect notion --token-stdin"@,
            r,
        ),
{
    broker_config(
        args,
        variables,
        default_broker_url,
        DEFAULT_NOTION_REDIRECT_URI,
        "loc connect notion --token-stdin",
    )
}

/// How to authorise with Google Docs through the broker.
pub fn google_docs_oauth_broker_config(
    args: &[String],
    variables: &OAuthVariables,
    default_broker_url: &str,
    default_redirect_uri: &str,
) -> (r: Result<OAuthBrokerCliConfig, CommandError>)
    ensures
        is_broker_choice(
            text::texts(args@),
            *variables,
            default_broker_url@,
            default_redirect_uri@,
            "loc connect google-docs"@,
            r,
        ),
{
    broker_config(
        args,
        variables,
        default_broker_url,
        default_redirect_uri,
        "loc connect google-docs",
    )
}

/// How to authorise with Notion as a client of one's own.
#[derive(Debug, PartialEq, Eq)]
pub struct NotionOAuthCliConfig {
    pub client_id: String,
    pub client_secret: String,
    pub redirect_uri: String,
}

/// Whether an error says which variable is missing.
pub open spec fn is_missing_variable(error: CommandError, name: Seq<char>) -> bool {
    model::is_suggesting_error(
        error,
        "connect"@,
        "missing_oauth_config"@,
        "missing "@ + name
            + "; configure Notion OAuth env vars for --direct-oauth or use --token-stdin for a personal access token"@,
        "loc connect notion --token-stdin"@,
    )
}

/// The refusal to authorise without a variable.
pub fn missing_oauth_config(name: &str) -> (r: CommandError)
    ensures
        is_missing_variable(r, name@),
{
    CommandError::new(
        "connect",
        "missing_oauth_config",
        text::concat3(
            "missing ",
            name,
            "; configure Notion OAuth env vars for --direct-oauth or use --token-stdin for a personal access token",
        ),
    ).with_suggested_command("loc connect notion --token-stdin".to_string())
}

/// How to authorise with Notion as a client of one's own. The identifier and
/// the secret of the client come from the environment alone.
pub fn notion_oauth_config(args: &[String], variables: &OAuthVariables) -> (r: Result<
    NotionOAuthCliConfig,
    CommandError,
>)
    ensures
        match (first_set(variables.client_ids@), first_set(variables.client_secrets@)) {
            (None, _) => r matches Err(e) && is_missing_variable(
                e,
                "LOCALITY_NOTION_OAUTH_CLIENT_ID"@,
            ),
            (Some(_), None) => r matches Err(e) && is_missing_variable(
                e,
                "LOCALITY_NOTION_OAUTH_CLIENT_SECRET"@,
            ),
            (Some(id), Some(secret)) => {
                let redirect = chosen(
                    args::value_of(text::texts(args@), "--redirect-uri"@),
                    variables.redirect_uris@,
                    DEFAULT_NOTION_REDIRECT_URI@,
                );
                if redirect_parts(redirect) is Some {
                    r matches Ok(c) && c.client_id@ == id && c.client_secret@ == secret
                        && c.redirect_uri@ == redirect
                } else {
                    r matches Err(e) && refuses_redirect(
                        e,
                        redirect,
                        "loc connect notion --token-stdin"@,
                    )
                }
            },
        },
{
    let client_id = match env_first(&variables.client_ids) {
        Some(id) => id,
        None => {
            return Err(missing_oauth_config("LOCALITY_NOTION_OAUTH_CLIENT_ID"));
        },
    };
    let client_secret = match env_first(&variables.client_secrets) {
        Some(secret) => secret,
        None => {
            return Err(missing_oauth_config("LOCALITY_NOTION_OAUTH_CLIENT_SECRET"));
        },
    };
    let redirect_uri = choose_value(
        args,
        "--redirect-uri",
        &variables.redirect_uris,
        DEFAULT_NOTION_REDIRECT_URI,
    );
    match check_redirect(&redirect_uri, "loc connect notion --token-stdin") {
        Ok(_) => Ok(NotionOAuthCliConfig { client_id, client_secret, redirect_uri }),
        Err(e) => Err(e),
    }
}

/// Whether an error tells why an authorisation did not come about, with a hint
/// where the address to come back to does not do.
pub open spec fn tells_oauth_error(
    error: CommandError,
    cause: LocalOAuthError,
    hint: Seq<char>,
) -> bool {
    if cause.code@ == "invalid_redirect_uri"@ {
        model::is_suggesting_error(error, "connect"@, cause.code@, cause.message@, hint)
    } else {
        model::is_command_error(error, "connect"@, cause.code@, cause.message@)
    }
}

fn oauth_command_error(error: LocalOAuthError, hint: &str) -> (r: CommandError)
    ensures
        tells_oauth_error(r, error, hint@),
{
    let invalid = text::same_text(error.code, "invalid_redirect_uri");
    let told = CommandError::new("connect", error.code, error.message);
    if invalid {
        told.with_suggested_command(hint.to_string())
    } else {
        told
    }
}

/// The failure to authorise with Notion.
pub fn local_oauth_command_error(error: LocalOAuthError) -> (r: CommandError)
    ensures
        tells_oauth_error(r, error, "loc connect notion --token-stdin"@),
{
    oauth_command_error(error, "loc connect notion --token-stdin")
}

/// The failure to authorise with Google Docs.
pub fn google_docs_local_oauth_command_error(error: LocalOAuthError) -> (r: CommandError)
    ensures
        tells_oauth_error(r, error, "loc connect google-docs"@),
{
    oauth_command_error(error, "loc connect google-docs")
}

/// A source that is authorised through a broker.
#[derive(Clone, Copy, Debug, PartialEq, Eq, Structural)]
pub enum BrokeredSource {
    Notion,
    GoogleDocs,
}

impl BrokeredSource {
    /// The command that is suggested where the source cannot be authorised.
    pub open spec fn hint(self) -> Seq<char> {
        match self {
            BrokeredSource::Notion => "loc connect notion --token-stdin"@,
            BrokeredSource::GoogleDocs => "loc connect google-docs"@,
        }
    }

    /// How a failure to begin an authorisation starts.
    pub open spec fn start_failure(self) -> Seq<char> {
        match self {
            BrokeredSource::Notion => "Notion OAuth broker start failed: "@,
            BrokeredSource::GoogleDocs => "Google Docs OAuth broker start failed: "@,
        }
    }
}

/// The failure of a broker to begin an authorisation.
pub fn broker_start_error(source: BrokeredSource, why: &str) -> (r: CommandError)
    ensures
        model::is_suggesting_error(
            r,
            "connect"@,
            "oauth_broker_start_failed"@,
            source.start_failure() + why@,
            source.hint(),
        ),
{
    let (front, hint) = match source {
        BrokeredSource::Notion => (
            "Notion OAuth broker start failed: ",
            "loc connect notion --token-stdin",
        ),
        BrokeredSource::GoogleDocs => (
            "Google Docs OAuth broker start failed: ",
            "loc connect google-docs",
        ),
    };
    let mut message = front.to_string();
    message.append(why);
    CommandError::new("connect", "oauth_broker_start_failed", message).with_suggested_command(
        hint.to_string(),
    )
}

} // verus!
