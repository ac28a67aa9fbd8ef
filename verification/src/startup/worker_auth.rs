//! How a stargate asks whether a worker may register.

use super::args::StartupError;
use crate::text::{find_char, first_position, joined, optional_text, texts};
use vstd::prelude::*;

verus! {

/// The scope of the router's own tokens, distinct from that of the gateway.
pub const WORKER_AUTH_SCOPE: &'static str = "llm:check_worker";

/// Where the tokens for the authentication service come from.
pub enum TokenSource {
    /// From an OAuth2 provider, for client credentials that a file holds.
    ClientCredentials { provider_host: String, secrets_path: String, scope: String },
    /// From a JSON file, at a path of keys.
    JsonFile { path: String, key: Vec<String> },
}

/// The contents of a `TokenSource`.
pub enum TokenSourceView {
    ClientCredentials { provider_host: Seq<char>, secrets_path: Seq<char>, scope: Seq<char> },
    JsonFile { path: Seq<char>, key: Seq<Seq<char>> },
}

impl View for TokenSource {
    type V = TokenSourceView;

    open spec fn view(&self) -> TokenSourceView {
        match self {
            TokenSource::ClientCredentials { provider_host, secrets_path, scope } =>
                TokenSourceView::ClientCredentials {
                    provider_host: provider_host@,
                    secrets_path: secrets_path@,
                    scope: scope@,
                },
            TokenSource::JsonFile { path, key } => TokenSourceView::JsonFile {
                path: path@,
                key: texts(key@),
            },
        }
    }
}

/// The parts of a text between dots, from a position on.
pub open spec fn dotted_from(text: Seq<char>, from: int) -> Seq<Seq<char>>
    decreases text.len() - from,
{
    let dot = first_position(text, '.', from);
    if from < 0 || from > text.len() || dot < from || dot >= text.len() {
        seq![text.subrange(from, text.len() as int)]
    } else {
        seq![text.subrange(from, dot)] + dotted_from(text, dot + 1)
    }
}

/// The parts of a text between dots.
pub fn split_at_dots(text: &str) -> (parts: Vec<String>)
    ensures
        texts(parts@) == dotted_from(text@, 0),
{
    let length: usize = text.unicode_len();
    let mut parts: Vec<String> = Vec::new();
    let mut from: usize = 0;
    loop
        invariant
            length == text@.len(),
            from <= length,
            dotted_from(text@, 0) == texts(parts@) + dotted_from(text@, from as int),
        decreases length - from,
    {
        let dot: usize = find_char(text, '.', from);
        let ghost before = parts@;
        if dot >= length {
            parts.push(text.substring_char(from, length).to_owned());
            assert(texts(parts@) =~= texts(before) + dotted_from(text@, from as int));
            return parts;
        }
        parts.push(text.substring_char(from, dot).to_owned());
        assert(texts(parts@) + dotted_from(text@, dot + 1) =~= texts(before) + dotted_from(
            text@,
            from as int,
        ));
        from = dot + 1;
    }
}

/// The service that is asked, and where the tokens for it come from.
pub open spec fn worker_auth_of(
    endpoint: Option<Seq<char>>,
    secrets_path: Option<Seq<char>>,
    secrets_json_path: Option<Seq<char>>,
    oauth2_provider_host: Option<Seq<char>>,
) -> Result<Option<(Seq<char>, Option<TokenSourceView>)>, StartupError> {
    match (endpoint, oauth2_provider_host, secrets_path) {
        (None, _, _) => Ok(None),
        (Some(_), Some(_), None) => Err(StartupError::SecretsPathMissing),
        (Some(endpoint), Some(host), Some(path)) => Ok(
            Some(
                (
                    endpoint,
                    Some(
                        TokenSourceView::ClientCredentials {
                            provider_host: host,
                            secrets_path: path,
                            scope: WORKER_AUTH_SCOPE@,
                        },
                    ),
                ),
            ),
        ),
        (Some(endpoint), None, None) => Ok(Some((endpoint, None))),
        (Some(endpoint), None, Some(path)) => Ok(
            Some(
                (
                    endpoint,
                    Some(
                        TokenSourceView::JsonFile {
                            path,
                            key: dotted_from(
                                match secrets_json_path {
                                    Some(key) => key,
                                    None => "authToken"@,
                                },
                                0,
                            ),
                        },
                    ),
                ),
            ),
        ),
    }
}

/// The contents of a startup.
pub open spec fn worker_auth_view(
    startup: Result<Option<(String, Option<TokenSource>)>, StartupError>,
) -> Result<Option<(Seq<char>, Option<TokenSourceView>)>, StartupError> {
    match startup {
        Err(error) => Err(error),
        Ok(None) => Ok(None),
        Ok(Some((endpoint, None))) => Ok(Some((endpoint@, None))),
        Ok(Some((endpoint, Some(source)))) => Ok(Some((endpoint@, Some(source@)))),
    }
}

/// The service that is asked, if any, and where the tokens for it come from: from the provider if
/// there is one, and then the file with its secrets has to be known; else from a file, by default
/// under the key `authToken`; else there are none.
pub fn worker_auth_startup_from_args(
    endpoint: Option<String>,
    secrets_path: Option<String>,
    secrets_json_path: Option<String>,
    oauth2_provider_host: Option<String>,
) -> (startup: Result<Option<(String, Option<TokenSource>)>, StartupError>)
    ensures
        worker_auth_view(startup) == worker_auth_of(
            optional_text(endpoint),
            optional_text(secrets_path),
            optional_text(secrets_json_path),
            optional_text(oauth2_provider_host),
        ),
{
    let endpoint: String = match endpoint {
        Some(endpoint) => endpoint,
        None => return Ok(None),
    };
    match oauth2_provider_host {
        Some(provider_host) => match secrets_path {
            None => Err(StartupError::SecretsPathMissing),
            Some(secrets_path) => Ok(
                Some(
                    (
                        endpoint,
                        Some(
                            TokenSource::ClientCredentials {
                                provider_host,
                                secrets_path,
                                scope: WORKER_AUTH_SCOPE.to_owned(),
                            },
                        ),
                    ),
                ),
            ),
        },
        None => match secrets_path {
            None => Ok(Some((endpoint, None))),
            Some(path) => {
                let key: Vec<String> = match &secrets_json_path {
                    Some(key) => split_at_dots(key.as_str()),
                    None => split_at_dots("authToken"),
                };
                Ok(Some((endpoint, Some(TokenSource::JsonFile { path, key }))))
            },
        },
    }
}

proof fn lemma_first_position(text: Seq<char>, from: int)
    requires
        0 <= from <= text.len(),
    ensures
        from <= first_position(text, '.', from) <= text.len(),
        first_position(text, '.', from) < text.len() ==> text[first_position(text, '.', from)]
            == '.',
    decreases text.len() - from,
{
    if from < text.len() && text[from] != '.' {
        lemma_first_position(text, from + 1);
    }
}

proof fn lemma_joined_front(first: Seq<char>, rest: Seq<Seq<char>>)
    requires
        rest.len() > 0,
    ensures
        joined(seq![first] + rest, seq!['.']) == first + seq!['.'] + joined(rest, seq!['.']),
    decreases rest.len(),
{
    let all = seq![first] + rest;
    assert(all.last() == rest.last());
    if rest.len() == 1 {
        assert(all.drop_last() =~= seq![first]);
        assert(joined(all.drop_last(), seq!['.']) == first);
    } else {
        assert(all.drop_last() =~= seq![first] + rest.drop_last());
        lemma_joined_front(first, rest.drop_last());
        assert(joined(all, seq!['.']) =~= first + seq!['.'] + joined(rest, seq!['.']));
    }
}

/// The parts of a text between dots, put together with dots again, are the text.
pub proof fn dotted_parts_make_up_the_text(text: Seq<char>, from: int)
    requires
        0 <= from <= text.len(),
    ensures
        dotted_from(text, from).len() > 0,
        joined(dotted_from(text, from), seq!['.']) == text.subrange(
            from,
            text.len() as int,
        ),
    decreases text.len() - from,
{
    let dot = first_position(text, '.', from);
    lemma_first_position(text, from);
    if dot < text.len() {
        dotted_parts_make_up_the_text(text, dot + 1);
        lemma_joined_front(text.subrange(from, dot), dotted_from(text, dot + 1));
        assert(text.subrange(from, dot) + seq!['.'] + text.subrange(dot + 1, text.len() as int)
            =~= text.subrange(from, text.len() as int));
    }
}

} // verus!
