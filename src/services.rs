//! The request pipeline: the species upstream's description is rewritten by
//! the style upstream, and any failure ends the request with an error reply.
//!
//! The pipeline is a state machine; whoever performs the outbound calls feeds
//! their outcomes back in as events.
use crate::errors::{
    is_status_code, ApiErrorResponseBody, ApiErrorResponseCode, NOT_FOUND,
    TOO_MANY_REQUESTS,
};
use crate::fun_translations_client::FunTranslationsClientError;
use crate::endpoint::joined_path;
use crate::poke_api_client::{
    description_outcome, in_language, is_plain_text, PokeApiClient, PokeApiClientError,
    PokemonDescription, LANGUAGE_FILTER, SPECIES_PATH,
};
use crate::request_error::{RequestError, RequestErrorKind};
use crate::services_api_models::ShakespeareanDescriptionApiResponse;
use vstd::prelude::*;

verus! {

/// The status of a successful reply.
pub const OK: u16 = 200;

/// A failure of either upstream, tagged with its origin.
#[derive(Debug)]
pub enum ServiceError {
    PokeApi(PokeApiClientError),
    FunTranslations(FunTranslationsClientError),
}

impl ServiceError {
    pub open spec fn spec_status_code(&self) -> u16 {
        match self {
            ServiceError::PokeApi(e) => e.spec_status_code(),
            ServiceError::FunTranslations(e) => e.spec_status_code(),
        }
    }

    pub open spec fn spec_code(&self) -> ApiErrorResponseCode {
        match self {
            ServiceError::PokeApi(e) => e.spec_code(),
            ServiceError::FunTranslations(e) => e.spec_code(),
        }
    }

    pub open spec fn spec_message(&self) -> Seq<char> {
        match self {
            ServiceError::PokeApi(e) => e.spec_message(),
            ServiceError::FunTranslations(e) => e.spec_message(),
        }
    }

    /// The status of the gateway's reply to this failure.
    pub fn status_code(&self) -> (r: u16)
        ensures
            r == self.spec_status_code(),
    {
        match self {
            ServiceError::PokeApi(e) => e.status_code(),
            ServiceError::FunTranslations(e) => e.status_code(),
        }
    }

    /// The body of the gateway's reply to this failure.
    pub fn error_response(&self) -> (r: ApiErrorResponseBody)
        ensures
            r.code == self.spec_code(),
            r.message@ == self.spec_message(),
    {
        match self {
            ServiceError::PokeApi(e) => e.error_response(),
            ServiceError::FunTranslations(e) => e.error_response(),
        }
    }
}

/// Where a request for a creature's rewritten description stands.
#[derive(Debug)]
pub enum DescriptionRequest {
    /// Waiting for the species upstream's entries for `pokemon_name`.
    FetchingDescription { pokemon_name: String },
    /// Waiting for the style upstream's rewrite of `description`.
    Translating { pokemon_name: String, description: String },
    /// Answered; no partial result is ever given.
    Done(Result<ShakespeareanDescriptionApiResponse, ServiceError>),
}

/// `after` is a state that the species upstream's answer `fetched` may lead
/// to from `before`, the client being rooted at `endpoint`.
pub open spec fn species_step(
    before: DescriptionRequest,
    endpoint: Seq<char>,
    fetched: Result<Vec<PokemonDescription>, RequestError>,
    after: DescriptionRequest,
) -> bool {
    match before {
        DescriptionRequest::FetchingDescription { pokemon_name: name } => match after {
            DescriptionRequest::Translating { pokemon_name, description } => pokemon_name@
                == name@ && description_outcome(
                endpoint,
                name@,
                fetched,
                Ok(description),
            ),
            DescriptionRequest::Done(Err(ServiceError::PokeApi(e))) => description_outcome(
                endpoint,
                name@,
                fetched,
                Err(e),
            ),
            _ => false,
        },
        _ => false,
    }
}

/// `after` is the state that the style upstream's answer `translated` leads
/// to from `before`.
pub open spec fn style_step(
    before: DescriptionRequest,
    translated: Result<String, RequestError>,
    after: DescriptionRequest,
) -> bool {
    match before {
        DescriptionRequest::Translating { pokemon_name: name, .. } => match translated {
            Ok(t) => match after {
                DescriptionRequest::Done(Ok(reply)) => reply.name@ == name@ && reply.description@
                    == t@,
                _ => false,
            },
            Err(e) => after == DescriptionRequest::Done(
                Err(ServiceError::FunTranslations(FunTranslationsClientError(e))),
            ),
        },
        _ => false,
    }
}

impl DescriptionRequest {
    /// A request for the rewritten description of `pokemon_name`, which first
    /// waits for the species upstream.
    pub fn new(pokemon_name: &str) -> (r: Self)
        ensures
            match r {
                DescriptionRequest::FetchingDescription { pokemon_name: n } => n@ == pokemon_name@,
                _ => false,
            },
    {
        DescriptionRequest::FetchingDescription { pokemon_name: String::from_str(pokemon_name) }
    }

    /// Takes the species upstream's answer: on success, one cleaned English
    /// description goes on to the style upstream; on failure, the request ends.
    pub fn species_answered(
        self,
        client: &PokeApiClient,
        fetched: Result<Vec<PokemonDescription>, RequestError>,
    ) -> (r: Self)
        requires
            self is FetchingDescription,
        ensures
            species_step(self, client@, fetched, r),
    {
        match self {
            DescriptionRequest::FetchingDescription { pokemon_name } => {
                match client.get_random_description(pokemon_name.as_str(), fetched) {
                    Ok(description) => DescriptionRequest::Translating { pokemon_name, description },
                    Err(e) => DescriptionRequest::Done(Err(ServiceError::PokeApi(e))),
                }
            },
            other => other,
        }
    }

    /// Takes the style upstream's answer: the request ends with the rewritten
    /// description, or with the failure.
    pub fn style_answered(self, translated: Result<String, RequestError>) -> (r: Self)
        requires
            self is Translating,
        ensures
            style_step(self, translated, r),
    {
        match self {
            DescriptionRequest::Translating { pokemon_name, .. } => match translated {
                Ok(description) => DescriptionRequest::Done(
                    Ok(ShakespeareanDescriptionApiResponse { name: pokemon_name, description }),
                ),
                Err(e) => DescriptionRequest::Done(
                    Err(ServiceError::FunTranslations(FunTranslationsClientError(e))),
                ),
            },
            other => other,
        }
    }
}

/// Where none of the species upstream's entries is in English, the request
/// ends in `DescriptionNotFound`, answered with 404 and
/// `TRANSLATABLE_DESCRIPTION_NOT_FOUND`.
pub proof fn lemma_no_english_entry_is_not_found(
    before: DescriptionRequest,
    endpoint: Seq<char>,
    entries: Vec<PokemonDescription>,
    after: DescriptionRequest,
)
    requires
        before is FetchingDescription,
        in_language(entries@, LANGUAGE_FILTER@).len() == 0,
        species_step(before, endpoint, Ok(entries), after),
    ensures
        match after {
            DescriptionRequest::Done(Err(e)) => {
                &&& e matches ServiceError::PokeApi(PokeApiClientError::DescriptionNotFound(_))
                &&& e.spec_status_code() == NOT_FOUND
                &&& e.spec_code() == ApiErrorResponseCode::TranslatableDescriptionNotFound
            },
            _ => false,
        },
{
}

/// `needle` stands somewhere in `hay`.
pub open spec fn holds_text(hay: Seq<char>, needle: Seq<char>) -> bool {
    exists|k: int| 0 <= k && k + needle.len() <= hay.len() && #[trigger] hay.subrange(k, k + needle.len()) == needle
}

/// Where no entry is in English, the not-found reply's message names the
/// identifier that was asked for, when it and the upstream's base URL are
/// plain printable text.
pub proof fn lemma_not_found_message_names_identifier(
    before: DescriptionRequest,
    endpoint: Seq<char>,
    entries: Vec<PokemonDescription>,
    after: DescriptionRequest,
)
    requires
        match before {
            DescriptionRequest::FetchingDescription { pokemon_name } => is_plain_text(
                pokemon_name@,
            ),
            _ => false,
        },
        is_plain_text(endpoint),
        in_language(entries@, LANGUAGE_FILTER@).len() == 0,
        species_step(before, endpoint, Ok(entries), after),
    ensures
        match (before, after) {
            (
                DescriptionRequest::FetchingDescription { pokemon_name },
                DescriptionRequest::Done(Err(e)),
            ) => holds_text(e.spec_message(), pokemon_name@),
            _ => false,
        },
{
    if let DescriptionRequest::FetchingDescription { pokemon_name } = before {
        if let DescriptionRequest::Done(Err(ServiceError::PokeApi(e))) = after {
            if let PokeApiClientError::DescriptionNotFound(d) = e {
                reveal_strlit("api/v2/pokemon-species/");
                let name = pokemon_name@;
                let base = joined_path(endpoint, SPECIES_PATH@);
                let url = base + name;
                assert(is_plain_text(url)) by {
                    assert forall|i: int| 0 <= i < url.len() implies 0x20 <= (#[trigger] url[i]) as u32
                        && url[i] as u32 <= 0x7E && url[i] != '"' && url[i] != '\\' && url[i]
                        != '\'' by {
                        if i >= base.len() {
                            assert(url[i] == name[i - base.len()]);
                        } else if endpoint.len() > 0 && endpoint.last() == '/' {
                            if i >= endpoint.len() {
                                assert(url[i] == SPECIES_PATH@[i - endpoint.len()]);
                            } else {
                                assert(url[i] == endpoint[i]);
                            }
                        } else {
                            if i > endpoint.len() {
                                assert(url[i] == SPECIES_PATH@[i - endpoint.len() - 1]);
                            } else if i < endpoint.len() {
                                assert(url[i] == endpoint[i]);
                            }
                        }
                    }
                }
                assert(d.api_url@ == url);
                let msg = d.spec_message();
                let k = msg.len() - 1 - name.len();
                assert(msg.subrange(k, k + name.len()) =~= name);
            }
        }
    }
}

/// Where the species upstream answers with a status `s` outside 2xx, the
/// request ends with that status passed through (500 where `s` is no
/// three-digit status) and `POKE_API_ERROR`.
pub proof fn lemma_species_status_passes_through(
    before: DescriptionRequest,
    endpoint: Seq<char>,
    e: RequestError,
    s: u16,
    after: DescriptionRequest,
)
    requires
        before is FetchingDescription,
        !(200 <= s && s < 300),
        e.kind == RequestErrorKind::Status(s),
        species_step(before, endpoint, Err(e), after),
    ensures
        match after {
            DescriptionRequest::Done(Err(err)) => {
                &&& err.spec_status_code() == if is_status_code(s) {
                    s
                } else {
                    500
                }
                &&& err.spec_code() == ApiErrorResponseCode::PokeApiError
            },
            _ => false,
        },
{
}

/// Where the style upstream answers 429, whatever its body, the request ends
/// with 429 and `TOO_MANY_REQUESTS`.
pub proof fn lemma_style_rate_limit_is_too_many_requests(
    before: DescriptionRequest,
    e: RequestError,
    after: DescriptionRequest,
)
    requires
        before is Translating,
        e.kind == RequestErrorKind::Status(TOO_MANY_REQUESTS),
        style_step(before, Err(e), after),
    ensures
        match after {
            DescriptionRequest::Done(Err(err)) => {
                &&& err.spec_status_code() == TOO_MANY_REQUESTS
                &&& err.spec_code() == ApiErrorResponseCode::TooManyRequests
            },
            _ => false,
        },
{
}

} // verus!
