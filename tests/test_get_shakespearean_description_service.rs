use pokespeare::errors::{ApiErrorResponseBody, ApiErrorResponseCode};
use pokespeare::poke_api_client::{Language, PokeApiClient, PokemonDescription};
use pokespeare::request_error::{RequestError, RequestErrorKind};
use pokespeare::services::{DescriptionRequest, ServiceError};
use pokespeare::services_api_models::ShakespeareanDescriptionApiResponse;

const SERVER_URL: &str = "http://127.0.0.1:1234";

fn entry(text: &str, lang: &str) -> PokemonDescription {
    PokemonDescription {
        text: text.to_string(),
        language: Language {
            name: lang.to_string(),
        },
    }
}

fn ok_entries() -> Vec<PokemonDescription> {
    vec![
        entry("Bulbasaur peut etre vu en train de dormir.", "fr"),
        entry(
            "A strange seed was\nplanted on its\nback at birth.\u{c}The plant sprouts\nand grows with\nthis POKéMON.",
            "en",
        ),
        entry("Dieser Samen wurde ihm bei der Geburt eingepflanzt.", "de"),
    ]
}

fn not_translatable_entries() -> Vec<PokemonDescription> {
    vec![
        entry("Bulbasaur peut etre vu en train de dormir.", "fr"),
        entry("Dieser Samen wurde ihm bei der Geburt eingepflanzt.", "de"),
    ]
}

fn request_error(kind: RequestErrorKind, message: &str) -> RequestError {
    RequestError {
        kind,
        message: message.to_string(),
    }
}

/// Runs a request through both steps, the style upstream answering with
/// `style(description)` to the description it is sent.
fn run(
    pokemon_name: &str,
    fetched: Result<Vec<PokemonDescription>, RequestError>,
    style: impl FnOnce(&str) -> Result<String, RequestError>,
) -> Result<ShakespeareanDescriptionApiResponse, ServiceError> {
    let poke_api_client = PokeApiClient::new(SERVER_URL).unwrap();
    let request = DescriptionRequest::new(pokemon_name).species_answered(&poke_api_client, fetched);
    let request = if let DescriptionRequest::Translating { description, .. } = &request {
        let translated = style(description);
        request.style_answered(translated)
    } else {
        request
    };
    match request {
        DescriptionRequest::Done(reply) => reply,
        other => panic!("request not finished: {:?}", other),
    }
}

fn error_reply(reply: Result<ShakespeareanDescriptionApiResponse, ServiceError>) -> (u16, ApiErrorResponseBody) {
    match reply {
        Ok(r) => panic!("expected an error reply, got {:?}", r),
        Err(e) => (e.status_code(), e.error_response()),
    }
}

#[test]
fn test_everything_is_fine() {
    let pokemon_name = "bulbasaur";
    let mut sent = String::new();
    let reply = run(pokemon_name, Ok(ok_entries()), |text| {
        sent = text.to_string();
        Ok("A strange seed wast planted on its back at birth. The plant sprouts and grows with this pokémon.".to_string())
    });
    assert_eq!(
        sent,
        "A strange seed was planted on its back at birth. The plant sprouts and grows with this POKéMON."
    );
    assert_eq!(
        ShakespeareanDescriptionApiResponse {
            name: pokemon_name.into(),
            description: "A strange seed wast planted on its back at birth. The plant sprouts and grows with this pokémon.".into(),
        },
        reply.unwrap()
    );
}

#[test]
fn test_poke_api_returns_status_code_different_from_200() {
    let pokemon_name = "bulbasaur";
    let message = "HTTP status client error (404 Not Found) for url (http://127.0.0.1:1234/api/v2/pokemon-species/bulbasaur)";
    let reply = run(
        pokemon_name,
        Err(request_error(RequestErrorKind::Status(404), message)),
        |_| panic!("the style upstream must not be called"),
    );
    let (status, body) = error_reply(reply);
    assert_eq!(404, status);
    assert_eq!(
        ApiErrorResponseBody {
            code: ApiErrorResponseCode::PokeApiError,
            message: message.into(),
        },
        body
    );
}

#[test]
fn test_poke_apis_returns_200_with_unexpected_body() {
    let pokemon_name = "bulbasaur";
    let message = "error decoding response body: expected value at line 1 column 1";
    let reply = run(
        pokemon_name,
        Err(request_error(RequestErrorKind::Body, message)),
        |_| panic!("the style upstream must not be called"),
    );
    let (status, body) = error_reply(reply);
    assert_eq!(500, status);
    assert_eq!(
        ApiErrorResponseBody {
            code: ApiErrorResponseCode::PokeApiError,
            message: message.into(),
        },
        body
    );
}

#[test]
fn test_poke_apis_returns_200_without_a_traslatable_description() {
    let pokemon_name = "bulbasaur";
    let reply = run(pokemon_name, Ok(not_translatable_entries()), |_| {
        panic!("the style upstream must not be called")
    });
    let (status, body) = error_reply(reply);
    assert_eq!(404, status);
    assert_eq!(
        ApiErrorResponseBody {
            code: ApiErrorResponseCode::TranslatableDescriptionNotFound,
            message: "No \'en\' descripiton found when calling PokeApi URL \"http://127.0.0.1:1234/api/v2/pokemon-species/bulbasaur\"".into(),
        },
        body
    );
}

#[test]
fn test_fun_translations_returns_status_code_different_from_200() {
    let pokemon_name = "bulbasaur";
    let message = "HTTP status client error (429 Too Many Requests) for url (http://127.0.0.1:1234/translate/shakespeare.json?text=A+strange+seed+was+planted+on+its+back+at+birth.+The+plant+sprouts+and+grows+with+this+POK%C3%A9MON.)";
    let reply = run(pokemon_name, Ok(ok_entries()), |_| {
        Err(request_error(RequestErrorKind::Status(429), message))
    });
    let (status, body) = error_reply(reply);
    assert_eq!(429, status);
    assert_eq!(
        ApiErrorResponseBody {
            code: ApiErrorResponseCode::TooManyRequests,
            message: message.into(),
        },
        body
    );
}

#[test]
fn test_fun_translations_returns_200_with_unexpected_body() {
    let pokemon_name = "bulbasaur";
    let message = "error decoding response body: expected value at line 1 column 1";
    let reply = run(pokemon_name, Ok(ok_entries()), |_| {
        Err(request_error(RequestErrorKind::Body, message))
    });
    let (status, body) = error_reply(reply);
    assert_eq!(500, status);
    assert_eq!(
        ApiErrorResponseBody {
            code: ApiErrorResponseCode::FunTranslationsError,
            message: message.into(),
        },
        body
    );
}
