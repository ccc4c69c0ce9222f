//! The species upstream: its URL, the choice of one English description, and
//! its errors.
use crate::endpoint::{join_path, joined_path, parse_url, url_serialization};
use crate::request_error::RequestError;
use crate::text::{chars_of, cleanup, cleanup_chars, is_clean, string_of};
use rand::seq::IteratorRandom;
use vstd::prelude::*;

verus! {

/// The only language whose descriptions are handed on.
pub const LANGUAGE_FILTER: &'static str = "en";

/// The species path under the upstream's base URL; the identifier follows it.
pub const SPECIES_PATH: &'static str = "api/v2/pokemon-species/";

/// The language an entry is written in.
#[derive(Debug)]
pub struct Language {
    pub name: String,
}

/// One locale variant of a creature's flavour text.
#[derive(Debug)]
pub struct PokemonDescription {
    pub text: String,
    pub language: Language,
}

/// The entries of `s` written in `lang`, in order.
pub open spec fn in_language(s: Seq<PokemonDescription>, lang: Seq<char>) -> Seq<
    PokemonDescription,
> {
    s.filter(|d: PokemonDescription| d.language.name@ == lang)
}

/// Where the species upstream serves the entries of `name`.
pub open spec fn spec_species_url(endpoint: Seq<char>, name: Seq<char>) -> Seq<char> {
    joined_path(endpoint, SPECIES_PATH@) + name
}

/// Client of the species upstream, rooted at its base URL.
#[derive(Clone)]
pub struct PokeApiClient {
    endpoint: String,
}

impl View for PokeApiClient {
    type V = Seq<char>;

    /// The serialised base URL.
    closed spec fn view(&self) -> Seq<char> {
        self.endpoint@
    }
}

/// No entry in the filter language was found at `api_url`.
#[derive(Debug)]
pub struct DescriptionNotFound {
    pub language_filter: String,
    pub api_url: String,
}

/// Why no description came from the species upstream.
#[derive(Debug)]
pub enum PokeApiClientError {
    DescriptionNotFound(DescriptionNotFound),
    RequestError(RequestError),
}

/// `text`, written as `str`'s `Debug` writes it: quoted, with escapes.
pub uninterp spec fn debug_quoted(text: Seq<char>) -> Seq<char>;

/// Printable ASCII without quotes or backslashes, which `Debug` leaves as it is.
pub open spec fn is_plain_text(t: Seq<char>) -> bool {
    forall|i: int|
        0 <= i < t.len() ==> 0x20 <= (#[trigger] t[i]) as u32 && t[i] as u32 <= 0x7E && t[i]
            != '"' && t[i] != '\\' && t[i] != '\''
}

/// `text` as `str`'s `Debug` writes it: a plain text between double quotes,
/// unescaped.
pub open spec fn debug_text(text: Seq<char>) -> Seq<char> {
    if is_plain_text(text) {
        seq!['"'] + text + seq!['"']
    } else {
        debug_quoted(text)
    }
}

/// Relies on std's `Debug` for `str`; its output depends on the text alone,
/// and a plain text comes out between double quotes, unescaped.
#[verifier::external_body]
fn debug_string(text: &str) -> (r: String)
    ensures
        r@ == debug_quoted(text@),
        r@ == debug_text(text@),
{
    format!("{:?}", text)
}

/// Relies on rand's `IteratorRandom::choose` over `0..n`, drawing from
/// `thread_rng`: `None` where `n` is zero, else some index below `n`.
#[verifier::external_body]
fn choose_index(n: usize) -> (r: Option<usize>)
    ensures
        match r {
            Some(i) => i < n,
            None => n == 0,
        },
{
    (0..n).choose(&mut rand::thread_rng())
}

/// What `get_random_description` owes, for the entries `fetched` from the
/// upstream at `endpoint` for `name`: the fetch's failure as it came; a
/// `DescriptionNotFound` naming the URL where no entry is in English; else the
/// cleaned text of one English entry.
pub open spec fn description_outcome(
    endpoint: Seq<char>,
    name: Seq<char>,
    fetched: Result<Vec<PokemonDescription>, RequestError>,
    r: Result<String, PokeApiClientError>,
) -> bool {
    match fetched {
        Err(e) => r == Err::<String, PokeApiClientError>(PokeApiClientError::RequestError(e)),
        Ok(v) => {
            let m = in_language(v@, LANGUAGE_FILTER@);
            if m.len() == 0 {
                match r {
                    Err(PokeApiClientError::DescriptionNotFound(e)) => e.language_filter@
                        == LANGUAGE_FILTER@ && e.api_url@ == spec_species_url(endpoint, name),
                    _ => false,
                }
            } else {
                match r {
                    Ok(t) => exists|i: int| 0 <= i < m.len() && t@ == cleanup(#[trigger] m[i].text@),
                    _ => false,
                }
            }
        },
    }
}

/// What `select_description` owes: as `description_outcome`, the English
/// entry handed on being the one at position `choice` among them.
pub open spec fn description_outcome_at(
    endpoint: Seq<char>,
    name: Seq<char>,
    fetched: Result<Vec<PokemonDescription>, RequestError>,
    choice: int,
    r: Result<String, PokeApiClientError>,
) -> bool {
    match fetched {
        Err(e) => r == Err::<String, PokeApiClientError>(PokeApiClientError::RequestError(e)),
        Ok(v) => {
            let m = in_language(v@, LANGUAGE_FILTER@);
            if m.len() == 0 {
                match r {
                    Err(PokeApiClientError::DescriptionNotFound(e)) => e.language_filter@
                        == LANGUAGE_FILTER@ && e.api_url@ == spec_species_url(endpoint, name),
                    _ => false,
                }
            } else {
                match r {
                    Ok(t) => t@ == cleanup(m[choice].text@),
                    _ => false,
                }
            }
        },
    }
}

impl DescriptionNotFound {
    pub open spec fn spec_message(&self) -> Seq<char> {
        "No '"@ + self.language_filter@ + "' descripiton found when calling PokeApi URL "@
            + debug_text(self.api_url@)
    }

    /// The diagnostic shown to the gateway's caller.
    pub fn message(&self) -> (r: String)
        ensures
            r@ == self.spec_message(),
    {
        let mut m = String::from_str("No '");
        m.append(self.language_filter.as_str());
        m.append("' descripiton found when calling PokeApi URL ");
        let quoted = debug_string(self.api_url.as_str());
        m.append(quoted.as_str());
        m
    }
}

impl PokeApiClientError {
    pub open spec fn spec_message(&self) -> Seq<char> {
        match self {
            PokeApiClientError::DescriptionNotFound(e) => e.spec_message(),
            PokeApiClientError::RequestError(e) => e.message@,
        }
    }

    /// The diagnostic shown to the gateway's caller.
    pub fn message(&self) -> (r: String)
        ensures
            r@ == self.spec_message(),
    {
        match self {
            PokeApiClientError::DescriptionNotFound(e) => e.message(),
            PokeApiClientError::RequestError(e) => e.message.clone(),
        }
    }
}

/// Adding the entry at `i` to the prefix before it.
proof fn lemma_in_language_step(s: Seq<PokemonDescription>, lang: Seq<char>, i: int)
    requires
        0 <= i < s.len(),
    ensures
        in_language(s.take(i + 1), lang) == if s[i].language.name@ == lang {
            in_language(s.take(i), lang).push(s[i])
        } else {
            in_language(s.take(i), lang)
        },
{
    reveal(Seq::filter);
    assert(s.take(i + 1).drop_last() =~= s.take(i));
    assert(s.take(i + 1).last() == s[i]);
}

/// The entries kept from a prefix come first, in the same order.
proof fn lemma_in_language_prefix(s: Seq<PokemonDescription>, lang: Seq<char>, j: int, k: int)
    requires
        0 <= j <= s.len(),
        0 <= k < in_language(s.take(j), lang).len(),
    ensures
        k < in_language(s, lang).len(),
        in_language(s, lang)[k] == in_language(s.take(j), lang)[k],
{
    let pred = |d: PokemonDescription| d.language.name@ == lang;
    assert(s =~= s.take(j) + s.skip(j));
    Seq::filter_distributes_over_add(s.take(j), s.skip(j), pred);
}

impl PokeApiClient {
    /// A client for the upstream at `endpoint`; `None` where `endpoint` is no
    /// absolute URL.
    pub fn new(endpoint: &str) -> (r: Option<Self>)
        ensures
            match r {
                Some(c) => url_serialization(endpoint@) == Some(c@),
                None => url_serialization(endpoint@) is None,
            },
    {
        match parse_url(endpoint) {
            Some(u) => Some(PokeApiClient { endpoint: u }),
            None => None,
        }
    }

    /// The URL at which the upstream serves the entries of `pokemon_name`.
    pub fn species_url(&self, pokemon_name: &str) -> (r: String)
        ensures
            r@ == spec_species_url(self@, pokemon_name@),
    {
        let mut u = join_path(self.endpoint.as_str(), SPECIES_PATH);
        u.append(pokemon_name);
        u
    }

    /// How many entries of `descriptions` are written in `lang`.
    pub fn count_in_language(descriptions: &[PokemonDescription], lang: &str) -> (r: usize)
        ensures
            r == in_language(descriptions@, lang@).len(),
    {
        let wanted = String::from_str(lang);
        let mut count: usize = 0;
        let mut i: usize = 0;
        assert(descriptions@.take(0) =~= Seq::<PokemonDescription>::empty());
        while i < descriptions.len()
            invariant
                i <= descriptions@.len(),
                wanted@ == lang@,
                count == in_language(descriptions@.take(i as int), lang@).len(),
                count <= i,
            decreases descriptions.len() - i,
        {
            proof {
                lemma_in_language_step(descriptions@, lang@, i as int);
            }
            if descriptions[i].language.name == wanted {
                count += 1;
            }
            i += 1;
        }
        assert(descriptions@.take(i as int) =~= descriptions@);
        count
    }

    /// The entry at position `choice` among those of `descriptions` written in
    /// `lang`, or `None` where there are no more than `choice` of them.
    pub fn pick_description<'a>(
        descriptions: &'a [PokemonDescription],
        lang: &str,
        choice: usize,
    ) -> (r: Option<&'a PokemonDescription>)
        ensures
            match r {
                Some(d) => choice < in_language(descriptions@, lang@).len() && *d == in_language(
                    descriptions@,
                    lang@,
                )[choice as int],
                None => choice >= in_language(descriptions@, lang@).len(),
            },
    {
        let wanted = String::from_str(lang);
        let mut count: usize = 0;
        let mut i: usize = 0;
        assert(descriptions@.take(0) =~= Seq::<PokemonDescription>::empty());
        while i < descriptions.len()
            invariant
                i <= descriptions@.len(),
                wanted@ == lang@,
                count == in_language(descriptions@.take(i as int), lang@).len(),
                count <= choice,
            decreases descriptions.len() - i,
        {
            proof {
                lemma_in_language_step(descriptions@, lang@, i as int);
            }
            if descriptions[i].language.name == wanted {
                if count == choice {
                    proof {
                        lemma_in_language_prefix(descriptions@, lang@, i + 1, choice as int);
                    }
                    return Some(&descriptions[i]);
                }
                count += 1;
            }
            i += 1;
        }
        assert(descriptions@.take(i as int) =~= descriptions@);
        None
    }

    /// One entry of `descriptions` written in `lang`, drawn at random; `None`
    /// where there is none.
    pub fn pick_random_description<'a>(descriptions: &'a [PokemonDescription], lang: &str) -> (r:
        Option<&'a PokemonDescription>)
        ensures
            match r {
                Some(d) => in_language(descriptions@, lang@).contains(*d),
                None => in_language(descriptions@, lang@).len() == 0,
            },
    {
        let n = Self::count_in_language(descriptions, lang);
        match choose_index(n) {
            Some(i) => {
                let r = Self::pick_description(descriptions, lang, i);
                proof {
                    let m = in_language(descriptions@, lang@);
                    if let Some(d) = r {
                        assert(m[i as int] == *d);
                    }
                }
                r
            },
            None => None,
        }
    }

    /// The English description at position `choice` among those `fetched`
    /// for `pokemon_name`, cleaned; see `description_outcome_at`.
    pub fn select_description(
        &self,
        pokemon_name: &str,
        fetched: Result<Vec<PokemonDescription>, RequestError>,
        choice: usize,
    ) -> (r: Result<String, PokeApiClientError>)
        requires
            fetched matches Ok(v) ==> choice < in_language(v@, LANGUAGE_FILTER@).len() || in_language(
                v@,
                LANGUAGE_FILTER@,
            ).len() == 0,
        ensures
            description_outcome_at(self@, pokemon_name@, fetched, choice as int, r),
    {
        match fetched {
            Err(e) => Err(PokeApiClientError::RequestError(e)),
            Ok(v) => match Self::pick_description(v.as_slice(), LANGUAGE_FILTER, choice) {
                Some(d) => Ok(Self::cleanup_description(d.text.as_str())),
                None => Err(
                    PokeApiClientError::DescriptionNotFound(
                        DescriptionNotFound {
                            language_filter: String::from_str(LANGUAGE_FILTER),
                            api_url: self.species_url(pokemon_name),
                        },
                    ),
                ),
            },
        }
    }

    /// One English description of `pokemon_name`, cleaned, drawn at random
    /// from the entries `fetched` from the upstream; see `description_outcome`.
    pub fn get_random_description(
        &self,
        pokemon_name: &str,
        fetched: Result<Vec<PokemonDescription>, RequestError>,
    ) -> (r: Result<String, PokeApiClientError>)
        ensures
            description_outcome(self@, pokemon_name@, fetched, r),
    {
        let choice = match &fetched {
            Ok(v) => choose_index(Self::count_in_language(v.as_slice(), LANGUAGE_FILTER)),
            Err(_) => Some(0),
        };
        let choice = match choice {
            Some(i) => i,
            None => 0,
        };
        self.select_description(pokemon_name, fetched, choice)
    }

    /// `description` with white-space runs made single spaces, trimmed, and
    /// the upstream's `\u000` artifacts stripped: a clean text.
    pub fn cleanup_description(description: &str) -> (r: String)
        ensures
            r@ == cleanup(description@),
            is_clean(r@),
    {
        let chars = chars_of(description);
        let cleaned = cleanup_chars(&chars);
        proof {
            crate::text::lemma_cleanup_is_clean(description@);
        }
        string_of(&cleaned)
    }
}

} // verus!
