//! Web search: the request sent to the primary provider, the rendering of
//! the fallback provider's results, and the choice between the two.

use vstd::prelude::*;
use vstd::string::*;
use vstd::utf8::*;
use crate::json::{JsonValue, is_object2, object2, text_value};
use crate::text::{concat, concat3, decimal, u64_text};

verus! {

/// How many results a search asks for when the request names no count.
pub const DEFAULT_SEARCH_COUNT: u32 = 5;

/// The number of results to ask for.
pub fn result_count(requested: Option<u32>) -> (n: u32)
    ensures
        n == match requested {
            Some(c) => c,
            None => DEFAULT_SEARCH_COUNT,
        },
{
    match requested {
        Some(c) => c,
        None => DEFAULT_SEARCH_COUNT,
    }
}

/// Whether a byte is left as it is by URL encoding: ASCII letters, digits,
/// `-`, `.`, `_` and `~`.
pub open spec fn url_safe(b: u8) -> bool {
    (48 <= b <= 57) || (65 <= b <= 90) || (97 <= b <= 122) || b == 45 || b == 46 || b == 95 || b == 126
}

/// The uppercase hexadecimal digit of `d < 16`.
pub open spec fn hex_digit(d: int) -> char {
    if d < 10 {
        (48 + d) as char
    } else {
        (55 + d) as char
    }
}

/// Percent-encoding of bytes: safe bytes as they are, every other byte as
/// `%` and two uppercase hexadecimal digits.
pub open spec fn percent_encoded(bytes: Seq<u8>) -> Seq<char>
    decreases bytes.len(),
{
    if bytes.len() == 0 {
        Seq::empty()
    } else {
        let b = bytes[0];
        let head = if url_safe(b) {
            seq![b as char]
        } else {
            seq!['%', hex_digit(b as int / 16), hex_digit(b as int % 16)]
        };
        head + percent_encoded(bytes.drop_first())
    }
}

/// `urlencoding::encode`: percent-encodes the UTF-8 bytes of `s`.
#[verifier::external_body]
fn url_encode(s: &str) -> (r: String)
    ensures
        r@ == percent_encoded(encode_utf8(s@)),
{
    urlencoding::encode(s).into_owned()
}

/// The search page the primary provider is asked to read.
pub open spec fn search_page_url(query: Seq<char>) -> Seq<char> {
    "https://www.google.com/search?q="@ + percent_encoded(encode_utf8(query))
}

/// What the primary provider is asked to extract.
pub open spec fn search_goal(count: u32) -> Seq<char> {
    "Extract the top "@ + decimal(count as nat) + " search result titles, URLs, and descriptions"@
}

/// The body of the request to the primary provider: the search page to read
/// and the extraction goal.
pub fn tinyfish_request_body(query: &str, count: u32) -> (r: JsonValue)
    ensures
        is_object2(r, "url"@, text_value(search_page_url(query@)), "goal"@, text_value(search_goal(count))),
{
    let url = concat("https://www.google.com/search?q=", url_encode(query).as_str());
    let goal = concat3("Extract the top ", u64_text(count as u64).as_str(), " search result titles, URLs, and descriptions");
    object2("url", JsonValue::Str(url), "goal", JsonValue::Str(goal))
}

/// The text of field `key` of `v`, or nothing.
pub open spec fn text_field_or_empty(v: JsonValue, key: Seq<char>) -> Seq<char> {
    match v.spec_get(key) {
        Some(x) => match x.spec_as_str() {
            Some(s) => s,
            None => Seq::empty(),
        },
        None => Seq::empty(),
    }
}

/// The rendering of the `index`-th result (counting from 0).
pub open spec fn result_entry(index: nat, result: JsonValue) -> Seq<char> {
    decimal(index + 1) + ". "@ + text_field_or_empty(result, "title"@) + "\n   "@ + text_field_or_empty(result, "url"@)
        + "\n   "@ + text_field_or_empty(result, "description"@) + "\n\n"@
}

/// The rendering of a list of results.
pub open spec fn result_entries(results: Seq<JsonValue>) -> Seq<char>
    decreases results.len(),
{
    if results.len() == 0 {
        Seq::empty()
    } else {
        result_entries(results.drop_last()) + result_entry((results.len() - 1) as nat, results.last())
    }
}

/// The results of a fallback provider's response: `web.results`, when an array.
pub open spec fn response_results(data: JsonValue) -> Option<Seq<JsonValue>> {
    match data.spec_get("web"@) {
        Some(web) => match web.spec_get("results"@) {
            Some(results) => results.spec_as_array(),
            None => None,
        },
        None => None,
    }
}

/// The rendering of a fallback provider's response, or the error when it has
/// no results.
pub open spec fn rendered_results(data: JsonValue) -> Result<Seq<char>, Seq<char>> {
    let out = match response_results(data) {
        Some(rs) => result_entries(rs),
        None => Seq::empty(),
    };
    if out.len() == 0 {
        Err("No results found"@)
    } else {
        Ok(out)
    }
}

fn text_field(v: &JsonValue, key: &str) -> (r: String)
    ensures
        r@ == text_field_or_empty(*v, key@),
{
    match v.get(key) {
        Some(x) => match x.as_str() {
            Some(s) => String::from_str(s),
            None => String::new(),
        },
        None => String::new(),
    }
}

/// Renders a fallback provider's response: each result numbered, with its
/// title, URL and description; an error when there are none.
pub fn brave_results_text(data: &JsonValue) -> (r: Result<String, String>)
    ensures
        match r {
            Ok(s) => rendered_results(*data) == Ok::<Seq<char>, Seq<char>>(s@),
            Err(e) => rendered_results(*data) == Err::<Seq<char>, Seq<char>>(e@),
        },
{
    let mut output = String::new();
    let results = match data.get("web") {
        Some(web) => match web.get("results") {
            Some(rs) => rs.as_array(),
            None => None,
        },
        None => None,
    };
    match results {
        Some(items) => {
            let mut i: usize = 0;
            while i < items.len()
                invariant
                    i <= items@.len(),
                    output@ == result_entries(items@.subrange(0, i as int)),
                decreases items@.len() - i,
            {
                let item = &items[i];
                output.append(u64_text(i as u64 + 1).as_str());
                output.append(". ");
                output.append(text_field(item, "title").as_str());
                output.append("\n   ");
                output.append(text_field(item, "url").as_str());
                output.append("\n   ");
                output.append(text_field(item, "description").as_str());
                output.append("\n\n");
                assert(items@.subrange(0, i + 1).drop_last() =~= items@.subrange(0, i as int));
                i += 1;
            }
            assert(items@.subrange(0, items@.len() as int) =~= items@);
        },
        None => {},
    }
    if output.as_str().is_empty() {
        Err(String::from_str("No results found"))
    } else {
        Ok(output)
    }
}

/// The message when no provider is configured.
pub open spec fn unavailable_message() -> Seq<char> {
    "Search unavailable: set TINYFISH_API_KEY or BRAVE_API_KEY environment variable"@
}

/// Whether the fallback provider must be asked, given what the primary one
/// gave (`None` when it is not configured).
pub fn fallback_needed(primary: &Option<Result<String, String>>) -> (b: bool)
    ensures
        b == !(primary matches Some(Ok(_))),
{
    match primary {
        Some(Ok(_)) => false,
        _ => true,
    }
}

/// The answer to a search: the primary provider's results when it gave
/// some; otherwise the fallback's results or its error; otherwise a note that
/// no provider is configured. `None` stands for a provider that is not
/// configured (or, for the fallback, not asked).
pub fn search_reply(primary: Option<Result<String, String>>, fallback: Option<Result<String, String>>) -> (r: String)
    ensures
        match primary {
            Some(Ok(p)) => r == p,
            _ => match fallback {
                Some(Ok(f)) => r == f,
                Some(Err(e)) => r@ == "Search failed (both TinyFish and Brave): "@ + e@,
                None => r@ == unavailable_message(),
            },
        },
{
    if let Some(Ok(results)) = primary {
        return results;
    }
    match fallback {
        Some(Ok(results)) => results,
        Some(Err(e)) => concat("Search failed (both TinyFish and Brave): ", e.as_str()),
        None => String::from_str("Search unavailable: set TINYFISH_API_KEY or BRAVE_API_KEY environment variable"),
    }
}

} // verus!

verus! {

/// A fallback provider's results are rendered one entry per result, in
/// order: the entry of the result after `results` is its number (counting
/// from 1), its `title`, its `url` and its `description`, each on its own
/// line, the last two indented, with a blank line after it.
pub proof fn lemma_result_rendering(results: Seq<JsonValue>, item: JsonValue, title: Seq<char>, url: Seq<char>, description: Seq<char>)
    requires
        item.spec_get("title"@) matches Some(JsonValue::Str(t)) && t@ == title,
        item.spec_get("url"@) matches Some(JsonValue::Str(u)) && u@ == url,
        item.spec_get("description"@) matches Some(JsonValue::Str(d)) && d@ == description,
    ensures
        result_entries(results.push(item)) == result_entries(results) + decimal(results.len() + 1) + ". "@ + title
            + "\n   "@ + url + "\n   "@ + description + "\n\n"@,
{
    assert(results.push(item).drop_last() =~= results);
}

/// A response whose `web.results` is an array of `n > 0` results renders as
/// the entries of those results; one with no results, or no such array, is
/// answered "No results found".
pub proof fn lemma_rendered_response(data: JsonValue, results: Seq<JsonValue>)
    requires
        data.spec_get("web"@) matches Some(web) && web.spec_get("results"@) matches Some(JsonValue::Array(items))
            && items@ == results,
    ensures
        results.len() > 0 ==> rendered_results(data) == Ok::<Seq<char>, Seq<char>>(result_entries(results)),
        results.len() == 0 ==> rendered_results(data) == Err::<Seq<char>, Seq<char>>("No results found"@),
{
    if results.len() > 0 {
        let k = (results.len() - 1) as nat;
        let entry = result_entry(k, results.last());
        assert(decimal(k + 1).len() > 0);
        assert(entry.len() > 0);
        assert(result_entries(results).len() >= entry.len());
    }
}

/// No response without an array at `web.results` has results.
pub proof fn lemma_response_without_results(data: JsonValue)
    requires
        !(data.spec_get("web"@) matches Some(web) && web.spec_get("results"@) matches Some(JsonValue::Array(_))),
    ensures
        rendered_results(data) == Err::<Seq<char>, Seq<char>>("No results found"@),
{
}

} // verus!
