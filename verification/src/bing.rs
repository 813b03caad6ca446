use vstd::prelude::*;
use crate::bing_models::{BingSearchResponse, WebPage};
use crate::errors::{PipelineError, PipelineStage};

verus! {

/// The search endpoint that keyword-search requests are sent to.
pub open spec fn spec_bing_endpoint() -> Seq<char> {
    "https://api.bing.microsoft.com/v7.0/search"@
}

/// The `application/x-www-form-urlencoded` serialization of one string:
/// a function of its characters alone.
pub uninterp spec fn urlencoded_of(s: Seq<char>) -> Seq<char>;

/// Relies on url::form_urlencoded::Serializer: appending a single name/value
/// pair onto an empty target serializes the percent-encoded name, '=', and
/// the percent-encoded value, and the encoding of a string depends on its
/// characters alone.
#[verifier::external_body]
fn encode_query_pair(name: &str, value: &str) -> (encoded: String)
    ensures
        encoded@ == urlencoded_of(name@) + seq!['='] + urlencoded_of(value@),
{
    url::form_urlencoded::Serializer::new(String::new()).append_pair(name, value).finish()
}

/// The full GET URL for one keyword search: the endpoint, '?', and the
/// encoded `q` pair carrying the query.
pub open spec fn spec_search_url(query: Seq<char>) -> Seq<char> {
    spec_bing_endpoint() + seq!['?'] + urlencoded_of("q"@) + seq!['='] + urlencoded_of(query)
}

pub fn search_url(query: &str) -> (url: String)
    ensures
        url@ == spec_search_url(query@),
{
    let mut url = "https://api.bing.microsoft.com/v7.0/search".to_owned();
    url.append("?");
    let encoded = encode_query_pair("q", query);
    url.append(encoded.as_str());
    proof {
        reveal_strlit("?");
        assert("?"@ =~= seq!['?']);
        assert(url@ =~= spec_search_url(query@));
    }
    url
}

/// Extracts the result pages from a search response, keeping the backend's
/// ranking order and each page's rendered fields (title, URL, snippet).
pub fn get_bing_search_data(response_text: &BingSearchResponse) -> (r: Option<Vec<WebPage>>)
    ensures
        r is Some,
        r.unwrap().len() == response_text.web_pages.value.len(),
        forall|i: int|
            0 <= i < response_text.web_pages.value.len()
                ==> (#[trigger] r.unwrap()@[i].rendered_fields())
                == response_text.web_pages.value@[i].rendered_fields(),
{
    let content = response_text.web_pages.value.clone();
    proof {
        assert forall|i: int|
            0 <= i < response_text.web_pages.value.len() implies (
        #[trigger] content@[i].rendered_fields())
            == response_text.web_pages.value@[i].rendered_fields() by {
            assert(cloned::<WebPage>(response_text.web_pages.value[i], content[i]));
        }
    }
    Some(content)
}

/// The canonical textual rendering of one result page: its title, URL and
/// snippet on consecutive lines.
pub open spec fn spec_page_text(page: WebPage) -> Seq<char> {
    page.name@ + seq!['\n'] + page.url@ + seq!['\n'] + page.snippet@
}

/// The canonical textual rendering of a result set: the pages' renderings
/// in ranking order, separated by blank lines; empty input renders empty.
pub open spec fn spec_results_text(pages: Seq<WebPage>) -> Seq<char>
    decreases pages.len(),
{
    if pages.len() == 0 {
        Seq::<char>::empty()
    } else if pages.len() == 1 {
        spec_page_text(pages[0])
    } else {
        spec_results_text(pages.drop_last()) + seq!['\n', '\n'] + spec_page_text(pages.last())
    }
}

/// Renders a result set to the canonical text handed to downstream stages:
/// title, URL and snippet per page, pages in the order the backend ranked
/// them, never re-sorted.
pub fn render_search_results(pages: &Vec<WebPage>) -> (text: String)
    ensures
        text@ == spec_results_text(pages@),
{
    let mut text = String::new();
    let mut i: usize = 0;
    while i < pages.len()
        invariant
            i <= pages.len(),
            text@ == spec_results_text(pages@.take(i as int)),
        decreases pages.len() - i,
    {
        proof {
            assert(pages@.take(i + 1 as int).drop_last() =~= pages@.take(i as int));
            assert(pages@.take(i + 1 as int).last() == pages@[i as int]);
            reveal_strlit("\n\n");
            reveal_strlit("\n");
            assert("\n\n"@ =~= seq!['\n', '\n']);
            assert("\n"@ =~= seq!['\n']);
        }
        if i > 0 {
            text.append("\n\n");
        }
        let page = &pages[i];
        text.append(page.name.as_str());
        text.append("\n");
        text.append(page.url.as_str());
        text.append("\n");
        text.append(page.snippet.as_str());
        proof {
            if i == 0 {
                assert(pages@.take(1int).len() == 1);
            }
            assert(text@ =~= spec_results_text(pages@.take(i + 1 as int)));
        }
        i += 1;
    }
    proof {
        assert(pages@.take(pages.len() as int) =~= pages@);
    }
    text
}

/// The fetch outcome of one keyword-search response: a well-formed response
/// with zero result pages is a contentless response, distinct from a hard
/// failure; a non-empty one yields the canonical textual rendering of its
/// pages in ranking order.
pub fn search_fetch_outcome(response: &BingSearchResponse) -> (outcome: Result<
    String,
    PipelineError,
>)
    ensures
        response.web_pages.value.len() == 0 ==> (outcome matches Err(e) && e matches
            PipelineError::EmptyResultError { stage } && stage == PipelineStage::Fetch),
        response.web_pages.value.len() > 0 ==> (outcome matches Ok(content) && content@
            == spec_results_text(response.web_pages.value@)),
{
    if response.web_pages.value.len() == 0 {
        Err(PipelineError::EmptyResultError { stage: PipelineStage::Fetch })
    } else {
        Ok(render_search_results(&response.web_pages.value))
    }
}

} // verus!
