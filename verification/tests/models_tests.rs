use topic_digest::bing::{get_bing_search_data, search_fetch_outcome, search_url};
use topic_digest::bing_models::{
    BingSearchResponse, Mainline, QueryContext, RankingResponse, WebPage, WebPages,
};
use topic_digest::errors::{PipelineError, PipelineStage};
use topic_digest::open_ai::{build_openai_request, first_choice_content};
use topic_digest::open_ai_models::{Choice, CompletionRequest, Message, OpenAiResponse};
use topic_digest::perplexity::{
    answer_fetch_outcome, build_perplexity_request, get_perplexity_response,
};
use topic_digest::perplexity_models as pm;

fn page(name: &str, url: &str, snippet: &str) -> WebPage {
    WebPage {
        id: "id".to_string(),
        contractual_rules: None,
        name: name.to_string(),
        url: url.to_string(),
        thumbnail_url: None,
        is_family_friendly: true,
        display_url: url.to_string(),
        snippet: snippet.to_string(),
        date_last_crawled: "2024-01-01".to_string(),
        primary_image_of_page: None,
        cached_page_url: "cache".to_string(),
        language: "en".to_string(),
        is_navigational: false,
        rich_facts: None,
        no_cache: false,
        site_name: None,
    }
}

fn search_response(pages: Vec<WebPage>) -> BingSearchResponse {
    BingSearchResponse {
        _type: "SearchResponse".to_string(),
        query_context: QueryContext { original_query: "q".to_string() },
        web_pages: WebPages {
            web_search_url: "https://example.org".to_string(),
            total_estimated_matches: pages.len() as u64,
            value: pages,
        },
        ranking_response: RankingResponse { mainline: Mainline { items: vec![] } },
    }
}

#[test]
fn search_url_percent_encodes_the_query() {
    assert_eq!(
        search_url("rust lang"),
        "https://api.bing.microsoft.com/v7.0/search?q=rust+lang"
    );
    assert_eq!(
        search_url("a&b"),
        "https://api.bing.microsoft.com/v7.0/search?q=a%26b"
    );
}

#[test]
fn get_bing_search_data_keeps_pages_in_order() {
    let response = search_response(vec![page("n1", "u1", "s1"), page("n2", "u2", "s2")]);
    let pages = get_bing_search_data(&response).unwrap();
    assert_eq!(pages.len(), 2);
    assert_eq!(pages[0].name, "n1");
    assert_eq!(pages[1].url, "u2");
    assert_eq!(pages[1].snippet, "s2");
}

#[test]
fn search_fetch_outcome_renders_title_url_snippet_in_rank_order() {
    let response = search_response(vec![page("n1", "u1", "s1"), page("n2", "u2", "s2")]);
    let content = search_fetch_outcome(&response).unwrap();
    assert_eq!(content, "n1\nu1\ns1\n\nn2\nu2\ns2");
}

#[test]
fn search_fetch_outcome_with_zero_pages_is_empty_result() {
    let response = search_response(vec![]);
    match search_fetch_outcome(&response) {
        Err(PipelineError::EmptyResultError { stage }) => {
            assert_eq!(stage, PipelineStage::Fetch)
        }
        other => panic!("expected an empty-result error, got {:?}", other),
    }
}

#[test]
fn build_openai_request_has_system_then_user_message() {
    let wire = build_openai_request(&CompletionRequest {
        model: "gpt-4o-mini".to_string(),
        query: "hello".to_string(),
    });
    assert_eq!(wire.model, "gpt-4o-mini");
    assert_eq!(wire.messages.len(), 2);
    assert_eq!(wire.messages[0].role, "system");
    assert_eq!(wire.messages[0].content, "");
    assert_eq!(wire.messages[1].role, "user");
    assert_eq!(wire.messages[1].content, "hello");
}

#[test]
fn first_choice_content_returns_exactly_the_first_choice() {
    let response = OpenAiResponse {
        choices: Some(vec![
            Choice {
                message: Some(Message { role: "assistant".to_string(), content: "one".to_string() }),
            },
            Choice {
                message: Some(Message { role: "assistant".to_string(), content: "two".to_string() }),
            },
        ]),
    };
    assert_eq!(first_choice_content(&response), Some("one".to_string()));
}

#[test]
fn first_choice_content_is_none_without_choices() {
    assert_eq!(first_choice_content(&OpenAiResponse { choices: None }), None);
    assert_eq!(first_choice_content(&OpenAiResponse { choices: Some(vec![]) }), None);
    let no_message = OpenAiResponse { choices: Some(vec![Choice { message: None }]) };
    assert_eq!(first_choice_content(&no_message), None);
}

#[test]
fn build_perplexity_request_selects_small_model_only_on_request() {
    let small = build_perplexity_request(&pm::SearchRequest {
        query: "what happened".to_string(),
        use_sonar_small: Some(true),
    });
    assert_eq!(small.model, "llama-3-sonar-small-32k-online");

    let large = build_perplexity_request(&pm::SearchRequest {
        query: "what happened".to_string(),
        use_sonar_small: Some(false),
    });
    assert_eq!(large.model, "llama-3-sonar-large-32k-online");

    let unset = build_perplexity_request(&pm::SearchRequest {
        query: "what happened".to_string(),
        use_sonar_small: None,
    });
    assert_eq!(unset.model, "llama-3-sonar-large-32k-online");
}

#[test]
fn build_perplexity_request_appends_prompt_rules() {
    let wire = build_perplexity_request(&pm::SearchRequest {
        query: "query text".to_string(),
        use_sonar_small: None,
    });
    assert_eq!(wire.messages.len(), 1);
    assert_eq!(wire.messages[0].role, "user");
    assert_eq!(
        wire.messages[0].content,
        "query text. Transform the response into markdown and add the url at the end of each item."
    );
}

#[test]
fn get_perplexity_response_returns_best_answer() {
    let response = pm::PerplexityResponse {
        choices: vec![
            pm::Choice {
                message: pm::Message { role: "assistant".to_string(), content: "best".to_string() },
            },
            pm::Choice {
                message: pm::Message { role: "assistant".to_string(), content: "worse".to_string() },
            },
        ],
    };
    assert_eq!(get_perplexity_response(&response), Some("best".to_string()));
    assert_eq!(get_perplexity_response(&pm::PerplexityResponse { choices: vec![] }), None);
}

#[test]
fn answer_fetch_outcome_with_zero_choices_is_empty_result() {
    match answer_fetch_outcome(&pm::PerplexityResponse { choices: vec![] }) {
        Err(PipelineError::EmptyResultError { stage }) => {
            assert_eq!(stage, PipelineStage::Fetch)
        }
        other => panic!("expected an empty-result error, got {:?}", other),
    }
}
