use topic_digest::aggregate::aggregate;
use topic_digest::normalize::normalization_prompt;
use topic_digest::optimize::{optimization_prompt, split_queries};

#[test]
fn split_three_queries() {
    let queries = split_queries("a;b;c");
    assert_eq!(queries, vec!["a".to_string(), "b".to_string(), "c".to_string()]);
}

#[test]
fn split_keeps_empty_middle_segment() {
    let queries = split_queries("a;;b");
    assert_eq!(queries, vec!["a".to_string(), "".to_string(), "b".to_string()]);
}

#[test]
fn split_without_delimiter_is_single_element() {
    let queries = split_queries("one single query");
    assert_eq!(queries, vec!["one single query".to_string()]);
}

#[test]
fn split_with_leading_and_trailing_delimiters() {
    let queries = split_queries(";a;");
    assert_eq!(queries, vec!["".to_string(), "a".to_string(), "".to_string()]);
}

#[test]
fn split_of_empty_response_is_one_empty_query() {
    let queries = split_queries("");
    assert_eq!(queries, vec!["".to_string()]);
}

#[test]
fn split_handles_non_ascii_text() {
    let queries = split_queries("caf\u{e9};\u{1f600}");
    assert_eq!(queries, vec!["caf\u{e9}".to_string(), "\u{1f600}".to_string()]);
}

#[test]
fn aggregate_joins_in_order_with_newlines() {
    let results = vec!["a".to_string(), "b".to_string(), "c".to_string()];
    assert_eq!(aggregate(&results), "a\nb\nc");
}

#[test]
fn aggregate_matches_per_element_joins() {
    let a = "first result".to_string();
    let b = "second result".to_string();
    let c = "third result".to_string();
    let joint = aggregate(&vec![a.clone(), b.clone(), c.clone()]);
    let split = format!(
        "{}\n{}\n{}",
        aggregate(&vec![a]),
        aggregate(&vec![b]),
        aggregate(&vec![c])
    );
    assert_eq!(joint, split);
}

#[test]
fn aggregate_drops_empty_entries_keeping_order() {
    let results = vec!["result1".to_string(), "".to_string(), "result3".to_string()];
    assert_eq!(aggregate(&results), "result1\nresult3");
}

#[test]
fn aggregate_of_empty_input_is_empty() {
    assert_eq!(aggregate(&vec![]), "");
}

#[test]
fn aggregate_of_all_empty_entries_is_empty() {
    let results = vec!["".to_string(), "".to_string()];
    assert_eq!(aggregate(&results), "");
}

#[test]
fn optimization_prompt_is_prefix_then_topic() {
    let prompt = optimization_prompt("rust verification");
    assert_eq!(
        prompt,
        "Optimise this natural language query to show the best and latest results in a search engine. Only return the updated query. If the query contains more than 1 request then split it into multiple queries using semi-colons ;. Query:rust verification"
    );
}

#[test]
fn normalization_prompt_embeds_template_and_aggregate() {
    let prompt = normalization_prompt("## Section", "some facts");
    assert_eq!(
        prompt,
        "Convert this text into markdown so it's 100% valid and using the correct markdown formatting, replace all placeholder content with the content from Input. Remove any irrelevant content. Only return the formatted markdown response with no code blocks or anything else. Example Template:## Section Input:some facts"
    );
}
