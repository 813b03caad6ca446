use vstd::prelude::*;

verus! {

/// The fixed instruction prefix of a normalization request: it asks the
/// completion collaborator to rewrite the aggregate into valid markdown
/// strictly following the template, with no code-fence wrapping.
pub open spec fn spec_normalization_prefix() -> Seq<char> {
    "Convert this text into markdown so it's 100% valid and using the correct markdown formatting, replace all placeholder content with the content from Input. Remove any irrelevant content. Only return the formatted markdown response with no code blocks or anything else. Example Template:"@
}

/// The marker that separates the forwarded template from the aggregate.
pub open spec fn spec_input_marker() -> Seq<char> {
    " Input:"@
}

/// The full normalization prompt: the fixed prefix, the template forwarded
/// verbatim, the input marker, and the aggregate.
pub open spec fn spec_normalization_prompt(template: Seq<char>, aggregate: Seq<char>) -> Seq<
    char,
> {
    spec_normalization_prefix() + template + spec_input_marker() + aggregate
}

/// Builds the normalization prompt for one aggregate. The template is not
/// interpreted here: it is forwarded verbatim as part of the prompt.
pub fn normalization_prompt(template: &str, aggregate: &str) -> (prompt: String)
    ensures
        prompt@ == spec_normalization_prompt(template@, aggregate@),
{
    let mut prompt =
        "Convert this text into markdown so it's 100% valid and using the correct markdown formatting, replace all placeholder content with the content from Input. Remove any irrelevant content. Only return the formatted markdown response with no code blocks or anything else. Example Template:".to_owned();
    prompt.append(template);
    prompt.append(" Input:");
    prompt.append(aggregate);
    proof {
        assert(prompt@ =~= spec_normalization_prompt(template@, aggregate@));
    }
    prompt
}

} // verus!
