use vstd::prelude::*;

verus! {

/// A keyword-search request: the single query string to search for.
pub struct SearchQuery {
    pub query: String,
}

/// The top-level body of a search backend response.
pub struct BingSearchResponse {
    pub _type: String,
    pub query_context: QueryContext,
    pub web_pages: WebPages,
    pub ranking_response: RankingResponse,
}

pub struct QueryContext {
    pub original_query: String,
}

/// The web-page section of a search response: the result pages in the
/// backend's own ranking order.
pub struct WebPages {
    pub web_search_url: String,
    pub total_estimated_matches: u64,
    pub value: Vec<WebPage>,
}

/// One ranked search result.
#[derive(Debug)]
pub struct WebPage {
    pub id: String,
    pub contractual_rules: Option<Vec<ContractualRule>>,
    pub name: String,
    pub url: String,
    pub thumbnail_url: Option<String>,
    pub is_family_friendly: bool,
    pub display_url: String,
    pub snippet: String,
    pub date_last_crawled: String,
    pub primary_image_of_page: Option<PrimaryImageOfPage>,
    pub cached_page_url: String,
    pub language: String,
    pub is_navigational: bool,
    pub rich_facts: Option<Vec<RichFact>>,
    pub no_cache: bool,
    pub site_name: Option<String>,
}

#[derive(Debug)]
pub struct ContractualRule {
    pub target_property_name: String,
    pub target_property_index: Option<u32>,
    pub must_be_close_to_content: bool,
    pub license: License,
    pub license_notice: String,
}

#[derive(Debug)]
pub struct License {
    pub name: String,
    pub url: String,
}

#[derive(Debug)]
pub struct PrimaryImageOfPage {
    pub thumbnail_url: String,
    pub width: u32,
    pub height: u32,
    pub image_id: String,
}

#[derive(Debug)]
pub struct RichFact {
    pub label: Label,
    pub items: Vec<Item>,
    pub hint: Hint,
}

#[derive(Debug)]
pub struct Label {
    pub text: String,
}

#[derive(Debug)]
pub struct Item {
    pub text: String,
}

#[derive(Debug)]
pub struct Hint {
    pub text: String,
}

pub struct RankingResponse {
    pub mainline: Mainline,
}

pub struct Mainline {
    pub items: Vec<RankingItem>,
}

pub struct RankingItem {
    pub answer_type: String,
    pub result_index: u32,
    pub value: RankingItemValue,
}

pub struct RankingItemValue {
    pub id: String,
}

impl Clone for License {
    fn clone(&self) -> (res: Self)
        ensures
            res == *self,
    {
        License { name: self.name.clone(), url: self.url.clone() }
    }
}

impl Clone for ContractualRule {
    fn clone(&self) -> (res: Self)
        ensures
            res == *self,
    {
        ContractualRule {
            target_property_name: self.target_property_name.clone(),
            target_property_index: self.target_property_index,
            must_be_close_to_content: self.must_be_close_to_content,
            license: self.license.clone(),
            license_notice: self.license_notice.clone(),
        }
    }
}

impl Clone for PrimaryImageOfPage {
    fn clone(&self) -> (res: Self)
        ensures
            res == *self,
    {
        PrimaryImageOfPage {
            thumbnail_url: self.thumbnail_url.clone(),
            width: self.width,
            height: self.height,
            image_id: self.image_id.clone(),
        }
    }
}

impl Clone for Label {
    fn clone(&self) -> (res: Self)
        ensures
            res == *self,
    {
        Label { text: self.text.clone() }
    }
}

impl Clone for Item {
    fn clone(&self) -> (res: Self)
        ensures
            res == *self,
    {
        Item { text: self.text.clone() }
    }
}

impl Clone for Hint {
    fn clone(&self) -> (res: Self)
        ensures
            res == *self,
    {
        Hint { text: self.text.clone() }
    }
}

impl Clone for RichFact {
    fn clone(&self) -> (res: Self)
        ensures
            res.label == self.label,
            res.items@ == self.items@,
            res.hint == self.hint,
    {
        let items = self.items.clone();
        proof {
            assert(items@ =~= self.items@);
        }
        RichFact { label: self.label.clone(), items, hint: self.hint.clone() }
    }
}

impl WebPage {
    /// The fields of a result page that the canonical textual rendering
    /// reads: its title, its URL, and its snippet.
    pub open spec fn rendered_fields(self) -> (Seq<char>, Seq<char>, Seq<char>) {
        (self.name@, self.url@, self.snippet@)
    }
}

impl Clone for WebPage {
    fn clone(&self) -> (res: Self)
        ensures
            res.id == self.id,
            res.name == self.name,
            res.url == self.url,
            res.thumbnail_url == self.thumbnail_url,
            res.is_family_friendly == self.is_family_friendly,
            res.display_url == self.display_url,
            res.snippet == self.snippet,
            res.date_last_crawled == self.date_last_crawled,
            res.primary_image_of_page == self.primary_image_of_page,
            res.cached_page_url == self.cached_page_url,
            res.language == self.language,
            res.is_navigational == self.is_navigational,
            res.no_cache == self.no_cache,
            res.site_name == self.site_name,
            res.contractual_rules is Some <==> self.contractual_rules is Some,
            res.rich_facts is Some <==> self.rich_facts is Some,
            res.rendered_fields() == self.rendered_fields(),
    {
        WebPage {
            id: self.id.clone(),
            contractual_rules: self.contractual_rules.clone(),
            name: self.name.clone(),
            url: self.url.clone(),
            thumbnail_url: self.thumbnail_url.clone(),
            is_family_friendly: self.is_family_friendly,
            display_url: self.display_url.clone(),
            snippet: self.snippet.clone(),
            date_last_crawled: self.date_last_crawled.clone(),
            primary_image_of_page: self.primary_image_of_page.clone(),
            cached_page_url: self.cached_page_url.clone(),
            language: self.language.clone(),
            is_navigational: self.is_navigational,
            rich_facts: self.rich_facts.clone(),
            no_cache: self.no_cache,
            site_name: self.site_name.clone(),
        }
    }
}

} // verus!
