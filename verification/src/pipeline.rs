use vstd::prelude::*;
use crate::aggregate::{aggregate, spec_aggregate};
use crate::bing::{search_url, spec_search_url};
use crate::errors::{PipelineError, PipelineStage};
use crate::normalize::{normalization_prompt, spec_normalization_prompt};
use crate::open_ai_models::CompletionRequest;
use crate::optimize::{optimization_prompt, spec_optimisation_prefix, split_on, split_queries};
use crate::perplexity_models::SearchRequest;
use crate::render::{html_of, markdown_to_html};
use crate::schedule::{is_due, spec_is_due, CustomEmail, Weekday};

verus! {

/// Which content provider backend a run uses. Exactly one variant is active
/// per run, chosen by static configuration, never mixed mid-run.
#[derive(Clone, Copy, PartialEq, Eq, Structural, Debug)]
pub enum ProviderKind {
    /// Keyword search against the search backend.
    SearchVariant,
    /// Natural-language answer from the LLM-backed answering backend, on
    /// its small or its large underlying model.
    AnswerVariant { use_small_model: bool },
}

/// Where one topic's run stands. Linear, with no branching back-edges; the
/// aborted state absorbs unrecoverable failure from any stage.
#[derive(Debug)]
pub enum Stage {
    /// Nothing attempted yet.
    Pending,
    /// Not due today; nothing was attempted.
    Skipped,
    /// Waiting for the optimized-queries completion response.
    Optimizing,
    /// Waiting for the next query's fetch response.
    Fetching,
    /// Waiting for the normalization completion response.
    Normalizing,
    /// Waiting for the email collaborator's outcome.
    Sending,
    /// The run finished; delivery may still have failed, tracked apart.
    Done,
    /// The run stopped at some stage with this error.
    Aborted { error: PipelineError },
}

/// Which stages of one run completed, for auditability.
#[derive(Clone, Copy, PartialEq, Eq, Structural, Debug)]
pub struct StageLog {
    pub optimized: bool,
    pub fetched: bool,
    pub normalized: bool,
    pub rendered: bool,
    pub sent: bool,
}

/// The outcome of one topic's run. Generation success and delivery success
/// are tracked as separate outcomes: a send failure after rendering does
/// not retroactively fail the run.
#[derive(Debug)]
pub enum DispatchOutcome {
    /// The topic was not due today.
    NotDue,
    /// Content was generated and the email was handed over.
    Delivered,
    /// Content was generated but the email collaborator failed; reported
    /// distinctly from generation failure.
    SendFailed { cause: String },
    /// The run aborted with this error; no email was attempted.
    Aborted { error: PipelineError },
}

/// The recorded outcome of one topic's run.
#[derive(Debug)]
pub struct DispatchRecord {
    pub subject: String,
    pub outcome: DispatchOutcome,
    pub stages: StageLog,
}

/// What the embedding application must do next for one topic. Every
/// outside call the pipeline needs is phrased as one of these; the
/// application performs it and reports the outcome back to the matching
/// `TopicRun` method.
#[derive(Debug)]
#[allow(inconsistent_fields)]
pub enum PipelineAction {
    /// Send this completion request and report to `on_optimize_response`.
    Optimize { request: CompletionRequest },
    /// Fetch this URL from the search backend and report the outcome of
    /// `search_fetch_outcome` to `on_fetch_response`.
    FetchSearch { url: String },
    /// Ask the answering backend and report the outcome of
    /// `answer_fetch_outcome` to `on_fetch_response`.
    FetchAnswer { request: SearchRequest },
    /// Send this completion request and report to `on_normalize_response`.
    Normalize { request: CompletionRequest },
    /// Hand the rendered digest to the email collaborator and report to
    /// `on_send_response`.
    Send { to: String, subject: String, html_body: String },
    /// This topic's run is over; collect its record.
    Finished,
}

/// The completion model both completion-backed stages request.
pub open spec fn spec_completion_model() -> Seq<char> {
    "gpt-4o-mini"@
}

pub fn completion_model() -> (model: String)
    ensures
        model@ == spec_completion_model(),
{
    "gpt-4o-mini".to_owned()
}

/// What a correct optimize action for this topic looks like.
pub open spec fn spec_optimize_action(topic: Seq<char>, action: PipelineAction) -> bool {
    &&& action matches PipelineAction::Optimize { request }
    &&& request.model@ == spec_completion_model()
    &&& request.query@ == spec_optimisation_prefix() + topic
}

/// What a correct fetch action for this provider and query looks like.
pub open spec fn spec_fetch_action(
    provider: ProviderKind,
    query: Seq<char>,
    action: PipelineAction,
) -> bool {
    match provider {
        ProviderKind::SearchVariant => {
            &&& action matches PipelineAction::FetchSearch { url }
            &&& url@ == spec_search_url(query)
        },
        ProviderKind::AnswerVariant { use_small_model } => {
            &&& action matches PipelineAction::FetchAnswer { request }
            &&& request.query@ == query
            &&& request.use_sonar_small == Some(use_small_model)
        },
    }
}

/// What a correct normalize action for this template and aggregate looks
/// like.
pub open spec fn spec_normalize_action(
    template: Seq<char>,
    aggregate: Seq<char>,
    action: PipelineAction,
) -> bool {
    &&& action matches PipelineAction::Normalize { request }
    &&& request.model@ == spec_completion_model()
    &&& request.query@ == spec_normalization_prompt(template, aggregate)
}

/// An abort at `at` with an upstream error carrying this cause.
pub open spec fn spec_aborted_upstream(at: PipelineStage, cause: Seq<char>, stage: Stage) -> bool {
    &&& stage matches Stage::Aborted { error }
    &&& error matches PipelineError::UpstreamError { stage: tag, cause: c }
    &&& tag == at
    &&& c@ == cause
}

/// One topic's run through the pipeline. The embedding application performs
/// the returned actions and reports each outcome back; every decision in
/// between is made here.
pub struct TopicRun {
    pub config: CustomEmail,
    pub provider: ProviderKind,
    pub template: String,
    pub stage: Stage,
    /// The optimized queries, in response order, once optimization is done.
    pub queries: Vec<String>,
    /// One fetched content per already-answered query, in query order; a
    /// tolerated contentless fetch contributes an empty string.
    pub contents: Vec<String>,
    /// The aggregate of the fetched contents, once the fan-out is done.
    pub aggregated: String,
    /// The normalized markdown, once normalization is done.
    pub markdown: String,
    /// The rendered digest, once normalization is done.
    pub html: String,
    /// Why delivery failed, when it did.
    pub send_failure: Option<String>,
    pub stages: StageLog,
}

impl TopicRun {
    /// The run is waiting for fetch outcomes only while some query is still
    /// unanswered.
    pub open spec fn wf(self) -> bool {
        self.stage is Fetching ==> self.contents.len() < self.queries.len()
    }

    /// A run is over once it reaches a state that returns no further work.
    pub open spec fn finished(self) -> bool {
        self.stage is Skipped || self.stage is Done || self.stage is Aborted
    }

    /// Begins one topic's run: a topic due today moves to optimization and
    /// asks for one completion call on the fixed optimization prompt; one
    /// not due today is skipped outright, and no collaborator is called for
    /// it.
    pub fn start(
        config: CustomEmail,
        provider: ProviderKind,
        template: String,
        today: Weekday,
    ) -> (r: (TopicRun, PipelineAction))
        ensures
            r.0.wf(),
            r.0.config == config,
            r.0.provider == provider,
            r.0.template == template,
            !spec_is_due(config.schedule@, today) ==> r.0.stage is Skipped && r.1
                is Finished,
            spec_is_due(config.schedule@, today) ==> r.0.stage is Optimizing
                && spec_optimize_action(config.topic@, r.1),
            r.0.stages == (StageLog {
                optimized: false,
                fetched: false,
                normalized: false,
                rendered: false,
                sent: false,
            }),
    {
        let due = is_due(&config, today);
        let action = if due {
            let prompt = optimization_prompt(config.topic.as_str());
            PipelineAction::Optimize {
                request: CompletionRequest { model: completion_model(), query: prompt },
            }
        } else {
            PipelineAction::Finished
        };
        let run = TopicRun {
            config,
            provider,
            template,
            stage: if due {
                Stage::Optimizing
            } else {
                Stage::Skipped
            },
            queries: Vec::new(),
            contents: Vec::new(),
            aggregated: String::new(),
            markdown: String::new(),
            html: String::new(),
            send_failure: None,
            stages: StageLog {
                optimized: false,
                fetched: false,
                normalized: false,
                rendered: false,
                sent: false,
            },
        };
        (run, action)
    }

    /// The fetch action for the next unanswered query, under the run's
    /// configured provider.
    fn fetch_action(&self) -> (action: PipelineAction)
        requires
            self.wf(),
            self.stage is Fetching,
        ensures
            spec_fetch_action(self.provider, self.queries@[self.contents.len() as int]@, action),
    {
        let query = &self.queries[self.contents.len()];
        match self.provider {
            ProviderKind::SearchVariant => PipelineAction::FetchSearch {
                url: search_url(query.as_str()),
            },
            ProviderKind::AnswerVariant { use_small_model } => PipelineAction::FetchAnswer {
                request: SearchRequest {
                    query: query.clone(),
                    use_sonar_small: Some(use_small_model),
                },
            },
        }
    }

    /// Consumes the optimization completion outcome. A failure is an
    /// upstream error tagged with the optimize stage and aborts this
    /// topic's run: no fetch, normalization or send will be asked for. A
    /// success is split on semicolons into the optimized queries — at least
    /// one, possibly empty — and the first query's fetch is asked for;
    /// empty queries are tolerated and fetched like any other.
    pub fn on_optimize_response(&mut self, outcome: Result<String, String>) -> (action:
        PipelineAction)
        requires
            old(self).wf(),
            old(self).stage is Optimizing,
        ensures
            final(self).wf(),
            final(self).config == old(self).config,
            final(self).provider == old(self).provider,
            final(self).template == old(self).template,
            outcome matches Err(cause) ==> spec_aborted_upstream(
                PipelineStage::Optimize,
                cause@,
                final(self).stage,
            ) && action is Finished && final(self).stages == old(self).stages,
            outcome matches Ok(text) ==> {
                &&& final(self).queries.deep_view() == split_on(text@, ';')
                &&& final(self).queries.len() >= 1
                &&& final(self).contents.len() == 0
                &&& final(self).stage is Fetching
                &&& spec_fetch_action(final(self).provider, final(self).queries@[0]@, action)
                &&& final(self).stages.optimized
            },
    {
        match outcome {
            Ok(text) => {
                let queries = split_queries(text.as_str());
                self.queries = queries;
                self.contents = Vec::new();
                self.stage = Stage::Fetching;
                self.stages.optimized = true;
                self.fetch_action()
            },
            Err(cause) => {
                self.stage = Stage::Aborted {
                    error: PipelineError::UpstreamError {
                        stage: PipelineStage::Optimize,
                        cause,
                    },
                };
                PipelineAction::Finished
            },
        }
    }

    /// Consumes one query's fetch outcome, in query order. A contentless
    /// response — an empty-result error at the fetch stage — is tolerated:
    /// it contributes an empty string and the run goes on, since other
    /// queries may still succeed. Any other error aborts the run with
    /// exactly that error. After the last query the contents are aggregated
    /// in query order, empty entries dropped, and normalization is asked
    /// for; the aggregate waits for every fetch, since each outcome lands
    /// here before the next action is handed out.
    pub fn on_fetch_response(&mut self, outcome: Result<String, PipelineError>) -> (action:
        PipelineAction)
        requires
            old(self).wf(),
            old(self).stage is Fetching,
        ensures
            final(self).wf(),
            final(self).config == old(self).config,
            final(self).provider == old(self).provider,
            final(self).template == old(self).template,
            final(self).queries == old(self).queries,
            !spec_tolerated(outcome) ==> {
                &&& final(self).stage matches Stage::Aborted { error } && Err::<String, PipelineError>(error) == outcome
                &&& action is Finished
                &&& final(self).contents == old(self).contents
            },
            spec_tolerated(outcome) ==> final(self).contents.deep_view() == old(
                self,
            ).contents.deep_view().push(spec_fetched_content(outcome)),
            spec_tolerated(outcome) && old(self).contents.len() + 1 < old(self).queries.len()
                ==> final(self).stage is Fetching && spec_fetch_action(
                final(self).provider,
                final(self).queries@[old(self).contents.len() + 1]@,
                action,
            ),
            spec_tolerated(outcome) && old(self).contents.len() + 1 == old(self).queries.len()
                ==> {
                &&& final(self).stage is Normalizing
                &&& final(self).aggregated@ == spec_aggregate(final(self).contents.deep_view())
                &&& spec_normalize_action(
                    final(self).template@,
                    final(self).aggregated@,
                    action,
                )
                &&& final(self).stages.fetched
            },
    {
        let content: String = match outcome {
            Ok(c) => c,
            Err(e) => match e {
                PipelineError::EmptyResultError { stage: _ } => String::new(),
                other => {
                    self.stage = Stage::Aborted { error: other };
                    return PipelineAction::Finished;
                },
            },
        };
        let ghost pre = self.contents.deep_view();
        self.contents.push(content);
        proof {
            assert(self.contents.deep_view() =~= pre.push(spec_fetched_content(outcome)));
        }
        if self.contents.len() < self.queries.len() {
            self.fetch_action()
        } else {
            let combined = aggregate(&self.contents);
            let prompt = normalization_prompt(self.template.as_str(), combined.as_str());
            self.aggregated = combined;
            self.stage = Stage::Normalizing;
            self.stages.fetched = true;
            PipelineAction::Normalize {
                request: CompletionRequest { model: completion_model(), query: prompt },
            }
        }
    }

    /// Consumes the normalization completion outcome. A failure is an
    /// upstream error tagged with the normalize stage and aborts the run. A
    /// success — even an empty text, which the template's no-results escape
    /// clause allows — is kept as the normalized markdown and rendered to
    /// HTML at once, rendering being total, and the send is asked for with
    /// the configured recipient and subject and the rendered body.
    pub fn on_normalize_response(&mut self, outcome: Result<String, String>) -> (action:
        PipelineAction)
        requires
            old(self).wf(),
            old(self).stage is Normalizing,
        ensures
            final(self).wf(),
            final(self).config == old(self).config,
            final(self).provider == old(self).provider,
            final(self).template == old(self).template,
            final(self).queries == old(self).queries,
            final(self).contents == old(self).contents,
            final(self).aggregated == old(self).aggregated,
            outcome matches Err(cause) ==> spec_aborted_upstream(
                PipelineStage::Normalize,
                cause@,
                final(self).stage,
            ) && action is Finished,
            outcome matches Ok(text) ==> {
                &&& final(self).markdown == text
                &&& final(self).html@ == html_of(text@)
                &&& final(self).stage is Sending
                &&& spec_send_action(final(self).config, html_of(text@), action)
                &&& final(self).stages.normalized
                &&& final(self).stages.rendered
            },
    {
        match outcome {
            Ok(text) => {
                let html = markdown_to_html(text.as_str());
                let action = PipelineAction::Send {
                    to: self.config.send_to.clone(),
                    subject: self.config.subject.clone(),
                    html_body: html.clone(),
                };
                self.markdown = text;
                self.html = html;
                self.stage = Stage::Sending;
                self.stages.normalized = true;
                self.stages.rendered = true;
                action
            },
            Err(cause) => {
                self.stage = Stage::Aborted {
                    error: PipelineError::UpstreamError {
                        stage: PipelineStage::Normalize,
                        cause,
                    },
                };
                PipelineAction::Finished
            },
        }
    }

    /// Consumes the email collaborator's outcome. The run is done either
    /// way: a delivery failure is kept apart from generation success and
    /// does not retroactively fail the already-rendered digest.
    pub fn on_send_response(&mut self, outcome: Result<(), String>) -> (action: PipelineAction)
        requires
            old(self).wf(),
            old(self).stage is Sending,
        ensures
            final(self).wf(),
            final(self).config == old(self).config,
            final(self).markdown == old(self).markdown,
            final(self).html == old(self).html,
            final(self).stage is Done,
            action is Finished,
            outcome matches Ok(u) ==> final(self).stages.sent && final(self).send_failure
                is None,
            outcome matches Err(cause) ==> !final(self).stages.sent && final(self).send_failure
                == Some(cause),
    {
        match outcome {
            Ok(()) => {
                self.stages.sent = true;
                self.send_failure = None;
            },
            Err(cause) => {
                self.stages.sent = false;
                self.send_failure = Some(cause);
            },
        }
        self.stage = Stage::Done;
        PipelineAction::Finished
    }

    /// The recorded outcome of a finished run: skipped, delivered,
    /// generated-but-undelivered, or aborted with its error.
    pub fn record(&self) -> (record: DispatchRecord)
        requires
            self.finished(),
        ensures
            record.subject == self.config.subject,
            record.stages == self.stages,
            self.stage is Skipped ==> record.outcome is NotDue,
            self.stage is Done && self.send_failure is None ==> record.outcome is Delivered,
            self.stage is Done && self.send_failure is Some ==> (record.outcome matches
                DispatchOutcome::SendFailed { cause } && cause == self.send_failure.unwrap()),
            self.stage matches Stage::Aborted { error } ==> (record.outcome matches
                DispatchOutcome::Aborted { error: recorded } && recorded == error),
    {
        let outcome = match &self.stage {
            Stage::Skipped => DispatchOutcome::NotDue,
            Stage::Done => match &self.send_failure {
                None => DispatchOutcome::Delivered,
                Some(cause) => DispatchOutcome::SendFailed { cause: cause.clone() },
            },
            Stage::Aborted { error } => DispatchOutcome::Aborted { error: error.clone() },
            _ => unreached(),
        };
        DispatchRecord { subject: self.config.subject.clone(), outcome, stages: self.stages }
    }
}

/// Whether a fetch outcome lets the run go on: success, or a contentless
/// response, which is tolerated.
pub open spec fn spec_tolerated(outcome: Result<String, PipelineError>) -> bool {
    match outcome {
        Ok(_) => true,
        Err(e) => e is EmptyResultError,
    }
}

/// What a tolerated fetch outcome contributes to the aggregate: its content
/// on success, the empty string for a contentless response.
pub open spec fn spec_fetched_content(outcome: Result<String, PipelineError>) -> Seq<char> {
    match outcome {
        Ok(content) => content@,
        Err(_) => Seq::<char>::empty(),
    }
}

/// What a correct send action for this configuration and rendered digest
/// looks like.
pub open spec fn spec_send_action(config: CustomEmail, html: Seq<char>, action: PipelineAction) -> bool {
    &&& action matches PipelineAction::Send { to, subject, html_body }
    &&& to == config.send_to
    &&& subject == config.subject
    &&& html_body@ == html
}

} // verus!
