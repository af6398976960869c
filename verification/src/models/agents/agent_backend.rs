use crate::helpers::backend::{
    probe_address, probe_url, PROBE_TIMEOUT_SECONDS, STATUS_OK, WARM_UP_SECONDS,
};
use crate::helpers::command_line::CLIPrint;
use crate::helpers::request::{prepare_message, prepared};
use crate::helpers::text::{
    debug_optional_text, debug_quote, debug_quote_optional, debug_text, join, joined,
    optional_text,
};
use crate::models::agents::backend_prompts::{
    PROMPT_EXTRACT_API, PROMPT_FIX_CODE, PROMPT_GENERATE_BACKEND, PROMPT_IMPROVE_CODE,
};
use crate::models::agents_common::common_agent::{AgentState, CommonAgent, CommonAgentView};
use crate::models::agents_common::protocol::{
    add_notice, notices, Action, ActionView, Event, EventView, FatalError, Notice, NoticeView,
    Step, StepView, Turn,
};
use crate::models::general::route::{probe_targets, routes, select_probe_targets, Route, RouteView};
use crate::models::general::support_case::{clock_millis, SupportCase, SupportCaseView};
use vstd::prelude::*;
use vstd::string::*;

verus! {

/// How many failed builds in a row are repaired. One more ends the run.
pub const MAX_BUILD_RETRIES: u8 = 2;

/// What the backend developer is waiting for. Each phase has one action
/// pending, but for `Fresh`, `Finished`, `Stopped` and `Halted`, in which the
/// agent rests.
#[derive(Debug, Clone, Copy, PartialEq, Eq, Structural)]
pub enum BackendPhase {
    /// Nothing was done yet.
    Fresh,
    /// The template is being read for the first version.
    ReadingTemplateForDraft,
    /// The gateway writes the first version.
    DraftingCode,
    /// The first version is being saved.
    SavingDraft,
    /// The template is being read for the improvement pass.
    ReadingTemplateForImprovement,
    /// The gateway improves the code.
    ImprovingCode,
    /// The source is being read for a repair.
    ReadingSourceForFix,
    /// The gateway repairs the code.
    FixingCode,
    /// The new version is being saved.
    SavingRevision,
    /// The person at the terminal is asked whether the code may run.
    Confirming,
    /// The project is being built.
    Building,
    /// The source is being read for the route schema.
    ReadingSourceForSchema,
    /// The gateway lists the routes.
    ExtractingSchema,
    /// The schema is being saved.
    SavingSchema,
    /// The schema is being decoded.
    DecodingSchema,
    /// The service is being started.
    Launching,
    /// The service is given time to come up.
    WarmingUp,
    /// One endpoint is being probed.
    Probing,
    /// The service is being stopped after the sweep.
    Stopping,
    /// The service is being stopped because the run failed.
    Aborting(FatalError),
    /// The service was built, probed and stopped.
    Finished,
    /// The gateway failed; the failure is in the case.
    Stopped,
    /// The run failed for good.
    Halted(FatalError),
}

impl BackendPhase {
    /// The state that the agent shows in this phase.
    pub open spec fn state(self) -> AgentState {
        match self {
            BackendPhase::Fresh
            | BackendPhase::ReadingTemplateForDraft
            | BackendPhase::DraftingCode
            | BackendPhase::SavingDraft => AgentState::Waiting,
            BackendPhase::ReadingTemplateForImprovement
            | BackendPhase::ImprovingCode
            | BackendPhase::ReadingSourceForFix
            | BackendPhase::FixingCode
            | BackendPhase::SavingRevision => AgentState::Working,
            BackendPhase::Confirming
            | BackendPhase::Building
            | BackendPhase::ReadingSourceForSchema
            | BackendPhase::ExtractingSchema
            | BackendPhase::SavingSchema
            | BackendPhase::DecodingSchema
            | BackendPhase::Launching
            | BackendPhase::WarmingUp
            | BackendPhase::Probing
            | BackendPhase::Stopping => AgentState::Testing,
            BackendPhase::Finished => AgentState::Finished,
            BackendPhase::Aborting(_) | BackendPhase::Stopped | BackendPhase::Halted(_) => {
                AgentState::Error
            },
        }
    }

    /// Whether the generated service was asked to start and not yet asked to
    /// stop.
    pub open spec fn server_may_run(self) -> bool {
        self == BackendPhase::Launching || self == BackendPhase::WarmingUp || self
            == BackendPhase::Probing
    }

    /// Whether this phase comes after a build that succeeded and before the
    /// next attempt: the schema is found out, the service runs, or all is
    /// done.
    pub open spec fn past_build(self) -> bool {
        self == BackendPhase::ReadingSourceForSchema || self == BackendPhase::ExtractingSchema
            || self == BackendPhase::SavingSchema || self == BackendPhase::DecodingSchema || self
            == BackendPhase::Launching || self == BackendPhase::WarmingUp || self
            == BackendPhase::Probing || self == BackendPhase::Stopping || self
            == BackendPhase::Finished
    }

    /// The state that the agent shows in this phase.
    pub fn shown_state(&self) -> (state: AgentState)
        ensures
            state == self.state(),
    {
        match self {
            BackendPhase::Fresh
            | BackendPhase::ReadingTemplateForDraft
            | BackendPhase::DraftingCode
            | BackendPhase::SavingDraft => AgentState::Waiting,
            BackendPhase::ReadingTemplateForImprovement
            | BackendPhase::ImprovingCode
            | BackendPhase::ReadingSourceForFix
            | BackendPhase::FixingCode
            | BackendPhase::SavingRevision => AgentState::Working,
            BackendPhase::Confirming
            | BackendPhase::Building
            | BackendPhase::ReadingSourceForSchema
            | BackendPhase::ExtractingSchema
            | BackendPhase::SavingSchema
            | BackendPhase::DecodingSchema
            | BackendPhase::Launching
            | BackendPhase::WarmingUp
            | BackendPhase::Probing
            | BackendPhase::Stopping => AgentState::Testing,
            BackendPhase::Finished => AgentState::Finished,
            BackendPhase::Aborting(_) | BackendPhase::Stopped | BackendPhase::Halted(_) => {
                AgentState::Error
            },
        }
    }

    /// Whether the generated service may be running in this phase.
    pub fn may_serve(&self) -> (running: bool)
        ensures
            running == self.server_may_run(),
    {
        match self {
            BackendPhase::Launching => true,
            BackendPhase::WarmingUp => true,
            BackendPhase::Probing => true,
            _ => false,
        }
    }
}

/// The request for a first version of the service: the template, and what
/// the service must be able to do.
pub open spec fn initial_code_prompt(template: Seq<char>, actions: Seq<Seq<char>>) -> Seq<char> {
    PROMPT_GENERATE_BACKEND@ + " CODE_TEMPLATE: "@ + template + " \n ACTIONS_DESCRIPTION: "@
        + joined(actions, ","@) + " \n"@
}

/// The request for an improved version of the service.
pub open spec fn improved_code_prompt(template: Seq<char>, actions: Seq<Seq<char>>) -> Seq<char> {
    PROMPT_IMPROVE_CODE@ + " CODE_TEMPLATE: "@ + template + " \n ACTIONS_DESCRIPTION: "@ + joined(
        actions,
        ","@,
    ) + " \n"@
}

/// The request for a repair, made of the source and of the diagnostics,
/// both already quoted.
pub open spec fn framed_fix_prompt(source: Seq<char>, errors: Seq<char>) -> Seq<char> {
    PROMPT_FIX_CODE@ + " BACKEND_CODE: "@ + source + " \n ERROR_BUGS: "@ + errors
        + " \n THIS FUNCTION ONLY OUTPUTS CODE. JUST OUTPUT THE CODE."@
}

/// The request for a repair of `source`, which failed to build with
/// `errors`.
pub open spec fn fix_code_prompt(source: Seq<char>, errors: Option<Seq<char>>) -> Seq<char> {
    framed_fix_prompt(debug_text(source), debug_optional_text(errors))
}

/// The request for the routes of the service whose source is `source`.
pub open spec fn extract_api_prompt(source: Seq<char>) -> Seq<char> {
    PROMPT_EXTRACT_API@ + " CODE INPUT: "@ + source
}

/// The line that announces the probe of `route`.
pub open spec fn testing_text(route: Seq<char>) -> Seq<char> {
    "Testing endpoint '"@ + route + "'..."@
}

/// The line that reports an endpoint which did not answer with success.
pub open spec fn unhealthy_text(route: Seq<char>) -> Seq<char> {
    "WARNING: Failed to call endpoint: "@ + route
}

/// An `AgentBackendDeveloper` as plain values.
pub struct BackendView {
    pub common: CommonAgentView,
    /// What the last failed build wrote, if the last build failed.
    pub bug_errors: Option<Seq<char>>,
    /// How many builds failed since the last one that succeeded.
    pub bug_count: nat,
    pub phase: BackendPhase,
    /// The endpoints of the present sweep.
    pub probe_queue: Seq<RouteView>,
    /// How many of them were probed.
    pub probe_cursor: nat,
    /// The schema that the gateway wrote last.
    pub schema: Seq<char>,
}

impl BackendView {
    /// The backend developer before its first call.
    pub open spec fn fresh() -> BackendView {
        BackendView {
            common: CommonAgentView::fresh(
                "Backend Engineer"@,
                "Develops backend code for webserver and JSON database."@,
            ),
            bug_errors: None,
            bug_count: 0,
            phase: BackendPhase::Fresh,
            probe_queue: Seq::empty(),
            probe_cursor: 0,
            schema: Seq::empty(),
        }
    }

    /// What holds of the agent between any two calls.
    pub open spec fn well_formed(self) -> bool {
        &&& self.common.state == self.phase.state()
        &&& self.bug_count <= MAX_BUILD_RETRIES + 1
        &&& (self.phase is Halted || self.bug_count <= MAX_BUILD_RETRIES)
        &&& (self.bug_count == 0 <==> self.bug_errors is None)
        &&& (self.phase.past_build() ==> self.bug_count == 0)
        &&& (self.phase == BackendPhase::Probing ==> self.probe_cursor < self.probe_queue.len())
    }

    /// The agent in the phase `phase`, showing the state that goes with it.
    pub open spec fn at(self, phase: BackendPhase) -> BackendView {
        BackendView { phase, common: self.common.moved_to(phase.state()), ..self }
    }

    /// A status line of this agent.
    pub open spec fn says(self, level: CLIPrint, message: Seq<char>) -> NoticeView {
        NoticeView { level, role: self.common.role, message }
    }

    /// The action that puts `body` to the gateway.
    pub open spec fn request(self, case: SupportCaseView, body: Seq<char>) -> ActionView {
        ActionView::AskGateway(prepared(self.common.objective, case.support_context, body))
    }

    /// An event that the pending action cannot bring ends the run. A service
    /// that may be running is stopped first.
    pub open spec fn refuse(self) -> (BackendView, StepView) {
        if self.phase.server_may_run() {
            (
                self.at(BackendPhase::Aborting(FatalError::UnexpectedEvent)),
                StepView::silent(ActionView::Terminate),
            )
        } else {
            (
                self.at(BackendPhase::Halted(FatalError::UnexpectedEvent)),
                StepView::silent(ActionView::Halt(FatalError::UnexpectedEvent)),
            )
        }
    }

    /// The agent and the step joined to a case that did not change.
    pub open spec fn leaving(pair: (BackendView, StepView), case: SupportCaseView) -> Turn<
        BackendView,
    > {
        Turn { agent: pair.0, case, step: pair.1 }
    }

    /// The gateway failed for good: the failure is written into the case,
    /// the agent stops in its error state and control goes back.
    pub open spec fn give_up(self, case: SupportCaseView, reason: Seq<char>, now: i64) -> Turn<
        BackendView,
    > {
        Turn {
            agent: self.at(BackendPhase::Stopped),
            case: (SupportCaseView { support_response: Some(reason), ..case }).touched(now),
            step: StepView::saying(self.says(CLIPrint::Error, reason), ActionView::Complete),
        }
    }

    /// The code goes back to work: an improvement pass while no build has
    /// failed, a repair of the reported bugs after that.
    pub open spec fn rework(self) -> (BackendView, StepView) {
        if self.bug_count == 0 {
            (
                self.at(BackendPhase::ReadingTemplateForImprovement),
                StepView::silent(ActionView::ReadTemplate),
            )
        } else {
            (self.at(BackendPhase::ReadingSourceForFix), StepView::silent(ActionView::ReadSource))
        }
    }

    /// The sweep goes on: the next endpoint is probed, or, where none is
    /// left, the service is stopped. `lines` are shown first.
    pub open spec fn sweep(self, lines: Seq<NoticeView>) -> (BackendView, StepView) {
        if self.probe_cursor < self.probe_queue.len() {
            let target = self.probe_queue[self.probe_cursor as int];
            (
                self.at(BackendPhase::Probing),
                StepView {
                    notices: lines.push(self.says(CLIPrint::Info, testing_text(target.route))),
                    action: ActionView::Probe {
                        url: probe_address(target.route),
                        timeout_seconds: PROBE_TIMEOUT_SECONDS,
                    },
                },
            )
        } else {
            (
                self.at(BackendPhase::Stopping),
                StepView {
                    notices: lines.push(self.says(CLIPrint::Info, "Backend testing complete."@)),
                    action: ActionView::Terminate,
                },
            )
        }
    }

    /// What the build brought: success clears the count of failed builds and
    /// leads on to the schema; failure is counted and either repaired or,
    /// beyond the bound, fatal.
    pub open spec fn built(self, success: bool, diagnostics: Seq<char>) -> (BackendView, StepView) {
        if success {
            (
                (BackendView { bug_errors: None, bug_count: 0, ..self }).at(
                    BackendPhase::ReadingSourceForSchema,
                ),
                StepView::saying(
                    self.says(
                        CLIPrint::Info,
                        "Backend Code Unit Testing: Test server build successful."@,
                    ),
                    ActionView::ReadSource,
                ),
            )
        } else {
            let failed = BackendView {
                bug_errors: Some(diagnostics),
                bug_count: self.bug_count + 1,
                ..self
            };
            if failed.bug_count > MAX_BUILD_RETRIES {
                (
                    failed.at(BackendPhase::Halted(FatalError::TooManyBugs)),
                    StepView::saying(
                        self.says(
                            CLIPrint::Error,
                            "Backend Code Unit Testing: Too many bugs found in code."@,
                        ),
                        ActionView::Halt(FatalError::TooManyBugs),
                    ),
                )
            } else {
                failed.rework()
            }
        }
    }

    /// What follows while the agent is at rest, or on its way to a halt.
    pub open spec fn next_at_rest(self, event: EventView) -> (BackendView, StepView) {
        match self.phase {
            BackendPhase::Fresh => match event {
                EventView::Begin => (
                    self.at(BackendPhase::ReadingTemplateForDraft),
                    StepView::saying(
                        self.says(CLIPrint::Info, "Starting to generate backend code..."@),
                        ActionView::ReadTemplate,
                    ),
                ),
                _ => self.refuse(),
            },
            BackendPhase::Aborting(reason) => (
                self.at(BackendPhase::Halted(reason)),
                StepView::silent(ActionView::Halt(reason)),
            ),
            BackendPhase::Halted(reason) => (self, StepView::silent(ActionView::Halt(reason))),
            _ => match event {
                EventView::Begin => (self, StepView::silent(ActionView::Complete)),
                _ => self.refuse(),
            },
        }
    }

    /// What follows while the first version is written.
    pub open spec fn next_drafting(self, case: SupportCaseView, event: EventView, now: i64) -> Turn<
        BackendView,
    > {
        match self.phase {
            BackendPhase::ReadingTemplateForDraft => match event {
                EventView::Text(template) => Turn {
                    agent: self.at(BackendPhase::DraftingCode),
                    case,
                    step: StepView::silent(
                        self.request(case, initial_code_prompt(template, case.supported_actions)),
                    ),
                },
                _ => Self::leaving(self.refuse(), case),
            },
            BackendPhase::DraftingCode => match event {
                EventView::Text(code) => Turn {
                    agent: self.at(BackendPhase::SavingDraft),
                    case,
                    step: StepView::silent(ActionView::SaveSource(code)),
                },
                EventView::Failed(reason) => self.give_up(case, reason, now),
                _ => Self::leaving(self.refuse(), case),
            },
            _ => match event {
                EventView::Done => Self::leaving(self.rework(), case),
                _ => Self::leaving(self.refuse(), case),
            },
        }
    }

    /// What follows while the code is improved or repaired.
    pub open spec fn next_working(self, case: SupportCaseView, event: EventView, now: i64) -> Turn<
        BackendView,
    > {
        match self.phase {
            BackendPhase::ReadingTemplateForImprovement => match event {
                EventView::Text(template) => Turn {
                    agent: self.at(BackendPhase::ImprovingCode),
                    case,
                    step: StepView::silent(
                        self.request(case, improved_code_prompt(template, case.supported_actions)),
                    ),
                },
                _ => Self::leaving(self.refuse(), case),
            },
            BackendPhase::ReadingSourceForFix => match event {
                EventView::Text(source) => Turn {
                    agent: self.at(BackendPhase::FixingCode),
                    case,
                    step: StepView::silent(
                        self.request(case, fix_code_prompt(source, self.bug_errors)),
                    ),
                },
                _ => Self::leaving(self.refuse(), case),
            },
            BackendPhase::SavingRevision => match event {
                EventView::Done => Turn {
                    agent: self.at(BackendPhase::Confirming),
                    case,
                    step: StepView::saying(
                        self.says(
                            CLIPrint::Info,
                            "Backend Code Unit Testing: Requesting user input."@,
                        ),
                        ActionView::Confirm,
                    ),
                },
                _ => Self::leaving(self.refuse(), case),
            },
            _ => match event {
                EventView::Text(code) => Turn {
                    agent: self.at(BackendPhase::SavingRevision),
                    case,
                    step: StepView::silent(ActionView::SaveSource(code)),
                },
                EventView::Failed(reason) => self.give_up(case, reason, now),
                _ => Self::leaving(self.refuse(), case),
            },
        }
    }

    /// What follows while the code is approved and built.
    pub open spec fn next_building(self, event: EventView) -> (BackendView, StepView) {
        match self.phase {
            BackendPhase::Confirming => match event {
                EventView::Confirmed(approved) => if approved {
                    (
                        self.at(BackendPhase::Building),
                        StepView::saying(
                            self.says(
                                CLIPrint::Info,
                                "Backend Code Unit Testing: Building Project..."@,
                            ),
                            ActionView::Build,
                        ),
                    )
                } else {
                    (
                        self.at(BackendPhase::Halted(FatalError::UnsafeCodeDeclined)),
                        StepView::silent(ActionView::Halt(FatalError::UnsafeCodeDeclined)),
                    )
                },
                _ => self.refuse(),
            },
            _ => match event {
                EventView::Built { success, diagnostics } => self.built(success, diagnostics),
                _ => self.refuse(),
            },
        }
    }

    /// What follows while the routes of the service are found out.
    pub open spec fn next_schema(self, case: SupportCaseView, event: EventView, now: i64) -> Turn<
        BackendView,
    > {
        match self.phase {
            BackendPhase::ReadingSourceForSchema => match event {
                EventView::Text(source) => Turn {
                    agent: self.at(BackendPhase::ExtractingSchema),
                    case,
                    step: StepView::silent(self.request(case, extract_api_prompt(source))),
                },
                _ => Self::leaving(self.refuse(), case),
            },
            BackendPhase::ExtractingSchema => match event {
                EventView::Text(schema) => Turn {
                    agent: (BackendView { schema, ..self }).at(BackendPhase::SavingSchema),
                    case,
                    step: StepView::silent(ActionView::SaveSchema(schema)),
                },
                EventView::Failed(reason) => self.give_up(case, reason, now),
                _ => Self::leaving(self.refuse(), case),
            },
            BackendPhase::SavingSchema => match event {
                EventView::Done => Turn {
                    agent: self.at(BackendPhase::DecodingSchema),
                    case,
                    step: StepView::silent(ActionView::DecodeRoutes(self.schema)),
                },
                _ => Self::leaving(self.refuse(), case),
            },
            _ => match event {
                EventView::Routes(found) => Turn {
                    agent: (BackendView {
                        probe_queue: probe_targets(found),
                        probe_cursor: 0,
                        ..self
                    }).at(BackendPhase::Launching),
                    case,
                    step: StepView::saying(
                        self.says(
                            CLIPrint::Info,
                            "Backend Code Unit Testing: Starting Web Server..."@,
                        ),
                        ActionView::Launch,
                    ),
                },
                EventView::Failed(reason) => Turn {
                    agent: self.at(BackendPhase::Halted(FatalError::MalformedSchema)),
                    case,
                    step: StepView::saying(
                        self.says(CLIPrint::Error, reason),
                        ActionView::Halt(FatalError::MalformedSchema),
                    ),
                },
                _ => Self::leaving(self.refuse(), case),
            },
        }
    }

    /// What follows while the service runs and is probed.
    pub open spec fn next_serving(self, event: EventView) -> (BackendView, StepView) {
        match self.phase {
            BackendPhase::Launching => match event {
                EventView::Done => (
                    self.at(BackendPhase::WarmingUp),
                    StepView::saying(
                        self.says(
                            CLIPrint::Info,
                            "Backend Code Unit Testing: Launching tests on server in couple seconds..."@,
                        ),
                        ActionView::WarmUp { seconds: WARM_UP_SECONDS },
                    ),
                ),
                _ => self.refuse(),
            },
            BackendPhase::WarmingUp => match event {
                EventView::Done => self.sweep(Seq::empty()),
                _ => self.refuse(),
            },
            BackendPhase::Probing => match event {
                EventView::Status(code) => {
                    let probed = self.probe_queue[self.probe_cursor as int];
                    let lines = if code == STATUS_OK {
                        Seq::empty()
                    } else {
                        seq![self.says(CLIPrint::Warning, unhealthy_text(probed.route))]
                    };
                    (BackendView { probe_cursor: self.probe_cursor + 1, ..self }).sweep(lines)
                },
                EventView::Failed(reason) => (
                    self.at(BackendPhase::Aborting(FatalError::ProbeTransport)),
                    StepView::saying(self.says(CLIPrint::Error, reason), ActionView::Terminate),
                ),
                _ => self.refuse(),
            },
            _ => match event {
                EventView::Done => (
                    self.at(BackendPhase::Finished),
                    StepView::silent(ActionView::Complete),
                ),
                _ => self.refuse(),
            },
        }
    }

    /// The agent, the case and the step after `event` came in at the time
    /// `now`.
    pub open spec fn next(self, case: SupportCaseView, event: EventView, now: i64) -> Turn<
        BackendView,
    > {
        match self.phase {
            BackendPhase::ReadingTemplateForDraft
            | BackendPhase::DraftingCode
            | BackendPhase::SavingDraft => self.next_drafting(case, event, now),
            BackendPhase::ReadingTemplateForImprovement
            | BackendPhase::ImprovingCode
            | BackendPhase::ReadingSourceForFix
            | BackendPhase::FixingCode
            | BackendPhase::SavingRevision => self.next_working(case, event, now),
            BackendPhase::Confirming | BackendPhase::Building => Self::leaving(
                self.next_building(event),
                case,
            ),
            BackendPhase::ReadingSourceForSchema
            | BackendPhase::ExtractingSchema
            | BackendPhase::SavingSchema
            | BackendPhase::DecodingSchema => self.next_schema(case, event, now),
            BackendPhase::Launching
            | BackendPhase::WarmingUp
            | BackendPhase::Probing
            | BackendPhase::Stopping => Self::leaving(self.next_serving(event), case),
            _ => Self::leaving(self.next_at_rest(event), case),
        }
    }
}

/// The agent that writes a small web service with the help of the gateway,
/// builds it, repairs it while the budget lasts, and tries its endpoints.
#[derive(Debug)]
pub struct AgentBackendDeveloper {
    common: CommonAgent,
    bug_errors: Option<String>,
    bug_count: u8,
    phase: BackendPhase,
    probe_queue: Vec<Route>,
    probe_cursor: usize,
    schema: String,
}

impl View for AgentBackendDeveloper {
    type V = BackendView;

    closed spec fn view(&self) -> BackendView {
        BackendView {
            common: self.common@,
            bug_errors: optional_text(self.bug_errors),
            bug_count: self.bug_count as nat,
            phase: self.phase,
            probe_queue: routes(self.probe_queue@),
            probe_cursor: self.probe_cursor as nat,
            schema: self.schema@,
        }
    }
}

/// Makes the request for a first version of the service.
pub fn initial_code_request(template: &str, actions: &Vec<String>) -> (body: String)
    ensures
        body@ == initial_code_prompt(template@, crate::helpers::text::texts(actions@)),
{
    let mut body = String::from_str(PROMPT_GENERATE_BACKEND);
    body.append(" CODE_TEMPLATE: ");
    body.append(template);
    body.append(" \n ACTIONS_DESCRIPTION: ");
    body.append(join(actions, ",").as_str());
    body.append(" \n");
    body
}

/// Makes the request for an improved version of the service.
pub fn improved_code_request(template: &str, actions: &Vec<String>) -> (body: String)
    ensures
        body@ == improved_code_prompt(template@, crate::helpers::text::texts(actions@)),
{
    let mut body = String::from_str(PROMPT_IMPROVE_CODE);
    body.append(" CODE_TEMPLATE: ");
    body.append(template);
    body.append(" \n ACTIONS_DESCRIPTION: ");
    body.append(join(actions, ",").as_str());
    body.append(" \n");
    body
}

/// Makes the request for a repair of a source and diagnostics that are
/// already quoted.
pub fn frame_fix_request(source: &str, errors: &str) -> (body: String)
    ensures
        body@ == framed_fix_prompt(source@, errors@),
{
    let mut body = String::from_str(PROMPT_FIX_CODE);
    body.append(" BACKEND_CODE: ");
    body.append(source);
    body.append(" \n ERROR_BUGS: ");
    body.append(errors);
    body.append(" \n THIS FUNCTION ONLY OUTPUTS CODE. JUST OUTPUT THE CODE.");
    body
}

/// Makes the request for a repair of `source`, which failed to build with
/// `errors`.
pub fn fix_code_request(source: &str, errors: &Option<String>) -> (body: String)
    ensures
        body@ == fix_code_prompt(source@, optional_text(*errors)),
{
    let source_quoted = debug_quote(source);
    let errors_quoted = debug_quote_optional(errors);
    frame_fix_request(source_quoted.as_str(), errors_quoted.as_str())
}

/// Makes the request for the routes of the service whose source is
/// `source`.
pub fn extract_api_request(source: &str) -> (body: String)
    ensures
        body@ == extract_api_prompt(source@),
{
    let mut body = String::from_str(PROMPT_EXTRACT_API);
    body.append(" CODE INPUT: ");
    body.append(source);
    body
}

impl AgentBackendDeveloper {
    #[verifier::type_invariant]
    closed spec fn sound(&self) -> bool {
        &&& self.bug_count <= MAX_BUILD_RETRIES + 1
        &&& (self.phase is Halted || self.bug_count <= MAX_BUILD_RETRIES)
        &&& (self.phase == BackendPhase::Probing ==> self.probe_cursor < self.probe_queue@.len())
    }

    /// The backend developer before its first call.
    pub fn new() -> (agent: AgentBackendDeveloper)
        ensures
            agent@ == BackendView::fresh(),
            agent@.well_formed(),
    {
        let common = CommonAgent {
            objective: String::from_str("Develops backend code for webserver and JSON database."),
            role: String::from_str("Backend Engineer"),
            state: AgentState::Waiting,
            memory: Vec::new(),
            assistant_id: None,
            thread_id: None,
        };
        let agent = AgentBackendDeveloper {
            common,
            bug_errors: None,
            bug_count: 0,
            phase: BackendPhase::Fresh,
            probe_queue: Vec::new(),
            probe_cursor: 0,
            schema: String::new(),
        };
        assert(agent@.common.memory =~= Seq::empty());
        assert(agent@.probe_queue =~= Seq::empty());
        agent
    }

    /// What the agent has in common with every agent.
    pub fn get_common_from_agent(&self) -> (common: &CommonAgent)
        ensures
            common@ == self@.common,
    {
        &self.common
    }

    /// Notes the assistant under which the agent talks to the gateway.
    pub fn set_assistant_id(&mut self, id: String)
        ensures
            final(self)@ == (BackendView {
                common: CommonAgentView { assistant_id: Some(id@), ..old(self)@.common },
                ..old(self)@
            }),
    {
        proof {
            use_type_invariant(&*self);
        }
        self.common.assistant_id = Some(id);
    }

    /// What the agent is waiting for.
    pub fn phase(&self) -> (phase: BackendPhase)
        ensures
            phase == self@.phase,
    {
        self.phase
    }

    /// How many builds failed since the last one that succeeded.
    pub fn bug_count(&self) -> (count: u8)
        ensures
            count == self@.bug_count,
    {
        self.bug_count
    }

    /// What the last failed build wrote, if the last build failed.
    pub fn bug_errors(&self) -> (errors: &Option<String>)
        ensures
            optional_text(*errors) == self@.bug_errors,
    {
        &self.bug_errors
    }

    /// The endpoints of the present sweep.
    pub fn probe_queue(&self) -> (queue: &Vec<Route>)
        ensures
            routes(queue@) == self@.probe_queue,
    {
        &self.probe_queue
    }

    fn notice(&self, level: CLIPrint, message: &str) -> (line: Notice)
        ensures
            line@ == self@.says(level, message@),
    {
        Notice { level, role: self.common.role.clone(), message: String::from_str(message) }
    }

    fn request(&self, case: &SupportCase, body: &str) -> (action: Action)
        ensures
            action@ == self@.request(case@, body@),
    {
        Action::AskGateway(
            prepare_message(
                self.common.objective.as_str(),
                case.support_context.as_str(),
                body,
            ),
        )
    }

    fn enter(&mut self, phase: BackendPhase)
        requires
            phase is Halted || old(self).bug_count <= MAX_BUILD_RETRIES,
            phase == BackendPhase::Probing ==> old(self).probe_cursor < old(
                self,
            ).probe_queue@.len(),
        ensures
            final(self)@ == old(self)@.at(phase),
            final(self).bug_count == old(self).bug_count,
            final(self).probe_cursor == old(self).probe_cursor,
            final(self).probe_queue == old(self).probe_queue,
            final(self).phase == phase,
    {
        proof {
            use_type_invariant(&*self);
        }
        self.phase = phase;
        self.common.state = phase.shown_state();
    }

    fn refuse(&mut self) -> (step: Step)
        ensures
            (final(self)@, step@) == old(self)@.refuse(),
    {
        proof {
            use_type_invariant(&*self);
        }
        if self.phase.may_serve() {
            self.enter(BackendPhase::Aborting(FatalError::UnexpectedEvent));
            Step::silent(Action::Terminate)
        } else {
            self.enter(BackendPhase::Halted(FatalError::UnexpectedEvent));
            Step::silent(Action::Halt(FatalError::UnexpectedEvent))
        }
    }

    fn give_up(&mut self, case: &mut SupportCase, reason: String, now: i64) -> (step: Step)
        requires
            !(old(self).phase is Halted),
        ensures
            (Turn { agent: final(self)@, case: final(case)@, step: step@ }) == old(self)@.give_up(
                old(case)@,
                reason@,
                now,
            ),
    {
        proof {
            use_type_invariant(&*self);
        }
        let line = self.notice(CLIPrint::Error, reason.as_str());
        case.support_response = Some(reason);
        case.touch(now);
        self.enter(BackendPhase::Stopped);
        Step::saying(line, Action::Complete)
    }

    fn rework(&mut self) -> (step: Step)
        requires
            old(self).bug_count <= MAX_BUILD_RETRIES,
        ensures
            (final(self)@, step@) == old(self)@.rework(),
    {
        if self.bug_count == 0 {
            self.enter(BackendPhase::ReadingTemplateForImprovement);
            Step::silent(Action::ReadTemplate)
        } else {
            self.enter(BackendPhase::ReadingSourceForFix);
            Step::silent(Action::ReadSource)
        }
    }

    fn sweep(&mut self, lines: Vec<Notice>) -> (step: Step)
        requires
            old(self).bug_count <= MAX_BUILD_RETRIES,
        ensures
            (final(self)@, step@) == old(self)@.sweep(notices(lines@)),
    {
        let mut lines = lines;
        if self.probe_cursor < self.probe_queue.len() {
            let mut text = String::from_str("Testing endpoint '");
            text.append(self.probe_queue[self.probe_cursor].route.as_str());
            text.append("'...");
            let line = self.notice(CLIPrint::Info, text.as_str());
            add_notice(&mut lines, line);
            let url = probe_url(self.probe_queue[self.probe_cursor].route.as_str());
            self.enter(BackendPhase::Probing);
            Step::showing(lines, Action::Probe { url, timeout_seconds: PROBE_TIMEOUT_SECONDS })
        } else {
            let line = self.notice(CLIPrint::Info, "Backend testing complete.");
            add_notice(&mut lines, line);
            self.enter(BackendPhase::Stopping);
            Step::showing(lines, Action::Terminate)
        }
    }

    fn built(&mut self, success: bool, diagnostics: String) -> (step: Step)
        requires
            !(old(self).phase is Halted),
        ensures
            (final(self)@, step@) == old(self)@.built(success, diagnostics@),
    {
        proof {
            use_type_invariant(&*self);
        }
        if success {
            let line = self.notice(
                CLIPrint::Info,
                "Backend Code Unit Testing: Test server build successful.",
            );
            self.bug_errors = None;
            self.bug_count = 0;
            self.enter(BackendPhase::ReadingSourceForSchema);
            Step::saying(line, Action::ReadSource)
        } else {
            self.bug_errors = Some(diagnostics);
            if self.bug_count + 1 > MAX_BUILD_RETRIES {
                let line = self.notice(
                    CLIPrint::Error,
                    "Backend Code Unit Testing: Too many bugs found in code.",
                );
                self.enter(BackendPhase::Halted(FatalError::TooManyBugs));
                self.bug_count = self.bug_count + 1;
                Step::saying(line, Action::Halt(FatalError::TooManyBugs))
            } else {
                self.bug_count = self.bug_count + 1;
                self.rework()
            }
        }
    }

    fn execute_at_rest(&mut self, event: Event) -> (step: Step)
        ensures
            (final(self)@, step@) == old(self)@.next_at_rest(event@),
    {
        proof {
            use_type_invariant(&*self);
        }
        match self.phase {
            BackendPhase::Fresh => match event {
                Event::Begin => {
                    let line = self.notice(CLIPrint::Info, "Starting to generate backend code...");
                    self.enter(BackendPhase::ReadingTemplateForDraft);
                    Step::saying(line, Action::ReadTemplate)
                },
                _ => self.refuse(),
            },
            BackendPhase::Aborting(reason) => {
                self.enter(BackendPhase::Halted(reason));
                Step::silent(Action::Halt(reason))
            },
            BackendPhase::Halted(reason) => Step::silent(Action::Halt(reason)),
            _ => match event {
                Event::Begin => Step::silent(Action::Complete),
                _ => self.refuse(),
            },
        }
    }

    fn execute_drafting(&mut self, case: &mut SupportCase, event: Event, now: i64) -> (step: Step)
        requires
            !(old(self).phase is Halted),
        ensures
            (Turn { agent: final(self)@, case: final(case)@, step: step@ }) == old(
                self,
            )@.next_drafting(old(case)@, event@, now),
    {
        proof {
            use_type_invariant(&*self);
        }
        match self.phase {
            BackendPhase::ReadingTemplateForDraft => match event {
                Event::Text(template) => {
                    let body = initial_code_request(template.as_str(), &case.supported_actions);
                    let action = self.request(case, body.as_str());
                    self.enter(BackendPhase::DraftingCode);
                    Step::silent(action)
                },
                _ => self.refuse(),
            },
            BackendPhase::DraftingCode => match event {
                Event::Text(code) => {
                    self.enter(BackendPhase::SavingDraft);
                    Step::silent(Action::SaveSource(code))
                },
                Event::Failed(reason) => self.give_up(case, reason, now),
                _ => self.refuse(),
            },
            _ => match event {
                Event::Done => self.rework(),
                _ => self.refuse(),
            },
        }
    }

    fn execute_working(&mut self, case: &mut SupportCase, event: Event, now: i64) -> (step: Step)
        requires
            !(old(self).phase is Halted),
        ensures
            (Turn { agent: final(self)@, case: final(case)@, step: step@ }) == old(
                self,
            )@.next_working(old(case)@, event@, now),
    {
        proof {
            use_type_invariant(&*self);
        }
        match self.phase {
            BackendPhase::ReadingTemplateForImprovement => match event {
                Event::Text(template) => {
                    let body = improved_code_request(template.as_str(), &case.supported_actions);
                    let action = self.request(case, body.as_str());
                    self.enter(BackendPhase::ImprovingCode);
                    Step::silent(action)
                },
                _ => self.refuse(),
            },
            BackendPhase::ReadingSourceForFix => match event {
                Event::Text(source) => {
                    let body = fix_code_request(source.as_str(), &self.bug_errors);
                    let action = self.request(case, body.as_str());
                    self.enter(BackendPhase::FixingCode);
                    Step::silent(action)
                },
                _ => self.refuse(),
            },
            BackendPhase::SavingRevision => match event {
                Event::Done => {
                    let line = self.notice(
                        CLIPrint::Info,
                        "Backend Code Unit Testing: Requesting user input.",
                    );
                    self.enter(BackendPhase::Confirming);
                    Step::saying(line, Action::Confirm)
                },
                _ => self.refuse(),
            },
            _ => match event {
                Event::Text(code) => {
                    self.enter(BackendPhase::SavingRevision);
                    Step::silent(Action::SaveSource(code))
                },
                Event::Failed(reason) => self.give_up(case, reason, now),
                _ => self.refuse(),
            },
        }
    }

    fn execute_building(&mut self, event: Event) -> (step: Step)
        requires
            !(old(self).phase is Halted),
        ensures
            (final(self)@, step@) == old(self)@.next_building(event@),
    {
        proof {
            use_type_invariant(&*self);
        }
        match self.phase {
            BackendPhase::Confirming => match event {
                Event::Confirmed(approved) => {
                    if approved {
                        let line = self.notice(
                            CLIPrint::Info,
                            "Backend Code Unit Testing: Building Project...",
                        );
                        self.enter(BackendPhase::Building);
                        Step::saying(line, Action::Build)
                    } else {
                        self.enter(BackendPhase::Halted(FatalError::UnsafeCodeDeclined));
                        Step::silent(Action::Halt(FatalError::UnsafeCodeDeclined))
                    }
                },
                _ => self.refuse(),
            },
            _ => match event {
                Event::Built { success, diagnostics } => self.built(success, diagnostics),
                _ => self.refuse(),
            },
        }
    }

    fn execute_schema(&mut self, case: &mut SupportCase, event: Event, now: i64) -> (step: Step)
        requires
            !(old(self).phase is Halted),
            old(self).phase != BackendPhase::Probing,
        ensures
            (Turn { agent: final(self)@, case: final(case)@, step: step@ }) == old(
                self,
            )@.next_schema(old(case)@, event@, now),
    {
        proof {
            use_type_invariant(&*self);
        }
        match self.phase {
            BackendPhase::ReadingSourceForSchema => match event {
                Event::Text(source) => {
                    let body = extract_api_request(source.as_str());
                    let action = self.request(case, body.as_str());
                    self.enter(BackendPhase::ExtractingSchema);
                    Step::silent(action)
                },
                _ => self.refuse(),
            },
            BackendPhase::ExtractingSchema => match event {
                Event::Text(schema) => {
                    self.schema = schema.clone();
                    self.enter(BackendPhase::SavingSchema);
                    Step::silent(Action::SaveSchema(schema))
                },
                Event::Failed(reason) => self.give_up(case, reason, now),
                _ => self.refuse(),
            },
            BackendPhase::SavingSchema => match event {
                Event::Done => {
                    let schema = self.schema.clone();
                    self.enter(BackendPhase::DecodingSchema);
                    Step::silent(Action::DecodeRoutes(schema))
                },
                _ => self.refuse(),
            },
            _ => match event {
                Event::Routes(found) => {
                    let line = self.notice(
                        CLIPrint::Info,
                        "Backend Code Unit Testing: Starting Web Server...",
                    );
                    self.probe_queue = select_probe_targets(&found);
                    self.probe_cursor = 0;
                    self.enter(BackendPhase::Launching);
                    Step::saying(line, Action::Launch)
                },
                Event::Failed(reason) => {
                    let line = self.notice(CLIPrint::Error, reason.as_str());
                    self.enter(BackendPhase::Halted(FatalError::MalformedSchema));
                    Step::saying(line, Action::Halt(FatalError::MalformedSchema))
                },
                _ => self.refuse(),
            },
        }
    }

    fn execute_serving(&mut self, event: Event) -> (step: Step)
        requires
            !(old(self).phase is Halted),
        ensures
            (final(self)@, step@) == old(self)@.next_serving(event@),
    {
        proof {
            use_type_invariant(&*self);
        }
        match self.phase {
            BackendPhase::Launching => match event {
                Event::Done => {
                    let line = self.notice(
                        CLIPrint::Info,
                        "Backend Code Unit Testing: Launching tests on server in couple seconds...",
                    );
                    self.enter(BackendPhase::WarmingUp);
                    Step::saying(line, Action::WarmUp { seconds: WARM_UP_SECONDS })
                },
                _ => self.refuse(),
            },
            BackendPhase::WarmingUp => match event {
                Event::Done => {
                    let lines: Vec<Notice> = Vec::new();
                    assert(notices(lines@) =~= Seq::empty());
                    self.sweep(lines)
                },
                _ => self.refuse(),
            },
            BackendPhase::Probing => match event {
                Event::Status(code) => {
                    let mut lines: Vec<Notice> = Vec::new();
                    assert(notices(lines@) =~= Seq::empty());
                    if code != STATUS_OK {
                        let mut text = String::from_str("WARNING: Failed to call endpoint: ");
                        text.append(self.probe_queue[self.probe_cursor].route.as_str());
                        let line = self.notice(CLIPrint::Warning, text.as_str());
                        add_notice(&mut lines, line);
                        assert(notices(lines@) =~= seq![line@]);
                    }
                    self.advance_cursor();
                    self.sweep(lines)
                },
                Event::Failed(reason) => {
                    let line = self.notice(CLIPrint::Error, reason.as_str());
                    self.enter(BackendPhase::Aborting(FatalError::ProbeTransport));
                    Step::saying(line, Action::Terminate)
                },
                _ => self.refuse(),
            },
            _ => match event {
                Event::Done => {
                    self.enter(BackendPhase::Finished);
                    Step::silent(Action::Complete)
                },
                _ => self.refuse(),
            },
        }
    }

    fn advance_cursor(&mut self)
        requires
            old(self).phase == BackendPhase::Probing,
        ensures
            final(self)@ == (BackendView {
                probe_cursor: old(self)@.probe_cursor + 1,
                phase: BackendPhase::Stopping,
                ..old(self)@
            }),
            final(self).bug_count == old(self).bug_count,
    {
        proof {
            use_type_invariant(&*self);
        }
        assert(self.probe_cursor < self.probe_queue.len());
        self.phase = BackendPhase::Stopping;
        self.probe_cursor = self.probe_cursor + 1;
    }

    /// Takes `event`, which came in at the time `now`, and says what is to be
    /// done next. The agent goes from generating over improving or repairing
    /// to testing; it ends in `Finished` after a clean sweep over the static
    /// `get` routes of a service that built, in `Error` otherwise.
    pub fn execute_at(&mut self, case: &mut SupportCase, event: Event, now: i64) -> (step: Step)
        ensures
            (Turn { agent: final(self)@, case: final(case)@, step: step@ }) == old(self)@.next(
                old(case)@,
                event@,
                now,
            ),
            final(case)@.continues(old(case)@),
            old(case)@.well_formed() ==> final(case)@.well_formed(),
            old(self)@.well_formed() ==> final(self)@.well_formed(),
    {
        match self.phase {
            BackendPhase::ReadingTemplateForDraft
            | BackendPhase::DraftingCode
            | BackendPhase::SavingDraft => self.execute_drafting(case, event, now),
            BackendPhase::ReadingTemplateForImprovement
            | BackendPhase::ImprovingCode
            | BackendPhase::ReadingSourceForFix
            | BackendPhase::FixingCode
            | BackendPhase::SavingRevision => self.execute_working(case, event, now),
            BackendPhase::Confirming | BackendPhase::Building => self.execute_building(event),
            BackendPhase::ReadingSourceForSchema
            | BackendPhase::ExtractingSchema
            | BackendPhase::SavingSchema
            | BackendPhase::DecodingSchema => self.execute_schema(case, event, now),
            BackendPhase::Launching
            | BackendPhase::WarmingUp
            | BackendPhase::Probing
            | BackendPhase::Stopping => self.execute_serving(event),
            _ => self.execute_at_rest(event),
        }
    }

    /// Takes `event` and says what is to be done next, as `execute_at` does
    /// for the time that the clock shows.
    pub fn execute(&mut self, case: &mut SupportCase, event: Event) -> (step: Step)
        ensures
            exists|now: i64|
                (Turn { agent: final(self)@, case: final(case)@, step: step@ }) == #[trigger] old(
                    self,
                )@.next(old(case)@, event@, now),
            final(case)@.continues(old(case)@),
            old(case)@.well_formed() ==> final(case)@.well_formed(),
            old(self)@.well_formed() ==> final(self)@.well_formed(),
    {
        let now: i64 = clock_millis();
        self.execute_at(case, event, now)
    }
}

} // verus!
