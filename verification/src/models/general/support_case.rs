use crate::helpers::text::{optional_text, texts};
use crate::models::ai::chatgpt::{messages, Message, MessageView};
use vstd::prelude::*;
use vstd::string::*;

verus! {

/// The record of one customer-support interaction. It is created once, handed
/// to one agent at a time, and every agent leaves its findings in it.
///
/// `case_id` is a UUID as a 128-bit number; the two timestamps count
/// milliseconds since the Unix epoch.
#[derive(Debug)]
pub struct SupportCase {
    pub case_id: u128,
    pub support_context: String,
    pub customer_query: String,
    pub intent_category: Option<String>,
    pub support_response: Option<String>,
    pub sentiment: Option<String>,
    pub should_escalate: bool,
    pub escalated: bool,
    pub needs_upper_management_attention: bool,
    pub created_at: i64,
    pub updated_at: i64,
    pub trace: Vec<Message>,
    pub supported_actions: Vec<String>,
}

/// A `SupportCase` as plain values.
pub struct SupportCaseView {
    pub case_id: u128,
    pub support_context: Seq<char>,
    pub customer_query: Seq<char>,
    pub intent_category: Option<Seq<char>>,
    pub support_response: Option<Seq<char>>,
    pub sentiment: Option<Seq<char>>,
    pub should_escalate: bool,
    pub escalated: bool,
    pub needs_upper_management_attention: bool,
    pub created_at: i64,
    pub updated_at: i64,
    pub trace: Seq<MessageView>,
    pub supported_actions: Seq<Seq<char>>,
}

impl View for SupportCase {
    type V = SupportCaseView;

    open spec fn view(&self) -> SupportCaseView {
        SupportCaseView {
            case_id: self.case_id,
            support_context: self.support_context@,
            customer_query: self.customer_query@,
            intent_category: optional_text(self.intent_category),
            support_response: optional_text(self.support_response),
            sentiment: optional_text(self.sentiment),
            should_escalate: self.should_escalate,
            escalated: self.escalated,
            needs_upper_management_attention: self.needs_upper_management_attention,
            created_at: self.created_at,
            updated_at: self.updated_at,
            trace: messages(self.trace@),
            supported_actions: texts(self.supported_actions@),
        }
    }
}

/// Whether `id` carries the marks of a random UUID: version 4 in the
/// seventh byte, the RFC variant in the ninth.
pub open spec fn is_random_uuid(id: u128) -> bool {
    id & 0x0000_0000_0000_f000_c000_0000_0000_0000u128 == 0x0000_0000_0000_4000_8000_0000_0000_0000u128
}

/// The conversation so far as one text: a line `role: content` for each
/// message of `trace`, oldest first.
pub open spec fn history_text(trace: Seq<MessageView>) -> Seq<char>
    decreases trace.len(),
{
    if trace.len() == 0 {
        Seq::empty()
    } else {
        history_text(trace.drop_last()) + trace.last().role + ": "@ + trace.last().content + "\n"@
    }
}

impl SupportCaseView {
    /// A case was never updated before it was created.
    pub open spec fn well_formed(self) -> bool {
        self.created_at <= self.updated_at
    }

    /// The case as it is opened: nothing found out yet, nothing said.
    pub open spec fn opened(context: Seq<char>, query: Seq<char>, case_id: u128, now: i64) -> SupportCaseView {
        SupportCaseView {
            case_id,
            support_context: context,
            customer_query: query,
            intent_category: None,
            support_response: None,
            sentiment: None,
            should_escalate: false,
            escalated: false,
            needs_upper_management_attention: false,
            created_at: now,
            updated_at: now,
            trace: Seq::empty(),
            supported_actions: Seq::empty(),
        }
    }

    /// The case after a change that was made when the clock read `now`. The
    /// time of the last update never goes back, whatever the clock does.
    pub open spec fn touched(self, now: i64) -> SupportCaseView {
        SupportCaseView {
            updated_at: if now > self.updated_at { now } else { self.updated_at },
            ..self
        }
    }

    /// The case with `message` added to the end of its trace.
    pub open spec fn traced(self, message: MessageView) -> SupportCaseView {
        SupportCaseView { trace: self.trace.push(message), ..self }
    }

    /// The case with `message` added to the end of its trace at the time
    /// `now`.
    pub open spec fn traced_at(self, message: MessageView, now: i64) -> SupportCaseView {
        self.traced(message).touched(now)
    }

    /// Whether this case can have come out of `earlier` by the work of
    /// agents: the same case, created at the same time, with a trace that only
    /// grew and a time of update that did not go back.
    pub open spec fn continues(self, earlier: SupportCaseView) -> bool {
        &&& self.case_id == earlier.case_id
        &&& self.created_at == earlier.created_at
        &&& self.updated_at >= earlier.updated_at
        &&& earlier.trace.is_prefix_of(self.trace)
    }
}

/// Reads the clock through chrono's `Local::now()` and hands back
/// `DateTime::timestamp_millis()` of the reading. Nothing is claimed of the
/// number: the machine's clock decides it and may have been set back since the
/// last reading. chrono panics where the clock stands before 1970, and where
/// the time zone data of the machine gives no local time for the reading.
#[verifier::external_body]
pub(crate) fn clock_millis() -> (now: i64)
{
    chrono::Local::now().timestamp_millis()
}

/// Draws a case identifier with uuid's `Uuid::new_v4()` and hands back
/// `Uuid::as_u128()` of it. The bits are random but for the six that
/// `new_v4` sets to mark version and variant. uuid panics where the operating
/// system gives no random bytes.
#[verifier::external_body]
fn random_case_id() -> (id: u128)
    ensures
        is_random_uuid(id),
{
    uuid::Uuid::new_v4().as_u128()
}

impl SupportCase {
    /// Opens a case for `query`, asked in `context`, with a fresh random
    /// identifier and the present time as the time of creation.
    pub fn new(context: String, query: String) -> (case: SupportCase)
        ensures
            case@ == SupportCaseView::opened(context@, query@, case.case_id, case.created_at),
            is_random_uuid(case.case_id),
            case@.well_formed(),
    {
        let case_id: u128 = random_case_id();
        let now: i64 = clock_millis();
        SupportCase::opened(context, query, case_id, now)
    }

    /// Opens a case with the identifier and the time of creation given.
    pub fn opened(context: String, query: String, case_id: u128, now: i64) -> (case: SupportCase)
        ensures
            case@ == SupportCaseView::opened(context@, query@, case_id, now),
            case@.well_formed(),
    {
        let case = SupportCase {
            case_id,
            support_context: context,
            customer_query: query,
            intent_category: None,
            support_response: None,
            sentiment: None,
            should_escalate: false,
            escalated: false,
            needs_upper_management_attention: false,
            created_at: now,
            updated_at: now,
            trace: Vec::new(),
            supported_actions: Vec::new(),
        };
        assert(case@.trace =~= Seq::empty());
        assert(case@.supported_actions =~= Seq::empty());
        case
    }

    /// Marks the case as changed now. Whatever the clock reads, the time of
    /// the last update does not go back and nothing else changes.
    pub fn updated(&mut self)
        ensures
            exists|now: i64| final(self)@ == #[trigger] old(self)@.touched(now),
            final(self)@.continues(old(self)@),
            old(self)@.well_formed() ==> final(self)@.well_formed(),
    {
        let now: i64 = clock_millis();
        self.touch(now);
    }

    /// Marks the case as changed at the time `now`.
    pub fn touch(&mut self, now: i64)
        ensures
            final(self)@ == old(self)@.touched(now),
    {
        if now > self.updated_at {
            self.updated_at = now;
        }
    }

    /// Adds `message` to the end of the trace.
    pub fn record(&mut self, message: Message)
        ensures
            final(self)@ == old(self)@.traced(message@),
    {
        self.trace.push(message);
        assert(final(self)@.trace =~= old(self)@.trace.push(message@));
    }

    /// Adds `message` to the end of the trace and marks the case as changed
    /// at the time `now`.
    pub fn record_at(&mut self, message: Message, now: i64)
        ensures
            final(self)@ == old(self)@.traced_at(message@, now),
    {
        self.record(message);
        self.touch(now);
    }

    /// The conversation so far as one text, a line for each message.
    pub fn get_history(&self) -> (history: String)
        ensures
            history@ == history_text(self@.trace),
    {
        let mut history = String::new();
        let mut i: usize = 0;
        while i < self.trace.len()
            invariant
                i <= self.trace.len(),
                history@ == history_text(self@.trace.take(i as int)),
            decreases self.trace.len() - i,
        {
            proof {
                let all = self@.trace;
                assert(all.take(i + 1).drop_last() == all.take(i as int));
                assert(all.take(i + 1).last() == self.trace@[i as int]@);
            }
            history.append(self.trace[i].role.as_str());
            history.append(": ");
            history.append(self.trace[i].content.as_str());
            history.append("\n");
            i += 1;
        }
        proof {
            assert(self@.trace.take(self.trace.len() as int) == self@.trace);
        }
        history
    }
}

} // verus!
