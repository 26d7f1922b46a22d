//! The notification contract, its errors, and a double that stands in for
//! the services behind it: each downstream call takes a while and sometimes
//! fails.

use vstd::prelude::*;
use vstd::string::*;

verus! {

/// Why a notification was not delivered.
#[derive(Debug, PartialEq, Eq)]
pub enum ServiceError {
    /// A downstream call failed, with what is known of it.
    NotificationFailed(String),
    /// A downstream call did not answer in time.
    Timeout,
    /// A downstream call was refused for now; an immediate retry is not
    /// welcome.
    RateLimited,
}

impl ServiceError {
    /// The text of the error.
    pub open spec fn spec_message(self) -> Seq<char> {
        match self {
            ServiceError::NotificationFailed(detail) => "Notification service error: "@ + detail@,
            ServiceError::Timeout => "External API timeout"@,
            ServiceError::RateLimited => "Rate limited"@,
        }
    }

    /// Writes the error as text.
    pub fn message(&self) -> (text: String)
        ensures
            text@ == self.spec_message(),
    {
        match self {
            ServiceError::NotificationFailed(detail) => String::from_str(
                "Notification service error: ",
            ).concat(detail.as_str()),
            ServiceError::Timeout => String::from_str("External API timeout"),
            ServiceError::RateLimited => String::from_str("Rate limited"),
        }
    }
}

/// A lifecycle event that is announced.
#[derive(Debug, PartialEq, Eq)]
pub enum Notification {
    /// An item was created.
    Created { todo_id: u128, title: String },
    /// An item went from not completed to completed.
    Completed { todo_id: u128, title: String },
    /// A batch of this many items was created.
    BatchSummary { count: usize },
}

/// What a `Notification` holds, with its text as a character sequence.
pub enum NotificationView {
    Created { todo_id: u128, title: Seq<char> },
    Completed { todo_id: u128, title: Seq<char> },
    BatchSummary { count: usize },
}

impl View for Notification {
    type V = NotificationView;

    open spec fn view(&self) -> NotificationView {
        match *self {
            Notification::Created { todo_id, title } => NotificationView::Created {
                todo_id,
                title: title@,
            },
            Notification::Completed { todo_id, title } => NotificationView::Completed {
                todo_id,
                title: title@,
            },
            Notification::BatchSummary { count } => NotificationView::BatchSummary { count },
        }
    }
}

/// What a sequence of notifications holds, one by one.
pub open spec fn notification_views(sent: Seq<Notification>) -> Seq<NotificationView> {
    sent.map_values(|n: Notification| n@)
}

/// The notifications that a notifier attempted, as its contract speaks of
/// them.
pub type AttemptLog = Seq<NotificationView>;

/// Signals to the outside that something happened to an item.
///
/// A notification is advisory: it may fail, and nothing about the items
/// depends on it. Every call is one attempt, whether it succeeds or not, and
/// `attempts()` lists them in the order they were made.
pub trait NotificationService {
    /// The notifications that were attempted so far.
    spec fn attempts(&self) -> AttemptLog;

    /// Announces that an item was created.
    fn send_created_notification(&mut self, todo_id: u128, title: &str) -> (r: Result<
        (),
        ServiceError,
    >)
        ensures
            final(self).attempts() == old(self).attempts().push(
                (NotificationView::Created { todo_id, title: title@ }),
            ),
    ;

    /// Announces that an item was completed.
    fn send_completed_notification(&mut self, todo_id: u128, title: &str) -> (r: Result<
        (),
        ServiceError,
    >)
        ensures
            final(self).attempts() == old(self).attempts().push(
                (NotificationView::Completed { todo_id, title: title@ }),
            ),
    ;

    /// Announces that a batch of `count` items was created.
    fn send_batch_summary(&mut self, count: usize) -> (r: Result<(), ServiceError>)
        ensures
            final(self).attempts() == old(self).attempts().push(
                (NotificationView::BatchSummary { count }),
            ),
    ;
}

/// Where the double takes the latency and the fate of a downstream call
/// from.
#[derive(Clone, Copy, Debug, PartialEq, Eq, Structural)]
pub enum FaultInjection {
    /// Drawn at random for every call: a latency of 50 to 249 milliseconds
    /// and a roll of 0 to 99.
    Random,
    /// The same latency and the same roll for every call.
    Fixed { delay_ms: u64, roll: u64 },
}

/// One downstream call of the double: where it went, how long it took and
/// the roll that decided its fate.
#[derive(Debug, PartialEq, Eq)]
pub struct ApiCall {
    pub endpoint: String,
    pub delay_ms: u64,
    pub roll: u64,
}

/// Whether a downstream call with this roll succeeds: out of a hundred
/// rolls, the ten lowest fail and the next five are rate limited.
pub open spec fn roll_succeeds(roll: u64) -> bool {
    roll >= 15
}

/// The fate that a roll gives a downstream call.
pub open spec fn api_call_result(roll: u64, r: Result<(), ServiceError>) -> bool {
    if roll < 10 {
        r matches Err(ServiceError::NotificationFailed(detail)) && detail@ == "Random failure"@
    } else if roll < 15 {
        r == Err::<(), ServiceError>(ServiceError::RateLimited)
    } else {
        r is Ok
    }
}

/// Decides the fate of a downstream call from its roll.
pub fn api_call_outcome(roll: u64) -> (r: Result<(), ServiceError>)
    ensures
        api_call_result(roll, r),
{
    if roll < 10 {
        Err(ServiceError::NotificationFailed(String::from_str("Random failure")))
    } else if roll < 15 {
        Err(ServiceError::RateLimited)
    } else {
        Ok(())
    }
}

/// Calls `gen_range` of `rand::Rng` on `rand::thread_rng()` with the range
/// from `low` up to, not including, `high`. Trusted: the number drawn lies in
/// that range. An empty range, on which `gen_range` panics, is left out.
#[verifier::external_body]
pub(crate) fn draw_between(low: u64, high: u64) -> (n: u64)
    requires
        low < high,
    ensures
        low <= n < high,
{
    rand::Rng::gen_range(&mut rand::thread_rng(), low..high)
}

/// Whether a latency and a roll are ones that this source of faults gives.
pub open spec fn drawn(faults: FaultInjection, delay_ms: u64, roll: u64) -> bool {
    match faults {
        FaultInjection::Random => 50 <= delay_ms < 250 && roll < 100,
        FaultInjection::Fixed { delay_ms: d, roll: r } => delay_ms == d && roll == r,
    }
}

/// Whether `call` is a call to `endpoint` as this source of faults makes it.
pub open spec fn call_made(call: ApiCall, endpoint: Seq<char>, faults: FaultInjection) -> bool {
    call.endpoint@ == endpoint && drawn(faults, call.delay_ms, call.roll)
}

/// What one downstream call to `endpoint` adds to the record, and what it
/// returns.
pub open spec fn one_call(
    before: Seq<ApiCall>,
    after: Seq<ApiCall>,
    faults: FaultInjection,
    endpoint: Seq<char>,
    r: Result<(), ServiceError>,
) -> bool {
    &&& after.len() == before.len() + 1
    &&& after.drop_last() == before
    &&& call_made(after.last(), endpoint, faults)
    &&& api_call_result(after.last().roll, r)
}

/// What two downstream calls in a row add to the record, the second made
/// only where the first succeeded, and what they return together.
pub open spec fn two_calls(
    before: Seq<ApiCall>,
    after: Seq<ApiCall>,
    faults: FaultInjection,
    first: Seq<char>,
    second: Seq<char>,
    r: Result<(), ServiceError>,
) -> bool {
    &&& before.len() < after.len() <= before.len() + 2
    &&& after.take(before.len() as int) == before
    &&& call_made(after[before.len() as int], first, faults)
    &&& if after.len() == before.len() + 1 {
        !roll_succeeds(after.last().roll) && api_call_result(after.last().roll, r)
    } else {
        &&& roll_succeeds(after[before.len() as int].roll)
        &&& call_made(after.last(), second, faults)
        &&& api_call_result(after.last().roll, r)
    }
}

/// A notifier that calls nothing: it records every attempt and every
/// downstream call that the attempt stands for, with the latency the call
/// would have taken and the roll that decided whether it failed.
#[derive(Debug)]
pub struct MockNotificationService {
    /// Where latencies and rolls come from.
    pub faults: FaultInjection,
    /// The downstream calls so far, oldest first.
    pub calls: Vec<ApiCall>,
    /// The notifications attempted so far, oldest first.
    pub sent: Vec<Notification>,
}

impl MockNotificationService {
    /// A notifier whose downstream calls fail at random.
    pub fn new() -> (service: MockNotificationService)
        ensures
            service.faults == FaultInjection::Random,
            service.calls@ == Seq::<ApiCall>::empty(),
            service.sent@ == Seq::<Notification>::empty(),
            service.attempts() == Seq::<NotificationView>::empty(),
    {
        MockNotificationService::with_faults(FaultInjection::Random)
    }

    /// A notifier that takes latencies and rolls from `faults`.
    pub fn with_faults(faults: FaultInjection) -> (service: MockNotificationService)
        ensures
            service.faults == faults,
            service.calls@ == Seq::<ApiCall>::empty(),
            service.sent@ == Seq::<Notification>::empty(),
            service.attempts() == Seq::<NotificationView>::empty(),
    {
        let service = MockNotificationService { faults, calls: Vec::new(), sent: Vec::new() };
        assert(service.attempts() =~= Seq::<NotificationView>::empty());
        service
    }

    /// Makes one downstream call to `endpoint`: takes a latency and a roll
    /// from the source of faults, records the call, and lets the roll decide
    /// whether it failed.
    pub fn simulate_api_call(&mut self, endpoint: &str) -> (r: Result<(), ServiceError>)
        ensures
            final(self).faults == old(self).faults,
            final(self).sent == old(self).sent,
            one_call(old(self).calls@, final(self).calls@, old(self).faults, endpoint@, r),
    {
        let (delay_ms, roll): (u64, u64) = match self.faults {
            FaultInjection::Random => {
                let delay_ms: u64 = draw_between(50, 250);
                let roll: u64 = draw_between(0, 100);
                (delay_ms, roll)
            },
            FaultInjection::Fixed { delay_ms, roll } => (delay_ms, roll),
        };
        self.calls.push(ApiCall { endpoint: String::from_str(endpoint), delay_ms, roll });
        assert(self.calls@.drop_last() =~= old(self).calls@);
        api_call_outcome(roll)
    }

    /// The latency of every downstream call from the `from`-th on, added up:
    /// how long the notifications made since then would have taken.
    pub open spec fn spec_latency_since(calls: Seq<ApiCall>, from: int) -> int
        decreases calls.len() - from,
    {
        if from < 0 || from >= calls.len() {
            0
        } else {
            calls[from].delay_ms + MockNotificationService::spec_latency_since(calls, from + 1)
        }
    }

    /// Adds up the latency of the downstream calls from the `from`-th on;
    /// a sum that does not fit is capped at the largest number.
    pub fn latency_since(&self, from: usize) -> (total_ms: u64)
        ensures
            total_ms == if MockNotificationService::spec_latency_since(self.calls@, from as int)
                <= u64::MAX {
                MockNotificationService::spec_latency_since(self.calls@, from as int)
            } else {
                u64::MAX as int
            },
    {
        let n: usize = self.calls.len();
        if from >= n {
            return 0;
        }
        let mut total: u64 = 0;
        let mut capped = false;
        let mut i: usize = n;
        while i > from
            invariant
                from <= i <= n,
                n == self.calls.len(),
                !capped ==> total == MockNotificationService::spec_latency_since(
                    self.calls@,
                    i as int,
                ),
                capped ==> MockNotificationService::spec_latency_since(self.calls@, i as int)
                    > u64::MAX,
                MockNotificationService::spec_latency_since(self.calls@, i as int) >= 0,
            decreases i,
        {
            i = i - 1;
            if !capped {
                match total.checked_add(self.calls[i].delay_ms) {
                    Some(sum) => {
                        total = sum;
                    },
                    None => {
                        capped = true;
                    },
                }
            }
        }
        if capped {
            u64::MAX
        } else {
            total
        }
    }
}

impl NotificationService for MockNotificationService {
    open spec fn attempts(&self) -> Seq<NotificationView> {
        notification_views(self.sent@)
    }

    /// Two downstream calls: the webhook, then the mail.
    fn send_created_notification(&mut self, todo_id: u128, title: &str) -> (r: Result<
        (),
        ServiceError,
    >)
        ensures
            final(self).faults == old(self).faults,
            two_calls(
                old(self).calls@,
                final(self).calls@,
                old(self).faults,
                "/webhook/todo-created"@,
                "/email/send"@,
                r,
            ),
    {
        self.sent.push(Notification::Created { todo_id, title: String::from_str(title) });
        assert(self.attempts() =~= old(self).attempts().push(
            (NotificationView::Created { todo_id, title: title@ }),
        ));
        let ghost before = self.calls@;
        match self.simulate_api_call("/webhook/todo-created") {
            Ok(_) => {},
            Err(e) => {
                assert(self.calls@.take(before.len() as int) =~= before);
                return Err(e);
            },
        }
        let ghost between = self.calls@;
        let r = self.simulate_api_call("/email/send");
        assert(self.calls@.drop_last() == between);
        assert(self.calls@.take(before.len() as int) =~= before);
        assert(self.calls@[before.len() as int] == between.last());
        r
    }

    /// One downstream call: the analytics event.
    fn send_completed_notification(&mut self, todo_id: u128, title: &str) -> (r: Result<
        (),
        ServiceError,
    >)
        ensures
            final(self).faults == old(self).faults,
            one_call(old(self).calls@, final(self).calls@, old(self).faults, "/analytics/track"@, r),
    {
        self.sent.push(Notification::Completed { todo_id, title: String::from_str(title) });
        assert(self.attempts() =~= old(self).attempts().push(
            (NotificationView::Completed { todo_id, title: title@ }),
        ));
        self.simulate_api_call("/analytics/track")
    }

    /// One downstream call: the aggregation service.
    fn send_batch_summary(&mut self, count: usize) -> (r: Result<(), ServiceError>)
        ensures
            final(self).faults == old(self).faults,
            one_call(
                old(self).calls@,
                final(self).calls@,
                old(self).faults,
                "/aggregate/batch-summary"@,
                r,
            ),
    {
        self.sent.push(Notification::BatchSummary { count });
        assert(self.attempts() =~= old(self).attempts().push(
            (NotificationView::BatchSummary { count }),
        ));
        self.simulate_api_call("/aggregate/batch-summary")
    }
}

} // verus!
