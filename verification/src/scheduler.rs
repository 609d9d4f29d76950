//! The polling loop as a state machine. The scheduler decides what is done
//! next: fetch a sample, post a message, or sleep. Whoever drives it does
//! that and reports what came of it.

use crate::composer::{compose, is_composition, models, MessageModel, OutboundMessage};
use crate::settings::{Settings, SettingsModel};
use crate::tracker::{clears_margin, evaluate_with_margin, Verdict};
use vstd::prelude::*;

verus! {

/// Where a scheduler stands.
#[derive(Clone, Copy, Debug, PartialEq, Eq, Structural)]
pub enum Stage {
    /// Not started.
    Idle,
    /// Running, and waiting for the sample that it asked for.
    Fetching,
    /// Running, and waiting for the message that it handed out to be posted.
    Posting,
    /// Running, and waiting for the period to pass.
    Sleeping,
}

/// What came of the last action.
#[derive(Clone, Copy, Debug, PartialEq, Eq, Structural)]
pub enum Event {
    /// The fetch gave this count.
    Fetched(u32),
    /// The fetch failed.
    FetchFailed,
    /// The message was posted.
    Delivered,
    /// The message could not be posted.
    DeliveryFailed,
    /// The period has passed.
    Woke,
}

/// What is to be done next.
#[derive(Clone, Debug, PartialEq, Eq)]
pub enum Action {
    /// Fetch a sample.
    Fetch,
    /// Post this message.
    Post(OutboundMessage),
    /// Sleep for this many seconds.
    Sleep(u64),
}

/// An action as plain values.
pub enum ActionModel {
    Fetch,
    Post(MessageModel),
    Sleep(nat),
}

impl View for Action {
    type V = ActionModel;

    open spec fn view(&self) -> ActionModel {
        match self {
            Action::Fetch => ActionModel::Fetch,
            Action::Post(message) => ActionModel::Post(message@),
            Action::Sleep(seconds) => ActionModel::Sleep(*seconds as nat),
        }
    }
}

/// The action of `action` as plain values, if there is one.
pub open spec fn action_model(action: Option<Action>) -> Option<ActionModel> {
    match action {
        Some(action) => Some(action@),
        None => None,
    }
}

/// A scheduler as plain values.
pub struct SchedulerModel {
    /// The policy.
    pub settings: SettingsModel,
    /// Where the scheduler stands.
    pub stage: Stage,
    /// The last count that was announced; zero before the first.
    pub watermark: nat,
    /// The messages of this tick that are still to be handed out, next first.
    pub outbox: Seq<MessageModel>,
}

impl SchedulerModel {
    /// A scheduler that was not started yet.
    pub open spec fn initial(settings: SettingsModel) -> SchedulerModel {
        SchedulerModel { settings, stage: Stage::Idle, watermark: 0, outbox: Seq::empty() }
    }

    /// The loop is running.
    pub open spec fn running(self) -> bool {
        self.stage != Stage::Idle
    }

    /// Messages wait to be handed out only while one is being posted.
    pub open spec fn inv(self) -> bool {
        self.stage == Stage::Posting || self.outbox.len() == 0
    }

    /// `event` is what the scheduler waits for.
    pub open spec fn awaits(self, event: Event) -> bool {
        match (self.stage, event) {
            (Stage::Fetching, Event::Fetched(_)) => true,
            (Stage::Fetching, Event::FetchFailed) => true,
            (Stage::Posting, Event::Delivered) => true,
            (Stage::Posting, Event::DeliveryFailed) => true,
            (Stage::Sleeping, Event::Woke) => true,
            _ => false,
        }
    }

    /// `event` reports a sample that clears the margin over the watermark.
    pub open spec fn accepts(self, event: Event) -> bool {
        &&& self.stage == Stage::Fetching
        &&& event matches Event::Fetched(sample)
        &&& clears_margin(sample as nat, self.watermark, self.settings.margin_percent)
    }

    /// The scheduler after the start signal, and what is to be done: the
    /// first fetch where the scheduler was idle, nothing where it runs.
    pub open spec fn started(self) -> (SchedulerModel, Option<ActionModel>) {
        if self.stage == Stage::Idle {
            (SchedulerModel { stage: Stage::Fetching, ..self }, Some(ActionModel::Fetch))
        } else {
            (self, None)
        }
    }

    /// The end of a tick: the scheduler goes to sleep for one period.
    pub open spec fn asleep(self) -> (SchedulerModel, Option<ActionModel>) {
        (
            SchedulerModel { stage: Stage::Sleeping, outbox: Seq::empty(), ..self },
            Some(ActionModel::Sleep(self.settings.period_secs)),
        )
    }

    /// The scheduler hands out the first of `messages` and keeps the rest;
    /// where there is none left, the tick ends.
    pub open spec fn posting(self, messages: Seq<MessageModel>) -> (
        SchedulerModel,
        Option<ActionModel>,
    ) {
        if messages.len() > 0 {
            (
                SchedulerModel { stage: Stage::Posting, outbox: messages.drop_first(), ..self },
                Some(ActionModel::Post(messages.first())),
            )
        } else {
            self.asleep()
        }
    }

    /// The scheduler after `event`, and what is to be done next. `composed`
    /// is what was composed for the sample, where `event` reports one that is
    /// accepted; it is not looked at otherwise.
    ///
    /// - An accepted sample becomes the watermark, and the first message for
    ///   it is handed out.
    /// - A sample that is not accepted, and a fetch that failed, end the tick.
    /// - After a message was posted, or could not be posted, the next one is
    ///   handed out; after the last, the tick ends.
    /// - After the sleep, the next sample is fetched.
    /// - An event that the scheduler does not wait for changes nothing.
    pub open spec fn next(self, event: Event, composed: Seq<MessageModel>) -> (
        SchedulerModel,
        Option<ActionModel>,
    ) {
        match (self.stage, event) {
            (Stage::Fetching, Event::Fetched(sample)) => {
                if self.accepts(event) {
                    (SchedulerModel { watermark: sample as nat, ..self }).posting(composed)
                } else {
                    self.asleep()
                }
            },
            (Stage::Fetching, Event::FetchFailed) => self.asleep(),
            (Stage::Posting, Event::Delivered) => self.posting(self.outbox),
            (Stage::Posting, Event::DeliveryFailed) => self.posting(self.outbox),
            (Stage::Sleeping, Event::Woke) => (
                SchedulerModel { stage: Stage::Fetching, ..self },
                Some(ActionModel::Fetch),
            ),
            _ => (self, None),
        }
    }

    /// `after` and `action` are what may come of `event`: `next` with, for
    /// an accepted sample, one of the compositions for it.
    pub open spec fn steps_to(
        self,
        event: Event,
        after: SchedulerModel,
        action: Option<ActionModel>,
    ) -> bool {
        if self.accepts(event) {
            exists|composed: Seq<MessageModel>| #[trigger]
                is_composition(composed, event->Fetched_0 as nat, self.settings.target) && (
                    after,
                    action,
                ) == self.next(event, composed)
        } else {
            (after, action) == self.next(event, Seq::empty())
        }
    }
}

/// The polling loop's state: whether it runs, what it waits for, and the
/// last count that was announced.
pub struct PollScheduler {
    settings: Settings,
    stage: Stage,
    watermark: u32,
    outbox: Vec<OutboundMessage>,
}

impl View for PollScheduler {
    type V = SchedulerModel;

    closed spec fn view(&self) -> SchedulerModel {
        SchedulerModel {
            settings: self.settings@,
            stage: self.stage,
            watermark: self.watermark as nat,
            outbox: models(self.outbox@),
        }
    }
}

impl PollScheduler {
    #[verifier::type_invariant]
    spec fn well_formed(self) -> bool {
        self.stage == Stage::Posting || self.outbox@.len() == 0
    }

    /// A scheduler that was not started yet: idle, with the watermark at zero.
    pub fn new(settings: Settings) -> (scheduler: PollScheduler)
        ensures
            scheduler@ == SchedulerModel::initial(settings@),
    {
        let scheduler = PollScheduler {
            settings,
            stage: Stage::Idle,
            watermark: 0,
            outbox: Vec::new(),
        };
        assert(scheduler@.outbox =~= Seq::empty());
        scheduler
    }

    /// The policy that the scheduler runs with.
    pub fn settings(&self) -> (settings: Settings)
        ensures
            settings@ == self@.settings,
    {
        self.settings
    }

    /// Where the scheduler stands.
    pub fn stage(&self) -> (stage: Stage)
        ensures
            stage == self@.stage,
    {
        self.stage
    }

    /// Whether the loop is running.
    pub fn is_running(&self) -> (running: bool)
        ensures
            running == self@.running(),
    {
        match self.stage {
            Stage::Idle => false,
            _ => true,
        }
    }

    /// The last count that was announced; zero before the first.
    pub fn watermark(&self) -> (watermark: u32)
        ensures
            watermark == self@.watermark,
    {
        self.watermark
    }

    /// How many messages of this tick are still to be handed out.
    pub fn pending(&self) -> (pending: usize)
        ensures
            pending == self@.outbox.len(),
    {
        self.outbox.len()
    }

    /// The start signal. An idle scheduler starts to run and asks for the
    /// first fetch; on a running one the signal changes nothing and nothing
    /// is to be done.
    pub fn start(&mut self) -> (action: Option<Action>)
        ensures
            (final(self)@, action_model(action)) == old(self)@.started(),
    {
        match self.stage {
            Stage::Idle => {
                proof {
                    use_type_invariant(&*self);
                }
                self.stage = Stage::Fetching;
                Some(Action::Fetch)
            },
            _ => None,
        }
    }

    /// Ends the tick.
    fn sleep(&mut self) -> (action: Option<Action>)
        ensures
            (final(self)@, action_model(action)) == old(self)@.asleep(),
    {
        self.outbox = Vec::new();
        self.stage = Stage::Sleeping;
        assert(self@.outbox =~= Seq::empty());
        Some(Action::Sleep(self.settings.period_secs()))
    }

    /// Hands out the first of `messages` and keeps the rest.
    fn post(&mut self, messages: Vec<OutboundMessage>) -> (action: Option<Action>)
        ensures
            (final(self)@, action_model(action)) == old(self)@.posting(models(messages@)),
    {
        let mut messages = messages;
        if messages.len() > 0 {
            let ghost all = messages@;
            let first = messages.remove(0);
            assert(models(messages@) =~= models(all).drop_first());
            self.stage = Stage::Posting;
            self.outbox = messages;
            Some(Action::Post(first))
        } else {
            self.sleep()
        }
    }

    /// Takes `event`, which reports what came of the last action, and says
    /// what is to be done next. See [`SchedulerModel::next`].
    pub fn step(&mut self, event: Event) -> (action: Option<Action>)
        ensures
            old(self)@.steps_to(event, final(self)@, action_model(action)),
    {
        proof {
            use_type_invariant(&*self);
        }
        match (self.stage, event) {
            (Stage::Fetching, Event::Fetched(sample)) => {
                let verdict = evaluate_with_margin(
                    sample,
                    self.watermark,
                    self.settings.margin_percent(),
                );
                match verdict {
                    Verdict::Accepted => {
                        let messages = compose(sample, self.settings.target());
                        self.watermark = sample;
                        self.post(messages)
                    },
                    Verdict::Rejected => self.sleep(),
                }
            },
            (Stage::Fetching, Event::FetchFailed) => self.sleep(),
            (Stage::Posting, Event::Delivered) | (Stage::Posting, Event::DeliveryFailed) => {
                let mut messages: Vec<OutboundMessage> = Vec::new();
                std::mem::swap(&mut self.outbox, &mut messages);
                self.post(messages)
            },
            (Stage::Sleeping, Event::Woke) => {
                self.stage = Stage::Fetching;
                Some(Action::Fetch)
            },
            _ => None,
        }
    }
}

/// `event` reports on a message that was handed out.
pub open spec fn is_delivery_report(event: Event) -> bool {
    event == Event::Delivered || event == Event::DeliveryFailed
}

impl SchedulerModel {
    /// The scheduler after the events of `events`, none of which reports a
    /// sample, one after the other.
    pub open spec fn after_all(self, events: Seq<Event>) -> SchedulerModel
        decreases events.len(),
    {
        if events.len() == 0 {
            self
        } else {
            self.next(events.first(), Seq::empty()).0.after_all(events.drop_first())
        }
    }

    /// What is to be done after each of the events of `events`, none of which
    /// reports a sample, one after the other.
    pub open spec fn actions_of(self, events: Seq<Event>) -> Seq<Option<ActionModel>>
        decreases events.len(),
    {
        if events.len() == 0 {
            Seq::empty()
        } else {
            let (after, action) = self.next(events.first(), Seq::empty());
            seq![action] + after.actions_of(events.drop_first())
        }
    }
}

/// The start signal takes effect once: the first one on an idle scheduler
/// starts the loop, and every further one changes nothing and starts nothing.
pub proof fn lemma_start_takes_effect_once(scheduler: SchedulerModel)
    ensures
        scheduler.started().0.running(),
        scheduler.started().1 is Some <==> !scheduler.running(),
        scheduler.started().0.started() == (scheduler.started().0, None::<ActionModel>),
{
}

/// Nothing stops a running loop, and nothing but the start signal starts
/// one: no event takes the scheduler to or from idle. The event that the
/// scheduler waits for is always answered with an action, a failure too; any
/// other event changes nothing. The policy stays as it is.
pub proof fn lemma_running_goes_on(
    before: SchedulerModel,
    event: Event,
    after: SchedulerModel,
    action: Option<ActionModel>,
)
    requires
        before.steps_to(event, after, action),
    ensures
        after.running() == before.running(),
        after.settings == before.settings,
        before.awaits(event) <==> action is Some,
        !before.awaits(event) ==> after == before,
{
}

/// Messages wait only while one is being posted: that holds of a new
/// scheduler, and the start signal and every event keep it.
pub proof fn lemma_nothing_waits_outside_posting(
    before: SchedulerModel,
    event: Event,
    after: SchedulerModel,
    action: Option<ActionModel>,
)
    requires
        before.inv(),
        before.steps_to(event, after, action),
    ensures
        SchedulerModel::initial(before.settings).inv(),
        before.started().0.inv(),
        after.inv(),
{
}

/// The watermark never decreases, and it changes only when a sample is
/// accepted, to that sample.
pub proof fn lemma_watermark_only_rises(
    before: SchedulerModel,
    event: Event,
    after: SchedulerModel,
    action: Option<ActionModel>,
)
    requires
        before.steps_to(event, after, action),
    ensures
        after.watermark >= before.watermark,
        before.accepts(event) ==> after.watermark == event->Fetched_0,
        !before.accepts(event) ==> after.watermark == before.watermark,
{
    if before.accepts(event) {
        crate::tracker::lemma_accepted_exceeds_watermark(
            event->Fetched_0 as nat,
            before.watermark,
            before.settings.margin_percent,
        );
    }
}

/// A sample that does not clear the margin, and a fetch that failed, end the
/// tick: the watermark stays, no message is handed out, and the scheduler
/// sleeps for one period.
pub proof fn lemma_no_news_no_message(
    before: SchedulerModel,
    event: Event,
    after: SchedulerModel,
    action: Option<ActionModel>,
)
    requires
        before.steps_to(event, after, action),
        before.stage == Stage::Fetching,
        event is Fetched || event is FetchFailed,
        !before.accepts(event),
    ensures
        after.watermark == before.watermark,
        after.stage == Stage::Sleeping,
        after.outbox.len() == 0,
        action == Some(ActionModel::Sleep(before.settings.period_secs)),
{
}

/// An accepted sample is announced: the first message of what was composed
/// for it is handed out, and the rest waits in order.
pub proof fn lemma_accepted_sample_is_announced(
    before: SchedulerModel,
    event: Event,
    after: SchedulerModel,
    action: Option<ActionModel>,
)
    requires
        before.steps_to(event, after, action),
        before.accepts(event),
    ensures
        after.stage == Stage::Posting,
        after.watermark == event->Fetched_0,
        action is Some,
        action->0 is Post,
        is_composition(
            seq![action->0->Post_0] + after.outbox,
            event->Fetched_0 as nat,
            before.settings.target,
        ),
{
    let composed = choose|composed: Seq<MessageModel>| #[trigger]
        is_composition(composed, event->Fetched_0 as nat, before.settings.target) && (after, action)
            == before.next(event, composed);
    assert(composed.len() > 0);
    assert(seq![composed.first()] + composed.drop_first() =~= composed);
}

/// Whether a message could be posted makes no difference to what comes next.
pub proof fn lemma_delivery_outcome_is_ignored(
    scheduler: SchedulerModel,
    composed: Seq<MessageModel>,
)
    ensures
        scheduler.next(Event::Delivered, composed) == scheduler.next(
            Event::DeliveryFailed,
            composed,
        ),
{
}

/// Every message that waits is handed out, in order, whatever became of the
/// ones before it, and then the scheduler sleeps for one period: of as many
/// delivery reports as there are messages waiting, each but the last is
/// answered with the next message, and the last with the sleep.
pub proof fn lemma_every_message_is_handed_out(scheduler: SchedulerModel, reports: Seq<Event>)
    requires
        scheduler.stage == Stage::Posting,
        reports.len() == scheduler.outbox.len() + 1,
        forall|i: int| 0 <= i < reports.len() ==> is_delivery_report(#[trigger] reports[i]),
    ensures
        scheduler.actions_of(reports) == scheduler.outbox.map_values(
            |message: MessageModel| Some(ActionModel::Post(message)),
        ).push(Some(ActionModel::Sleep(scheduler.settings.period_secs))),
        scheduler.after_all(reports) == (SchedulerModel {
            stage: Stage::Sleeping,
            outbox: Seq::empty(),
            ..scheduler
        }),
    decreases reports.len(),
{
    let posts = scheduler.outbox.map_values(
        |message: MessageModel| Some(ActionModel::Post(message)),
    );
    let sleep = Some(ActionModel::Sleep(scheduler.settings.period_secs));
    let (after, action) = scheduler.next(reports.first(), Seq::empty());
    assert(is_delivery_report(reports[0]));
    let rest = reports.drop_first();
    if scheduler.outbox.len() == 0 {
        assert(after.actions_of(rest) =~= Seq::empty());
        assert(after.after_all(rest) == after);
        assert(scheduler.actions_of(reports) =~= posts.push(sleep));
    } else {
        assert forall|i: int| 0 <= i < rest.len() implies is_delivery_report(
            #[trigger] rest[i],
        ) by {
            assert(rest[i] == reports[i + 1]);
        }
        lemma_every_message_is_handed_out(after, rest);
        let later = after.outbox.map_values(
            |message: MessageModel| Some(ActionModel::Post(message)),
        );
        assert(seq![action] + later.push(sleep) =~= posts.push(sleep));
    }
}

/// The whole tick of an accepted sample: the messages that were composed
/// for it are handed out one after the other, all of them and in their
/// order, whether or not any of them could be posted; then the scheduler
/// sleeps for one period, with the sample as its watermark.
pub proof fn lemma_accepted_tick(
    before: SchedulerModel,
    event: Event,
    after: SchedulerModel,
    action: Option<ActionModel>,
    reports: Seq<Event>,
)
    requires
        before.accepts(event),
        before.steps_to(event, after, action),
        reports.len() == after.outbox.len() + 1,
        forall|i: int| 0 <= i < reports.len() ==> is_delivery_report(#[trigger] reports[i]),
    ensures
        exists|composed: Seq<MessageModel>| #[trigger]
            is_composition(composed, event->Fetched_0 as nat, before.settings.target) && seq![
                action,
            ] + after.actions_of(reports) == composed.map_values(
                |message: MessageModel| Some(ActionModel::Post(message)),
            ).push(Some(ActionModel::Sleep(before.settings.period_secs))),
        after.after_all(reports) == (SchedulerModel {
            stage: Stage::Sleeping,
            watermark: event->Fetched_0 as nat,
            outbox: Seq::empty(),
            ..before
        }),
{
    let composed = choose|composed: Seq<MessageModel>| #[trigger]
        is_composition(composed, event->Fetched_0 as nat, before.settings.target) && (after, action)
            == before.next(event, composed);
    crate::composer::lemma_composition_shape(
        composed,
        event->Fetched_0 as nat,
        before.settings.target,
    );
    lemma_every_message_is_handed_out(after, reports);
    let posts = composed.map_values(|message: MessageModel| Some(ActionModel::Post(message)));
    let later = after.outbox.map_values(|message: MessageModel| Some(ActionModel::Post(message)));
    let sleep = Some(ActionModel::Sleep(before.settings.period_secs));
    assert(seq![action] + later.push(sleep) =~= posts.push(sleep));
}

} // verus!
