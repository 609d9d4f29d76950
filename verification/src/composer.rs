//! What is announced for an accepted count: a progress update while the
//! target is not surpassed, a progress card, and a word of motivation.

use crate::sampler::{draw, texts};
use crate::text::{decimal_digits, push_decimal};
use vstd::prelude::*;
use vstd::string::StringExecFns;

verus! {

/// The title of every progress card.
pub const CARD_TITLE: &'static str = "Overleaf word count";

/// How many progress updates there are to choose from.
pub const UPDATE_COUNT: usize = 10;

/// What each progress update says before the percentage.
pub const UPDATE_OPENINGS: [&'static str; 10] = [
    "Wow, check it, we're at **",
    "We're on fire! Just reached **",
    "Making great progress with the **",
    "Guys, **",
    "Amazing work, team! We've reached **",
    "Keep it up, everyone! We're already at **",
    "Fantastic job, we're at **",
    "Keep up the good work, incredible, look at that beautiful **",
    "Absolutely beautiful guys, **",
    "**",
];

/// What each progress update says after the percentage.
pub const UPDATE_CLOSINGS: [&'static str; 10] = [
    "%** !!",
    "%**!",
    "%**, Amazing!",
    "**% now, impressive nice !!",
    "%** !",
    "%** !",
    "%** !",
    "%** !",
    "%**, just so good!",
    "%**, Lessgo!!!",
];

/// How many words of motivation there are to choose from.
pub const MOTIVATION_COUNT: usize = 29;

/// The words of motivation.
pub const MOTIVATIONS: [&'static str; 29] = [
    "Believe you can and you're halfway there",
    "Don't watch the clock; do what it does. Keep going",
    "The secret of getting ahead is getting started",
    "The future depends on what you do today",
    "Believe in yourself and all that you are. Know that there is something inside you that is greater than any obstacle",
    "The only way to achieve the impossible is to believe it is possible",
    "Success is not the key to happiness. Happiness is the key to success. If you love what you are doing, you will be successful",
    "The only limit to our realization of tomorrow will be our doubts of today",
    "The only place where success comes before work is in the dictionary",
    "Together, we can conquer any challenge",
    "Every step we take together brings us one step closer to our goal",
    "We are a team. We win together, we lose together, we work hard together",
    "The strength of the team is each individual member. The strength of each member is the team",
    "Alone we can do so little; together we can do so much",
    "Great things in business are never done by one person; they're done by a team of people",
    "Remember, we're all in this together. Every effort counts",
    "We got this! Let's keep pushing forward",
    "Teamwork divides the task and multiplies the success",
    "Together, we can conquer any challenge. Let's hit that 2500 word count!",
    "Every word we write together brings us one step closer to our 2500-word goal",
    "We are a team. We write together, we edit together, we reach our word count together",
    "The strength of our report is each individual word. The strength of each word is our team",
    "Alone we can write so little; together we can write so much. Let's reach that 2500 words!",
    "Great reports are never written by one person; they're written by a team of people",
    "Remember, we're all in this together. Every word counts towards our 2500-word goal",
    "We got this! Let's keep pushing forward until we reach 2500 words",
    "Teamwork divides the task and multiplies the success. Let's multiply our success by reaching 2500 words",
    "Let's continue to work hard and support each other. 2500 words, here we come!",
    "The harder you work for something, the greater you'll feel when you achieve it",
];

/// A card that shows the count against the target.
#[derive(Clone, Debug, PartialEq, Eq)]
pub struct ProgressCard {
    /// The count that the card reports.
    pub count: u32,
    /// The target that the count is held against.
    pub target: u32,
    /// The share of the target that is reached, in percent, rounded down.
    pub percentage: u64,
    /// The card's title.
    pub title: String,
    /// The name of the card's single field.
    pub label: String,
    /// The text of the card's single field.
    pub body: String,
}

/// One message for the channel.
#[derive(Clone, Debug, PartialEq, Eq)]
pub enum OutboundMessage {
    /// A sentence that names the percentage reached.
    ProgressUpdate(String),
    /// The count, the target and the percentage, as a card.
    Card(ProgressCard),
    /// A word of motivation.
    Motivation(String),
}

/// A progress card as plain values.
pub struct CardModel {
    pub count: nat,
    pub target: nat,
    pub percentage: nat,
    pub title: Seq<char>,
    pub label: Seq<char>,
    pub body: Seq<char>,
}

/// A message as plain values.
pub enum MessageModel {
    ProgressUpdate(Seq<char>),
    Card(CardModel),
    Motivation(Seq<char>),
}

impl View for ProgressCard {
    type V = CardModel;

    open spec fn view(&self) -> CardModel {
        CardModel {
            count: self.count as nat,
            target: self.target as nat,
            percentage: self.percentage as nat,
            title: self.title@,
            label: self.label@,
            body: self.body@,
        }
    }
}

impl View for OutboundMessage {
    type V = MessageModel;

    open spec fn view(&self) -> MessageModel {
        match self {
            OutboundMessage::ProgressUpdate(sentence) => MessageModel::ProgressUpdate(sentence@),
            OutboundMessage::Card(card) => MessageModel::Card(card@),
            OutboundMessage::Motivation(sentence) => MessageModel::Motivation(sentence@),
        }
    }
}

/// The messages of `messages` as plain values, in order.
pub open spec fn models(messages: Seq<OutboundMessage>) -> Seq<MessageModel> {
    messages.map_values(|message: OutboundMessage| message@)
}

/// The share of `target` that `count` reaches, in percent, rounded down.
pub open spec fn percent_of(count: nat, target: nat) -> nat
    recommends
        target > 0,
{
    count * 100 / target
}

/// What the single field of a progress card is called: the count, a slash,
/// the target and, in brackets, the percentage.
pub open spec fn card_label(count: nat, target: nat) -> Seq<char> {
    decimal_digits(count) + "/"@ + decimal_digits(target) + " ("@ + decimal_digits(
        percent_of(count, target),
    ) + "%)"@
}

/// The progress card for `count` and `target`.
pub open spec fn card_for(count: nat, target: nat) -> CardModel {
    CardModel {
        count,
        target,
        percentage: percent_of(count, target),
        title: CARD_TITLE@,
        label: card_label(count, target),
        body: Seq::empty(),
    }
}

/// The progress update of the given index for `percentage`.
pub open spec fn update_sentence(index: int, percentage: nat) -> Seq<char> {
    UPDATE_OPENINGS@[index]@ + decimal_digits(percentage) + UPDATE_CLOSINGS@[index]@
}

/// The progress updates to choose from for `percentage`, in order.
pub open spec fn update_sentences(percentage: nat) -> Seq<Seq<char>> {
    Seq::new(UPDATE_COUNT as nat, |index: int| update_sentence(index, percentage))
}

/// The words of motivation to choose from, in order.
pub open spec fn motivation_sentences() -> Seq<Seq<char>> {
    Seq::new(MOTIVATION_COUNT as nat, |index: int| MOTIVATIONS@[index]@)
}

/// The messages for an accepted `count`, once `update` and `motivation` are
/// chosen: the update, unless the target is surpassed, then the card, then the
/// motivation.
pub open spec fn composed(
    count: nat,
    target: nat,
    update: Seq<char>,
    motivation: Seq<char>,
) -> Seq<MessageModel> {
    if percent_of(count, target) <= 100 {
        seq![
            MessageModel::ProgressUpdate(update),
            MessageModel::Card(card_for(count, target)),
            MessageModel::Motivation(motivation),
        ]
    } else {
        seq![MessageModel::Card(card_for(count, target)), MessageModel::Motivation(motivation)]
    }
}

/// `messages` is what may be announced for an accepted `count`: `composed`
/// with one of the progress updates and one of the words of motivation.
pub open spec fn is_composition(messages: Seq<MessageModel>, count: nat, target: nat) -> bool {
    exists|update: int, motivation: int|
        0 <= update < UPDATE_COUNT && 0 <= motivation < MOTIVATION_COUNT && messages
            == #[trigger] composed(
            count,
            target,
            update_sentences(percent_of(count, target))[update],
            motivation_sentences()[motivation],
        )
}

/// What every composition holds: the card for the count and a word of
/// motivation, always, as the last two messages; and before them one progress
/// update, if and only if the count is at most a hundred percent of the
/// target.
pub proof fn lemma_composition_shape(messages: Seq<MessageModel>, count: nat, target: nat)
    requires
        is_composition(messages, count, target),
    ensures
        messages.len() == if percent_of(count, target) <= 100 {
            3nat
        } else {
            2nat
        },
        messages[messages.len() - 2] == MessageModel::Card(card_for(count, target)),
        messages.last() is Motivation,
        exists|index: int|
            0 <= index < MOTIVATION_COUNT && messages.last()->Motivation_0
                == #[trigger] motivation_sentences()[index],
        percent_of(count, target) <= 100 ==> messages[0] is ProgressUpdate && exists|index: int|
            0 <= index < UPDATE_COUNT && messages[0]->ProgressUpdate_0 == #[trigger] update_sentence(
                index,
                percent_of(count, target),
            ),
        forall|i: int|
            0 <= i < messages.len() && (#[trigger] messages[i]) is ProgressUpdate ==> i == 0
                && percent_of(count, target) <= 100,
{
    let (update, motivation) = choose|update: int, motivation: int|
        0 <= update < UPDATE_COUNT && 0 <= motivation < MOTIVATION_COUNT && messages
            == #[trigger] composed(
            count,
            target,
            update_sentences(percent_of(count, target))[update],
            motivation_sentences()[motivation],
        );
    assert(messages.last()->Motivation_0 == motivation_sentences()[motivation]);
    if percent_of(count, target) <= 100 {
        assert(messages[0]->ProgressUpdate_0 == update_sentence(
            update,
            percent_of(count, target),
        ));
    }
}

/// The share of `target` that `count` reaches, in percent, rounded down.
pub fn percentage(count: u32, target: u32) -> (percent: u64)
    requires
        target > 0,
    ensures
        percent == percent_of(count as nat, target as nat),
{
    (count as u64 * 100) / (target as u64)
}

/// The progress card for `count` and `target`.
pub fn progress_card(count: u32, target: u32) -> (card: ProgressCard)
    requires
        target > 0,
    ensures
        card@ == card_for(count as nat, target as nat),
{
    let percent = percentage(count, target);
    let mut label = String::new();
    push_decimal(&mut label, count as u64);
    label.append("/");
    push_decimal(&mut label, target as u64);
    label.append(" (");
    push_decimal(&mut label, percent);
    label.append("%)");
    assert(label@ =~= card_label(count as nat, target as nat));
    ProgressCard {
        count,
        target,
        percentage: percent,
        title: String::from_str(CARD_TITLE),
        label,
        body: String::new(),
    }
}

/// The progress updates to choose from for `percentage`, in order.
pub fn update_pool(percentage: u64) -> (pool: Vec<String>)
    ensures
        texts(pool@) == update_sentences(percentage as nat),
{
    let mut pool: Vec<String> = Vec::new();
    let mut index: usize = 0;
    while index < UPDATE_COUNT
        invariant
            index <= UPDATE_COUNT,
            pool@.len() == index,
            forall|i: int| 0 <= i < index ==> pool@[i]@ == update_sentence(i, percentage as nat),
        decreases UPDATE_COUNT - index,
    {
        let mut sentence = String::from_str(UPDATE_OPENINGS[index]);
        push_decimal(&mut sentence, percentage);
        sentence.append(UPDATE_CLOSINGS[index]);
        pool.push(sentence);
        index += 1;
    }
    assert(texts(pool@) =~= update_sentences(percentage as nat));
    pool
}

/// The words of motivation to choose from, in order.
pub fn motivation_pool() -> (pool: Vec<String>)
    ensures
        texts(pool@) == motivation_sentences(),
{
    let mut pool: Vec<String> = Vec::new();
    let mut index: usize = 0;
    while index < MOTIVATION_COUNT
        invariant
            index <= MOTIVATION_COUNT,
            pool@.len() == index,
            forall|i: int| 0 <= i < index ==> pool@[i]@ == MOTIVATIONS@[i]@,
        decreases MOTIVATION_COUNT - index,
    {
        pool.push(String::from_str(MOTIVATIONS[index]));
        index += 1;
    }
    assert(texts(pool@) =~= motivation_sentences());
    pool
}

/// The messages for an accepted `count`, once `update` and `motivation` are
/// chosen. Above a hundred percent `update` is left out.
pub fn assemble(count: u32, target: u32, update: String, motivation: String) -> (messages: Vec<
    OutboundMessage,
>)
    requires
        target > 0,
    ensures
        models(messages@) == composed(count as nat, target as nat, update@, motivation@),
{
    let mut messages: Vec<OutboundMessage> = Vec::new();
    if percentage(count, target) <= 100 {
        messages.push(OutboundMessage::ProgressUpdate(update));
    }
    messages.push(OutboundMessage::Card(progress_card(count, target)));
    messages.push(OutboundMessage::Motivation(motivation));
    assert(models(messages@) =~= composed(count as nat, target as nat, update@, motivation@));
    messages
}

/// The messages for an accepted `count`, in the order in which they are sent.
/// The progress update and the word of motivation are drawn at random from
/// their pools.
pub fn compose(count: u32, target: u32) -> (messages: Vec<OutboundMessage>)
    requires
        target > 0,
    ensures
        is_composition(models(messages@), count as nat, target as nat),
{
    let percent = percentage(count, target);
    let update = if percent <= 100 {
        let updates = update_pool(percent);
        assert(texts(updates@).len() == UPDATE_COUNT);
        draw(&updates, updates[0].as_str())
    } else {
        String::new()
    };
    let motivations = motivation_pool();
    assert(texts(motivations@).len() == MOTIVATION_COUNT);
    let motivation = draw(&motivations, motivations[0].as_str());
    let messages = assemble(count, target, update, motivation);
    proof {
        let sentences = update_sentences(percent as nat);
        let chosen_update = if percent <= 100 {
            choose|i: int| 0 <= i < sentences.len() && update@ == #[trigger] sentences[i]
        } else {
            0
        };
        let chosen_motivation = choose|i: int|
            0 <= i < motivation_sentences().len() && motivation@
                == #[trigger] motivation_sentences()[i];
        assert(models(messages@) == composed(
            count as nat,
            target as nat,
            sentences[chosen_update],
            motivation_sentences()[chosen_motivation],
        ));
    }
    messages
}

} // verus!
