//! Which inbound messages the relay answers, and in what order the answers
//! to one message are made.

use vstd::prelude::*;

verus! {

/// A reason for which an inbound message is answered.
#[derive(Clone, Copy, Debug, PartialEq, Eq, Structural)]
pub enum Trigger {
    /// The message was sent to the bot alone.
    DirectMessage,
    /// The message names the bot among the recipients that it addresses.
    Mention,
}

/// How the attempt to post one reply ended.
#[derive(Clone, Copy, Debug, PartialEq, Eq, Structural)]
pub enum Delivery {
    /// The transport took the reply.
    Posted,
    /// There was no reply to post.
    Skipped,
    /// The transport refused the reply.
    Failed,
}

/// What to do next with an inbound message.
#[derive(Clone, Copy, Debug, PartialEq, Eq, Structural)]
pub enum Step {
    /// Answer the message for this reason.
    Handle(Trigger),
    /// Nothing is left to do.
    Finished,
}

/// What the relay reads of a message that the transport delivered.
#[derive(Debug)]
pub struct InboundMessage {
    /// The author's name, which is the author's key in the context store.
    pub author_name: String,
    /// Whether the author is a bot account, this bot included.
    pub author_is_bot: bool,
    /// The text of the message.
    pub content: String,
    /// Whether the message was sent to the bot alone.
    pub is_direct: bool,
    /// The identities of the recipients that the message addresses.
    pub mentions: Vec<u64>,
}

impl InboundMessage {
    /// Whether the message is answered for the reason `trigger` by the bot
    /// whose identity is `bot_id`. A message of a bot account is answered
    /// for no reason.
    pub open spec fn fires(&self, bot_id: u64, trigger: Trigger) -> bool {
        !self.author_is_bot && match trigger {
            Trigger::DirectMessage => self.is_direct,
            Trigger::Mention => self.mentions@.contains(bot_id),
        }
    }

    /// The reasons for which the message is answered, in the order in which
    /// the answers are made. The two reasons are judged apart: a direct
    /// message that mentions the bot is answered twice.
    pub open spec fn spec_triggers(&self, bot_id: u64) -> Seq<Trigger> {
        let direct = if self.fires(bot_id, Trigger::DirectMessage) {
            seq![Trigger::DirectMessage]
        } else {
            Seq::<Trigger>::empty()
        };
        let mention = if self.fires(bot_id, Trigger::Mention) {
            seq![Trigger::Mention]
        } else {
            Seq::<Trigger>::empty()
        };
        direct + mention
    }

    /// The step at `position` of the message's handling: the reason at that
    /// place among `spec_triggers`, and the end behind the last of them.
    pub open spec fn step_at(&self, bot_id: u64, position: int) -> Step {
        if 0 <= position < self.spec_triggers(bot_id).len() {
            Step::Handle(self.spec_triggers(bot_id)[position])
        } else {
            Step::Finished
        }
    }

    /// The step that a message starts with.
    pub open spec fn spec_first_step(&self, bot_id: u64) -> Step {
        self.step_at(bot_id, 0)
    }

    /// The step that follows the answer made for `handled`, whose posting
    /// ended as `delivery`: a reply that the transport refused ends the
    /// handling of the message; otherwise the reasons behind `handled` follow.
    pub open spec fn spec_next_step(
        &self,
        bot_id: u64,
        handled: Trigger,
        delivery: Delivery,
    ) -> Step {
        if delivery is Failed {
            Step::Finished
        } else if handled is DirectMessage && self.fires(bot_id, Trigger::Mention) {
            Step::Handle(Trigger::Mention)
        } else {
            Step::Finished
        }
    }

    /// Whether `id` is among the recipients that the message addresses.
    pub fn mentions_user(&self, id: u64) -> (mentioned: bool)
        ensures
            mentioned == self.mentions@.contains(id),
    {
        let mut at: usize = 0;
        while at < self.mentions.len()
            invariant
                at <= self.mentions.len(),
                forall|i: int| 0 <= i < at ==> self.mentions@[i] != id,
            decreases self.mentions.len() - at,
        {
            if self.mentions[at] == id {
                return true;
            }
            at += 1;
        }
        false
    }

    /// The reasons for which the bot whose identity is `bot_id` answers the
    /// message, in order.
    pub fn triggers(&self, bot_id: u64) -> (triggers: Vec<Trigger>)
        ensures
            triggers@ == self.spec_triggers(bot_id),
    {
        let mut triggers: Vec<Trigger> = Vec::new();
        if !self.author_is_bot {
            if self.is_direct {
                triggers.push(Trigger::DirectMessage);
            }
            if self.mentions_user(bot_id) {
                triggers.push(Trigger::Mention);
            }
        }
        assert(triggers@ =~= self.spec_triggers(bot_id));
        triggers
    }

    /// What to do when the message arrives.
    pub fn first_step(&self, bot_id: u64) -> (step: Step)
        ensures
            step == self.spec_first_step(bot_id),
    {
        if self.author_is_bot {
            Step::Finished
        } else if self.is_direct {
            Step::Handle(Trigger::DirectMessage)
        } else if self.mentions_user(bot_id) {
            Step::Handle(Trigger::Mention)
        } else {
            Step::Finished
        }
    }

    /// What to do once the answer for `handled` was made and the attempt to
    /// post it ended as `delivery`.
    pub fn next_step(&self, bot_id: u64, handled: Trigger, delivery: Delivery) -> (step: Step)
        ensures
            step == self.spec_next_step(bot_id, handled, delivery),
    {
        match delivery {
            Delivery::Failed => Step::Finished,
            _ => match handled {
                Trigger::DirectMessage => if !self.author_is_bot && self.mentions_user(bot_id) {
                    Step::Handle(Trigger::Mention)
                } else {
                    Step::Finished
                },
                Trigger::Mention => Step::Finished,
            },
        }
    }
}

/// A message of a bot account is never answered, whether it is direct,
/// mentions the bot, or both.
pub proof fn lemma_bot_is_never_answered(message: InboundMessage, bot_id: u64)
    requires
        message.author_is_bot,
    ensures
        message.spec_triggers(bot_id) == Seq::<Trigger>::empty(),
        message.spec_first_step(bot_id) == Step::Finished,
        forall|handled: Trigger, delivery: Delivery|
            message.spec_next_step(bot_id, handled, delivery) == Step::Finished,
{
}

/// A direct message of a user that also mentions the bot is answered twice,
/// first as a direct message and then as a mention, unless the transport
/// refuses the first reply.
pub proof fn lemma_direct_mention_is_answered_twice(
    message: InboundMessage,
    bot_id: u64,
    delivery: Delivery,
)
    requires
        !message.author_is_bot,
        message.is_direct,
        message.mentions@.contains(bot_id),
    ensures
        message.spec_triggers(bot_id) == seq![Trigger::DirectMessage, Trigger::Mention],
        message.spec_first_step(bot_id) == Step::Handle(Trigger::DirectMessage),
        !(delivery is Failed) ==> message.spec_next_step(bot_id, Trigger::DirectMessage, delivery)
            == Step::Handle(Trigger::Mention),
        delivery is Failed ==> message.spec_next_step(bot_id, Trigger::DirectMessage, delivery)
            == Step::Finished,
        message.spec_next_step(bot_id, Trigger::Mention, delivery) == Step::Finished,
{
    assert(message.spec_triggers(bot_id) =~= seq![Trigger::DirectMessage, Trigger::Mention]);
}

/// The steps walk through the reasons in order: as long as no reply is
/// refused, the step behind the reason at one place is the step at the next
/// place, and a refused reply ends the walk at once.
pub proof fn lemma_steps_follow_triggers(
    message: InboundMessage,
    bot_id: u64,
    position: int,
    delivery: Delivery,
)
    requires
        0 <= position < message.spec_triggers(bot_id).len(),
    ensures
        message.spec_triggers(bot_id).len() <= 2,
        delivery is Failed ==> message.spec_next_step(
            bot_id,
            message.spec_triggers(bot_id)[position],
            delivery,
        ) == Step::Finished,
        !(delivery is Failed) ==> message.spec_next_step(
            bot_id,
            message.spec_triggers(bot_id)[position],
            delivery,
        ) == message.step_at(bot_id, position + 1),
{
}

} // verus!
