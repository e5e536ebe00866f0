//! The conversation model: messages with a role, and the committed
//! conversation history that grows only after a successful round trip.

use vstd::prelude::*;

verus! {

/// Who a message is from.
#[derive(Clone, Copy, Debug, PartialEq, Eq, Structural)]
pub enum Role {
    System,
    User,
    Assistant,
}

/// One immutable conversation entry.
#[derive(Debug)]
pub struct Message {
    pub role: Role,
    pub content: String,
}

/// The mathematical value of a [`Message`].
#[verifier::ext_equal]
pub struct MessageView {
    pub role: Role,
    pub content: Seq<char>,
}

impl View for Message {
    type V = MessageView;

    open spec fn view(&self) -> MessageView {
        MessageView { role: self.role, content: self.content@ }
    }
}

pub open spec fn system_msg(content: Seq<char>) -> MessageView {
    MessageView { role: Role::System, content: content }
}

pub open spec fn user_msg(content: Seq<char>) -> MessageView {
    MessageView { role: Role::User, content: content }
}

pub open spec fn assistant_msg(content: Seq<char>) -> MessageView {
    MessageView { role: Role::Assistant, content: content }
}

/// A well-formed conversation: one system message first, then user and
/// assistant messages strictly alternating, user first.
pub open spec fn wf_conversation(s: Seq<MessageView>) -> bool {
    &&& s.len() >= 1
    &&& s[0].role == Role::System
    &&& forall|i: int|
        1 <= i < s.len() ==> s[i].role == (if i % 2 == 1 {
            Role::User
        } else {
            Role::Assistant
        })
}

/// A committed conversation additionally holds complete turns only, so
/// it never ends on an unanswered user message.
pub open spec fn is_committed(s: Seq<MessageView>) -> bool {
    wf_conversation(s) && s.len() % 2 == 1
}

/// What one round trip with the provider came to.
pub enum TurnOutcome {
    /// The provider answered with the assistant's text.
    Reply(String),
    /// The provider returned a payload without the expected shape.
    ProviderError,
    /// The request itself failed (network, non-JSON body).
    TransportError,
}

/// The committed conversation history.
pub struct Conversation {
    msgs: Vec<Message>,
}

impl View for Conversation {
    type V = Seq<MessageView>;

    closed spec fn view(&self) -> Seq<MessageView> {
        Seq::new(self.msgs@.len(), |i: int| self.msgs@[i]@)
    }
}

impl Conversation {
    /// A fresh conversation holding only the system message.
    pub fn new(system_content: String) -> (r: Conversation)
        ensures
            r@ =~= seq![system_msg(system_content@)],
            is_committed(r@),
    {
        let c = Conversation { msgs: vec![Message { role: Role::System, content: system_content }] };
        proof {
            assert(c@ =~= seq![system_msg(system_content@)]);
        }
        c
    }

    /// The number of messages.
    pub fn len(&self) -> (n: usize)
        ensures
            n == self@.len(),
    {
        self.msgs.len()
    }

    /// The message at position `i`.
    pub fn message_at(&self, i: usize) -> (m: &Message)
        requires
            i < self@.len(),
        ensures
            m@ == self@[i as int],
    {
        &self.msgs[i]
    }

    /// The committed conversation after one turn: a successful round
    /// trip appends the user prompt and the assistant's reply, in that
    /// order; a failed one leaves the history exactly as it was.
    pub fn after_turn(self, prompt: String, outcome: TurnOutcome) -> (r: Conversation)
        requires
            is_committed(self@),
        ensures
            outcome matches TurnOutcome::Reply(reply) ==> r@ =~= self@.push(
                user_msg(prompt@),
            ).push(assistant_msg(reply@)),
            !(outcome is Reply) ==> r == self,
            is_committed(r@),
    {
        match outcome {
            TurnOutcome::Reply(reply) => {
                let ghost before = self@;
                let mut c = self;
                c.msgs.push(Message { role: Role::User, content: prompt });
                c.msgs.push(Message { role: Role::Assistant, content: reply });
                proof {
                    assert(c@ =~= before.push(user_msg(prompt@)).push(assistant_msg(reply@)));
                    assert forall|i: int| 1 <= i < c@.len() implies c@[i].role == (if i % 2 == 1 {
                        Role::User
                    } else {
                        Role::Assistant
                    }) by {
                        if i < before.len() {
                            assert(c@[i] == before[i]);
                        }
                    }
                }
                c
            },
            TurnOutcome::ProviderError => self,
            TurnOutcome::TransportError => self,
        }
    }
}

/// The conversation a session has committed after a sequence of
/// successful turns, each a user prompt paired with the assistant's
/// reply.
pub open spec fn session_after(sys: Seq<char>, turns: Seq<(Seq<char>, Seq<char>)>) -> Seq<
    MessageView,
>
    decreases turns.len(),
{
    if turns.len() == 0 {
        seq![system_msg(sys)]
    } else {
        session_after(sys, turns.drop_last()).push(user_msg(turns.last().0)).push(
            assistant_msg(turns.last().1),
        )
    }
}

/// One more successful turn extends the session by exactly the user
/// prompt and the assistant's reply, as [`Conversation::after_turn`]
/// commits them.
pub proof fn lemma_session_step(
    sys: Seq<char>,
    turns: Seq<(Seq<char>, Seq<char>)>,
    prompt: Seq<char>,
    reply: Seq<char>,
)
    ensures
        session_after(sys, turns.push((prompt, reply))) == session_after(sys, turns).push(
            user_msg(prompt),
        ).push(assistant_msg(reply)),
{
    let extended = turns.push((prompt, reply));
    assert(extended.drop_last() =~= turns);
    assert(extended.last() == (prompt, reply));
}

/// After any sequence of N successful turns the committed conversation
/// has exactly 2N + 1 messages: the system message first, then the
/// prompts and replies alternating in call order.
pub proof fn lemma_session_shape(sys: Seq<char>, turns: Seq<(Seq<char>, Seq<char>)>)
    ensures
        session_after(sys, turns).len() == 1 + 2 * turns.len(),
        session_after(sys, turns)[0] == system_msg(sys),
        is_committed(session_after(sys, turns)),
        forall|i: int|
            0 <= i < turns.len() ==> session_after(sys, turns)[1 + 2 * i] == user_msg(turns[i].0)
                && session_after(sys, turns)[2 + 2 * i] == assistant_msg(turns[i].1),
    decreases turns.len(),
{
    if turns.len() == 0 {
    } else {
        let prev = session_after(sys, turns.drop_last());
        let cur = session_after(sys, turns);
        lemma_session_shape(sys, turns.drop_last());
        assert forall|i: int| 1 <= i < cur.len() implies cur[i].role == (if i % 2 == 1 {
            Role::User
        } else {
            Role::Assistant
        }) by {
            if i < prev.len() {
                assert(cur[i] == prev[i]);
            }
        }
        assert forall|i: int|
            0 <= i < turns.len() implies cur[1 + 2 * i] == user_msg(turns[i].0) && cur[2 + 2 * i]
            == assistant_msg(turns[i].1) by {
            if i < turns.len() - 1 {
                assert(turns.drop_last()[i] == turns[i]);
                assert(cur[1 + 2 * i] == prev[1 + 2 * i]);
                assert(cur[2 + 2 * i] == prev[2 + 2 * i]);
            }
        }
    }
}

} // verus!
