//! The chat window's state: the draft being typed and the history of
//! responses, with the two events that change them.

use vstd::prelude::*;
use crate::response::{echo_spec, generate_echo, join_context, join_spec, texts, ChatError};
use crate::store::{recent_spec, HistoryStore};

verus! {

/// How many recent responses are handed to a generator as context.
pub const CONTEXT_WINDOW: usize = 3;

/// The events that the window reacts to.
#[derive(Debug)]
pub enum Message {
    /// The send button was pressed.
    SendPressed,
    /// The text in the entry field changed to the given value.
    InputChanged(String),
}

/// What a session holds, as values.
pub struct SessionModel {
    pub draft: Seq<char>,
    pub history: Seq<Seq<char>>,
}

/// A fresh session: empty draft, empty history.
pub open spec fn initial_model() -> SessionModel {
    SessionModel { draft: Seq::empty(), history: Seq::empty() }
}

/// A send answered by the echo generator: the response is appended and the
/// draft cleared.
pub open spec fn send_step(s: SessionModel) -> SessionModel {
    SessionModel { draft: Seq::empty(), history: s.history.push(echo_spec(s.draft)) }
}

/// The session after one event.
pub open spec fn step(s: SessionModel, m: Message) -> SessionModel {
    match m {
        Message::SendPressed => send_step(s),
        Message::InputChanged(v) => SessionModel { draft: v@, history: s.history },
    }
}

/// The session after a sequence of events, taken in order.
pub open spec fn run(s: SessionModel, msgs: Seq<Message>) -> SessionModel
    decreases msgs.len(),
{
    if msgs.len() == 0 {
        s
    } else {
        step(run(s, msgs.drop_last()), msgs.last())
    }
}

/// The number of sends among the events.
pub open spec fn count_sends(msgs: Seq<Message>) -> nat
    decreases msgs.len(),
{
    if msgs.len() == 0 {
        0
    } else {
        count_sends(msgs.drop_last()) + if msgs.last() is SendPressed { 1nat } else { 0nat }
    }
}

/// The events of typing each of the texts in turn.
pub open spec fn edits(texts: Seq<String>) -> Seq<Message> {
    texts.map_values(|t: String| Message::InputChanged(t))
}

/// A chat session: the draft being typed and the responses so far.
pub struct ChatApp {
    message_input_value: String,
    response_history: HistoryStore,
}

impl View for ChatApp {
    type V = SessionModel;

    closed spec fn view(&self) -> SessionModel {
        SessionModel { draft: self.message_input_value@, history: self.response_history@ }
    }
}

impl ChatApp {
    /// A session with an empty draft and no responses.
    pub fn new() -> (r: Self)
        ensures
            r@ == initial_model(),
    {
        let r = ChatApp { message_input_value: String::new(), response_history: HistoryStore::new() };
        assert(r@.draft =~= initial_model().draft);
        r
    }

    /// The window's title.
    pub fn title(&self) -> (r: String)
        ensures
            r@ == "ChatApp - Rust with AI"@,
    {
        String::from_str("ChatApp - Rust with AI")
    }

    /// The draft as it stands.
    pub fn draft(&self) -> (r: &str)
        ensures
            r@ == self@.draft,
    {
        self.message_input_value.as_str()
    }

    /// The responses so far, oldest first.
    pub fn history(&self) -> (r: &Vec<String>)
        ensures
            texts(r@) == self@.history,
    {
        self.response_history.rows()
    }

    /// The `n` most recent responses, most recent first.
    pub fn read_recent(&self, n: usize) -> (r: Vec<String>)
        ensures
            texts(r@) == recent_spec(self@.history, n as nat),
    {
        self.response_history.read_recent(n)
    }

    /// The context handed to a generator: the most recent responses, most
    /// recent first, joined by spaces.
    pub fn context_window(&self) -> (r: String)
        ensures
            r@ == join_spec(recent_spec(self@.history, CONTEXT_WINDOW as nat)),
    {
        let recent = self.response_history.read_recent(CONTEXT_WINDOW);
        join_context(&recent)
    }

    /// Replaces the draft with the new text, verbatim.
    pub fn on_draft_changed(&mut self, new_text: String)
        ensures
            final(self)@.draft == new_text@,
            final(self)@.history == old(self)@.history,
    {
        self.message_input_value = new_text;
    }

    /// Sends the draft to the echo generator: its response is appended to
    /// the history and returned, and the draft is cleared.
    pub fn on_send(&mut self) -> (r: String)
        ensures
            r@ == echo_spec(old(self)@.draft),
            final(self)@ == send_step(old(self)@),
    {
        let response = generate_echo(self.message_input_value.as_str());
        self.response_history.append(response.clone());
        self.message_input_value = String::new();
        response
    }

    /// Completes a send whose response came from another generator. On a
    /// response, it is appended to the history and handed back; on a failure
    /// the history stays as it was and the failure is handed back. The draft
    /// is cleared either way.
    pub fn on_send_generated(
        &mut self,
        outcome: Result<String, ChatError>,
    ) -> (r: Result<String, ChatError>)
        ensures
            final(self)@.draft == Seq::<char>::empty(),
            match outcome {
                Ok(text) => {
                    &&& r is Ok
                    &&& r->Ok_0@ == text@
                    &&& final(self)@.history == old(self)@.history.push(text@)
                },
                Err(e) => {
                    &&& r == Err::<String, ChatError>(e)
                    &&& final(self)@.history == old(self)@.history
                },
            },
    {
        self.message_input_value = String::new();
        match outcome {
            Ok(text) => {
                self.response_history.append(text.clone());
                Ok(text)
            },
            Err(e) => Err(e),
        }
    }

    /// Reacts to one event. A send hands back the response that was
    /// appended, for the caller to persist; an edit hands back nothing.
    pub fn update(&mut self, message: Message) -> (r: Option<String>)
        ensures
            final(self)@ == step(old(self)@, message),
            match message {
                Message::SendPressed => r is Some && r->Some_0@ == echo_spec(old(self)@.draft),
                Message::InputChanged(_) => r is None,
            },
    {
        match message {
            Message::SendPressed => Some(self.on_send()),
            Message::InputChanged(value) => {
                self.on_draft_changed(value);
                None
            },
        }
    }
}

/// After any non-empty sequence of edits, the draft is the last text typed,
/// and the history is as it was.
pub proof fn lemma_draft_is_last_edit(s: SessionModel, typed: Seq<String>)
    requires
        typed.len() > 0,
    ensures
        run(s, edits(typed)).draft == typed.last()@,
        run(s, edits(typed)).history == s.history,
{
    lemma_edits_keep_history(s, typed);
    assert(edits(typed).drop_last() =~= edits(typed.drop_last()));
}

proof fn lemma_edits_keep_history(s: SessionModel, typed: Seq<String>)
    ensures
        run(s, edits(typed)).history == s.history,
    decreases typed.len(),
{
    if typed.len() > 0 {
        assert(edits(typed).drop_last() =~= edits(typed.drop_last()));
        lemma_edits_keep_history(s, typed.drop_last());
    }
}

/// Over any sequence of events, the history grows by one response per send
/// and loses nothing: what it held before stays at its front.
pub proof fn lemma_history_counts_sends(s: SessionModel, msgs: Seq<Message>)
    ensures
        run(s, msgs).history.len() == s.history.len() + count_sends(msgs),
        run(s, msgs).history.subrange(0, s.history.len() as int) == s.history,
    decreases msgs.len(),
{
    if msgs.len() > 0 {
        lemma_history_counts_sends(s, msgs.drop_last());
        let before = run(s, msgs.drop_last()).history;
        let after = run(s, msgs).history;
        assert(after.subrange(0, s.history.len() as int) =~= before.subrange(
            0,
            s.history.len() as int,
        ));
    } else {
        assert(s.history.subrange(0, s.history.len() as int) =~= s.history);
    }
}

/// A fresh session that has been sent to `n` times holds exactly `n`
/// responses.
pub proof fn lemma_fresh_session_history_len(msgs: Seq<Message>)
    ensures
        run(initial_model(), msgs).history.len() == count_sends(msgs),
{
    lemma_history_counts_sends(initial_model(), msgs);
}

} // verus!
