use vstd::prelude::*;

use std::collections::HashMap;

use crate::llm_context::{
    lemma_run_concat, role_name, str_eq, ActionView, role_of_name, run, step, updates_view, ContextView,
    LlmContextUpdateMessage, LoadingState, Message, MessageView, Role, RoleView, UpdateView,
};

verus! {

/// A store of conversation messages.
pub trait LlmContextManager: Sized {
    /// The store with one more message, last.
    fn add_message(self, msg: Message) -> Self;

    /// Forgets every message.
    fn clear(&mut self);
}

/// A message as the chat endpoint takes it.
#[derive(Debug, PartialEq, Eq)]
pub struct OutgoingMessage {
    /// system, user, assistant, tool
    pub role: String,
    pub content: String,
}

impl View for OutgoingMessage {
    type V = (Seq<char>, Seq<char>);

    open spec fn view(&self) -> (Seq<char>, Seq<char>) {
        (self.role@, self.content@)
    }
}

/// A message of the conversation as it is sent: its role's name and its
/// content, without its reasoning.
pub open spec fn outgoing_of(m: MessageView) -> (Seq<char>, Seq<char>) {
    (role_name(m.role), m.content)
}

/// Every message of a conversation as it is sent, in order.
pub open spec fn outgoing_spec(conversation: Seq<MessageView>) -> Seq<(Seq<char>, Seq<char>)> {
    conversation.map_values(|m: MessageView| outgoing_of(m))
}

/// The messages of a conversation as the chat endpoint takes them, in order.
pub fn outgoing_messages(conversation: &Vec<Message>) -> (r: Vec<OutgoingMessage>)
    ensures
        r@.map_values(|o: OutgoingMessage| o@) == outgoing_spec(
            conversation@.map_values(|m: Message| m@),
        ),
{
    let mut r: Vec<OutgoingMessage> = Vec::new();
    let n = conversation.len();
    for i in 0..n
        invariant
            n == conversation@.len(),
            r@.len() == i,
            forall|j: int|
                0 <= j < i ==> #[trigger] r@[j]@ == outgoing_of(conversation@[j]@),
    {
        let m = &conversation[i];
        r.push(OutgoingMessage { role: m.role.to_string(), content: m.content.clone() });
    }
    assert(r@.map_values(|o: OutgoingMessage| o@) =~= outgoing_spec(
        conversation@.map_values(|m: Message| m@),
    ));
    r
}

/// A request to the chat endpoint: the model to answer and the conversation
/// so far.
#[derive(Debug, PartialEq, Eq)]
pub struct OllamaStreamingRequest {
    pub model: String,
    pub messages: Vec<OutgoingMessage>,
}

/// The request that asks `model` to answer these messages.
pub fn streaming_request(model: &str, messages: Vec<OutgoingMessage>) -> (r: OllamaStreamingRequest)
    ensures
        r.model@ == model@,
        r.messages == messages,
{
    OllamaStreamingRequest { model: model.to_owned(), messages }
}

/// The request that the reply stream makes: these messages, answered by
/// `deepseek-r1`.
pub fn call_api_request(messages: Vec<OutgoingMessage>) -> (r: OllamaStreamingRequest)
    ensures
        r.model@ == "deepseek-r1"@,
        r.messages == messages,
{
    streaming_request("deepseek-r1", messages)
}

/// The request that the shared-context stream makes: these messages,
/// answered by `gemma3`.
pub fn call_api_with_mux_request(messages: Vec<OutgoingMessage>) -> (r: OllamaStreamingRequest)
    ensures
        r.model@ == "gemma3"@,
        r.messages == messages,
{
    streaming_request("gemma3", messages)
}

/// One chunk of a streamed reply.
#[derive(Debug, PartialEq, Eq)]
pub struct OllamaStreamingResponse {
    pub model: String,
    pub created_at: String,
    pub message: OllamaMessage,
    pub done: bool,
    pub done_reason: Option<String>,
    pub total_duration: Option<i64>,
    pub load_duration: Option<i64>,
    pub prompt_eval_count: Option<i64>,
    pub prompt_eval_duration: Option<i64>,
    pub eval_count: Option<i64>,
    pub eval_duration: Option<i64>,
    pub logprobs: Option<Vec<Logprob>>,
}

/// The likelihood of one token of a reply.
#[derive(Debug, PartialEq, Eq)]
pub struct Logprob {
    pub token: Option<String>,
    pub logprob: Option<i64>,
    pub bytes: Option<Vec<i64>>,
    pub top_logprobs: Option<Vec<Logprob>>,
}

/// The message part of a chunk of a streamed reply.
#[derive(Debug, PartialEq, Eq)]
pub struct OllamaMessage {
    pub role: String,
    pub content: String,
    pub thinking: Option<String>,
    pub tool_calls: Option<Vec<ToolCall>>,
    pub images: Option<Vec<String>>,
}

/// A tool that the model asks to be called.
#[derive(Debug, PartialEq, Eq)]
pub struct ToolCall {
    pub function: ModelFunction,
}

/// The function of a tool call, with its arguments by name.
#[derive(Debug, PartialEq, Eq)]
pub struct ModelFunction {
    pub name: String,
    pub description: String,
    pub arguments: HashMap<String, String>,
}

/// The arguments of a tool call.
#[derive(Debug, PartialEq, Eq)]
pub struct Arguments {}

/// The requests that a chunk of reply text makes: the marker that opens the
/// model's reasoning switches the loading area to `Thinking`, the marker that
/// closes it switches it back to `Streaming`, and every chunk, markers too,
/// is appended to the reply.
pub open spec fn chunk_updates_spec(content: Seq<char>) -> Seq<UpdateView> {
    if content == "<think>"@ {
        seq![
            UpdateView::UpdateLoadingState(LoadingState::Thinking),
            UpdateView::AppendToCurrentMessage(content),
        ]
    } else if content == "</think>"@ {
        seq![
            UpdateView::UpdateLoadingState(LoadingState::Streaming),
            UpdateView::AppendToCurrentMessage(content),
        ]
    } else {
        seq![UpdateView::AppendToCurrentMessage(content)]
    }
}

/// What is collected from the chunks of a streamed reply: its text so far,
/// and the role that the last chunk gave.
pub struct StreamAssembler {
    content: String,
    role: Option<String>,
}

impl View for StreamAssembler {
    type V = (Seq<char>, Option<Seq<char>>);

    closed spec fn view(&self) -> (Seq<char>, Option<Seq<char>>) {
        (
            self.content@,
            match self.role {
                Some(r) => Some(r@),
                None => None,
            },
        )
    }
}

/// The role that ends a streamed reply: the one its last chunk gave, or
/// `assistant` when no chunk was read.
pub open spec fn reply_role(role: Option<Seq<char>>) -> Seq<char> {
    match role {
        Some(r) => r,
        None => "assistant"@,
    }
}

impl StreamAssembler {
    /// Nothing collected yet.
    pub fn new() -> (r: Self)
        ensures
            r@ == (Seq::<char>::empty(), None::<Seq<char>>),
    {
        StreamAssembler { content: String::new(), role: None }
    }

    /// The reply text collected so far.
    pub fn content(&self) -> (r: &str)
        ensures
            r@ == self@.0,
    {
        self.content.as_str()
    }

    /// Takes in one chunk: collects its text and role, and gives the
    /// requests that the chunk makes of the conversation.
    pub fn on_response(&mut self, resp: OllamaStreamingResponse) -> (r: Vec<LlmContextUpdateMessage>)
        ensures
            final(self)@ == (old(self)@.0 + resp.message.content@, Some(resp.message.role@)),
            updates_view(r@) == chunk_updates_spec(resp.message.content@),
    {
        let content = resp.message.content;
        self.content.append(content.as_str());
        self.role = Some(resp.message.role);
        let mut r: Vec<LlmContextUpdateMessage> = Vec::new();
        if str_eq(content.as_str(), "<think>") {
            r.push(LlmContextUpdateMessage::UpdateLoadingState(LoadingState::Thinking));
        } else if str_eq(content.as_str(), "</think>") {
            r.push(LlmContextUpdateMessage::UpdateLoadingState(LoadingState::Streaming));
        }
        r.push(LlmContextUpdateMessage::AppendToCurrentMessage(content));
        assert(updates_view(r@) =~= chunk_updates_spec(content@));
        r
    }

    /// The request that ends the reply, under the role of its last chunk.
    pub fn end_update(&self) -> (r: LlmContextUpdateMessage)
        ensures
            r@ == UpdateView::CurrentMessageEnd(role_of_name(reply_role(self@.1))),
    {
        match &self.role {
            Some(role) => LlmContextUpdateMessage::CurrentMessageEnd(Role::from_name(role.as_str())),
            None => LlmContextUpdateMessage::CurrentMessageEnd(Role::from_name("assistant")),
        }
    }

    /// The whole reply as a message of the system, without reasoning.
    pub fn into_system_message(self) -> (m: Message)
        ensures
            m@ == (MessageView { role: RoleView::System, content: self@.0, thought: None }),
    {
        Message::new(Role::System, self.content, None)
    }
}

/// The requests that a whole streamed reply makes, chunk by chunk.
pub open spec fn stream_updates(contents: Seq<Seq<char>>) -> Seq<UpdateView> {
    contents.map_values(|t: Seq<char>| chunk_updates_spec(t)).flatten()
}

/// The requests of one chunk append its text to the reply being received
/// and change nothing else of the conversation.
pub proof fn lemma_chunk_appends_its_text(c: ContextView, content: Seq<char>)
    ensures
        run(c, chunk_updates_spec(content)) == (ContextView {
            current_message: c.current_message + content,
            ..c
        }),
{
    reveal_with_fuel(run, 3);
    let us = chunk_updates_spec(content);
    if us.len() == 2 {
        assert(us.subrange(1, 2) =~= seq![us[1]]);
        assert(seq![us[1]].subrange(1, 1) =~= Seq::<UpdateView>::empty());
    } else {
        assert(us.subrange(1, 1) =~= Seq::<UpdateView>::empty());
    }
}

/// The text of a streamed reply reaches the conversation whole and in
/// order: the requests of all its chunks leave the reply being received
/// extended by every chunk's text, markers included, and change nothing else.
pub proof fn lemma_stream_accumulates(c: ContextView, contents: Seq<Seq<char>>)
    ensures
        run(c, stream_updates(contents)) == (ContextView {
            current_message: c.current_message + contents.flatten(),
            ..c
        }),
    decreases contents.len(),
{
    let per = contents.map_values(|t: Seq<char>| chunk_updates_spec(t));
    if contents.len() == 0 {
        assert(per.flatten() =~= Seq::<UpdateView>::empty());
        assert(c.current_message + contents.flatten() =~= c.current_message);
    } else {
        let rest = contents.drop_first();
        assert(per.drop_first() =~= rest.map_values(|t: Seq<char>| chunk_updates_spec(t)));
        assert(per.flatten() == per.first() + per.drop_first().flatten());
        lemma_run_concat(c, chunk_updates_spec(contents[0]), stream_updates(rest));
        lemma_chunk_appends_its_text(c, contents[0]);
        let c1 = ContextView { current_message: c.current_message + contents[0], ..c };
        lemma_stream_accumulates(c1, rest);
        assert(c.current_message + contents.flatten() =~= c1.current_message + rest.flatten());
    }
}

/// A streamed reply ends up in the conversation whole: after the requests
/// of all its chunks and the request that ends it, the conversation holds one
/// more message, of the ending role, whose content is the reply received
/// before plus the text of every chunk in order; the reply and reasoning
/// being received are empty again.
pub proof fn lemma_streamed_reply_is_recorded(c: ContextView, contents: Seq<Seq<char>>, r: RoleView)
    ensures
        run(c, stream_updates(contents).push(UpdateView::CurrentMessageEnd(r))) == (ContextView {
            conversation: c.conversation.push(
                MessageView {
                    role: r,
                    content: c.current_message + contents.flatten(),
                    thought: Some(c.current_thought),
                },
            ),
            current_message: Seq::empty(),
            current_thought: Seq::empty(),
        }),
{
    let end = seq![UpdateView::CurrentMessageEnd(r)];
    assert(stream_updates(contents).push(UpdateView::CurrentMessageEnd(r)) =~= stream_updates(
        contents,
    ) + end);
    lemma_run_concat(c, stream_updates(contents), end);
    lemma_stream_accumulates(c, contents);
    let c1 = run(c, stream_updates(contents));
    assert(end.subrange(1, 1) =~= Seq::<UpdateView>::empty());
    assert(run(c1, end) == step(c1, end[0]).0) by {
        reveal_with_fuel(run, 2);
    }
}

/// What an assembler holds after taking in chunks of these texts and roles,
/// in order.
pub open spec fn assembled(
    a: (Seq<char>, Option<Seq<char>>),
    chunks: Seq<(Seq<char>, Seq<char>)>,
) -> (Seq<char>, Option<Seq<char>>)
    decreases chunks.len(),
{
    if chunks.len() == 0 {
        a
    } else {
        assembled((a.0 + chunks[0].1, Some(chunks[0].0)), chunks.drop_first())
    }
}

/// An assembler collects the whole reply: after any chunks, in order, it
/// holds the text it started with plus every chunk's text, and the role of
/// the last chunk.
pub proof fn lemma_assembler_collects_reply(
    a: (Seq<char>, Option<Seq<char>>),
    chunks: Seq<(Seq<char>, Seq<char>)>,
)
    requires
        chunks.len() > 0,
    ensures
        assembled(a, chunks) == (
            a.0 + chunks.map_values(|c: (Seq<char>, Seq<char>)| c.1).flatten(),
            Some(chunks.last().0),
        ),
    decreases chunks.len(),
{
    let texts = chunks.map_values(|c: (Seq<char>, Seq<char>)| c.1);
    let rest = chunks.drop_first();
    assert(texts.drop_first() =~= rest.map_values(|c: (Seq<char>, Seq<char>)| c.1));
    let a1 = (a.0 + chunks[0].1, Some(chunks[0].0));
    if chunks.len() == 1 {
        assert(texts.drop_first() =~= Seq::<Seq<char>>::empty());
        assert(texts.drop_first().flatten() =~= Seq::<char>::empty());
        assert(a.0 + texts.flatten() =~= a1.0);
        assert(assembled(a1, rest) == a1);
    } else {
        lemma_assembler_collects_reply(a1, rest);
        assert(rest.last() == chunks.last());
        assert(a.0 + texts.flatten() =~= a1.0 + rest.map_values(
            |c: (Seq<char>, Seq<char>)| c.1,
        ).flatten());
    }
}

/// What happens while a reply is streamed from the chat endpoint.
#[derive(Debug, PartialEq, Eq)]
pub enum StreamEvent {
    /// The stream starts: the model is about to be called.
    Start,
    /// The call failed, with this error text.
    CallFailed(String),
    /// The call returned; the reply follows chunk by chunk.
    CallSucceeded,
    /// A chunk of the reply was read.
    Chunk(OllamaStreamingResponse),
    /// A chunk could not be read: whether it merely ended early, and the
    /// report of what went wrong.
    ChunkFailed { is_eof: bool, report: String },
    /// The reply has no more chunks.
    End,
}

/// The mathematical value of a `StreamEvent`; a chunk is seen as its role
/// and its text.
pub enum EventView {
    Start,
    CallFailed(Seq<char>),
    CallSucceeded,
    Chunk(Seq<char>, Seq<char>),
    ChunkFailed(bool, Seq<char>),
    End,
}

impl View for StreamEvent {
    type V = EventView;

    open spec fn view(&self) -> EventView {
        match self {
            StreamEvent::Start => EventView::Start,
            StreamEvent::CallFailed(e) => EventView::CallFailed(e@),
            StreamEvent::CallSucceeded => EventView::CallSucceeded,
            StreamEvent::Chunk(resp) => EventView::Chunk(resp.message.role@, resp.message.content@),
            StreamEvent::ChunkFailed { is_eof, report } => EventView::ChunkFailed(*is_eof, report@),
            StreamEvent::End => EventView::End,
        }
    }
}

/// What the stream does about an event.
#[derive(Debug, PartialEq, Eq)]
pub enum StreamStep {
    /// Put this request on the conversation's channel.
    Send(LlmContextUpdateMessage),
    /// Show this text in a dialog on the screen.
    Show(String),
}

/// The mathematical value of a `StreamStep`.
pub enum StepView {
    Send(UpdateView),
    Show(Seq<char>),
}

impl View for StreamStep {
    type V = StepView;

    open spec fn view(&self) -> StepView {
        match self {
            StreamStep::Send(u) => StepView::Send(u@),
            StreamStep::Show(t) => StepView::Show(t@),
        }
    }
}

/// The characters of each step of a list.
pub open spec fn steps_view(v: Seq<StreamStep>) -> Seq<StepView> {
    v.map_values(|s: StreamStep| s@)
}

/// Each request of a list, put on the channel.
pub open spec fn sends_of(us: Seq<UpdateView>) -> Seq<StepView> {
    us.map_values(|u: UpdateView| StepView::Send(u))
}

/// What the stream collects and does on one event:
/// - at the start, the loading area shows `Fetching`;
/// - when the call failed, the loading area shows `Streaming`, the error is
///   shown on the screen, and the loading area goes back to ready;
/// - when the call returned, the loading area shows `Streaming`;
/// - a chunk's text and role are collected and its requests are sent;
/// - a chunk that could not be read shows its report on the screen, unless it
///   merely ended early, and nothing is sent;
/// - at the end, the request that ends the reply is sent.
pub open spec fn session_step(
    a: (Seq<char>, Option<Seq<char>>),
    ev: EventView,
) -> ((Seq<char>, Option<Seq<char>>), Seq<StepView>) {
    match ev {
        EventView::Start => (
            a,
            seq![StepView::Send(UpdateView::UpdateLoadingState(LoadingState::Fetching))],
        ),
        EventView::CallFailed(e) => (
            a,
            seq![
                StepView::Send(UpdateView::UpdateLoadingState(LoadingState::Streaming)),
                StepView::Show(e),
                StepView::Send(UpdateView::UpdateLoadingState(LoadingState::Ready)),
            ],
        ),
        EventView::CallSucceeded => (
            a,
            seq![StepView::Send(UpdateView::UpdateLoadingState(LoadingState::Streaming))],
        ),
        EventView::Chunk(role, content) => (
            (a.0 + content, Some(role)),
            sends_of(chunk_updates_spec(content)),
        ),
        EventView::ChunkFailed(is_eof, report) => (
            a,
            if is_eof {
                Seq::empty()
            } else {
                seq![StepView::Show(report)]
            },
        ),
        EventView::End => (
            a,
            seq![StepView::Send(UpdateView::CurrentMessageEnd(role_of_name(reply_role(a.1))))],
        ),
    }
}

impl StreamAssembler {
    /// Handles one event of the stream: collects what a chunk brings, and
    /// says what to send on the conversation's channel and what to show on
    /// the screen, in order.
    pub fn on_event(&mut self, ev: StreamEvent) -> (r: Vec<StreamStep>)
        ensures
            (final(self)@, steps_view(r@)) == session_step(old(self)@, ev@),
    {
        let ghost ev_view = ev@;
        let mut r: Vec<StreamStep> = Vec::new();
        match ev {
            StreamEvent::Start => {
                r.push(StreamStep::Send(LlmContextUpdateMessage::UpdateLoadingState(LoadingState::Fetching)));
            },
            StreamEvent::CallFailed(e) => {
                r.push(StreamStep::Send(LlmContextUpdateMessage::UpdateLoadingState(LoadingState::Streaming)));
                r.push(StreamStep::Show(e));
                r.push(StreamStep::Send(LlmContextUpdateMessage::UpdateLoadingState(LoadingState::Ready)));
            },
            StreamEvent::CallSucceeded => {
                r.push(StreamStep::Send(LlmContextUpdateMessage::UpdateLoadingState(LoadingState::Streaming)));
            },
            StreamEvent::Chunk(resp) => {
                let mut us = self.on_response(resp);
                let ghost all = updates_view(us@);
                while us.len() > 0
                    invariant
                        steps_view(r@) + sends_of(updates_view(us@)) == sends_of(all),
                    decreases us.len(),
                {
                    let ghost before = us@;
                    let u = us.remove(0);
                    r.push(StreamStep::Send(u));
                    assert(sends_of(updates_view(before)) =~= seq![StepView::Send(u@)] + sends_of(
                        updates_view(us@),
                    ));
                    assert(steps_view(r@) =~= steps_view(r@.drop_last()) + seq![StepView::Send(u@)]);
                }
                assert(sends_of(updates_view(us@)) =~= Seq::<StepView>::empty());
                assert(steps_view(r@) =~= steps_view(r@) + sends_of(updates_view(us@)));
            },
            StreamEvent::ChunkFailed { is_eof, report } => {
                if !is_eof {
                    r.push(StreamStep::Show(report));
                }
            },
            StreamEvent::End => {
                r.push(StreamStep::Send(self.end_update()));
            },
        }
        assert(steps_view(r@) =~= session_step(old(self)@, ev_view).1);
        r
    }
}

/// What the stream collects and does over a list of events, in order.
pub open spec fn session_run(
    a: (Seq<char>, Option<Seq<char>>),
    evs: Seq<EventView>,
) -> ((Seq<char>, Option<Seq<char>>), Seq<StepView>)
    decreases evs.len(),
{
    if evs.len() == 0 {
        (a, Seq::empty())
    } else {
        let (a1, out) = session_step(a, evs[0]);
        let (a2, rest) = session_run(a1, evs.subrange(1, evs.len() as int));
        (a2, out + rest)
    }
}

/// The requests that a list of steps puts on the channel, in order.
pub open spec fn sends(steps: Seq<StepView>) -> Seq<UpdateView>
    decreases steps.len(),
{
    if steps.len() == 0 {
        Seq::empty()
    } else {
        (match steps[0] {
            StepView::Send(u) => seq![u],
            StepView::Show(_) => Seq::empty(),
        }) + sends(steps.subrange(1, steps.len() as int))
    }
}

/// The texts of the chunks that were read, in order.
pub open spec fn chunk_texts(evs: Seq<EventView>) -> Seq<Seq<char>>
    decreases evs.len(),
{
    if evs.len() == 0 {
        Seq::empty()
    } else {
        (match evs[0] {
            EventView::Chunk(_, c) => seq![c],
            _ => Seq::empty(),
        }) + chunk_texts(evs.subrange(1, evs.len() as int))
    }
}

/// An event of the reading of the reply: a chunk read, or one that could not
/// be read.
pub open spec fn is_chunk_event(ev: EventView) -> bool {
    ev is Chunk || ev is ChunkFailed
}

proof fn lemma_sends_concat(x: Seq<StepView>, y: Seq<StepView>)
    ensures
        sends(x + y) == sends(x) + sends(y),
    decreases x.len(),
{
    if x.len() == 0 {
        assert(x + y =~= y);
        assert(sends(x) + sends(y) =~= sends(y));
    } else {
        assert((x + y)[0] == x[0]);
        assert((x + y).subrange(1, (x + y).len() as int) =~= x.subrange(1, x.len() as int) + y);
        lemma_sends_concat(x.subrange(1, x.len() as int), y);
        let h = match x[0] {
            StepView::Send(u) => seq![u],
            StepView::Show(_) => Seq::<UpdateView>::empty(),
        };
        assert(h + (sends(x.subrange(1, x.len() as int)) + sends(y)) =~= (h + sends(
            x.subrange(1, x.len() as int),
        )) + sends(y));
    }
}

proof fn lemma_sends_of(us: Seq<UpdateView>)
    ensures
        sends(sends_of(us)) == us,
    decreases us.len(),
{
    if us.len() > 0 {
        assert(sends_of(us).subrange(1, us.len() as int) =~= sends_of(us.subrange(1, us.len() as int)));
        lemma_sends_of(us.subrange(1, us.len() as int));
        assert(seq![us[0]] + us.subrange(1, us.len() as int) =~= us);
    } else {
        assert(sends_of(us) =~= Seq::<StepView>::empty());
    }
}

/// Handling two lists of events one after the other is handling the joined
/// list: the state carries over and the steps follow each other.
pub proof fn lemma_session_run_concat(
    a: (Seq<char>, Option<Seq<char>>),
    e1: Seq<EventView>,
    e2: Seq<EventView>,
)
    ensures
        session_run(a, e1 + e2) == (
            session_run(session_run(a, e1).0, e2).0,
            session_run(a, e1).1 + session_run(session_run(a, e1).0, e2).1,
        ),
    decreases e1.len(),
{
    if e1.len() == 0 {
        assert(e1 + e2 =~= e2);
        assert(session_run(a, e1).1 + session_run(a, e2).1 =~= session_run(a, e2).1);
    } else {
        assert((e1 + e2)[0] == e1[0]);
        assert((e1 + e2).subrange(1, (e1 + e2).len() as int) =~= e1.subrange(1, e1.len() as int)
            + e2);
        let (a1, out) = session_step(a, e1[0]);
        lemma_session_run_concat(a1, e1.subrange(1, e1.len() as int), e2);
        let r1 = session_run(a1, e1.subrange(1, e1.len() as int));
        let r2 = session_run(r1.0, e2);
        assert(out + (r1.1 + r2.1) =~= (out + r1.1) + r2.1);
    }
}

proof fn lemma_stream_updates_cons(head: Seq<Seq<char>>, rest: Seq<Seq<char>>)
    requires
        head.len() <= 1,
    ensures
        stream_updates(head + rest) == (if head.len() == 1 {
            chunk_updates_spec(head[0])
        } else {
            Seq::empty()
        }) + stream_updates(rest),
{
    if head.len() == 0 {
        assert(head + rest =~= rest);
        assert(Seq::<UpdateView>::empty() + stream_updates(rest) =~= stream_updates(rest));
    } else {
        let per = (head + rest).map_values(|t: Seq<char>| chunk_updates_spec(t));
        assert(per.first() == chunk_updates_spec(head[0]));
        assert(per.drop_first() =~= rest.map_values(|t: Seq<char>| chunk_updates_spec(t)));
    }
}

/// While the reply is read, the channel gets exactly the requests of the
/// chunks that were read, in order; a chunk that could not be read sends
/// nothing.
pub proof fn lemma_reading_sends_chunk_requests(a: (Seq<char>, Option<Seq<char>>), mid: Seq<EventView>)
    requires
        forall|i: int| 0 <= i < mid.len() ==> is_chunk_event(#[trigger] mid[i]),
    ensures
        sends(session_run(a, mid).1) == stream_updates(chunk_texts(mid)),
    decreases mid.len(),
{
    if mid.len() == 0 {
        assert(stream_updates(Seq::<Seq<char>>::empty()) =~= Seq::<UpdateView>::empty());
    } else {
        let ev = mid[0];
        let rest = mid.subrange(1, mid.len() as int);
        assert(is_chunk_event(ev));
        let (a1, out) = session_step(a, ev);
        assert forall|i: int| 0 <= i < rest.len() implies is_chunk_event(#[trigger] rest[i]) by {
            assert(rest[i] == mid[i + 1]);
        }
        lemma_reading_sends_chunk_requests(a1, rest);
        lemma_sends_concat(out, session_run(a1, rest).1);
        let head = match ev {
            EventView::Chunk(_, c) => seq![c],
            _ => Seq::<Seq<char>>::empty(),
        };
        lemma_stream_updates_cons(head, chunk_texts(rest));
        match ev {
            EventView::Chunk(_, c) => {
                lemma_sends_of(chunk_updates_spec(c));
            },
            EventView::ChunkFailed(is_eof, report) => {
                if is_eof {
                    assert(sends(out) =~= Seq::<UpdateView>::empty());
                } else {
                    assert(out.subrange(1, 1) =~= Seq::<StepView>::empty());
                    assert(sends(out.subrange(1, 1)) =~= Seq::<UpdateView>::empty());
                    assert(sends(out) =~= Seq::<UpdateView>::empty());
                }
            },
            _ => {},
        }
    }
}

/// A failed call leaves the conversation as it was and the loading area
/// ready: the stream sends `Fetching`, `Streaming` and then the ready state,
/// nothing else, and shows the error on the screen, between the last two.
pub proof fn lemma_failed_stream(a: (Seq<char>, Option<Seq<char>>), e: Seq<char>, c: ContextView)
    ensures
        session_run(a, seq![EventView::Start, EventView::CallFailed(e)]) == (
            a,
            seq![
                StepView::Send(UpdateView::UpdateLoadingState(LoadingState::Fetching)),
                StepView::Send(UpdateView::UpdateLoadingState(LoadingState::Streaming)),
                StepView::Show(e),
                StepView::Send(UpdateView::UpdateLoadingState(LoadingState::Ready)),
            ],
        ),
        run(
            c,
            sends(session_run(a, seq![EventView::Start, EventView::CallFailed(e)]).1),
        ) == c,
        sends(session_run(a, seq![EventView::Start, EventView::CallFailed(e)]).1).last()
            == UpdateView::UpdateLoadingState(LoadingState::Ready),
{
    let evs = seq![EventView::Start, EventView::CallFailed(e)];
    assert(evs.subrange(1, 2) =~= seq![EventView::CallFailed(e)]);
    assert(seq![EventView::CallFailed(e)].subrange(1, 1) =~= Seq::<EventView>::empty());
    let steps = seq![
        StepView::Send(UpdateView::UpdateLoadingState(LoadingState::Fetching)),
        StepView::Send(UpdateView::UpdateLoadingState(LoadingState::Streaming)),
        StepView::Show(e),
        StepView::Send(UpdateView::UpdateLoadingState(LoadingState::Ready)),
    ];
    assert(session_run(a, evs) == (a, steps)) by {
        reveal_with_fuel(session_run, 3);
        assert(session_step(a, evs[1]).1 + Seq::<StepView>::empty() =~= session_step(a, evs[1]).1);
        assert(session_step(a, evs[0]).1 + session_step(a, evs[1]).1 =~= steps);
    }
    let s = seq![
        UpdateView::UpdateLoadingState(LoadingState::Fetching),
        UpdateView::UpdateLoadingState(LoadingState::Streaming),
        UpdateView::UpdateLoadingState(LoadingState::Ready),
    ];
    assert(sends(steps) == s) by {
        reveal_with_fuel(sends, 5);
        assert(steps.subrange(1, 4) =~= seq![steps[1], steps[2], steps[3]]);
        assert(seq![steps[1], steps[2], steps[3]].subrange(1, 3) =~= seq![steps[2], steps[3]]);
        assert(seq![steps[2], steps[3]].subrange(1, 2) =~= seq![steps[3]]);
        assert(seq![steps[3]].subrange(1, 1) =~= Seq::<StepView>::empty());
        assert(sends(seq![steps[3]]) =~= seq![s[2]]);
        assert(sends(seq![steps[2], steps[3]]) =~= seq![s[2]]);
        assert(sends(seq![steps[1], steps[2], steps[3]]) =~= seq![s[1], s[2]]);
        assert(sends(steps) =~= s);
    }
    assert(run(c, s) == c) by {
        reveal_with_fuel(run, 4);
        assert(s.subrange(1, 3) =~= seq![s[1], s[2]]);
        assert(seq![s[1], s[2]].subrange(1, 2) =~= seq![s[2]]);
        assert(seq![s[2]].subrange(1, 1) =~= Seq::<UpdateView>::empty());
    }
}

/// A completed stream records the reply whole: after the start, a call that
/// returned, the reading of the reply (chunks read and chunks that could not
/// be read, in any order) and the end, the channel gets `Fetching`,
/// `Streaming`, the requests of every chunk read, in order, and the request
/// that ends the reply under the role of the last chunk read (`assistant`
/// when none was); handling those adds to the conversation one message of
/// that role whose content is the reply received before plus the text of
/// every chunk read, in order.
pub proof fn lemma_completed_stream(
    a: (Seq<char>, Option<Seq<char>>),
    mid: Seq<EventView>,
    c: ContextView,
)
    requires
        forall|i: int| 0 <= i < mid.len() ==> is_chunk_event(#[trigger] mid[i]),
    ensures
        ({
            let pre = seq![EventView::Start, EventView::CallSucceeded];
            let evs = pre + mid + seq![EventView::End];
            let r = role_of_name(reply_role(session_run(a, pre + mid).0.1));
            &&& sends(session_run(a, evs).1) == seq![
                UpdateView::UpdateLoadingState(LoadingState::Fetching),
                UpdateView::UpdateLoadingState(LoadingState::Streaming),
            ] + stream_updates(chunk_texts(mid)) + seq![UpdateView::CurrentMessageEnd(r)]
            &&& run(c, sends(session_run(a, evs).1)) == (ContextView {
                conversation: c.conversation.push(
                    MessageView {
                        role: r,
                        content: c.current_message + chunk_texts(mid).flatten(),
                        thought: Some(c.current_thought),
                    },
                ),
                current_message: Seq::empty(),
                current_thought: Seq::empty(),
            })
        }),
{
    let pre = seq![EventView::Start, EventView::CallSucceeded];
    let end = seq![EventView::End];
    let evs = pre + mid + end;
    let loads = seq![
        UpdateView::UpdateLoadingState(LoadingState::Fetching),
        UpdateView::UpdateLoadingState(LoadingState::Streaming),
    ];
    assert(session_run(a, pre) == (a, sends_of(loads))) by {
        reveal_with_fuel(session_run, 3);
        assert(pre.subrange(1, 2) =~= seq![EventView::CallSucceeded]);
        assert(seq![EventView::CallSucceeded].subrange(1, 1) =~= Seq::<EventView>::empty());
        assert(session_step(a, pre[0]).1 + (session_step(a, pre[1]).1 + Seq::<StepView>::empty())
            =~= sends_of(loads));
    }
    lemma_session_run_concat(a, pre, mid);
    let m = session_run(a, mid);
    let read = session_run(a, pre + mid).0;
    assert(read == m.0);
    let r = role_of_name(reply_role(read.1));
    let end_steps = sends_of(seq![UpdateView::CurrentMessageEnd(r)]);
    assert(session_run(read, end) == (read, end_steps)) by {
        reveal_with_fuel(session_run, 2);
        assert(end.subrange(1, 1) =~= Seq::<EventView>::empty());
        assert(session_step(read, end[0]).1 + Seq::<StepView>::empty() =~= end_steps);
    }
    lemma_session_run_concat(a, pre + mid, end);
    assert(session_run(a, evs).1 == (sends_of(loads) + m.1) + end_steps);
    lemma_sends_concat(sends_of(loads) + m.1, end_steps);
    lemma_sends_concat(sends_of(loads), m.1);
    lemma_sends_of(loads);
    lemma_sends_of(seq![UpdateView::CurrentMessageEnd(r)]);
    lemma_reading_sends_chunk_requests(a, mid);
    let x = stream_updates(chunk_texts(mid));
    let all = loads + x + seq![UpdateView::CurrentMessageEnd(r)];
    assert(sends(session_run(a, evs).1) == all);
    assert(all =~= loads + x.push(UpdateView::CurrentMessageEnd(r)));
    lemma_run_concat(c, loads, x.push(UpdateView::CurrentMessageEnd(r)));
    assert(run(c, loads) == c) by {
        reveal_with_fuel(run, 3);
        assert(loads.subrange(1, 2) =~= seq![loads[1]]);
        assert(seq![loads[1]].subrange(1, 1) =~= Seq::<UpdateView>::empty());
    }
    lemma_streamed_reply_is_recorded(c, chunk_texts(mid), r);
}

/// Every chunk's text is appended to the reply, markers too, and last; the
/// marker that opens the reasoning is preceded by a request that shows
/// `Thinking`, the marker that closes it by one that shows `Streaming`, and
/// any other text by nothing.
pub proof fn lemma_chunk_requests(content: Seq<char>)
    ensures
        chunk_updates_spec(content).len() >= 1,
        chunk_updates_spec(content).last() == UpdateView::AppendToCurrentMessage(content),
        content == "<think>"@ ==> chunk_updates_spec(content) == seq![
            UpdateView::UpdateLoadingState(LoadingState::Thinking),
            UpdateView::AppendToCurrentMessage(content),
        ],
        content == "</think>"@ ==> chunk_updates_spec(content) == seq![
            UpdateView::UpdateLoadingState(LoadingState::Streaming),
            UpdateView::AppendToCurrentMessage(content),
        ],
        content != "<think>"@ && content != "</think>"@ ==> chunk_updates_spec(content) == seq![
            UpdateView::AppendToCurrentMessage(content),
        ],
{
    reveal_strlit("<think>");
    reveal_strlit("</think>");
    assert("<think>"@.len() != "</think>"@.len());
}

/// A reply with no chunk read ends under the role `assistant`; otherwise
/// under the role that the last chunk read gave.
pub proof fn lemma_reply_role(role: Seq<char>)
    ensures
        reply_role(None) == "assistant"@,
        reply_role(Some(role)) == role,
{
}

} // verus!
