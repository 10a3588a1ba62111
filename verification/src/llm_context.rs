use vstd::prelude::*;

use crate::models::ollama::{outgoing_messages, outgoing_spec, LlmContextManager, OutgoingMessage};

verus! {

/// Who wrote a message of a conversation.
#[derive(Debug, PartialEq, Eq)]
pub enum Role {
    User,
    Model,
    System,
    Assistant,
    Tool,
    Other(String),
}

/// The mathematical value of a `Role`.
pub enum RoleView {
    User,
    Model,
    System,
    Assistant,
    Tool,
    Other(Seq<char>),
}

impl View for Role {
    type V = RoleView;

    open spec fn view(&self) -> RoleView {
        match self {
            Role::User => RoleView::User,
            Role::Model => RoleView::Model,
            Role::System => RoleView::System,
            Role::Assistant => RoleView::Assistant,
            Role::Tool => RoleView::Tool,
            Role::Other(s) => RoleView::Other(s@),
        }
    }
}

/// The name under which a role is written.
pub open spec fn role_name(r: RoleView) -> Seq<char> {
    match r {
        RoleView::User => "user"@,
        RoleView::Model => "model"@,
        RoleView::System => "system"@,
        RoleView::Assistant => "assistant"@,
        RoleView::Tool => "tool"@,
        RoleView::Other(s) => s,
    }
}

/// The role that a name stands for: one of the five known names, else a role
/// of that name.
pub open spec fn role_of_name(s: Seq<char>) -> RoleView {
    if s == "user"@ {
        RoleView::User
    } else if s == "model"@ {
        RoleView::Model
    } else if s == "assistant"@ {
        RoleView::Assistant
    } else if s == "tool"@ {
        RoleView::Tool
    } else if s == "system"@ {
        RoleView::System
    } else {
        RoleView::Other(s)
    }
}

/// One of the five names that stand for a known role.
pub open spec fn is_known_role_name(s: Seq<char>) -> bool {
    s == "user"@ || s == "model"@ || s == "assistant"@ || s == "tool"@ || s == "system"@
}

/// Whether two strings hold the same characters.
pub(crate) fn str_eq(a: &str, b: &str) -> (r: bool)
    ensures
        r == (a@ == b@),
{
    a.to_owned() == b.to_owned()
}

impl Role {
    /// The role's name: `user`, `model`, `system`, `assistant`, `tool`, or
    /// the name that an `Other` role carries.
    pub fn to_string(&self) -> (r: String)
        ensures
            r@ == role_name(self@),
    {
        match self {
            Role::User => "user".to_owned(),
            Role::Model => "model".to_owned(),
            Role::System => "system".to_owned(),
            Role::Assistant => "assistant".to_owned(),
            Role::Tool => "tool".to_owned(),
            Role::Other(s) => s.clone(),
        }
    }

    /// The role that a name stands for; a name other than the five known
    /// ones gives an `Other` role that carries it.
    pub fn from_name(value: &str) -> (r: Role)
        ensures
            r@ == role_of_name(value@),
    {
        if str_eq(value, "user") {
            Role::User
        } else if str_eq(value, "model") {
            Role::Model
        } else if str_eq(value, "assistant") {
            Role::Assistant
        } else if str_eq(value, "tool") {
            Role::Tool
        } else if str_eq(value, "system") {
            Role::System
        } else {
            Role::Other(value.to_owned())
        }
    }
}

impl<'a> From<&'a str> for Role {
    /// The role that a name stands for, as `Role::from_name` gives it.
    fn from(value: &'a str) -> (r: Role)
        ensures
            r@ == role_of_name(value@),
    {
        Role::from_name(value)
    }
}

impl<'a> vstd::std_specs::convert::FromSpecImpl<&'a str> for Role {
    /// A role holds a `String`, and two strings of the same characters are
    /// not known to be equal values, so no single role value is named as the
    /// result: the result is given by its view, in the `ensures` of `from`.
    open spec fn obeys_from_spec() -> bool {
        false
    }

    open spec fn from_spec(v: &'a str) -> Role {
        choose|r: Role| r@ == role_of_name(v@)
    }
}

/// Reading a name as a role and writing the role gives the name back, for
/// every name.
pub proof fn lemma_role_name_of_role_of_name(s: Seq<char>)
    ensures
        role_name(role_of_name(s)) == s,
{
}

/// Writing a role and reading the name back gives the role, unless it is an
/// `Other` role whose name is one of the five known names.
pub proof fn lemma_role_of_name_of_role_name(r: RoleView)
    requires
        r matches RoleView::Other(s) ==> !is_known_role_name(s),
    ensures
        role_of_name(role_name(r)) == r,
{
    reveal_strlit("user");
    reveal_strlit("model");
    reveal_strlit("assistant");
    reveal_strlit("tool");
    reveal_strlit("system");
    assert("model"@.len() != "user"@.len());
    assert("assistant"@.len() != "user"@.len() && "assistant"@.len() != "model"@.len());
    assert("tool"@[0] != "user"@[0] && "tool"@.len() != "model"@.len()
        && "tool"@.len() != "assistant"@.len());
    assert("system"@.len() != "user"@.len() && "system"@.len() != "model"@.len()
        && "system"@.len() != "assistant"@.len() && "system"@.len() != "tool"@.len());
}

/// The characters of an optional string.
pub open spec fn opt_string_view(o: Option<String>) -> Option<Seq<char>> {
    match o {
        Some(s) => Some(s@),
        None => None,
    }
}

/// One message of a conversation, with the reasoning that the model showed
/// before it, if any.
#[derive(Debug, PartialEq, Eq)]
pub struct Message {
    pub role: Role,
    pub content: String,
    pub thought: Option<String>,
}

/// The mathematical value of a `Message`.
pub struct MessageView {
    pub role: RoleView,
    pub content: Seq<char>,
    pub thought: Option<Seq<char>>,
}

impl View for Message {
    type V = MessageView;

    open spec fn view(&self) -> MessageView {
        MessageView { role: self.role@, content: self.content@, thought: opt_string_view(self.thought) }
    }
}

impl Message {
    /// A message of the given role, content and reasoning.
    pub fn new(role: Role, content: String, thought: Option<String>) -> (m: Self)
        ensures
            m.role == role,
            m.content == content,
            m.thought == thought,
    {
        Self { role, content, thought }
    }
}

/// What the client is doing about a reply, as the loading area shows it.
#[derive(Debug, Clone, Copy, PartialEq, Eq, Structural)]
pub enum LoadingState {
    Ready,
    Fetching,
    Streaming,
    Thinking,
}

/// The text that the loading area shows beside its spinner; the ready state
/// shows neither spinner nor text.
pub open spec fn loading_label_spec(s: LoadingState) -> Option<Seq<char>> {
    match s {
        LoadingState::Ready => None,
        LoadingState::Fetching => Some("Fetching"@),
        LoadingState::Streaming => Some("Cooking"@),
        LoadingState::Thinking => Some("Thinking"@),
    }
}

/// The text that the loading area shows for a state, if any.
pub fn loading_label(s: LoadingState) -> (r: Option<&'static str>)
    ensures
        match r {
            Some(t) => loading_label_spec(s) == Some(t@),
            None => loading_label_spec(s) is None,
        },
{
    match s {
        LoadingState::Ready => None,
        LoadingState::Fetching => Some("Fetching"),
        LoadingState::Streaming => Some("Cooking"),
        LoadingState::Thinking => Some("Thinking"),
    }
}

/// The characters of each message of a list.
pub open spec fn messages_view(v: Seq<Message>) -> Seq<MessageView> {
    v.map_values(|m: Message| m@)
}

/// The requests that drive the conversation: the prompt area, the reply
/// stream and the buttons each send some of them.
#[derive(Debug, PartialEq, Eq)]
pub enum LlmContextUpdateMessage {
    CallApi,
    UpdateLoadingState(LoadingState),
    CurrentMessageEnd(Role),
    AddToCurrentThought(String),
    ClearOutput,
    AppendToCurrentMessage(String),
    ClearPrompt,
    ViewCurrentContext,
    ToggleThoughts,
    AddMessage(Message),
    AddUserPrompt,
    ClearContext,
    Error(String),
    Stop,
}

/// The mathematical value of a `LlmContextUpdateMessage`.
pub enum UpdateView {
    CallApi,
    UpdateLoadingState(LoadingState),
    CurrentMessageEnd(RoleView),
    AddToCurrentThought(Seq<char>),
    ClearOutput,
    AppendToCurrentMessage(Seq<char>),
    ClearPrompt,
    ViewCurrentContext,
    ToggleThoughts,
    AddMessage(MessageView),
    AddUserPrompt,
    ClearContext,
    Error(Seq<char>),
    Stop,
}

impl View for LlmContextUpdateMessage {
    type V = UpdateView;

    open spec fn view(&self) -> UpdateView {
        match self {
            LlmContextUpdateMessage::CallApi => UpdateView::CallApi,
            LlmContextUpdateMessage::UpdateLoadingState(s) => UpdateView::UpdateLoadingState(*s),
            LlmContextUpdateMessage::CurrentMessageEnd(r) => UpdateView::CurrentMessageEnd(r@),
            LlmContextUpdateMessage::AddToCurrentThought(t) => UpdateView::AddToCurrentThought(t@),
            LlmContextUpdateMessage::ClearOutput => UpdateView::ClearOutput,
            LlmContextUpdateMessage::AppendToCurrentMessage(m) => UpdateView::AppendToCurrentMessage(m@),
            LlmContextUpdateMessage::ClearPrompt => UpdateView::ClearPrompt,
            LlmContextUpdateMessage::ViewCurrentContext => UpdateView::ViewCurrentContext,
            LlmContextUpdateMessage::ToggleThoughts => UpdateView::ToggleThoughts,
            LlmContextUpdateMessage::AddMessage(m) => UpdateView::AddMessage(m@),
            LlmContextUpdateMessage::AddUserPrompt => UpdateView::AddUserPrompt,
            LlmContextUpdateMessage::ClearContext => UpdateView::ClearContext,
            LlmContextUpdateMessage::Error(e) => UpdateView::Error(e@),
            LlmContextUpdateMessage::Stop => UpdateView::Stop,
        }
    }
}

/// The characters of each request of a list.
pub open spec fn updates_view(v: Seq<LlmContextUpdateMessage>) -> Seq<UpdateView> {
    v.map_values(|u: LlmContextUpdateMessage| u@)
}

/// What the screen and the network have to do after a request was handled.
#[derive(Debug, PartialEq, Eq)]
pub enum ContextAction {
    /// Nothing beyond the change of state.
    Nothing,
    /// Send these messages to the model and stream its reply back.
    CallApi(Vec<OutgoingMessage>),
    /// Show this state in the loading area.
    ShowLoading(LoadingState),
    /// Queue this request to be handled next.
    Send(LlmContextUpdateMessage),
    /// Append this text to the output area.
    AppendOutput(String),
    /// Append this text to the output area, styled as reasoning.
    AppendThought(String),
    /// Empty the prompt area.
    ClearPromptArea,
    /// Empty the output area.
    ClearOutput,
    /// Show the whole conversation in a dialog.
    ShowContext,
    /// Read the prompt area and submit its text as the user's message.
    ReadPrompt,
    /// Show this error in a dialog.
    ShowError(String),
    /// Stop handling requests.
    Stop,
}

/// The mathematical value of a `ContextAction`.
pub enum ActionView {
    Nothing,
    CallApi(Seq<(Seq<char>, Seq<char>)>),
    ShowLoading(LoadingState),
    Send(UpdateView),
    AppendOutput(Seq<char>),
    AppendThought(Seq<char>),
    ClearPromptArea,
    ClearOutput,
    ShowContext,
    ReadPrompt,
    ShowError(Seq<char>),
    Stop,
}

impl View for ContextAction {
    type V = ActionView;

    open spec fn view(&self) -> ActionView {
        match self {
            ContextAction::Nothing => ActionView::Nothing,
            ContextAction::CallApi(v) => ActionView::CallApi(
                v@.map_values(|o: OutgoingMessage| o@),
            ),
            ContextAction::ShowLoading(s) => ActionView::ShowLoading(*s),
            ContextAction::Send(u) => ActionView::Send(u@),
            ContextAction::AppendOutput(t) => ActionView::AppendOutput(t@),
            ContextAction::AppendThought(t) => ActionView::AppendThought(t@),
            ContextAction::ClearPromptArea => ActionView::ClearPromptArea,
            ContextAction::ClearOutput => ActionView::ClearOutput,
            ContextAction::ShowContext => ActionView::ShowContext,
            ContextAction::ReadPrompt => ActionView::ReadPrompt,
            ContextAction::ShowError(e) => ActionView::ShowError(e@),
            ContextAction::Stop => ActionView::Stop,
        }
    }
}

/// The conversation so far, and the reply and reasoning being received.
pub struct LlmContext {
    pub conversation: Vec<Message>,
    current_message: String,
    current_thought: String,
}

/// The mathematical value of a `LlmContext`.
pub struct ContextView {
    pub conversation: Seq<MessageView>,
    pub current_message: Seq<char>,
    pub current_thought: Seq<char>,
}

impl View for LlmContext {
    type V = ContextView;

    closed spec fn view(&self) -> ContextView {
        ContextView {
            conversation: messages_view(self.conversation@),
            current_message: self.current_message@,
            current_thought: self.current_thought@,
        }
    }
}

impl LlmContextManager for LlmContext {
    /// The context with one more message at the end of its conversation.
    fn add_message(self, msg: Message) -> (r: Self)
        ensures
            r@ == (ContextView { conversation: self@.conversation.push(msg@), ..self@ }),
    {
        let mut s = self;
        let ghost c = s@;
        let ghost mv = msg@;
        s.conversation.push(msg);
        assert(messages_view(s.conversation@) =~= c.conversation.push(mv));
        s
    }

    /// Forgets the conversation; the reply being received stays.
    fn clear(&mut self)
        ensures
            final(self)@ == (ContextView { conversation: Seq::empty(), ..old(self)@ }),
    {
        self.conversation = Vec::new();
        assert(messages_view(self.conversation@) =~= Seq::<MessageView>::empty());
    }
}

/// The state after one request, and what is left to do outside.
pub open spec fn step(c: ContextView, u: UpdateView) -> (ContextView, ActionView) {
    match u {
        UpdateView::CallApi => (c, ActionView::CallApi(outgoing_spec(c.conversation))),
        UpdateView::UpdateLoadingState(s) => (c, ActionView::ShowLoading(s)),
        UpdateView::CurrentMessageEnd(r) => (
            ContextView {
                conversation: c.conversation.push(
                    MessageView {
                        role: r,
                        content: c.current_message,
                        thought: Some(c.current_thought),
                    },
                ),
                current_message: Seq::empty(),
                current_thought: Seq::empty(),
            },
            ActionView::Send(UpdateView::UpdateLoadingState(LoadingState::Ready)),
        ),
        UpdateView::AddToCurrentThought(t) => (
            ContextView { current_thought: c.current_thought + t, ..c },
            ActionView::AppendThought(t),
        ),
        UpdateView::ClearOutput => (c, ActionView::ClearOutput),
        UpdateView::AppendToCurrentMessage(m) => (
            ContextView { current_message: c.current_message + m, ..c },
            ActionView::AppendOutput(m),
        ),
        UpdateView::ClearPrompt => (
            ContextView { current_message: Seq::empty(), ..c },
            ActionView::ClearPromptArea,
        ),
        UpdateView::ViewCurrentContext => (c, ActionView::ShowContext),
        UpdateView::ToggleThoughts => (c, ActionView::Nothing),
        UpdateView::AddMessage(m) => (
            ContextView { conversation: c.conversation.push(m), ..c },
            ActionView::Nothing,
        ),
        UpdateView::AddUserPrompt => (c, ActionView::ReadPrompt),
        UpdateView::ClearContext => (
            ContextView { conversation: Seq::empty(), current_message: Seq::empty(), ..c },
            ActionView::ClearOutput,
        ),
        UpdateView::Error(e) => (c, ActionView::ShowError(e)),
        UpdateView::Stop => (c, ActionView::Stop),
    }
}

impl LlmContext {
    /// An empty conversation, with no reply being received.
    pub fn new() -> (r: Self)
        ensures
            r@.conversation == Seq::<MessageView>::empty(),
            r@.current_message == Seq::<char>::empty(),
            r@.current_thought == Seq::<char>::empty(),
    {
        let r = LlmContext {
            conversation: Vec::new(),
            current_message: String::new(),
            current_thought: String::new(),
        };
        assert(messages_view(r.conversation@) =~= Seq::<MessageView>::empty());
        r
    }

    /// The text of the reply received so far.
    pub fn current_message(&self) -> (r: &str)
        ensures
            r@ == self@.current_message,
    {
        self.current_message.as_str()
    }

    /// The reasoning received so far.
    pub fn current_thought(&self) -> (r: &str)
        ensures
            r@ == self@.current_thought,
    {
        self.current_thought.as_str()
    }

    /// The conversation so far.
    pub fn conversation(&self) -> (r: &Vec<Message>)
        ensures
            messages_view(r@) == self@.conversation,
    {
        &self.conversation
    }

    /// Handles one request: updates the conversation and the reply being
    /// received, and says what the screen and the network have to do.
    pub fn handle(&mut self, msg: LlmContextUpdateMessage) -> (a: ContextAction)
        ensures
            (final(self)@, a@) == step(old(self)@, msg@),
    {
        let ghost c = self@;
        match msg {
            LlmContextUpdateMessage::CallApi => {
                ContextAction::CallApi(outgoing_messages(&self.conversation))
            },
            LlmContextUpdateMessage::UpdateLoadingState(s) => ContextAction::ShowLoading(s),
            LlmContextUpdateMessage::CurrentMessageEnd(role) => {
                let content = self.current_message.clone();
                let thought = self.current_thought.clone();
                let m = Message::new(role, content, Some(thought));
                let ghost mv = m@;
                self.conversation.push(m);
                self.current_message = String::new();
                self.current_thought = String::new();
                assert(messages_view(self.conversation@) =~= c.conversation.push(mv));
                ContextAction::Send(LlmContextUpdateMessage::UpdateLoadingState(LoadingState::Ready))
            },
            LlmContextUpdateMessage::AppendToCurrentMessage(m) => {
                self.current_message.append(m.as_str());
                ContextAction::AppendOutput(m)
            },
            LlmContextUpdateMessage::AddToCurrentThought(t) => {
                self.current_thought.append(t.as_str());
                ContextAction::AppendThought(t)
            },
            LlmContextUpdateMessage::AddMessage(m) => {
                let ghost mv = m@;
                self.conversation.push(m);
                assert(messages_view(self.conversation@) =~= c.conversation.push(mv));
                ContextAction::Nothing
            },
            LlmContextUpdateMessage::ClearPrompt => {
                self.current_message = String::new();
                ContextAction::ClearPromptArea
            },
            LlmContextUpdateMessage::ClearOutput => ContextAction::ClearOutput,
            LlmContextUpdateMessage::ClearContext => {
                self.conversation = Vec::new();
                self.current_message = String::new();
                assert(messages_view(self.conversation@) =~= Seq::<MessageView>::empty());
                ContextAction::ClearOutput
            },
            LlmContextUpdateMessage::ViewCurrentContext => ContextAction::ShowContext,
            LlmContextUpdateMessage::ToggleThoughts => ContextAction::Nothing,
            LlmContextUpdateMessage::AddUserPrompt => ContextAction::ReadPrompt,
            LlmContextUpdateMessage::Error(e) => ContextAction::ShowError(e),
            LlmContextUpdateMessage::Stop => ContextAction::Stop,
        }
    }
}

/// The requests that the prompt area's text is submitted as: add it to the
/// conversation as the user's message, call the model, and empty the prompt
/// area.
pub open spec fn prompt_updates_spec(prompt: Seq<char>) -> Seq<UpdateView> {
    seq![
        UpdateView::AddMessage(MessageView { role: RoleView::User, content: prompt, thought: None }),
        UpdateView::CallApi,
        UpdateView::ClearPrompt,
    ]
}

/// The requests that submit the prompt area's text as the user's message.
pub fn user_prompt_messages(prompt: String) -> (r: Vec<LlmContextUpdateMessage>)
    ensures
        updates_view(r@) == prompt_updates_spec(prompt@),
{
    let mut r: Vec<LlmContextUpdateMessage> = Vec::new();
    r.push(LlmContextUpdateMessage::AddMessage(Message::new(Role::User, prompt, None)));
    r.push(LlmContextUpdateMessage::CallApi);
    r.push(LlmContextUpdateMessage::ClearPrompt);
    assert(updates_view(r@) =~= prompt_updates_spec(prompt@));
    r
}

/// The state after handling a list of requests in order.
pub open spec fn run(c: ContextView, us: Seq<UpdateView>) -> ContextView
    decreases us.len(),
{
    if us.len() == 0 {
        c
    } else {
        run(step(c, us[0]).0, us.subrange(1, us.len() as int))
    }
}

/// Handling two lists of requests one after the other is handling the
/// joined list.
pub proof fn lemma_run_concat(c: ContextView, a: Seq<UpdateView>, b: Seq<UpdateView>)
    ensures
        run(c, a + b) == run(run(c, a), b),
    decreases a.len(),
{
    if a.len() == 0 {
        assert(a + b =~= b);
    } else {
        assert((a + b)[0] == a[0]);
        assert((a + b).subrange(1, (a + b).len() as int) =~= a.subrange(1, a.len() as int) + b);
        lemma_run_concat(step(c, a[0]).0, a.subrange(1, a.len() as int), b);
    }
}

/// A message added to the conversation is sent to the model by the next
/// call, last, as its role's name and its content.
pub proof fn lemma_added_message_is_sent(c: ContextView, m: MessageView)
    ensures
        ({
            let c1 = step(c, UpdateView::AddMessage(m)).0;
            &&& step(c1, UpdateView::CallApi).1 == ActionView::CallApi(
                outgoing_spec(c.conversation.push(m)),
            )
            &&& outgoing_spec(c.conversation.push(m)).last() == (role_name(m.role), m.content)
            &&& outgoing_spec(c.conversation.push(m)).drop_last() == outgoing_spec(c.conversation)
        }),
{
    assert(outgoing_spec(c.conversation.push(m)).drop_last() =~= outgoing_spec(c.conversation));
}

/// Submitting a prompt adds it to the conversation as the user's message,
/// calls the model with the whole conversation (the prompt last, under the
/// name `user`), and empties the reply being received.
pub proof fn lemma_submitted_prompt(c: ContextView, prompt: Seq<char>)
    ensures
        ({
            let m = MessageView { role: RoleView::User, content: prompt, thought: None };
            let us = prompt_updates_spec(prompt);
            let c1 = step(c, us[0]).0;
            &&& step(c1, us[1]).1 == ActionView::CallApi(outgoing_spec(c.conversation.push(m)))
            &&& outgoing_spec(c.conversation.push(m)).last() == ("user"@, prompt)
            &&& run(c, us) == (ContextView {
                conversation: c.conversation.push(m),
                current_message: Seq::empty(),
                ..c
            })
        }),
{
    let us = prompt_updates_spec(prompt);
    let m = MessageView { role: RoleView::User, content: prompt, thought: None };
    let c1 = step(c, us[0]).0;
    let c2 = step(c1, us[1]).0;
    let c3 = step(c2, us[2]).0;
    assert(us.subrange(1, 3) =~= seq![us[1], us[2]]);
    assert(seq![us[1], us[2]].subrange(1, 2) =~= seq![us[2]]);
    assert(seq![us[2]].subrange(1, 1) =~= Seq::<UpdateView>::empty());
    assert(run(c, us) == c3) by {
        reveal_with_fuel(run, 4);
    }
    assert(c3 == (ContextView { conversation: c.conversation.push(m), current_message: Seq::empty(), ..c }));
}

/// Clearing the context forgets the conversation: the next call sends the
/// model nothing.
pub proof fn lemma_cleared_context_sends_nothing(c: ContextView)
    ensures
        ({
            let c1 = step(c, UpdateView::ClearContext).0;
            &&& c1.conversation == Seq::<MessageView>::empty()
            &&& step(c1, UpdateView::CallApi).1 == ActionView::CallApi(Seq::empty())
        }),
{
    assert(outgoing_spec(Seq::<MessageView>::empty()) =~= Seq::empty());
}

/// When a reply ends, the loading area goes back to ready: the request that
/// ending a reply queues shows the ready state and changes nothing else.
pub proof fn lemma_ended_reply_shows_ready(c: ContextView, r: RoleView)
    ensures
        ({
            let (c1, a) = step(c, UpdateView::CurrentMessageEnd(r));
            &&& a matches ActionView::Send(next)
            &&& step(c1, next) == (c1, ActionView::ShowLoading(LoadingState::Ready))
        }),
{
}

/// Whether a request leaves the conversation as it is and the reply and
/// reasoning being received as they are or extended: every request but those
/// that end a reply, clear the prompt or the context, or add a message.
pub open spec fn keeps_reply(u: UpdateView) -> bool {
    !(u is CurrentMessageEnd || u is ClearPrompt || u is ClearContext || u is AddMessage)
}

/// The reply text that a request appends, if any.
pub open spec fn appended_by(u: UpdateView) -> Seq<char> {
    match u {
        UpdateView::AppendToCurrentMessage(m) => m,
        _ => Seq::empty(),
    }
}

/// The reasoning that a request adds, if any.
pub open spec fn thought_by(u: UpdateView) -> Seq<char> {
    match u {
        UpdateView::AddToCurrentThought(t) => t,
        _ => Seq::empty(),
    }
}

/// The reply text that a list of requests appends, in order.
pub open spec fn appended_text(us: Seq<UpdateView>) -> Seq<char>
    decreases us.len(),
{
    if us.len() == 0 {
        Seq::empty()
    } else {
        appended_by(us[0]) + appended_text(us.subrange(1, us.len() as int))
    }
}

/// The reasoning that a list of requests adds, in order.
pub open spec fn thought_text(us: Seq<UpdateView>) -> Seq<char>
    decreases us.len(),
{
    if us.len() == 0 {
        Seq::empty()
    } else {
        thought_by(us[0]) + thought_text(us.subrange(1, us.len() as int))
    }
}

/// While a reply is received, whatever other requests come between its
/// pieces (so long as none ends the reply or clears the prompt or the
/// context, or adds a message), the reply and the reasoning being received
/// are what they were plus every appended piece and every piece of reasoning,
/// each in order; the conversation is unchanged.
pub proof fn lemma_reply_accumulates(c: ContextView, us: Seq<UpdateView>)
    requires
        forall|i: int| 0 <= i < us.len() ==> keeps_reply(#[trigger] us[i]),
    ensures
        run(c, us) == (ContextView {
            current_message: c.current_message + appended_text(us),
            current_thought: c.current_thought + thought_text(us),
            ..c
        }),
    decreases us.len(),
{
    if us.len() == 0 {
        assert(c.current_message + appended_text(us) =~= c.current_message);
        assert(c.current_thought + thought_text(us) =~= c.current_thought);
    } else {
        let h = us[0];
        let rest = us.subrange(1, us.len() as int);
        assert(keeps_reply(h));
        let c1 = ContextView {
            current_message: c.current_message + appended_by(h),
            current_thought: c.current_thought + thought_by(h),
            ..c
        };
        assert(step(c, h).0 == c1) by {
            assert(c.current_message + Seq::<char>::empty() =~= c.current_message);
            assert(c.current_thought + Seq::<char>::empty() =~= c.current_thought);
        }
        assert forall|i: int| 0 <= i < rest.len() implies keeps_reply(#[trigger] rest[i]) by {
            assert(rest[i] == us[i + 1]);
        }
        lemma_reply_accumulates(c1, rest);
        assert(c.current_message + appended_text(us) =~= c1.current_message + appended_text(rest));
        assert(c.current_thought + thought_text(us) =~= c1.current_thought + thought_text(rest));
    }
}

/// A reply ends up whole in the conversation: after its pieces, its
/// reasoning and any other requests that keep the reply, ending it under a
/// role adds one message of that role whose content is the reply received
/// before plus every appended piece, and whose reasoning (present even when
/// empty) is the reasoning received before plus every piece of it, each in
/// order; the reply and reasoning being received are empty again.
pub proof fn lemma_reply_is_recorded(c: ContextView, us: Seq<UpdateView>, r: RoleView)
    requires
        forall|i: int| 0 <= i < us.len() ==> keeps_reply(#[trigger] us[i]),
    ensures
        run(c, us.push(UpdateView::CurrentMessageEnd(r))) == (ContextView {
            conversation: c.conversation.push(
                MessageView {
                    role: r,
                    content: c.current_message + appended_text(us),
                    thought: Some(c.current_thought + thought_text(us)),
                },
            ),
            current_message: Seq::empty(),
            current_thought: Seq::empty(),
        }),
{
    let end = seq![UpdateView::CurrentMessageEnd(r)];
    assert(us.push(UpdateView::CurrentMessageEnd(r)) =~= us + end);
    lemma_run_concat(c, us, end);
    lemma_reply_accumulates(c, us);
    let c1 = run(c, us);
    assert(end.subrange(1, 1) =~= Seq::<UpdateView>::empty());
    assert(run(c1, end) == step(c1, end[0]).0) by {
        reveal_with_fuel(run, 2);
    }
}

/// Streamed text is shown piece by piece, whatever was received before:
/// handling a piece of the reply appends exactly that piece to the output
/// area and extends the reply being received by it; handling a piece of
/// reasoning appends exactly that piece, styled, and extends the reasoning
/// being received by it. Nothing else changes.
pub proof fn lemma_pieces_are_shown_as_they_come(c: ContextView, m: Seq<char>)
    ensures
        step(c, UpdateView::AppendToCurrentMessage(m)).1 == ActionView::AppendOutput(m),
        step(c, UpdateView::AppendToCurrentMessage(m)).0.current_message == c.current_message + m,
        step(c, UpdateView::AppendToCurrentMessage(m)).0.current_thought == c.current_thought,
        step(c, UpdateView::AppendToCurrentMessage(m)).0.conversation == c.conversation,
        step(c, UpdateView::AddToCurrentThought(m)).1 == ActionView::AppendThought(m),
        step(c, UpdateView::AddToCurrentThought(m)).0.current_thought == c.current_thought + m,
        step(c, UpdateView::AddToCurrentThought(m)).0.current_message == c.current_message,
        step(c, UpdateView::AddToCurrentThought(m)).0.conversation == c.conversation,
{
}

/// The actions that handling a list of requests in order asks for, in order.
pub open spec fn run_actions(c: ContextView, us: Seq<UpdateView>) -> Seq<ActionView>
    decreases us.len(),
{
    if us.len() == 0 {
        Seq::empty()
    } else {
        seq![step(c, us[0]).1] + run_actions(step(c, us[0]).0, us.subrange(1, us.len() as int))
    }
}

/// The plain text that a list of actions appends to the output area, joined.
pub open spec fn shown_output(acts: Seq<ActionView>) -> Seq<char>
    decreases acts.len(),
{
    if acts.len() == 0 {
        Seq::empty()
    } else {
        (match acts[0] {
            ActionView::AppendOutput(t) => t,
            _ => Seq::empty(),
        }) + shown_output(acts.subrange(1, acts.len() as int))
    }
}

/// The reasoning that a list of actions appends to the output area, joined.
pub open spec fn shown_thoughts(acts: Seq<ActionView>) -> Seq<char>
    decreases acts.len(),
{
    if acts.len() == 0 {
        Seq::empty()
    } else {
        (match acts[0] {
            ActionView::AppendThought(t) => t,
            _ => Seq::empty(),
        }) + shown_thoughts(acts.subrange(1, acts.len() as int))
    }
}

/// The output area shows the reply and the reasoning exactly as they came:
/// for any requests, from any state, the plain text appended to the output
/// area, joined, is the reply text those requests append, and the styled
/// text appended is the reasoning they add, each once and in order.
pub proof fn lemma_output_shows_what_came(c: ContextView, us: Seq<UpdateView>)
    ensures
        shown_output(run_actions(c, us)) == appended_text(us),
        shown_thoughts(run_actions(c, us)) == thought_text(us),
    decreases us.len(),
{
    if us.len() > 0 {
        let rest = us.subrange(1, us.len() as int);
        let (c1, a) = step(c, us[0]);
        lemma_output_shows_what_came(c1, rest);
        let acts = run_actions(c, us);
        assert(acts[0] == a);
        assert(acts.subrange(1, acts.len() as int) =~= run_actions(c1, rest));
        assert(match a {
            ActionView::AppendOutput(t) => t,
            _ => Seq::<char>::empty(),
        } == appended_by(us[0]));
        assert(match a {
            ActionView::AppendThought(t) => t,
            _ => Seq::<char>::empty(),
        } == thought_by(us[0]));
    }
}

/// A loading request shows its own state, whatever the conversation, and
/// changes nothing else: `Fetching`, `Streaming` (shown as `Cooking`),
/// `Thinking`, or ready.
pub proof fn lemma_loading_request_shows_its_state(c: ContextView, s: LoadingState)
    ensures
        step(c, UpdateView::UpdateLoadingState(s)) == (c, ActionView::ShowLoading(s)),
        loading_label_spec(LoadingState::Ready) is None,
        loading_label_spec(LoadingState::Fetching) == Some("Fetching"@),
        loading_label_spec(LoadingState::Streaming) == Some("Cooking"@),
        loading_label_spec(LoadingState::Thinking) == Some("Thinking"@),
{
}

/// Pressing the prompt button reads the prompt area, whatever the
/// conversation holds, and changes nothing yet.
pub proof fn lemma_prompt_request_reads_prompt(c: ContextView)
    ensures
        step(c, UpdateView::AddUserPrompt) == (c, ActionView::ReadPrompt),
{
}

/// What each of the other requests does, for every state: the call sends
/// every message of the conversation, in order, as its role's name and its
/// content; adding a message puts it last in the conversation; clearing the
/// prompt empties the reply being received and the prompt area; clearing the
/// context empties the conversation and the reply being received (the
/// reasoning stays) and the output area; the rest change nothing and ask for
/// the output area to be emptied, the conversation to be shown, the error to
/// be shown, the handling to stop, or nothing.
pub proof fn lemma_requests_do_what_they_say(c: ContextView, m: MessageView, e: Seq<char>)
    ensures
        ({
            let (c1, a) = step(c, UpdateView::CallApi);
            &&& c1 == c
            &&& a matches ActionView::CallApi(out)
            &&& out.len() == c.conversation.len()
            &&& forall|i: int|
                0 <= i < out.len() ==> #[trigger] out[i] == (
                    role_name(c.conversation[i].role),
                    c.conversation[i].content,
                )
        }),
        step(c, UpdateView::AddMessage(m)) == (ContextView { conversation: c.conversation.push(m), ..c }, ActionView::Nothing),
        step(c, UpdateView::ClearPrompt).0.current_message.len() == 0,
        step(c, UpdateView::ClearPrompt).0.current_thought == c.current_thought,
        step(c, UpdateView::ClearPrompt).0.conversation == c.conversation,
        step(c, UpdateView::ClearPrompt).1 == ActionView::ClearPromptArea,
        step(c, UpdateView::ClearContext).0.conversation.len() == 0,
        step(c, UpdateView::ClearContext).0.current_message.len() == 0,
        step(c, UpdateView::ClearContext).0.current_thought == c.current_thought,
        step(c, UpdateView::ClearContext).1 == ActionView::ClearOutput,
        step(c, UpdateView::ClearOutput) == (c, ActionView::ClearOutput),
        step(c, UpdateView::ViewCurrentContext) == (c, ActionView::ShowContext),
        step(c, UpdateView::Error(e)) == (c, ActionView::ShowError(e)),
        step(c, UpdateView::Stop) == (c, ActionView::Stop),
        step(c, UpdateView::ToggleThoughts) == (c, ActionView::Nothing),
{
}

/// The names of the known roles, in lower case, one per role.
pub proof fn lemma_role_names()
    ensures
        role_name(RoleView::User) == "user"@,
        role_name(RoleView::Model) == "model"@,
        role_name(RoleView::System) == "system"@,
        role_name(RoleView::Assistant) == "assistant"@,
        role_name(RoleView::Tool) == "tool"@,
        forall|s: Seq<char>| #[trigger] role_name(RoleView::Other(s)) == s,
{
}

} // verus!
