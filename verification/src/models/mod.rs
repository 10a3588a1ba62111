use vstd::prelude::*;

pub mod gemini;
pub mod ollama;

verus! {

/// One message of a conversation: the name of its role and its content.
#[derive(Debug, PartialEq, Eq)]
pub struct Message {
    /// system, user, assistant, tool
    role: String,
    content: String,
}

impl View for Message {
    type V = (Seq<char>, Seq<char>);

    closed spec fn view(&self) -> (Seq<char>, Seq<char>) {
        (self.role@, self.content@)
    }
}

impl Message {
    /// A message of the given role (system, user, assistant or tool) and
    /// content.
    pub fn new(role: String, content: String) -> (m: Self)
        ensures
            m@ == (role@, content@),
    {
        Self { role, content }
    }

    /// The name of the message's role.
    pub fn role(&self) -> (r: &str)
        ensures
            r@ == self@.0,
    {
        self.role.as_str()
    }

    /// The message's content.
    pub fn content(&self) -> (r: &str)
        ensures
            r@ == self@.1,
    {
        self.content.as_str()
    }
}

/// A conversation: its messages in order.
pub struct LlmContext {
    conversation: Vec<Message>,
}

impl View for LlmContext {
    type V = Seq<(Seq<char>, Seq<char>)>;

    closed spec fn view(&self) -> Seq<(Seq<char>, Seq<char>)> {
        self.conversation@.map_values(|m: Message| m@)
    }
}

impl LlmContext {
    /// An empty conversation.
    pub fn new() -> (r: Self)
        ensures
            r@ == Seq::<(Seq<char>, Seq<char>)>::empty(),
    {
        let r = Self { conversation: Vec::new() };
        assert(r@ =~= Seq::<(Seq<char>, Seq<char>)>::empty());
        r
    }

    /// The messages of the conversation, in order.
    pub fn messages(&self) -> (r: &Vec<Message>)
        ensures
            r@.map_values(|m: Message| m@) == self@,
    {
        &self.conversation
    }
}

impl Default for LlmContext {
    /// An empty conversation.
    fn default() -> (r: Self)
        ensures
            r@ == Seq::<(Seq<char>, Seq<char>)>::empty(),
    {
        Self::new()
    }
}

/// A store of conversation messages.
pub trait LlmContextManager: Sized {
    /// The store with one more message, last.
    fn add_message(self, msg: Message) -> Self;

    /// Forgets every message.
    fn clear(&mut self);
}

impl LlmContextManager for LlmContext {
    /// The conversation with one more message at its end.
    fn add_message(self, msg: Message) -> (r: Self)
        ensures
            r@ == self@.push(msg@),
    {
        let mut s = self;
        let ghost old_view = s@;
        let ghost mv = msg@;
        s.conversation.push(msg);
        assert(s@ =~= old_view.push(mv));
        s
    }

    /// Forgets every message.
    fn clear(&mut self)
        ensures
            final(self)@ == Seq::<(Seq<char>, Seq<char>)>::empty(),
    {
        self.conversation = Vec::new();
        assert(self@ =~= Seq::<(Seq<char>, Seq<char>)>::empty());
    }
}

} // verus!
