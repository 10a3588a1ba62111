use vstd::prelude::*;

use crate::llm_context::{LlmContextUpdateMessage, UpdateView};

verus! {

/// The buttons under the prompt area, each of which sends one request.
#[derive(Debug, Clone, Copy, PartialEq, Eq, Structural)]
pub enum PromptButton {
    Prompt,
    ToggleThoughts,
    ClearPrompt,
    ClearOutput,
    ClearContext,
    ViewContext,
}

/// The buttons under the prompt area, in the order they are shown.
pub open spec fn buttons_spec() -> Seq<PromptButton> {
    seq![
        PromptButton::Prompt,
        PromptButton::ToggleThoughts,
        PromptButton::ClearPrompt,
        PromptButton::ClearOutput,
        PromptButton::ClearContext,
        PromptButton::ViewContext,
    ]
}

/// The text of a button.
pub open spec fn label_spec(b: PromptButton) -> Seq<char> {
    match b {
        PromptButton::Prompt => "PROMPT"@,
        PromptButton::ToggleThoughts => "TOGGLE THOUGHTS"@,
        PromptButton::ClearPrompt => "CLEAR PROMPT"@,
        PromptButton::ClearOutput => "CLEAR OUTPUT"@,
        PromptButton::ClearContext => "CLEAR CONTEXT"@,
        PromptButton::ViewContext => "VIEW CONTEXT"@,
    }
}

/// The request that a button sends.
pub open spec fn update_spec(b: PromptButton) -> UpdateView {
    match b {
        PromptButton::Prompt => UpdateView::AddUserPrompt,
        PromptButton::ToggleThoughts => UpdateView::ToggleThoughts,
        PromptButton::ClearPrompt => UpdateView::ClearPrompt,
        PromptButton::ClearOutput => UpdateView::ClearOutput,
        PromptButton::ClearContext => UpdateView::ClearContext,
        PromptButton::ViewContext => UpdateView::ViewCurrentContext,
    }
}

/// The buttons under the prompt area, in the order they are shown.
pub fn prompt_buttons() -> (r: Vec<PromptButton>)
    ensures
        r@ == buttons_spec(),
{
    let mut r: Vec<PromptButton> = Vec::new();
    r.push(PromptButton::Prompt);
    r.push(PromptButton::ToggleThoughts);
    r.push(PromptButton::ClearPrompt);
    r.push(PromptButton::ClearOutput);
    r.push(PromptButton::ClearContext);
    r.push(PromptButton::ViewContext);
    assert(r@ =~= buttons_spec());
    r
}

impl PromptButton {
    /// The text of the button.
    pub fn label(self) -> (r: &'static str)
        ensures
            r@ == label_spec(self),
    {
        match self {
            PromptButton::Prompt => "PROMPT",
            PromptButton::ToggleThoughts => "TOGGLE THOUGHTS",
            PromptButton::ClearPrompt => "CLEAR PROMPT",
            PromptButton::ClearOutput => "CLEAR OUTPUT",
            PromptButton::ClearContext => "CLEAR CONTEXT",
            PromptButton::ViewContext => "VIEW CONTEXT",
        }
    }

    /// The request that the button sends when pressed.
    pub fn message(self) -> (r: LlmContextUpdateMessage)
        ensures
            r@ == update_spec(self),
    {
        match self {
            PromptButton::Prompt => LlmContextUpdateMessage::AddUserPrompt,
            PromptButton::ToggleThoughts => LlmContextUpdateMessage::ToggleThoughts,
            PromptButton::ClearPrompt => LlmContextUpdateMessage::ClearPrompt,
            PromptButton::ClearOutput => LlmContextUpdateMessage::ClearOutput,
            PromptButton::ClearContext => LlmContextUpdateMessage::ClearContext,
            PromptButton::ViewContext => LlmContextUpdateMessage::ViewCurrentContext,
        }
    }
}

/// The six buttons under the prompt area, in order, and what each says and
/// sends: PROMPT submits the prompt, TOGGLE THOUGHTS toggles the reasoning,
/// CLEAR PROMPT, CLEAR OUTPUT and CLEAR CONTEXT clear what they name, and
/// VIEW CONTEXT shows the conversation.
pub proof fn lemma_buttons()
    ensures
        buttons_spec().len() == 6,
        label_spec(buttons_spec()[0]) == "PROMPT"@,
        update_spec(buttons_spec()[0]) == UpdateView::AddUserPrompt,
        label_spec(buttons_spec()[1]) == "TOGGLE THOUGHTS"@,
        update_spec(buttons_spec()[1]) == UpdateView::ToggleThoughts,
        label_spec(buttons_spec()[2]) == "CLEAR PROMPT"@,
        update_spec(buttons_spec()[2]) == UpdateView::ClearPrompt,
        label_spec(buttons_spec()[3]) == "CLEAR OUTPUT"@,
        update_spec(buttons_spec()[3]) == UpdateView::ClearOutput,
        label_spec(buttons_spec()[4]) == "CLEAR CONTEXT"@,
        update_spec(buttons_spec()[4]) == UpdateView::ClearContext,
        label_spec(buttons_spec()[5]) == "VIEW CONTEXT"@,
        update_spec(buttons_spec()[5]) == UpdateView::ViewCurrentContext,
{
}

} // verus!
