use terminai::custom_views::llm_prompt_view::{prompt_buttons, PromptButton};
use terminai::llm_context::{
    loading_label, user_prompt_messages, ContextAction, LlmContext, LlmContextUpdateMessage,
    LoadingState, Message, Role,
};
use terminai::models::ollama::{
    call_api_request, call_api_with_mux_request, outgoing_messages, LlmContextManager,
    StreamEvent, StreamStep,
    OllamaMessage, OllamaStreamingResponse, OutgoingMessage, StreamAssembler,
};

fn response(role: &str, content: &str) -> OllamaStreamingResponse {
    OllamaStreamingResponse {
        model: "deepseek-r1".to_string(),
        created_at: "2025-01-01T00:00:00Z".to_string(),
        message: OllamaMessage {
            role: role.to_string(),
            content: content.to_string(),
            thinking: None,
            tool_calls: None,
            images: None,
        },
        done: false,
        done_reason: None,
        total_duration: None,
        load_duration: None,
        prompt_eval_count: None,
        prompt_eval_duration: None,
        eval_count: None,
        eval_duration: None,
        logprobs: None,
    }
}

fn out(role: &str, content: &str) -> OutgoingMessage {
    OutgoingMessage { role: role.to_string(), content: content.to_string() }
}

#[test]
fn role_names_are_written_in_lower_case() {
    assert_eq!(Role::User.to_string(), "user");
    assert_eq!(Role::Model.to_string(), "model");
    assert_eq!(Role::System.to_string(), "system");
    assert_eq!(Role::Assistant.to_string(), "assistant");
    assert_eq!(Role::Tool.to_string(), "tool");
    assert_eq!(Role::Other("critic".to_string()).to_string(), "critic");
}

#[test]
fn role_names_are_read_back() {
    assert_eq!(Role::from("user"), Role::User);
    assert_eq!(Role::from("model"), Role::Model);
    assert_eq!(Role::from("assistant"), Role::Assistant);
    assert_eq!(Role::from("tool"), Role::Tool);
    assert_eq!(Role::from("system"), Role::System);
    assert_eq!(Role::from("User"), Role::Other("User".to_string()));
    assert_eq!(Role::from(""), Role::Other(String::new()));
}

#[test]
fn role_name_round_trip() {
    for name in ["user", "model", "system", "assistant", "tool", "critic", "", "USER"] {
        assert_eq!(Role::from(name).to_string(), name);
    }
    for role in [Role::User, Role::Model, Role::System, Role::Assistant, Role::Tool] {
        let name = role.to_string();
        assert_eq!(Role::from(name.as_str()), role);
    }
    // An `Other` role named like a known one does not come back as itself.
    assert_eq!(Role::from(Role::Other("user".to_string()).to_string().as_str()), Role::User);
}

#[test]
fn message_new_keeps_its_parts() {
    let m = Message::new(Role::Tool, "42".to_string(), Some("thinking".to_string()));
    assert_eq!(m.role, Role::Tool);
    assert_eq!(m.content, "42");
    assert_eq!(m.thought, Some("thinking".to_string()));
}

#[test]
fn loading_labels() {
    assert_eq!(loading_label(LoadingState::Ready), None);
    assert_eq!(loading_label(LoadingState::Fetching), Some("Fetching"));
    assert_eq!(loading_label(LoadingState::Streaming), Some("Cooking"));
    assert_eq!(loading_label(LoadingState::Thinking), Some("Thinking"));
}

#[test]
fn streamed_reply_is_recorded_with_its_thought() {
    let mut ctx = LlmContext::new();
    assert_eq!(
        ctx.handle(LlmContextUpdateMessage::AddToCurrentThought("hmm".to_string())),
        ContextAction::AppendThought("hmm".to_string())
    );
    assert_eq!(
        ctx.handle(LlmContextUpdateMessage::AppendToCurrentMessage("Hel".to_string())),
        ContextAction::AppendOutput("Hel".to_string())
    );
    ctx.handle(LlmContextUpdateMessage::AppendToCurrentMessage("lo".to_string()));
    assert_eq!(ctx.current_message(), "Hello");
    assert_eq!(ctx.current_thought(), "hmm");
    assert_eq!(
        ctx.handle(LlmContextUpdateMessage::CurrentMessageEnd(Role::Assistant)),
        ContextAction::Send(LlmContextUpdateMessage::UpdateLoadingState(LoadingState::Ready))
    );
    assert_eq!(
        ctx.conversation(),
        &vec![Message::new(Role::Assistant, "Hello".to_string(), Some("hmm".to_string()))]
    );
    assert_eq!(ctx.current_message(), "");
    assert_eq!(ctx.current_thought(), "");
}

#[test]
fn call_api_sends_the_conversation() {
    let mut ctx = LlmContext::new();
    assert_eq!(ctx.handle(LlmContextUpdateMessage::CallApi), ContextAction::CallApi(vec![]));
    ctx.handle(LlmContextUpdateMessage::AddMessage(Message::new(
        Role::User,
        "hi".to_string(),
        None,
    )));
    ctx.handle(LlmContextUpdateMessage::AddMessage(Message::new(
        Role::Other("critic".to_string()),
        "meh".to_string(),
        Some("t".to_string()),
    )));
    assert_eq!(
        ctx.handle(LlmContextUpdateMessage::CallApi),
        ContextAction::CallApi(vec![out("user", "hi"), out("critic", "meh")])
    );
}

#[test]
fn clearing_requests() {
    let mut ctx = LlmContext::new();
    ctx.handle(LlmContextUpdateMessage::AddMessage(Message::new(Role::User, "q".to_string(), None)));
    ctx.handle(LlmContextUpdateMessage::AppendToCurrentMessage("partial".to_string()));
    ctx.handle(LlmContextUpdateMessage::AddToCurrentThought("idea".to_string()));
    assert_eq!(ctx.handle(LlmContextUpdateMessage::ClearOutput), ContextAction::ClearOutput);
    assert_eq!(ctx.current_message(), "partial");
    assert_eq!(ctx.handle(LlmContextUpdateMessage::ClearPrompt), ContextAction::ClearPromptArea);
    assert_eq!(ctx.current_message(), "");
    assert_eq!(ctx.conversation().len(), 1);
    ctx.handle(LlmContextUpdateMessage::AppendToCurrentMessage("again".to_string()));
    assert_eq!(ctx.handle(LlmContextUpdateMessage::ClearContext), ContextAction::ClearOutput);
    assert!(ctx.conversation().is_empty());
    assert_eq!(ctx.current_message(), "");
    // The reasoning received so far is kept by a clear of the context.
    assert_eq!(ctx.current_thought(), "idea");
    assert_eq!(ctx.handle(LlmContextUpdateMessage::CallApi), ContextAction::CallApi(vec![]));
}

#[test]
fn screen_only_requests() {
    let mut ctx = LlmContext::new();
    assert_eq!(
        ctx.handle(LlmContextUpdateMessage::UpdateLoadingState(LoadingState::Thinking)),
        ContextAction::ShowLoading(LoadingState::Thinking)
    );
    assert_eq!(ctx.handle(LlmContextUpdateMessage::ViewCurrentContext), ContextAction::ShowContext);
    assert_eq!(ctx.handle(LlmContextUpdateMessage::AddUserPrompt), ContextAction::ReadPrompt);
    assert_eq!(
        ctx.handle(LlmContextUpdateMessage::Error("offline".to_string())),
        ContextAction::ShowError("offline".to_string())
    );
    assert_eq!(ctx.handle(LlmContextUpdateMessage::Stop), ContextAction::Stop);
    assert!(ctx.conversation().is_empty());
}

#[test]
fn submitted_prompt_flow() {
    let mut ctx = LlmContext::new();
    ctx.handle(LlmContextUpdateMessage::AppendToCurrentMessage("old".to_string()));
    let updates = user_prompt_messages("What is Rust?".to_string());
    assert_eq!(
        updates,
        vec![
            LlmContextUpdateMessage::AddMessage(Message::new(
                Role::User,
                "What is Rust?".to_string(),
                None
            )),
            LlmContextUpdateMessage::CallApi,
            LlmContextUpdateMessage::ClearPrompt,
        ]
    );
    let actions: Vec<ContextAction> = updates.into_iter().map(|u| ctx.handle(u)).collect();
    assert_eq!(
        actions,
        vec![
            ContextAction::Nothing,
            ContextAction::CallApi(vec![out("user", "What is Rust?")]),
            ContextAction::ClearPromptArea,
        ]
    );
    assert_eq!(ctx.current_message(), "");
}

#[test]
fn outgoing_messages_drop_the_thought() {
    let conversation = vec![
        Message::new(Role::System, "be brief".to_string(), None),
        Message::new(Role::Assistant, "ok".to_string(), Some("sure".to_string())),
    ];
    assert_eq!(
        outgoing_messages(&conversation),
        vec![out("system", "be brief"), out("assistant", "ok")]
    );
}

#[test]
fn requests_name_their_model() {
    let conversation = vec![Message::new(Role::User, "hi".to_string(), None)];
    let r = call_api_request(outgoing_messages(&conversation));
    assert_eq!(r.model, "deepseek-r1");
    assert_eq!(r.messages, vec![out("user", "hi")]);
    let r = call_api_with_mux_request(outgoing_messages(&conversation));
    assert_eq!(r.model, "gemma3");
    assert_eq!(r.messages, vec![out("user", "hi")]);
}

#[test]
fn stream_chunks_become_requests() {
    let mut a = StreamAssembler::new();
    assert_eq!(
        a.on_response(response("assistant", "<think>")),
        vec![
            LlmContextUpdateMessage::UpdateLoadingState(LoadingState::Thinking),
            LlmContextUpdateMessage::AppendToCurrentMessage("<think>".to_string()),
        ]
    );
    assert_eq!(
        a.on_response(response("assistant", "</think>")),
        vec![
            LlmContextUpdateMessage::UpdateLoadingState(LoadingState::Streaming),
            LlmContextUpdateMessage::AppendToCurrentMessage("</think>".to_string()),
        ]
    );
    assert_eq!(
        a.on_response(response("assistant", "Hi")),
        vec![LlmContextUpdateMessage::AppendToCurrentMessage("Hi".to_string())]
    );
    assert_eq!(a.content(), "<think></think>Hi");
    assert_eq!(a.end_update(), LlmContextUpdateMessage::CurrentMessageEnd(Role::Assistant));
    assert_eq!(a.into_system_message(), Message::new(Role::System, "<think></think>Hi".to_string(), None));
}

#[test]
fn stream_end_role() {
    let a = StreamAssembler::new();
    assert_eq!(a.end_update(), LlmContextUpdateMessage::CurrentMessageEnd(Role::Assistant));
    let mut a = StreamAssembler::new();
    a.on_response(response("tool", "x"));
    assert_eq!(a.end_update(), LlmContextUpdateMessage::CurrentMessageEnd(Role::Tool));
}

#[test]
fn whole_stream_reaches_the_context() {
    let mut ctx = LlmContext::new();
    let mut a = StreamAssembler::new();
    for chunk in ["<think>", "plan", "</think>", "Hello", ", world"] {
        for u in a.on_response(response("assistant", chunk)) {
            ctx.handle(u);
        }
    }
    ctx.handle(a.end_update());
    assert_eq!(
        ctx.conversation(),
        &vec![Message::new(
            Role::Assistant,
            "<think>plan</think>Hello, world".to_string(),
            Some(String::new())
        )]
    );
}

#[test]
fn context_manager_adds_and_clears() {
    let ctx = LlmContext::new();
    let mut ctx = ctx.add_message(Message::new(Role::User, "a".to_string(), None));
    assert_eq!(ctx.conversation().len(), 1);
    ctx.handle(LlmContextUpdateMessage::AppendToCurrentMessage("b".to_string()));
    LlmContextManager::clear(&mut ctx);
    assert!(ctx.conversation().is_empty());
    assert_eq!(ctx.current_message(), "b");
}

#[test]
fn prompt_buttons_send_their_requests() {
    let buttons = prompt_buttons();
    let labels: Vec<&str> = buttons.iter().map(|b| b.label()).collect();
    assert_eq!(
        labels,
        vec![
            "PROMPT",
            "TOGGLE THOUGHTS",
            "CLEAR PROMPT",
            "CLEAR OUTPUT",
            "CLEAR CONTEXT",
            "VIEW CONTEXT"
        ]
    );
    assert_eq!(PromptButton::Prompt.message(), LlmContextUpdateMessage::AddUserPrompt);
    assert_eq!(PromptButton::ToggleThoughts.message(), LlmContextUpdateMessage::ToggleThoughts);
    assert_eq!(PromptButton::ClearPrompt.message(), LlmContextUpdateMessage::ClearPrompt);
    assert_eq!(PromptButton::ClearOutput.message(), LlmContextUpdateMessage::ClearOutput);
    assert_eq!(PromptButton::ClearContext.message(), LlmContextUpdateMessage::ClearContext);
    assert_eq!(PromptButton::ViewContext.message(), LlmContextUpdateMessage::ViewCurrentContext);
}

#[test]
fn role_from_trait_and_into() {
    let r: Role = "assistant".into();
    assert_eq!(r, Role::Assistant);
    assert_eq!(Role::from_name("tool"), Role::Tool);
    assert_eq!(<Role as From<&str>>::from("x"), Role::Other("x".to_string()));
}

#[test]
fn toggle_thoughts_changes_nothing() {
    let mut ctx = LlmContext::new();
    ctx.handle(LlmContextUpdateMessage::AppendToCurrentMessage("a".to_string()));
    ctx.handle(LlmContextUpdateMessage::AddToCurrentThought("t".to_string()));
    assert_eq!(ctx.handle(LlmContextUpdateMessage::ToggleThoughts), ContextAction::Nothing);
    assert_eq!(ctx.current_message(), "a");
    assert_eq!(ctx.current_thought(), "t");
    assert!(ctx.conversation().is_empty());
}

#[test]
fn interleaved_reply_is_recorded() {
    let mut ctx = LlmContext::new();
    for u in [
        LlmContextUpdateMessage::UpdateLoadingState(LoadingState::Thinking),
        LlmContextUpdateMessage::AddToCurrentThought("so ".to_string()),
        LlmContextUpdateMessage::AppendToCurrentMessage("Hel".to_string()),
        LlmContextUpdateMessage::ViewCurrentContext,
        LlmContextUpdateMessage::AddToCurrentThought("then".to_string()),
        LlmContextUpdateMessage::ClearOutput,
        LlmContextUpdateMessage::AppendToCurrentMessage("lo".to_string()),
        LlmContextUpdateMessage::Error("x".to_string()),
    ] {
        ctx.handle(u);
    }
    ctx.handle(LlmContextUpdateMessage::CurrentMessageEnd(Role::Model));
    assert_eq!(
        ctx.conversation(),
        &vec![Message::new(Role::Model, "Hello".to_string(), Some("so then".to_string()))]
    );
}

fn send(u: LlmContextUpdateMessage) -> StreamStep {
    StreamStep::Send(u)
}

#[test]
fn stream_session_steps() {
    let mut a = StreamAssembler::new();
    assert_eq!(
        a.on_event(StreamEvent::Start),
        vec![send(LlmContextUpdateMessage::UpdateLoadingState(LoadingState::Fetching))]
    );
    assert_eq!(
        a.on_event(StreamEvent::CallSucceeded),
        vec![send(LlmContextUpdateMessage::UpdateLoadingState(LoadingState::Streaming))]
    );
    assert_eq!(
        a.on_event(StreamEvent::Chunk(response("assistant", "<think>"))),
        vec![
            send(LlmContextUpdateMessage::UpdateLoadingState(LoadingState::Thinking)),
            send(LlmContextUpdateMessage::AppendToCurrentMessage("<think>".to_string())),
        ]
    );
    assert_eq!(
        a.on_event(StreamEvent::ChunkFailed { is_eof: true, report: "eof".to_string() }),
        vec![]
    );
    assert_eq!(
        a.on_event(StreamEvent::ChunkFailed { is_eof: false, report: "bad".to_string() }),
        vec![StreamStep::Show("bad".to_string())]
    );
    assert_eq!(
        a.on_event(StreamEvent::Chunk(response("tool", "ok"))),
        vec![send(LlmContextUpdateMessage::AppendToCurrentMessage("ok".to_string()))]
    );
    assert_eq!(
        a.on_event(StreamEvent::End),
        vec![send(LlmContextUpdateMessage::CurrentMessageEnd(Role::Tool))]
    );
    assert_eq!(a.content(), "<think>ok");
}

#[test]
fn failed_stream_shows_the_error_and_ends_ready() {
    let mut a = StreamAssembler::new();
    let mut steps = a.on_event(StreamEvent::Start);
    steps.extend(a.on_event(StreamEvent::CallFailed("refused".to_string())));
    assert_eq!(
        steps,
        vec![
            send(LlmContextUpdateMessage::UpdateLoadingState(LoadingState::Fetching)),
            send(LlmContextUpdateMessage::UpdateLoadingState(LoadingState::Streaming)),
            StreamStep::Show("refused".to_string()),
            send(LlmContextUpdateMessage::UpdateLoadingState(LoadingState::Ready)),
        ]
    );
    let mut ctx = LlmContext::new();
    let mut last = None;
    for step in steps {
        if let StreamStep::Send(u) = step {
            last = Some(ctx.handle(u));
        }
    }
    assert_eq!(last, Some(ContextAction::ShowLoading(LoadingState::Ready)));
    assert!(ctx.conversation().is_empty());
}

#[test]
fn completed_stream_is_recorded() {
    let mut ctx = LlmContext::new();
    let mut a = StreamAssembler::new();
    let events = vec![
        StreamEvent::Start,
        StreamEvent::CallSucceeded,
        StreamEvent::Chunk(response("assistant", "Hel")),
        StreamEvent::ChunkFailed { is_eof: false, report: "bad".to_string() },
        StreamEvent::Chunk(response("assistant", "lo")),
        StreamEvent::End,
    ];
    let mut shown = Vec::new();
    for e in events {
        for step in a.on_event(e) {
            match step {
                StreamStep::Send(u) => {
                    ctx.handle(u);
                }
                StreamStep::Show(t) => shown.push(t),
            }
        }
    }
    assert_eq!(shown, vec!["bad".to_string()]);
    assert_eq!(
        ctx.conversation(),
        &vec![Message::new(Role::Assistant, "Hello".to_string(), Some(String::new()))]
    );
}
