use terminai::app_state::{
    get_is_loading, get_is_streaming, set_is_loading, set_is_streaming, set_ready, AppState,
};
use terminai::custom_views::spinner_view::{first_frame, spinner_frames, SpinAction, Spinner};
use terminai::models::gemini::{
    api_key_from, request_body, white_space, GapiPart, GapiReqBody, GapiReqParts,
};
use terminai::models::{LlmContext, LlmContextManager, Message};

#[test]
fn app_state_starts_ready() {
    let s = AppState::new();
    assert!(!s.loading && !s.streaming);
    let mut slot = Some(AppState { loading: true, streaming: true });
    AppState::init(&mut slot);
    assert_eq!(slot, Some(AppState { loading: false, streaming: false }));
}

#[test]
fn app_state_setters() {
    let mut slot = Some(AppState::new());
    set_is_loading(&mut slot);
    assert_eq!(slot, Some(AppState { loading: true, streaming: false }));
    assert!(get_is_loading(&slot));
    set_is_streaming(&mut slot);
    assert_eq!(slot, Some(AppState { loading: false, streaming: true }));
    assert!(!get_is_loading(&slot));
    set_ready(&mut slot);
    assert_eq!(slot, Some(AppState { loading: false, streaming: false }));
}

#[test]
fn app_state_empty_slot_stays_empty() {
    let mut slot: Option<AppState> = None;
    set_is_loading(&mut slot);
    assert_eq!(slot, None);
    set_is_streaming(&mut slot);
    set_ready(&mut slot);
    assert_eq!(slot, None);
    assert!(!get_is_loading(&slot));
    assert!(!get_is_streaming(&slot));
}

#[test]
fn get_is_streaming_reports_the_loading_flag() {
    let mut slot = Some(AppState::new());
    set_is_streaming(&mut slot);
    assert!(!get_is_streaming(&slot));
    set_is_loading(&mut slot);
    assert!(get_is_streaming(&slot));
}

#[test]
fn spinner_cycles_through_its_frames() {
    let frames = spinner_frames();
    assert_eq!(frames, vec!["⠙", "⠹", "⠸", "⠼", "⠴", "⠦", "⠧", "⠇", "⠏"]);
    assert_eq!(first_frame(), "⠙");
    let mut s = Spinner::new(frames.clone());
    let mut shown = Vec::new();
    for _ in 0..18 {
        match s.step(false) {
            SpinAction::Show(f) => shown.push(f),
            SpinAction::Stop => panic!("stopped without a signal"),
        }
    }
    for k in 0..18 {
        assert_eq!(shown[k], frames[k % 9]);
    }
    assert_eq!(s.step(true), SpinAction::Stop);
    assert_eq!(s.step(false), SpinAction::Show("⠙".to_string()));
}

#[test]
fn spinner_without_frames_shows_the_first_frame() {
    let mut s = Spinner::new(Vec::new());
    assert_eq!(s.step(false), SpinAction::Show("⠙".to_string()));
    assert_eq!(s.step(false), SpinAction::Show("⠙".to_string()));
}

#[test]
fn gemini_request_holds_the_prompt() {
    assert_eq!(
        request_body("Explain".to_string()),
        GapiReqBody {
            contents: vec![GapiReqParts { parts: vec![GapiPart { text: "Explain".to_string() }] }]
        }
    );
}

#[test]
fn shared_context_adds_and_clears() {
    let ctx = LlmContext::default();
    assert!(ctx.messages().is_empty());
    let ctx = ctx.add_message(Message::new("user".to_string(), "hi".to_string()));
    let mut ctx = ctx.add_message(Message::new("assistant".to_string(), "hello".to_string()));
    let m = ctx.messages();
    assert_eq!(m.len(), 2);
    assert_eq!(m[0].role(), "user");
    assert_eq!(m[0].content(), "hi");
    assert_eq!(m[1].role(), "assistant");
    assert_eq!(m[1].content(), "hello");
    ctx.clear();
    assert!(ctx.messages().is_empty());
}

#[test]
fn api_key_is_trimmed() {
    assert_eq!(api_key_from("  abc123\n"), "abc123");
    assert_eq!(api_key_from("\t\r\n"), "");
    assert_eq!(api_key_from(""), "");
    assert_eq!(api_key_from("a b"), "a b");
    assert_eq!(api_key_from("\u{3000}key\u{a0}"), "key");
    for text in ["  x  ", "\u{2028}y\u{85}", "\u{200b}z", " \u{1680}q\u{202f} "] {
        assert_eq!(api_key_from(text), text.trim());
    }
}

#[test]
fn white_space_matches_std() {
    for c in ['\u{0}', '\t', '\n', '\u{b}', '\u{c}', '\r', ' ', 'a', '\u{85}', '\u{a0}', '\u{1680}',
        '\u{2000}', '\u{200a}', '\u{200b}', '\u{2028}', '\u{2029}', '\u{202f}', '\u{205f}',
        '\u{3000}', '\u{feff}', '\u{180e}']
    {
        assert_eq!(white_space(c), c.is_whitespace(), "{:?}", c);
    }
    for n in 0u32..0x3100 {
        if let Some(c) = char::from_u32(n) {
            assert_eq!(white_space(c), c.is_whitespace(), "{:?}", c);
        }
    }
}
