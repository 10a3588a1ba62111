# terminai

A terminal chat client for language models served by Ollama (and, in part,
Gemini).

- `src/` is the verified library: the conversation state machine
  (`llm_context`), the roles and messages, the requests sent to the chat
  endpoint and the handling of each streamed chunk (`models::ollama`), the
  Gemini request body and the trimming of its key file (`models::gemini`),
  the client's loading flags (`app_state`), the spinner's frame cycle and the
  prompt buttons (`custom_views`). Every function there has a contract proved
  by Verus, and the proof functions state what holds across calls: a
  streamed reply ends up whole in the conversation, a failed call leaves the
  loading area ready, an added message is sent by the next call, role names
  read back, the spinner cycles.
- `app/` is the program around it: the terminal interface (cursive), the
  threads and channels, HTTP (reqwest) and JSON (serde). It hands the library
  plain values and carries out the actions the library returns.

## Choices where the code leaves the behaviour open

- The prompt view's "TOGGLE THOUGHTS" button sends `ToggleThoughts`. Nothing
  in the client says what toggling does, so handling that request changes no
  state and asks for nothing (`ContextAction::Nothing`).
- A streamed reply is ended under the role that its last chunk gave, or
  `assistant` when no chunk was read (`StreamAssembler::end_update`).
- The reply recorded by the shared-context stream is a message of the system
  role with no reasoning (`StreamAssembler::into_system_message`).
- The stream that feeds the conversation is called without the screen's
  callback sink, yet shows its errors through one; the conversation thread
  hands it its own sink. A chunk that cannot be read puts nothing on the
  conversation's channel.
