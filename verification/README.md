# qstf

The frontend of the qst launcher, as a verified library. `src/` holds the
logic, proved with Verus; `app/` holds the iced window, the gRPC services and
the command line around it.

- `ui`: the window's state machine (`App::update` gives the new state and the
  actions to carry out), the result list with its scrolling rules
  (`ui::select`), prompt parsing (`ui::utils::extract_prompt`) and the
  settings window's choices.
  The lists' row positions are computed in `u16` and `usize` arithmetic;
  the messages that would overflow it (and a window message that would send
  before the channel to the server side is open) are excluded by the
  contracts, and `update_allowed` tells them apart at run time.
- `select`: the older application list with its flags.
- `connect`: the message pump between the window and the daemon.
- `comm`: the connection retries of the older interaction service.
- `rpc`: the registry of extensions behind prompts, the replies of the daemon
  and of the extensions, and the retry rules of requests and connections.
- `src_tauri`: the logic of the desktop (webview) frontend.

The gRPC messages and clients come from protocol definitions that `app/`
includes as generated code.
