use vstd::prelude::*;

pub mod error;
pub mod select;
pub mod setting;
pub mod utils;

pub use error::Error;
pub use select::Item;

verus! {

use select::{ScrollAction, Select, SelectView};
use utils::{extract_prompt, spec_extract_prompt};

/// Gap between the widgets of the window.
pub const SPACING: u16 = 5;

/// Padding around the window's content.
pub const PADDING: u16 = 5;

/// Height of one line of text.
pub const TEXT_WIDTH: u16 = 35;

/// Width of the window when it opens.
pub const WIN_INIT_WIDTH: u32 = 300;

/// Height of the window when it opens.
pub const WIN_INIT_HEIGHT: u32 = 245;

/// What the window's height loses to the input line, the spacings and the
/// padding before the result list starts.
pub const LIST_OVERHEAD: u16 = 60;

/// Size of the window.
#[derive(Debug, Clone, Copy, PartialEq, Eq, Structural)]
pub struct Size {
    pub width: u32,
    pub height: u32,
}

/// Events that come from the widgets of the window.
#[derive(Debug, Clone)]
pub enum FromUi {
    InputChanged(String),
    Select(select::Message),
    Submit,
}

/// Replies of the server side.
#[derive(Debug, Clone)]
pub enum FromServer {
    Connected,
    Search(Vec<Item>),
    Submit,
}

/// Requests to the server side.
#[derive(Debug, Clone)]
pub enum ToServer {
    Connect(String),
    Search { prompt: String, content: String },
    Submit { prompt: String, obj_id: u32, hint: Option<String> },
}

/// Window events that the application reacts to.
#[derive(Debug, Clone, Copy, PartialEq, Eq, Structural)]
pub enum UserEvent {
    Resized { width: u32, height: u32 },
    KeyUp,
    KeyDown,
    Other,
}

/// Everything the application reacts to. `Start` says that the channel to
/// the server side is open.
#[derive(Debug)]
pub enum Message {
    Start,
    FromServer(Result<FromServer, Error>),
    ToServer(ToServer),
    FromUi(FromUi),
    UserEvent(UserEvent),
}

impl Clone for Message {
    fn clone(&self) -> (r: Message) {
        match self {
            Message::Start => Message::Start,
            Message::FromServer(Ok(x)) => Message::FromServer(Ok(x.clone())),
            Message::FromServer(Err(e)) => Message::FromServer(Err(e.clone())),
            Message::ToServer(t) => Message::ToServer(t.clone()),
            Message::FromUi(u) => Message::FromUi(u.clone()),
            Message::UserEvent(e) => Message::UserEvent(*e),
        }
    }
}

/// What the application asks of the window and of the server channel, in
/// the order given.
///
/// `Send` sends a request to the server side; when sending fails and
/// `retry` holds, the request comes back as `Message::ToServer` after 200 ms,
/// else the failure is only logged. `Dispatch` feeds a message back to the
/// application.
#[derive(Debug, Clone)]
pub enum Action {
    Send { req: ToServer, retry: bool },
    Dispatch(Message),
    FocusInput,
    Exit(i32),
    Scroll(ScrollAction),
    ResizeWindow(Size),
}

/// Whether the user picks an entry or types its arguments.
#[derive(Debug)]
pub enum Runstate {
    Select,
    AddArgs { placeholder: String, input: String, obj_id: u32 },
}

/// The abstract form of a [`Runstate`].
pub enum RunstateView {
    Select,
    AddArgs { placeholder: Seq<char>, input: Seq<char>, obj_id: u32 },
}

impl View for Runstate {
    type V = RunstateView;

    open spec fn view(&self) -> RunstateView {
        match self {
            Runstate::Select => RunstateView::Select,
            Runstate::AddArgs { placeholder, input, obj_id } => RunstateView::AddArgs {
                placeholder: placeholder@,
                input: input@,
                obj_id: *obj_id,
            },
        }
    }
}

/// The launcher window's state.
pub struct App {
    endpoint: String,
    started: bool,
    select: Select,
    win_size: Size,
    placeholder: String,
    input: String,
    prompt: String,
    runstate: Runstate,
}

/// The abstract state of an [`App`].
pub struct AppView {
    pub endpoint: Seq<char>,
    pub started: bool,
    pub select: SelectView,
    pub win_size: Size,
    pub placeholder: Seq<char>,
    pub input: Seq<char>,
    pub prompt: Seq<char>,
    pub runstate: RunstateView,
}

impl View for App {
    type V = AppView;

    closed spec fn view(&self) -> AppView {
        AppView {
            endpoint: self.endpoint@,
            started: self.started,
            select: self.select@,
            win_size: self.win_size,
            placeholder: self.placeholder@,
            input: self.input@,
            prompt: self.prompt@,
            runstate: self.runstate@,
        }
    }
}

/// The placeholder shown for an entry whose arguments come without a hint.
pub open spec fn no_args_hint() -> Seq<char> {
    "none args"@
}

/// State after picking the selected entry: its arguments are asked for, and
/// the input and placeholder typed so far are put aside. Without a selected
/// entry nothing changes.
pub open spec fn select_spec(a: AppView) -> AppView {
    if a.select.selected_index < a.select.apps.len() {
        let item = a.select.apps[a.select.selected_index as int];
        AppView {
            runstate: RunstateView::AddArgs {
                placeholder: a.placeholder,
                input: a.input,
                obj_id: item.obj_id,
            },
            placeholder: match item.arg_hint {
                Some(h) => h@,
                None => no_args_hint(),
            },
            input: Seq::empty(),
            ..a
        }
    } else {
        a
    }
}

/// State after going back from asking arguments to picking an entry: the
/// input and placeholder put aside come back.
pub open spec fn reload_spec(a: AppView) -> AppView {
    match a.runstate {
        RunstateView::AddArgs { placeholder, input, .. } => AppView {
            placeholder,
            input,
            runstate: RunstateView::Select,
            ..a
        },
        RunstateView::Select => a,
    }
}

/// `act` is the submission of entry `obj_id` with the input as its argument.
pub open spec fn is_submit(a: AppView, obj_id: u32, act: Action) -> bool {
    &&& act matches Action::Send { req: ToServer::Submit { prompt, obj_id: id, hint: Some(h) }, retry }
    &&& prompt@ == a.prompt
    &&& id == obj_id
    &&& h@ == a.input
    &&& !retry
}

/// Height of the result list in a window `height` pixels high.
pub open spec fn list_height(height: u32) -> u16 {
    let h = height as u16;
    if h >= LIST_OVERHEAD {
        (h - LIST_OVERHEAD) as u16
    } else {
        0
    }
}

/// What the application does on a submit (the enter key): pick the selected
/// entry, or submit the entry whose arguments are being typed.
pub open spec fn submit_step(a: AppView, post: AppView, acts: Seq<Action>) -> bool {
    match a.runstate {
        RunstateView::Select => post == select_spec(a) && acts.len() == 0,
        RunstateView::AddArgs { obj_id, .. } => post == a && acts.len() == 1 && is_submit(
            a,
            obj_id,
            acts[0],
        ),
    }
}

/// Handling `msg` in state `a` sends a request to the server side at once.
pub open spec fn sends(a: AppView, msg: Message) -> bool {
    match msg {
        Message::ToServer(_) => true,
        Message::FromUi(FromUi::Submit) => a.runstate is AddArgs,
        Message::FromUi(FromUi::Select(select::Message::Push { obj_id: sid, .. })) => {
            &&& a.runstate matches RunstateView::AddArgs { obj_id, .. }
            &&& obj_id == sid
        },
        Message::FromUi(FromUi::InputChanged(input)) => input@.len() > 0 && match spec_extract_prompt(
            input@,
        ) {
            Some((p, _)) => a.runstate is Select || p != a.prompt,
            None => false,
        },
        _ => false,
    }
}

/// `msg` can be handled in state `a`: a request is sent only once the
/// channel to the server side is open (`Start`), and the list's positions
/// do not overflow.
pub open spec fn update_ok(a: AppView, msg: Message) -> bool {
    &&& sends(a, msg) ==> a.started
    &&& match msg {
        Message::FromUi(FromUi::Select(smsg)) => select::update_ok(a.select, smsg),
        Message::UserEvent(UserEvent::Resized { height, .. }) => select::update_ok(
            a.select,
            select::Message::Height(list_height(height)),
        ),
        Message::UserEvent(UserEvent::KeyUp) => select::update_ok(a.select, select::Message::Up),
        Message::UserEvent(UserEvent::KeyDown) => select::update_ok(
            a.select,
            select::Message::Down,
        ),
        _ => true,
    }
}

/// The state `post` and actions `acts` are what the application gives for
/// `msg` in state `a`.
pub open spec fn update_spec(a: AppView, msg: Message, post: AppView, acts: Seq<Action>) -> bool {
    match msg {
        Message::Start => {
            &&& post == AppView { started: true, ..a }
            &&& acts.len() == 1
            &&& acts[0] matches Action::Dispatch(Message::ToServer(ToServer::Connect(ep)))
            &&& ep@ == a.endpoint
        },
        Message::ToServer(req) => post == a && acts == seq![Action::Send { req, retry: true }],
        Message::FromServer(Ok(FromServer::Connected)) => post == a && acts == seq![
            Action::FocusInput,
        ],
        Message::FromServer(Ok(FromServer::Search(list))) => {
            let (s, r) = select::update_spec(a.select, select::Message::Refresh(list));
            post == AppView { select: s, ..a } && acts == seq![Action::Scroll(r)]
        },
        Message::FromServer(Ok(FromServer::Submit)) => post == a && acts == seq![Action::Exit(0)],
        Message::FromServer(Err(_)) => post == a && acts.len() == 0,
        Message::FromUi(FromUi::InputChanged(input)) => if input@.len() == 0 {
            &&& post == AppView { input: Seq::empty(), ..a }
            &&& acts.len() == 1
            &&& acts[0] matches Action::Dispatch(Message::FromServer(Ok(FromServer::Search(l))))
            &&& l@.len() == 0
        } else {
            match spec_extract_prompt(input@) {
                Some((p, c)) if a.runstate is Select || p != a.prompt => {
                    &&& post == AppView { input: input@, prompt: p, ..a }
                    &&& acts.len() == 1
                    &&& acts[0] matches Action::Send {
                        req: ToServer::Search { prompt, content },
                        retry,
                    }
                    &&& prompt@ == p
                    &&& content@ == c
                    &&& !retry
                },
                _ => post == AppView { input: input@, ..a } && acts.len() == 0,
            }
        },
        Message::FromUi(FromUi::Select(smsg)) => {
            let (s, r) = select::update_spec(a.select, smsg);
            let b = AppView { select: s, ..a };
            &&& acts.len() >= 2
            &&& acts[acts.len() - 2] == Action::Scroll(r)
            &&& acts[acts.len() - 1] == Action::FocusInput
            &&& match smsg {
                select::Message::Push { obj_id: sid, .. } => match a.runstate {
                    RunstateView::AddArgs { obj_id, .. } if sid == obj_id => post == b
                        && acts.len() == 3 && is_submit(b, sid, acts[0]),
                    _ => post == select_spec(b) && acts.len() == 2,
                },
                _ => post == b && acts.len() == 2,
            }
        },
        Message::FromUi(FromUi::Submit) => submit_step(a, post, acts),
        Message::UserEvent(UserEvent::Resized { width, height }) => {
            let (s, r) = select::update_spec(
                a.select,
                select::Message::Height(list_height(height)),
            );
            post == AppView { select: s, win_size: Size { width, height }, ..a } && acts == seq![
                Action::Scroll(r),
            ]
        },
        Message::UserEvent(UserEvent::KeyUp) => {
            let b = reload_spec(a);
            let (s, r) = select::update_spec(b.select, select::Message::Up);
            post == AppView { select: s, ..b } && acts == seq![Action::Scroll(r)]
        },
        Message::UserEvent(UserEvent::KeyDown) => {
            let b = reload_spec(a);
            let (s, r) = select::update_spec(b.select, select::Message::Down);
            post == AppView { select: s, ..b } && acts == seq![Action::Scroll(r)]
        },
        Message::UserEvent(UserEvent::Other) => post == a && acts.len() == 0,
    }
}

impl App {
    /// A fresh window that connects to `endpoint`, with the actions that
    /// size it.
    pub fn new(endpoint: String) -> (r: (App, Vec<Action>))
        ensures
            r.0@.endpoint == endpoint@,
            !r.0@.started,
            r.0@.select.apps.len() == 0,
            r.0@.select.selected_index == 0,
            r.0@.select.height == WIN_INIT_HEIGHT - LIST_OVERHEAD,
            r.0@.select.scroll_start == 0,
            r.0@.win_size == (Size { width: WIN_INIT_WIDTH, height: WIN_INIT_HEIGHT }),
            r.0@.placeholder == "[prompt]content"@,
            r.0@.input.len() == 0,
            r.0@.prompt.len() == 0,
            r.0@.runstate == RunstateView::Select,
            r.1@ == seq![
                Action::ResizeWindow(Size { width: WIN_INIT_WIDTH, height: WIN_INIT_HEIGHT }),
                Action::Scroll(ScrollAction::Stay),
            ],
    {
        assert(WIN_INIT_HEIGHT as u16 == 245u16) by (bit_vector);
        let (select, cmd) = Select::new(
            WIN_INIT_HEIGHT as u16 - (TEXT_WIDTH + SPACING * 2) - (PADDING * 2) - SPACING,
        );
        let app = App {
            endpoint,
            started: false,
            select,
            win_size: Size { width: WIN_INIT_WIDTH, height: WIN_INIT_HEIGHT },
            placeholder: "[prompt]content".to_owned(),
            input: String::new(),
            prompt: String::new(),
            runstate: Runstate::Select,
        };
        let mut acts: Vec<Action> = Vec::new();
        acts.push(Action::ResizeWindow(Size { width: WIN_INIT_WIDTH, height: WIN_INIT_HEIGHT }));
        acts.push(Action::Scroll(cmd));
        (app, acts)
    }

    /// The window's title.
    pub fn title(&self) -> (r: String)
        ensures
            r@ == "Qst"@,
    {
        "Qst".to_owned()
    }

    /// The result list.
    pub fn select_list(&self) -> (r: &Select)
        ensures
            r@ == self@.select,
    {
        &self.select
    }

    /// What the input line shows when it is empty.
    pub fn placeholder(&self) -> (r: &String)
        ensures
            r@ == self@.placeholder,
    {
        &self.placeholder
    }

    /// What the input line holds.
    pub fn input(&self) -> (r: &String)
        ensures
            r@ == self@.input,
    {
        &self.input
    }

    fn select(&mut self)
        ensures
            final(self)@ == select_spec(old(self)@),
    {
        let picked: Option<(u32, String)> = match self.select.selected() {
            Some(item) => {
                let hint = match &item.arg_hint {
                    Some(h) => h.clone(),
                    None => "none args".to_owned(),
                };
                Some((item.obj_id, hint))
            },
            None => None,
        };
        match picked {
            Some((obj_id, hint)) => {
                let mut placeholder = String::new();
                std::mem::swap(&mut placeholder, &mut self.placeholder);
                let mut input = String::new();
                std::mem::swap(&mut input, &mut self.input);
                self.runstate = Runstate::AddArgs { placeholder, input, obj_id };
                self.placeholder = hint;
            },
            None => {},
        }
    }

    fn submit(&self, obj_id: u32) -> (r: Action)
        ensures
            is_submit(self@, obj_id, r),
    {
        Action::Send {
            req: ToServer::Submit {
                prompt: self.prompt.clone(),
                obj_id,
                hint: Some(self.input.clone()),
            },
            retry: false,
        }
    }

    fn try_reload(&mut self)
        ensures
            final(self)@ == reload_spec(old(self)@),
    {
        let mut rs = Runstate::Select;
        std::mem::swap(&mut rs, &mut self.runstate);
        match rs {
            Runstate::AddArgs { placeholder, input, .. } => {
                self.input = input;
                self.placeholder = placeholder;
            },
            Runstate::Select => {},
        }
    }

    /// Whether handling `msg` sends a request at once.
    fn sends(&self, msg: &Message) -> (r: bool)
        ensures
            r == sends(self@, *msg),
    {
        let adding: Option<u32> = match self.runstate {
            Runstate::AddArgs { obj_id, .. } => Some(obj_id),
            Runstate::Select => None,
        };
        match msg {
            Message::ToServer(_) => true,
            Message::FromUi(FromUi::Submit) => adding.is_some(),
            Message::FromUi(FromUi::Select(select::Message::Push { obj_id: sid, .. })) => {
                match adding {
                    Some(obj_id) => obj_id == *sid,
                    None => false,
                }
            },
            Message::FromUi(FromUi::InputChanged(input)) => {
                if input.as_str().is_empty() {
                    false
                } else {
                    match extract_prompt(input.as_str()) {
                        Some((p, _)) => adding.is_none() || !(p == self.prompt),
                        None => false,
                    }
                }
            },
            _ => false,
        }
    }

    /// Whether `msg` can be handled: the condition under which
    /// [`App::update`] may be called.
    pub fn update_allowed(&self, msg: &Message) -> (r: bool)
        ensures
            r == update_ok(self@, *msg),
    {
        if self.sends(msg) && !self.started {
            return false;
        }
        match msg {
            Message::FromUi(FromUi::Select(smsg)) => self.select.update_allowed(smsg),
            Message::UserEvent(UserEvent::Resized { height, .. }) => {
                let h = *height as u16;
                let list_h: u16 = h.checked_sub(LIST_OVERHEAD).unwrap_or(0);
                self.select.update_allowed(&select::Message::Height(list_h))
            },
            Message::UserEvent(UserEvent::KeyUp) => self.select.update_allowed(&select::Message::Up),
            Message::UserEvent(UserEvent::KeyDown) => self.select.update_allowed(
                &select::Message::Down,
            ),
            _ => true,
        }
    }

    /// Handles `msg`: updates the state and gives the actions to carry out,
    /// in order.
    pub fn update(&mut self, msg: Message) -> (acts: Vec<Action>)
        requires
            update_ok(old(self)@, msg),
        ensures
            update_spec(old(self)@, msg, final(self)@, acts@),
    {
        let mut acts: Vec<Action> = Vec::new();
        match msg {
            Message::Start => {
                self.started = true;
                acts.push(Action::Dispatch(Message::ToServer(ToServer::Connect(self.endpoint.clone()))));
            },
            Message::ToServer(req) => {
                acts.push(Action::Send { req, retry: true });
            },
            Message::FromServer(result) => match result {
                Ok(FromServer::Connected) => {
                    acts.push(Action::FocusInput);
                },
                Ok(FromServer::Search(list)) => {
                    let r = self.select.update(select::Message::Refresh(list));
                    acts.push(Action::Scroll(r));
                },
                Ok(FromServer::Submit) => {
                    acts.push(Action::Exit(0));
                },
                Err(_) => {},
            },
            Message::FromUi(umsg) => match umsg {
                FromUi::InputChanged(input) => {
                    if input.as_str().is_empty() {
                        self.input = String::new();
                        acts.push(
                            Action::Dispatch(
                                Message::FromServer(Ok(FromServer::Search(Vec::new()))),
                            ),
                        );
                    } else {
                        self.input = input;
                        match extract_prompt(self.input.as_str()) {
                            Some((prompt, content)) => {
                                let picking = match self.runstate {
                                    Runstate::Select => true,
                                    Runstate::AddArgs { .. } => false,
                                };
                                if picking || !(prompt == self.prompt) {
                                    self.prompt = prompt.clone();
                                    acts.push(
                                        Action::Send {
                                            req: ToServer::Search { prompt, content },
                                            retry: false,
                                        },
                                    );
                                }
                            },
                            None => {},
                        }
                    }
                },
                FromUi::Select(smsg) => {
                    let pushed: Option<u32> = match &smsg {
                        select::Message::Push { obj_id, .. } => Some(*obj_id),
                        _ => None,
                    };
                    let r = self.select.update(smsg);
                    match pushed {
                        Some(sid) => {
                            let adding: Option<u32> = match self.runstate {
                                Runstate::AddArgs { obj_id, .. } => Some(obj_id),
                                Runstate::Select => None,
                            };
                            match adding {
                                Some(obj_id) if sid == obj_id => {
                                    let a = self.submit(sid);
                                    acts.push(a);
                                },
                                _ => {
                                    self.select();
                                },
                            }
                        },
                        None => {},
                    }
                    acts.push(Action::Scroll(r));
                    acts.push(Action::FocusInput);
                },
                FromUi::Submit => {
                    let adding: Option<u32> = match self.runstate {
                        Runstate::AddArgs { obj_id, .. } => Some(obj_id),
                        Runstate::Select => None,
                    };
                    match adding {
                        Some(obj_id) => {
                            let a = self.submit(obj_id);
                            acts.push(a);
                        },
                        None => {
                            self.select();
                        },
                    }
                },
            },
            Message::UserEvent(e) => match e {
                UserEvent::Resized { width, height } => {
                    self.win_size = Size { width, height };
                    let h = height as u16;
                    let list_h: u16 = h.checked_sub(LIST_OVERHEAD).unwrap_or(0);
                    let r = self.select.update(select::Message::Height(list_h));
                    acts.push(Action::Scroll(r));
                },
                UserEvent::KeyUp => {
                    self.try_reload();
                    let r = self.select.update(select::Message::Up);
                    acts.push(Action::Scroll(r));
                },
                UserEvent::KeyDown => {
                    self.try_reload();
                    let r = self.select.update(select::Message::Down);
                    acts.push(Action::Scroll(r));
                },
                UserEvent::Other => {},
            },
        }
        acts
    }
}

/// Going back from asking arguments undoes picking an entry: picking and
/// then going back restores the input, the placeholder and the picking
/// state; going back while picking changes nothing.
pub proof fn lemma_reload_undoes_select(a: AppView)
    requires
        a.runstate is Select,
    ensures
        reload_spec(select_spec(a)) == a,
        reload_spec(a) == a,
{
}

/// Picking an entry and then pressing an arrow key brings back what was
/// typed before, and the placeholder, and returns to picking.
pub proof fn lemma_arrow_key_undoes_pick(
    a: AppView,
    b: AppView,
    acts1: Seq<Action>,
    up: bool,
    c: AppView,
    acts2: Seq<Action>,
)
    requires
        a.runstate is Select,
        update_spec(a, Message::FromUi(FromUi::Submit), b, acts1),
        update_spec(
            b,
            Message::UserEvent(if up { UserEvent::KeyUp } else { UserEvent::KeyDown }),
            c,
            acts2,
        ),
    ensures
        c.input == a.input,
        c.placeholder == a.placeholder,
        c.prompt == a.prompt,
        c.runstate is Select,
{
}

/// The launcher's round: with an entry selected, the enter key picks it;
/// what is then typed is sent, on the next enter key, as the argument of
/// that entry.
pub proof fn lemma_pick_type_submit(
    a: AppView,
    b: AppView,
    acts1: Seq<Action>,
    typed: String,
    c: AppView,
    acts2: Seq<Action>,
    d: AppView,
    acts3: Seq<Action>,
)
    requires
        a.runstate is Select,
        a.select.selected_index < a.select.apps.len(),
        typed@.len() > 0,
        update_spec(a, Message::FromUi(FromUi::Submit), b, acts1),
        update_spec(b, Message::FromUi(FromUi::InputChanged(typed)), c, acts2),
        update_spec(c, Message::FromUi(FromUi::Submit), d, acts3),
    ensures
        acts3.len() == 1,
        is_submit(c, a.select.apps[a.select.selected_index as int].obj_id, acts3[0]),
        acts3[0] matches Action::Send { req: ToServer::Submit { hint: Some(h), .. }, .. } && h@
            == typed@,
{
}

/// While picking, every change of the search line that holds a prompt is
/// searched: the line is kept, its prompt becomes the current one, and
/// exactly one search for its prompt and content is sent, whatever the
/// prompt was before.
pub proof fn lemma_picking_searches_every_change(
    a: AppView,
    input: String,
    post: AppView,
    acts: Seq<Action>,
)
    requires
        a.runstate is Select,
        input@.len() > 0,
        spec_extract_prompt(input@) is Some,
        update_spec(a, Message::FromUi(FromUi::InputChanged(input)), post, acts),
    ensures
        ({
            let (p, c) = spec_extract_prompt(input@)->0;
            &&& post.input == input@
            &&& post.prompt == p
            &&& post.runstate == a.runstate
            &&& post.select == a.select
            &&& acts.len() == 1
            &&& acts[0] matches Action::Send { req: ToServer::Search { prompt, content }, retry }
            &&& prompt@ == p
            &&& content@ == c
            &&& !retry
        }),
{
}

} // verus!
