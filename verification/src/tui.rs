//! State of the terminal front end: sessions, focus, scrolling and the
//! streaming of runtime events into the conversation shown on screen.

use vstd::prelude::*;
use crate::keys::Command;
use crate::text::{concat, decimal, owned, pop_char, push_char, trim, trimmed, with_decimal};

verus! {

/// Who said a message shown in the chat pane.
#[derive(Debug, Clone, Copy, PartialEq, Eq, Structural)]
pub enum UiRole {
    User,
    Assistant,
    System,
}

/// A message shown in the chat pane.
#[derive(Debug, Clone, PartialEq, Eq)]
pub struct UiMessage {
    pub role: UiRole,
    pub content: String,
}

/// The pane that has the keyboard focus.
#[derive(Debug, Clone, Copy, PartialEq, Eq, Structural)]
pub enum FocusArea {
    Sessions,
    Messages,
    Input,
}

/// One chat session of the front end.
#[derive(Debug, Clone)]
pub struct SessionState {
    pub title: String,
    pub messages: Vec<UiMessage>,
    pub input: String,
    pub busy: bool,
    pub streaming: String,
    pub scroll: u16,
    pub auto_follow: bool,
}

/// The whole state of the front end.
#[derive(Debug, Clone)]
pub struct AppState {
    pub sessions: Vec<SessionState>,
    pub active_session: usize,
    pub focus: FocusArea,
    pub status: String,
    pub show_help: bool,
    pub should_quit: bool,
    pub provider: String,
    pub model: String,
}

/// An event that the agent runtime sends to the front end.
#[derive(Debug, Clone)]
pub enum RuntimeEvent {
    TokenDelta { session_id: usize, text: String },
    ToolEvent { session_id: usize, name: String },
    Done { session_id: usize },
    Error { session_id: usize, message: String },
}

/// A session as plain values.
pub struct SessionView {
    pub title: Seq<char>,
    pub messages: Seq<(UiRole, Seq<char>)>,
    pub input: Seq<char>,
    pub busy: bool,
    pub streaming: Seq<char>,
    pub scroll: u16,
    pub auto_follow: bool,
}

/// The front end's state as plain values.
pub struct AppView {
    pub sessions: Seq<SessionView>,
    pub active_session: usize,
    pub focus: FocusArea,
    pub status: Seq<char>,
    pub show_help: bool,
    pub should_quit: bool,
    pub provider: Seq<char>,
    pub model: Seq<char>,
}

/// A runtime event as plain values.
pub enum EventView {
    TokenDelta(usize, Seq<char>),
    ToolEvent(usize, Seq<char>),
    Done(usize),
    Error(usize, Seq<char>),
}

impl View for UiMessage {
    type V = (UiRole, Seq<char>);

    open spec fn view(&self) -> (UiRole, Seq<char>) {
        (self.role, self.content@)
    }
}

impl View for SessionState {
    type V = SessionView;

    open spec fn view(&self) -> SessionView {
        SessionView {
            title: self.title@,
            messages: self.messages@.map_values(|m: UiMessage| m@),
            input: self.input@,
            busy: self.busy,
            streaming: self.streaming@,
            scroll: self.scroll,
            auto_follow: self.auto_follow,
        }
    }
}

impl View for AppState {
    type V = AppView;

    open spec fn view(&self) -> AppView {
        AppView {
            sessions: self.sessions@.map_values(|s: SessionState| s@),
            active_session: self.active_session,
            focus: self.focus,
            status: self.status@,
            show_help: self.show_help,
            should_quit: self.should_quit,
            provider: self.provider@,
            model: self.model@,
        }
    }
}

impl View for RuntimeEvent {
    type V = EventView;

    open spec fn view(&self) -> EventView {
        match self {
            RuntimeEvent::TokenDelta { session_id, text } => EventView::TokenDelta(*session_id, text@),
            RuntimeEvent::ToolEvent { session_id, name } => EventView::ToolEvent(*session_id, name@),
            RuntimeEvent::Done { session_id } => EventView::Done(*session_id),
            RuntimeEvent::Error { session_id, message } => EventView::Error(*session_id, message@),
        }
    }
}

impl EventView {
    /// The session an event is for.
    pub open spec fn target(self) -> usize {
        match self {
            EventView::TokenDelta(id, _) => id,
            EventView::ToolEvent(id, _) => id,
            EventView::Done(id) => id,
            EventView::Error(id, _) => id,
        }
    }
}

impl AppView {
    /// The state is well formed: there is a session, and the active one exists.
    pub open spec fn wf(self) -> bool {
        &&& self.sessions.len() > 0
        &&& self.active_session < self.sessions.len()
    }

    /// The state with session `i` replaced by `s`.
    pub open spec fn with_session(self, i: int, s: SessionView) -> AppView {
        AppView { sessions: self.sessions.update(i, s), ..self }
    }

    /// The active session.
    pub open spec fn active(self) -> SessionView {
        self.sessions[self.active_session as int]
    }
}

/// A new, empty session titled `title`.
pub open spec fn empty_session(title: Seq<char>) -> SessionView {
    SessionView {
        title,
        messages: Seq::empty(),
        input: Seq::empty(),
        busy: false,
        streaming: Seq::empty(),
        scroll: 0,
        auto_follow: true,
    }
}

/// The focus after one press of the focus key.
pub open spec fn next_focus(f: FocusArea) -> FocusArea {
    match f {
        FocusArea::Sessions => FocusArea::Messages,
        FocusArea::Messages => FocusArea::Input,
        FocusArea::Input => FocusArea::Sessions,
    }
}

/// The session with its view moved to `scroll` and following turned off.
pub open spec fn scrolled(s: SessionView, scroll: u16) -> SessionView {
    SessionView { scroll, auto_follow: false, ..s }
}

/// The session scrolled one line further when it follows new output.
pub open spec fn follow(s: SessionView) -> SessionView {
    if s.auto_follow {
        SessionView { scroll: s.scroll.saturating_add(1), ..s }
    } else {
        s
    }
}

/// The session after a runtime event for it.
pub open spec fn session_after(s: SessionView, ev: EventView) -> SessionView {
    match ev {
        EventView::TokenDelta(_, t) => follow(SessionView { streaming: s.streaming + t, ..s }),
        EventView::ToolEvent(_, name) => follow(
            SessionView { messages: s.messages.push((UiRole::System, "[tool] "@ + name)), ..s },
        ),
        EventView::Done(_) => {
            let s1 = if s.streaming.len() > 0 {
                follow(
                    SessionView {
                        messages: s.messages.push((UiRole::Assistant, s.streaming)),
                        streaming: Seq::empty(),
                        ..s
                    },
                )
            } else {
                s
            };
            SessionView { busy: false, ..s1 }
        },
        EventView::Error(_, err) => {
            let s1 = if s.streaming.len() > 0 {
                SessionView {
                    messages: s.messages.push((UiRole::Assistant, s.streaming + " [interrupted]"@)),
                    streaming: Seq::empty(),
                    ..s
                }
            } else {
                s
            };
            let s2 = SessionView { messages: s1.messages.push((UiRole::System, "error: "@ + err)), ..s1 };
            SessionView { busy: false, ..follow(s2) }
        },
    }
}

/// The status line after a runtime event.
pub open spec fn status_after(status: Seq<char>, ev: EventView) -> Seq<char> {
    match ev {
        EventView::Done(_) => "ready"@,
        EventView::Error(_, _) => "error"@,
        _ => status,
    }
}

/// The front end after a runtime event: events for a session that does not
/// exist change nothing.
pub open spec fn app_after(app: AppView, ev: EventView) -> AppView {
    let id = ev.target();
    if id >= app.sessions.len() {
        app
    } else {
        AppView {
            sessions: app.sessions.update(id as int, session_after(app.sessions[id as int], ev)),
            status: status_after(app.status, ev),
            ..app
        }
    }
}

fn new_session(title: String) -> (s: SessionState)
    ensures
        s@ == empty_session(title@),
{
    let s = SessionState {
        title,
        messages: Vec::new(),
        input: String::new(),
        busy: false,
        streaming: String::new(),
        scroll: 0,
        auto_follow: true,
    };
    proof {
        assert(s@.messages == Seq::<(UiRole, Seq<char>)>::empty());
    }
    s
}

proof fn lemma_sessions_update(v: Seq<SessionState>, i: int, s: SessionState)
    requires
        0 <= i < v.len(),
    ensures
        v.update(i, s).map_values(|x: SessionState| x@) == v.map_values(|x: SessionState| x@).update(i, s@),
{
    assert(v.update(i, s).map_values(|x: SessionState| x@) =~= v.map_values(|x: SessionState| x@).update(i, s@));
}

proof fn lemma_messages_push(v: Seq<UiMessage>, m: UiMessage)
    ensures
        v.push(m).map_values(|x: UiMessage| x@) == v.map_values(|x: UiMessage| x@).push(m@),
{
    assert(v.push(m).map_values(|x: UiMessage| x@) =~= v.map_values(|x: UiMessage| x@).push(m@));
}

/// Appends `m` to the session's messages.
fn push_message(s: &mut SessionState, m: UiMessage)
    ensures
        final(s)@ == (SessionView { messages: old(s)@.messages.push(m@), ..old(s)@ }),
{
    proof {
        lemma_messages_push(s.messages@, m);
    }
    s.messages.push(m);
}

/// Scrolls the session one line when it follows new output.
fn follow_output(s: &mut SessionState)
    ensures
        final(s)@ == follow(old(s)@),
{
    if s.auto_follow {
        s.scroll = s.scroll.saturating_add(1);
    }
}

/// Takes the streamed text out of the session, leaving it empty.
fn take_streaming(s: &mut SessionState) -> (t: String)
    ensures
        t@ == old(s)@.streaming,
        final(s)@ == (SessionView { streaming: Seq::empty(), ..old(s)@ }),
{
    let mut t = String::new();
    std::mem::swap(&mut t, &mut s.streaming);
    t
}

/// The session after a runtime event for it.
fn apply_to_session(s: &mut SessionState, event: RuntimeEvent)
    ensures
        final(s)@ == session_after(old(s)@, event@),
{
    match event {
        RuntimeEvent::TokenDelta { session_id: _, text } => {
            s.streaming.append(text.as_str());
            follow_output(s);
        },
        RuntimeEvent::ToolEvent { session_id: _, name } => {
            push_message(s, UiMessage { role: UiRole::System, content: concat("[tool] ", name.as_str()) });
            follow_output(s);
        },
        RuntimeEvent::Done { session_id: _ } => {
            if !s.streaming.as_str().is_empty() {
                let content = take_streaming(s);
                push_message(s, UiMessage { role: UiRole::Assistant, content });
                follow_output(s);
            }
            s.busy = false;
        },
        RuntimeEvent::Error { session_id: _, message } => {
            if !s.streaming.as_str().is_empty() {
                let partial = take_streaming(s);
                push_message(s, UiMessage { role: UiRole::Assistant, content: concat(partial.as_str(), " [interrupted]") });
            }
            push_message(s, UiMessage { role: UiRole::System, content: concat("error: ", message.as_str()) });
            follow_output(s);
            s.busy = false;
        },
    }
}

impl AppState {
    /// The front end at start-up: one empty session titled "Session 1", focus on
    /// the input, status "ready".
    pub fn new_with_context(provider: String, model: String) -> (app: AppState)
        ensures
            app@.sessions == seq![empty_session("Session 1"@)],
            app@.active_session == 0,
            app@.focus == FocusArea::Input,
            app@.status == "ready"@,
            !app@.show_help,
            !app@.should_quit,
            app@.provider == provider@,
            app@.model == model@,
            app@.wf(),
    {
        let mut sessions: Vec<SessionState> = Vec::new();
        sessions.push(new_session(owned("Session 1")));
        let app = AppState {
            sessions,
            active_session: 0,
            focus: FocusArea::Input,
            status: owned("ready"),
            show_help: false,
            should_quit: false,
            provider,
            model,
        };
        proof {
            assert(app@.sessions =~= seq![empty_session("Session 1"@)]);
        }
        app
    }

    /// The active session.
    pub fn active_session(&self) -> (s: &SessionState)
        requires
            self.active_session < self.sessions@.len(),
        ensures
            *s == self.sessions@[self.active_session as int],
    {
        &self.sessions[self.active_session]
    }

    /// The active session, for changing it.
    pub fn active_session_mut(&mut self) -> (s: &mut SessionState)
        requires
            old(self).active_session < old(self).sessions@.len(),
        ensures
            *s == old(self).sessions@[old(self).active_session as int],
            final(self).sessions@ == old(self).sessions@.update(old(self).active_session as int, *final(s)),
            final(self).active_session == old(self).active_session,
            final(self).focus == old(self).focus,
            final(self).status == old(self).status,
            final(self).show_help == old(self).show_help,
            final(self).should_quit == old(self).should_quit,
            final(self).provider == old(self).provider,
            final(self).model == old(self).model,
    {
        &mut self.sessions[self.active_session]
    }

    /// Opens a new empty session titled "Session n" (n its position, from 1) and
    /// makes it active.
    pub fn add_session(&mut self)
        requires
            old(self).sessions@.len() < usize::MAX,
        ensures
            final(self)@ == (AppView {
                sessions: old(self)@.sessions.push(
                    empty_session("Session "@ + decimal((old(self)@.sessions.len() + 1) as nat)),
                ),
                active_session: old(self)@.sessions.len() as usize,
                ..old(self)@
            }),
            final(self)@.wf(),
    {
        let next = self.sessions.len() + 1;
        let s = new_session(with_decimal("Session ", next as u64));
        let ghost before = self.sessions@;
        self.sessions.push(s);
        self.active_session = self.sessions.len() - 1;
        proof {
            assert(self.sessions@.map_values(|x: SessionState| x@) =~= before.map_values(|x: SessionState| x@).push(s@));
        }
    }

    /// Makes the previous session active, if there is one.
    pub fn prev_session(&mut self)
        ensures
            final(self)@ == (AppView {
                active_session: if old(self).active_session > 0 { (old(self).active_session - 1) as usize } else { old(self).active_session },
                ..old(self)@
            }),
            old(self)@.wf() ==> final(self)@.wf(),
    {
        if self.active_session > 0 {
            self.active_session = self.active_session - 1;
        }
    }

    /// Makes the next session active, if there is one.
    pub fn next_session(&mut self)
        ensures
            final(self)@ == (AppView {
                active_session: if old(self).active_session + 1 < old(self).sessions@.len() {
                    (old(self).active_session + 1) as usize
                } else {
                    old(self).active_session
                },
                ..old(self)@
            }),
            old(self)@.wf() ==> final(self)@.wf(),
    {
        if self.active_session < self.sessions.len() && self.active_session + 1 < self.sessions.len() {
            self.active_session = self.active_session + 1;
        }
    }

    /// Moves the focus to the next pane: sessions, messages, input, and round again.
    pub fn cycle_focus(&mut self)
        ensures
            final(self)@ == (AppView { focus: next_focus(old(self).focus), ..old(self)@ }),
    {
        self.focus = match self.focus {
            FocusArea::Sessions => FocusArea::Messages,
            FocusArea::Messages => FocusArea::Input,
            FocusArea::Input => FocusArea::Sessions,
        };
    }

    /// Sets the active session's scroll position and stops following new output.
    fn set_scroll(&mut self, scroll: u16)
        requires
            old(self).active_session < old(self).sessions@.len(),
        ensures
            final(self)@ == old(self)@.with_session(
                old(self).active_session as int,
                scrolled(old(self)@.active(), scroll),
            ),
    {
        let a = self.active_session;
        let ghost before = self.sessions@;
        let s = &mut self.sessions[a];
        s.scroll = scroll;
        s.auto_follow = false;
        proof {
            lemma_sessions_update(before, a as int, self.sessions@[a as int]);
        }
    }

    /// Scrolls the active session up one line (not past the top).
    pub fn scroll_up(&mut self)
        requires
            old(self).active_session < old(self).sessions@.len(),
        ensures
            final(self)@ == old(self)@.with_session(
                old(self).active_session as int,
                scrolled(old(self)@.active(), old(self)@.active().scroll.saturating_sub(1)),
            ),
    {
        let v = self.sessions[self.active_session].scroll.saturating_sub(1);
        self.set_scroll(v);
    }

    /// Scrolls the active session down one line.
    pub fn scroll_down(&mut self)
        requires
            old(self).active_session < old(self).sessions@.len(),
        ensures
            final(self)@ == old(self)@.with_session(
                old(self).active_session as int,
                scrolled(old(self)@.active(), old(self)@.active().scroll.saturating_add(1)),
            ),
    {
        let v = self.sessions[self.active_session].scroll.saturating_add(1);
        self.set_scroll(v);
    }

    /// Scrolls the active session up ten lines (not past the top).
    pub fn page_up(&mut self)
        requires
            old(self).active_session < old(self).sessions@.len(),
        ensures
            final(self)@ == old(self)@.with_session(
                old(self).active_session as int,
                scrolled(old(self)@.active(), old(self)@.active().scroll.saturating_sub(10)),
            ),
    {
        let v = self.sessions[self.active_session].scroll.saturating_sub(10);
        self.set_scroll(v);
    }

    /// Scrolls the active session down ten lines.
    pub fn page_down(&mut self)
        requires
            old(self).active_session < old(self).sessions@.len(),
        ensures
            final(self)@ == old(self)@.with_session(
                old(self).active_session as int,
                scrolled(old(self)@.active(), old(self)@.active().scroll.saturating_add(10)),
            ),
    {
        let v = self.sessions[self.active_session].scroll.saturating_add(10);
        self.set_scroll(v);
    }

    /// Jumps the active session to the bottom and follows new output again.
    pub fn follow_bottom(&mut self)
        requires
            old(self).active_session < old(self).sessions@.len(),
        ensures
            final(self)@ == old(self)@.with_session(
                old(self).active_session as int,
                SessionView { scroll: u16::MAX, auto_follow: true, ..old(self)@.active() },
            ),
    {
        let a = self.active_session;
        let ghost before = self.sessions@;
        let s = &mut self.sessions[a];
        s.auto_follow = true;
        s.scroll = u16::MAX;
        proof {
            lemma_sessions_update(before, a as int, self.sessions@[a as int]);
        }
    }

    /// Sends `prompt` from the active session: it is shown as a user message,
    /// the input and the streamed text are cleared, the session becomes busy and
    /// follows output, and the status becomes "thinking...".
    pub fn start_submit(&mut self, prompt: String)
        requires
            old(self).active_session < old(self).sessions@.len(),
        ensures
            final(self)@ == (AppView {
                status: "thinking..."@,
                ..old(self)@.with_session(
                    old(self).active_session as int,
                    SessionView {
                        messages: old(self)@.active().messages.push((UiRole::User, prompt@)),
                        input: Seq::empty(),
                        streaming: Seq::empty(),
                        busy: true,
                        auto_follow: true,
                        ..old(self)@.active()
                    },
                )
            }),
    {
        let a = self.active_session;
        let ghost before = self.sessions@;
        let s = &mut self.sessions[a];
        push_message(s, UiMessage { role: UiRole::User, content: prompt });
        s.input = String::new();
        s.streaming = String::new();
        s.busy = true;
        s.auto_follow = true;
        proof {
            lemma_sessions_update(before, a as int, self.sessions@[a as int]);
        }
        self.status = owned("thinking...");
    }

    /// Applies an event of the agent runtime to the session it names; an event
    /// for a session that does not exist is ignored.
    pub fn apply_runtime_event(&mut self, event: RuntimeEvent)
        ensures
            final(self)@ == app_after(old(self)@, event@),
    {
        let id = match &event {
            RuntimeEvent::TokenDelta { session_id, .. } => *session_id,
            RuntimeEvent::ToolEvent { session_id, .. } => *session_id,
            RuntimeEvent::Done { session_id } => *session_id,
            RuntimeEvent::Error { session_id, .. } => *session_id,
        };
        if id >= self.sessions.len() {
            return;
        }
        let new_status = match &event {
            RuntimeEvent::Done { .. } => Some(owned("ready")),
            RuntimeEvent::Error { .. } => Some(owned("error")),
            _ => None,
        };
        let ghost before = self.sessions@;
        let ghost ev = event@;
        apply_to_session(&mut self.sessions[id], event);
        proof {
            lemma_sessions_update(before, id as int, self.sessions@[id as int]);
        }
        match new_status {
            Some(st) => {
                self.status = st;
            },
            None => {},
        }
    }
}

/// Law: pressing the focus key three times gives the focus back.
pub proof fn focus_cycle_returns(f: FocusArea)
    ensures
        next_focus(next_focus(next_focus(f))) == f,
{
}

/// Law: a runtime event changes at most the session it names; an event for a
/// session that does not exist changes nothing; the active session, focus and
/// flags never change.
pub proof fn events_touch_only_their_session(app: AppView, ev: EventView)
    ensures
        forall|j: int| 0 <= j < app.sessions.len() && j != ev.target() ==> #[trigger] app_after(app, ev).sessions[j] == app.sessions[j],
        app_after(app, ev).sessions.len() == app.sessions.len(),
        ev.target() >= app.sessions.len() ==> app_after(app, ev) == app,
        app_after(app, ev).active_session == app.active_session,
        app_after(app, ev).focus == app.focus,
        app.wf() ==> app_after(app, ev).wf(),
{
}

/// Law: text streamed into an idle session in two deltas and then finished
/// becomes one assistant message holding both deltas, and the session is no
/// longer busy.
pub proof fn streamed_reply_is_finalized(app: AppView, id: usize, a: Seq<char>, b: Seq<char>)
    requires
        id < app.sessions.len(),
        app.sessions[id as int].streaming.len() == 0,
        a.len() + b.len() > 0,
    ensures
        ({
            let after = app_after(
                app_after(app_after(app, EventView::TokenDelta(id, a)), EventView::TokenDelta(id, b)),
                EventView::Done(id),
            );
            &&& after.sessions[id as int].messages == app.sessions[id as int].messages.push((UiRole::Assistant, a + b))
            &&& after.sessions[id as int].streaming.len() == 0
            &&& !after.sessions[id as int].busy
            &&& after.status == "ready"@
        }),
{
    assert(Seq::<char>::empty() + a + b == a + b);
    assert(app.sessions[id as int].streaming =~= Seq::<char>::empty());
}

} // verus!

verus! {

/// The active session replaced by `s`.
pub open spec fn with_active(app: AppView, s: SessionView) -> AppView {
    app.with_session(app.active_session as int, s)
}

/// The active session's input after a command that edits it.
pub open spec fn edited_input(input: Seq<char>, cmd: Command) -> Seq<char> {
    match cmd {
        Command::Backspace => if input.len() > 0 { input.drop_last() } else { input },
        Command::InputChar(c) => input.push(c),
        Command::Newline => input.push('\n'),
        _ => input,
    }
}

/// Whether the submit key sends something: the active session is not busy
/// and its input holds more than white space.
pub open spec fn submits(app: AppView) -> bool {
    !app.active().busy && trimmed(app.active().input).len() > 0
}

/// The front end after sending `prompt` from the active session.
pub open spec fn submitted(app: AppView, prompt: Seq<char>) -> AppView {
    AppView {
        status: "thinking..."@,
        ..with_active(app, SessionView {
            messages: app.active().messages.push((UiRole::User, prompt)),
            input: Seq::empty(),
            streaming: Seq::empty(),
            busy: true,
            auto_follow: true,
            ..app.active()
        })
    }
}

/// The front end after a command.
pub open spec fn after_command(app: AppView, cmd: Command) -> AppView {
    let a = app.active();
    match cmd {
        Command::Quit => AppView { should_quit: true, ..app },
        Command::CycleFocus => AppView { focus: next_focus(app.focus), ..app },
        Command::ToggleHelp => AppView { show_help: !app.show_help, ..app },
        Command::NewSession => AppView {
            sessions: app.sessions.push(empty_session("Session "@ + decimal((app.sessions.len() + 1) as nat))),
            active_session: app.sessions.len() as usize,
            ..app
        },
        Command::PrevSession => AppView {
            active_session: if app.active_session > 0 { (app.active_session - 1) as usize } else { app.active_session },
            ..app
        },
        Command::NextSession => AppView {
            active_session: if app.active_session + 1 < app.sessions.len() {
                (app.active_session + 1) as usize
            } else {
                app.active_session
            },
            ..app
        },
        Command::ScrollUp => with_active(app, scrolled(a, a.scroll.saturating_sub(1))),
        Command::ScrollDown => with_active(app, scrolled(a, a.scroll.saturating_add(1))),
        Command::PageUp => with_active(app, scrolled(a, a.scroll.saturating_sub(10))),
        Command::PageDown => with_active(app, scrolled(a, a.scroll.saturating_add(10))),
        Command::FollowBottom => with_active(app, SessionView { scroll: u16::MAX, auto_follow: true, ..a }),
        Command::Backspace => with_active(app, SessionView { input: edited_input(a.input, cmd), ..a }),
        Command::InputChar(_) => with_active(app, SessionView { input: edited_input(a.input, cmd), ..a }),
        Command::Newline => with_active(app, SessionView { input: edited_input(a.input, cmd), ..a }),
        Command::Submit => if submits(app) { submitted(app, trimmed(a.input)) } else { app },
        Command::Noop => app,
    }
}

impl AppState {
    /// Edits the active session's input as a command says.
    fn edit_input(&mut self, cmd: Command)
        requires
            old(self).active_session < old(self).sessions@.len(),
        ensures
            final(self)@ == with_active(old(self)@, SessionView {
                input: edited_input(old(self)@.active().input, cmd),
                ..old(self)@.active()
            }),
    {
        let a = self.active_session;
        let ghost before = self.sessions@;
        let s = &mut self.sessions[a];
        match cmd {
            Command::Backspace => pop_char(&mut s.input),
            Command::InputChar(c) => push_char(&mut s.input, c),
            Command::Newline => push_char(&mut s.input, '\n'),
            _ => {},
        }
        proof {
            lemma_sessions_update(before, a as int, self.sessions@[a as int]);
        }
    }

    /// Carries out a command of the keyboard. When the command sends a prompt,
    /// the answer is the session it was sent from and the prompt (the input
    /// without surrounding white space), for the runtime to work on.
    pub fn apply_command(&mut self, cmd: Command) -> (r: Option<(usize, String)>)
        requires
            old(self)@.wf(),
            old(self).sessions@.len() < usize::MAX,
        ensures
            final(self)@ == after_command(old(self)@, cmd),
            final(self)@.wf(),
            match r {
                Some((id, prompt)) => cmd == Command::Submit && submits(old(self)@)
                    && id == old(self).active_session && prompt@ == trimmed(old(self)@.active().input),
                None => !(cmd == Command::Submit && submits(old(self)@)),
            },
    {
        proof {
            assert(self.sessions@[self.active_session as int]@ == self@.active());
        }
        match cmd {
            Command::Quit => {
                self.should_quit = true;
                None
            },
            Command::CycleFocus => {
                self.cycle_focus();
                None
            },
            Command::ToggleHelp => {
                self.show_help = !self.show_help;
                None
            },
            Command::NewSession => {
                self.add_session();
                None
            },
            Command::PrevSession => {
                self.prev_session();
                None
            },
            Command::NextSession => {
                self.next_session();
                None
            },
            Command::ScrollUp => {
                self.scroll_up();
                None
            },
            Command::ScrollDown => {
                self.scroll_down();
                None
            },
            Command::PageUp => {
                self.page_up();
                None
            },
            Command::PageDown => {
                self.page_down();
                None
            },
            Command::FollowBottom => {
                self.follow_bottom();
                None
            },
            Command::Backspace => {
                self.edit_input(cmd);
                None
            },
            Command::InputChar(_) => {
                self.edit_input(cmd);
                None
            },
            Command::Newline => {
                self.edit_input(cmd);
                None
            },
            Command::Submit => {
                if self.active_session().busy {
                    return None;
                }
                let prompt = trim(self.active_session().input.as_str());
                if prompt.as_str().is_empty() {
                    return None;
                }
                let id = self.active_session;
                let sent = prompt.clone();
                self.start_submit(prompt);
                Some((id, sent))
            },
            Command::Noop => None,
        }
    }
}

} // verus!

verus! {

/// The status bar: the status, the provider and model, the active session's
/// number among all, whether it is busy, and whether it follows new output.
pub open spec fn status_line_text(app: AppView) -> Seq<char> {
    app.status + " | provider="@ + app.provider + " model="@ + app.model + " | session="@
        + decimal((app.active_session + 1) as nat) + "/"@ + decimal(app.sessions.len())
        + " | "@ + (if app.active().busy { "busy"@ } else { "idle"@ }) + " "@
        + (if app.active().auto_follow { "follow"@ } else { "manual"@ })
}

/// The line of the session list for session `i`: a marker on the active one.
pub open spec fn session_item_text(app: AppView, i: int) -> Seq<char> {
    (if i == app.active_session { ">"@ } else { " "@ }) + " "@ + app.sessions[i].title
}

/// The tag a chat line starts with for a message of `role`.
pub open spec fn role_tag(role: UiRole) -> Seq<char> {
    match role {
        UiRole::User => "[You] "@,
        UiRole::Assistant => "[AI] "@,
        UiRole::System => "[Sys] "@,
    }
}

/// The lines of the chat pane for session `s`: each message with its tag,
/// then the text still streaming, tagged `[AI*] `, if there is any.
pub open spec fn chat_lines_of(s: SessionView) -> Seq<(Seq<char>, Seq<char>)> {
    let done = s.messages.map_values(|m: (UiRole, Seq<char>)| (role_tag(m.0), m.1));
    if s.streaming.len() > 0 { done.push(("[AI*] "@, s.streaming)) } else { done }
}

/// The text of the help pop-up.
pub open spec fn help_text_spec() -> Seq<char> {
    "Enter send | Shift+Enter newline | Tab focus | h/l switch session | j/k or Up/Down scroll | PgUp/PgDn page scroll | End follow bottom | n new session | ? help | q quit"@
}

/// The text of the help pop-up.
pub fn help_text() -> (r: String)
    ensures
        r@ == help_text_spec(),
{
    owned("Enter send | Shift+Enter newline | Tab focus | h/l switch session | j/k or Up/Down scroll | PgUp/PgDn page scroll | End follow bottom | n new session | ? help | q quit")
}

fn role_tag_text(role: UiRole) -> (r: String)
    ensures
        r@ == role_tag(role),
{
    match role {
        UiRole::User => owned("[You] "),
        UiRole::Assistant => owned("[AI] "),
        UiRole::System => owned("[Sys] "),
    }
}

impl AppState {
    /// The status bar.
    pub fn status_line(&self) -> (r: String)
        requires
            self@.wf(),
        ensures
            r@ == status_line_text(self@),
    {
        let s = self.active_session();
        proof {
            assert(self.sessions@[self.active_session as int]@ == self@.active());
            assert(self.active_session < self.sessions@.len());
        }
        let n = self.sessions.len();
        let mut r = concat(self.status.as_str(), " | provider=");
        r.append(self.provider.as_str());
        r.append(" model=");
        r.append(self.model.as_str());
        r.append(" | session=");
        crate::text::push_decimal(&mut r, (self.active_session + 1) as u64);
        r.append("/");
        crate::text::push_decimal(&mut r, n as u64);
        r.append(" | ");
        r.append(if s.busy { "busy" } else { "idle" });
        r.append(" ");
        r.append(if s.auto_follow { "follow" } else { "manual" });
        r
    }

    /// The lines of the session list, one per session in order.
    pub fn session_items(&self) -> (r: Vec<String>)
        ensures
            r@.len() == self@.sessions.len(),
            forall|i: int| 0 <= i < r@.len() ==> #[trigger] r@[i]@ == session_item_text(self@, i),
    {
        let mut r: Vec<String> = Vec::new();
        let mut i: usize = 0;
        while i < self.sessions.len()
            invariant
                i <= self.sessions@.len(),
                r@.len() == i,
                forall|k: int| 0 <= k < i ==> #[trigger] r@[k]@ == session_item_text(self@, k),
            decreases self.sessions@.len() - i,
        {
            let marker = if i == self.active_session { "> " } else { "  " };
            proof {
                assert(self@.sessions[i as int] == self.sessions@[i as int]@);
                reveal_strlit("> ");
                reveal_strlit("  ");
                reveal_strlit(">");
                reveal_strlit(" ");
                assert(marker@ == (if i == self.active_session { ">"@ } else { " "@ }) + " "@);
            }
            r.push(concat(marker, self.sessions[i].title.as_str()));
            i = i + 1;
        }
        r
    }

    /// The lines of the chat pane for the active session, each as its tag
    /// and its text.
    pub fn chat_lines(&self) -> (r: Vec<(String, String)>)
        requires
            self@.wf(),
        ensures
            r@.map_values(|l: (String, String)| (l.0@, l.1@)) == chat_lines_of(self@.active()),
    {
        let s = self.active_session();
        let ghost sv = s@;
        proof {
            assert(self.sessions@[self.active_session as int]@ == self@.active());
        }
        let ghost done = sv.messages.map_values(|m: (UiRole, Seq<char>)| (role_tag(m.0), m.1));
        let mut r: Vec<(String, String)> = Vec::new();
        let mut i: usize = 0;
        while i < s.messages.len()
            invariant
                sv == s@,
                done == sv.messages.map_values(|m: (UiRole, Seq<char>)| (role_tag(m.0), m.1)),
                i <= s.messages@.len(),
                r@.map_values(|l: (String, String)| (l.0@, l.1@)) == done.take(i as int),
            decreases s.messages@.len() - i,
        {
            let m = &s.messages[i];
            let ghost before = r@;
            r.push((role_tag_text(m.role), m.content.clone()));
            proof {
                assert(sv.messages[i as int] == m@);
                assert(r@.map_values(|l: (String, String)| (l.0@, l.1@)) =~= before.map_values(|l: (String, String)| (l.0@, l.1@)).push((role_tag(m.role), m.content@)));
                assert(done.take(i + 1) =~= done.take(i as int).push(done[i as int]));
            }
            i = i + 1;
        }
        proof {
            assert(done.take(s.messages@.len() as int) =~= done);
        }
        if !s.streaming.as_str().is_empty() {
            let ghost before = r@;
            r.push((owned("[AI*] "), s.streaming.clone()));
            proof {
                assert(r@.map_values(|l: (String, String)| (l.0@, l.1@)) =~= before.map_values(|l: (String, String)| (l.0@, l.1@)).push(("[AI*] "@, s.streaming@)));
            }
        }
        r
    }
}

} // verus!

verus! {

/// Law: a prompt is sent at most once: right after a submit the session is
/// busy, so submitting again sends nothing, until the runtime reports the
/// session done.
pub proof fn submit_waits_for_done(app: AppView)
    requires
        app.wf(),
        submits(app),
    ensures
        ({
            let sent = after_command(app, Command::Submit);
            &&& sent.active().busy
            &&& !submits(sent)
            &&& after_command(sent, Command::Submit) == sent
            &&& !app_after(sent, EventView::Done(app.active_session)).active().busy
        }),
{
    let sent = after_command(app, Command::Submit);
    assert(sent.sessions.len() == app.sessions.len());
    assert(sent.active_session == app.active_session);
}

} // verus!
