//! The manager: the workspaces, the key bindings, and what each event of
//! the display does to them.
//!
//! The manager is a state machine. It is handed what the display connection
//! learned (the display it opened, the events it read, the answers to the
//! queries it made) and it answers with the requests to make next.

use crate::client::{to_unsigned, unsigned, Client, ClientView};
use crate::config::{binding_views, Action, ActionView, BindingView, Config};
use crate::error::WmError;
use crate::geometry::Quad;
use crate::keysym::NoSymbol;
use crate::workspace::{
    contexts, first_index, lemma_contexts_grown, lemma_contexts_kept, lemma_contexts_shrunk,
    lemma_first_index, teardown_requests, Direction, Split, Workspace, WorkspaceView,
};
use crate::xproto::{
    AnyKey, BadAccess, Event, GrabModeSync, IsViewable, Request, WindowAttributes, WindowChanges,
    XWindow, ROOT_EVENT_MASK, ROOT_KEY_EVENT_MASK,
};
use vstd::prelude::*;

verus! {

/// What opening the display yielded: the root window, and the size of
/// screen 0 where the display has one.
#[derive(Debug, Clone, Copy, PartialEq, Eq, Structural)]
pub struct DisplayInfo {
    pub root: XWindow,
    pub screen: Option<ScreenInfo>,
}

/// The size of a screen, in pixels.
#[derive(Debug, Clone, Copy, PartialEq, Eq, Structural)]
pub struct ScreenInfo {
    pub width: i32,
    pub height: i32,
}

/// A window that exists when the manager starts: its identifier, the answer
/// of the server to a query for its attributes, `None` where the query
/// failed, and an identifier the connection holds ready for a frame.
#[derive(Debug, Clone, Copy, PartialEq, Eq, Structural)]
pub struct Existing {
    pub window: XWindow,
    pub attributes: Option<WindowAttributes>,
    pub frame: XWindow,
}

/// What the manager answers to an event.
#[derive(Debug)]
pub struct Reaction {
    /// The requests to make, in this order.
    pub requests: Vec<Request>,
    /// A command line to hand to the process spawner.
    pub command: Option<String>,
    /// A failure to report. It is confined to the event: the manager goes on.
    pub error: Option<WmError>,
}

/// What a reaction is, with its requests as a sequence and its command as
/// a sequence of characters.
pub struct ReactionView {
    pub requests: Seq<Request>,
    pub command: Option<Seq<char>>,
    pub error: Option<WmError>,
}

impl View for Reaction {
    type V = ReactionView;

    open spec fn view(&self) -> ReactionView {
        ReactionView {
            requests: self.requests@,
            command: match self.command {
                Some(c) => Some(c@),
                None => None,
            },
            error: self.error,
        }
    }
}

impl ReactionView {
    /// The reaction that asks for `requests` and nothing else.
    pub open spec fn of(requests: Seq<Request>) -> ReactionView {
        ReactionView { requests, command: None, error: None }
    }
}

/// The manager.
#[derive(Debug)]
pub struct Rdwm {
    pub root: XWindow,
    pub workspaces: Vec<Workspace>,
    /// The position of the current workspace.
    pub current: usize,
    pub config: Config,
    /// The key code of the key of each binding, in the order of the
    /// bindings, as far as they were handed over; 0 for a key that no key
    /// code carries.
    pub keycodes: Vec<u8>,
    /// Whether another manager was detected. Once set it stays set.
    pub detected: bool,
    /// Whether the selection of substructure redirection on the root is
    /// under way.
    pub selecting: bool,
    /// Whether the user asked the manager to exit.
    pub exiting: bool,
}

/// What a manager is, with its workspaces and bindings as sequences of
/// views.
pub struct RdwmView {
    pub root: XWindow,
    pub workspaces: Seq<WorkspaceView>,
    pub current: usize,
    pub bindings: Seq<BindingView>,
    pub keycodes: Seq<u8>,
    pub detected: bool,
    pub selecting: bool,
    pub exiting: bool,
}

/// The views of the workspaces of a sequence, in its order.
pub open spec fn workspace_views(workspaces: Seq<Workspace>) -> Seq<WorkspaceView> {
    Seq::new(workspaces.len(), |i: int| workspaces[i]@)
}

impl View for Rdwm {
    type V = RdwmView;

    open spec fn view(&self) -> RdwmView {
        RdwmView {
            root: self.root,
            workspaces: workspace_views(self.workspaces@),
            current: self.current,
            bindings: binding_views(self.config.bindings@),
            keycodes: self.keycodes@,
            detected: self.detected,
            selecting: self.selecting,
            exiting: self.exiting,
        }
    }
}

/// Whether `window` is the context of a client of the workspace.
pub open spec fn holds_context(ws: WorkspaceView, window: XWindow) -> bool {
    first_index(contexts(ws.clients), window) < ws.clients.len()
}

/// The position of the first workspace from `from` on that holds `window`
/// as a context; the number of workspaces where none does.
pub open spec fn first_holder(workspaces: Seq<WorkspaceView>, window: XWindow, from: int) -> int
    decreases workspaces.len() - from,
{
    if from >= workspaces.len() {
        workspaces.len() as int
    } else if holds_context(workspaces[from], window) {
        from
    } else {
        first_holder(workspaces, window, from + 1)
    }
}

/// `first_holder` is the least position from `from` on of a workspace that
/// holds the window, and the number of workspaces where none does.
pub proof fn lemma_first_holder(workspaces: Seq<WorkspaceView>, window: XWindow, from: int)
    requires
        0 <= from <= workspaces.len(),
    ensures
        from <= first_holder(workspaces, window, from) <= workspaces.len(),
        first_holder(workspaces, window, from) < workspaces.len() ==> holds_context(
            workspaces[first_holder(workspaces, window, from)],
            window,
        ),
        forall|k: int|
            from <= k < first_holder(workspaces, window, from) ==> !holds_context(
                #[trigger] workspaces[k],
                window,
            ),
    decreases workspaces.len() - from,
{
    if from < workspaces.len() && !holds_context(workspaces[from], window) {
        lemma_first_holder(workspaces, window, from + 1);
    }
}

/// No window is the context of two clients, whether of one workspace or of
/// two.
pub open spec fn distinct_contexts(workspaces: Seq<WorkspaceView>) -> bool {
    forall|i: int, a: int, j: int, b: int|
        0 <= i < workspaces.len() && 0 <= j < workspaces.len() && 0 <= a
            < workspaces[i].clients.len() && 0 <= b < workspaces[j].clients.len() && (i != j || a
            != b) ==> (#[trigger] contexts(workspaces[i].clients)[a]) != (#[trigger] contexts(
            workspaces[j].clients,
        )[b])
}

/// The key code of the key of the binding at `i`: the one that was handed
/// over for it, and 0, the answer of the server for a keysym that no key
/// carries, where none was.
pub open spec fn keycode_at(keycodes: Seq<u8>, i: int) -> u8 {
    if 0 <= i < keycodes.len() {
        keycodes[i]
    } else {
        AnyKey
    }
}

/// Whether the binding at `i` fires under a key code and a modifier state:
/// it has a key, the key code of its key is the one given, and its modifier
/// mask is the state given.
pub open spec fn fires(
    bindings: Seq<BindingView>,
    keycodes: Seq<u8>,
    i: int,
    keycode: u32,
    state: u32,
) -> bool {
    &&& bindings[i].keysym != NoSymbol
    &&& keycode_at(keycodes, i) == keycode
    &&& bindings[i].mask == state
}

/// The position of the first binding from `from` on that fires; the number
/// of bindings where none does.
pub open spec fn first_firing(
    bindings: Seq<BindingView>,
    keycodes: Seq<u8>,
    keycode: u32,
    state: u32,
    from: int,
) -> int
    decreases bindings.len() - from,
{
    if from >= bindings.len() {
        bindings.len() as int
    } else if fires(bindings, keycodes, from, keycode, state) {
        from
    } else {
        first_firing(bindings, keycodes, keycode, state, from + 1)
    }
}

/// The direction in which an action moves the selection, if it does.
pub open spec fn direction_of(action: ActionView) -> Option<Direction> {
    match action {
        ActionView::MoveFocusUp => Some(Direction::Up),
        ActionView::MoveFocusDown => Some(Direction::Down),
        ActionView::MoveFocusLeft => Some(Direction::Left),
        ActionView::MoveFocusRight => Some(Direction::Right),
        _ => None,
    }
}

impl RdwmView {
    /// The invariant of the manager: there is a current workspace, every
    /// workspace is well-formed, and no window is managed twice.
    pub open spec fn wf(self) -> bool {
        &&& self.current < self.workspaces.len()
        &&& forall|i: int| 0 <= i < self.workspaces.len() ==> (#[trigger] self.workspaces[i]).wf()
        &&& distinct_contexts(self.workspaces)
    }

    /// Whether the event loop goes on: no other manager was detected and
    /// the user did not ask to exit.
    pub open spec fn running(self) -> bool {
        !self.detected && !self.exiting
    }

    /// The current workspace.
    pub open spec fn cur(self) -> WorkspaceView {
        self.workspaces[self.current as int]
    }

    /// The manager with `ws` as the workspace at `i`.
    pub open spec fn with_workspace(self, i: int, ws: WorkspaceView) -> RdwmView {
        RdwmView {
            root: self.root,
            workspaces: self.workspaces.update(i, ws),
            current: self.current,
            bindings: self.bindings,
            keycodes: self.keycodes,
            detected: self.detected,
            selecting: self.selecting,
            exiting: self.exiting,
        }
    }

    /// The manager with other flags.
    pub open spec fn with_flags(self, detected: bool, selecting: bool, exiting: bool) -> RdwmView {
        RdwmView {
            root: self.root,
            workspaces: self.workspaces,
            current: self.current,
            bindings: self.bindings,
            keycodes: self.keycodes,
            detected,
            selecting,
            exiting,
        }
    }

    /// Whether `window` is the context of a client.
    pub open spec fn managed(self, window: XWindow) -> bool {
        first_holder(self.workspaces, window, 0) < self.workspaces.len()
    }

    /// The position of the workspace of the client whose context is
    /// `window`.
    pub open spec fn holder(self, window: XWindow) -> int {
        first_holder(self.workspaces, window, 0)
    }

    /// The position, in its workspace, of the client whose context is
    /// `window`.
    pub open spec fn slot(self, window: XWindow) -> int {
        first_index(contexts(self.workspaces[self.holder(window)].clients), window)
    }

    /// The client whose context is `window`.
    pub open spec fn client_of(self, window: XWindow) -> ClientView {
        self.workspaces[self.holder(window)].clients[self.slot(window)]
    }

    /// Whether a window comes to be managed: its attributes could be read,
    /// it is not managed yet, and where it existed before the manager
    /// started it is viewable and does not ask to be left alone.
    pub open spec fn admits(
        self,
        window: XWindow,
        attributes: Option<WindowAttributes>,
        already_existing: bool,
    ) -> bool {
        &&& attributes matches Some(a)
        &&& !(already_existing && (a.override_redirect || a.map_state != IsViewable))
        &&& !self.managed(window)
    }

    /// The manager once it was asked to frame `window`: with the window as
    /// a new client of the current workspace where it comes to be managed,
    /// as it was where it does not.
    pub open spec fn framing(
        self,
        window: XWindow,
        attributes: Option<WindowAttributes>,
        already_existing: bool,
        frame: XWindow,
    ) -> RdwmView {
        if self.admits(window, attributes, already_existing) {
            self.with_workspace(
                self.current as int,
                self.cur().framing(frame, window, attributes->0),
            )
        } else {
            self
        }
    }

    /// The requests that frame `window` where it comes to be managed: those
    /// by which the current workspace creates and fills the frame and
    /// arranges itself, then the one that adds the window to the save-set.
    /// None where the window does not come to be managed.
    pub open spec fn framing_requests(
        self,
        window: XWindow,
        attributes: Option<WindowAttributes>,
        already_existing: bool,
        frame: XWindow,
    ) -> Seq<Request> {
        if self.admits(window, attributes, already_existing) {
            self.cur().framing_requests(self.root, window, frame, attributes->0).push(
                Request::AddToSaveSet { window },
            )
        } else {
            Seq::empty()
        }
    }

    /// The manager once the pointer entered `window`: the current workspace
    /// selects the first client whose frame is `window`, or its last client
    /// where `window` is no frame of it.
    pub open spec fn entering(self, window: XWindow) -> RdwmView {
        self.with_workspace(
            self.current as int,
            self.cur().selecting(
                first_index(crate::workspace::frames(self.cur().clients), window) as usize,
            ),
        )
    }

    /// The requests that recolour the borders once the pointer entered
    /// `window`.
    pub open spec fn entering_requests(self, window: XWindow) -> Seq<Request> {
        self.cur().selecting_requests(
            first_index(crate::workspace::frames(self.cur().clients), window) as usize,
        )
    }

    /// Whether the notification that `window` was unmapped, selected on
    /// `event`, ends a client: it was not selected on the root, and `window`
    /// is the context of a client.
    pub open spec fn unmaps(self, event: XWindow, window: XWindow) -> bool {
        event != self.root && self.managed(window)
    }

    /// The manager once `window`, the context of a client, is gone: the
    /// workspace of the client is without it, and arranged.
    pub open spec fn dropping(self, window: XWindow) -> RdwmView {
        self.with_workspace(
            self.holder(window),
            self.workspaces[self.holder(window)].destroying(self.slot(window)),
        )
    }

    /// The manager once it was told that `window` was unmapped.
    pub open spec fn unmapping(self, event: XWindow, window: XWindow) -> RdwmView {
        if self.unmaps(event, window) {
            self.dropping(window)
        } else {
            self
        }
    }

    /// The requests that arrange the workspace that held `window` once its
    /// client is gone; none where that workspace is not the current one,
    /// whose frames alone are mapped.
    pub open spec fn dropping_requests(self, window: XWindow) -> Seq<Request> {
        if self.holder(window) == self.current {
            self.workspaces[self.holder(window)].detached(self.slot(window)).settling_requests()
        } else {
            Seq::empty()
        }
    }

    /// The requests that follow the notification that `window` was
    /// unmapped: where it ends a client, those of the teardown of the client,
    /// in its order, then those that arrange its workspace.
    pub open spec fn unmapping_requests(self, event: XWindow, window: XWindow) -> Seq<Request> {
        if self.unmaps(event, window) {
            teardown_requests(self.client_of(window), self.root) + self.dropping_requests(window)
        } else {
            Seq::empty()
        }
    }

    /// The manager once it was told that `window` was destroyed: without
    /// the client whose context it was, if there was one.
    pub open spec fn destroying(self, window: XWindow) -> RdwmView {
        if self.managed(window) {
            self.dropping(window)
        } else {
            self
        }
    }

    /// The requests that follow the notification that `window` was
    /// destroyed: where it was the context of a client, the one that
    /// destroys the frame, then those that arrange its workspace.
    pub open spec fn destroying_requests(self, window: XWindow) -> Seq<Request> {
        if self.managed(window) {
            seq![Request::DestroyWindow { window: self.client_of(window).frame.id }]
                + self.dropping_requests(window)
        } else {
            Seq::empty()
        }
    }

    /// The requests that answer a request to configure `window`: where it
    /// is the context of a client, the changes go to the frame of the client
    /// and then to the window; where it is not, to the window alone. The
    /// value mask of the request is kept.
    pub open spec fn configuring_requests(
        self,
        window: XWindow,
        value_mask: u64,
        changes: WindowChanges,
    ) -> Seq<Request> {
        if self.managed(window) {
            seq![
                Request::ConfigureWindow {
                    window: self.client_of(window).frame.id,
                    value_mask: (value_mask & 0xffff_ffff) as u32,
                    changes,
                },
                Request::ConfigureWindow {
                    window,
                    value_mask: (value_mask & 0xffff_ffff) as u32,
                    changes,
                },
            ]
        } else {
            seq![
                Request::ConfigureWindow {
                    window,
                    value_mask: (value_mask & 0xffff_ffff) as u32,
                    changes,
                },
            ]
        }
    }

    /// Whether the selected client of the current workspace can move to
    /// the workspace of the number `n`: there is such a workspace, it is not
    /// the current one, and the current one has a client.
    pub open spec fn moves(self, n: u32) -> bool {
        n < self.workspaces.len() && n != self.current && self.cur().clients.len() > 0
    }

    /// The manager once the selected client of the current workspace moved
    /// to the workspace of the number `n`: both workspaces are arranged.
    pub open spec fn moving(self, n: u32) -> RdwmView {
        if self.moves(n) {
            let cur = self.cur();
            let c = cur.clients[cur.selected as int];
            self.with_workspace(
                self.current as int,
                cur.destroying(cur.selected as int),
            ).with_workspace(n as int, self.workspaces[n as int].attached(c).settled())
        } else {
            self
        }
    }

    /// The requests that move the selected client of the current workspace
    /// to another workspace: the one that unmaps its frame, since the frames
    /// of the current workspace alone are mapped, then those that arrange
    /// the current workspace.
    pub open spec fn moving_requests(self, n: u32) -> Seq<Request> {
        if self.moves(n) {
            let cur = self.cur();
            let c = cur.clients[cur.selected as int];
            seq![Request::UnmapWindow { window: c.frame.id }] + cur.detached(
                cur.selected as int,
            ).settling_requests()
        } else {
            Seq::empty()
        }
    }

    /// The manager once an action was carried out.
    pub open spec fn acting(self, action: ActionView) -> RdwmView {
        let at = self.current as int;
        match action {
            ActionView::FullScreen => self.with_workspace(at, self.cur().filling()),
            ActionView::FloatFocus => self.with_workspace(at, self.cur().floating(true)),
            ActionView::GroundFocus => self.with_workspace(at, self.cur().floating(false)),
            ActionView::MoveFocusUp => self.with_workspace(at, self.cur().focusing(Direction::Up)),
            ActionView::MoveFocusDown => self.with_workspace(
                at,
                self.cur().focusing(Direction::Down),
            ),
            ActionView::MoveFocusLeft => self.with_workspace(
                at,
                self.cur().focusing(Direction::Left),
            ),
            ActionView::MoveFocusRight => self.with_workspace(
                at,
                self.cur().focusing(Direction::Right),
            ),
            ActionView::SplitHorizontal => self.with_workspace(
                at,
                self.cur().with_split(Some(Split::Horizontal)),
            ),
            ActionView::SplitVertical => self.with_workspace(
                at,
                self.cur().with_split(Some(Split::Vertical)),
            ),
            ActionView::Exit => self.with_flags(self.detected, self.selecting, true),
            ActionView::MoveWorkspace(n) => self.moving(n),
            ActionView::KillFocus => self,
            ActionView::Minimize => self,
            ActionView::Execute(_) => self,
            ActionView::NoAction => self,
        }
    }

    /// The requests by which an action is carried out.
    pub open spec fn acting_requests(self, action: ActionView) -> Seq<Request> {
        match action {
            ActionView::FullScreen => self.cur().filling_requests(),
            ActionView::FloatFocus => self.cur().floating_requests(true),
            ActionView::GroundFocus => self.cur().floating_requests(false),
            ActionView::MoveFocusUp => self.cur().focusing_requests(Direction::Up),
            ActionView::MoveFocusDown => self.cur().focusing_requests(Direction::Down),
            ActionView::MoveFocusLeft => self.cur().focusing_requests(Direction::Left),
            ActionView::MoveFocusRight => self.cur().focusing_requests(Direction::Right),
            ActionView::MoveWorkspace(n) => self.moving_requests(n),
            ActionView::KillFocus => if self.cur().clients.len() > 0 {
                seq![
                    Request::GetProtocols {
                        window: self.cur().clients[self.cur().selected as int].context.id,
                    },
                ]
            } else {
                Seq::empty()
            },
            ActionView::SplitHorizontal => Seq::empty(),
            ActionView::SplitVertical => Seq::empty(),
            ActionView::Exit => Seq::empty(),
            ActionView::Minimize => Seq::empty(),
            ActionView::Execute(_) => Seq::empty(),
            ActionView::NoAction => Seq::empty(),
        }
    }

    /// What the manager answers when an action is carried out: the
    /// requests of the action, and for an action that executes a command the
    /// command line.
    pub open spec fn acting_reaction(self, action: ActionView) -> ReactionView {
        ReactionView {
            requests: self.acting_requests(action),
            command: match action {
                ActionView::Execute(command) => Some(command),
                _ => None,
            },
            error: None,
        }
    }

    /// The action that a key press brings about: that of the first binding
    /// that fires under the key code and modifier state, and no action where
    /// none fires.
    pub open spec fn action_of(self, keycode: u32, state: u32) -> ActionView {
        let i = first_firing(self.bindings, self.keycodes, keycode, state, 0);
        if i < self.bindings.len() {
            self.bindings[i].action
        } else {
            ActionView::NoAction
        }
    }

    /// The manager once the server reported the error `code`: another
    /// manager is detected where the error is `BadAccess` and the selection
    /// on the root is under way.
    pub open spec fn failing(self, code: u8) -> RdwmView {
        self.with_flags(
            self.detected || (self.selecting && code == BadAccess),
            self.selecting,
            self.exiting,
        )
    }

    /// The manager once it was handed an event.
    pub open spec fn step(self, event: Event) -> RdwmView {
        match event {
            Event::KeyPress { keycode, state } => self.acting(self.action_of(keycode, state)),
            Event::EnterNotify { window } => self.entering(window),
            Event::DestroyNotify { window } => self.destroying(window),
            Event::UnmapNotify { event, window } => self.unmapping(event, window),
            Event::MapRequest { window, attributes, frame } => self.framing(
                window,
                attributes,
                false,
                frame,
            ),
            Event::Error { code, request } => self.failing(code),
            _ => self,
        }
    }

    /// What the manager answers to an event.
    pub open spec fn reaction(self, event: Event) -> ReactionView {
        match event {
            Event::KeyPress { keycode, state } => self.acting_reaction(
                self.action_of(keycode, state),
            ),
            Event::EnterNotify { window } => ReactionView::of(self.entering_requests(window)),
            Event::DestroyNotify { window } => ReactionView::of(self.destroying_requests(window)),
            Event::UnmapNotify { event, window } => ReactionView::of(
                self.unmapping_requests(event, window),
            ),
            Event::MapRequest { window, attributes, frame } => ReactionView {
                requests: self.framing_requests(window, attributes, false, frame),
                command: None,
                error: if attributes is None {
                    Some(WmError::BadWindowAttrs)
                } else {
                    None
                },
            },
            Event::ConfigureRequest { window, value_mask, changes } => ReactionView::of(
                self.configuring_requests(window, value_mask, changes),
            ),
            Event::Protocols { window, delete_window } => ReactionView::of(
                seq![
                    if delete_window {
                        Request::SendDeleteWindow { window }
                    } else {
                        Request::KillClient { window }
                    },
                ],
            ),
            Event::Error { code, request } => ReactionView {
                requests: Seq::empty(),
                command: None,
                error: Some(
                    if self.selecting && code == BadAccess {
                        WmError::ManagerConflict
                    } else {
                        WmError::ProtocolError { code, request }
                    },
                ),
            },
            _ => ReactionView::of(Seq::empty()),
        }
    }
}

/// A manager stays well-formed where one of its workspaces gives way to a
/// well-formed one with the same contexts.
pub proof fn lemma_distinct_kept(workspaces: Seq<WorkspaceView>, i: int, ws: WorkspaceView)
    requires
        distinct_contexts(workspaces),
        0 <= i < workspaces.len(),
        contexts(ws.clients) == contexts(workspaces[i].clients),
    ensures
        distinct_contexts(workspaces.update(i, ws)),
{
    let after = workspaces.update(i, ws);
    assert forall|p: int, a: int, q: int, b: int|
        0 <= p < after.len() && 0 <= q < after.len() && 0 <= a < after[p].clients.len() && 0 <= b
            < after[q].clients.len() && (p != q || a != b) implies (#[trigger] contexts(
        after[p].clients,
    )[a]) != (#[trigger] contexts(after[q].clients)[b]) by {
        assert(contexts(after[p].clients) == contexts(workspaces[p].clients));
        assert(contexts(after[q].clients) == contexts(workspaces[q].clients));
        assert(contexts(workspaces[p].clients)[a] != contexts(workspaces[q].clients)[b]);
    }
}

/// No window is managed twice once a client left a workspace.
pub proof fn lemma_distinct_shrunk(
    workspaces: Seq<WorkspaceView>,
    i: int,
    at: int,
    ws: WorkspaceView,
)
    requires
        distinct_contexts(workspaces),
        0 <= i < workspaces.len(),
        0 <= at < workspaces[i].clients.len(),
        contexts(ws.clients) == contexts(workspaces[i].clients).remove(at),
    ensures
        distinct_contexts(workspaces.update(i, ws)),
        forall|q: int, b: int|
            0 <= q < workspaces.len() && 0 <= b < workspaces.update(i, ws)[q].clients.len()
                ==> (#[trigger] contexts(workspaces.update(i, ws)[q].clients)[b]) != contexts(
                workspaces[i].clients,
            )[at],
{
    let after = workspaces.update(i, ws);
    let before = contexts(workspaces[i].clients);
    assert(before.len() == workspaces[i].clients.len());
    assert(contexts(ws.clients).len() == ws.clients.len());
    assert forall|p: int, a: int, q: int, b: int|
        0 <= p < after.len() && 0 <= q < after.len() && 0 <= a < after[p].clients.len() && 0 <= b
            < after[q].clients.len() && (p != q || a != b) implies (#[trigger] contexts(
        after[p].clients,
    )[a]) != (#[trigger] contexts(after[q].clients)[b]) by {
        let oa = if p == i && a >= at {
            a + 1
        } else {
            a
        };
        let ob = if q == i && b >= at {
            b + 1
        } else {
            b
        };
        assert(contexts(after[p].clients)[a] == contexts(workspaces[p].clients)[oa]);
        assert(contexts(after[q].clients)[b] == contexts(workspaces[q].clients)[ob]);
        assert(contexts(workspaces[p].clients)[oa] != contexts(workspaces[q].clients)[ob]);
    }
    assert forall|q: int, b: int|
        0 <= q < workspaces.len() && 0 <= b < after[q].clients.len() implies (#[trigger] contexts(
        after[q].clients,
    )[b]) != before[at] by {
        let ob = if q == i && b >= at {
            b + 1
        } else {
            b
        };
        assert(contexts(after[q].clients)[b] == contexts(workspaces[q].clients)[ob]);
        assert(contexts(workspaces[q].clients)[ob] != contexts(workspaces[i].clients)[at]);
    }
}

/// No window is managed twice once a window that was not managed joined a
/// workspace.
pub proof fn lemma_distinct_grown(
    workspaces: Seq<WorkspaceView>,
    i: int,
    window: XWindow,
    ws: WorkspaceView,
)
    requires
        distinct_contexts(workspaces),
        0 <= i < workspaces.len(),
        contexts(ws.clients) == contexts(workspaces[i].clients).push(window),
        forall|q: int, b: int|
            0 <= q < workspaces.len() && 0 <= b < workspaces[q].clients.len()
                ==> (#[trigger] contexts(workspaces[q].clients)[b]) != window,
    ensures
        distinct_contexts(workspaces.update(i, ws)),
{
    let after = workspaces.update(i, ws);
    let before = contexts(workspaces[i].clients);
    assert(before.len() == workspaces[i].clients.len());
    assert(contexts(ws.clients).len() == ws.clients.len());
    assert forall|p: int, a: int, q: int, b: int|
        0 <= p < after.len() && 0 <= q < after.len() && 0 <= a < after[p].clients.len() && 0 <= b
            < after[q].clients.len() && (p != q || a != b) implies (#[trigger] contexts(
        after[p].clients,
    )[a]) != (#[trigger] contexts(after[q].clients)[b]) by {
        let x = contexts(after[p].clients)[a];
        let y = contexts(after[q].clients)[b];
        if p == i && a == before.len() {
            assert(x == window);
            assert(y == contexts(workspaces[q].clients)[b]);
        } else if q == i && b == before.len() {
            assert(y == window);
            assert(x == contexts(workspaces[p].clients)[a]);
        } else {
            assert(x == contexts(workspaces[p].clients)[a]);
            assert(y == contexts(workspaces[q].clients)[b]);
        }
    }
}

/// A window that no workspace holds is the context of no client.
pub proof fn lemma_unmanaged(workspaces: Seq<WorkspaceView>, window: XWindow)
    requires
        first_holder(workspaces, window, 0) >= workspaces.len(),
    ensures
        forall|q: int, b: int|
            0 <= q < workspaces.len() && 0 <= b < workspaces[q].clients.len()
                ==> (#[trigger] contexts(workspaces[q].clients)[b]) != window,
{
    lemma_first_holder(workspaces, window, 0);
    assert forall|q: int, b: int|
        0 <= q < workspaces.len() && 0 <= b < workspaces[q].clients.len() implies (
    #[trigger] contexts(workspaces[q].clients)[b]) != window by {
        assert(!holds_context(workspaces[q], window));
        lemma_first_index(contexts(workspaces[q].clients), window);
    }
}

/// The client that `holder` and `slot` name for a managed window exists and
/// has the window as its context.
pub proof fn lemma_managed(s: RdwmView, window: XWindow)
    requires
        s.managed(window),
    ensures
        0 <= s.holder(window) < s.workspaces.len(),
        0 <= s.slot(window) < s.workspaces[s.holder(window)].clients.len(),
        s.client_of(window).context.id == window,
{
    lemma_first_holder(s.workspaces, window, 0);
    lemma_first_index(contexts(s.workspaces[s.holder(window)].clients), window);
}

/// A copy of an action.
pub fn copy_action(action: &Action) -> (r: Action)
    ensures
        r@ == action@,
{
    match action {
        Action::FullScreen => Action::FullScreen,
        Action::Minimize => Action::Minimize,
        Action::FloatFocus => Action::FloatFocus,
        Action::GroundFocus => Action::GroundFocus,
        Action::KillFocus => Action::KillFocus,
        Action::MoveFocusUp => Action::MoveFocusUp,
        Action::MoveFocusDown => Action::MoveFocusDown,
        Action::MoveFocusLeft => Action::MoveFocusLeft,
        Action::MoveFocusRight => Action::MoveFocusRight,
        Action::SplitHorizontal => Action::SplitHorizontal,
        Action::SplitVertical => Action::SplitVertical,
        Action::Exit => Action::Exit,
        Action::MoveWorkspace(n) => Action::MoveWorkspace(*n),
        Action::Execute(command) => Action::Execute(command.clone()),
        Action::NoAction => Action::NoAction,
    }
}

impl RdwmView {
    /// The manager as it starts: one empty workspace of the size of the
    /// screen, which is the current one, no key code known, no flag set.
    pub open spec fn initial(root: XWindow, screen: Quad, bindings: Seq<BindingView>) -> RdwmView {
        RdwmView {
            root,
            workspaces: seq![
                WorkspaceView {
                    number: 0,
                    clients: Seq::empty(),
                    selected: 0,
                    floating: 0,
                    screen,
                    split: None,
                },
            ],
            current: 0,
            bindings,
            keycodes: Seq::empty(),
            detected: false,
            selecting: false,
            exiting: false,
        }
    }
}

impl Rdwm {
    /// The invariant of the manager.
    pub open spec fn wf(self) -> bool {
        self@.wf()
    }

    /// The manager for the display that was opened, with one empty
    /// workspace of the size of screen 0. Fails with `NoDisplay` where no
    /// display was opened, and with `NoScreen` where the display has no
    /// screen.
    pub fn init(display: Option<DisplayInfo>, config: Config) -> (r: Result<Rdwm, WmError>)
        ensures
            match r {
                Ok(wm) => display matches Some(d) && d.screen matches Some(sc) && wm.wf() && wm@
                    == RdwmView::initial(
                    d.root,
                    Quad { x: 0, y: 0, w: unsigned(sc.width), h: unsigned(sc.height) },
                    binding_views(config.bindings@),
                ) && wm.config == config,
                Err(e) => match display {
                    None => e == WmError::NoDisplay,
                    Some(d) => d.screen is None && e == WmError::NoScreen,
                },
            },
    {
        let display = match display {
            Some(d) => d,
            None => {
                return Err(WmError::NoDisplay);
            },
        };
        let screen = match display.screen {
            Some(s) => s,
            None => {
                return Err(WmError::NoScreen);
            },
        };
        let mut workspaces: Vec<Workspace> = Vec::new();
        let first = Workspace::init(
            0,
            Quad::from_size(to_unsigned(screen.height), to_unsigned(screen.width)),
        );
        workspaces.push(first);
        let wm = Rdwm {
            root: display.root,
            workspaces,
            current: 0,
            config,
            keycodes: Vec::new(),
            detected: false,
            selecting: false,
            exiting: false,
        };
        proof {
            assert(wm@.workspaces =~= seq![first@]);
            assert(wm@.keycodes =~= Seq::empty());
        }
        Ok(wm)
    }

    /// The current workspace.
    pub fn get_current(&self) -> (ws: Option<&Workspace>)
        ensures
            match ws {
                Some(ws) => self.current < self.workspaces@.len() && *ws == self.workspaces@[
                    self.current as int],
                None => self.current >= self.workspaces@.len(),
            },
    {
        if self.current < self.workspaces.len() {
            Some(&self.workspaces[self.current])
        } else {
            None
        }
    }

    /// Whether the event loop goes on.
    pub fn is_running(&self) -> (r: bool)
        ensures
            r == self@.running(),
    {
        !self.detected && !self.exiting
    }

    /// Adds an empty workspace of the size of the current one's screen, and
    /// answers with its position.
    pub fn add_workspace(&mut self) -> (n: usize)
        requires
            old(self).wf(),
        ensures
            final(self).wf(),
            final(self).config == old(self).config,
            n == old(self)@.workspaces.len(),
            final(self)@ == (RdwmView {
                workspaces: old(self)@.workspaces.push(
                    WorkspaceView {
                        number: n,
                        clients: Seq::empty(),
                        selected: 0,
                        floating: 0,
                        screen: old(self)@.cur().screen,
                        split: None,
                    },
                ),
                ..old(self)@
            }),
    {
        let n = self.workspaces.len();
        let ws = Workspace::init(n, self.workspaces[self.current].screen);
        self.workspaces.push(ws);
        proof {
            let before = old(self)@.workspaces;
            let after = self@.workspaces;
            assert(after =~= before.push(ws@));
            assert(self@.cur() == old(self)@.cur());
            assert forall|i: int| 0 <= i < after.len() implies (#[trigger] after[i]).wf() by {
                if i < before.len() {
                    assert(after[i] == before[i]);
                }
            }
            assert forall|p: int, a: int, q: int, b: int|
                0 <= p < after.len() && 0 <= q < after.len() && 0 <= a < after[p].clients.len()
                    && 0 <= b < after[q].clients.len() && (p != q || a != b) implies (
            #[trigger] contexts(after[p].clients)[a]) != (#[trigger] contexts(
                after[q].clients,
            )[b]) by {
                assert(after[p] == before[p]);
                assert(after[q] == before[q]);
                assert(contexts(before[p].clients)[a] != contexts(before[q].clients)[b]);
            }
        }
        n
    }

    /// Where the client whose context is `window` is: the position of its
    /// workspace and its position in it.
    pub fn locate(&self, window: XWindow) -> (r: Option<(usize, usize)>)
        ensures
            match r {
                Some((i, a)) => self@.managed(window) && i == self@.holder(window) && a
                    == self@.slot(window) && i < self@.workspaces.len() && a
                    < self@.workspaces[i as int].clients.len(),
                None => !self@.managed(window),
            },
    {
        let mut i: usize = 0;
        while i < self.workspaces.len()
            invariant
                i <= self.workspaces.len(),
                first_holder(self@.workspaces, window, 0) == first_holder(
                    self@.workspaces,
                    window,
                    i as int,
                ),
            decreases self.workspaces.len() - i,
        {
            proof {
                assert(self@.workspaces[i as int] == self.workspaces@[i as int]@);
            }
            match self.workspaces[i].find_context(window) {
                Some(a) => {
                    return Some((i, a));
                },
                None => {},
            }
            i = i + 1;
        }
        None
    }
}

/// The requests that grab the keys of the bindings from `from` on: one for
/// each binding that has a key, in the order of the bindings, with the key
/// code of the key and the modifier mask of the binding, on the root, with
/// pointer and keyboard frozen while the grab is active.
pub open spec fn grabs(
    bindings: Seq<BindingView>,
    keycodes: Seq<u8>,
    root: XWindow,
    from: int,
) -> Seq<Request>
    decreases bindings.len() - from,
{
    if from >= bindings.len() {
        Seq::empty()
    } else if bindings[from].keysym != NoSymbol {
        seq![
            Request::GrabKey {
                keycode: keycode_at(keycodes, from),
                modifiers: bindings[from].mask,
                grab_window: root,
                owner_events: false,
                pointer_mode: GrabModeSync,
                keyboard_mode: GrabModeSync,
            },
        ] + grabs(bindings, keycodes, root, from + 1)
    } else {
        grabs(bindings, keycodes, root, from + 1)
    }
}

/// The manager once it was asked to frame each of the windows of
/// `existing` from `from` on, in their order, as windows that existed before
/// it started.
pub open spec fn scanning(s: RdwmView, existing: Seq<Existing>, from: int) -> RdwmView
    decreases existing.len() - from,
{
    if from >= existing.len() {
        s
    } else {
        scanning(
            s.framing(existing[from].window, existing[from].attributes, true, existing[from].frame),
            existing,
            from + 1,
        )
    }
}

/// The requests that frame the windows of `existing` from `from` on.
pub open spec fn scanning_requests(s: RdwmView, existing: Seq<Existing>, from: int) -> Seq<
    Request,
>
    decreases existing.len() - from,
{
    if from >= existing.len() {
        Seq::empty()
    } else {
        s.framing_requests(
            existing[from].window,
            existing[from].attributes,
            true,
            existing[from].frame,
        ) + scanning_requests(
            s.framing(existing[from].window, existing[from].attributes, true, existing[from].frame),
            existing,
            from + 1,
        )
    }
}

/// The manager once it was handed the events of `events` from `from` on,
/// in their order, as long as it was running.
pub open spec fn run_state(s: RdwmView, events: Seq<Event>, from: int) -> RdwmView
    decreases events.len() - from,
{
    if from >= events.len() || !s.running() {
        s
    } else {
        run_state(s.step(events[from]), events, from + 1)
    }
}

/// What the manager answers to the events of `events` from `from` on, one
/// reaction for each event it was handed while it was running.
pub open spec fn run_reactions(s: RdwmView, events: Seq<Event>, from: int) -> Seq<ReactionView>
    decreases events.len() - from,
{
    if from >= events.len() || !s.running() {
        Seq::empty()
    } else {
        seq![s.reaction(events[from])] + run_reactions(s.step(events[from]), events, from + 1)
    }
}

/// The views of the reactions of a sequence, in its order.
pub open spec fn reaction_views(reactions: Seq<Reaction>) -> Seq<ReactionView> {
    Seq::new(reactions.len(), |i: int| reactions[i]@)
}

impl RdwmView {
    /// The manager with other key codes.
    pub open spec fn with_keycodes(self, keycodes: Seq<u8>) -> RdwmView {
        RdwmView {
            root: self.root,
            workspaces: self.workspaces,
            current: self.current,
            bindings: self.bindings,
            keycodes,
            detected: self.detected,
            selecting: self.selecting,
            exiting: self.exiting,
        }
    }
}

impl Rdwm {
    /// The keysym of the key of each binding, in the order of the bindings;
    /// `NoSymbol` for a binding without a key. These are the keysyms whose
    /// key codes `register_root` is to be handed.
    pub fn keysyms(&self) -> (k: Vec<u64>)
        ensures
            k@.len() == self@.bindings.len(),
            forall|i: int| 0 <= i < k@.len() ==> k@[i] == (#[trigger] self@.bindings[i]).keysym,
    {
        let mut k: Vec<u64> = Vec::new();
        let mut i: usize = 0;
        while i < self.config.bindings.len()
            invariant
                i <= self.config.bindings.len(),
                k@.len() == i,
                forall|j: int| 0 <= j < i ==> k@[j] == (#[trigger] self@.bindings[j]).keysym,
            decreases self.config.bindings.len() - i,
        {
            k.push(self.config.bindings[i].0.key.keysym_or_none());
            i = i + 1;
        }
        k
    }

    /// Takes note of the key code of the key of each binding, and answers
    /// with the requests that grab the key of each binding that has one on
    /// the root, and then select key presses there, beside what the manager
    /// selects on the root already. `keycodes` holds, in the order of the
    /// bindings, what the server made of the keysyms that `keysyms` lists.
    pub fn register_root(&mut self, keycodes: Vec<u8>) -> (requests: Vec<Request>)
        ensures
            final(self)@ == old(self)@.with_keycodes(keycodes@),
            final(self).config == old(self).config,
            requests@ == grabs(old(self)@.bindings, keycodes@, old(self).root, 0).push(
                Request::SelectInput { window: old(self).root, mask: ROOT_KEY_EVENT_MASK },
            ),
    {
        let mut requests: Vec<Request> = Vec::new();
        let mut i: usize = 0;
        let ghost bindings = self@.bindings;
        while i < self.config.bindings.len()
            invariant
                i <= self.config.bindings.len(),
                bindings == self@.bindings,
                bindings.len() == self.config.bindings.len(),
                self == old(self),
                grabs(bindings, keycodes@, self.root, 0) == requests@ + grabs(
                    bindings,
                    keycodes@,
                    self.root,
                    i as int,
                ),
            decreases self.config.bindings.len() - i,
        {
            let ghost before = requests@;
            let keysym = self.config.bindings[i].0.key.keysym_or_none();
            if keysym != NoSymbol {
                let keycode = if i < keycodes.len() {
                    keycodes[i]
                } else {
                    AnyKey
                };
                let mask = self.config.bindings[i].0.get_mask();
                requests.push(
                    Request::GrabKey {
                        keycode,
                        modifiers: mask,
                        grab_window: self.root,
                        owner_events: false,
                        pointer_mode: GrabModeSync,
                        keyboard_mode: GrabModeSync,
                    },
                );
            }
            proof {
                let rest = grabs(bindings, keycodes@, self.root, i + 1);
                assert(requests@ + rest =~= before + grabs(
                    bindings,
                    keycodes@,
                    self.root,
                    i as int,
                ));
            }
            i = i + 1;
        }
        requests.push(Request::SelectInput { window: self.root, mask: ROOT_KEY_EVENT_MASK });
        self.keycodes = keycodes;
        requests
    }

    /// Starts the selection of substructure redirection on the root, and
    /// answers with the requests that route the errors of the server to the
    /// manager, make the selection, and wait for the server to answer it.
    pub fn select_root(&mut self) -> (requests: Vec<Request>)
        ensures
            final(self)@ == old(self)@.with_flags(old(self).detected, true, old(self).exiting),
            final(self).config == old(self).config,
            requests@ == seq![
                Request::SetErrorHandler,
                Request::SelectInput { window: old(self).root, mask: ROOT_EVENT_MASK },
                Request::Sync,
            ],
    {
        let mut requests: Vec<Request> = Vec::new();
        requests.push(Request::SetErrorHandler);
        requests.push(Request::SelectInput { window: self.root, mask: ROOT_EVENT_MASK });
        requests.push(Request::Sync);
        self.selecting = true;
        requests
    }

    /// Takes note of an error that the server reported. Another manager is
    /// detected where the error is `BadAccess` and the selection on the root
    /// is under way; no other error changes anything. The answer is 0
    /// always.
    pub fn on_wm_detected(&mut self, code: u8) -> (r: i32)
        ensures
            r == 0,
            final(self)@ == old(self)@.failing(code),
            final(self).config == old(self).config,
            old(self).detected ==> final(self).detected,
            old(self).wf() ==> final(self).wf(),
    {
        if self.selecting && code == BadAccess {
            self.detected = true;
        }
        0
    }

    /// Ends the selection on the root. Fails with `ManagerConflict` where
    /// another manager was detected, and nothing is to be done then. Else
    /// the manager has the root, and the answer is the request that grabs the
    /// server for the scan of the windows that exist.
    pub fn claim_root(&mut self) -> (r: Result<Vec<Request>, WmError>)
        ensures
            final(self).config == old(self).config,
            old(self).wf() ==> final(self).wf(),
            match r {
                Ok(requests) => !old(self).detected && requests@ == seq![Request::GrabServer]
                    && final(self)@ == old(self)@.with_flags(false, false, old(self).exiting),
                Err(e) => old(self).detected && e == WmError::ManagerConflict && final(self)@
                    == old(self)@,
            },
    {
        if self.detected {
            return Err(WmError::ManagerConflict);
        }
        self.selecting = false;
        let mut requests: Vec<Request> = Vec::new();
        requests.push(Request::GrabServer);
        Ok(requests)
    }

    /// Whether a window would come to be managed if it were framed: its
    /// attributes could be read, it is not managed yet, and where it existed
    /// before the manager started it is viewable and does not ask to be left
    /// alone. Only for such a window is the identifier of a frame needed.
    pub fn admits(
        &self,
        window: XWindow,
        attributes: Option<WindowAttributes>,
        already_existing: bool,
    ) -> (r: bool)
        ensures
            r == self@.admits(window, attributes, already_existing),
    {
        match attributes {
            None => false,
            Some(a) => !(already_existing && (a.override_redirect || a.map_state != IsViewable))
                && self.locate(window).is_none(),
        }
    }

    /// Frames `window`, given the answer of the server to a query for its
    /// attributes and an identifier for the frame. Fails with
    /// `BadWindowAttrs` where the query failed, and nothing changes then. A
    /// window that is managed already is left alone, and so is one that
    /// existed before the manager started and is not viewable or asks to be
    /// left alone: no request is made for it. Any other window becomes a
    /// client of the current workspace, and the answer is the requests that
    /// create and fill its frame and arrange the workspace, then the one
    /// that adds the window to the save-set.
    pub fn frame(
        &mut self,
        window: XWindow,
        attributes: Option<WindowAttributes>,
        already_existing: bool,
        frame: XWindow,
    ) -> (r: Result<Vec<Request>, WmError>)
        requires
            old(self).wf(),
        ensures
            final(self).wf(),
            final(self).config == old(self).config,
            final(self)@ == old(self)@.framing(window, attributes, already_existing, frame),
            match r {
                Ok(requests) => attributes is Some && requests@ == old(self)@.framing_requests(
                    window,
                    attributes,
                    already_existing,
                    frame,
                ),
                Err(e) => attributes is None && e == WmError::BadWindowAttrs,
            },
    {
        let hints = match attributes {
            Some(a) => a,
            None => {
                return Err(WmError::BadWindowAttrs);
            },
        };
        if !self.admits(window, attributes, already_existing) {
            return Ok(Vec::new());
        }
        let at = self.current;
        let root = self.root;
        let ghost before = self@.workspaces;
        let (_, mut requests) = self.workspaces[at].create_window(root, window, &hints, frame);
        requests.push(Request::AddToSaveSet { window });
        proof {
            let ws = before[at as int].framing(frame, window, hints);
            assert(self@.workspaces =~= before.update(at as int, ws));
            lemma_unmanaged(before, window);
            lemma_contexts_grown(
                before[at as int],
                crate::workspace::new_client(frame, window, hints, before[at as int].screen),
            );
            lemma_distinct_grown(before, at as int, window, ws);
        }
        Ok(requests)
    }

    /// Frames the windows that exist when the manager starts, each as
    /// `frame` does for a window that existed before, in the order given. A
    /// window whose attributes could not be read is passed over. Answers
    /// with the requests of the framings, in that order, then the one that
    /// releases the server.
    pub fn scan(&mut self, existing: &Vec<Existing>) -> (requests: Vec<Request>)
        requires
            old(self).wf(),
        ensures
            final(self).wf(),
            final(self).config == old(self).config,
            final(self)@ == scanning(old(self)@, existing@, 0),
            requests@ == scanning_requests(old(self)@, existing@, 0).push(Request::UngrabServer),
    {
        let mut requests: Vec<Request> = Vec::new();
        let mut i: usize = 0;
        while i < existing.len()
            invariant
                i <= existing.len(),
                self.wf(),
                self.config == old(self).config,
                scanning(old(self)@, existing@, 0) == scanning(self@, existing@, i as int),
                scanning_requests(old(self)@, existing@, 0) == requests@ + scanning_requests(
                    self@,
                    existing@,
                    i as int,
                ),
            decreases existing.len() - i,
        {
            let ghost entry = self@;
            let ghost before = requests@;
            let e = existing[i];
            match self.frame(e.window, e.attributes, true, e.frame) {
                Ok(mut framing) => {
                    requests.append(&mut framing);
                },
                Err(_) => {},
            }
            proof {
                let made = entry.framing_requests(e.window, e.attributes, true, e.frame);
                assert(requests@ =~= before + made);
                assert(before + (made + scanning_requests(self@, existing@, i + 1)) =~= requests@
                    + scanning_requests(self@, existing@, i + 1));
            }
            i = i + 1;
        }
        requests.push(Request::UngrabServer);
        requests
    }
}

impl Reaction {
    /// The reaction that asks for `requests` and nothing else.
    pub fn of(requests: Vec<Request>) -> (r: Reaction)
        ensures
            r@ == ReactionView::of(requests@),
    {
        Reaction { requests, command: None, error: None }
    }
}

impl Rdwm {
    /// Moves the selection of the current workspace to the client whose
    /// frame the pointer entered, or to its last client where the window
    /// entered is no frame of it, and answers with the requests that
    /// recolour the borders.
    pub fn on_enter_notify(&mut self, window: XWindow) -> (requests: Vec<Request>)
        requires
            old(self).wf(),
        ensures
            final(self).wf(),
            final(self).config == old(self).config,
            final(self)@ == old(self)@.entering(window),
            requests@ == old(self)@.entering_requests(window),
    {
        let at = self.current;
        let ghost before = self@.workspaces;
        proof {
            assert(before[at as int] == self.workspaces@[at as int]@);
            lemma_first_index(crate::workspace::frames(before[at as int].clients), window);
        }
        let index = match self.workspaces[at].find_frame(window) {
            Some(i) => i,
            None => self.workspaces[at].clients.len(),
        };
        let requests = self.workspaces[at].update_selected(index);
        proof {
            let ws = before[at as int].selecting(index);
            assert(self@.workspaces =~= before.update(at as int, ws));
            lemma_contexts_kept(before[at as int], index, true, Direction::Up);
            lemma_distinct_kept(before, at as int, ws);
        }
        requests
    }

    /// Takes the client whose context is `window` out of its workspace and
    /// arranges the workspace. Answers with the requests of the
    /// arrangement where the workspace is the current one.
    fn drop_client(&mut self, at: usize, index: usize, window: XWindow) -> (r: (
        Client,
        Vec<Request>,
    ))
        requires
            old(self).wf(),
            old(self)@.managed(window),
            at == old(self)@.holder(window),
            index == old(self)@.slot(window),
        ensures
            final(self).wf(),
            final(self).config == old(self).config,
            final(self)@ == old(self)@.dropping(window),
            r.0@ == old(self)@.client_of(window),
            r.1@ == old(self)@.dropping_requests(window),
    {
        let ghost before = self@.workspaces;
        proof {
            lemma_managed(self@, window);
            assert(before[at as int] == self.workspaces@[at as int]@);
        }
        let client = self.workspaces[at].detach(index);
        let arrangement = self.workspaces[at].arrange();
        proof {
            let ws = before[at as int].destroying(index as int);
            assert(self@.workspaces =~= before.update(at as int, ws));
            lemma_contexts_shrunk(before[at as int], index as int);
            lemma_distinct_shrunk(before, at as int, index as int, ws);
        }
        if at == self.current {
            (client, arrangement)
        } else {
            (client, Vec::new())
        }
    }

    /// Ends the client whose context was unmapped. A notification that was
    /// selected on the root, or that names a window that is no context of a
    /// client, changes nothing. Else the answer is the requests of the
    /// teardown of the client, in its order, then those that arrange its
    /// workspace.
    pub fn on_unmap_notify(&mut self, event: XWindow, window: XWindow) -> (requests: Vec<Request>)
        requires
            old(self).wf(),
        ensures
            final(self).wf(),
            final(self).config == old(self).config,
            final(self)@ == old(self)@.unmapping(event, window),
            requests@ == old(self)@.unmapping_requests(event, window),
    {
        let mut requests: Vec<Request> = Vec::new();
        if event == self.root {
            return requests;
        }
        let (at, index) = match self.locate(window) {
            Some(place) => place,
            None => {
                return requests;
            },
        };
        let root = self.root;
        let (client, mut arrangement) = self.drop_client(at, index, window);
        requests.push(Request::UnmapWindow { window: client.context.id });
        requests.push(Request::UnmapWindow { window: client.frame.id });
        requests.push(
            Request::ReparentWindow { window: client.context.id, parent: root, x: 0, y: 0 },
        );
        requests.push(Request::DestroyWindow { window: client.context.id });
        requests.push(Request::DestroyWindow { window: client.frame.id });
        proof {
            assert(requests@ =~= teardown_requests(old(self)@.client_of(window), root));
        }
        requests.append(&mut arrangement);
        requests
    }

    /// Drops the client whose context was destroyed, if there is one.
    /// Answers with the request that destroys its frame, then those that
    /// arrange its workspace.
    pub fn on_destroy_notify(&mut self, window: XWindow) -> (requests: Vec<Request>)
        requires
            old(self).wf(),
        ensures
            final(self).wf(),
            final(self).config == old(self).config,
            final(self)@ == old(self)@.destroying(window),
            requests@ == old(self)@.destroying_requests(window),
    {
        let mut requests: Vec<Request> = Vec::new();
        let (at, index) = match self.locate(window) {
            Some(place) => place,
            None => {
                return requests;
            },
        };
        let (client, mut arrangement) = self.drop_client(at, index, window);
        requests.push(Request::DestroyWindow { window: client.frame.id });
        proof {
            assert(requests@ =~= seq![
                Request::DestroyWindow { window: old(self)@.client_of(window).frame.id },
            ]);
        }
        requests.append(&mut arrangement);
        requests
    }

    /// Frames the window that a client asked to map.
    pub fn on_map_request(
        &mut self,
        window: XWindow,
        attributes: Option<WindowAttributes>,
        frame: XWindow,
    ) -> (r: Result<Vec<Request>, WmError>)
        requires
            old(self).wf(),
        ensures
            final(self).wf(),
            final(self).config == old(self).config,
            final(self)@ == old(self)@.framing(window, attributes, false, frame),
            match r {
                Ok(requests) => attributes is Some && requests@ == old(self)@.framing_requests(
                    window,
                    attributes,
                    false,
                    frame,
                ),
                Err(e) => attributes is None && e == WmError::BadWindowAttrs,
            },
    {
        self.frame(window, attributes, false, frame)
    }

    /// Answers a request to configure `window` with the requests that
    /// carry it out: on the frame and then on the window where the window is
    /// the context of a client, on the window alone where it is not.
    pub fn on_configure_request(
        &self,
        window: XWindow,
        value_mask: u64,
        changes: WindowChanges,
    ) -> (requests: Vec<Request>)
        requires
            self.wf(),
        ensures
            requests@ == self@.configuring_requests(window, value_mask, changes),
    {
        let low: u64 = value_mask & 0xffff_ffff;
        assert(value_mask & 0xffff_ffff <= 0xffff_ffff) by (bit_vector);
        let mask: u32 = low as u32;
        let mut requests: Vec<Request> = Vec::new();
        match self.locate(window) {
            Some((at, index)) => {
                proof {
                    assert(self@.workspaces[at as int] == self.workspaces@[at as int]@);
                    assert(self@.workspaces[at as int].clients[index as int]
                        == self.workspaces@[at as int].clients@[index as int]@);
                }
                requests.push(
                    Request::ConfigureWindow {
                        window: self.workspaces[at].clients[index].frame.id,
                        value_mask: mask,
                        changes,
                    },
                );
            },
            None => {},
        }
        requests.push(Request::ConfigureWindow { window, value_mask: mask, changes });
        proof {
            assert(requests@ =~= self@.configuring_requests(window, value_mask, changes));
        }
        requests
    }

    /// The position of the first binding that fires under the key code and
    /// modifier state.
    pub fn binding(&self, keycode: u32, state: u32) -> (r: Option<usize>)
        ensures
            match r {
                Some(i) => i < self@.bindings.len() && i == first_firing(
                    self@.bindings,
                    self@.keycodes,
                    keycode,
                    state,
                    0,
                ),
                None => first_firing(self@.bindings, self@.keycodes, keycode, state, 0)
                    >= self@.bindings.len(),
            },
    {
        let mut i: usize = 0;
        while i < self.config.bindings.len()
            invariant
                i <= self.config.bindings.len(),
                self@.bindings.len() == self.config.bindings.len(),
                first_firing(self@.bindings, self@.keycodes, keycode, state, 0) == first_firing(
                    self@.bindings,
                    self@.keycodes,
                    keycode,
                    state,
                    i as int,
                ),
            decreases self.config.bindings.len() - i,
        {
            let keysym = self.config.bindings[i].0.key.keysym_or_none();
            let code = if i < self.keycodes.len() {
                self.keycodes[i]
            } else {
                AnyKey
            };
            if keysym != NoSymbol && code as u32 == keycode {
                let mask = self.config.bindings[i].0.get_mask();
                if mask == state {
                    return Some(i);
                }
            }
            i = i + 1;
        }
        None
    }

    /// Moves the selected client of the current workspace to the workspace
    /// of the number `n`, where there is such a workspace other than the
    /// current one and a client to move. Both workspaces are arranged. The
    /// answer is the request that unmaps the frame of the client, then those
    /// that arrange the current workspace.
    pub fn move_workspace(&mut self, n: u32) -> (requests: Vec<Request>)
        requires
            old(self).wf(),
        ensures
            final(self).wf(),
            final(self).config == old(self).config,
            final(self)@ == old(self)@.moving(n),
            requests@ == old(self)@.moving_requests(n),
    {
        let mut requests: Vec<Request> = Vec::new();
        let to = n as usize;
        let at = self.current;
        let ghost before = self@.workspaces;
        proof {
            assert(before[at as int] == self.workspaces@[at as int]@);
        }
        if to >= self.workspaces.len() || to == at || self.workspaces[at].clients.len() == 0 {
            return requests;
        }
        let index = self.workspaces[at].selected;
        let client = self.workspaces[at].detach(index);
        let mut arrangement = self.workspaces[at].arrange();
        requests.push(Request::UnmapWindow { window: client.frame.id });
        requests.append(&mut arrangement);
        let ghost moved = client@;
        let ghost middle = self@.workspaces;
        proof {
            let ws = before[at as int].destroying(index as int);
            assert(middle =~= before.update(at as int, ws));
            lemma_contexts_shrunk(before[at as int], index as int);
            lemma_distinct_shrunk(before, at as int, index as int, ws);
            assert(middle[to as int] == self.workspaces@[to as int]@);
            assert(middle[to as int] == before[to as int]);
            assert(moved.context.id == contexts(before[at as int].clients)[index as int]);
        }
        let _ = self.workspaces[to].attach(client);
        proof {
            let ws = middle[to as int].attached(moved).settled();
            assert(self@.workspaces =~= middle.update(to as int, ws));
            lemma_contexts_grown(middle[to as int], moved);
            lemma_distinct_grown(middle, to as int, moved.context.id, ws);
            assert forall|i: int| 0 <= i < self@.workspaces.len() implies (
            #[trigger] self@.workspaces[i]).wf() by {
                if i != to {
                    assert(self@.workspaces[i] == middle[i]);
                }
            }
        }
        requests
    }

    /// Carries out an action, and answers with its requests and, for an
    /// action that executes a command, with the command line.
    pub fn act(&mut self, action: Action) -> (r: Reaction)
        requires
            old(self).wf(),
        ensures
            final(self).wf(),
            final(self).config == old(self).config,
            final(self)@ == old(self)@.acting(action@),
            r@ == old(self)@.acting_reaction(action@),
    {
        let at = self.current;
        let ghost before = self@.workspaces;
        proof {
            assert(before[at as int] == self.workspaces@[at as int]@);
            lemma_contexts_kept(before[at as int], 0, true, Direction::Up);
            lemma_contexts_kept(before[at as int], 0, false, Direction::Down);
            lemma_contexts_kept(before[at as int], 0, false, Direction::Left);
            lemma_contexts_kept(before[at as int], 0, false, Direction::Right);
        }
        match action {
            Action::FullScreen => {
                let requests = self.workspaces[at].toggle_fullscreen();
                proof {
                    let ws = before[at as int].filling();
                    assert(self@.workspaces =~= before.update(at as int, ws));
                    lemma_distinct_kept(before, at as int, ws);
                }
                Reaction::of(requests)
            },
            Action::FloatFocus => {
                let requests = self.workspaces[at].set_floating(true);
                proof {
                    let ws = before[at as int].floating(true);
                    assert(self@.workspaces =~= before.update(at as int, ws));
                    lemma_distinct_kept(before, at as int, ws);
                }
                Reaction::of(requests)
            },
            Action::GroundFocus => {
                let requests = self.workspaces[at].set_floating(false);
                proof {
                    let ws = before[at as int].floating(false);
                    assert(self@.workspaces =~= before.update(at as int, ws));
                    lemma_distinct_kept(before, at as int, ws);
                }
                Reaction::of(requests)
            },
            Action::MoveFocusUp => self.focus(Direction::Up),
            Action::MoveFocusDown => self.focus(Direction::Down),
            Action::MoveFocusLeft => self.focus(Direction::Left),
            Action::MoveFocusRight => self.focus(Direction::Right),
            Action::SplitHorizontal => {
                self.workspaces[at].split = Some(Split::Horizontal);
                proof {
                    let ws = before[at as int].with_split(Some(Split::Horizontal));
                    assert(self@.workspaces =~= before.update(at as int, ws));
                    lemma_distinct_kept(before, at as int, ws);
                }
                Reaction::of(Vec::new())
            },
            Action::SplitVertical => {
                self.workspaces[at].split = Some(Split::Vertical);
                proof {
                    let ws = before[at as int].with_split(Some(Split::Vertical));
                    assert(self@.workspaces =~= before.update(at as int, ws));
                    lemma_distinct_kept(before, at as int, ws);
                }
                Reaction::of(Vec::new())
            },
            Action::Exit => {
                self.exiting = true;
                Reaction::of(Vec::new())
            },
            Action::MoveWorkspace(n) => {
                let requests = self.move_workspace(n);
                Reaction::of(requests)
            },
            Action::KillFocus => {
                let mut requests: Vec<Request> = Vec::new();
                if self.workspaces[at].clients.len() > 0 {
                    let selected = self.workspaces[at].selected;
                    proof {
                        assert(before[at as int].clients[selected as int]
                            == self.workspaces@[at as int].clients@[selected as int]@);
                    }
                    requests.push(
                        Request::GetProtocols {
                            window: self.workspaces[at].clients[selected].context.id,
                        },
                    );
                }
                proof {
                    assert(requests@ =~= old(self)@.acting_requests(ActionView::KillFocus));
                }
                Reaction::of(requests)
            },
            Action::Minimize => Reaction::of(Vec::new()),
            Action::Execute(command) => Reaction {
                requests: Vec::new(),
                command: Some(command),
                error: None,
            },
            Action::NoAction => Reaction::of(Vec::new()),
        }
    }

    /// Moves the selection of the current workspace in a direction.
    fn focus(&mut self, direction: Direction) -> (r: Reaction)
        requires
            old(self).wf(),
        ensures
            final(self).wf(),
            final(self).config == old(self).config,
            final(self)@ == old(self)@.with_workspace(
                old(self).current as int,
                old(self)@.cur().focusing(direction),
            ),
            r@ == ReactionView::of(old(self)@.cur().focusing_requests(direction)),
    {
        let at = self.current;
        let ghost before = self@.workspaces;
        proof {
            assert(before[at as int] == self.workspaces@[at as int]@);
            lemma_contexts_kept(before[at as int], 0, true, direction);
        }
        let requests = self.workspaces[at].move_focus(direction);
        proof {
            let ws = before[at as int].focusing(direction);
            assert(self@.workspaces =~= before.update(at as int, ws));
            lemma_distinct_kept(before, at as int, ws);
        }
        Reaction::of(requests)
    }

    /// Carries out the action of the first binding that fires under the
    /// key code and modifier state of a key press; no action where none
    /// fires.
    pub fn on_key_press(&mut self, keycode: u32, state: u32) -> (r: Reaction)
        requires
            old(self).wf(),
        ensures
            final(self).wf(),
            final(self).config == old(self).config,
            final(self)@ == old(self)@.acting(old(self)@.action_of(keycode, state)),
            r@ == old(self)@.acting_reaction(old(self)@.action_of(keycode, state)),
    {
        let action = match self.binding(keycode, state) {
            Some(i) => copy_action(&self.config.bindings[i].1),
            None => Action::NoAction,
        };
        self.act(action)
    }

    /// Hands the manager an event, and answers with what is to be done
    /// about it. A failure is confined to the event: it is reported in the
    /// reaction and the manager goes on.
    pub fn handle_event(&mut self, event: &Event) -> (r: Reaction)
        requires
            old(self).wf(),
        ensures
            final(self).wf(),
            final(self).config == old(self).config,
            final(self)@ == old(self)@.step(*event),
            r@ == old(self)@.reaction(*event),
            old(self).detected ==> final(self).detected,
    {
        match *event {
            Event::KeyPress { keycode, state } => self.on_key_press(keycode, state),
            Event::EnterNotify { window } => Reaction::of(self.on_enter_notify(window)),
            Event::DestroyNotify { window } => Reaction::of(self.on_destroy_notify(window)),
            Event::UnmapNotify { event, window } => Reaction::of(
                self.on_unmap_notify(event, window),
            ),
            Event::MapRequest { window, attributes, frame } => match self.on_map_request(
                window,
                attributes,
                frame,
            ) {
                Ok(requests) => Reaction::of(requests),
                Err(e) => Reaction { requests: Vec::new(), command: None, error: Some(e) },
            },
            Event::ConfigureRequest { window, value_mask, changes } => Reaction::of(
                self.on_configure_request(window, value_mask, changes),
            ),
            Event::Protocols { window, delete_window } => {
                let mut requests: Vec<Request> = Vec::new();
                if delete_window {
                    requests.push(Request::SendDeleteWindow { window });
                } else {
                    requests.push(Request::KillClient { window });
                }
                proof {
                    assert(requests@ =~= old(self)@.reaction(*event).requests);
                }
                Reaction::of(requests)
            },
            Event::Error { code, request } => {
                let conflict = self.selecting && code == BadAccess;
                let _ = self.on_wm_detected(code);
                Reaction {
                    requests: Vec::new(),
                    command: None,
                    error: Some(
                        if conflict {
                            WmError::ManagerConflict
                        } else {
                            WmError::ProtocolError { code, request }
                        },
                    ),
                }
            },
            _ => Reaction::of(Vec::new()),
        }
    }

    /// Runs the event loop over the events given: hands them to the
    /// manager in their order for as long as it is running, and answers with
    /// the reactions, one for each event handed over. The loop ends once
    /// another manager was detected or the user asked to exit; the events
    /// after that are not looked at.
    pub fn run(&mut self, events: &Vec<Event>) -> (reactions: Vec<Reaction>)
        requires
            old(self).wf(),
        ensures
            final(self).wf(),
            final(self).config == old(self).config,
            final(self)@ == run_state(old(self)@, events@, 0),
            reaction_views(reactions@) == run_reactions(old(self)@, events@, 0),
    {
        let mut reactions: Vec<Reaction> = Vec::new();
        let mut i: usize = 0;
        proof {
            assert(reaction_views(reactions@) =~= Seq::empty());
        }
        while i < events.len() && self.is_running()
            invariant
                i <= events.len(),
                self.wf(),
                self.config == old(self).config,
                run_state(old(self)@, events@, 0) == run_state(self@, events@, i as int),
                run_reactions(old(self)@, events@, 0) == reaction_views(reactions@)
                    + run_reactions(self@, events@, i as int),
            decreases events.len() - i,
        {
            let ghost entry = self@;
            let ghost before = reaction_views(reactions@);
            let reaction = self.handle_event(&events[i]);
            let ghost made = reaction@;
            reactions.push(reaction);
            proof {
                assert(reaction_views(reactions@) =~= before.push(made));
                assert(before + (seq![made] + run_reactions(self@, events@, i + 1))
                    =~= reaction_views(reactions@) + run_reactions(self@, events@, i + 1));
            }
            i = i + 1;
        }
        proof {
            assert(run_reactions(self@, events@, i as int) =~= Seq::empty());
            assert(reaction_views(reactions@) + Seq::<ReactionView>::empty() =~= reaction_views(
                reactions@,
            ));
        }
        reactions
    }
}

} // verus!
