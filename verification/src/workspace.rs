//! A workspace: the clients that share a tiling area, which of them is
//! selected, and the arrangement of their frames on the screen.
//!
//! Every operation answers with the requests that bring the display in line
//! with the new state of the workspace, in the order they are to be made.

use crate::client::{views, Attributes, Client, ClientView};
use crate::flags::WindowFlags;
use crate::geometry::Quad;
use crate::flags::{FLOATING, FULLSCREEN, TILING};
use crate::xproto::{
    Button1, GrabModeSync, Request, ShiftMask, WindowAttributes, XWindow, FRAME_EVENT_MASK,
};
use vstd::prelude::*;

verus! {

/// Width of the border of a frame, in pixels.
pub const FRAME_BORDER_WIDTH: u32 = 3;

/// Colour of the border of a frame when it is created.
pub const FRAME_BORDER: u64 = 0x316d4c;

/// Colour of the background of a frame.
pub const FRAME_BACKGROUND: u64 = 0x5f316d;

/// Colour of the border of a frame whose client is not selected.
pub const INACTIVE_BORDER: u64 = 0x5f316d;

/// Colour of the border of the frame of the selected client.
pub const ACTIVE_BORDER: u64 = 0xEEE8AA;

/// A layout preference that the user can record on a workspace.
#[derive(Debug, Clone, Copy, PartialEq, Eq, Structural)]
pub enum Split {
    Horizontal,
    Vertical,
}

/// The number of clients among the first `j` of `clients` that take part in
/// the tiling.
pub open spec fn rank(clients: Seq<ClientView>, j: int) -> nat
    decreases j,
{
    if j <= 0 {
        0
    } else {
        rank(clients, j - 1) + if clients[j - 1].flags.tiles() {
            1nat
        } else {
            0nat
        }
    }
}

/// The number of clients of `clients` that take part in the tiling.
pub open spec fn tiled_count(clients: Seq<ClientView>) -> nat {
    rank(clients, clients.len() as int)
}

/// The number of clients among the first `j` of `clients` that float.
pub open spec fn floating_upto(clients: Seq<ClientView>, j: int) -> nat
    decreases j,
{
    if j <= 0 {
        0
    } else {
        floating_upto(clients, j - 1) + if clients[j - 1].flags.floats() {
            1nat
        } else {
            0nat
        }
    }
}

/// The number of clients of `clients` that float.
pub open spec fn floating_count(clients: Seq<ClientView>) -> nat {
    floating_upto(clients, clients.len() as int)
}

/// The column of the `k`-th of `n` tiles on a screen: the screen is cut
/// into `n` columns of equal width and full height, and the columns are
/// counted from the left, starting at 0.
pub open spec fn column(k: nat, n: nat, screen: Quad) -> Quad {
    Quad {
        x: ((k as int) * (screen.w as int) / (n as int)) as u32,
        y: 0,
        w: ((screen.w as int) / (n as int)) as u32,
        h: screen.h,
    }
}

/// The place of a context inside its frame when the screen holds `n` tiles:
/// all of the frame.
pub open spec fn cell(n: nat, screen: Quad) -> Quad {
    Quad { x: 0, y: 0, w: ((screen.w as int) / (n as int)) as u32, h: screen.h }
}

/// The client at `i` as the arrangement of `clients` on `screen` leaves it:
/// in its column where it takes part in the tiling, as it was where it does
/// not.
pub open spec fn place(clients: Seq<ClientView>, screen: Quad, i: int) -> ClientView {
    if clients[i].flags.tiles() {
        clients[i].placed(
            column(rank(clients, i), tiled_count(clients), screen),
            cell(tiled_count(clients), screen),
        )
    } else {
        clients[i]
    }
}

/// `clients` with the first `j` of them arranged on `screen`.
pub open spec fn arranged_upto(clients: Seq<ClientView>, screen: Quad, j: int) -> Seq<
    ClientView,
> {
    Seq::new(
        clients.len(),
        |i: int|
            if i < j {
                place(clients, screen, i)
            } else {
                clients[i]
            },
    )
}

/// `clients` arranged on `screen`: the tiled clients side by side in columns
/// of equal width, in the order of the sequence; the others as they were.
pub open spec fn arranged(clients: Seq<ClientView>, screen: Quad) -> Seq<ClientView> {
    arranged_upto(clients, screen, clients.len() as int)
}

/// Whether each tiled client of `clients` has the geometry that the
/// arrangement on `screen` gives it.
pub open spec fn is_arranged(clients: Seq<ClientView>, screen: Quad) -> bool {
    forall|i: int| 0 <= i < clients.len() ==> #[trigger] clients[i] == place(clients, screen, i)
}

/// The requests that put a tiled client in its place: move and resize the
/// frame, then the context inside it, then map both.
pub open spec fn tile_requests(c: ClientView, frame: Quad, context: Quad) -> Seq<Request> {
    seq![
        Request::MoveResizeWindow { window: c.frame.id, rect: frame },
        Request::MoveResizeWindow { window: c.context.id, rect: context },
        Request::MapWindow { window: c.frame.id },
        Request::MapWindow { window: c.context.id },
    ]
}

/// The requests that arrange the first `j` clients of `clients`.
pub open spec fn arrange_requests_upto(clients: Seq<ClientView>, screen: Quad, j: int) -> Seq<
    Request,
>
    decreases j,
{
    if j <= 0 {
        Seq::empty()
    } else {
        arrange_requests_upto(clients, screen, j - 1) + if clients[j - 1].flags.tiles() {
            tile_requests(
                clients[j - 1],
                column(rank(clients, j - 1), tiled_count(clients), screen),
                cell(tiled_count(clients), screen),
            )
        } else {
            Seq::empty()
        }
    }
}

/// The requests that arrange `clients` on `screen`: those of each tiled
/// client, in the order of the sequence.
pub open spec fn arrange_requests(clients: Seq<ClientView>, screen: Quad) -> Seq<Request> {
    arrange_requests_upto(clients, screen, clients.len() as int)
}

/// Counts of tiled and of floating clients depend on the flags alone.
pub proof fn lemma_counts_by_flags(a: Seq<ClientView>, b: Seq<ClientView>, j: int)
    requires
        a.len() == b.len(),
        j <= a.len(),
        forall|i: int| 0 <= i < a.len() ==> (#[trigger] a[i]).flags == b[i].flags,
    ensures
        rank(a, j) == rank(b, j),
        floating_upto(a, j) == floating_upto(b, j),
    decreases j,
{
    if j > 0 {
        lemma_counts_by_flags(a, b, j - 1);
    }
}

/// No more clients are tiled, or float, among the first `j` than there are.
pub proof fn lemma_counts_bounded(clients: Seq<ClientView>, j: int)
    requires
        0 <= j <= clients.len(),
    ensures
        rank(clients, j) <= j,
        floating_upto(clients, j) <= j,
        rank(clients, j) <= tiled_count(clients),
        floating_upto(clients, j) <= floating_count(clients),
    decreases clients.len() - j,
{
    lemma_counts_low(clients, j);
    if j < clients.len() {
        lemma_counts_bounded(clients, j + 1);
    }
}

proof fn lemma_counts_low(clients: Seq<ClientView>, j: int)
    ensures
        rank(clients, j) <= if j > 0 { j } else { 0 },
        floating_upto(clients, j) <= if j > 0 { j } else { 0 },
    decreases j,
{
    if j > 0 {
        lemma_counts_low(clients, j - 1);
    }
}

/// A workspace.
#[derive(Debug)]
pub struct Workspace {
    pub number: usize,
    /// The clients in the order they came.
    pub clients: Vec<Client>,
    /// The position of the selected client; 0 where there is no client.
    pub selected: usize,
    /// The number of clients that float.
    pub floating: usize,
    /// The area of the screen that the tiles share.
    pub screen: Quad,
    /// The layout preference last recorded, if any.
    pub split: Option<Split>,
}

/// What a workspace is, with its clients as a sequence of client views.
pub struct WorkspaceView {
    pub number: usize,
    pub clients: Seq<ClientView>,
    pub selected: usize,
    pub floating: usize,
    pub screen: Quad,
    pub split: Option<Split>,
}

impl View for Workspace {
    type V = WorkspaceView;

    open spec fn view(&self) -> WorkspaceView {
        WorkspaceView {
            number: self.number,
            clients: views(self.clients@),
            selected: self.selected,
            floating: self.floating,
            screen: self.screen,
            split: self.split,
        }
    }
}

impl WorkspaceView {
    /// The clients can be counted, the selected position is that of a client
    /// where there is one and 0 where there is none, and the floating count
    /// is the number of clients that float.
    pub open spec fn counts_ok(self) -> bool {
        &&& self.clients.len() <= usize::MAX
        &&& self.clients.len() > 0 ==> self.selected < self.clients.len()
        &&& self.clients.len() == 0 ==> self.selected == 0
        &&& self.floating == floating_count(self.clients)
    }

    /// The invariant of a workspace: its counts are right and its tiled
    /// clients are where the arrangement puts them.
    pub open spec fn wf(self) -> bool {
        &&& self.counts_ok()
        &&& is_arranged(self.clients, self.screen)
    }

    /// The workspace with its clients arranged on its screen.
    pub open spec fn settled(self) -> WorkspaceView {
        self.with_clients(arranged(self.clients, self.screen))
    }

    /// The requests that arrange the clients of the workspace on its screen.
    pub open spec fn settling_requests(self) -> Seq<Request> {
        arrange_requests(self.clients, self.screen)
    }

    /// The workspace with another layout preference on record.
    pub open spec fn with_split(self, split: Option<Split>) -> WorkspaceView {
        WorkspaceView {
            number: self.number,
            clients: self.clients,
            selected: self.selected,
            floating: self.floating,
            screen: self.screen,
            split,
        }
    }

    /// The workspace with other clients.
    pub open spec fn with_clients(self, clients: Seq<ClientView>) -> WorkspaceView {
        WorkspaceView {
            number: self.number,
            clients,
            selected: self.selected,
            floating: self.floating,
            screen: self.screen,
            split: self.split,
        }
    }
}

/// The offset of the `k`-th of `n` columns on a screen of width `w`.
fn column_offset(k: usize, n: usize, w: u32) -> (x: u32)
    requires
        k < n,
    ensures
        x == (k as int) * (w as int) / (n as int),
{
    assert((k as int) * (w as int) / (n as int) <= w) by (nonlinear_arith)
        requires
            0 <= k < n,
            0 <= w,
    ;
    assert(k * w <= 0xffff_ffff_ffff_ffff * 0xffff_ffff) by (nonlinear_arith)
        requires
            0 <= k <= 0xffff_ffff_ffff_ffff,
            0 <= w <= 0xffff_ffff,
    ;
    let wide: u128 = (k as u128) * (w as u128) / (n as u128);
    wide as u32
}

/// The width of each of `n` columns on a screen of width `w`.
fn column_width(n: usize, w: u32) -> (x: u32)
    requires
        0 < n,
    ensures
        x == (w as int) / (n as int),
{
    assert((w as int) / (n as int) <= w) by (nonlinear_arith)
        requires
            0 < n,
            0 <= w,
    ;
    let wide: u128 = (w as u128) / (n as u128);
    wide as u32
}

impl Workspace {
    /// The invariant of a workspace.
    pub open spec fn wf(self) -> bool {
        self@.wf()
    }

    /// An empty workspace on the given screen area.
    pub fn init(number: usize, screen: Quad) -> (ws: Workspace)
        ensures
            ws@ == (WorkspaceView {
                number,
                clients: Seq::empty(),
                selected: 0,
                floating: 0,
                screen,
                split: None,
            }),
            ws.wf(),
    {
        let ws = Workspace {
            number,
            clients: Vec::new(),
            selected: 0,
            floating: 0,
            screen,
            split: None,
        };
        assert(ws@.clients =~= Seq::empty());
        ws
    }

    /// The number of clients that take part in the tiling.
    pub fn tiled(&self) -> (n: usize)
        ensures
            n == tiled_count(self@.clients),
    {
        let mut n: usize = 0;
        let mut j: usize = 0;
        while j < self.clients.len()
            invariant
                j <= self.clients.len(),
                n == rank(self@.clients, j as int),
                n <= j,
            decreases self.clients.len() - j,
        {
            if self.clients[j].flags.is_tiled() {
                n = n + 1;
            }
            j = j + 1;
        }
        n
    }

    /// Arranges the clients on the screen and answers with the requests
    /// that make the display follow. The tiled clients get columns of equal
    /// width and full height, from the left in the order they came; each
    /// context fills its frame. Clients that do not take part in the tiling
    /// keep their geometry and get no request.
    pub fn arrange(&mut self) -> (requests: Vec<Request>)
        ensures
            final(self)@ == old(self)@.settled(),
            requests@ == old(self)@.settling_requests(),
            is_arranged(final(self)@.clients, final(self).screen),
            old(self)@.counts_ok() ==> final(self).wf(),
    {
        let ghost before = self@.clients;
        let n = self.tiled();
        let mut requests: Vec<Request> = Vec::new();
        let mut k: usize = 0;
        let mut j: usize = 0;
        proof {
            assert(self@.clients =~= arranged_upto(before, self.screen, 0));
        }
        while j < self.clients.len()
            invariant
                j <= self.clients.len(),
                self.clients.len() == before.len(),
                n == tiled_count(before),
                k == rank(before, j as int),
                self@ == old(self)@.with_clients(arranged_upto(before, self.screen, j as int)),
                requests@ == arrange_requests_upto(before, self.screen, j as int),
                before == old(self)@.clients,
            decreases self.clients.len() - j,
        {
            let ghost entry = self.clients@;
            proof {
                assert(self@.clients[j as int] == before[j as int]);
                lemma_counts_bounded(before, j as int + 1);
            }
            if self.clients[j].flags.is_tiled() {
                let frame = Quad {
                    x: column_offset(k, n, self.screen.w),
                    y: 0,
                    w: column_width(n, self.screen.w),
                    h: self.screen.h,
                };
                let context = Quad { x: 0, y: 0, w: frame.w, h: frame.h };
                self.clients[j].frame.attrs = Attributes::tiling(&frame);
                self.clients[j].context.attrs = Attributes::tiling(&context);
                requests.push(
                    Request::MoveResizeWindow { window: self.clients[j].frame.id, rect: frame },
                );
                requests.push(
                    Request::MoveResizeWindow { window: self.clients[j].context.id, rect: context },
                );
                requests.push(Request::MapWindow { window: self.clients[j].frame.id });
                requests.push(Request::MapWindow { window: self.clients[j].context.id });
                k = k + 1;
            }
            proof {
                assert(self.clients@.len() == entry.len());
                assert forall|i: int| 0 <= i < entry.len() && i != j implies self.clients@[i]
                    == entry[i] by {}
                assert(self.clients@[j as int]@ == place(before, self.screen, j as int));
                assert forall|i: int| 0 <= i < entry.len() implies #[trigger] self@.clients[i]
                    == arranged_upto(before, self.screen, j + 1)[i] by {
                    if i != j {
                        assert(self@.clients[i] == views(entry)[i]);
                    }
                }
                assert(self@.clients =~= arranged_upto(before, self.screen, j + 1));
            }
            j = j + 1;
        }
        proof {
            let after = self@.clients;
            assert forall|i: int| 0 <= i < after.len() implies (#[trigger] after[i]).flags
                == before[i].flags by {}
            assert forall|i: int| 0 <= i < after.len() implies #[trigger] after[i] == place(
                after,
                self.screen,
                i,
            ) by {
                lemma_counts_by_flags(after, before, i);
                lemma_counts_by_flags(after, before, after.len() as int);
            }
            lemma_counts_by_flags(after, before, after.len() as int);
        }
        requests
    }
}

/// The identifiers of the frames of `clients`, in the order of the clients.
pub open spec fn frames(clients: Seq<ClientView>) -> Seq<XWindow> {
    Seq::new(clients.len(), |i: int| clients[i].frame.id)
}

/// The identifiers of the contexts of `clients`, in the order of the
/// clients.
pub open spec fn contexts(clients: Seq<ClientView>) -> Seq<XWindow> {
    Seq::new(clients.len(), |i: int| clients[i].context.id)
}

/// The first position at which `ids` holds `window`; the length of `ids`
/// where it holds it nowhere.
pub open spec fn first_index(ids: Seq<XWindow>, window: XWindow) -> int
    decreases ids.len(),
{
    if ids.len() == 0 {
        0
    } else if ids.first() == window {
        0
    } else {
        1 + first_index(ids.drop_first(), window)
    }
}

/// `first_index` is the least position that holds the window, and the
/// length where none does.
pub proof fn lemma_first_index(ids: Seq<XWindow>, window: XWindow)
    ensures
        0 <= first_index(ids, window) <= ids.len(),
        first_index(ids, window) < ids.len() ==> ids[first_index(ids, window)] == window,
        forall|k: int| 0 <= k < first_index(ids, window) ==> ids[k] != window,
    decreases ids.len(),
{
    if ids.len() > 0 && ids.first() != window {
        let rest = ids.drop_first();
        lemma_first_index(rest, window);
        assert forall|k: int| 0 <= k < first_index(ids, window) implies ids[k] != window by {
            if k > 0 {
                assert(ids[k] == rest[k - 1]);
            }
        }
    }
}

/// The position that is selected once the selection was asked to go to
/// `index` among `count` clients: `index` where it names a client, the last
/// client where it does not.
pub open spec fn snapped(index: usize, count: nat) -> usize {
    if index < count {
        index
    } else {
        (count - 1) as usize
    }
}

/// The requests that mark a change of selection: the border of the frame
/// selected so far takes the inactive colour, then the border of the frame
/// selected now takes the active colour.
pub open spec fn select_requests(clients: Seq<ClientView>, from: int, to: int) -> Seq<Request> {
    seq![
        Request::SetWindowBorder { window: clients[from].frame.id, colour: INACTIVE_BORDER },
        Request::SetWindowBorder { window: clients[to].frame.id, colour: ACTIVE_BORDER },
    ]
}

/// The geometry of a frame when it is created: the left half of the screen.
pub open spec fn frame_rect(screen: Quad) -> Quad {
    Quad { x: 0, y: 0, w: screen.w / 2, h: screen.h }
}

/// The requests that put the window `context` into the new frame `frame`:
/// create the frame under the root, select the frame's events, make the
/// context a child of the frame at its origin, map the frame and then the
/// context, and grab the first button under Shift on the context.
pub open spec fn creation_requests(
    root: XWindow,
    context: XWindow,
    frame: XWindow,
    screen: Quad,
) -> Seq<Request> {
    seq![
        Request::CreateSimpleWindow {
            window: frame,
            parent: root,
            rect: frame_rect(screen),
            border_width: FRAME_BORDER_WIDTH,
            border: FRAME_BORDER,
            background: FRAME_BACKGROUND,
        },
        Request::SelectInput { window: frame, mask: FRAME_EVENT_MASK },
        Request::ReparentWindow { window: context, parent: frame, x: 0, y: 0 },
        Request::MapWindow { window: frame },
        Request::MapWindow { window: context },
        Request::GrabButton {
            button: Button1,
            modifiers: ShiftMask,
            grab_window: context,
            owner_events: false,
            event_mask: 0,
            pointer_mode: GrabModeSync,
            keyboard_mode: GrabModeSync,
            confine_to: context,
            cursor: 0,
        },
    ]
}

/// The client that a workspace on `screen` records for the window `context`
/// in the frame `frame`: it takes part in the tiling, and both windows have
/// the whole screen area assigned until the arrangement places them.
pub open spec fn new_client(
    frame: XWindow,
    context: XWindow,
    hints: WindowAttributes,
    screen: Quad,
) -> ClientView {
    ClientView::of(
        "0"@,
        frame,
        context,
        hints,
        Quad { x: 0, y: 0, w: screen.w, h: screen.h },
        WindowFlags { bits: TILING },
    )
}

/// The requests that take a client off the display: unmap the context, unmap
/// the frame, hand the context back to the root, destroy the context, destroy
/// the frame. The context leaves the frame before the frame is destroyed.
pub open spec fn teardown_requests(c: ClientView, root: XWindow) -> Seq<Request> {
    seq![
        Request::UnmapWindow { window: c.context.id },
        Request::UnmapWindow { window: c.frame.id },
        Request::ReparentWindow { window: c.context.id, parent: root, x: 0, y: 0 },
        Request::DestroyWindow { window: c.context.id },
        Request::DestroyWindow { window: c.frame.id },
    ]
}

/// The floating count of a sequence that grew by one client.
pub proof fn lemma_floating_push(clients: Seq<ClientView>, c: ClientView)
    ensures
        floating_count(clients.push(c)) == floating_count(clients) + if c.flags.floats() {
            1nat
        } else {
            0nat
        },
{
    let grown = clients.push(c);
    assert(grown.drop_last() =~= clients);
    lemma_floating_prefix(grown, clients, clients.len() as int);
}

/// Sequences that agree on their first `j` clients have the same floating
/// count among them.
pub proof fn lemma_floating_prefix(a: Seq<ClientView>, b: Seq<ClientView>, j: int)
    requires
        j <= a.len(),
        j <= b.len(),
        forall|i: int| 0 <= i < j ==> (#[trigger] a[i]).flags == b[i].flags,
    ensures
        floating_upto(a, j) == floating_upto(b, j),
    decreases j,
{
    if j > 0 {
        lemma_floating_prefix(a, b, j - 1);
    }
}

/// The floating count of a sequence that lost the client at `index`.
pub proof fn lemma_floating_remove(clients: Seq<ClientView>, index: int)
    requires
        0 <= index < clients.len(),
    ensures
        floating_count(clients.remove(index)) + (if clients[index].flags.floats() {
            1nat
        } else {
            0nat
        }) == floating_count(clients),
{
    lemma_floating_remove_upto(clients, index, clients.len() as int - 1);
}

proof fn lemma_floating_remove_upto(clients: Seq<ClientView>, index: int, j: int)
    requires
        0 <= index < clients.len(),
        index <= j < clients.len(),
    ensures
        floating_upto(clients.remove(index), j) + (if clients[index].flags.floats() {
            1nat
        } else {
            0nat
        }) == floating_upto(clients, j + 1),
    decreases j,
{
    let less = clients.remove(index);
    if j == index {
        lemma_floating_prefix(less, clients, index);
    } else {
        lemma_floating_remove_upto(clients, index, j - 1);
        assert(less[j - 1] == clients[j]);
    }
}

/// The floating count of a sequence in which the client at `index` got
/// other flags.
pub proof fn lemma_floating_update(clients: Seq<ClientView>, index: int, c: ClientView)
    requires
        0 <= index < clients.len(),
    ensures
        floating_count(clients.update(index, c)) + (if clients[index].flags.floats() {
            1nat
        } else {
            0nat
        }) == floating_count(clients) + (if c.flags.floats() {
            1nat
        } else {
            0nat
        }),
{
    lemma_floating_update_upto(clients, index, c, clients.len() as int);
}

proof fn lemma_floating_update_upto(clients: Seq<ClientView>, index: int, c: ClientView, j: int)
    requires
        0 <= index < clients.len(),
        index < j <= clients.len(),
    ensures
        floating_upto(clients.update(index, c), j) + (if clients[index].flags.floats() {
            1nat
        } else {
            0nat
        }) == floating_upto(clients, j) + (if c.flags.floats() {
            1nat
        } else {
            0nat
        }),
    decreases j,
{
    let other = clients.update(index, c);
    if j == index + 1 {
        lemma_floating_prefix(other, clients, index);
    } else {
        lemma_floating_update_upto(clients, index, c, j - 1);
    }
}

impl WorkspaceView {
    /// The workspace with the selection at `selected`.
    pub open spec fn with_selected(self, selected: usize) -> WorkspaceView {
        WorkspaceView {
            number: self.number,
            clients: self.clients,
            selected,
            floating: self.floating,
            screen: self.screen,
            split: self.split,
        }
    }

    /// The workspace without the client at `index`. The selection moves one
    /// position down where it was at or past `index`, unless it is at 0; the
    /// floating count drops by one where the client floats.
    pub open spec fn detached(self, index: int) -> WorkspaceView {
        WorkspaceView {
            number: self.number,
            clients: self.clients.remove(index),
            selected: if self.selected >= index && self.selected > 0 {
                (self.selected - 1) as usize
            } else {
                self.selected
            },
            floating: if self.clients[index].flags.floats() {
                (self.floating - 1) as usize
            } else {
                self.floating
            },
            screen: self.screen,
            split: self.split,
        }
    }

    /// The workspace with one more client, at the end.
    pub open spec fn attached(self, c: ClientView) -> WorkspaceView {
        WorkspaceView {
            number: self.number,
            clients: self.clients.push(c),
            selected: self.selected,
            floating: if c.flags.floats() {
                (self.floating + 1) as usize
            } else {
                self.floating
            },
            screen: self.screen,
            split: self.split,
        }
    }

    /// The workspace once the selection was asked to go to `index`: at
    /// `index` where that names a client, at the last client where it does
    /// not, and as it was where there is no client.
    pub open spec fn selecting(self, index: usize) -> WorkspaceView {
        if self.clients.len() == 0 {
            self
        } else {
            self.with_selected(snapped(index, self.clients.len()))
        }
    }

    /// The requests that recolour the borders when the selection is asked
    /// to go to `index`; none where there is no client.
    pub open spec fn selecting_requests(self, index: usize) -> Seq<Request> {
        if self.clients.len() == 0 {
            Seq::empty()
        } else {
            select_requests(
                self.clients,
                self.selected as int,
                snapped(index, self.clients.len()) as int,
            )
        }
    }

    /// The workspace once the window `context` was put into the new frame
    /// `frame`: with the new client at the end, and arranged.
    pub open spec fn framing(
        self,
        frame: XWindow,
        context: XWindow,
        hints: WindowAttributes,
    ) -> WorkspaceView {
        self.attached(new_client(frame, context, hints, self.screen)).settled()
    }

    /// The requests that put the window `context` into the new frame
    /// `frame`, followed by those that arrange the workspace with the new
    /// client.
    pub open spec fn framing_requests(
        self,
        root: XWindow,
        context: XWindow,
        frame: XWindow,
        hints: WindowAttributes,
    ) -> Seq<Request> {
        creation_requests(root, context, frame, self.screen) + self.attached(
            new_client(frame, context, hints, self.screen),
        ).settling_requests()
    }

    /// The workspace once the client at `index` was destroyed: without it,
    /// and arranged.
    pub open spec fn destroying(self, index: int) -> WorkspaceView {
        self.detached(index).settled()
    }

    /// The requests that take the client at `index` off the display,
    /// followed by those that arrange the clients that remain.
    pub open spec fn destroying_requests(self, root: XWindow, index: int) -> Seq<Request> {
        teardown_requests(self.clients[index], root) + self.detached(index).settling_requests()
    }
}

impl Workspace {
    /// The selected client, if there is a client.
    pub fn get_selected(&self) -> (c: Option<&Client>)
        ensures
            match c {
                Some(c) => self.selected < self.clients@.len() && *c == self.clients@[
                    self.selected as int],
                None => self.selected >= self.clients@.len(),
            },
    {
        if self.selected < self.clients.len() {
            Some(&self.clients[self.selected])
        } else {
            None
        }
    }

    /// The position of the first client whose frame is `window`.
    pub fn find_frame(&self, window: XWindow) -> (r: Option<usize>)
        ensures
            match r {
                Some(i) => i < self@.clients.len() && i == first_index(
                    frames(self@.clients),
                    window,
                ),
                None => first_index(frames(self@.clients), window) == self@.clients.len(),
            },
    {
        let ghost ids = frames(self@.clients);
        let mut i: usize = 0;
        proof {
            assert(ids.skip(0) =~= ids);
        }
        while i < self.clients.len()
            invariant
                i <= self.clients.len(),
                ids == frames(self@.clients),
                first_index(ids, window) == i + first_index(ids.skip(i as int), window),
            decreases self.clients.len() - i,
        {
            proof {
                assert(ids.skip(i as int).first() == self@.clients[i as int].frame.id);
                assert(ids.skip(i as int).drop_first() =~= ids.skip(i + 1));
            }
            if self.clients[i].frame.id == window {
                return Some(i);
            }
            i = i + 1;
        }
        proof {
            assert(ids.skip(i as int).len() == 0);
        }
        None
    }

    /// The position of the first client whose context is `window`.
    pub fn find_context(&self, window: XWindow) -> (r: Option<usize>)
        ensures
            match r {
                Some(i) => i < self@.clients.len() && i == first_index(
                    contexts(self@.clients),
                    window,
                ),
                None => first_index(contexts(self@.clients), window) == self@.clients.len(),
            },
    {
        let ghost ids = contexts(self@.clients);
        let mut i: usize = 0;
        proof {
            assert(ids.skip(0) =~= ids);
        }
        while i < self.clients.len()
            invariant
                i <= self.clients.len(),
                ids == contexts(self@.clients),
                first_index(ids, window) == i + first_index(ids.skip(i as int), window),
            decreases self.clients.len() - i,
        {
            proof {
                assert(ids.skip(i as int).first() == self@.clients[i as int].context.id);
                assert(ids.skip(i as int).drop_first() =~= ids.skip(i + 1));
            }
            if self.clients[i].context.id == window {
                return Some(i);
            }
            i = i + 1;
        }
        proof {
            assert(ids.skip(i as int).len() == 0);
        }
        None
    }

    /// Moves the selection to the client at `index`, or to the last client
    /// where `index` names none, and answers with the requests that recolour
    /// the borders. A workspace without clients has nothing to select and
    /// gets no request.
    pub fn update_selected(&mut self, index: usize) -> (requests: Vec<Request>)
        requires
            old(self).wf(),
        ensures
            final(self).wf(),
            final(self)@ == old(self)@.selecting(index),
            requests@ == old(self)@.selecting_requests(index),
    {
        let mut requests: Vec<Request> = Vec::new();
        if self.clients.len() == 0 {
            return requests;
        }
        let target = if index < self.clients.len() {
            index
        } else {
            self.clients.len() - 1
        };
        requests.push(
            Request::SetWindowBorder {
                window: self.clients[self.selected].frame.id,
                colour: INACTIVE_BORDER,
            },
        );
        requests.push(
            Request::SetWindowBorder {
                window: self.clients[target].frame.id,
                colour: ACTIVE_BORDER,
            },
        );
        self.selected = target;
        proof {
            assert(requests@ =~= select_requests(
                old(self)@.clients,
                old(self).selected as int,
                target as int,
            ));
        }
        requests
    }

    /// Puts the window `context` into the new frame `frame` and records it
    /// as a client at the end of the workspace, with the attributes `hints`
    /// as its hints. Answers with the position of the client and with the
    /// requests that create and fill the frame, followed by those that
    /// arrange the workspace.
    pub fn create_window(
        &mut self,
        root: XWindow,
        context: XWindow,
        hints: &WindowAttributes,
        frame: XWindow,
    ) -> (r: (usize, Vec<Request>))
        requires
            old(self).wf(),
        ensures
            final(self).wf(),
            r.0 == old(self)@.clients.len(),
            final(self)@ == old(self)@.framing(frame, context, *hints),
            r.1@ == old(self)@.framing_requests(root, context, frame, *hints),
    {
        let index = self.clients.len();
        let mut requests: Vec<Request> = Vec::new();
        requests.push(
            Request::CreateSimpleWindow {
                window: frame,
                parent: root,
                rect: Quad { x: 0, y: 0, w: self.screen.w / 2, h: self.screen.h },
                border_width: FRAME_BORDER_WIDTH,
                border: FRAME_BORDER,
                background: FRAME_BACKGROUND,
            },
        );
        requests.push(Request::SelectInput { window: frame, mask: FRAME_EVENT_MASK });
        requests.push(Request::ReparentWindow { window: context, parent: frame, x: 0, y: 0 });
        requests.push(Request::MapWindow { window: frame });
        requests.push(Request::MapWindow { window: context });
        requests.push(
            Request::GrabButton {
                button: Button1,
                modifiers: ShiftMask,
                grab_window: context,
                owner_events: false,
                event_mask: 0,
                pointer_mode: GrabModeSync,
                keyboard_mode: GrabModeSync,
                confine_to: context,
                cursor: 0,
            },
        );
        let client = Client::tile(
            "0".to_owned(),
            frame,
            context,
            hints,
            &Quad::from_size(self.screen.h, self.screen.w),
        );
        let ghost added = client@;
        self.clients.push(client);
        let count = self.clients.len();
        proof {
            assert(self@.clients.len() == count);
            assert(requests@ =~= creation_requests(root, context, frame, self.screen));
            assert(self@.clients =~= old(self)@.clients.push(added));
            crate::flags::lemma_single_flags();
            lemma_floating_push(old(self)@.clients, added);
        }
        let mut arrangement = self.arrange();
        requests.append(&mut arrangement);
        (index, requests)
    }

    /// Takes the client at `index` out of the workspace and hands it over.
    /// The selection and the floating count follow; the remaining clients
    /// keep their geometry.
    pub fn detach(&mut self, index: usize) -> (c: Client)
        requires
            old(self)@.counts_ok(),
            index < old(self)@.clients.len(),
        ensures
            final(self)@ == old(self)@.detached(index as int),
            final(self)@.counts_ok(),
            c@ == old(self)@.clients[index as int],
    {
        proof {
            lemma_floating_remove(self@.clients, index as int);
            lemma_counts_bounded(self@.clients, 0);
        }
        let client = self.clients.remove(index);
        if self.selected >= index && self.selected > 0 {
            self.selected = self.selected - 1;
        }
        if client.flags.is_floating() {
            self.floating = self.floating - 1;
        }
        proof {
            assert(self@.clients =~= old(self)@.clients.remove(index as int));
        }
        client
    }

    /// Takes the client at `index` off the display and out of the
    /// workspace, and arranges the clients that remain. Answers with the
    /// requests of the teardown, in its order, followed by those of the
    /// arrangement.
    pub fn destroy_window(&mut self, root: XWindow, index: usize) -> (requests: Vec<Request>)
        requires
            old(self).wf(),
            index < old(self)@.clients.len(),
        ensures
            final(self).wf(),
            final(self)@ == old(self)@.destroying(index as int),
            requests@ == old(self)@.destroying_requests(root, index as int),
    {
        let mut requests = self.unframe(root, index);
        let mut arrangement = self.arrange();
        requests.append(&mut arrangement);
        requests
    }

    /// Takes the client at `index` off the display and out of the
    /// workspace, and leaves the clients that remain as they are. Answers
    /// with the requests of the teardown, in its order.
    pub fn unframe(&mut self, root: XWindow, index: usize) -> (requests: Vec<Request>)
        requires
            old(self)@.counts_ok(),
            index < old(self)@.clients.len(),
        ensures
            final(self)@.counts_ok(),
            final(self)@ == old(self)@.detached(index as int),
            requests@ == teardown_requests(old(self)@.clients[index as int], root),
    {
        let client = self.detach(index);
        let mut requests: Vec<Request> = Vec::new();
        requests.push(Request::UnmapWindow { window: client.context.id });
        requests.push(Request::UnmapWindow { window: client.frame.id });
        requests.push(
            Request::ReparentWindow { window: client.context.id, parent: root, x: 0, y: 0 },
        );
        requests.push(Request::DestroyWindow { window: client.context.id });
        requests.push(Request::DestroyWindow { window: client.frame.id });
        proof {
            assert(requests@ =~= teardown_requests(old(self)@.clients[index as int], root));
        }
        requests
    }
}

/// A direction in which the selection can move.
#[derive(Debug, Clone, Copy, PartialEq, Eq, Structural)]
pub enum Direction {
    Up,
    Down,
    Left,
    Right,
}

/// The position of the nearest tiled client before `from`; -1 where there
/// is none.
pub open spec fn tiled_before(clients: Seq<ClientView>, from: int) -> int
    decreases from,
{
    if from <= 0 {
        -1
    } else if clients[from - 1].flags.tiles() {
        from - 1
    } else {
        tiled_before(clients, from - 1)
    }
}

/// The position of the nearest tiled client after `from`; the number of
/// clients where there is none.
pub open spec fn tiled_after(clients: Seq<ClientView>, from: int) -> int
    decreases clients.len() - from,
{
    if from + 1 >= clients.len() {
        clients.len() as int
    } else if clients[from + 1].flags.tiles() {
        from + 1
    } else {
        tiled_after(clients, from + 1)
    }
}

/// The neighbour of the client at `selected` in the tiling. The tiles stand
/// in one row: the neighbour to the left is the nearest tiled client before
/// it, the neighbour to the right the nearest after it, and no client has a
/// neighbour above or below. A client that is not tiled has no neighbour.
pub open spec fn neighbour(clients: Seq<ClientView>, selected: int, direction: Direction) -> Option<
    int,
> {
    if !(0 <= selected < clients.len()) || !clients[selected].flags.tiles() {
        None
    } else {
        match direction {
            Direction::Left => if tiled_before(clients, selected) >= 0 {
                Some(tiled_before(clients, selected))
            } else {
                None
            },
            Direction::Right => if tiled_after(clients, selected) < clients.len() {
                Some(tiled_after(clients, selected))
            } else {
                None
            },
            Direction::Up => None,
            Direction::Down => None,
        }
    }
}

/// The neighbours that `tiled_before` and `tiled_after` name are tiled
/// clients, and no tiled client stands between them and the start.
pub proof fn lemma_tiled_neighbours(clients: Seq<ClientView>, from: int)
    requires
        0 <= from < clients.len(),
    ensures
        -1 <= tiled_before(clients, from) < from,
        tiled_before(clients, from) >= 0 ==> clients[tiled_before(clients, from)].flags.tiles(),
        forall|k: int| tiled_before(clients, from) < k < from ==> !clients[k].flags.tiles(),
        from < tiled_after(clients, from) <= clients.len(),
        tiled_after(clients, from) < clients.len() ==> clients[tiled_after(
            clients,
            from,
        )].flags.tiles(),
        forall|k: int| from < k < tiled_after(clients, from) ==> !clients[k].flags.tiles(),
{
    lemma_tiled_before(clients, from);
    lemma_tiled_after(clients, from);
}

proof fn lemma_tiled_before(clients: Seq<ClientView>, from: int)
    requires
        0 <= from <= clients.len(),
    ensures
        -1 <= tiled_before(clients, from) < from || (from == 0 && tiled_before(clients, from)
            == -1),
        tiled_before(clients, from) >= 0 ==> clients[tiled_before(clients, from)].flags.tiles(),
        forall|k: int| tiled_before(clients, from) < k < from ==> !clients[k].flags.tiles(),
    decreases from,
{
    if from > 0 && !clients[from - 1].flags.tiles() {
        lemma_tiled_before(clients, from - 1);
    }
}

proof fn lemma_tiled_after(clients: Seq<ClientView>, from: int)
    requires
        -1 <= from < clients.len(),
    ensures
        from < tiled_after(clients, from) <= clients.len(),
        tiled_after(clients, from) < clients.len() ==> clients[tiled_after(
            clients,
            from,
        )].flags.tiles(),
        forall|k: int| from < k < tiled_after(clients, from) ==> !clients[k].flags.tiles(),
    decreases clients.len() - from,
{
    if from + 1 < clients.len() && !clients[from + 1].flags.tiles() {
        lemma_tiled_after(clients, from + 1);
    }
}

impl WorkspaceView {
    /// The workspace in which the client at `index` is `c`, with the
    /// floating count that follows.
    pub open spec fn with_client(self, index: int, c: ClientView) -> WorkspaceView {
        WorkspaceView {
            number: self.number,
            clients: self.clients.update(index, c),
            selected: self.selected,
            floating: floating_count(self.clients.update(index, c)) as usize,
            screen: self.screen,
            split: self.split,
        }
    }

    /// The selected client as it is once it was made to float, or to stop
    /// floating.
    pub open spec fn selected_floating(self, on: bool) -> ClientView {
        let c = self.clients[self.selected as int];
        c.flagged(
            WindowFlags {
                bits: if on {
                    c.flags.bits | FLOATING
                } else {
                    c.flags.bits & !FLOATING
                },
            },
        )
    }

    /// The selected client as it is once its fullscreen flag was switched:
    /// with the screen as the geometry of its frame, and the whole frame as
    /// that of its context, where the flag is then set; with the geometry it
    /// had where it is not.
    pub open spec fn selected_fullscreen(self) -> ClientView {
        let c = self.clients[self.selected as int];
        let d = c.flagged(WindowFlags { bits: c.flags.bits ^ FULLSCREEN });
        if d.flags.fills() {
            d.placed(self.screen, Quad { x: 0, y: 0, w: self.screen.w, h: self.screen.h })
        } else {
            d
        }
    }

    /// The requests that make a client that then fills the screen do so.
    pub open spec fn fullscreen_requests(self) -> Seq<Request> {
        let c = self.selected_fullscreen();
        if c.flags.fills() {
            seq![
                Request::MoveResizeWindow { window: c.frame.id, rect: c.frame.attrs.window },
                Request::MoveResizeWindow { window: c.context.id, rect: c.context.attrs.window },
            ]
        } else {
            Seq::empty()
        }
    }

    /// The workspace once the selected client was made to float, or to
    /// stop floating: arranged with the client's new flags. A workspace
    /// without clients stays as it is.
    pub open spec fn floating(self, on: bool) -> WorkspaceView {
        if self.clients.len() == 0 {
            self
        } else {
            self.with_client(self.selected as int, self.selected_floating(on)).settled()
        }
    }

    /// The requests that arrange the workspace once the selected client
    /// was made to float, or to stop floating.
    pub open spec fn floating_requests(self, on: bool) -> Seq<Request> {
        if self.clients.len() == 0 {
            Seq::empty()
        } else {
            self.with_client(
                self.selected as int,
                self.selected_floating(on),
            ).settling_requests()
        }
    }

    /// The workspace once the fullscreen flag of the selected client was
    /// switched: arranged with the client's new flags and geometry. A
    /// workspace without clients stays as it is.
    pub open spec fn filling(self) -> WorkspaceView {
        if self.clients.len() == 0 {
            self
        } else {
            self.with_client(self.selected as int, self.selected_fullscreen()).settled()
        }
    }

    /// The requests that follow a switch of the fullscreen flag of the
    /// selected client: those that resize a client that then fills the
    /// screen, then those that arrange the workspace.
    pub open spec fn filling_requests(self) -> Seq<Request> {
        if self.clients.len() == 0 {
            Seq::empty()
        } else {
            self.fullscreen_requests() + self.with_client(
                self.selected as int,
                self.selected_fullscreen(),
            ).settling_requests()
        }
    }

    /// The workspace once the selection was asked to move in `direction`:
    /// at the neighbour of the selected client where it has one, as it was
    /// where it has none.
    pub open spec fn focusing(self, direction: Direction) -> WorkspaceView {
        match neighbour(self.clients, self.selected as int, direction) {
            Some(i) => self.with_selected(i as usize),
            None => self,
        }
    }

    /// The requests that recolour the borders when the selection is asked
    /// to move in `direction`.
    pub open spec fn focusing_requests(self, direction: Direction) -> Seq<Request> {
        match neighbour(self.clients, self.selected as int, direction) {
            Some(i) => select_requests(self.clients, self.selected as int, i),
            None => Seq::empty(),
        }
    }
}

impl Workspace {
    /// The position of the neighbour of the selected client in the given
    /// direction.
    pub fn neighbour(&self, direction: Direction) -> (r: Option<usize>)
        requires
            self.wf(),
        ensures
            match r {
                Some(i) => i < self@.clients.len() && neighbour(
                    self@.clients,
                    self.selected as int,
                    direction,
                ) == Some(i as int),
                None => neighbour(self@.clients, self.selected as int, direction).is_none(),
            },
    {
        if self.selected >= self.clients.len() || !self.clients[self.selected].flags.is_tiled() {
            return None;
        }
        match direction {
            Direction::Left => {
                let mut i = self.selected;
                while i > 0
                    invariant
                        i <= self.selected < self.clients.len(),
                        direction == Direction::Left,
                        self@.clients[self.selected as int].flags.tiles(),
                        tiled_before(self@.clients, self.selected as int) == tiled_before(
                            self@.clients,
                            i as int,
                        ),
                    decreases i,
                {
                    proof {
                        assert(self@.clients[i - 1] == self.clients@[i - 1]@);
                    }
                    if self.clients[i - 1].flags.is_tiled() {
                        return Some(i - 1);
                    }
                    i = i - 1;
                }
                None
            },
            Direction::Right => {
                let mut i = self.selected;
                while i + 1 < self.clients.len()
                    invariant
                        self.selected <= i < self.clients.len(),
                        direction == Direction::Right,
                        self@.clients[self.selected as int].flags.tiles(),
                        tiled_after(self@.clients, self.selected as int) == tiled_after(
                            self@.clients,
                            i as int,
                        ),
                    decreases self.clients.len() - i,
                {
                    proof {
                        assert(self@.clients[i + 1] == self.clients@[i + 1]@);
                    }
                    if self.clients[i + 1].flags.is_tiled() {
                        return Some(i + 1);
                    }
                    i = i + 1;
                }
                None
            },
            Direction::Up => None,
            Direction::Down => None,
        }
    }

    /// Moves the selection to the neighbour of the selected client in the
    /// given direction, where it has one, and answers with the requests
    /// that recolour the borders.
    pub fn move_focus(&mut self, direction: Direction) -> (requests: Vec<Request>)
        requires
            old(self).wf(),
        ensures
            final(self).wf(),
            final(self)@ == old(self)@.focusing(direction),
            requests@ == old(self)@.focusing_requests(direction),
    {
        match self.neighbour(direction) {
            Some(i) => self.update_selected(i),
            None => Vec::new(),
        }
    }

    /// Makes the selected client float, or stop floating, and arranges the
    /// workspace. Answers with the requests of the arrangement. A workspace
    /// without clients stays as it is.
    pub fn set_floating(&mut self, on: bool) -> (requests: Vec<Request>)
        requires
            old(self).wf(),
        ensures
            final(self).wf(),
            final(self)@ == old(self)@.floating(on),
            requests@ == old(self)@.floating_requests(on),
    {
        if self.clients.len() == 0 {
            return Vec::new();
        }
        let at = self.selected;
        let was = self.clients[at].flags.is_floating();
        let flags = if on {
            self.clients[at].flags.with(FLOATING)
        } else {
            self.clients[at].flags.without(FLOATING)
        };
        proof {
            crate::flags::lemma_floating(self.clients[at as int].flags);
            lemma_floating_update(self@.clients, at as int, self@.selected_floating(on));
            lemma_counts_bounded(
                self@.clients.update(at as int, self@.selected_floating(on)),
                self@.clients.len() as int,
            );
        }
        self.clients[at].flags = flags;
        if on && !was {
            self.floating = self.floating + 1;
        } else if !on && was {
            self.floating = self.floating - 1;
        }
        proof {
            assert(self@.clients =~= old(self)@.clients.update(
                at as int,
                old(self)@.selected_floating(on),
            ));
        }
        self.arrange()
    }

    /// Switches whether the selected client fills the screen, and arranges
    /// the workspace. A client that then fills the screen gets the screen as
    /// the geometry of its frame and leaves the tiling. Answers with the
    /// requests that resize such a client, followed by those of the
    /// arrangement. A workspace without clients stays as it is.
    pub fn toggle_fullscreen(&mut self) -> (requests: Vec<Request>)
        requires
            old(self).wf(),
        ensures
            final(self).wf(),
            final(self)@ == old(self)@.filling(),
            requests@ == old(self)@.filling_requests(),
    {
        let mut requests: Vec<Request> = Vec::new();
        if self.clients.len() == 0 {
            return requests;
        }
        let at = self.selected;
        proof {
            crate::flags::lemma_fullscreen(self.clients[at as int].flags);
            lemma_floating_update(self@.clients, at as int, self@.selected_fullscreen());
        }
        let flags = self.clients[at].flags.toggled(FULLSCREEN);
        self.clients[at].flags = flags;
        if flags.is_fullscreen() {
            let frame = self.screen;
            let context = Quad { x: 0, y: 0, w: self.screen.w, h: self.screen.h };
            self.clients[at].frame.attrs = Attributes::tiling(&frame);
            self.clients[at].context.attrs = Attributes::tiling(&context);
            requests.push(
                Request::MoveResizeWindow { window: self.clients[at].frame.id, rect: frame },
            );
            requests.push(
                Request::MoveResizeWindow { window: self.clients[at].context.id, rect: context },
            );
        }
        proof {
            assert(self@.clients =~= old(self)@.clients.update(
                at as int,
                old(self)@.selected_fullscreen(),
            ));
            assert(requests@ =~= old(self)@.fullscreen_requests());
        }
        let mut arrangement = self.arrange();
        requests.append(&mut arrangement);
        requests
    }

    /// Adds a client at the end of the workspace and arranges the
    /// workspace. Answers with the requests of the arrangement.
    pub fn attach(&mut self, client: Client) -> (requests: Vec<Request>)
        requires
            old(self).wf(),
        ensures
            final(self).wf(),
            final(self)@ == old(self)@.attached(client@).settled(),
            requests@ == old(self)@.attached(client@).settling_requests(),
    {
        let floats = client.flags.is_floating();
        self.clients.push(client);
        let count = self.clients.len();
        proof {
            assert(self@.clients =~= old(self)@.clients.push(client@));
            lemma_floating_push(old(self)@.clients, client@);
            lemma_counts_bounded(self@.clients, self@.clients.len() as int);
        }
        if floats {
            assert(self.floating < count);
            self.floating = self.floating + 1;
        }
        self.arrange()
    }
}

/// The arrangement assigns geometry and nothing else: each client keeps
/// its name, its windows' identifiers and hints, and its flags.
pub proof fn lemma_arranged_keeps(clients: Seq<ClientView>, screen: Quad)
    ensures
        arranged(clients, screen).len() == clients.len(),
        frames(arranged(clients, screen)) == frames(clients),
        contexts(arranged(clients, screen)) == contexts(clients),
        forall|i: int|
            0 <= i < clients.len() ==> (#[trigger] arranged(clients, screen)[i]).flags
                == clients[i].flags,
        tiled_count(arranged(clients, screen)) == tiled_count(clients),
        floating_count(arranged(clients, screen)) == floating_count(clients),
{
    let after = arranged(clients, screen);
    assert(frames(after) =~= frames(clients));
    assert(contexts(after) =~= contexts(clients));
    lemma_counts_by_flags(after, clients, clients.len() as int);
}

/// Selecting, floating, filling the screen and arranging leave the contexts
/// of a workspace as they are.
pub proof fn lemma_contexts_kept(ws: WorkspaceView, index: usize, on: bool, direction: Direction)
    requires
        ws.counts_ok(),
    ensures
        contexts(ws.settled().clients) == contexts(ws.clients),
        contexts(ws.selecting(index).clients) == contexts(ws.clients),
        contexts(ws.focusing(direction).clients) == contexts(ws.clients),
        contexts(ws.floating(on).clients) == contexts(ws.clients),
        contexts(ws.filling().clients) == contexts(ws.clients),
{
    lemma_arranged_keeps(ws.clients, ws.screen);
    if ws.clients.len() > 0 {
        let at = ws.selected as int;
        let floated = ws.clients.update(at, ws.selected_floating(on));
        let filled = ws.clients.update(at, ws.selected_fullscreen());
        lemma_arranged_keeps(floated, ws.screen);
        lemma_arranged_keeps(filled, ws.screen);
        assert(contexts(floated) =~= contexts(ws.clients));
        assert(contexts(filled) =~= contexts(ws.clients));
    }
}

/// Framing a window adds it at the end of the contexts of a workspace;
/// attaching a client adds its context.
pub proof fn lemma_contexts_grown(ws: WorkspaceView, c: ClientView)
    ensures
        contexts(ws.attached(c).settled().clients) == contexts(ws.clients).push(c.context.id),
{
    lemma_arranged_keeps(ws.clients.push(c), ws.screen);
    assert(contexts(ws.clients.push(c)) =~= contexts(ws.clients).push(c.context.id));
}

/// Detaching or destroying the client at `index` takes its context out of
/// the contexts of a workspace.
pub proof fn lemma_contexts_shrunk(ws: WorkspaceView, index: int)
    requires
        0 <= index < ws.clients.len(),
    ensures
        contexts(ws.detached(index).clients) == contexts(ws.clients).remove(index),
        contexts(ws.destroying(index).clients) == contexts(ws.clients).remove(index),
{
    lemma_arranged_keeps(ws.clients.remove(index), ws.screen);
    assert(contexts(ws.clients.remove(index)) =~= contexts(ws.clients).remove(index));
}

} // verus!
