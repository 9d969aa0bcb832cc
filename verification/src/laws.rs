//! What holds of the requests the manager makes and of the selection it
//! keeps, whatever the events.

use crate::client::ClientView;
use crate::error::WmError;
use crate::geometry::Quad;
use crate::config::BindingView;
use crate::keysym::NoSymbol;
use crate::rdwm::{
    grabs, keycode_at, lemma_managed, run_reactions, run_state, ReactionView, RdwmView,
};
use crate::workspace::{
    arrange_requests_upto, creation_requests, first_index, frames, lemma_arranged_keeps,
    lemma_first_index, new_client, rank, snapped, tiled_count,
};
use crate::xproto::{Event, GrabModeSync, Request, WindowAttributes, XWindow};
use vstd::prelude::*;

verus! {

/// The kinds of request that the laws on framing count.
pub enum Kind {
    CreateSimpleWindow,
    ReparentWindow,
    AddToSaveSet,
    MapWindow,
}

/// Whether a request is of a kind.
pub open spec fn is_kind(r: Request, kind: Kind) -> bool {
    match kind {
        Kind::CreateSimpleWindow => r is CreateSimpleWindow,
        Kind::ReparentWindow => r is ReparentWindow,
        Kind::AddToSaveSet => r is AddToSaveSet,
        Kind::MapWindow => r is MapWindow,
    }
}

/// The number of requests of a kind in a sequence.
pub open spec fn count(requests: Seq<Request>, kind: Kind) -> nat
    decreases requests.len(),
{
    if requests.len() == 0 {
        0
    } else {
        count(requests.drop_last(), kind) + if is_kind(requests.last(), kind) {
            1nat
        } else {
            0nat
        }
    }
}

/// The count of a concatenation is the sum of the counts.
pub proof fn lemma_count_add(a: Seq<Request>, b: Seq<Request>, kind: Kind)
    ensures
        count(a + b, kind) == count(a, kind) + count(b, kind),
    decreases b.len(),
{
    if b.len() == 0 {
        assert(a + b =~= a);
    } else {
        assert((a + b).drop_last() =~= a + b.drop_last());
        lemma_count_add(a, b.drop_last(), kind);
    }
}

/// The count of a sequence written out request by request, for lengths up
/// to six.
proof fn lemma_count_short(r: Seq<Request>, kind: Kind)
    requires
        r.len() <= 6,
    ensures
        count(r, kind) == (if r.len() > 0 && is_kind(r[0], kind) {
            1nat
        } else {
            0nat
        }) + (if r.len() > 1 && is_kind(r[1], kind) {
            1nat
        } else {
            0nat
        }) + (if r.len() > 2 && is_kind(r[2], kind) {
            1nat
        } else {
            0nat
        }) + (if r.len() > 3 && is_kind(r[3], kind) {
            1nat
        } else {
            0nat
        }) + (if r.len() > 4 && is_kind(r[4], kind) {
            1nat
        } else {
            0nat
        }) + (if r.len() > 5 && is_kind(r[5], kind) {
            1nat
        } else {
            0nat
        }),
    decreases r.len(),
{
    if r.len() > 0 {
        lemma_count_short(r.drop_last(), kind);
    }
}

/// An arrangement creates no window, reparents none and adds none to the
/// save-set; it maps two windows for each tile.
pub proof fn lemma_arrangement_counts(clients: Seq<ClientView>, screen: Quad, j: int)
    requires
        0 <= j <= clients.len(),
    ensures
        count(arrange_requests_upto(clients, screen, j), Kind::CreateSimpleWindow) == 0,
        count(arrange_requests_upto(clients, screen, j), Kind::ReparentWindow) == 0,
        count(arrange_requests_upto(clients, screen, j), Kind::AddToSaveSet) == 0,
        count(arrange_requests_upto(clients, screen, j), Kind::MapWindow) == 2 * rank(clients, j),
    decreases j,
{
    if j > 0 {
        lemma_arrangement_counts(clients, screen, j - 1);
        let head = arrange_requests_upto(clients, screen, j - 1);
        let tail = arrange_requests_upto(clients, screen, j).skip(head.len() as int);
        assert(arrange_requests_upto(clients, screen, j) =~= head + tail);
        lemma_count_add(head, tail, Kind::CreateSimpleWindow);
        lemma_count_add(head, tail, Kind::ReparentWindow);
        lemma_count_add(head, tail, Kind::AddToSaveSet);
        lemma_count_add(head, tail, Kind::MapWindow);
        lemma_count_short(tail, Kind::CreateSimpleWindow);
        lemma_count_short(tail, Kind::ReparentWindow);
        lemma_count_short(tail, Kind::AddToSaveSet);
        lemma_count_short(tail, Kind::MapWindow);
    }
}

/// Framing a window that comes to be managed makes exactly one request
/// that creates a window, which is the first request and creates the frame
/// under the root; exactly one that reparents, which puts the window into the
/// frame at its origin and comes before any window is mapped; two that map
/// the frame and then the window, and after them two for each tile of the
/// arrangement; and exactly one that adds to the save-set, which names the
/// window and is the last request.
pub proof fn lemma_framing_round_trip(
    s: RdwmView,
    window: XWindow,
    attributes: WindowAttributes,
    already_existing: bool,
    frame: XWindow,
)
    requires
        s.wf(),
        s.admits(window, Some(attributes), already_existing),
    ensures
        ({
            let r = s.framing_requests(window, Some(attributes), already_existing, frame);
            let after = s.framing(window, Some(attributes), already_existing, frame);
            &&& count(r, Kind::CreateSimpleWindow) == 1
            &&& count(r, Kind::ReparentWindow) == 1
            &&& count(r, Kind::AddToSaveSet) == 1
            &&& count(r, Kind::MapWindow) == 2 + 2 * tiled_count(after.cur().clients)
            &&& r.len() >= 7
            &&& r.take(6) == creation_requests(s.root, window, frame, s.cur().screen)
            &&& r[0] is CreateSimpleWindow
            &&& r[0]->CreateSimpleWindow_window == frame
            &&& r[0]->CreateSimpleWindow_parent == s.root
            &&& r[2] == (Request::ReparentWindow { window, parent: frame, x: 0, y: 0 })
            &&& r[3] == (Request::MapWindow { window: frame })
            &&& r[4] == (Request::MapWindow { window })
            &&& r.last() == (Request::AddToSaveSet { window })
        }),
{
    let ws = s.cur();
    let grown = ws.clients.push(new_client(frame, window, attributes, ws.screen));
    let made = creation_requests(s.root, window, frame, ws.screen);
    let arrangement = arrange_requests_upto(grown, ws.screen, grown.len() as int);
    let last = seq![Request::AddToSaveSet { window }];
    let r = s.framing_requests(window, Some(attributes), already_existing, frame);
    assert(r =~= (made + arrangement) + last);
    assert(r.take(6) =~= made);
    lemma_arrangement_counts(grown, ws.screen, grown.len() as int);
    lemma_arranged_keeps(grown, ws.screen);
    let after = s.framing(window, Some(attributes), already_existing, frame);
    assert(after.cur().clients == crate::workspace::arranged(grown, ws.screen));
    assert(tiled_count(after.cur().clients) == tiled_count(grown));
    lemma_count_short(made, Kind::CreateSimpleWindow);
    lemma_count_short(made, Kind::ReparentWindow);
    lemma_count_short(made, Kind::AddToSaveSet);
    lemma_count_short(made, Kind::MapWindow);
    lemma_count_short(last, Kind::CreateSimpleWindow);
    lemma_count_short(last, Kind::ReparentWindow);
    lemma_count_short(last, Kind::AddToSaveSet);
    lemma_count_short(last, Kind::MapWindow);
    lemma_count_add(made, arrangement, Kind::CreateSimpleWindow);
    lemma_count_add(made, arrangement, Kind::ReparentWindow);
    lemma_count_add(made, arrangement, Kind::AddToSaveSet);
    lemma_count_add(made, arrangement, Kind::MapWindow);
    lemma_count_add(made + arrangement, last, Kind::CreateSimpleWindow);
    lemma_count_add(made + arrangement, last, Kind::ReparentWindow);
    lemma_count_add(made + arrangement, last, Kind::AddToSaveSet);
    lemma_count_add(made + arrangement, last, Kind::MapWindow);
}

/// The requests that follow the unmapping of the context of a client begin
/// with the teardown in its order: unmap the context, unmap the frame, hand
/// the context back to the root, destroy the context, destroy the frame.
pub proof fn lemma_teardown_order(s: RdwmView, event: XWindow, window: XWindow)
    requires
        s.wf(),
        s.unmaps(event, window),
    ensures
        s.unmapping_requests(event, window).len() >= 5,
        s.unmapping_requests(event, window).take(5) == seq![
            Request::UnmapWindow { window },
            Request::UnmapWindow { window: s.client_of(window).frame.id },
            Request::ReparentWindow { window, parent: s.root, x: 0, y: 0 },
            Request::DestroyWindow { window },
            Request::DestroyWindow { window: s.client_of(window).frame.id },
        ],
{
    lemma_managed(s, window);
    let r = s.unmapping_requests(event, window);
    assert(r.take(5) =~= crate::workspace::teardown_requests(s.client_of(window), s.root));
}

/// The manager once the pointer entered each of the windows of `windows`
/// from `from` on, in their order.
pub open spec fn entering_all(s: RdwmView, windows: Seq<XWindow>, from: int) -> RdwmView
    decreases windows.len() - from,
{
    if from >= windows.len() {
        s
    } else {
        entering_all(s.entering(windows[from]), windows, from + 1)
    }
}

/// The selection follows the pointer: once the pointer entered a sequence
/// of windows, the current workspace, where it has a client, selects the
/// first client whose frame is the window entered last, or its last client
/// where that window is no frame of it. Nothing else has changed.
pub proof fn lemma_selection_follows_pointer(s: RdwmView, windows: Seq<XWindow>, from: int)
    requires
        s.wf(),
        s.cur().clients.len() > 0,
        0 <= from < windows.len(),
    ensures
        ({
            let ws = s.cur();
            let at = first_index(frames(ws.clients), windows.last());
            let to = if at < ws.clients.len() {
                at
            } else {
                ws.clients.len() - 1
            };
            entering_all(s, windows, from) == s.with_workspace(
                s.current as int,
                ws.with_selected(to as usize),
            )
        }),
    decreases windows.len() - from,
{
    let ws = s.cur();
    let next = s.entering(windows[from]);
    lemma_first_index(frames(ws.clients), windows[from]);
    lemma_first_index(frames(ws.clients), windows.last());
    let at = first_index(frames(ws.clients), windows.last());
    let to = if at < ws.clients.len() {
        at
    } else {
        ws.clients.len() - 1
    };
    if from == windows.len() - 1 {
        assert(entering_all(next, windows, from + 1) == next);
        assert(snapped(at as usize, ws.clients.len()) == to);
    } else {
        assert(next.wf()) by {
            assert forall|i: int| 0 <= i < next.workspaces.len() implies (
            #[trigger] next.workspaces[i]).wf() by {
                if i != s.current {
                    assert(next.workspaces[i] == s.workspaces[i]);
                }
            }
            crate::workspace::lemma_contexts_kept(ws, 0, true, crate::workspace::Direction::Up);
            crate::rdwm::lemma_distinct_kept(s.workspaces, s.current as int, next.cur());
        }
        lemma_selection_follows_pointer(next, windows, from + 1);
        assert(next.cur().clients == ws.clients);
        assert(next.with_workspace(
            s.current as int,
            next.cur().with_selected(to as usize),
        ).workspaces =~= s.with_workspace(
            s.current as int,
            ws.with_selected(to as usize),
        ).workspaces);
    }
}

/// A window whose attributes cannot be read is not framed, and the failure
/// stays with its event: the manager is as it was, clients and all, no
/// request is made, and the loop runs on if it was running.
pub proof fn lemma_error_contained(s: RdwmView, window: XWindow, frame: XWindow)
    ensures
        s.step(Event::MapRequest { window, attributes: None, frame }) == s,
        s.reaction(Event::MapRequest { window, attributes: None, frame }) == (ReactionView {
            requests: Seq::empty(),
            command: None,
            error: Some(WmError::BadWindowAttrs),
        }),
{
}

/// The detection of another manager is final: no event takes it back, and
/// once it is made the loop hands over no further event.
pub proof fn lemma_detected_is_final(s: RdwmView, event: Event, events: Seq<Event>, from: int)
    requires
        s.detected,
    ensures
        s.step(event).detected,
        run_state(s, events, from) == s,
        run_reactions(s, events, from) == Seq::<ReactionView>::empty(),
{
    match event {
        Event::KeyPress { keycode, state } => {
            let action = s.action_of(keycode, state);
            assert(s.acting(action).detected);
        },
        _ => {},
    }
}

/// No error that the server reports ends the loop but the one that shows
/// another manager while the root is being selected.
pub proof fn lemma_errors_do_not_end(s: RdwmView, code: u8, request: u8)
    requires
        s.running(),
        !(s.selecting && code == crate::xproto::BadAccess),
    ensures
        s.step(Event::Error { code, request }).running(),
        s.step(Event::Error { code, request }) == s,
{
}

/// Where another manager holds the root, the server answers the selection
/// with `BadAccess`: the manager then detects the other manager, stops
/// running, reports the conflict, makes no request and keeps its workspaces
/// as they were. The conflict ends the process with the exit code 2.
pub proof fn lemma_startup_conflict(s: RdwmView, request: u8)
    requires
        s.selecting,
    ensures
        ({
            let event = Event::Error { code: crate::xproto::BadAccess, request };
            &&& s.step(event).detected
            &&& !s.step(event).running()
            &&& s.step(event).workspaces == s.workspaces
            &&& s.reaction(event) == (ReactionView {
                requests: Seq::empty(),
                command: None,
                error: Some(WmError::ManagerConflict),
            })
        }),
        WmError::ManagerConflict.code() == 2,
        WmError::ManagerConflict.fatal(),
{
}

/// The number of bindings from `from` on that have a key.
pub open spec fn keyed(bindings: Seq<BindingView>, from: int) -> nat
    decreases bindings.len() - from,
{
    if from >= bindings.len() {
        0
    } else {
        keyed(bindings, from + 1) + if bindings[from].keysym != NoSymbol {
            1nat
        } else {
            0nat
        }
    }
}

/// The grab of the key of the binding at `i`: the key code of its key under
/// its modifier mask, on the root, with pointer and keyboard frozen while
/// the grab is active.
pub open spec fn grab_of(
    bindings: Seq<BindingView>,
    keycodes: Seq<u8>,
    root: XWindow,
    i: int,
) -> Request {
    Request::GrabKey {
        keycode: keycode_at(keycodes, i),
        modifiers: bindings[i].mask,
        grab_window: root,
        owner_events: false,
        pointer_mode: GrabModeSync,
        keyboard_mode: GrabModeSync,
    }
}

/// There is one grab for each binding that has a key, and no other: the
/// grabs are as many as the bindings with a key, and each is the grab of
/// such a binding.
pub proof fn lemma_one_grab_per_binding(
    bindings: Seq<BindingView>,
    keycodes: Seq<u8>,
    root: XWindow,
    from: int,
)
    requires
        0 <= from <= bindings.len(),
    ensures
        grabs(bindings, keycodes, root, from).len() == keyed(bindings, from),
        forall|k: int|
            0 <= k < grabs(bindings, keycodes, root, from).len() ==> exists|i: int|
                from <= i < bindings.len() && bindings[i].keysym != NoSymbol && #[trigger] grabs(
                    bindings,
                    keycodes,
                    root,
                    from,
                )[k] == #[trigger] grab_of(bindings, keycodes, root, i),
    decreases bindings.len() - from,
{
    if from < bindings.len() {
        lemma_one_grab_per_binding(bindings, keycodes, root, from + 1);
        let all = grabs(bindings, keycodes, root, from);
        let rest = grabs(bindings, keycodes, root, from + 1);
        assert forall|k: int| 0 <= k < all.len() implies exists|i: int|
            from <= i < bindings.len() && bindings[i].keysym != NoSymbol && #[trigger] all[k]
                == #[trigger] grab_of(bindings, keycodes, root, i) by {
            if bindings[from].keysym != NoSymbol {
                if k == 0 {
                    assert(all[k] == grab_of(bindings, keycodes, root, from));
                } else {
                    assert(all[k] == rest[k - 1]);
                    let i = choose|i: int|
                        from + 1 <= i < bindings.len() && bindings[i].keysym != NoSymbol
                            && rest[k - 1] == grab_of(bindings, keycodes, root, i);
                    assert(all[k] == grab_of(bindings, keycodes, root, i));
                }
            } else {
                assert(all[k] == rest[k]);
                let i = choose|i: int|
                    from + 1 <= i < bindings.len() && bindings[i].keysym != NoSymbol && rest[k]
                        == grab_of(bindings, keycodes, root, i);
                assert(all[k] == grab_of(bindings, keycodes, root, i));
            }
        }
    }
}

/// Where every binding has a key, the grabs follow the bindings one for
/// one: the grab at each position is that of the binding at that position.
pub proof fn lemma_grab_of_each_binding(
    bindings: Seq<BindingView>,
    keycodes: Seq<u8>,
    root: XWindow,
    from: int,
)
    requires
        0 <= from <= bindings.len(),
        forall|i: int| 0 <= i < bindings.len() ==> (#[trigger] bindings[i]).keysym != NoSymbol,
    ensures
        grabs(bindings, keycodes, root, from).len() == bindings.len() - from,
        forall|k: int|
            0 <= k < bindings.len() - from ==> #[trigger] grabs(bindings, keycodes, root, from)[k]
                == grab_of(bindings, keycodes, root, from + k),
    decreases bindings.len() - from,
{
    if from < bindings.len() {
        lemma_grab_of_each_binding(bindings, keycodes, root, from + 1);
        let all = grabs(bindings, keycodes, root, from);
        let rest = grabs(bindings, keycodes, root, from + 1);
        assert forall|k: int| 0 <= k < bindings.len() - from implies #[trigger] all[k] == grab_of(
            bindings,
            keycodes,
            root,
            from + k,
        ) by {
            if k > 0 {
                assert(all[k] == rest[k - 1]);
            }
        }
    }
}

} // verus!
