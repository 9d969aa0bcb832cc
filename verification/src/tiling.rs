//! What the arrangement of a workspace guarantees: the tiles lie on the
//! screen, no two of them overlap, and where the width of the screen divides
//! evenly among them they cover it.

use crate::client::ClientView;
use crate::geometry::Quad;
use crate::workspace::{column, is_arranged, place, rank, tiled_count};
use vstd::prelude::*;

verus! {

/// A tiled client counts towards the rank of every later position.
pub proof fn lemma_rank_increases(clients: Seq<ClientView>, i: int, j: int)
    requires
        0 <= i < j <= clients.len(),
        clients[i].flags.tiles(),
    ensures
        rank(clients, i) < rank(clients, j),
    decreases j,
{
    if j > i + 1 {
        lemma_rank_increases(clients, i, j - 1);
    }
}

/// For each `k` below the rank of position `j` there is a tiled client
/// before `j` with `k` tiled clients before it.
pub proof fn lemma_tile_of_rank(clients: Seq<ClientView>, k: nat, j: int) -> (i: int)
    requires
        0 <= j <= clients.len(),
        k < rank(clients, j),
    ensures
        0 <= i < j,
        clients[i].flags.tiles(),
        rank(clients, i) == k,
    decreases j,
{
    if k < rank(clients, j - 1) {
        lemma_tile_of_rank(clients, k, j - 1)
    } else {
        j - 1
    }
}

/// Columns follow one another from the left: the `a`-th column ends no
/// later than a later column `b` begins, and the last column ends on the
/// screen.
pub proof fn lemma_columns_in_order(a: int, b: int, n: int, w: int)
    requires
        0 <= a < b <= n,
        0 <= w,
    ensures
        0 <= (a * w) / n,
        (a * w) / n + w / n <= (b * w) / n,
        (b * w) / n <= w,
{
    let x = (a * w) / n;
    let q = w / n;
    let next = ((a + 1) * w) / n;
    assert(n * x <= a * w && n * q <= w && 0 <= x) by (nonlinear_arith)
        requires
            x == (a * w) / n,
            q == w / n,
            0 < n,
            0 <= a,
            0 <= w,
    ;
    assert(x + q <= next) by (nonlinear_arith)
        requires
            n * x <= a * w,
            n * q <= w,
            next == ((a + 1) * w) / n,
            0 < n,
    ;
    assert(next <= (b * w) / n && (b * w) / n <= w) by (nonlinear_arith)
        requires
            next == ((a + 1) * w) / n,
            a + 1 <= b <= n,
            0 < n,
            0 <= w,
    ;
}

/// The frame of a tiled client of an arranged workspace lies on the screen
/// area: the rectangle of the size of the screen at the origin.
pub proof fn lemma_tile_on_screen(
    clients: Seq<ClientView>,
    screen: Quad,
    i: int,
    x: int,
    y: int,
)
    requires
        is_arranged(clients, screen),
        0 <= i < clients.len(),
        clients[i].flags.tiles(),
        clients[i].frame.attrs.window.holds(x, y),
    ensures
        0 <= x < screen.w,
        0 <= y < screen.h,
{
    let n = tiled_count(clients);
    let k = rank(clients, i);
    lemma_rank_increases(clients, i, clients.len() as int);
    lemma_columns_in_order(k as int, k as int + 1, n as int, screen.w as int);
    assert(clients[i] == place(clients, screen, i));
    assert(clients[i].frame.attrs.window == column(k, n, screen));
}

/// No two tiles overlap: no pixel lies in the frames of two tiled clients
/// of an arranged workspace.
pub proof fn lemma_tiles_disjoint(
    clients: Seq<ClientView>,
    screen: Quad,
    i: int,
    j: int,
    x: int,
    y: int,
)
    requires
        is_arranged(clients, screen),
        0 <= i < j < clients.len(),
        clients[i].flags.tiles(),
        clients[j].flags.tiles(),
    ensures
        !(clients[i].frame.attrs.window.holds(x, y) && clients[j].frame.attrs.window.holds(x, y)),
{
    let n = tiled_count(clients);
    let a = rank(clients, i);
    let b = rank(clients, j);
    lemma_rank_increases(clients, i, j);
    lemma_rank_increases(clients, j, clients.len() as int);
    lemma_columns_in_order(a as int, b as int, n as int, screen.w as int);
    lemma_columns_in_order(b as int, b as int + 1, n as int, screen.w as int);
    assert(clients[i] == place(clients, screen, i));
    assert(clients[j] == place(clients, screen, j));
    assert(clients[i].frame.attrs.window == column(a, n, screen));
    assert(clients[j].frame.attrs.window == column(b, n, screen));
}

/// The tiles cover the screen where its width divides evenly among them:
/// each pixel of the screen area then lies in the frame of a tiled client
/// of an arranged workspace. The answer is the position of that client.
pub proof fn lemma_tiles_cover(clients: Seq<ClientView>, screen: Quad, x: int, y: int) -> (i: int)
    requires
        is_arranged(clients, screen),
        tiled_count(clients) > 0,
        screen.w as int % tiled_count(clients) as int == 0,
        0 <= x < screen.w,
        0 <= y < screen.h,
    ensures
        0 <= i < clients.len(),
        clients[i].flags.tiles(),
        clients[i].frame.attrs.window.holds(x, y),
{
    let n = tiled_count(clients) as int;
    let w = screen.w as int;
    let q = w / n;
    assert(w == q * n && q > 0) by (nonlinear_arith)
        requires
            q == w / n,
            w % n == 0,
            0 < n,
            0 < w,
    ;
    let k = x / q;
    assert(0 <= k < n && k * q <= x < k * q + q) by (nonlinear_arith)
        requires
            k == x / q,
            0 <= x < w,
            w == q * n,
            q > 0,
    ;
    assert((k * w) / n == k * q) by (nonlinear_arith)
        requires
            w == q * n,
            0 < n,
    ;
    let i = lemma_tile_of_rank(clients, k as nat, clients.len() as int);
    assert(clients[i] == place(clients, screen, i));
    assert(clients[i].frame.attrs.window == column(k as nat, n as nat, screen));
    lemma_columns_in_order(k, k + 1, n, w);
    i
}

} // verus!
