use vstd::prelude::*;
use std::collections::HashSet;
use crate::decimal::{dec, push_decimal};
use crate::snowflake::SnowflakeID;
use crate::text::{owned, push_str};

verus! {

broadcast use vstd::seq_lib::group_seq_properties;

/// A rectangle of the terminal, in cells.
#[derive(Clone, Copy, Debug, PartialEq, Eq, Structural)]
pub struct Area {
    pub x: u16,
    pub y: u16,
    pub width: u16,
    pub height: u16,
}

/// `v` kept within `lo..=hi`.
pub open spec fn clamp_to(v: int, lo: int, hi: int) -> int {
    if v < lo { lo } else if v > hi { hi } else { v }
}

/// `a - b`, or zero when that would be negative.
pub open spec fn sat_sub(a: int, b: int) -> int {
    if a > b { a - b } else { 0 }
}

/// The rows under the server bar and the stats line where streams are drawn.
pub open spec fn region_h(scr: Area) -> int {
    sat_sub(scr.height as int, 9)
}

/// The first row for streams.
pub open spec fn streams_top(scr: Area) -> int {
    scr.y + 8
}

/// The width of the side column of small streams (none when there are none).
pub open spec fn pip_width(scr: Area, np: int) -> int {
    if np == 0 { 0 } else { clamp_to((scr.width * 2) / 5, 28, 84) }
}

/// The height of a small stream: a third of its width within 8..=26, shrunk to share the
/// region when they do not all fit (at least 4).
pub open spec fn pip_height(scr: Area, np: int) -> int {
    let ph0 = clamp_to(pip_width(scr, np) / 3, 8, 26);
    if np > 0 && (ph0 + 1) * np > region_h(scr) {
        let s = sat_sub(region_h(scr) / np, 1);
        if s > 4 { s } else { 4 }
    } else {
        ph0
    }
}

/// The area of the `i`-th small stream: in the right column, one under the other.
pub open spec fn pip_area(scr: Area, np: int, i: int) -> (int, int, int, int) {
    (scr.x + sat_sub(scr.width as int, pip_width(scr, np) + 1), streams_top(scr) + i * (pip_height(scr, np) + 1),
        pip_width(scr, np), pip_height(scr, np))
}

/// The width left to big streams.
pub open spec fn big_total_width(scr: Area, np: int) -> int {
    if np == 0 { scr.width as int } else { sat_sub(scr.width as int, pip_width(scr, np) + 1) }
}

/// The columns of the grid of big streams: one for a single stream, else two.
pub open spec fn big_cols(nb: int) -> int {
    if nb <= 1 { 1 } else { 2 }
}

/// The rows of the grid of big streams.
pub open spec fn big_rows(nb: int) -> int {
    (nb + big_cols(nb) - 1) / big_cols(nb)
}

/// The width of a big stream cell (at least 1).
pub open spec fn big_cw(scr: Area, np: int, nb: int) -> int {
    let w = big_total_width(scr, np) / big_cols(nb);
    if w > 1 { w } else { 1 }
}

/// The height of a big stream cell (at least 3).
pub open spec fn big_ch(scr: Area, nb: int) -> int {
    let h = region_h(scr) / big_rows(nb);
    if h > 3 { h } else { 3 }
}

/// The area of the `i`-th big stream: a grid cell, row by row.
pub open spec fn big_area(scr: Area, np: int, nb: int, i: int) -> (int, int, int, int) {
    (scr.x + (i % big_cols(nb)) * big_cw(scr, np, nb), streams_top(scr) + (i / big_cols(nb)) * big_ch(scr, nb),
        big_cw(scr, np, nb), big_ch(scr, nb))
}

/// The layout fits the terminal's 16-bit coordinates: fewer than 65536 streams of each
/// size, and no coordinate past 65535.
pub open spec fn layout_fits(scr: Area, np: int, nb: int) -> bool {
    &&& np < 65536 && nb < 65536
    &&& streams_top(scr) <= u16::MAX
    &&& np > 0 ==> {
        &&& scr.width * 2 <= u16::MAX
        &&& (clamp_to(pip_width(scr, np) / 3, 8, 26) + 1) * np <= u16::MAX
        &&& pip_area(scr, np, np - 1).0 <= u16::MAX
        &&& pip_area(scr, np, np - 1).1 <= u16::MAX
    }
    &&& nb > 0 ==> {
        &&& scr.x + (big_cols(nb) - 1) * big_cw(scr, np, nb) <= u16::MAX
        &&& streams_top(scr) + (big_rows(nb) - 1) * big_ch(scr, nb) <= u16::MAX
    }
}

/// The streams drawn small (not enlarged), in order.
pub open spec fn pip_of(s: Seq<u64>, big: Set<u64>) -> Seq<u64>
    decreases s.len(),
{
    if s.len() == 0 {
        Seq::empty()
    } else if big.contains(s.last()) {
        pip_of(s.drop_last(), big)
    } else {
        pip_of(s.drop_last(), big).push(s.last())
    }
}

/// The streams drawn big (enlarged), in order.
pub open spec fn big_of(s: Seq<u64>, big: Set<u64>) -> Seq<u64>
    decreases s.len(),
{
    if s.len() == 0 {
        Seq::empty()
    } else if big.contains(s.last()) {
        big_of(s.drop_last(), big).push(s.last())
    } else {
        big_of(s.drop_last(), big)
    }
}

/// The areas given to streams: the small ones, then the big ones.
pub open spec fn placements(s: Seq<u64>, big: Set<u64>, scr: Area) -> Seq<(u64, (int, int, int, int))> {
    let p = pip_of(s, big);
    let b = big_of(s, big);
    Seq::new(p.len(), |i: int| (p[i], pip_area(scr, p.len() as int, i)))
        + Seq::new(b.len(), |i: int| (b[i], big_area(scr, p.len() as int, b.len() as int, i)))
}

/// The last area given to stream `u`.
pub open spec fn last_area(es: Seq<(u64, (int, int, int, int))>, u: u64) -> Option<(int, int, int, int)>
    decreases es.len(),
{
    if es.len() == 0 {
        None
    } else if es.last().0 == u {
        Some(es.last().1)
    } else {
        last_area(es.drop_last(), u)
    }
}

/// The streams drawn, in the order watched, with their areas: those whose area is at least
/// 3 rows high and 6 columns wide.
pub open spec fn drawn_streams(s: Seq<u64>, all: Seq<u64>, big: Set<u64>, scr: Area) -> Seq<(u64, (int, int, int, int))>
    decreases s.len(),
{
    if s.len() == 0 {
        Seq::empty()
    } else {
        let rest = drawn_streams(s.drop_last(), all, big, scr);
        match last_area(placements(all, big, scr), s.last()) {
            Some(a) if a.3 >= 3 && a.2 >= 6 => rest.push((s.last(), a)),
            _ => rest,
        }
    }
}

/// A stream and where it is drawn.
#[derive(Clone, Copy, Debug)]
pub struct StreamTile {
    pub uid: u64,
    pub area: Area,
}

/// Tiles by their plain values.
pub open spec fn tiles_view(v: Seq<StreamTile>) -> Seq<(u64, (int, int, int, int))> {
    v.map_values(|t: StreamTile| (t.uid, (t.area.x as int, t.area.y as int, t.area.width as int, t.area.height as int)))
}

/// Ids of watched streams by their plain values.
pub open spec fn ids_view(v: Seq<SnowflakeID>) -> Seq<u64> {
    v.map_values(|u: SnowflakeID| u.0)
}

fn split_streams(uids: &Vec<SnowflakeID>, big: &HashSet<u64>) -> (r: (Vec<u64>, Vec<u64>))
    ensures
        r.0@ == pip_of(ids_view(uids@), big@),
        r.1@ == big_of(ids_view(uids@), big@),
{
    let ghost s = ids_view(uids@);
    let mut p: Vec<u64> = Vec::new();
    let mut b: Vec<u64> = Vec::new();
    let mut i: usize = 0;
    while i < uids.len()
        invariant
            0 <= i <= uids.len(),
            s == ids_view(uids@),
            p@ == pip_of(s.take(i as int), big@),
            b@ == big_of(s.take(i as int), big@),
        decreases uids.len() - i,
    {
        assert(s.take(i + 1).drop_last() =~= s.take(i as int));
        let u = uids[i].0;
        if big.contains(&u) {
            b.push(u);
        } else {
            p.push(u);
        }
        i += 1;
    }
    assert(s.take(uids.len() as int) =~= s);
    (p, b)
}

fn clamp16(v: u32, lo: u32, hi: u32) -> (r: u32)
    ensures
        r == clamp_to(v as int, lo as int, hi as int),
{
    if v < lo { lo } else if v > hi { hi } else { v }
}

/// Where each watched stream is drawn on a screen `scr`: small streams in a column at the
/// right, big ones in a grid of one or two columns left of it, under the server bar and the
/// stats line (see [`drawn_streams`]).
pub fn stream_layout(uids: &Vec<SnowflakeID>, big: &HashSet<u64>, scr: Area) -> (r: Vec<StreamTile>)
    requires
        layout_fits(scr, pip_of(ids_view(uids@), big@).len() as int, big_of(ids_view(uids@), big@).len() as int),
    ensures
        tiles_view(r@) == drawn_streams(ids_view(uids@), ids_view(uids@), big@, scr),
{
    let (pip, bigs) = split_streams(uids, big);
    let ghost all = ids_view(uids@);
    let np = pip.len();
    let nb = bigs.len();
    let top: u32 = scr.y as u32 + 8;
    let region: u32 = if scr.height > 9 { (scr.height - 9) as u32 } else { 0 };
    let pip_w: u32 = if np == 0 { 0 } else { clamp16((scr.width as u32 * 2) / 5, 28, 84) };
    let ph0: u32 = clamp16(pip_w / 3, 8, 26);
    let ph: u32 = if np > 0 && (ph0 + 1) * (np as u32) > region {
        let s: u32 = if region / (np as u32) > 1 { region / (np as u32) - 1 } else { 0 };
        if s > 4 { s } else { 4 }
    } else {
        ph0
    };
    assert(pip_w == pip_width(scr, np as int));
    assert(ph == pip_height(scr, np as int));
    proof {
        if np > 0 {
            assert((region as int) / (np as int) <= region as int) by (nonlinear_arith)
                requires (np as int) >= 1, (region as int) >= 0;
        }
    }
    assert(ph <= u16::MAX);
    let mut placed: Vec<(u64, Area)> = Vec::new();
    let ghost es = placements(all, big@, scr);
    assert(es.take(es.len() as int) =~= es);
    let mut i: usize = 0;
    while i < np
        invariant
            0 <= i <= np,
            np == pip@.len(),
            pip@ == pip_of(all, big@),
            all == ids_view(uids@),
            layout_fits(scr, np as int, nb as int),
            nb == bigs@.len(),
            pip_w == pip_width(scr, np as int),
            ph == pip_height(scr, np as int),
            ph <= u16::MAX,
            top == streams_top(scr),
            es == placements(all, big@, scr),
            placed@.len() == i,
            forall|j: int| 0 <= j < i ==> #[trigger] es[j] == (placed@[j].0,
                (placed@[j].1.x as int, placed@[j].1.y as int, placed@[j].1.width as int, placed@[j].1.height as int)),
        decreases np - i,
    {
        proof {
            assert(pip_area(scr, np as int, i as int).1 <= pip_area(scr, np as int, np - 1).1) by (nonlinear_arith)
                requires i < np, ph >= 0;
        }
        let x: u32 = scr.x as u32 + (if scr.width as u32 > pip_w + 1 { scr.width as u32 - (pip_w + 1) } else { 0 });
        let y: u32 = top + (i as u32) * (ph + 1);
        proof {
            assert(es[i as int] == (pip@[i as int], pip_area(scr, np as int, i as int)));
            assert(x as int == pip_area(scr, np as int, i as int).0);
            assert(y as int == pip_area(scr, np as int, i as int).1);
        }
        let ghost p0 = placed@;
        placed.push((pip[i], Area { x: x as u16, y: y as u16, width: pip_w as u16, height: ph as u16 }));
        assert(forall|j: int| 0 <= j < i ==> placed@[j] == p0[j]);
        i += 1;
    }
    let bw_total: u32 = if np == 0 { scr.width as u32 } else if scr.width as u32 > pip_w + 1 { scr.width as u32 - (pip_w + 1) } else { 0 };
    let cols: u32 = if nb <= 1 { 1 } else { 2 };
    let rows: u32 = ((nb as u32) + cols - 1) / cols;
    let cw0: u32 = bw_total / cols;
    let cw: u32 = if cw0 > 1 { cw0 } else { 1 };
    let ch: u32 = if nb > 0 {
        let c0 = region / rows;
        if c0 > 3 { c0 } else { 3 }
    } else {
        3
    };
    let mut k: usize = 0;
    while k < nb
        invariant
            0 <= k <= nb,
            nb == bigs@.len(),
            np == pip@.len(),
            bigs@ == big_of(all, big@),
            pip@ == pip_of(all, big@),
            all == ids_view(uids@),
            layout_fits(scr, np as int, nb as int),
            nb > 0 ==> cols == big_cols(nb as int) && rows == big_rows(nb as int),
            nb > 0 ==> cw == big_cw(scr, np as int, nb as int) && ch == big_ch(scr, nb as int),
            top == streams_top(scr),
            es == placements(all, big@, scr),
            (region as int) == region_h(scr),
            placed@.len() == np + k,
            forall|j: int| 0 <= j < np + k ==> #[trigger] es[j] == (placed@[j].0,
                (placed@[j].1.x as int, placed@[j].1.y as int, placed@[j].1.width as int, placed@[j].1.height as int)),
        decreases nb - k,
    {
        let r: u32 = (k as u32) / cols;
        let c: u32 = (k as u32) % cols;
        proof {
            assert(c <= cols - 1);
            assert((r as int) <= (rows as int) - 1) by (nonlinear_arith)
                requires (k as int) < (nb as int), (r as int) == (k as int) / (cols as int),
                    (rows as int) == ((nb as int) + (cols as int) - 1) / (cols as int), (cols as int) >= 1;
            assert((c as int) * (cw as int) <= ((cols as int) - 1) * (cw as int)) by (nonlinear_arith)
                requires (c as int) <= (cols as int) - 1, (cw as int) >= 0;
            assert((r as int) * (ch as int) <= ((rows as int) - 1) * (ch as int)) by (nonlinear_arith)
                requires (r as int) <= (rows as int) - 1, (ch as int) >= 0;
        }
        let x: u32 = scr.x as u32 + c * cw;
        let y: u32 = top + r * ch;
        proof {
            assert(es[np + k] == (bigs@[k as int], big_area(scr, np as int, nb as int, k as int)));
            assert(cw <= u16::MAX);
            assert(ch <= u16::MAX);
        }
        let ghost p0 = placed@;
        placed.push((bigs[k], Area { x: x as u16, y: y as u16, width: cw as u16, height: ch as u16 }));
        assert(forall|j: int| 0 <= j < np + k ==> placed@[j] == p0[j]);
        k += 1;
    }
    assert(es.len() == np + nb);
    let mut out: Vec<StreamTile> = Vec::new();
    let mut t: usize = 0;
    while t < uids.len()
        invariant
            0 <= t <= uids.len(),
            all == ids_view(uids@),
            placed@.len() == es.len(),
            forall|j: int| 0 <= j < es.len() ==> #[trigger] es[j] == (placed@[j].0,
                (placed@[j].1.x as int, placed@[j].1.y as int, placed@[j].1.width as int, placed@[j].1.height as int)),
            es == placements(all, big@, scr),
            tiles_view(out@) == drawn_streams(all.take(t as int), all, big@, scr),
        decreases uids.len() - t,
    {
        let u = uids[t].0;
        assert(all.take(t + 1).drop_last() =~= all.take(t as int));
        let mut j = placed.len();
        let ghost found = last_area(es, u);
        while j > 0 && placed[j - 1].0 != u
            invariant
                j <= placed@.len(),
                placed@.len() == es.len(),
                forall|q: int| 0 <= q < es.len() ==> #[trigger] es[q] == (placed@[q].0,
                    (placed@[q].1.x as int, placed@[q].1.y as int, placed@[q].1.width as int, placed@[q].1.height as int)),
                last_area(es.take(j as int), u) == found,
            decreases j,
        {
            assert(es.take(j as int).drop_last() =~= es.take(j - 1));
            j -= 1;
        }
        if j > 0 {
            let a = placed[j - 1].1;
            assert(es.take(j as int).last() == es[j - 1]);
            if a.height >= 3 && a.width >= 6 {
                let ghost o0 = out@;
                out.push(StreamTile { uid: u, area: a });
                assert(tiles_view(out@) =~= tiles_view(o0).push((u, (a.x as int, a.y as int, a.width as int, a.height as int))));
            }
        }
        t += 1;
    }
    assert(all.take(uids.len() as int) =~= all);
    out
}

/// The title of a stream's frame: its user and the commands that enlarge and close it.
pub open spec fn stream_title_text(uid: u64) -> Seq<char> {
    " ◉ "@ + dec(uid as nat) + " · /big "@ + dec(uid as nat) + " · /unwatch "@ + dec(uid as nat) + " "@
}

/// The title of a stream's frame (see [`stream_title_text`]).
pub fn stream_title(uid: u64) -> (r: String)
    ensures
        r@ == stream_title_text(uid),
{
    let mut t = owned(" ◉ ");
    push_decimal(&mut t, uid);
    push_str(&mut t, " · /big ");
    push_decimal(&mut t, uid);
    push_str(&mut t, " · /unwatch ");
    push_decimal(&mut t, uid);
    push_str(&mut t, " ");
    t
}

} // verus!
