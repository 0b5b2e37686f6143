//! Deterministic crystal artwork that identifies Minecraft instances: the
//! seed hash, the pseudo-random stream, prism rasterization and hole filling.
use vstd::prelude::*;

use crate::palette;
use crate::state::Loader;
use crate::text::chars_of;

verus! {

/// The UTF-16 code units of one character.
pub open spec fn utf16_of(c: char) -> Seq<u16> {
    let v = (c as u32) as int;
    if v < 0x1_0000 {
        seq![v as u16]
    } else {
        seq![(0xD800 + (v - 0x1_0000) / 0x400) as u16, (0xDC00 + (v - 0x1_0000) % 0x400) as u16]
    }
}

/// The UTF-16 code units of a string, in order.
pub open spec fn utf16_units(s: Seq<char>) -> Seq<u16>
    decreases s.len(),
{
    if s.len() == 0 {
        Seq::empty()
    } else {
        utf16_units(s.drop_last()) + utf16_of(s.last())
    }
}

/// The FNV-1a offset basis.
pub open spec fn fnv_basis() -> u32 {
    2_166_136_261
}

/// One FNV-1a round.
pub open spec fn fnv_step(hash: u32, unit: u16) -> u32 {
    vstd::wrapping::u32_specs::wrapping_mul(hash ^ (unit as u32), 16_777_619)
}

/// 32-bit FNV-1a over a sequence of code units.
pub open spec fn fnv1a(units: Seq<u16>) -> u32
    decreases units.len(),
{
    if units.len() == 0 {
        fnv_basis()
    } else {
        fnv_step(fnv1a(units.drop_last()), units.last())
    }
}

proof fn lemma_fnv1a_push(units: Seq<u16>, unit: u16)
    ensures
        fnv1a(units.push(unit)) == fnv_step(fnv1a(units), unit),
{
    assert(units.push(unit).drop_last() =~= units);
}

/// The artwork seed hash: FNV-1a over the UTF-16 code units of `value`.
pub fn hash(value: &str) -> (r: u32)
    ensures
        r == fnv1a(utf16_units(value@)),
{
    let chars = chars_of(value);
    let mut h: u32 = 2_166_136_261;
    let mut i: usize = 0;
    while i < chars.len()
        invariant
            i <= chars.len(),
            chars@ == value@,
            h == fnv1a(utf16_units(value@.take(i as int))),
        decreases chars.len() - i,
    {
        let c = chars[i];
        let ghost before = utf16_units(value@.take(i as int));
        assert(value@.take(i + 1).drop_last() =~= value@.take(i as int));
        assert(utf16_units(value@.take(i + 1)) == before + utf16_of(c));
        let v = c as u32;
        proof {
            vstd::utf8::char_is_scalar(c);
        }
        if v < 0x1_0000 {
            let unit = v as u16;
            proof {
                assert(before + utf16_of(c) =~= before.push(unit));
                lemma_fnv1a_push(before, unit);
            }
            h = (h ^ (unit as u32)).wrapping_mul(16_777_619);
        } else {
            let high = (0xD800 + (v - 0x1_0000) / 0x400) as u16;
            let low = (0xDC00 + (v - 0x1_0000) % 0x400) as u16;
            proof {
                assert(before + utf16_of(c) =~= before.push(high).push(low));
                lemma_fnv1a_push(before, high);
                lemma_fnv1a_push(before.push(high), low);
            }
            h = (h ^ (high as u32)).wrapping_mul(16_777_619);
            h = (h ^ (low as u32)).wrapping_mul(16_777_619);
        }
        i += 1;
    }
    assert(value@.take(chars.len() as int) =~= value@);
    h
}

/// The state after one step of the artwork's pseudo-random stream.
pub open spec fn random_state(seed: u32) -> u32 {
    vstd::wrapping::u32_specs::wrapping_add(seed, 0x6D2B_79F5)
}

/// The 32 output bits the stream draws from a state.
pub open spec fn random_output(state: u32) -> u32 {
    let a = vstd::wrapping::u32_specs::wrapping_mul(state ^ (state >> 15u32), state | 1);
    let b = a ^ vstd::wrapping::u32_specs::wrapping_add(
        a,
        vstd::wrapping::u32_specs::wrapping_mul(a ^ (a >> 7u32), a | 61),
    );
    b ^ (b >> 14u32)
}

/// Advances the stream and returns its next 32 output bits; the artwork uses
/// them as the fraction `bits / 2^32`.
pub fn next_random_bits(seed: &mut u32) -> (r: u32)
    ensures
        *final(seed) == random_state(*old(seed)),
        r == random_output(*final(seed)),
{
    *seed = seed.wrapping_add(0x6D2B_79F5);
    let state = *seed;
    let a = (state ^ (state >> 15u32)).wrapping_mul(state | 1);
    let b = a ^ a.wrapping_add((a ^ (a >> 7u32)).wrapping_mul(a | 61));
    b ^ (b >> 14u32)
}

/// The color ramp of a loader, darkest first.
pub open spec fn ramp_of(loader: Loader) -> [u32; 4] {
    match loader {
        Loader::Vanilla => palette::ramp::VANILLA,
        Loader::Fabric => palette::ramp::FABRIC,
        Loader::Forge => palette::ramp::FORGE,
        Loader::NeoForge => palette::ramp::NEOFORGE,
    }
}

/// The shading ramp the artwork of a loader's instances is painted with.
pub fn ramp(loader: Loader) -> (r: [u32; 4])
    ensures
        r == ramp_of(loader),
{
    match loader {
        Loader::Vanilla => palette::ramp::VANILLA,
        Loader::Fabric => palette::ramp::FABRIC,
        Loader::Forge => palette::ramp::FORGE,
        Loader::NeoForge => palette::ramp::NEOFORGE,
    }
}


/// The column of cell `i` in a grid `size` cells wide.
pub open spec fn col(size: int, i: int) -> int {
    i % size
}

/// The row of cell `i` in a grid `size` cells wide.
pub open spec fn row(size: int, i: int) -> int {
    i / size
}

/// Whether `i` is a cell of the `size` by `size` grid.
pub open spec fn in_grid(size: int, i: int) -> bool {
    0 <= i < size * size
}

/// Whether cell `i` lies on the edge of the grid.
pub open spec fn on_border(size: int, i: int) -> bool {
    col(size, i) == 0 || row(size, i) == 0 || col(size, i) == size - 1 || row(size, i) == size - 1
}

/// Whether cells `i` and `j` share an edge.
pub open spec fn adjacent(size: int, i: int, j: int) -> bool {
    &&& in_grid(size, i)
    &&& in_grid(size, j)
    &&& {
        ||| row(size, j) == row(size, i) && (col(size, j) == col(size, i) + 1 || col(size, j) + 1 == col(size, i))
        ||| col(size, j) == col(size, i) && (row(size, j) == row(size, i) + 1 || row(size, j) + 1 == row(size, i))
    }
}

/// Whether cell `i` is unpainted.
pub open spec fn blank(cells: Seq<Option<usize>>, i: int) -> bool {
    0 <= i < cells.len() && cells[i] is None
}

/// Whether `s` holds every blank border cell and every blank cell next to a
/// cell of `s`.
pub open spec fn encloses_outside(cells: Seq<Option<usize>>, size: int, s: Set<int>) -> bool {
    &&& forall|i: int| blank(cells, i) && #[trigger] on_border(size, i) ==> s.contains(i)
    &&& forall|i: int, j: int|
        #![trigger s.contains(i), adjacent(size, i, j)]
        s.contains(i) && adjacent(size, i, j) && blank(cells, j) ==> s.contains(j)
}

/// Whether blank cell `i` is reachable from the edge of the grid through blank
/// cells: it lies in every set that holds the blank border cells and is closed
/// under stepping to a blank neighbour.
pub open spec fn outside(cells: Seq<Option<usize>>, size: int, i: int) -> bool {
    forall|s: Set<int>| #[trigger] encloses_outside(cells, size, s) ==> s.contains(i)
}

/// `t` lowered to the tone of the neighbour at offset `(dx, dy)`, when that
/// neighbour is in the grid and painted.
pub open spec fn tone_toward(cur: Seq<Option<usize>>, size: int, i: int, dx: int, dy: int, t: usize) -> usize {
    let nx = col(size, i) + dx;
    let ny = row(size, i) + dy;
    if 0 <= nx < size && 0 <= ny < size {
        match cur[ny * size + nx] {
            Some(v) => if v < t { v } else { t },
            None => t,
        }
    } else {
        t
    }
}

/// The tone a hole takes: the darkest of 1 and its painted neighbours.
pub open spec fn hole_tone(cur: Seq<Option<usize>>, size: int, i: int) -> usize {
    tone_toward(cur, size, i, 0, -1, tone_toward(cur, size, i, 0, 1, tone_toward(cur, size, i, -1, 0, tone_toward(cur, size, i, 1, 0, 1))))
}

/// The grid after the enclosed holes among the first `k` cells were painted,
/// in index order, each from its neighbours as they stood at that moment.
pub open spec fn filled(c0: Seq<Option<usize>>, size: int, k: int) -> Seq<Option<usize>>
    decreases k,
{
    if k <= 0 {
        c0
    } else {
        let prev = filled(c0, size, k - 1);
        if c0[k - 1] is Some || outside(c0, size, k - 1) {
            prev
        } else {
            prev.update(k - 1, Some(hole_tone(prev, size, k - 1)))
        }
    }
}

proof fn lemma_cell(size: int, i: int)
    requires
        size > 0,
        0 <= i < size * size,
    ensures
        0 <= col(size, i) < size,
        0 <= row(size, i) < size,
        i == row(size, i) * size + col(size, i),
{
    vstd::arithmetic::div_mod::lemma_fundamental_div_mod(i, size);
    assert(row(size, i) < size) by {
        if row(size, i) >= size {
            assert(size * row(size, i) >= size * size) by (nonlinear_arith)
                requires
                    row(size, i) >= size,
                    size > 0,
            ;
        }
    }
    assert(0 <= row(size, i)) by {
        vstd::arithmetic::div_mod::lemma_div_pos_is_pos(i, size);
    }
    assert(size * row(size, i) == row(size, i) * size) by (nonlinear_arith);
}

proof fn lemma_cell_at(size: int, x: int, y: int)
    requires
        size > 0,
        0 <= x < size,
        0 <= y < size,
    ensures
        in_grid(size, y * size + x),
        col(size, y * size + x) == x,
        row(size, y * size + x) == y,
{
    assert(y * size + x < size * size) by (nonlinear_arith)
        requires
            0 <= x < size,
            0 <= y < size,
    ;
    assert(0 <= y * size) by (nonlinear_arith)
        requires
            0 <= y,
            0 < size,
    ;
    vstd::arithmetic::div_mod::lemma_fundamental_div_mod_converse(y * size + x, size, y, x);
}

/// The number of unmarked cells.
pub open spec fn unmarked(marks: Seq<bool>) -> nat
    decreases marks.len(),
{
    if marks.len() == 0 {
        0
    } else {
        unmarked(marks.drop_last()) + if marks.last() { 0nat } else { 1nat }
    }
}

proof fn lemma_unmarked_mark(marks: Seq<bool>, i: int)
    requires
        0 <= i < marks.len(),
        !marks[i],
    ensures
        unmarked(marks.update(i, true)) + 1 == unmarked(marks),
    decreases marks.len(),
{
    if i == marks.len() - 1 {
        assert(marks.update(i, true).drop_last() =~= marks.drop_last());
    } else {
        lemma_unmarked_mark(marks.drop_last(), i);
        assert(marks.update(i, true).drop_last() =~= marks.drop_last().update(i, true));
    }
}

/// The blank border cells, marked, and queued in index order.
fn border_marks(cells: &Vec<Option<usize>>, size: usize) -> (res: (Vec<bool>, Vec<usize>))
    requires
        size > 0,
        cells.len() == size * size,
    ensures
        res.0.len() == cells.len(),
        forall|i: int| 0 <= i < cells.len() ==> #[trigger] res.0@[i] == (blank(cells@, i) && on_border(size as int, i)),
        forall|p: int| 0 <= p < res.1.len() ==> #[trigger] res.1@[p] < cells.len() && res.0@[res.1@[p] as int],
        forall|i: usize| i < cells.len() && #[trigger] res.0@[i as int] ==> res.1@.contains(i),
{
    let n = cells.len();
    let mut marks: Vec<bool> = Vec::new();
    let mut queue: Vec<usize> = Vec::new();
    let mut index: usize = 0;
    while index < n
        invariant
            n == cells.len(),
            n == size * size,
            size > 0,
            index <= n,
            marks.len() == index,
            forall|i: int| 0 <= i < index ==> #[trigger] marks@[i] == (blank(cells@, i) && on_border(size as int, i)),
            forall|p: int| 0 <= p < queue.len() ==> #[trigger] queue@[p] < index && marks@[queue@[p] as int],
            forall|i: usize| i < index && #[trigger] marks@[i as int] ==> queue@.contains(i),
        decreases n - index,
    {
        let ghost old_marks = marks@;
        let ghost old_queue = queue@;
        let x = index % size;
        let y = index / size;
        let edge = x == 0 || y == 0 || x == size - 1 || y == size - 1;
        assert(edge == on_border(size as int, index as int));
        if edge && cells[index].is_none() {
            marks.push(true);
            queue.push(index);
            assert(blank(cells@, index as int));
        } else {
            marks.push(false);
            assert(!(blank(cells@, index as int) && on_border(size as int, index as int)));
        }
        proof {
            assert forall|i: int| 0 <= i < index + 1 implies marks@[i] == (blank(cells@, i) && on_border(size as int, i)) by {
                if i < index {
                    assert(marks@[i] == old_marks[i]);
                    assert(old_marks[i] == (blank(cells@, i) && on_border(size as int, i)));
                } else {
                    assert(i == index);
                    assert(marks@[i] == (blank(cells@, index as int) && on_border(size as int, index as int)));
                }
            }
            assert forall|p: int| 0 <= p < queue.len() implies queue@[p] < index + 1 && marks@[queue@[p] as int] by {
                if p < old_queue.len() {
                    assert(queue@[p] == old_queue[p]);
                }
            }
            assert forall|i: usize| i < index + 1 && marks@[i as int] implies queue@.contains(i) by {
                if i == index {
                    assert(queue@[queue@.len() - 1] == i);
                } else {
                    assert(marks@[i as int] == old_marks[i as int]);
                    assert(old_queue.contains(i));
                    let p = choose|p: int| 0 <= p < old_queue.len() && old_queue[p] == i;
                    assert(queue@[p] == i);
                }
            }
        }
        index += 1;
    }
    (marks, queue)
}

/// Marks `to`, a neighbour of the marked cell `from`, when it is blank and not
/// yet marked, and queues it.
fn visit(
    cells: &Vec<Option<usize>>,
    size: usize,
    marks: &mut Vec<bool>,
    queue: &mut Vec<usize>,
    from: usize,
    to: usize,
)
    requires
        size > 0,
        cells.len() == size * size,
        old(marks).len() == cells.len(),
        from < cells.len(),
        old(marks)@[from as int],
        adjacent(size as int, from as int, to as int),
        forall|i: int| 0 <= i < cells.len() && #[trigger] old(marks)@[i] ==> outside(cells@, size as int, i) && blank(cells@, i),
        forall|p: int| 0 <= p < old(queue).len() ==> #[trigger] old(queue)@[p] < cells.len() && old(marks)@[old(queue)@[p] as int],
        forall|i: usize| i < cells.len() && #[trigger] old(marks)@[i as int] ==> old(queue)@.contains(i),
    ensures
        final(marks).len() == cells.len(),
        blank(cells@, to as int) ==> final(marks)@[to as int],
        forall|i: int| 0 <= i < cells.len() && #[trigger] old(marks)@[i] ==> final(marks)@[i],
        forall|i: int| 0 <= i < cells.len() && #[trigger] final(marks)@[i] ==> outside(cells@, size as int, i) && blank(cells@, i),
        forall|p: int| 0 <= p < final(queue).len() ==> #[trigger] final(queue)@[p] < cells.len() && final(marks)@[final(queue)@[p] as int],
        forall|i: usize| i < cells.len() && #[trigger] final(marks)@[i as int] ==> final(queue)@.contains(i),
        final(queue)@.len() >= old(queue)@.len(),
        old(queue)@ == final(queue)@.take(old(queue)@.len() as int),
        unmarked(final(marks)@) + final(queue)@.len() == unmarked(old(marks)@) + old(queue)@.len(),
{
    if cells[to].is_none() && !marks[to] {
        proof {
            assert forall|s: Set<int>| #[trigger] encloses_outside(cells@, size as int, s) implies s.contains(to as int) by {
                assert(outside(cells@, size as int, from as int));
                assert(s.contains(from as int));
            }
            lemma_unmarked_mark(marks@, to as int);
        }
        let ghost old_queue = queue@;
        marks.set(to, true);
        queue.push(to);
        proof {
            assert(old_queue =~= queue@.take(old_queue.len() as int));
            assert forall|i: usize| i < cells.len() && #[trigger] marks@[i as int] implies queue@.contains(i) by {
                if i == to {
                    assert(queue@[queue@.len() - 1] == to);
                } else {
                    assert(old_queue.contains(i));
                    let p = choose|p: int| 0 <= p < old_queue.len() && old_queue[p] == i;
                    assert(queue@[p] == i);
                }
            }
        }
    }
}

/// Visits the four neighbours of the marked cell `from`.
fn expand(cells: &Vec<Option<usize>>, size: usize, marks: &mut Vec<bool>, queue: &mut Vec<usize>, from: usize)
    requires
        size > 0,
        cells.len() == size * size,
        old(marks).len() == cells.len(),
        from < cells.len(),
        old(marks)@[from as int],
        forall|i: int| 0 <= i < cells.len() && #[trigger] old(marks)@[i] ==> outside(cells@, size as int, i) && blank(cells@, i),
        forall|p: int| 0 <= p < old(queue).len() ==> #[trigger] old(queue)@[p] < cells.len() && old(marks)@[old(queue)@[p] as int],
        forall|i: usize| i < cells.len() && #[trigger] old(marks)@[i as int] ==> old(queue)@.contains(i),
    ensures
        final(marks).len() == cells.len(),
        forall|j: int| adjacent(size as int, from as int, j) && blank(cells@, j) ==> #[trigger] final(marks)@[j],
        forall|i: int| 0 <= i < cells.len() && #[trigger] old(marks)@[i] ==> final(marks)@[i],
        forall|i: int| 0 <= i < cells.len() && #[trigger] final(marks)@[i] ==> outside(cells@, size as int, i) && blank(cells@, i),
        forall|p: int| 0 <= p < final(queue).len() ==> #[trigger] final(queue)@[p] < cells.len() && final(marks)@[final(queue)@[p] as int],
        forall|i: usize| i < cells.len() && #[trigger] final(marks)@[i as int] ==> final(queue)@.contains(i),
        final(queue)@.len() >= old(queue)@.len(),
        old(queue)@ == final(queue)@.take(old(queue)@.len() as int),
        unmarked(final(marks)@) + final(queue)@.len() == unmarked(old(marks)@) + old(queue)@.len(),
{
    let x = from % size;
    let y = from / size;
    let ghost q0 = queue@;
    let ghost m0 = marks@;
    proof {
        lemma_cell(size as int, from as int);
    }
    if x + 1 < size {
        proof { lemma_cell_at(size as int, (x + 1) as int, y as int); }
        visit(cells, size, marks, queue, from, y * size + x + 1);
    }
    let ghost q1 = queue@;
    let ghost m1 = marks@;
    if x >= 1 {
        proof { lemma_cell_at(size as int, (x - 1) as int, y as int); }
        visit(cells, size, marks, queue, from, y * size + x - 1);
    }
    let ghost q2 = queue@;
    let ghost m2 = marks@;
    if y + 1 < size {
        proof { lemma_cell_at(size as int, x as int, (y + 1) as int); }
        visit(cells, size, marks, queue, from, (y + 1) * size + x);
    }
    let ghost q3 = queue@;
    let ghost m3 = marks@;
    if y >= 1 {
        proof { lemma_cell_at(size as int, x as int, (y - 1) as int); }
        visit(cells, size, marks, queue, from, (y - 1) * size + x);
    }
    proof {
        assert forall|i: int| 0 <= i < cells.len() && #[trigger] m0[i] implies marks@[i] by {
            assert(m1[i]);
            assert(m2[i]);
            assert(m3[i]);
        }
        assert(q0 =~= queue@.take(q0.len() as int)) by {
            assert(q0 =~= q1.take(q0.len() as int));
            assert(q1 =~= q2.take(q1.len() as int));
            assert(q2 =~= q3.take(q2.len() as int));
            assert(q3 =~= queue@.take(q3.len() as int));
        }
        assert forall|j: int| adjacent(size as int, from as int, j) && blank(cells@, j) implies #[trigger] marks@[j] by {
            lemma_cell(size as int, j);
            let jx = col(size as int, j);
            let jy = row(size as int, j);
            if jy == y && jx == x + 1 {
                assert(j == y * size + x + 1);
                assert(m1[j]);
                assert(m2[j]);
                assert(m3[j]);
            } else if jy == y && jx + 1 == x {
                assert(j == y * size + x - 1);
                assert(m2[j]);
                assert(m3[j]);
            } else if jx == x && jy == y + 1 {
                assert(j == (y + 1) * size + x) by (nonlinear_arith)
                    requires
                        j == jy * size + jx,
                        jx == x,
                        jy == y + 1,
                ;
                assert(m3[j]);
            } else {
                assert(j == (y - 1) * size + x) by (nonlinear_arith)
                    requires
                        j == jy * size + jx,
                        jx == x,
                        jy + 1 == y,
                ;
            }
        }
    }
}

/// Marks every blank cell reachable from the blank border cells.
fn flood(cells: &Vec<Option<usize>>, size: usize, marks: &mut Vec<bool>, queue: &mut Vec<usize>)
    requires
        size > 0,
        cells.len() == size * size,
        old(marks).len() == cells.len(),
        forall|i: int| 0 <= i < cells.len() && #[trigger] old(marks)@[i] ==> outside(cells@, size as int, i) && blank(cells@, i),
        forall|i: int| 0 <= i < cells.len() && blank(cells@, i) && on_border(size as int, i) ==> #[trigger] old(marks)@[i],
        forall|p: int| 0 <= p < old(queue).len() ==> #[trigger] old(queue)@[p] < cells.len() && old(marks)@[old(queue)@[p] as int],
        forall|i: usize| i < cells.len() && #[trigger] old(marks)@[i as int] ==> old(queue)@.contains(i),
    ensures
        final(marks).len() == cells.len(),
        forall|i: int| 0 <= i < cells.len() ==> #[trigger] final(marks)@[i] == outside(cells@, size as int, i),
        forall|i: int| 0 <= i < cells.len() && #[trigger] final(marks)@[i] ==> blank(cells@, i),
{
    let mut head: usize = 0;
    while head < queue.len()
        invariant
            size > 0,
            cells.len() == size * size,
            marks.len() == cells.len(),
            head <= queue.len(),
            forall|i: int| 0 <= i < cells.len() && #[trigger] marks@[i] ==> outside(cells@, size as int, i) && blank(cells@, i),
            forall|i: int| 0 <= i < cells.len() && blank(cells@, i) && on_border(size as int, i) ==> #[trigger] marks@[i],
            forall|p: int| 0 <= p < queue.len() ==> #[trigger] queue@[p] < cells.len() && marks@[queue@[p] as int],
            forall|i: usize| i < cells.len() && #[trigger] marks@[i as int] ==> queue@.contains(i),
            forall|p: int, j: int|
                #![trigger queue@[p], adjacent(size as int, queue@[p] as int, j)]
                0 <= p < head && adjacent(size as int, queue@[p] as int, j) && blank(cells@, j) ==> marks@[j],
        decreases unmarked(marks@) * 5 + (queue.len() - head),
    {
        let from = queue[head];
        let ghost q0 = queue@;
        let ghost m0 = marks@;
        expand(cells, size, marks, queue, from);
        proof {
            assert forall|i: int| 0 <= i < cells.len() && blank(cells@, i) && on_border(size as int, i) implies #[trigger] marks@[i] by {
                assert(m0[i]);
            }
            assert forall|p: int, j: int|
                #![trigger queue@[p], adjacent(size as int, queue@[p] as int, j)]
                0 <= p < head + 1 && adjacent(size as int, queue@[p] as int, j) && blank(cells@, j) implies marks@[j] by {
                assert(queue@[p] == q0[p]);
                if p < head {
                    assert(m0[j]);
                }
            }
        }
        head += 1;
    }
    proof {
        let s = Set::new(|i: int| 0 <= i < cells.len() && marks@[i]);
        assert forall|i: int, j: int|
            #![trigger s.contains(i), adjacent(size as int, i, j)]
            s.contains(i) && adjacent(size as int, i, j) && blank(cells@, j) implies s.contains(j) by {
            assert(queue@.contains(i as usize));
            let p = choose|p: int| 0 <= p < queue@.len() && queue@[p] == i as usize;
            assert(queue@[p] as int == i);
        }
        assert(encloses_outside(cells@, size as int, s));
        assert forall|i: int| 0 <= i < cells.len() implies #[trigger] marks@[i] == outside(cells@, size as int, i) by {
            if outside(cells@, size as int, i) {
                assert(s.contains(i));
            }
        }
    }
}

proof fn lemma_filled(c0: Seq<Option<usize>>, size: int, k: int)
    requires
        0 <= k <= c0.len(),
        forall|i: int| 0 <= i < c0.len() && #[trigger] outside(c0, size, i) ==> c0[i] is None,
    ensures
        filled(c0, size, k).len() == c0.len(),
        forall|j: int| k <= j < c0.len() ==> #[trigger] filled(c0, size, k)[j] == c0[j],
        forall|j: int| 0 <= j < k ==> (#[trigger] filled(c0, size, k)[j] is None <==> outside(c0, size, j)),
        forall|j: int| 0 <= j < k && c0[j] is Some ==> #[trigger] filled(c0, size, k)[j] == c0[j],
    decreases k,
{
    if k > 0 {
        lemma_filled(c0, size, k - 1);
    }
}

/// The tone a hole at `index` takes from its neighbours as they stand.
fn hole_tone_at(cells: &Vec<Option<usize>>, size: usize, index: usize) -> (t: usize)
    requires
        size > 0,
        cells.len() == size * size,
        index < cells.len(),
    ensures
        t == hole_tone(cells@, size as int, index as int),
{
    let x = index % size;
    let y = index / size;
    proof {
        lemma_cell(size as int, index as int);
    }
    let mut tone: usize = 1;
    if x + 1 < size {
        proof { lemma_cell_at(size as int, (x + 1) as int, y as int); }
        if let Some(v) = cells[y * size + x + 1] {
            if v < tone {
                tone = v;
            }
        }
    }
    assert(tone == tone_toward(cells@, size as int, index as int, 1, 0, 1));
    let ghost t1 = tone;
    if x >= 1 {
        proof { lemma_cell_at(size as int, (x - 1) as int, y as int); }
        if let Some(v) = cells[y * size + x - 1] {
            if v < tone {
                tone = v;
            }
        }
    }
    assert(tone == tone_toward(cells@, size as int, index as int, -1, 0, t1));
    let ghost t2 = tone;
    if y + 1 < size {
        proof { lemma_cell_at(size as int, x as int, (y + 1) as int); }
        if let Some(v) = cells[(y + 1) * size + x] {
            if v < tone {
                tone = v;
            }
        }
    }
    assert(tone == tone_toward(cells@, size as int, index as int, 0, 1, t2));
    let ghost t3 = tone;
    if y >= 1 {
        proof { lemma_cell_at(size as int, x as int, (y - 1) as int); }
        if let Some(v) = cells[(y - 1) * size + x] {
            if v < tone {
                tone = v;
            }
        }
    }
    assert(tone == tone_toward(cells@, size as int, index as int, 0, -1, t3));
    tone
}

/// Paints the holes that the flood did not reach, in index order.
fn fill_holes(cells: &mut Vec<Option<usize>>, size: usize, marks: &Vec<bool>)
    requires
        size > 0,
        old(cells).len() == size * size,
        marks.len() == old(cells).len(),
        forall|i: int| 0 <= i < old(cells).len() ==> #[trigger] marks@[i] == outside(old(cells)@, size as int, i),
        forall|i: int| 0 <= i < old(cells).len() && #[trigger] outside(old(cells)@, size as int, i) ==> old(cells)@[i] is None,
    ensures
        final(cells)@ == filled(old(cells)@, size as int, old(cells).len() as int),
{
    let ghost c0 = cells@;
    let n = cells.len();
    let mut index: usize = 0;
    while index < n
        invariant
            size > 0,
            n == c0.len(),
            n == size * size,
            marks.len() == n,
            index <= n,
            forall|i: int| 0 <= i < n ==> #[trigger] marks@[i] == outside(c0, size as int, i),
            forall|i: int| 0 <= i < n && #[trigger] outside(c0, size as int, i) ==> c0[i] is None,
            cells@ == filled(c0, size as int, index as int),
        decreases n - index,
    {
        proof {
            lemma_filled(c0, size as int, index as int);
        }
        assert(cells@[index as int] == c0[index as int]);
        if cells[index].is_none() && !marks[index] {
            let tone = hole_tone_at(cells, size, index);
            cells.set(index, Some(tone));
        }
        index += 1;
    }
}

/// Paints every hole of the artwork that the edge of the grid cannot reach
/// through unpainted cells, in index order, with the darkest of tone 1 and its
/// painted neighbours at that moment. Cells reachable from the edge stay empty
/// and painted cells keep their tone.
pub fn close_holes(cells: &mut Vec<Option<usize>>, size: i32)
    requires
        0 <= size,
        old(cells).len() == size * size,
    ensures
        final(cells)@ == filled(old(cells)@, size as int, old(cells).len() as int),
        forall|i: int| 0 <= i < old(cells).len() ==> (#[trigger] final(cells)@[i] is None <==> outside(old(cells)@, size as int, i)),
        forall|i: int| 0 <= i < old(cells).len() && old(cells)@[i] is Some ==> #[trigger] final(cells)@[i] == old(cells)@[i],
{
    let ghost c0 = cells@;
    if size == 0 {
        return;
    }
    let side = size as usize;
    let (mut marks, mut queue) = border_marks(cells, side);
    proof {
        assert forall|i: int| 0 <= i < cells.len() && #[trigger] marks@[i] implies outside(cells@, side as int, i) && blank(cells@, i) by {
            assert forall|s: Set<int>| #[trigger] encloses_outside(cells@, side as int, s) implies s.contains(i) by {
                assert(on_border(side as int, i));
            }
        }
    }
    flood(cells, side, &mut marks, &mut queue);
    proof {
        assert forall|i: int| 0 <= i < c0.len() && #[trigger] outside(c0, side as int, i) implies c0[i] is None by {
            assert(marks@[i]);
        }
    }
    fill_holes(cells, side, &marks);
    proof {
        lemma_filled(c0, side as int, c0.len() as int);
    }
}

/// One vertical prism of the crystal artwork.
#[derive(Clone, Copy, Debug, PartialEq, Eq)]
pub struct Prism {
    pub w: i32,
    pub h: i32,
    pub lean: i32,
    pub shade: i32,
    pub gap: i32,
    pub x: i32,
}

/// Prism dimensions small enough that laying out and painting stay far from
/// the `i32` range.
pub open spec fn modest(p: Prism) -> bool {
    &&& -4096 <= p.w <= 4096
    &&& -4096 <= p.h <= 4096
    &&& -4096 <= p.lean <= 4096
    &&& -4096 <= p.shade <= 4096
    &&& -4096 <= p.gap <= 4096
}

/// The larger of two integers.
pub open spec fn max2(a: int, b: int) -> int {
    if a >= b { a } else { b }
}

/// The smaller of two integers.
pub open spec fn min2(a: int, b: int) -> int {
    if a <= b { a } else { b }
}

/// Integer division rounding toward zero, as Rust's `/` does.
pub open spec fn trunc_div(a: int, b: int) -> int {
    if a >= 0 { a / b } else { -((-a) / b) }
}

fn div_toward_zero(a: i32, b: i32) -> (r: i32)
    requires
        b > 0,
        a > i32::MIN,
    ensures
        r == trunc_div(a as int, b as int),
{
    if a >= 0 {
        ((a as u32) / (b as u32)) as i32
    } else {
        let m = (-a) as u32;
        let q = m / (b as u32);
        assert(q <= m) by {
            vstd::arithmetic::div_mod::lemma_div_is_ordered_by_denominator(m as int, 1, b as int);
        }
        -(q as i32)
    }
}

/// How far the next prism starts after this one.
pub open spec fn advance(p: Prism) -> int {
    max2(p.w - 1 + p.gap, 1)
}

/// Where prism `k` starts: the advances of the prisms before it, summed.
pub open spec fn cursor_at(prisms: Seq<Prism>, k: int) -> int
    decreases k,
{
    if k <= 0 {
        0
    } else {
        cursor_at(prisms, k - 1) + advance(prisms[k - 1])
    }
}

/// The prisms placed side by side from column 0.
pub open spec fn laid_out(prisms: Seq<Prism>) -> Seq<Prism> {
    Seq::new(
        prisms.len(),
        |k: int|
            Prism {
                w: prisms[k].w,
                h: prisms[k].h,
                lean: prisms[k].lean,
                shade: prisms[k].shade,
                gap: prisms[k].gap,
                x: cursor_at(prisms, k) as i32,
            },
    )
}

proof fn lemma_cursor_bounds(prisms: Seq<Prism>, k: int)
    requires
        0 <= k <= prisms.len(),
        forall|i: int| 0 <= i < prisms.len() ==> modest(#[trigger] prisms[i]),
    ensures
        0 <= cursor_at(prisms, k) <= k * 8192,
    decreases k,
{
    if k > 0 {
        lemma_cursor_bounds(prisms, k - 1);
        assert(modest(prisms[k - 1]));
    }
}

/// The first position at or after `j` whose prism is taller than `h`.
pub open spec fn first_taller(s: Seq<Prism>, h: i32, j: int) -> int
    decreases s.len() - j,
{
    if j < 0 || j >= s.len() {
        s.len() as int
    } else if s[j].h > h {
        j
    } else {
        first_taller(s, h, j + 1)
    }
}

/// The prisms in a stable order by height: each is placed before the first
/// already ordered prism that is taller.
pub open spec fn by_height(s: Seq<Prism>) -> Seq<Prism>
    decreases s.len(),
{
    if s.len() == 0 {
        s
    } else {
        let sorted = by_height(s.drop_last());
        sorted.insert(first_taller(sorted, s.last().h, 0), s.last())
    }
}

proof fn lemma_first_taller(s: Seq<Prism>, h: i32, j: int)
    requires
        0 <= j <= s.len(),
    ensures
        j <= first_taller(s, h, j) <= s.len(),
        forall|i: int| j <= i < first_taller(s, h, j) ==> s[i].h <= h,
        first_taller(s, h, j) < s.len() ==> s[first_taller(s, h, j)].h > h,
    decreases s.len() - j,
{
    if j < s.len() && s[j].h <= h {
        lemma_first_taller(s, h, j + 1);
    }
}

proof fn lemma_by_height(s: Seq<Prism>)
    ensures
        by_height(s).len() == s.len(),
        forall|j: int| 0 <= j < s.len() ==> exists|i: int| 0 <= i < s.len() && #[trigger] by_height(s)[j] == s[i],
    decreases s.len(),
{
    if s.len() > 0 {
        let rest = s.drop_last();
        lemma_by_height(rest);
        let sorted = by_height(rest);
        lemma_first_taller(sorted, s.last().h, 0);
        let at = first_taller(sorted, s.last().h, 0);
        assert forall|j: int| 0 <= j < s.len() implies exists|i: int| 0 <= i < s.len() && #[trigger] by_height(s)[j] == s[i] by {
            if j < at {
                assert(by_height(s)[j] == sorted[j]);
                let i = choose|i: int| 0 <= i < rest.len() && sorted[j] == rest[i];
                assert(s[i] == rest[i]);
            } else if j == at {
                assert(by_height(s)[j] == s[s.len() - 1]);
            } else {
                assert(by_height(s)[j] == sorted[j - 1]);
                let i = choose|i: int| 0 <= i < rest.len() && sorted[j - 1] == rest[i];
                assert(s[i] == rest[i]);
            }
        }
    }
}

/// Sets each prism's column from the advances of the prisms before it.
fn lay_out(prisms: &mut Vec<Prism>)
    requires
        old(prisms).len() <= 4096,
        forall|i: int| 0 <= i < old(prisms).len() ==> modest(#[trigger] old(prisms)@[i]),
    ensures
        final(prisms)@ == laid_out(old(prisms)@),
{
    let ghost p0 = prisms@;
    let mut cursor: i32 = 0;
    let mut k: usize = 0;
    while k < prisms.len()
        invariant
            prisms.len() == p0.len(),
            p0.len() <= 4096,
            k <= p0.len(),
            forall|i: int| 0 <= i < p0.len() ==> modest(#[trigger] p0[i]),
            cursor == cursor_at(p0, k as int),
            forall|i: int| 0 <= i < k ==> #[trigger] prisms@[i] == laid_out(p0)[i],
            forall|i: int| k <= i < p0.len() ==> #[trigger] prisms@[i] == p0[i],
        decreases p0.len() - k,
    {
        proof {
            lemma_cursor_bounds(p0, k as int);
            lemma_cursor_bounds(p0, (k + 1) as int);
            assert(modest(p0[k as int]));
        }
        let mut prism = prisms[k];
        prism.x = cursor;
        let step = prism.w - 1 + prism.gap;
        cursor = cursor + if step > 1 { step } else { 1 };
        prisms.set(k, prism);
        k += 1;
    }
    assert(prisms@ =~= laid_out(p0));
}

/// The prisms in the stable order by height.
fn sort_by_height(prisms: &Vec<Prism>) -> (r: Vec<Prism>)
    ensures
        r@ == by_height(prisms@),
{
    let mut sorted: Vec<Prism> = Vec::new();
    let mut k: usize = 0;
    while k < prisms.len()
        invariant
            k <= prisms.len(),
            sorted@ == by_height(prisms@.take(k as int)),
        decreases prisms.len() - k,
    {
        let p = prisms[k];
        proof {
            lemma_by_height(prisms@.take(k as int));
        }
        let mut j: usize = 0;
        while j < sorted.len() && sorted[j].h <= p.h
            invariant
                j <= sorted.len(),
                first_taller(sorted@, p.h, 0) == first_taller(sorted@, p.h, j as int),
            decreases sorted.len() - j,
        {
            j += 1;
        }
        assert(first_taller(sorted@, p.h, 0) == j);
        sorted.insert(j, p);
        proof {
            assert(prisms@.take(k + 1).drop_last() =~= prisms@.take(k as int));
            assert(prisms@.take(k + 1).last() == p);
        }
        k += 1;
    }
    assert(prisms@.take(prisms.len() as int) =~= prisms@);
    sorted
}

/// The position of a painted-cell entry.
pub open spec fn key_of(e: ((i32, i32), usize)) -> (int, int) {
    (e.0.0 as int, e.0.1 as int)
}

/// Whether no two entries share a position.
pub open spec fn distinct_keys(e: Seq<((i32, i32), usize)>) -> bool {
    forall|i: int, j: int| 0 <= i < j < e.len() ==> key_of(#[trigger] e[i]) != key_of(#[trigger] e[j])
}

/// Whether some entry sits at position `k`.
pub open spec fn has_key(e: Seq<((i32, i32), usize)>, k: (int, int)) -> bool {
    exists|i: int| 0 <= i < e.len() && key_of(#[trigger] e[i]) == k
}

/// The tone map the entries hold.
pub open spec fn entries_map(e: Seq<((i32, i32), usize)>) -> Map<(int, int), int> {
    Map::new(
        |k: (int, int)| has_key(e, k),
        |k: (int, int)| e[choose|i: int| 0 <= i < e.len() && key_of(#[trigger] e[i]) == k].1 as int,
    )
}

proof fn lemma_entries_push(e: Seq<((i32, i32), usize)>, x: ((i32, i32), usize))
    requires
        distinct_keys(e),
        !has_key(e, key_of(x)),
    ensures
        distinct_keys(e.push(x)),
        entries_map(e.push(x)) == entries_map(e).insert(key_of(x), x.1 as int),
{
    let f = e.push(x);
    assert(distinct_keys(f)) by {
        assert forall|i: int, j: int| 0 <= i < j < f.len() implies key_of(#[trigger] f[i]) != key_of(#[trigger] f[j]) by {
            if j == e.len() {
                assert(f[i] == e[i]);
            } else {
                assert(f[i] == e[i] && f[j] == e[j]);
            }
        }
    }
    assert forall|k: (int, int)| has_key(f, k) == (has_key(e, k) || k == key_of(x)) by {
        if has_key(e, k) {
            let i = choose|i: int| 0 <= i < e.len() && key_of(#[trigger] e[i]) == k;
            assert(f[i] == e[i]);
        }
        if k == key_of(x) {
            assert(f[e.len() as int] == x);
        }
    }
    assert forall|k: (int, int)| #[trigger] has_key(f, k) implies entries_map(f)[k] == entries_map(e).insert(key_of(x), x.1 as int)[k] by {
        let i = choose|i: int| 0 <= i < f.len() && key_of(#[trigger] f[i]) == k;
        if k == key_of(x) {
            if i < e.len() {
                assert(f[i] == e[i]);
                assert(has_key(e, k));
            }
        } else {
            assert(i < e.len());
            assert(f[i] == e[i]);
            let i2 = choose|i2: int| 0 <= i2 < e.len() && key_of(#[trigger] e[i2]) == k;
            if i != i2 {
                assert(key_of(e[i]) != key_of(e[i2]));
            }
        }
    }
    assert(entries_map(f) =~= entries_map(e).insert(key_of(x), x.1 as int));
}

proof fn lemma_entries_update(e: Seq<((i32, i32), usize)>, i: int, x: ((i32, i32), usize))
    requires
        distinct_keys(e),
        0 <= i < e.len(),
        key_of(e[i]) == key_of(x),
    ensures
        distinct_keys(e.update(i, x)),
        entries_map(e.update(i, x)) == entries_map(e).insert(key_of(x), x.1 as int),
{
    let f = e.update(i, x);
    assert(distinct_keys(f)) by {
        assert forall|a: int, b: int| 0 <= a < b < f.len() implies key_of(#[trigger] f[a]) != key_of(#[trigger] f[b]) by {
            assert(key_of(f[a]) == key_of(e[a]));
            assert(key_of(f[b]) == key_of(e[b]));
        }
    }
    assert forall|k: (int, int)| has_key(f, k) == has_key(e, k) by {
        if has_key(e, k) {
            let j = choose|j: int| 0 <= j < e.len() && key_of(#[trigger] e[j]) == k;
            assert(key_of(f[j]) == key_of(e[j]));
        }
        if has_key(f, k) {
            let j = choose|j: int| 0 <= j < f.len() && key_of(#[trigger] f[j]) == k;
            assert(key_of(f[j]) == key_of(e[j]));
        }
    }
    assert forall|k: (int, int)| #[trigger] has_key(f, k) implies entries_map(f)[k] == entries_map(e).insert(key_of(x), x.1 as int)[k] by {
        let a = choose|a: int| 0 <= a < f.len() && key_of(#[trigger] f[a]) == k;
        let b = choose|b: int| 0 <= b < e.len() && key_of(#[trigger] e[b]) == k;
        assert(key_of(f[a]) == key_of(e[a]));
        if a != b {
            assert(key_of(e[a]) != key_of(e[b]));
        }
        if k == key_of(x) {
            if a != i {
                assert(key_of(e[a]) != key_of(e[i]));
            }
        } else {
            assert(a != i);
        }
    }
    assert(entries_map(f) =~= entries_map(e).insert(key_of(x), x.1 as int));
}

/// Sets the tone at `key`, replacing the entry already there.
fn put(entries: &mut Vec<((i32, i32), usize)>, key: (i32, i32), tone: usize)
    requires
        distinct_keys(old(entries)@),
    ensures
        distinct_keys(final(entries)@),
        entries_map(final(entries)@) == entries_map(old(entries)@).insert((key.0 as int, key.1 as int), tone as int),
        forall|k: (int, int)| has_key(final(entries)@, k) ==> has_key(old(entries)@, k) || k == (key.0 as int, key.1 as int),
{
    let ghost e0 = entries@;
    let mut i: usize = 0;
    while i < entries.len()
        invariant
            entries@ == e0,
            e0 == old(entries)@,
            distinct_keys(e0),
            i <= e0.len(),
            forall|j: int| 0 <= j < i ==> key_of(#[trigger] e0[j]) != (key.0 as int, key.1 as int),
        decreases e0.len() - i,
    {
        if entries[i].0.0 == key.0 && entries[i].0.1 == key.1 {
            entries.set(i, (key, tone));
            assert(entries@ == e0.update(i as int, (key, tone)));
            assert(key_of(e0[i as int]) == key_of((key, tone)));
            proof {
                lemma_entries_update(e0, i as int, (key, tone));
                assert forall|k: (int, int)| has_key(e0.update(i as int, (key, tone)), k) implies has_key(e0, k) || k == (key.0 as int, key.1 as int) by {
                    let j = choose|j: int| 0 <= j < e0.len() && key_of(#[trigger] e0.update(i as int, (key, tone))[j]) == k;
                    if j != i {
                        assert(e0.update(i as int, (key, tone))[j] == e0[j]);
                    }
                }
            }
            return;
        }
        i += 1;
    }
    proof {
        lemma_entries_push(e0, (key, tone));
        assert forall|k: (int, int)| has_key(e0.push((key, tone)), k) implies has_key(e0, k) || k == (key.0 as int, key.1 as int) by {
            let j = choose|j: int| 0 <= j < e0.len() + 1 && key_of(#[trigger] e0.push((key, tone))[j]) == k;
            if j < e0.len() {
                assert(e0.push((key, tone))[j] == e0[j]);
            }
        }
    }
    entries.push((key, tone));
}

/// The width of a prism's row after its top is tapered.
pub open spec fn taper(p: Prism, row: int) -> int {
    max2(p.w - max2(2 - (p.h - 1 - row), 0), 1)
}

/// Where a prism's row starts before it is joined to the row below.
pub open spec fn row_start(p: Prism, row: int) -> int {
    p.x + trunc_div(p.w - taper(p, row), 2) + trunc_div(p.lean * row + 2, 4)
}

/// The first and last column of a prism's row, stretched so that it touches
/// the row below.
pub open spec fn row_span(p: Prism, row: int) -> (int, int)
    decreases row,
{
    let start = row_start(p, row);
    let end = start + taper(p, row) - 1;
    if row <= 0 {
        (start, end)
    } else {
        let below = row_span(p, row - 1);
        (if start > below.1 { below.1 } else { start }, if end < below.0 { below.0 } else { end })
    }
}

/// The shade of a column within a row of the given width, before lighting.
pub open spec fn base_tone(width: int, column: int) -> int {
    if width == 1 {
        2
    } else if width == 2 {
        if column == 0 { 2 } else { 1 }
    } else if column == 0 {
        3
    } else if column == width - 1 {
        1
    } else {
        2
    }
}

/// The tone of a pixel: the base shade, lit on the top two rows, darkened by
/// the prism's shade and never below 0.
pub open spec fn pixel_tone(p: Prism, row: int, width: int, column: int) -> int {
    let base = base_tone(width, column);
    let lit = if p.h - 1 - row <= 1 { min2(base + 1, 3) } else { base };
    max2(lit - p.shade, 0)
}

/// `m` with the first `n` pixels of a row painted, left to right.
pub open spec fn paint_columns(m: Map<(int, int), int>, p: Prism, row: int, start: int, width: int, n: int) -> Map<(int, int), int>
    decreases n,
{
    if n <= 0 {
        m
    } else {
        paint_columns(m, p, row, start, width, n - 1).insert((start + n - 1, -row), pixel_tone(p, row, width, n - 1))
    }
}

/// `m` with the first `n` rows of a prism painted, bottom up.
pub open spec fn paint_rows(m: Map<(int, int), int>, p: Prism, n: int) -> Map<(int, int), int>
    decreases n,
{
    if n <= 0 {
        m
    } else {
        let span = row_span(p, n - 1);
        let width = span.1 - span.0 + 1;
        paint_columns(paint_rows(m, p, n - 1), p, n - 1, span.0, width, width)
    }
}

/// `m` with the prisms painted in order, later pixels replacing earlier ones.
pub open spec fn paint_all(m: Map<(int, int), int>, prisms: Seq<Prism>) -> Map<(int, int), int>
    decreases prisms.len(),
{
    if prisms.len() == 0 {
        m
    } else {
        paint_rows(paint_all(m, prisms.drop_last()), prisms.last(), prisms.last().h as int)
    }
}

/// The tones of the artwork's pixels: the prisms laid out side by side and
/// painted shortest first, keyed by `(column, -row)`.
pub open spec fn tones_of(prisms: Seq<Prism>) -> Map<(int, int), int> {
    paint_all(Map::empty(), by_height(laid_out(prisms)))
}

/// Whether the keys of the entries stay in the painting area.
pub open spec fn keys_in_area(e: Seq<((i32, i32), usize)>) -> bool {
    forall|i: int| 0 <= i < e.len() ==> -0x800_0000 <= (#[trigger] e[i]).0.0 <= 0x800_0000 && -4096 <= e[i].0.1 <= 0
}

proof fn lemma_trunc_div_bound(a: int, b: int)
    requires
        b >= 1,
    ensures
        -(if a >= 0 { a } else { -a }) <= trunc_div(a, b) <= (if a >= 0 { a } else { -a }),
{
    if a >= 0 {
        vstd::arithmetic::div_mod::lemma_div_is_ordered_by_denominator(a, 1, b);
        vstd::arithmetic::div_mod::lemma_div_pos_is_pos(a, b);
    } else {
        vstd::arithmetic::div_mod::lemma_div_is_ordered_by_denominator(-a, 1, b);
        vstd::arithmetic::div_mod::lemma_div_pos_is_pos(-a, b);
    }
}

proof fn lemma_row_span_bounds(p: Prism, row: int)
    requires
        modest(p),
        0 <= p.x <= 0x200_0000,
        0 <= row < 4096,
    ensures
        -0x80_0000 <= row_span(p, row).0 <= 0x400_0000,
        -0x80_0000 <= row_span(p, row).1 <= 0x400_0000,
        1 <= taper(p, row) <= 4096,
    decreases row,
{
    if row > 0 {
        lemma_row_span_bounds(p, row - 1);
    }
    lemma_trunc_div_bound(p.w - taper(p, row), 2);
    assert(-0x100_0000 <= p.lean * row <= 0x100_0000) by (nonlinear_arith)
        requires
            -4096 <= p.lean <= 4096,
            0 <= row < 4096,
    ;
    lemma_trunc_div_bound(p.lean * row + 2, 4);
}

/// The tone of one pixel.
fn pixel(p: Prism, row: i32, width: i32, column: i32) -> (t: usize)
    requires
        modest(p),
        0 <= row < 4096,
        1 <= width < 0x1000_0000,
        0 <= column < width,
    ensures
        t == pixel_tone(p, row as int, width as int, column as int),
{
    let mut tone: i32 = if width == 1 {
        2
    } else if width == 2 {
        if column == 0 { 2 } else { 1 }
    } else if column == 0 {
        3
    } else if column == width - 1 {
        1
    } else {
        2
    };
    if p.h - 1 - row <= 1 {
        tone = if tone + 1 < 3 { tone + 1 } else { 3 };
    }
    tone = tone - p.shade;
    if tone < 0 {
        tone = 0;
    }
    tone as usize
}

/// Paints the `width` pixels of a row from column `start`.
fn paint_row(entries: &mut Vec<((i32, i32), usize)>, p: Prism, row: i32, start: i32, width: i32)
    requires
        distinct_keys(old(entries)@),
        keys_in_area(old(entries)@),
        modest(p),
        0 <= row < 4096,
        -0x80_0000 <= start,
        start + width - 1 <= 0x400_0000,
        width < 0x1000_0000,
    ensures
        distinct_keys(final(entries)@),
        keys_in_area(final(entries)@),
        entries_map(final(entries)@) == paint_columns(entries_map(old(entries)@), p, row as int, start as int, width as int, width as int),
{
    let ghost m0 = entries_map(entries@);
    let mut column: i32 = 0;
    while column < width
        invariant
            0 <= column,
            column <= width || width <= 0,
            width <= 0 ==> column == 0,
            modest(p),
            0 <= row < 4096,
            -0x80_0000 <= start,
            start + width - 1 <= 0x400_0000,
            width < 0x1000_0000,
            distinct_keys(entries@),
            keys_in_area(entries@),
            entries_map(entries@) == paint_columns(m0, p, row as int, start as int, width as int, column as int),
        decreases width - column,
    {
        let tone = pixel(p, row, width, column);
        let ghost before = entries@;
        put(entries, (start + column, -row), tone);
        proof {
            assert forall|i: int| 0 <= i < entries@.len() implies -0x800_0000 <= (#[trigger] entries@[i]).0.0 <= 0x800_0000 && -4096 <= entries@[i].0.1 <= 0 by {
                assert(has_key(entries@, key_of(entries@[i])));
                if has_key(before, key_of(entries@[i])) {
                    let j = choose|j: int| 0 <= j < before.len() && key_of(#[trigger] before[j]) == key_of(entries@[i]);
                    assert(-0x800_0000 <= before[j].0.0 <= 0x800_0000);
                }
            }
        }
        column += 1;
    }
}

/// Paints a prism's rows bottom up, each stretched to touch the row below.
fn paint_prism(entries: &mut Vec<((i32, i32), usize)>, p: Prism)
    requires
        distinct_keys(old(entries)@),
        keys_in_area(old(entries)@),
        modest(p),
        0 <= p.x <= 0x200_0000,
    ensures
        distinct_keys(final(entries)@),
        keys_in_area(final(entries)@),
        entries_map(final(entries)@) == paint_rows(entries_map(old(entries)@), p, p.h as int),
{
    let ghost m0 = entries_map(entries@);
    let mut previous_start: i32 = 0;
    let mut previous_end: i32 = 0;
    let mut row: i32 = 0;
    while row < p.h
        invariant
            0 <= row,
            row <= p.h || p.h <= 0,
            p.h <= 0 ==> row == 0,
            modest(p),
            0 <= p.x <= 0x200_0000,
            distinct_keys(entries@),
            keys_in_area(entries@),
            entries_map(entries@) == paint_rows(m0, p, row as int),
            row > 0 ==> (previous_start as int, previous_end as int) == row_span(p, row - 1),
        decreases p.h - row,
    {
        proof {
            lemma_row_span_bounds(p, row as int);
        }
        let from_top = p.h - 1 - row;
        let cut = if 2 - from_top > 0 { 2 - from_top } else { 0 };
        let tapered = if p.w - cut > 1 { p.w - cut } else { 1 };
        assert(tapered == taper(p, row as int));
        let inset = div_toward_zero(p.w - tapered, 2);
        proof {
            assert(-0x100_0000 <= p.lean * row <= 0x100_0000) by (nonlinear_arith)
                requires
                    -4096 <= p.lean <= 4096,
                    0 <= row < 4096,
            ;
        }
        let shift = div_toward_zero(p.lean * row + 2, 4);
        let mut start = p.x + inset + shift;
        let mut end = start + tapered - 1;
        assert(start == row_start(p, row as int));
        if row > 0 {
            if start > previous_end {
                start = previous_end;
            }
            if end < previous_start {
                end = previous_start;
            }
        }
        assert((start as int, end as int) == row_span(p, row as int));
        let width = end - start + 1;
        paint_row(entries, p, row, start, width);
        previous_start = start;
        previous_end = end;
        row += 1;
    }
}

/// Whether `v` is the smallest column of the painted pixels.
pub open spec fn least_x(m: Map<(int, int), int>, v: int) -> bool {
    &&& exists|k: (int, int)| #[trigger] m.dom().contains(k) && k.0 == v
    &&& forall|k: (int, int)| #[trigger] m.dom().contains(k) ==> v <= k.0
}

/// Whether `v` is the largest column of the painted pixels.
pub open spec fn greatest_x(m: Map<(int, int), int>, v: int) -> bool {
    &&& exists|k: (int, int)| #[trigger] m.dom().contains(k) && k.0 == v
    &&& forall|k: (int, int)| #[trigger] m.dom().contains(k) ==> k.0 <= v
}

/// Whether `v` is the smallest row key of the painted pixels.
pub open spec fn least_y(m: Map<(int, int), int>, v: int) -> bool {
    &&& exists|k: (int, int)| #[trigger] m.dom().contains(k) && k.1 == v
    &&& forall|k: (int, int)| #[trigger] m.dom().contains(k) ==> v <= k.1
}

/// Whether `v` is the largest row key of the painted pixels.
pub open spec fn greatest_y(m: Map<(int, int), int>, v: int) -> bool {
    &&& exists|k: (int, int)| #[trigger] m.dom().contains(k) && k.1 == v
    &&& forall|k: (int, int)| #[trigger] m.dom().contains(k) ==> k.1 <= v
}

/// Whether `(min_x, min_y, width, height)` is the bounding box of the painted
/// pixels, or all zero when nothing is painted.
pub open spec fn framed(m: Map<(int, int), int>, min_x: int, min_y: int, width: int, height: int) -> bool {
    if exists|k: (int, int)| #[trigger] m.dom().contains(k) {
        &&& least_x(m, min_x)
        &&& greatest_x(m, min_x + width - 1)
        &&& least_y(m, min_y)
        &&& greatest_y(m, min_y + height - 1)
    } else {
        min_x == 0 && min_y == 0 && width == 0 && height == 0
    }
}

/// The bounding box of the entries' positions.
fn frame(entries: &Vec<((i32, i32), usize)>) -> (r: (i32, i32, i32, i32))
    requires
        keys_in_area(entries@),
    ensures
        framed(entries_map(entries@), r.0 as int, r.1 as int, r.2 as int, r.3 as int),
        0 <= r.2 <= 0x1000_0001,
        0 <= r.3 <= 4097,
        -0x800_0000 <= r.0 <= 0x800_0000,
        -4096 <= r.1 <= 0,
{
    let ghost m = entries_map(entries@);
    if entries.len() == 0 {
        assert forall|k: (int, int)| !(#[trigger] m.dom().contains(k)) by {}
        return (0, 0, 0, 0);
    }
    let mut min_x = entries[0].0.0;
    let mut max_x = entries[0].0.0;
    let mut min_y = entries[0].0.1;
    let mut max_y = entries[0].0.1;
    let ghost mut w0: int = 0;
    let ghost mut w1: int = 0;
    let ghost mut w2: int = 0;
    let ghost mut w3: int = 0;
    let mut i: usize = 1;
    while i < entries.len()
        invariant
            1 <= i <= entries.len(),
            keys_in_area(entries@),
            0 <= w0 < i && entries@[w0].0.0 == min_x,
            0 <= w1 < i && entries@[w1].0.0 == max_x,
            0 <= w2 < i && entries@[w2].0.1 == min_y,
            0 <= w3 < i && entries@[w3].0.1 == max_y,
            forall|j: int| 0 <= j < i ==> min_x <= (#[trigger] entries@[j]).0.0 <= max_x && min_y <= entries@[j].0.1 <= max_y,
        decreases entries.len() - i,
    {
        let (x, y) = entries[i].0;
        if x < min_x {
            min_x = x;
            proof { w0 = i as int; }
        }
        if x > max_x {
            max_x = x;
            proof { w1 = i as int; }
        }
        if y < min_y {
            min_y = y;
            proof { w2 = i as int; }
        }
        if y > max_y {
            max_y = y;
            proof { w3 = i as int; }
        }
        i += 1;
    }
    proof {
        assert(entries@[w0] == entries@[w0]);
        assert(keys_in_area(entries@));
        let k0 = key_of(entries@[w0]);
        let k1 = key_of(entries@[w1]);
        let k2 = key_of(entries@[w2]);
        let k3 = key_of(entries@[w3]);
        assert(has_key(entries@, k0) && has_key(entries@, k1) && has_key(entries@, k2) && has_key(entries@, k3));
        assert(m.dom().contains(k0));
        assert(m.dom().contains(k1));
        assert(m.dom().contains(k2));
        assert(m.dom().contains(k3));
        assert forall|k: (int, int)| #[trigger] m.dom().contains(k) implies min_x <= k.0 <= max_x && min_y <= k.1 <= max_y by {
            let j = choose|j: int| 0 <= j < entries@.len() && key_of(#[trigger] entries@[j]) == k;
            assert(min_x <= entries@[j].0.0 <= max_x);
        }
        assert(-0x800_0000 <= entries@[w0].0.0 && entries@[w1].0.0 <= 0x800_0000);
        assert(-4096 <= entries@[w2].0.1 && entries@[w3].0.1 <= 0);
    }
    (min_x, min_y, max_x - min_x + 1, max_y - min_y + 1)
}

proof fn lemma_laid_out(prisms: Seq<Prism>)
    requires
        prisms.len() <= 4096,
        forall|i: int| 0 <= i < prisms.len() ==> modest(#[trigger] prisms[i]),
    ensures
        laid_out(prisms).len() == prisms.len(),
        forall|i: int| 0 <= i < prisms.len() ==> modest(#[trigger] laid_out(prisms)[i]) && 0 <= laid_out(prisms)[i].x <= 0x200_0000,
{
    assert forall|i: int| 0 <= i < prisms.len() implies modest(#[trigger] laid_out(prisms)[i]) && 0 <= laid_out(prisms)[i].x <= 0x200_0000 by {
        lemma_cursor_bounds(prisms, i);
        assert(i * 8192 <= 0x200_0000) by (nonlinear_arith)
            requires
                0 <= i < 4096,
        ;
        assert(modest(prisms[i]));
    }
}

/// Lays the prisms out side by side and paints them shortest first: the
/// painted pixels keyed by `(column, -row)`, and their bounding box as
/// `(min_x, min_y, width, height)`.
pub fn rasterize(prisms: &mut Vec<Prism>) -> (r: (Vec<((i32, i32), usize)>, i32, i32, i32, i32))
    requires
        old(prisms).len() <= 4096,
        forall|i: int| 0 <= i < old(prisms).len() ==> modest(#[trigger] old(prisms)@[i]),
    ensures
        final(prisms)@ == laid_out(old(prisms)@),
        distinct_keys(r.0@),
        entries_map(r.0@) == tones_of(old(prisms)@),
        framed(tones_of(old(prisms)@), r.1 as int, r.2 as int, r.3 as int, r.4 as int),
        0 <= r.3 <= 0x1000_0001,
        0 <= r.4 <= 4097,
        -0x800_0000 <= r.1 <= 0x800_0000,
        -4096 <= r.2 <= 0,
        keys_in_area(r.0@),
{
    let ghost p0 = prisms@;
    lay_out(prisms);
    let ordered = sort_by_height(prisms);
    proof {
        lemma_laid_out(p0);
        lemma_by_height(prisms@);
    }
    let mut entries: Vec<((i32, i32), usize)> = Vec::new();
    assert(entries_map(entries@) =~= Map::<(int, int), int>::empty());
    let mut k: usize = 0;
    while k < ordered.len()
        invariant
            k <= ordered.len(),
            ordered@ == by_height(laid_out(p0)),
            ordered.len() == p0.len(),
            forall|i: int| 0 <= i < ordered.len() ==> modest(#[trigger] ordered@[i]) && 0 <= ordered@[i].x <= 0x200_0000,
            distinct_keys(entries@),
            keys_in_area(entries@),
            entries_map(entries@) == paint_all(Map::empty(), ordered@.take(k as int)),
        decreases ordered.len() - k,
    {
        let p = ordered[k];
        paint_prism(&mut entries, p);
        proof {
            assert(ordered@.take(k + 1).drop_last() =~= ordered@.take(k as int));
            assert(ordered@.take(k + 1).last() == p);
        }
        k += 1;
    }
    proof {
        assert(ordered@.take(ordered.len() as int) =~= ordered@);
    }
    let (min_x, min_y, width, height) = frame(&entries);
    (entries, min_x, min_y, width, height)
}

/// The bounding box of the painted pixels as `(min_x, min_y, width, height)`,
/// all zero when nothing is painted.
pub open spec fn box_of(m: Map<(int, int), int>) -> (int, int, int, int) {
    if exists|k: (int, int)| #[trigger] m.dom().contains(k) {
        let min_x = choose|v: int| least_x(m, v);
        let max_x = choose|v: int| greatest_x(m, v);
        let min_y = choose|v: int| least_y(m, v);
        let max_y = choose|v: int| greatest_y(m, v);
        (min_x, min_y, max_x - min_x + 1, max_y - min_y + 1)
    } else {
        (0, 0, 0, 0)
    }
}

proof fn lemma_box_of(m: Map<(int, int), int>, min_x: int, min_y: int, width: int, height: int)
    requires
        framed(m, min_x, min_y, width, height),
    ensures
        box_of(m) == (min_x, min_y, width, height),
{
    if exists|k: (int, int)| #[trigger] m.dom().contains(k) {
        let a = choose|v: int| least_x(m, v);
        let b = choose|v: int| greatest_x(m, v);
        let c = choose|v: int| least_y(m, v);
        let d = choose|v: int| greatest_y(m, v);
        assert(least_x(m, a) && greatest_x(m, b) && least_y(m, c) && greatest_y(m, d));
        let ka = choose|k: (int, int)| #[trigger] m.dom().contains(k) && k.0 == a;
        let kx = choose|k: (int, int)| #[trigger] m.dom().contains(k) && k.0 == min_x;
        assert(a <= kx.0 && min_x <= ka.0);
        let kb = choose|k: (int, int)| #[trigger] m.dom().contains(k) && k.0 == b;
        let kX = choose|k: (int, int)| #[trigger] m.dom().contains(k) && k.0 == min_x + width - 1;
        assert(kX.0 <= b && kb.0 <= min_x + width - 1);
        let kc = choose|k: (int, int)| #[trigger] m.dom().contains(k) && k.1 == c;
        let ky = choose|k: (int, int)| #[trigger] m.dom().contains(k) && k.1 == min_y;
        assert(c <= ky.1 && min_y <= kc.1);
        let kd = choose|k: (int, int)| #[trigger] m.dom().contains(k) && k.1 == d;
        let kY = choose|k: (int, int)| #[trigger] m.dom().contains(k) && k.1 == min_y + height - 1;
        assert(kY.1 <= d && kd.1 <= min_y + height - 1);
    }
}

/// Whether the painted pixels fit in a `size` by `size` box.
pub open spec fn fits(m: Map<(int, int), int>, size: int) -> bool {
    forall|a: (int, int), b: (int, int)|
        #[trigger] m.dom().contains(a) && #[trigger] m.dom().contains(b) ==> a.0 - b.0 < size && a.1 - b.1 < size
}

proof fn lemma_fits(m: Map<(int, int), int>, min_x: int, min_y: int, width: int, height: int, size: int)
    requires
        framed(m, min_x, min_y, width, height),
        size >= 0,
    ensures
        (width <= size && height <= size) == fits(m, size),
{
    if exists|k: (int, int)| #[trigger] m.dom().contains(k) {
        let lo_x = choose|k: (int, int)| #[trigger] m.dom().contains(k) && k.0 == min_x;
        let hi_x = choose|k: (int, int)| #[trigger] m.dom().contains(k) && k.0 == min_x + width - 1;
        let lo_y = choose|k: (int, int)| #[trigger] m.dom().contains(k) && k.1 == min_y;
        let hi_y = choose|k: (int, int)| #[trigger] m.dom().contains(k) && k.1 == min_y + height - 1;
        if fits(m, size) {
            assert(hi_x.0 - lo_x.0 < size);
            assert(hi_y.1 - lo_y.1 < size);
        }
    }
}

/// The index of the tallest of the first `n` prisms; the last one on ties.
pub open spec fn tallest_upto(s: Seq<Prism>, n: int) -> int
    decreases n,
{
    if n <= 1 {
        0
    } else {
        let t = tallest_upto(s, n - 1);
        if s[n - 1].h >= s[t].h { n - 1 } else { t }
    }
}

/// The index of the shortest of the first `n` prisms; the first one on ties.
pub open spec fn shortest_upto(s: Seq<Prism>, n: int) -> int
    decreases n,
{
    if n <= 1 {
        0
    } else {
        let t = shortest_upto(s, n - 1);
        if s[n - 1].h < s[t].h { n - 1 } else { t }
    }
}

/// The prisms with the tallest one raised to at least `peak_height`.
pub open spec fn raised(s: Seq<Prism>, peak_height: int) -> Seq<Prism> {
    let t = tallest_upto(s, s.len() as int);
    let p = s[t];
    s.update(t, Prism { w: p.w, h: if peak_height > p.h { peak_height as i32 } else { p.h }, lean: p.lean, shade: p.shade, gap: p.gap, x: p.x })
}

/// The prisms left once the shortest are dropped, one at a time, until the
/// artwork fits a `size` by `size` box or one prism remains.
pub open spec fn settled(s: Seq<Prism>, size: int) -> Seq<Prism>
    decreases s.len(),
{
    if s.len() <= 1 || fits(tones_of(s), size) {
        s
    } else {
        let placed = laid_out(s);
        proof {
            lemma_shortest(placed, placed.len() as int);
        }
        settled(placed.remove(shortest_upto(placed, placed.len() as int)), size)
    }
}

/// The grid with the painted pixels moved by `(dx, dy)`; pixels that land
/// outside are dropped.
pub open spec fn placed_cells(m: Map<(int, int), int>, size: int, dx: int, dy: int) -> Seq<Option<usize>> {
    Seq::new(
        (size * size) as nat,
        |i: int|
            if m.dom().contains((col(size, i) - dx, row(size, i) - dy)) {
                Some(m[(col(size, i) - dx, row(size, i) - dy)] as usize)
            } else {
                None
            },
    )
}

/// The crystal artwork of the prisms in a `size` by `size` grid: the tallest
/// prism raised to `peak_height`, the shortest dropped until the rest fits,
/// the pixels centred, and the enclosed holes painted.
pub open spec fn crystal_of(prisms: Seq<Prism>, size: int, peak_height: int) -> Seq<Option<usize>> {
    let m = tones_of(settled(raised(prisms, peak_height), size));
    let b = box_of(m);
    let dx = trunc_div(size - b.2, 2) - b.0;
    let dy = trunc_div(size - b.3 + 1, 2) - b.1;
    filled(placed_cells(m, size, dx, dy), size, size * size)
}

/// The tallest of the first `n` prisms is one of them.
pub proof fn lemma_tallest(s: Seq<Prism>, n: int)
    requires
        1 <= n <= s.len(),
    ensures
        0 <= tallest_upto(s, n) < n,
    decreases n,
{
    if n > 1 {
        lemma_tallest(s, n - 1);
    }
}

/// The shortest of the first `n` prisms is one of them.
pub proof fn lemma_shortest(s: Seq<Prism>, n: int)
    requires
        1 <= n <= s.len(),
    ensures
        0 <= shortest_upto(s, n) < n,
    decreases n,
{
    if n > 1 {
        lemma_shortest(s, n - 1);
    }
}

fn tallest_index(prisms: &Vec<Prism>) -> (r: usize)
    requires
        prisms.len() >= 1,
    ensures
        r == tallest_upto(prisms@, prisms.len() as int),
        r < prisms.len(),
{
    let mut best: usize = 0;
    let mut n: usize = 1;
    while n < prisms.len()
        invariant
            1 <= n <= prisms.len(),
            best == tallest_upto(prisms@, n as int),
            best < n,
        decreases prisms.len() - n,
    {
        if prisms[n].h >= prisms[best].h {
            best = n;
        }
        n += 1;
    }
    best
}

fn shortest_index(prisms: &Vec<Prism>) -> (r: usize)
    requires
        prisms.len() >= 1,
    ensures
        r == shortest_upto(prisms@, prisms.len() as int),
        r < prisms.len(),
{
    let mut best: usize = 0;
    let mut n: usize = 1;
    while n < prisms.len()
        invariant
            1 <= n <= prisms.len(),
            best == shortest_upto(prisms@, n as int),
            best < n,
        decreases prisms.len() - n,
    {
        if prisms[n].h < prisms[best].h {
            best = n;
        }
        n += 1;
    }
    best
}

/// The painted pixels moved by `(dx, dy)` into an empty `size` by `size` grid.
fn place(entries: &Vec<((i32, i32), usize)>, size: i32, dx: i32, dy: i32) -> (cells: Vec<Option<usize>>)
    requires
        0 <= size <= 46340,
        distinct_keys(entries@),
        keys_in_area(entries@),
        -0x2000_0000 <= dx <= 0x2000_0000,
        -0x2000_0000 <= dy <= 0x2000_0000,
    ensures
        cells@ == placed_cells(entries_map(entries@), size as int, dx as int, dy as int),
{
    assert(0 <= size * size <= 46340 * 46340) by (nonlinear_arith)
        requires
            0 <= size <= 46340,
    ;
    let n = (size * size) as usize;
    let mut cells: Vec<Option<usize>> = Vec::new();
    while cells.len() < n
        invariant
            cells.len() <= n,
            forall|i: int| 0 <= i < cells.len() ==> cells@[i] is None,
        decreases n - cells.len(),
    {
        cells.push(None);
    }
    assert(cells@ =~= placed_cells(entries_map(entries@.take(0)), size as int, dx as int, dy as int));
    let mut k: usize = 0;
    while k < entries.len()
        invariant
            k <= entries.len(),
            0 <= size <= 46340,
            n == size * size,
            distinct_keys(entries@),
            keys_in_area(entries@),
            -0x2000_0000 <= dx <= 0x2000_0000,
            -0x2000_0000 <= dy <= 0x2000_0000,
            cells@ == placed_cells(entries_map(entries@.take(k as int)), size as int, dx as int, dy as int),
        decreases entries.len() - k,
    {
        let ((x, y), tone) = entries[k];
        let ghost before = entries@.take(k as int);
        let ghost m0 = entries_map(before);
        proof {
            assert(-0x800_0000 <= entries@[k as int].0.0 <= 0x800_0000 && -4096 <= entries@[k as int].0.1 <= 0);
            assert(distinct_keys(before));
            assert(!has_key(before, key_of(entries@[k as int]))) by {
                if has_key(before, key_of(entries@[k as int])) {
                    let j = choose|j: int| 0 <= j < before.len() && key_of(#[trigger] before[j]) == key_of(entries@[k as int]);
                    assert(key_of(entries@[j]) != key_of(entries@[k as int]));
                }
            }
            lemma_entries_push(before, entries@[k as int]);
            assert(entries@.take(k + 1) =~= before.push(entries@[k as int]));
        }
        let ghost m1 = entries_map(entries@.take(k + 1));
        let px = x + dx;
        let py = y + dy;
        if px >= 0 && py >= 0 && px < size && py < size {
            proof {
                lemma_cell_at(size as int, px as int, py as int);
                assert(0 <= py * size + px < size * size <= 46340 * 46340) by (nonlinear_arith)
                    requires
                        0 <= px < size,
                        0 <= py < size,
                        size <= 46340,
                ;
            }
            let at = (py * size + px) as usize;
            cells.set(at, Some(tone));
            proof {
                assert forall|i: int| 0 <= i < size * size implies cells@[i] == placed_cells(m1, size as int, dx as int, dy as int)[i] by {
                    lemma_cell(size as int, i);
                    if i != at as int {
                        if col(size as int, i) - dx == x && row(size as int, i) - dy == y {
                            assert(i == py * size + px);
                        }
                    }
                }
                assert(cells@ =~= placed_cells(m1, size as int, dx as int, dy as int));
            }
        } else {
            proof {
                assert forall|i: int| 0 <= i < size * size implies cells@[i] == placed_cells(m1, size as int, dx as int, dy as int)[i] by {
                    if size > 0 {
                        lemma_cell(size as int, i);
                    }
                }
                assert(cells@ =~= placed_cells(m1, size as int, dx as int, dy as int));
            }
        }
        k += 1;
    }
    assert(entries@.take(entries.len() as int) =~= entries@);
    cells
}

/// The crystal artwork of the prisms in a `size` by `size` grid: the tallest
/// prism (the last one on ties) is raised to `peak_height`, the shortest (the
/// first one on ties) are dropped until the pixels fit or one prism remains,
/// the pixels are centred and the enclosed holes are painted. Each cell holds
/// a tone index into the loader's ramp, or nothing.
pub fn crystal_cells(prisms: Vec<Prism>, size: i32, peak_height: i32) -> (cells: Vec<Option<usize>>)
    requires
        1 <= prisms.len() <= 4096,
        forall|i: int| 0 <= i < prisms.len() ==> modest(#[trigger] prisms@[i]),
        0 <= size <= 46340,
        -4096 <= peak_height <= 4096,
    ensures
        cells@ == crystal_of(prisms@, size as int, peak_height as int),
{
    let ghost p0 = prisms@;
    let mut prisms = prisms;
    let peak = tallest_index(&prisms);
    let mut tallest = prisms[peak];
    if peak_height > tallest.h {
        tallest.h = peak_height;
    }
    prisms.set(peak, tallest);
    assert(prisms@ =~= raised(p0, peak_height as int));
    let ghost mut q = prisms@;
    let mut drawn = rasterize(&mut prisms);
    while !(prisms.len() <= 1 || (drawn.3 <= size && drawn.4 <= size))
        invariant
            1 <= q.len() <= 4096,
            forall|i: int| 0 <= i < q.len() ==> modest(#[trigger] q[i]),
            0 <= size <= 46340,
            settled(q, size as int) == settled(raised(p0, peak_height as int), size as int),
            prisms@ == laid_out(q),
            distinct_keys(drawn.0@),
            keys_in_area(drawn.0@),
            entries_map(drawn.0@) == tones_of(q),
            framed(tones_of(q), drawn.1 as int, drawn.2 as int, drawn.3 as int, drawn.4 as int),
            0 <= drawn.3 <= 0x1000_0001,
            0 <= drawn.4 <= 4097,
            -0x800_0000 <= drawn.1 <= 0x800_0000,
            -4096 <= drawn.2 <= 0,
        decreases prisms.len(),
    {
        proof {
            lemma_laid_out(q);
            lemma_fits(tones_of(q), drawn.1 as int, drawn.2 as int, drawn.3 as int, drawn.4 as int, size as int);
        }
        let shortest = shortest_index(&prisms);
        prisms.remove(shortest);
        proof {
            let placed = laid_out(q);
            assert(settled(q, size as int) == settled(placed.remove(shortest as int), size as int));
            q = prisms@;
            assert forall|i: int| 0 <= i < q.len() implies modest(#[trigger] q[i]) by {
                if i < shortest {
                    assert(q[i] == placed[i]);
                } else {
                    assert(q[i] == placed[i + 1]);
                }
            }
        }
        drawn = rasterize(&mut prisms);
    }
    proof {
        lemma_fits(tones_of(q), drawn.1 as int, drawn.2 as int, drawn.3 as int, drawn.4 as int, size as int);
        assert(settled(q, size as int) == q);
        lemma_box_of(tones_of(q), drawn.1 as int, drawn.2 as int, drawn.3 as int, drawn.4 as int);
    }
    let (entries, min_x, min_y, width, height) = drawn;
    let dx = div_toward_zero(size - width, 2) - min_x;
    let dy = div_toward_zero(size - height + 1, 2) - min_y;
    proof {
        lemma_trunc_div_bound((size - width) as int, 2);
        lemma_trunc_div_bound((size - height + 1) as int, 2);
    }
    let mut cells = place(&entries, size, dx, dy);
    close_holes(&mut cells, size);
    cells
}

} // verus!
