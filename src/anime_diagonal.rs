use vstd::prelude::*;

verus! {

/// Columns of the diagonal image grid.
pub const DIAGONAL_WIDTH: usize = 74;

/// Rows of the diagonal image grid.
pub const DIAGONAL_HEIGHT: usize = 36;

/// Bytes in the display's data buffer.
pub const ANIME_DATA_LEN: usize = 1245;

/// How the diagonal image fills the data buffer: each entry gives where a
/// run starts in the buffer, and the column, the row from the bottom, and
/// the length of the diagonal run of the image that it copies.
pub const DIAGONAL_RUNS: [(u16, u16, u16, u16); 55] = [
    (1, 2, 3, 33),
    (34, 2, 2, 33),
    (68, 2, 1, 33),
    (101, 2, 0, 34),
    (136, 3, 0, 34),
    (170, 4, 0, 33),
    (204, 5, 0, 33),
    (237, 6, 0, 32),
    (270, 7, 0, 32),
    (302, 8, 0, 31),
    (334, 9, 0, 31),
    (365, 10, 0, 30),
    (396, 11, 0, 30),
    (426, 12, 0, 29),
    (456, 13, 0, 29),
    (485, 14, 0, 28),
    (514, 15, 0, 28),
    (542, 16, 0, 27),
    (570, 17, 0, 27),
    (597, 18, 0, 26),
    (624, 19, 0, 26),
    (650, 20, 0, 25),
    (676, 21, 0, 25),
    (701, 22, 0, 24),
    (726, 23, 0, 24),
    (750, 24, 0, 23),
    (774, 25, 0, 23),
    (797, 26, 0, 22),
    (820, 27, 0, 22),
    (842, 28, 0, 21),
    (864, 29, 0, 21),
    (885, 30, 0, 20),
    (906, 31, 0, 20),
    (926, 32, 0, 19),
    (946, 33, 0, 19),
    (965, 34, 0, 18),
    (984, 35, 0, 18),
    (1002, 36, 0, 17),
    (1020, 37, 0, 17),
    (1037, 38, 0, 16),
    (1054, 39, 0, 16),
    (1070, 40, 0, 15),
    (1086, 41, 0, 15),
    (1101, 42, 0, 14),
    (1116, 43, 0, 14),
    (1130, 44, 0, 13),
    (1144, 45, 0, 13),
    (1157, 46, 0, 12),
    (1170, 47, 0, 12),
    (1182, 48, 0, 11),
    (1194, 49, 0, 11),
    (1205, 50, 0, 10),
    (1216, 51, 0, 10),
    (1226, 52, 0, 9),
    (1236, 53, 0, 9)
];

/// An image in the display's own slanted grid: `DIAGONAL_HEIGHT` rows of
/// `DIAGONAL_WIDTH` brightness values.
#[derive(Debug, Clone, Copy)]
pub struct AniMeDiagonal([[u8; 74]; 36]);

/// The data buffer sent to the display.
#[derive(Debug, Clone)]
pub struct AniMeDataBuffer(Vec<u8>);

impl AniMeDataBuffer {
    pub closed spec fn spec_bytes(&self) -> Seq<u8> {
        self.0@
    }

    pub fn get(&self) -> (r: &Vec<u8>)
        ensures
            r@ == self.spec_bytes(),
    {
        &self.0
    }
}

/// The grid of an image as rows of values.
pub open spec fn grid(d: [[u8; 74]; 36]) -> Seq<Seq<u8>> {
    d@.map_values(|row: [u8; 74]| row@)
}

/// The diagonal run of `g` that starts at column `x`, `y` rows above the
/// bottom, going up and to the right for `len` values.
pub open spec fn diagonal_run(g: Seq<Seq<u8>>, x: int, y: int, len: int) -> Seq<u8> {
    Seq::new(len as nat, |i: int| g[DIAGONAL_HEIGHT - y - i - 1][x + i])
}

/// `part` written into `s` from index `at`.
pub open spec fn put(s: Seq<u8>, at: int, part: Seq<u8>) -> Seq<u8> {
    s.take(at) + part + s.skip(at + part.len())
}

/// The data buffer after copying the first `n` runs of `g` into a zeroed buffer.
pub open spec fn diagonal_data(g: Seq<Seq<u8>>, n: nat) -> Seq<u8>
    decreases n,
{
    if n == 0 {
        Seq::new(ANIME_DATA_LEN as nat, |i: int| 0u8)
    } else {
        let r = DIAGONAL_RUNS@[n - 1];
        put(diagonal_data(g, (n - 1) as nat), r.0 as int, diagonal_run(g, r.1 as int, r.2 as int, r.3 as int))
    }
}

/// Every run lies inside the image and inside the buffer.
proof fn lemma_run_bounds(k: int)
    requires
        0 <= k < 55,
    ensures
        DIAGONAL_RUNS@[k].0 + DIAGONAL_RUNS@[k].3 <= ANIME_DATA_LEN,
        DIAGONAL_RUNS@[k].1 + DIAGONAL_RUNS@[k].3 <= DIAGONAL_WIDTH,
        DIAGONAL_RUNS@[k].2 + DIAGONAL_RUNS@[k].3 <= DIAGONAL_HEIGHT,
{
    assert(
        k == 0 || k == 1 || k == 2 || k == 3 || k == 4 || k == 5 || k == 6 || k == 7
            || k == 8 || k == 9 || k == 10 || k == 11 || k == 12 || k == 13 || k == 14 || k == 15
            || k == 16 || k == 17 || k == 18 || k == 19 || k == 20 || k == 21 || k == 22 || k == 23
            || k == 24 || k == 25 || k == 26 || k == 27 || k == 28 || k == 29 || k == 30 || k == 31
            || k == 32 || k == 33 || k == 34 || k == 35 || k == 36 || k == 37 || k == 38 || k == 39
            || k == 40 || k == 41 || k == 42 || k == 43 || k == 44 || k == 45 || k == 46 || k == 47
            || k == 48 || k == 49 || k == 50 || k == 51 || k == 52 || k == 53 || k == 54
    );
}

impl AniMeDiagonal {
    pub closed spec fn spec_grid(&self) -> Seq<Seq<u8>> {
        grid(self.0)
    }

    /// A dark image.
    pub fn new() -> (r: AniMeDiagonal)
        ensures
            forall|y: int, x: int| 0 <= y < DIAGONAL_HEIGHT && 0 <= x < DIAGONAL_WIDTH ==> #[trigger] r.spec_grid()[y][x] == 0,
            r.spec_grid().len() == DIAGONAL_HEIGHT,
            forall|y: int| 0 <= y < DIAGONAL_HEIGHT ==> #[trigger] r.spec_grid()[y].len() == DIAGONAL_WIDTH,
    {
        AniMeDiagonal([[0u8; 74]; 36])
    }

    /// Sets the value at row `y`, column `x`.
    pub fn set(&mut self, y: usize, x: usize, v: u8)
        requires
            y < DIAGONAL_HEIGHT,
            x < DIAGONAL_WIDTH,
        ensures
            final(self).spec_grid() == old(self).spec_grid().update(y as int, old(self).spec_grid()[y as int].update(x as int, v)),
    {
        let mut row = self.0[y];
        row[x] = v;
        self.0[y] = row;
        assert(grid(self.0) =~= grid(old(self).0).update(y as int, grid(old(self).0)[y as int].update(x as int, v)));
    }

    /// The diagonal run that starts at column `x`, `y` rows above the bottom,
    /// going up and to the right for `len` values.
    fn get_row(&self, x: usize, y: usize, len: usize) -> (r: Vec<u8>)
        requires
            x + len <= DIAGONAL_WIDTH,
            y + len <= DIAGONAL_HEIGHT,
        ensures
            r@ == diagonal_run(self.spec_grid(), x as int, y as int, len as int),
    {
        let mut buf: Vec<u8> = Vec::new();
        let mut i: usize = 0;
        while i < len
            invariant
                x + len <= DIAGONAL_WIDTH,
                y + len <= DIAGONAL_HEIGHT,
                0 <= i <= len,
                buf@ == diagonal_run(self.spec_grid(), x as int, y as int, i as int),
            decreases len - i,
        {
            let val = self.0[DIAGONAL_HEIGHT - y - i - 1][x + i];
            buf.push(val);
            i = i + 1;
            assert(buf@ =~= diagonal_run(self.spec_grid(), x as int, y as int, i as int));
        }
        buf
    }

    /// The data buffer that shows the image.
    pub fn to_data_buffer(&self) -> (r: AniMeDataBuffer)
        ensures
            r.spec_bytes() == diagonal_data(self.spec_grid(), 55),
    {
        let mut buf: Vec<u8> = Vec::new();
        let mut i: usize = 0;
        while i < ANIME_DATA_LEN
            invariant
                0 <= i <= ANIME_DATA_LEN,
                buf@ == Seq::new(i as nat, |j: int| 0u8),
            decreases ANIME_DATA_LEN - i,
        {
            buf.push(0u8);
            i = i + 1;
            assert(buf@ =~= Seq::new(i as nat, |j: int| 0u8));
        }
        let mut k: usize = 0;
        while k < 55
            invariant
                0 <= k <= 55,
                buf@ == diagonal_data(self.spec_grid(), k as nat),
                buf@.len() == ANIME_DATA_LEN,
            decreases 55 - k,
        {
            proof {
                lemma_run_bounds(k as int);
            }
            let (at, x, y, len) = DIAGONAL_RUNS[k];
            let run = self.get_row(x as usize, y as usize, len as usize);
            let ghost before = buf@;
            let mut i: usize = 0;
            while i < len as usize
                invariant
                    0 <= i <= len,
                    at + len <= ANIME_DATA_LEN,
                    run@.len() == len,
                    before.len() == ANIME_DATA_LEN,
                    buf@ == put(before, at as int, run@.take(i as int)),
                decreases len - i,
            {
                buf.set(at as usize + i, run[i]);
                i = i + 1;
                assert(buf@ =~= put(before, at as int, run@.take(i as int)));
            }
            assert(run@.take(len as int) =~= run@);
            k = k + 1;
        }
        AniMeDataBuffer(buf)
    }
}

} // verus!
