use vstd::prelude::*;

verus! {

/// Number of pixel columns of the console display.
pub const WIDTH: usize = 160;

/// Number of pixel rows of the console display.
pub const HEIGHT: usize = 144;

/// Number of 2-bit pixel codes held by one 32-bit word.
pub const CODES_PER_WORD: usize = 16;

/// Length in words of the packed display buffer: two bits for each pixel.
pub const DISPLAY_UNIFORM_SIZE: usize = (2 * WIDTH * HEIGHT) / 32;

/// The 2-bit code stored in slot `slot` (0..16) of a packed word,
/// least significant bits first.
pub open spec fn code_in_word(w: u32, slot: u32) -> u32 {
    (w >> (2 * slot) as u32) & 3u32
}

/// The `k`-th pixel code of a packed buffer, in scan order.
pub open spec fn packed_code(words: Seq<u32>, k: int) -> u32 {
    code_in_word(words[k / 16], (k % 16) as u32)
}

/// A grid of 2-bit pixel codes, indexed as `columns[x][y]`.
///
/// It may be larger than the console's display; only the first `WIDTH`
/// columns and `HEIGHT` rows are ever read.
pub struct DisplayMatrix {
    columns: Vec<Vec<u8>>,
}

/// Whether `columns` covers the display and holds 2-bit codes there.
pub open spec fn columns_wf(columns: Seq<Vec<u8>>) -> bool {
    &&& columns.len() >= WIDTH
    &&& forall|x: int| 0 <= x < WIDTH ==> (#[trigger] columns[x]).len() >= HEIGHT
    &&& forall|x: int, y: int|
        0 <= x < WIDTH && 0 <= y < HEIGHT ==> (#[trigger] columns[x]@[y]) < 4
}

impl DisplayMatrix {
    pub closed spec fn cells(self) -> Seq<Vec<u8>> {
        self.columns@
    }

    /// The code of the pixel in column `x` and row `y`.
    pub open spec fn cell(self, x: int, y: int) -> u8 {
        self.cells()[x]@[y]
    }

    pub open spec fn wf(self) -> bool {
        columns_wf(self.cells())
    }

    /// The `k`-th pixel in scan order: rows outer, columns inner.
    pub open spec fn scan_code(self, k: int) -> u8 {
        self.cell(k % WIDTH as int, k / WIDTH as int)
    }

    /// A display of the console's size with every pixel at code 0.
    pub fn new() -> (m: DisplayMatrix)
        ensures
            m.wf(),
            m.cells().len() == WIDTH,
            forall|x: int| 0 <= x < WIDTH ==> (#[trigger] m.cells()[x]).len() == HEIGHT,
            forall|x: int, y: int| 0 <= x < WIDTH && 0 <= y < HEIGHT ==> #[trigger] m.cell(x, y) == 0,
    {
        let mut columns: Vec<Vec<u8>> = Vec::new();
        let mut x: usize = 0;
        while x < WIDTH
            invariant
                x <= WIDTH,
                columns@.len() == x,
                forall|c: int| 0 <= c < x ==> (#[trigger] columns@[c])@.len() == HEIGHT,
                forall|c: int, y: int| 0 <= c < x && 0 <= y < HEIGHT ==> (#[trigger] columns@[c]@[y]) == 0,
            decreases WIDTH - x,
        {
            let column: Vec<u8> = vec![0u8; HEIGHT];
            columns.push(column);
            x = x + 1;
        }
        DisplayMatrix { columns }
    }

    /// Wraps `columns` (indexed `[x][y]`) when it covers the display and every
    /// code inside the display is below 4; otherwise `None`.
    pub fn from_columns(columns: Vec<Vec<u8>>) -> (r: Option<DisplayMatrix>)
        ensures
            r.is_some() <==> columns_wf(columns@),
            r.is_some() ==> r.unwrap().cells() == columns@ && r.unwrap().wf(),
    {
        if columns.len() < WIDTH {
            return None;
        }
        let mut x: usize = 0;
        while x < WIDTH
            invariant
                columns@.len() >= WIDTH,
                x <= WIDTH,
                forall|c: int| 0 <= c < x ==> (#[trigger] columns@[c]).len() >= HEIGHT,
                forall|c: int, y: int| 0 <= c < x && 0 <= y < HEIGHT ==> (#[trigger] columns@[c]@[y]) < 4,
            decreases WIDTH - x,
        {
            if columns[x].len() < HEIGHT {
                return None;
            }
            let mut y: usize = 0;
            while y < HEIGHT
                invariant
                    x < WIDTH,
                    columns@.len() >= WIDTH,
                    columns@[x as int].len() >= HEIGHT,
                    y <= HEIGHT,
                    forall|c: int| 0 <= c < x ==> (#[trigger] columns@[c]).len() >= HEIGHT,
                    forall|c: int, r: int| 0 <= c < x && 0 <= r < HEIGHT ==> (#[trigger] columns@[c]@[r]) < 4,
                    forall|r: int| 0 <= r < y ==> (#[trigger] columns@[x as int]@[r]) < 4,
                decreases HEIGHT - y,
            {
                if columns[x][y] >= 4 {
                    return None;
                }
                y = y + 1;
            }
            x = x + 1;
        }
        Some(DisplayMatrix { columns })
    }

    /// The code of the pixel in column `x` and row `y`.
    pub fn get(&self, x: usize, y: usize) -> (r: u8)
        requires
            self.wf(),
            x < WIDTH,
            y < HEIGHT,
        ensures
            r == self.cell(x as int, y as int),
            r < 4,
    {
        self.columns[x][y]
    }

    /// Sets the pixel in column `x` and row `y` to `code`.
    pub fn set(&mut self, x: usize, y: usize, code: u8)
        requires
            old(self).wf(),
            x < WIDTH,
            y < HEIGHT,
            code < 4,
        ensures
            final(self).wf(),
            final(self).cells().len() == old(self).cells().len(),
            forall|c: int| 0 <= c < old(self).cells().len() ==>
                (#[trigger] final(self).cells()[c]).len() == old(self).cells()[c].len(),
            forall|c: int, r: int|
                #![trigger final(self).cell(c, r)]
                0 <= c < old(self).cells().len() && 0 <= r < old(self).cells()[c].len() ==>
                final(self).cell(c, r) == (if c == x && r == y { code } else { old(self).cell(c, r) }),
    {
        let mut column: Vec<u8> = Vec::new();
        std::mem::swap(&mut column, &mut self.columns[x]);
        column.set(y, code);
        self.columns.set(x, column);
        assert forall|c: int| 0 <= c < WIDTH implies (#[trigger] self.columns@[c]).len() >= HEIGHT by {
            if c != x {
                assert(self.columns@[c] == old(self).columns@[c]);
            }
        }
        assert forall|c: int, r: int| 0 <= c < WIDTH && 0 <= r < HEIGHT implies
            (#[trigger] self.columns@[c]@[r]) < 4 by {
            if c != x {
                assert(self.columns@[c] == old(self).columns@[c]);
            }
        }
    }
}

/// Effect on the codes of a word of OR-ing code `c` into the empty slot `t`.
proof fn lemma_or_code(w: u32, c: u32, t: u32, s: u32)
    requires
        c < 4,
        t < 16,
        s < 16,
        w >> (2 * t) as u32 == 0,
    ensures
        s < t ==> code_in_word(w | (c << (2 * t) as u32), s) == code_in_word(w, s),
        code_in_word(w | (c << (2 * t) as u32), t) == c,
        t + 1 < 16 ==> (w | (c << (2 * t) as u32)) >> (2 * (t + 1)) as u32 == 0,
{
    assert(s < t ==> ((w | (c << (2 * t) as u32)) >> (2 * s) as u32) & 3u32 == (w >> (2 * s) as u32) & 3u32)
        by (bit_vector)
        requires
            c < 4,
            t < 16,
            s < 16,
            w >> (2 * t) as u32 == 0,
    ;
    assert(((w | (c << (2 * t) as u32)) >> (2 * t) as u32) & 3u32 == c) by (bit_vector)
        requires
            c < 4,
            t < 16,
            w >> (2 * t) as u32 == 0,
    ;
    assert(t + 1 < 16 ==> (w | (c << (2 * t) as u32)) >> (2 * (t + 1)) as u32 == 0) by (bit_vector)
        requires
            c < 4,
            t < 16,
            w >> (2 * t) as u32 == 0,
    ;
}

/// A word is determined by its 16 codes.
proof fn lemma_word_from_codes(a: u32, b: u32)
    by (bit_vector)
    requires
        code_in_word(a, 0) == code_in_word(b, 0),
        code_in_word(a, 1) == code_in_word(b, 1),
        code_in_word(a, 2) == code_in_word(b, 2),
        code_in_word(a, 3) == code_in_word(b, 3),
        code_in_word(a, 4) == code_in_word(b, 4),
        code_in_word(a, 5) == code_in_word(b, 5),
        code_in_word(a, 6) == code_in_word(b, 6),
        code_in_word(a, 7) == code_in_word(b, 7),
        code_in_word(a, 8) == code_in_word(b, 8),
        code_in_word(a, 9) == code_in_word(b, 9),
        code_in_word(a, 10) == code_in_word(b, 10),
        code_in_word(a, 11) == code_in_word(b, 11),
        code_in_word(a, 12) == code_in_word(b, 12),
        code_in_word(a, 13) == code_in_word(b, 13),
        code_in_word(a, 14) == code_in_word(b, 14),
        code_in_word(a, 15) == code_in_word(b, 15),
    ensures
        a == b,
{
}

/// Two buffers that hold the codes of every pixel of the display in scan
/// order hold the same words.
pub proof fn lemma_packed_words_unique(a: Seq<u32>, b: Seq<u32>)
    requires
        a.len() == DISPLAY_UNIFORM_SIZE,
        b.len() == DISPLAY_UNIFORM_SIZE,
        forall|k: int| 0 <= k < WIDTH * HEIGHT ==> #[trigger] packed_code(a, k) == packed_code(b, k),
    ensures
        a == b,
{
    assert forall|i: int| 0 <= i < DISPLAY_UNIFORM_SIZE implies a[i] == b[i] by {
        assert forall|s: u32| s < 16 implies #[trigger] code_in_word(a[i], s) == code_in_word(b[i], s) by {
            let k = 16 * i + s;
            assert(k / 16 == i && k % 16 == s);
            assert(packed_code(a, k) == packed_code(b, k));
        }
        lemma_word_from_codes(a[i], b[i]);
    }
    assert(a =~= b);
}

/// The display data as the shading stage reads it: 2-bit codes packed
/// 16 to a word, least significant bits first, in scan order.
pub struct DisplayUniform {
    pub pixels: Vec<u32>,
}

impl DisplayUniform {
    pub open spec fn wf(self) -> bool {
        self.pixels@.len() == DISPLAY_UNIFORM_SIZE
    }

    /// Whether the buffer holds, in scan order, exactly the codes of `m`.
    pub open spec fn encodes(self, m: DisplayMatrix) -> bool {
        forall|k: int| 0 <= k < WIDTH * HEIGHT ==> #[trigger] packed_code(self.pixels@, k) == m.scan_code(k) as u32
    }

    /// An all-zero buffer of `DISPLAY_UNIFORM_SIZE` words.
    pub fn new() -> (r: DisplayUniform)
        ensures
            r.wf(),
            forall|i: int| 0 <= i < DISPLAY_UNIFORM_SIZE ==> #[trigger] r.pixels@[i] == 0,
    {
        DisplayUniform { pixels: vec![0u32; DISPLAY_UNIFORM_SIZE] }
    }

    /// Packs the display `display` into this buffer: the pixel at column
    /// `x`, row `y` becomes code number `y * WIDTH + x`, and each word is
    /// overwritten. The buffer keeps its length.
    pub fn update(&mut self, display: &DisplayMatrix)
        requires
            old(self).wf(),
            display.wf(),
        ensures
            final(self).wf(),
            final(self).encodes(*display),
    {
        let mut i: usize = 0;
        let mut int_i: u32 = 0;
        self.pixels.set(0, 0);
        assert(0u32 >> 0u32 == 0) by (bit_vector);
        let mut y: usize = 0;
        while y < HEIGHT
            invariant
                display.wf(),
                self.pixels@.len() == DISPLAY_UNIFORM_SIZE,
                y <= HEIGHT,
                i * 16 + int_i / 2 == y * WIDTH,
                int_i % 2 == 0,
                int_i < 32,
                y < HEIGHT ==> i < DISPLAY_UNIFORM_SIZE,
                y < HEIGHT ==> self.pixels@[i as int] >> int_i == 0,
                forall|k: int| 0 <= k < y * WIDTH ==> #[trigger] packed_code(self.pixels@, k) == display.scan_code(k) as u32,
            decreases HEIGHT - y,
        {
            let mut x: usize = 0;
            while x < WIDTH
                invariant
                    display.wf(),
                    self.pixels@.len() == DISPLAY_UNIFORM_SIZE,
                    y < HEIGHT,
                    x <= WIDTH,
                    i * 16 + int_i / 2 == y * WIDTH + x,
                    int_i % 2 == 0,
                    int_i < 32,
                    i < DISPLAY_UNIFORM_SIZE,
                    self.pixels@[i as int] >> int_i == 0,
                    forall|k: int| 0 <= k < y * WIDTH + x ==> #[trigger] packed_code(self.pixels@, k) == display.scan_code(k) as u32,
                decreases WIDTH - x,
            {
                let pixel = display.columns[x][y] as u32;
                let ghost before = self.pixels@;
                let ghost t = int_i / 2;
                let ghost k0 = y * WIDTH + x;
                assert(k0 / 16 == i && k0 % 16 == t);
                assert(display.scan_code(k0) == display.cell(x as int, y as int));
                let word = self.pixels[i] | (pixel << int_i);
                self.pixels.set(i, word);
                proof {
                    assert((2 * t) as u32 == int_i);
                    assert(pixel < 4);
                    assert(pixel == display.scan_code(k0) as u32);
                    assert(self.pixels@[i as int] == word);
                    assert forall|k: int| 0 <= k <= k0 implies #[trigger] packed_code(self.pixels@, k) == display.scan_code(k) as u32 by {
                        if k / 16 == i {
                            lemma_or_code(before[i as int], pixel, t as u32, (k % 16) as u32);
                            if k < k0 {
                                assert(k % 16 < t);
                                assert(packed_code(before, k) == display.scan_code(k) as u32);
                            } else {
                                assert(k % 16 == t);
                            }
                        } else {
                            assert(self.pixels@[k / 16] == before[k / 16]);
                            assert(packed_code(before, k) == display.scan_code(k) as u32);
                        }
                    }
                    lemma_or_code(before[i as int], pixel, t as u32, 0);
                }
                int_i = int_i + 2;
                if int_i >= 32 {
                    int_i = 0;
                    i = i + 1;
                    if i >= DISPLAY_UNIFORM_SIZE {
                        return;
                    }
                    let ghost before_zero = self.pixels@;
                    self.pixels.set(i, 0);
                    proof {
                        assert forall|k: int| 0 <= k <= k0 implies #[trigger] packed_code(self.pixels@, k) == display.scan_code(k) as u32 by {
                            assert(k / 16 < i);
                            assert(self.pixels@[k / 16] == before_zero[k / 16]);
                            assert(packed_code(before_zero, k) == display.scan_code(k) as u32);
                        }
                        assert(0u32 >> 0u32 == 0) by (bit_vector);
                    }
                } else {
                    proof {
                        assert((2 * (t + 1)) as u32 == int_i);
                    }
                }
                x = x + 1;
            }
            y = y + 1;
        }
    }

    /// The code of the pixel in column `x`, row `y` of the packed buffer.
    pub fn decode(&self, x: usize, y: usize) -> (r: u8)
        requires
            self.wf(),
            x < WIDTH,
            y < HEIGHT,
        ensures
            r as u32 == packed_code(self.pixels@, y * WIDTH + x),
            r < 4,
    {
        let k: usize = y * WIDTH + x;
        let w: u32 = self.pixels[k / CODES_PER_WORD];
        let slot: u32 = (k % CODES_PER_WORD) as u32;
        let code: u32 = (w >> (2 * slot)) & 3u32;
        assert(code < 4) by (bit_vector)
            requires
                code == (w >> (2 * slot)) & 3u32,
        ;
        code as u8
    }
}

} // verus!
