//! Dash rules: the outfit colour sampled for the dash after-images, the
//! double-tap that triggers a dash and the charge economy behind it.

use vstd::prelude::*;

verus! {

/// Number of distinct quantized colours: 32 levels for each of r, g, b.
pub const COLOR_KEYS: usize = 32768;

/// A channel quantized to 5 bits (the low 3 bits dropped).
pub open spec fn quant(c: u8) -> int {
    c as int / 8
}

/// The key of a pixel's quantized colour, `r * 1024 + g * 32 + b`.
pub open spec fn color_key(px: [u8; 4]) -> int {
    quant(px[0]) * 1024 + quant(px[1]) * 32 + quant(px[2])
}

/// A pixel takes part in the sample when it is not (nearly) transparent and
/// not a near-black outline pixel.
pub open spec fn sampled(px: [u8; 4]) -> bool {
    px[3] >= 16 && (px[0] >= 24 || px[1] >= 24 || px[2] >= 24)
}

/// Whether pixel `(x, y)` of an image `w` wide is sampled with key `key`.
pub open spec fn hit(data: Seq<[u8; 4]>, w: int, x: int, y: int, key: int) -> bool {
    sampled(data[y * w + x]) && color_key(data[y * w + x]) == key
}

/// Sampled pixels with key `key` in row `y`, columns `x0 .. x`.
pub open spec fn row_count(data: Seq<[u8; 4]>, w: int, y: int, x0: int, x: int, key: int) -> nat
    decreases x - x0,
{
    if x <= x0 {
        0
    } else {
        row_count(data, w, y, x0, x - 1, key) + if hit(data, w, x - 1, y, key) {
            1nat
        } else {
            0nat
        }
    }
}

/// Sampled pixels with key `key` in rows `y0 .. y`, columns `x0 .. x1`.
pub open spec fn region_count(
    data: Seq<[u8; 4]>,
    w: int,
    x0: int,
    x1: int,
    y0: int,
    y: int,
    key: int,
) -> nat
    decreases y - y0,
{
    if y <= y0 {
        0
    } else {
        region_count(data, w, x0, x1, y0, y - 1, key) + row_count(data, w, y - 1, x0, x1, key)
    }
}

/// How often quantized colour `key` occurs among the sampled pixels of the
/// central half of a `w` x `h` image (columns `w/4 .. 3w/4`, rows
/// `h/4 .. 3h/4`).
pub open spec fn key_count(data: Seq<[u8; 4]>, w: int, h: int, key: int) -> nat {
    region_count(data, w, w / 4, w * 3 / 4, h / 4, h * 3 / 4, key)
}

/// Whether any pixel of the central half is sampled at all.
pub open spec fn any_sampled(data: Seq<[u8; 4]>, w: int, h: int) -> bool {
    exists|k: int| 0 <= k < COLOR_KEYS && #[trigger] key_count(data, w, h, k) > 0
}

/// The quantized key an 8-bit colour triple stands for.
pub open spec fn key_of_rgb(rgb: (u8, u8, u8)) -> int {
    quant(rgb.0) * 1024 + quant(rgb.1) * 32 + quant(rgb.2)
}

/// Every pixel of the central half lies inside the data.
pub open spec fn center_fits(len: int, w: int, h: int) -> bool {
    (w / 4 < w * 3 / 4 && h / 4 < h * 3 / 4) ==> (h * 3 / 4 - 1) * w + (w * 3 / 4 - 1) < len
}

proof fn lemma_row_count_le(data: Seq<[u8; 4]>, w: int, y: int, x0: int, x: int, key: int)
    requires
        x0 <= x,
    ensures
        row_count(data, w, y, x0, x, key) <= x - x0,
    decreases x - x0,
{
    if x > x0 {
        lemma_row_count_le(data, w, y, x0, x - 1, key);
    }
}

proof fn lemma_region_count_le(
    data: Seq<[u8; 4]>,
    w: int,
    x0: int,
    x1: int,
    y0: int,
    y: int,
    key: int,
)
    requires
        y0 <= y,
        x0 <= x1,
    ensures
        region_count(data, w, x0, x1, y0, y, key) <= (y - y0) * (x1 - x0),
    decreases y - y0,
{
    if y > y0 {
        lemma_region_count_le(data, w, x0, x1, y0, y - 1, key);
        lemma_row_count_le(data, w, y - 1, x0, x1, key);
        assert((y - 1 - y0) * (x1 - x0) + (x1 - x0) == (y - y0) * (x1 - x0)) by (nonlinear_arith);
    }
}

proof fn lemma_pixel_index(w: int, x: int, y: int, x1: int, y1: int, len: int)
    requires
        0 <= x < x1,
        0 <= y < y1,
        x1 <= w,
        (y1 - 1) * w + (x1 - 1) < len,
    ensures
        0 <= y * w + x < len,
        y * w + x + 1 <= len,
{
    assert(y * w <= (y1 - 1) * w) by (nonlinear_arith)
        requires
            0 <= y <= y1 - 1,
            0 <= w,
    ;
    assert(0 <= y * w) by (nonlinear_arith)
        requires
            0 <= y,
            0 <= w,
    ;
}

proof fn lemma_count_bound(w: int, x0: int, x1: int, y0: int, x: int, y: int)
    requires
        0 <= x0 <= x <= x1 <= w,
        0 <= y0 <= y,
    ensures
        (y - y0) * (x1 - x0) + (x - x0) <= y * w + x,
{
    assert((y - y0) * (x1 - x0) <= y * w) by (nonlinear_arith)
        requires
            0 <= y - y0 <= y,
            0 <= x1 - x0 <= w,
    ;
}

proof fn lemma_key_range(px: [u8; 4])
    ensures
        0 <= color_key(px) < COLOR_KEYS,
{
}

/// The dominant colour of an outfit sprite, quantized to 5 bits per channel
/// and returned as 8-bit channels (each a multiple of 8). Only the central
/// half of the image is sampled, skipping transparent and near-black pixels;
/// the result is a most frequent quantized colour, or white (248, 248, 248)
/// when no pixel qualifies.
pub fn outfit_dominant_color(data: &[[u8; 4]], width: usize, height: usize) -> (rgb: (u8, u8, u8))
    requires
        width * 3 <= usize::MAX,
        height * 3 <= usize::MAX,
        data@.len() <= u32::MAX,
        center_fits(data@.len() as int, width as int, height as int),
    ensures
        rgb.0 % 8 == 0 && rgb.1 % 8 == 0 && rgb.2 % 8 == 0,
        any_sampled(data@, width as int, height as int) ==> {
            &&& key_count(data@, width as int, height as int, key_of_rgb(rgb)) > 0
            &&& forall|k: int|
                0 <= k < COLOR_KEYS ==> #[trigger] key_count(data@, width as int, height as int, k)
                    <= key_count(data@, width as int, height as int, key_of_rgb(rgb))
        },
        !any_sampled(data@, width as int, height as int) ==> rgb == (248u8, 248u8, 248u8),
{
    let x0 = width / 4;
    let x1 = width * 3 / 4;
    let y0 = height / 4;
    let y1 = height * 3 / 4;
    let ghost d = data@;
    let ghost w = width as int;

    let mut hist: Vec<u32> = Vec::new();
    let mut i: usize = 0;
    while i < COLOR_KEYS
        invariant
            i <= COLOR_KEYS,
            hist@.len() == i,
            forall|k: int| 0 <= k < i ==> hist@[k] == 0,
        decreases COLOR_KEYS - i,
    {
        hist.push(0);
        i = i + 1;
    }

    let mut y = y0;
    while y < y1
        invariant
            x0 == width / 4,
            x1 == width * 3 / 4,
            y0 == height / 4,
            y1 == height * 3 / 4,
            d == data@,
            w == width,
            y0 <= y <= y1 || y1 <= y0 == y,
            width * 3 <= usize::MAX,
            data@.len() <= u32::MAX,
            center_fits(data@.len() as int, width as int, height as int),
            hist@.len() == COLOR_KEYS,
            forall|k: int|
                0 <= k < COLOR_KEYS ==> #[trigger] hist@[k] == region_count(d, w, x0 as int, x1 as int, y0 as int, y as int, k),
        decreases y1 - y,
    {
        let mut x = x0;
        while x < x1
            invariant
                x0 == width / 4,
                x1 == width * 3 / 4,
                y0 == height / 4,
                y1 == height * 3 / 4,
                d == data@,
                w == width,
                y0 <= y < y1,
                x0 <= x <= x1,
                width * 3 <= usize::MAX,
                data@.len() <= u32::MAX,
                center_fits(data@.len() as int, width as int, height as int),
                hist@.len() == COLOR_KEYS,
                forall|k: int|
                    0 <= k < COLOR_KEYS ==> #[trigger] hist@[k] == region_count(d, w, x0 as int, x1 as int, y0 as int, y as int, k)
                        + row_count(d, w, y as int, x0 as int, x as int, k),
            decreases x1 - x,
        {
            proof {
                lemma_pixel_index(w, x as int, y as int, x1 as int, y1 as int, d.len() as int);
            }
            let idx = y * width + x;
            let px = data[idx];
            let skip_clear = px[3] < 16;
            let skip_dark = px[0] < 24 && px[1] < 24 && px[2] < 24;
            if !skip_clear && !skip_dark {
                let r = px[0] >> 3;
                let g = px[1] >> 3;
                let b = px[2] >> 3;
                proof {
                    let (p0, p1, p2) = (px[0], px[1], px[2]);
                    assert(p0 >> 3 == p0 / 8) by (bit_vector);
                    assert(p1 >> 3 == p1 / 8) by (bit_vector);
                    assert(p2 >> 3 == p2 / 8) by (bit_vector);
                    lemma_key_range(px);
                }
                let key = (r as usize) * 1024 + (g as usize) * 32 + (b as usize);
                assert(key == color_key(px));
                proof {
                    lemma_region_count_le(d, w, x0 as int, x1 as int, y0 as int, y as int, key as int);
                    lemma_row_count_le(d, w, y as int, x0 as int, x as int, key as int);
                    lemma_count_bound(w, x0 as int, x1 as int, y0 as int, x as int, y as int);
                }
                let c = hist[key];
                hist.set(key, c + 1);
            }
            proof {
                assert forall|k: int| 0 <= k < COLOR_KEYS implies #[trigger] hist@[k]
                    == region_count(d, w, x0 as int, x1 as int, y0 as int, y as int, k)
                        + row_count(d, w, y as int, x0 as int, x + 1, k) by {
                    assert(row_count(d, w, y as int, x0 as int, x + 1, k) == row_count(
                        d,
                        w,
                        y as int,
                        x0 as int,
                        x as int,
                        k,
                    ) + if hit(d, w, x as int, y as int, k) {
                        1nat
                    } else {
                        0nat
                    });
                }
            }
            x = x + 1;
        }
        proof {
            assert forall|k: int| 0 <= k < COLOR_KEYS implies #[trigger] hist@[k]
                == region_count(d, w, x0 as int, x1 as int, y0 as int, y + 1, k) by {
                assert(region_count(d, w, x0 as int, x1 as int, y0 as int, y + 1, k)
                    == region_count(d, w, x0 as int, x1 as int, y0 as int, y as int, k)
                        + row_count(d, w, y as int, x0 as int, x1 as int, k));
            }
        }
        y = y + 1;
    }

    let mut best: usize = COLOR_KEYS - 1;
    let mut best_count: u32 = 0;
    let mut k: usize = 0;
    while k < COLOR_KEYS
        invariant
            k <= COLOR_KEYS,
            best < COLOR_KEYS,
            hist@.len() == COLOR_KEYS,
            best_count == 0 ==> best == COLOR_KEYS - 1,
            best_count > 0 ==> best_count == hist@[best as int],
            forall|j: int| 0 <= j < k ==> hist@[j] <= best_count,
        decreases COLOR_KEYS - k,
    {
        if hist[k] > best_count {
            best = k;
            best_count = hist[k];
        }
        k = k + 1;
    }

    let qr = best / 1024;
    let qg = (best / 32) % 32;
    let qb = best % 32;
    let r8 = qr as u8;
    let g8 = qg as u8;
    let b8 = qb as u8;
    let rgb = (r8 << 3, g8 << 3, b8 << 3);
    proof {
        assert(r8 < 32 ==> r8 << 3 == r8 * 8) by (bit_vector);
        assert(g8 < 32 ==> g8 << 3 == g8 * 8) by (bit_vector);
        assert(b8 < 32 ==> b8 << 3 == b8 * 8) by (bit_vector);
        assert(key_of_rgb(rgb) == best);
        assert forall|j: int| 0 <= j < COLOR_KEYS implies #[trigger] key_count(
            data@,
            width as int,
            height as int,
            j,
        ) == hist@[j] by {}
        if best_count == 0 {
            assert(!any_sampled(data@, width as int, height as int));
        }
    }
    rgb
}

/// A direction the knight can dash in, tapped twice quickly on its key.
#[derive(Clone, Copy, PartialEq, Eq, Debug, Structural)]
pub enum TapDir {
    Left,
    Right,
    Up,
    Down,
}

/// The first of Left, Right, Up, Down whose key went down this frame.
pub fn first_tap(left: bool, right: bool, up: bool, down: bool) -> (t: Option<TapDir>)
    ensures
        t == if left {
            Some(TapDir::Left)
        } else if right {
            Some(TapDir::Right)
        } else if up {
            Some(TapDir::Up)
        } else if down {
            Some(TapDir::Down)
        } else {
            None::<TapDir>
        },
{
    if left {
        Some(TapDir::Left)
    } else if right {
        Some(TapDir::Right)
    } else if up {
        Some(TapDir::Up)
    } else if down {
        Some(TapDir::Down)
    } else {
        None
    }
}

/// What a tap did.
#[derive(Clone, Copy, PartialEq, Eq, Debug, Structural)]
pub enum TapOutcome {
    /// The second tap of a double tap: dash this way (the tap window closes).
    Dash(TapDir),
    /// A first tap: the double-tap window opens for this direction.
    Armed(TapDir),
}

/// Double-tap detection for dashing.
#[derive(Clone, Copy, PartialEq, Eq, Debug, Structural)]
pub struct DashTaps {
    pub last_tap: Option<TapDir>,
}

impl DashTaps {
    pub fn new() -> (t: DashTaps)
        ensures
            t.last_tap is None,
    {
        DashTaps { last_tap: None }
    }

    /// The same direction twice within the double-tap window dashes (and
    /// disarms the window); anything else arms the window for this direction.
    pub open spec fn tapped(self, dir: TapDir, window_open: bool) -> (DashTaps, TapOutcome) {
        if self.last_tap == Some(dir) && window_open {
            (DashTaps { last_tap: None }, TapOutcome::Dash(dir))
        } else {
            (DashTaps { last_tap: Some(dir) }, TapOutcome::Armed(dir))
        }
    }

    /// A direction key went down; `window_open` says the double-tap window of
    /// the previous tap is still open.
    pub fn tap(&mut self, dir: TapDir, window_open: bool) -> (out: TapOutcome)
        ensures
            (*final(self), out) == old(self).tapped(dir, window_open),
    {
        if self.last_tap == Some(dir) && window_open {
            self.last_tap = None;
            TapOutcome::Dash(dir)
        } else {
            self.last_tap = Some(dir);
            TapOutcome::Armed(dir)
        }
    }
}

/// The knight's dash charges: a dash spends one, and spent charges come
/// back one at a time.
#[derive(Clone, Copy, PartialEq, Eq, Debug, Structural)]
pub struct DashCharges {
    pub charges: u32,
    pub max_charges: u32,
}

impl DashCharges {
    /// A full set of charges.
    pub fn full(max_charges: u32) -> (c: DashCharges)
        ensures
            c.charges == max_charges,
            c.max_charges == max_charges,
            c.wf(),
    {
        DashCharges { charges: max_charges, max_charges }
    }

    /// Never more charges than the maximum.
    pub open spec fn wf(self) -> bool {
        self.charges <= self.max_charges
    }

    /// Whether a double tap may dash: not mid-attack, not already dashing,
    /// and a charge is available.
    pub fn can_dash(&self, attacking: bool, dashing: bool) -> (ok: bool)
        ensures
            ok == (!attacking && !dashing && self.charges > 0),
    {
        !attacking && !dashing && self.charges > 0
    }

    /// The charges after a dash.
    pub open spec fn spent(self) -> DashCharges {
        DashCharges { charges: (self.charges - 1) as u32, ..self }
    }

    /// The charges after one recovery period.
    pub open spec fn recovered(self) -> DashCharges {
        DashCharges { charges: (self.charges + 1) as u32, ..self }
    }

    /// A dash spends a charge.
    pub fn spend(&mut self)
        requires
            old(self).charges > 0,
        ensures
            *final(self) == old(self).spent(),
    {
        self.charges = self.charges - 1;
    }

    /// Whether charges are missing, so the recovery timer runs.
    pub fn recovering(&self) -> (r: bool)
        ensures
            r == (self.charges < self.max_charges),
    {
        self.charges < self.max_charges
    }

    /// The recovery timer ran out: one charge returns. Returns whether
    /// another charge is still missing (so a new recovery period starts).
    pub fn recover_one(&mut self) -> (more: bool)
        requires
            old(self).charges < old(self).max_charges,
        ensures
            *final(self) == old(self).recovered(),
            more == (final(self).charges < final(self).max_charges),
    {
        self.charges = self.charges + 1;
        self.charges < self.max_charges
    }
}


/// What the caller read for the dash this frame.
#[derive(Clone, Copy, PartialEq, Eq, Debug, Structural)]
pub struct DashInput {
    /// The knight shows an attack frame.
    pub attacking: bool,
    /// A dash is still running (its time has not run out).
    pub dashing: bool,
    /// The first direction key that went down this frame, if any.
    pub tap: Option<TapDir>,
    /// The double-tap window of the previous tap is still open.
    pub window_open: bool,
    /// The recovery timer ran out this frame (it runs while charges are
    /// missing).
    pub recovery_due: bool,
}

/// The effects of one dash frame.
#[derive(Clone, Copy, PartialEq, Eq, Debug, Structural)]
pub struct DashStep {
    /// A dash starts this way (the caller sets its time, and starts the
    /// recovery timer when it is not running).
    pub dash: Option<TapDir>,
    /// The tap opened the double-tap window (the caller restarts its timer).
    pub armed: bool,
    /// A charge came back this frame.
    pub recovered: bool,
    /// Charges are still missing after the frame, so the recovery timer keeps
    /// running (restarted after a recovery); otherwise it stops at zero.
    pub recovering: bool,
}

/// One dash frame: a tap is read only when the knight may dash; a double tap
/// spends a charge and dashes; then, while charges are missing, a due
/// recovery gives one back.
pub open spec fn dash_next(t: DashTaps, c: DashCharges, input: DashInput) -> (DashTaps, DashCharges, DashStep) {
    let may = !input.attacking && !input.dashing && c.charges > 0;
    let (t1, dash, armed) = if may && input.tap is Some {
        let (t1, o) = t.tapped(input.tap->0, input.window_open);
        match o {
            TapOutcome::Dash(d) => (t1, Some(d), false),
            TapOutcome::Armed(_) => (t1, None::<TapDir>, true),
        }
    } else {
        (t, None::<TapDir>, false)
    };
    let c1 = if dash is Some {
        c.spent()
    } else {
        c
    };
    let recovered = c1.charges < c1.max_charges && input.recovery_due;
    let c2 = if recovered {
        c1.recovered()
    } else {
        c1
    };
    (t1, c2, DashStep { dash, armed, recovered, recovering: c2.charges < c2.max_charges })
}

/// One dash frame (see `dash_next`).
pub fn dash_frame(taps: &mut DashTaps, charges: &mut DashCharges, input: DashInput) -> (out: DashStep)
    requires
        old(charges).wf(),
    ensures
        (*final(taps), *final(charges), out) == dash_next(*old(taps), *old(charges), input),
        final(charges).wf(),
{
    let mut dash: Option<TapDir> = None;
    let mut armed = false;
    if charges.can_dash(input.attacking, input.dashing) {
        if let Some(dir) = input.tap {
            match taps.tap(dir, input.window_open) {
                TapOutcome::Dash(d) => {
                    charges.spend();
                    dash = Some(d);
                },
                TapOutcome::Armed(_) => {
                    armed = true;
                },
            }
        }
    }
    let mut recovered = false;
    if charges.recovering() && input.recovery_due {
        charges.recover_one();
        recovered = true;
    }
    DashStep { dash, armed, recovered, recovering: charges.recovering() }
}

/// Over a dash frame the charges stay within their maximum and move by at
/// most one either way; the recovery timer stops exactly when the charges
/// are full; and a dash starts only when the knight is free (not attacking,
/// not dashing), holds a charge and tapped the same direction twice inside
/// the window.
pub proof fn lemma_dash_frame(t: DashTaps, c: DashCharges, input: DashInput)
    requires
        c.wf(),
    ensures
        ({
            let (t2, c2, out) = dash_next(t, c, input);
            &&& c2.wf()
            &&& c.charges - 1 <= c2.charges <= c.charges + 1
            &&& (!out.recovering <==> c2.charges == c2.max_charges)
            &&& (out.dash matches Some(d) ==> !input.attacking && !input.dashing && c.charges > 0
                && input.tap == Some(d) && t.last_tap == Some(d) && input.window_open)
        }),
{
}

/// Charges stay within their maximum: a dash needs a charge, recovery only
/// runs while charges are missing, and a dash followed by a recovery gives
/// back the same count.
pub proof fn lemma_charges_bounded(c: DashCharges)
    requires
        c.wf(),
    ensures
        c.charges > 0 ==> c.spent().wf() && c.spent().charges < c.max_charges,
        c.charges > 0 ==> c.spent().recovered() == c,
        c.charges < c.max_charges ==> c.recovered().wf(),
{
}

/// Two taps of one direction inside the window dash, and the dash disarms
/// the window: a third tap right after only arms it again.
pub proof fn lemma_double_tap(t: DashTaps, dir: TapDir)
    ensures
        ({
            let (t1, o1) = t.tapped(dir, false);
            let (t2, o2) = t1.tapped(dir, true);
            let (t3, o3) = t2.tapped(dir, true);
            &&& o1 == TapOutcome::Armed(dir)
            &&& o2 == TapOutcome::Dash(dir)
            &&& o3 == TapOutcome::Armed(dir)
        }),
        ({
            let (t1, _) = t.tapped(dir, true);
            t1.last_tap is None || t1.last_tap == Some(dir)
        }),
{
}

} // verus!
