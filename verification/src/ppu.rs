//! Pixel-processing unit: a mode-based scanline renderer driven by a dot
//! counter.  Each scanline is 456 dots (OAM scan, drawing, horizontal
//! blank); lines 144-153 are the vertical blank; the whole frame is 154
//! lines.  The scanline's pixels are composed in one shot at the
//! drawing-to-blank boundary.

use vstd::prelude::*;

use arrayvec::ArrayVec;

use crate::oam_buf::{oam_buf_get, oam_buf_items, oam_buf_len, oam_buf_new, oam_buf_push, ObjEntry};

verus! {

pub const OUTPUT_WIDTH: u16 = 160;

pub const OUTPUT_HEIGHT: u16 = 144;

/// Dots per scanline.
pub const LINE_DOTS: u16 = 456;

/// Lines per frame, vertical blank included.
pub const FRAME_LINES: u16 = 154;

/// One output pixel as an RGB triple.
#[derive(Debug, Clone, Copy, PartialEq, Eq, Structural)]
pub struct Pixel {
    pub r: u8,
    pub g: u8,
    pub b: u8,
}

impl Pixel {
    pub fn black() -> (p: Pixel)
        ensures
            p == (Pixel { r: 0, g: 0, b: 0 }),
    {
        Pixel { r: 0, g: 0, b: 0 }
    }

    pub fn white() -> (p: Pixel)
        ensures
            p == (Pixel { r: 0xFF, g: 0xFF, b: 0xFF }),
    {
        Pixel { r: 0xFF, g: 0xFF, b: 0xFF }
    }

    pub fn light_gray() -> (p: Pixel)
        ensures
            p == (Pixel { r: 0x60, g: 0x60, b: 0x60 }),
    {
        Pixel { r: 0x60, g: 0x60, b: 0x60 }
    }

    pub fn dark_gray() -> (p: Pixel)
        ensures
            p == (Pixel { r: 0xB0, g: 0xB0, b: 0xB0 }),
    {
        Pixel { r: 0xB0, g: 0xB0, b: 0xB0 }
    }
}

/// A byte of a sequence; out-of-range indices read as zero (the renderer
/// proves its indices in range, the guard only keeps the functions
/// total).
pub open spec fn byte_at(s: Seq<u8>, i: int) -> int {
    if 0 <= i < s.len() {
        s[i] as int
    } else {
        0
    }
}

/// Bit `k` of a byte value, as 0 or 1.
pub open spec fn bit_of(b: int, k: int) -> int {
    if k == 0 {
        b % 2
    } else if k == 1 {
        b / 2 % 2
    } else if k == 2 {
        b / 4 % 2
    } else if k == 3 {
        b / 8 % 2
    } else if k == 4 {
        b / 16 % 2
    } else if k == 5 {
        b / 32 % 2
    } else if k == 6 {
        b / 64 % 2
    } else {
        b / 128 % 2
    }
}

/// The 2-bit color index of column `col` in row `row` of the tile whose
/// bitplanes start at `base`: the low plane in the even byte, the high
/// plane in the odd byte, leftmost pixel in bit 7.
pub open spec fn tile_pixel(vram: Seq<u8>, base: int, row: int, col: int) -> int {
    let lo = byte_at(vram, base + 2 * row);
    let hi = byte_at(vram, base + 2 * row + 1);
    bit_of(lo, 7 - col) + 2 * bit_of(hi, 7 - col)
}

// The LCDC control bits.
pub open spec fn lcdc_bg_enabled(l: int) -> bool {
    l % 2 == 1
}

pub open spec fn lcdc_obj_enabled(l: int) -> bool {
    l / 2 % 2 == 1
}

pub open spec fn lcdc_obj_tall(l: int) -> bool {
    l / 4 % 2 == 1
}

pub open spec fn lcdc_bg_map_hi(l: int) -> bool {
    l / 8 % 2 == 1
}

pub open spec fn lcdc_addr_unsigned(l: int) -> bool {
    l / 16 % 2 == 1
}

pub open spec fn lcdc_win_enabled(l: int) -> bool {
    l / 32 % 2 == 1
}

pub open spec fn lcdc_win_map_hi(l: int) -> bool {
    l / 64 % 2 == 1
}

pub open spec fn lcdc_ppu_on(l: int) -> bool {
    l / 128 % 2 == 1
}

/// The VRAM offset of the bitplanes of a background/window tile byte
/// under the selected addressing mode: plain from `$8000`, or signed
/// around `$9000`.
pub open spec fn bg_tile_base(l: int, t: int) -> int {
    if lcdc_addr_unsigned(l) {
        t * 16
    } else if t < 128 {
        0x1000 + t * 16
    } else {
        0x1000 + (t - 256) * 16
    }
}

/// The DMG shade (0-3) a palette byte assigns to a color index.
pub open spec fn palette_shade(pal: int, ci: int) -> int {
    if ci == 0 {
        pal % 4
    } else if ci == 1 {
        pal / 4 % 4
    } else if ci == 2 {
        pal / 16 % 4
    } else {
        pal / 64 % 4
    }
}

/// The monochrome color of a shade.
pub open spec fn shade_pixel(sh: int) -> Pixel {
    if sh == 0 {
        Pixel { r: 0xFF, g: 0xFF, b: 0xFF }
    } else if sh == 1 {
        Pixel { r: 0x60, g: 0x60, b: 0x60 }
    } else if sh == 2 {
        Pixel { r: 0xB0, g: 0xB0, b: 0xB0 }
    } else {
        Pixel { r: 0, g: 0, b: 0 }
    }
}

/// The object entry at OAM slot `i`: `(y, x, tile, attributes)`.
pub open spec fn entry_of(oam: Seq<u8>, i: int) -> ObjEntry {
    (
        byte_at(oam, 4 * i) as u8,
        byte_at(oam, 4 * i + 1) as u8,
        byte_at(oam, 4 * i + 2) as u8,
        byte_at(oam, 4 * i + 3) as u8,
    )
}

/// Whether OAM slot `i` covers scanline `ly`.
pub open spec fn obj_covers(oam: Seq<u8>, i: int, ly: int, tall: bool) -> bool {
    let y = byte_at(oam, 4 * i);
    let h = if tall {
        16int
    } else {
        8
    };
    y <= ly + 16 < y + h
}

/// The first (up to ten) OAM slots among `0..n` that cover the scanline,
/// in OAM order.
pub open spec fn selected_objs(oam: Seq<u8>, ly: int, tall: bool, n: int) -> Seq<int>
    decreases n,
{
    if n <= 0 {
        Seq::empty()
    } else {
        let prev = selected_objs(oam, ly, tall, n - 1);
        if prev.len() < 10 && obj_covers(oam, n - 1, ly, tall) {
            prev.push(n - 1)
        } else {
            prev
        }
    }
}

/// The 2-bit color index an object entry contributes at screen column
/// `x` of scanline `ly`; 0 both for transparency and for columns the
/// object does not span.
pub open spec fn obj_pixel_ci(vram: Seq<u8>, ly: int, e: ObjEntry, x: int, tall: bool) -> int {
    let h = if tall {
        16int
    } else {
        8
    };
    if e.1 <= x + 8 < e.1 + 8 {
        let col0 = x + 8 - e.1;
        let col = if bit_of(e.3 as int, 5) == 1 {
            7 - col0
        } else {
            col0
        };
        let row0 = ly + 16 - e.0;
        let row = if bit_of(e.3 as int, 6) == 1 {
            h - 1 - row0
        } else {
            row0
        };
        let t = if tall {
            e.2 as int - e.2 as int % 2 + (if row >= 8 {
                1int
            } else {
                0
            })
        } else {
            e.2 as int
        };
        if 0 <= row0 < h {
            tile_pixel(vram, t * 16, row % 8, col)
        } else {
            0
        }
    } else {
        0
    }
}

/// The position (within the collected entries) of the object that wins
/// column `x` among the first `n` entries: the smallest X position with
/// an opaque pixel there; ties keep the earlier OAM slot.
pub open spec fn win_pos_upto(
    vram: Seq<u8>,
    ly: int,
    ents: Seq<ObjEntry>,
    x: int,
    tall: bool,
    n: int,
) -> Option<int>
    decreases n,
{
    if n <= 0 {
        None
    } else {
        let prev = win_pos_upto(vram, ly, ents, x, tall, n - 1);
        if obj_pixel_ci(vram, ly, ents[n - 1], x, tall) != 0 {
            match prev {
                None => Some(n - 1),
                Some(p) => if (ents[n - 1].1 as int) < (ents[p].1 as int) {
                    Some(n - 1)
                } else {
                    prev
                },
            }
        } else {
            prev
        }
    }
}

/// The PPU state.
#[derive(Debug)]
pub struct Ppu {
    /// Whether this is a color machine (two VRAM banks).
    pub color: bool,
    pub vram: Vec<u8>,
    pub vram_bank: u8,
    pub oam: Vec<u8>,
    pub frame: Vec<Pixel>,
    pub frame_ready: bool,
    pub lcdc: u8,
    /// The writable STAT bits 3-6 (the interrupt selects), stored as a
    /// four-bit value.
    pub stat_sel: u8,
    /// The previous level of the STAT interrupt line, for edge detection.
    pub stat_line: bool,
    pub scy: u8,
    pub scx: u8,
    pub ly: u8,
    pub lyc: u8,
    pub wy: u8,
    pub wx: u8,
    pub window_line: u8,
    /// The dot within the current scanline, `0..456`.
    pub line_dot: u16,
    pub bgp: u8,
    pub obp0: u8,
    pub obp1: u8,
    pub bcps: u8,
    pub ocps: u8,
    pub bcg_palette: Vec<u8>,
    pub obj_palette: Vec<u8>,
}

impl Ppu {
    /// The structural invariant.
    pub open spec fn wf(self) -> bool {
        &&& self.vram@.len() == (if self.color {
            0x4000int
        } else {
            0x2000
        })
        &&& (!self.color ==> self.vram_bank == 0)
        &&& self.vram_bank < 2
        &&& self.oam@.len() == 0xA0
        &&& self.frame@.len() == 160 * 144
        &&& self.ly < 154
        &&& self.line_dot < 456
        &&& self.stat_sel < 16
        &&& self.bcg_palette@.len() == 64
        &&& self.obj_palette@.len() == 64
    }

    /// The mode as read from `STAT`: 0 while the PPU is off, 1 in the
    /// vertical blank, else per the dot within the line.
    pub open spec fn mode_spec(self) -> int {
        if !lcdc_ppu_on(self.lcdc as int) {
            0
        } else if self.ly >= 144 {
            1
        } else if self.line_dot < 80 {
            2
        } else if self.line_dot < 320 {
            3
        } else {
            0
        }
    }

    /// The STAT interrupt line: the OR of the four selectable sources;
    /// low while the PPU is off.
    pub open spec fn stat_line_spec(self) -> bool {
        let sel = self.stat_sel as int;
        lcdc_ppu_on(self.lcdc as int) && ((bit_of(sel, 0) == 1 && self.mode_spec() == 0) || (bit_of(
            sel,
            1,
        ) == 1 && self.mode_spec() == 1) || (bit_of(sel, 2) == 1 && self.mode_spec() == 2) || (
        bit_of(sel, 3) == 1 && self.ly == self.lyc))
    }

    /// The value `STAT` reads: bit 7 set, the selects, the compare flag
    /// and the mode.
    pub open spec fn stat_read_spec(self) -> int {
        0x80 + self.stat_sel as int * 8 + (if self.ly == self.lyc {
            4int
        } else {
            0
        }) + self.mode_spec()
    }

    /// The color index of the background/window layer at column `x` of
    /// the current scanline: window pixels where the window is enabled
    /// and reaches the column, scrolled background otherwise.
    pub open spec fn bg_win_ci(self, x: int) -> int {
        let l = self.lcdc as int;
        if lcdc_win_enabled(l) && self.wy <= self.ly && x + 7 >= self.wx {
            let wcol = x + 7 - self.wx;
            let wrow = self.window_line as int;
            let map = if lcdc_win_map_hi(l) {
                0x1C00int
            } else {
                0x1800
            };
            let t = byte_at(self.vram@, map + wrow / 8 * 32 + wcol / 8);
            tile_pixel(self.vram@, bg_tile_base(l, t), wrow % 8, wcol % 8)
        } else {
            let bx = (x + self.scx) % 256;
            let by = (self.ly + self.scy) % 256;
            let map = if lcdc_bg_map_hi(l) {
                0x1C00int
            } else {
                0x1800
            };
            let t = byte_at(self.vram@, map + by / 8 * 32 + bx / 8);
            tile_pixel(self.vram@, bg_tile_base(l, t), by % 8, bx % 8)
        }
    }

    /// Whether the window contributes to the current scanline at all (the
    /// internal window-line counter advances on such lines).
    pub open spec fn window_visible_line(self) -> bool {
        lcdc_win_enabled(self.lcdc as int) && self.wy <= self.ly && self.wx <= 166
    }

    /// The entries collected by the OAM scan for the current scanline.
    pub open spec fn scan_entries(self) -> Seq<ObjEntry> {
        selected_objs(self.oam@, self.ly as int, lcdc_obj_tall(self.lcdc as int), 40).map(
            |k: int, j: int| entry_of(self.oam@, j),
        )
    }

    /// The winning object entry at column `x`, if any.
    pub open spec fn obj_winner(self, x: int) -> Option<ObjEntry> {
        let ents = self.scan_entries();
        match win_pos_upto(
            self.vram@,
            self.ly as int,
            ents,
            x,
            lcdc_obj_tall(self.lcdc as int),
            ents.len() as int,
        ) {
            Some(p) => Some(ents[p]),
            None => None,
        }
    }

    /// The pixel the renderer emits at column `x` of the current
    /// scanline: white when the background layer is disabled; otherwise
    /// the winning object pixel when one exists and either carries
    /// priority or sits over background color 0; otherwise the
    /// background through `BGP`.
    pub open spec fn row_pixel_spec(self, x: int) -> Pixel {
        let l = self.lcdc as int;
        if !lcdc_bg_enabled(l) {
            Pixel { r: 0xFF, g: 0xFF, b: 0xFF }
        } else {
            let bgci = self.bg_win_ci(x);
            let winner = if lcdc_obj_enabled(l) {
                self.obj_winner(x)
            } else {
                None
            };
            match winner {
                Some(e) => {
                    let oci = obj_pixel_ci(
                        self.vram@,
                        self.ly as int,
                        e,
                        x,
                        lcdc_obj_tall(l),
                    );
                    if bit_of(e.3 as int, 7) == 0 || bgci == 0 {
                        let pal = if bit_of(e.3 as int, 4) == 1 {
                            self.obp1 as int
                        } else {
                            self.obp0 as int
                        };
                        shade_pixel(palette_shade(pal, oci))
                    } else {
                        shade_pixel(palette_shade(self.bgp as int, bgci))
                    }
                }
                None => shade_pixel(palette_shade(self.bgp as int, bgci)),
            }
        }
    }

    /// The whole rendered scanline.
    pub open spec fn rendered_row(self) -> Seq<Pixel> {
        Seq::new(160, |x: int| self.row_pixel_spec(x))
    }

    /// A powered-on PPU with zeroed memories, sized for the variant.
    pub fn new(color: bool) -> (r: Ppu)
        ensures
            r.wf(),
            r.color == color,
            r.ly == 0,
            r.line_dot == 0,
            r.lcdc == 0,
            r.frame_ready == false,
            r.vram@ =~= Seq::new(if color { 0x4000nat } else { 0x2000 }, |i: int| 0u8),
            r.oam@ =~= Seq::new(0xA0nat, |i: int| 0u8),
    {
        let vram_len: usize = if color {
            0x4000
        } else {
            0x2000
        };
        Ppu {
            color,
            vram: zeroed_bytes(vram_len),
            vram_bank: 0,
            oam: zeroed_bytes(0xA0),
            frame: zeroed_frame(),
            frame_ready: false,
            lcdc: 0,
            stat_sel: 0,
            stat_line: false,
            scy: 0,
            scx: 0,
            ly: 0,
            lyc: 0,
            wy: 0,
            wx: 0,
            window_line: 0,
            line_dot: 0,
            bgp: 0,
            obp0: 0,
            obp1: 0,
            bcps: 0,
            ocps: 0,
            bcg_palette: zeroed_bytes(64),
            obj_palette: zeroed_bytes(64),
        }
    }

    fn vram_byte(&self, idx: usize) -> (r: u8)
        requires
            self.wf(),
            idx < 0x2000,
        ensures
            r as int == byte_at(self.vram@, idx as int),
    {
        self.vram[idx]
    }

    fn tile_pixel_exec(&self, base: usize, row: u8, col: u8) -> (r: u8)
        requires
            self.wf(),
            base + 2 * row + 1 < 0x2000,
            row < 8,
            col < 8,
        ensures
            r as int == tile_pixel(self.vram@, base as int, row as int, col as int),
            r < 4,
    {
        let lo = self.vram_byte(base + 2 * (row as usize));
        let hi = self.vram_byte(base + 2 * (row as usize) + 1);
        bit8(lo, 7 - col) + 2 * bit8(hi, 7 - col)
    }

    /// The color index of the background/window layer at column `x`.
    fn bg_win_ci_exec(&self, x: u8) -> (ci: u8)
        requires
            self.wf(),
            x < 160,
        ensures
            ci as int == self.bg_win_ci(x as int),
            ci < 4,
    {
        let l = self.lcdc;
        if l / 32 % 2 == 1 && self.wy <= self.ly && x as u16 + 7 >= self.wx as u16 {
            let wcol = (x as u16 + 7 - self.wx as u16) as usize;
            let wrow = self.window_line as usize;
            let map: usize = if l / 64 % 2 == 1 {
                0x1C00
            } else {
                0x1800
            };
            let t = self.vram_byte(map + wrow / 8 * 32 + wcol / 8);
            let base = bg_tile_base_exec(l, t);
            self.tile_pixel_exec(base, (wrow % 8) as u8, (wcol % 8) as u8)
        } else {
            let bx = ((x as u16 + self.scx as u16) % 256) as usize;
            let by = ((self.ly as u16 + self.scy as u16) % 256) as usize;
            let map: usize = if l / 8 % 2 == 1 {
                0x1C00
            } else {
                0x1800
            };
            let t = self.vram_byte(map + by / 8 * 32 + bx / 8);
            let base = bg_tile_base_exec(l, t);
            self.tile_pixel_exec(base, (by % 8) as u8, (bx % 8) as u8)
        }
    }

    /// The color index an object entry contributes at column `x`.
    fn obj_entry_ci(&self, e: ObjEntry, x: u8) -> (ci: u8)
        requires
            self.wf(),
            x < 160,
        ensures
            ci as int == obj_pixel_ci(
                self.vram@,
                self.ly as int,
                e,
                x as int,
                lcdc_obj_tall(self.lcdc as int),
            ),
            ci < 4,
    {
        let tall = self.lcdc / 4 % 2 == 1;
        let h: u16 = if tall {
            16
        } else {
            8
        };
        let xs = x as u16 + 8;
        if e.1 as u16 <= xs && xs < e.1 as u16 + 8 {
            let col0 = (xs - e.1 as u16) as u8;
            let col: u8 = if e.3 / 32 % 2 == 1 {
                7 - col0
            } else {
                col0
            };
            let lys = self.ly as u16 + 16;
            if e.0 as u16 <= lys && lys < e.0 as u16 + h {
                let row0 = lys - e.0 as u16;
                let row: u16 = if e.3 / 64 % 2 == 1 {
                    h - 1 - row0
                } else {
                    row0
                };
                let t: usize = if tall {
                    e.2 as usize - e.2 as usize % 2 + (if row >= 8 {
                        1
                    } else {
                        0
                    })
                } else {
                    e.2 as usize
                };
                self.tile_pixel_exec(t * 16, (row % 8) as u8, col)
            } else {
                0
            }
        } else {
            0
        }
    }

    /// Collect the up-to-ten objects of the current scanline, in OAM
    /// order.
    fn scan_objects(&self) -> (buf: ArrayVec<ObjEntry, 10>)
        requires
            self.wf(),
        ensures
            oam_buf_items(buf) =~= self.scan_entries(),
    {
        let tall = self.lcdc / 4 % 2 == 1;
        let h: u16 = if tall {
            16
        } else {
            8
        };
        let lys = self.ly as u16 + 16;
        let mut buf = oam_buf_new();
        let mut i: usize = 0;
        let ghost sel0 = selected_objs(self.oam@, self.ly as int, tall, 0);
        while i < 40
            invariant
                self.wf(),
                i <= 40,
                tall == lcdc_obj_tall(self.lcdc as int),
                h == (if tall { 16int } else { 8 }),
                lys == self.ly as int + 16,
                oam_buf_items(buf).len() == selected_objs(
                    self.oam@,
                    self.ly as int,
                    tall,
                    i as int,
                ).len(),
                forall|k: int|
                    0 <= k < oam_buf_items(buf).len() ==> oam_buf_items(buf)[k] == entry_of(
                        self.oam@,
                        selected_objs(self.oam@, self.ly as int, tall, i as int)[k],
                    ),
            decreases 40 - i,
        {
            let ghost sel_pre = selected_objs(self.oam@, self.ly as int, tall, i as int);
            let y = self.oam[4 * i];
            let covers = y as u16 <= lys && lys < y as u16 + h;
            if oam_buf_len(&buf) < 10 && covers {
                let e = (self.oam[4 * i], self.oam[4 * i + 1], self.oam[4 * i + 2], self.oam[4 * i
                    + 3]);
                oam_buf_push(&mut buf, e);
            }
            i = i + 1;
        }
        proof {
            let ents = self.scan_entries();
            let sel = selected_objs(self.oam@, self.ly as int, lcdc_obj_tall(self.lcdc as int), 40);
            assert(forall|k: int| 0 <= k < sel.len() ==> ents[k] == entry_of(self.oam@, sel[k]));
        }
        buf
    }

    /// Pick the winning object at column `x`: smallest X position with an
    /// opaque pixel, earlier OAM slot on ties.
    fn obj_winner_pick(&self, buf: &ArrayVec<ObjEntry, 10>, x: u8) -> (r: Option<ObjEntry>)
        requires
            self.wf(),
            x < 160,
            oam_buf_items(*buf) == self.scan_entries(),
        ensures
            r == self.obj_winner(x as int),
    {
        let ghost ents = self.scan_entries();
        let ghost tall = lcdc_obj_tall(self.lcdc as int);
        let n = oam_buf_len(buf);
        let mut best: Option<ObjEntry> = None;
        let ghost mut best_pos: int = 0;
        let mut k: usize = 0;
        while k < n
            invariant
                self.wf(),
                x < 160,
                oam_buf_items(*buf) == ents,
                ents == self.scan_entries(),
                tall == lcdc_obj_tall(self.lcdc as int),
                n == ents.len(),
                k <= n,
                match win_pos_upto(self.vram@, self.ly as int, ents, x as int, tall, k as int) {
                    Some(p) => 0 <= p < k && best == Some(ents[p]) && best_pos == p,
                    None => best is None,
                },
            decreases n - k,
        {
            let e = oam_buf_get(buf, k);
            let ci = self.obj_entry_ci(e, x);
            if ci != 0 {
                match best {
                    None => {
                        best = Some(e);
                        proof {
                            best_pos = k as int;
                        }
                    }
                    Some(be) => {
                        if e.1 < be.1 {
                            best = Some(e);
                            proof {
                                best_pos = k as int;
                            }
                        }
                    }
                }
            }
            k = k + 1;
        }
        best
    }

    /// Render the current scanline into the frame buffer and advance the
    /// internal window-line counter when the window showed on this line.
    fn render_scanline(&mut self)
        requires
            old(self).wf(),
            old(self).ly < 144,
        ensures
            final(self).wf(),
            final(self).frame@.len() == old(self).frame@.len(),
            forall|i: int|
                0 <= i < final(self).frame@.len() && !(old(self).ly as int * 160 <= i < old(
                    self,
                ).ly as int * 160 + 160) ==> final(self).frame@[i] == old(self).frame@[i],
            forall|x: int|
                0 <= x < 160 ==> final(self).frame@[old(self).ly as int * 160 + x] == old(
                    self,
                ).row_pixel_spec(x),
            final(self).window_line == (if old(self).window_visible_line() {
                old(self).window_line.wrapping_add(1)
            } else {
                old(self).window_line
            }),
            *final(self) == (Ppu {
                frame: final(self).frame,
                window_line: final(self).window_line,
                ..*old(self)
            }),
    {
        let buf = self.scan_objects();
        let row_base = self.ly as usize * 160;
        let mut x: usize = 0;
        while x < 160
            invariant
                old(self).wf(),
                old(self).ly < 144,
                self.wf(),
                *self == (Ppu { frame: self.frame, ..*old(self) }),
                self.frame@.len() == old(self).frame@.len(),
                oam_buf_items(buf) == self.scan_entries(),
                row_base == old(self).ly as int * 160,
                x <= 160,
                forall|i: int|
                    0 <= i < self.frame@.len() && !(row_base <= i < row_base + x) ==> self.frame@[i]
                        == old(self).frame@[i],
                forall|j: int|
                    0 <= j < x ==> self.frame@[row_base + j] == old(self).row_pixel_spec(j),
            decreases 160 - x,
        {
            let px: Pixel;
            if self.lcdc % 2 == 0 {
                px = Pixel::white();
            } else {
                let bgci = self.bg_win_ci_exec(x as u8);
                let winner = if self.lcdc / 2 % 2 == 1 {
                    self.obj_winner_pick(&buf, x as u8)
                } else {
                    None
                };
                match winner {
                    Some(e) => {
                        let oci = self.obj_entry_ci(e, x as u8);
                        if e.3 / 128 % 2 == 0 || bgci == 0 {
                            let pal = if e.3 / 16 % 2 == 1 {
                                self.obp1
                            } else {
                                self.obp0
                            };
                            px = shade_pixel_exec(palette_shade_exec(pal, oci));
                        } else {
                            px = shade_pixel_exec(palette_shade_exec(self.bgp, bgci));
                        }
                    }
                    None => {
                        px = shade_pixel_exec(palette_shade_exec(self.bgp, bgci));
                    }
                }
            }
            self.frame.set(row_base + x, px);
            x = x + 1;
        }
        let visible = self.lcdc / 32 % 2 == 1 && self.wy <= self.ly && self.wx <= 166;
        if visible {
            self.window_line = self.window_line.wrapping_add(1);
        }
    }
}

/// One step of the line clock: the dot advances modulo 456, and `LY`
/// advances modulo 154 when the line ends.
pub open spec fn line_clock_next(ly: int, dot: int) -> (int, int) {
    if dot == 455 {
        ((ly + 1) % 154, 0)
    } else {
        (ly, dot + 1)
    }
}

/// The line clock iterated `n` dots.
pub open spec fn line_clock_iter(ly: int, dot: int, n: nat) -> (int, int)
    decreases n,
{
    if n == 0 {
        (ly, dot)
    } else {
        let p = line_clock_iter(ly, dot, (n - 1) as nat);
        line_clock_next(p.0, p.1)
    }
}

/// Iterating the line clock splits over sums of dot counts.
pub proof fn lemma_line_clock_iter_add(ly: int, dot: int, a: nat, b: nat)
    ensures
        line_clock_iter(ly, dot, a + b) == line_clock_iter(
            line_clock_iter(ly, dot, a).0,
            line_clock_iter(ly, dot, a).1,
            b,
        ),
    decreases b,
{
    if b == 0 {
    } else {
        lemma_line_clock_iter_add(ly, dot, a, (b - 1) as nat);
        assert(a + b == (a + (b - 1) as nat) + 1);
    }
}

proof fn lemma_line_clock_runs_line(ly: int, dot: int, k: nat)
    requires
        0 <= dot,
        dot + k <= 455,
    ensures
        line_clock_iter(ly, dot, k) == (ly, dot + k),
    decreases k,
{
    if k > 0 {
        lemma_line_clock_runs_line(ly, dot, (k - 1) as nat);
    }
}

/// From a line start, one full scanline of 456 dots advances `LY` by
/// exactly one, modulo the 154 lines of a frame.
pub proof fn lemma_ly_one_line(ly: int)
    ensures
        line_clock_iter(ly, 0, 456) == ((ly + 1) % 154, 0int),
{
    lemma_line_clock_runs_line(ly, 0, 455);
    assert(line_clock_iter(ly, 0, 456) == line_clock_next(ly, 455));
}

/// `LY` is strictly periodic in whole scanlines while the PPU runs: from
/// a line start at line `ly`, after `m` scanlines the machine is at a
/// line start of line `(ly + m) % 154`.  In particular 154 lines return
/// to the same line: the period of `LY` is 154 lines.
pub proof fn lemma_ly_periodic(ly: int, m: nat)
    requires
        0 <= ly < 154,
    ensures
        line_clock_iter(ly, 0, m * 456) == ((ly + m) % 154, 0int),
    decreases m,
{
    if m == 0 {
        assert(ly % 154 == ly) by {
            vstd::arithmetic::div_mod::lemma_small_mod(ly as nat, 154);
        }
    } else {
        let m1 = (m - 1) as nat;
        lemma_ly_periodic(ly, m1);
        let mid = ((ly + m1) % 154, 0int);
        assert(m * 456 == m1 * 456 + 456) by (nonlinear_arith)
            requires
                m == m1 + 1,
        ;
        lemma_line_clock_iter_add(ly, 0, m1 * 456, 456);
        lemma_ly_one_line(mid.0);
        assert(((ly + m1) % 154 + 1) % 154 == (ly + m) % 154) by {
            vstd::arithmetic::div_mod::lemma_add_mod_noop(ly + m1, 1, 154);
            vstd::arithmetic::div_mod::lemma_mod_twice(ly + m, 154);
        }
    }
}

impl Ppu {
    /// The mode field as read through `STAT`.
    pub fn ppu_mode(&self) -> (r: u8)
        ensures
            r as int == self.mode_spec(),
    {
        if self.lcdc / 128 % 2 == 0 {
            0
        } else if self.ly >= 144 {
            1
        } else if self.line_dot < 80 {
            2
        } else if self.line_dot < 320 {
            3
        } else {
            0
        }
    }

    /// The current level of the STAT interrupt line.
    fn stat_line_now(&self) -> (r: bool)
        ensures
            r == self.stat_line_spec(),
    {
        if self.lcdc / 128 % 2 == 0 {
            return false;
        }
        let mode = self.ppu_mode();
        (self.stat_sel % 2 == 1 && mode == 0) || (self.stat_sel / 2 % 2 == 1 && mode == 1) || (
        self.stat_sel / 4 % 2 == 1 && mode == 2) || (self.stat_sel / 8 % 2 == 1 && self.ly
            == self.lyc)
    }

    /// The value `STAT` reads.
    pub fn get_stat(&self) -> (r: u8)
        requires
            self.wf(),
        ensures
            r as int == self.stat_read_spec(),
    {
        let mut r: u8 = 0x80 + self.stat_sel * 8;
        if self.ly == self.lyc {
            r = r + 4;
        }
        r + self.ppu_mode()
    }

    /// A write to `STAT` keeps only the four interrupt-select bits.
    pub fn set_stat(&mut self, v: u8)
        ensures
            *final(self) == (Ppu { stat_sel: (v as int / 8 % 16) as u8, ..*old(self) }),
    {
        self.stat_sel = v / 8 % 16;
    }

    /// A write to `LCDC`.  Turning the PPU off forces `LY` and the dot
    /// counter to zero; re-enabling therefore starts at the OAM scan of
    /// line zero.
    pub fn set_lcdc(&mut self, v: u8)
        requires
            old(self).wf(),
        ensures
            final(self).wf(),
            final(self).lcdc == v,
            !lcdc_ppu_on(v as int) ==> final(self).ly == 0 && final(self).line_dot == 0,
            lcdc_ppu_on(v as int) ==> final(self).ly == old(self).ly && final(self).line_dot == old(
                self,
            ).line_dot,
            *final(self) == (Ppu {
                lcdc: v,
                ly: final(self).ly,
                line_dot: final(self).line_dot,
                ..*old(self)
            }),
    {
        self.lcdc = v;
        if v / 128 % 2 == 0 {
            self.ly = 0;
            self.line_dot = 0;
        }
    }

    /// Read VRAM through the selected bank.
    pub fn read_vram(&self, rel: u16) -> (r: u8)
        requires
            self.wf(),
            rel < 0x2000,
        ensures
            r == self.vram@[rel as int + self.vram_bank as int * 0x2000],
    {
        self.vram[rel as usize + self.vram_bank as usize * 0x2000]
    }

    /// Store into VRAM through the selected bank.
    pub fn write_vram(&mut self, rel: u16, v: u8)
        requires
            old(self).wf(),
            rel < 0x2000,
        ensures
            final(self).wf(),
            final(self).vram@ == old(self).vram@.update(
                rel as int + old(self).vram_bank as int * 0x2000,
                v,
            ),
            *final(self) == (Ppu { vram: final(self).vram, ..*old(self) }),
    {
        self.vram.set(rel as usize + self.vram_bank as usize * 0x2000, v);
    }

    /// Read an OAM byte.
    pub fn read_oam(&self, rel: u16) -> (r: u8)
        requires
            self.wf(),
            rel < 0xA0,
        ensures
            r == self.oam@[rel as int],
    {
        self.oam[rel as usize]
    }

    /// Store an OAM byte.
    pub fn write_oam(&mut self, rel: u16, v: u8)
        requires
            old(self).wf(),
            rel < 0xA0,
        ensures
            final(self).wf(),
            final(self).oam@ == old(self).oam@.update(rel as int, v),
            *final(self) == (Ppu { oam: final(self).oam, ..*old(self) }),
    {
        self.oam.set(rel as usize, v);
    }

    /// The `VBK` register: the bank bit under set upper bits.
    pub fn read_vbk(&self) -> (r: u8)
        requires
            self.wf(),
        ensures
            r as int == 0xFE + self.vram_bank as int,
    {
        0xFE + self.vram_bank
    }

    /// A write to `VBK` selects the VRAM bank on a color machine and is
    /// dropped on a monochrome one.
    pub fn write_vbk(&mut self, v: u8)
        requires
            old(self).wf(),
        ensures
            final(self).wf(),
            old(self).color ==> *final(self) == (Ppu {
                vram_bank: (v as int % 2) as u8,
                ..*old(self)
            }),
            !old(self).color ==> *final(self) == *old(self),
    {
        if self.color {
            self.vram_bank = v % 2;
        }
    }

    /// Read the color palette byte `BCPS` points at.
    pub fn read_bcpd(&self) -> (r: u8)
        requires
            self.wf(),
        ensures
            r == self.bcg_palette@[self.bcps as int % 32],
    {
        self.bcg_palette[self.bcps as usize % 32]
    }

    /// Write the color palette byte `BCPS` points at; with the
    /// auto-increment bit set the index advances, wrapping within the
    /// palette memory.
    pub fn write_bcpd(&mut self, v: u8)
        requires
            old(self).wf(),
        ensures
            final(self).wf(),
            final(self).bcg_palette@ == old(self).bcg_palette@.update(old(self).bcps as int % 32, v),
            final(self).bcps as int == (if old(self).bcps >= 128 {
                128 + (old(self).bcps as int % 32 + 1) % 32
            } else {
                old(self).bcps as int
            }),
            *final(self) == (Ppu {
                bcg_palette: final(self).bcg_palette,
                bcps: final(self).bcps,
                ..*old(self)
            }),
    {
        self.bcg_palette.set(self.bcps as usize % 32, v);
        if self.bcps >= 128 {
            self.bcps = 128 + (self.bcps % 32 + 1) % 32;
        }
    }

    /// Read the object palette byte `OCPS` points at.
    pub fn read_ocpd(&self) -> (r: u8)
        requires
            self.wf(),
        ensures
            r == self.obj_palette@[self.ocps as int % 32],
    {
        self.obj_palette[self.ocps as usize % 32]
    }

    /// Write the object palette byte `OCPS` points at, with the same
    /// auto-increment rule as the background palette port.
    pub fn write_ocpd(&mut self, v: u8)
        requires
            old(self).wf(),
        ensures
            final(self).wf(),
            final(self).obj_palette@ == old(self).obj_palette@.update(old(self).ocps as int % 32, v),
            final(self).ocps as int == (if old(self).ocps >= 128 {
                128 + (old(self).ocps as int % 32 + 1) % 32
            } else {
                old(self).ocps as int
            }),
            *final(self) == (Ppu {
                obj_palette: final(self).obj_palette,
                ocps: final(self).ocps,
                ..*old(self)
            }),
    {
        self.obj_palette.set(self.ocps as usize % 32, v);
        if self.ocps >= 128 {
            self.ocps = 128 + (self.ocps % 32 + 1) % 32;
        }
    }

    /// Copy the frame buffer out and clear the frame-ready latch.
    pub fn get_frame(&mut self) -> (r: Vec<Pixel>)
        requires
            old(self).wf(),
        ensures
            final(self).wf(),
            r@ == old(self).frame@,
            *final(self) == (Ppu { frame_ready: false, ..*old(self) }),
    {
        let mut r: Vec<Pixel> = Vec::new();
        let mut i: usize = 0;
        let n = self.frame.len();
        while i < n
            invariant
                i <= n,
                n == self.frame@.len(),
                r@ =~= self.frame@.subrange(0, i as int),
            decreases n - i,
        {
            r.push(self.frame[i]);
            i = i + 1;
        }
        proof {
            assert(r@ =~= self.frame@);
        }
        self.frame_ready = false;
        r
    }

    /// Whether a finished frame waits to be collected.
    pub fn frame_is_ready(&self) -> (r: bool)
        ensures
            r == self.frame_ready,
    {
        self.frame_ready
    }

    /// Advance the PPU one dot.  While the PPU is off nothing moves.
    /// Otherwise the dot counter steps modulo 456 and `LY` modulo 154 at
    /// the line end; the scanline's pixels are composed in one shot at
    /// the drawing-to-blank boundary (dot 319 of a visible line); entry
    /// into the vertical blank latches the finished frame and requests
    /// the VBlank interrupt; and the LCD interrupt is requested on the
    /// rising edge of the STAT line.
    pub fn dot(&mut self) -> (r: (bool, bool))
        requires
            old(self).wf(),
        ensures
            final(self).wf(),
            !lcdc_ppu_on(old(self).lcdc as int) ==> *final(self) == *old(self) && r == (
                false,
                false,
            ),
            lcdc_ppu_on(old(self).lcdc as int) ==> {
                let next = line_clock_next(old(self).ly as int, old(self).line_dot as int);
                let rendered = old(self).line_dot == 319 && old(self).ly < 144;
                &&& final(self).ly == next.0
                &&& final(self).line_dot == next.1
                &&& r.0 == (old(self).line_dot == 455 && old(self).ly == 143)
                &&& final(self).frame_ready == (if old(self).line_dot == 455 && old(self).ly == 143 {
                    true
                } else if old(self).line_dot == 455 && old(self).ly == 153 {
                    false
                } else {
                    old(self).frame_ready
                })
                &&& final(self).frame@.len() == old(self).frame@.len()
                &&& (rendered ==> forall|x: int|
                    0 <= x < 160 ==> final(self).frame@[old(self).ly as int * 160 + x] == old(
                        self,
                    ).row_pixel_spec(x))
                &&& (rendered ==> forall|i: int|
                    0 <= i < final(self).frame@.len() && !(old(self).ly as int * 160 <= i < old(
                        self,
                    ).ly as int * 160 + 160) ==> final(self).frame@[i] == old(self).frame@[i])
                &&& (!rendered ==> final(self).frame@ == old(self).frame@)
                &&& final(self).window_line == (if old(self).line_dot == 455 && old(self).ly == 153 {
                    0u8
                } else if rendered && old(self).window_visible_line() {
                    old(self).window_line.wrapping_add(1)
                } else {
                    old(self).window_line
                })
                &&& final(self).stat_line == final(self).stat_line_spec()
                &&& r.1 == (!old(self).stat_line && final(self).stat_line_spec())
                &&& final(self).vram@ == old(self).vram@
                &&& final(self).oam@ == old(self).oam@
                &&& final(self).lcdc == old(self).lcdc
                &&& final(self).stat_sel == old(self).stat_sel
                &&& final(self).scy == old(self).scy && final(self).scx == old(self).scx
                &&& final(self).lyc == old(self).lyc
                &&& final(self).wy == old(self).wy && final(self).wx == old(self).wx
                &&& final(self).bgp == old(self).bgp && final(self).obp0 == old(self).obp0
                    && final(self).obp1 == old(self).obp1
                &&& final(self).bcps == old(self).bcps && final(self).ocps == old(self).ocps
                &&& final(self).bcg_palette@ == old(self).bcg_palette@
                &&& final(self).obj_palette@ == old(self).obj_palette@
                &&& final(self).color == old(self).color && final(self).vram_bank == old(
                    self,
                ).vram_bank
            },
    {
        if self.lcdc / 128 % 2 == 0 {
            return (false, false);
        }
        let mut vblank = false;
        if self.line_dot == 319 && self.ly < 144 {
            self.render_scanline();
        }
        if self.line_dot == 455 {
            self.line_dot = 0;
            if self.ly == 143 {
                self.ly = 144;
                self.frame_ready = true;
                vblank = true;
            } else if self.ly == 153 {
                self.ly = 0;
                self.frame_ready = false;
                self.window_line = 0;
            } else {
                self.ly = self.ly + 1;
            }
        } else {
            self.line_dot = self.line_dot + 1;
        }
        let new_line = self.stat_line_now();
        let stat_irq = !self.stat_line && new_line;
        self.stat_line = new_line;
        (vblank, stat_irq)
    }
}

fn bit8(b: u8, k: u8) -> (r: u8)
    requires
        k < 8,
    ensures
        r as int == bit_of(b as int, k as int),
        r < 2,
{
    let d: u8 = if k == 0 {
        1
    } else if k == 1 {
        2
    } else if k == 2 {
        4
    } else if k == 3 {
        8
    } else if k == 4 {
        16
    } else if k == 5 {
        32
    } else if k == 6 {
        64
    } else {
        128
    };
    b / d % 2
}

fn bg_tile_base_exec(l: u8, t: u8) -> (base: usize)
    ensures
        base as int == bg_tile_base(l as int, t as int),
        base + 16 <= 0x1800,
{
    if l / 16 % 2 == 1 {
        t as usize * 16
    } else if t < 128 {
        0x1000 + t as usize * 16
    } else {
        t as usize * 16
    }
}

fn palette_shade_exec(pal: u8, ci: u8) -> (sh: u8)
    requires
        ci < 4,
    ensures
        sh as int == palette_shade(pal as int, ci as int),
        sh < 4,
{
    if ci == 0 {
        pal % 4
    } else if ci == 1 {
        pal / 4 % 4
    } else if ci == 2 {
        pal / 16 % 4
    } else {
        pal / 64 % 4
    }
}

fn shade_pixel_exec(sh: u8) -> (p: Pixel)
    requires
        sh < 4,
    ensures
        p == shade_pixel(sh as int),
{
    if sh == 0 {
        Pixel::white()
    } else if sh == 1 {
        Pixel::light_gray()
    } else if sh == 2 {
        Pixel::dark_gray()
    } else {
        Pixel::black()
    }
}

fn zeroed_bytes(size: usize) -> (r: Vec<u8>)
    ensures
        r@ =~= Seq::new(size as nat, |i: int| 0u8),
{
    let mut v: Vec<u8> = Vec::new();
    let mut i: usize = 0;
    while i < size
        invariant
            i <= size,
            v@ =~= Seq::new(i as nat, |j: int| 0u8),
        decreases size - i,
    {
        v.push(0);
        i = i + 1;
    }
    v
}

fn zeroed_frame() -> (r: Vec<Pixel>)
    ensures
        r@ =~= Seq::new((160 * 144) as nat, |i: int| Pixel { r: 0, g: 0, b: 0 }),
{
    let mut v: Vec<Pixel> = Vec::new();
    let mut i: usize = 0;
    while i < 160 * 144
        invariant
            i <= 160 * 144,
            v@ =~= Seq::new(i as nat, |j: int| Pixel { r: 0, g: 0, b: 0 }),
        decreases 160 * 144 - i,
    {
        v.push(Pixel { r: 0, g: 0, b: 0 });
        i = i + 1;
    }
    v
}

} // verus!
