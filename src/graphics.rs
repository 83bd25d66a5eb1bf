use crate::mem::{MemModel, Memory};
use crate::types::{
    Byte, Color, COINCIDENCE_FLAG, CURRENT_SCANLINE, LCD_CONTROL, LCD_SIZE, LCD_STATUS,
    MODE_2_BOUNDS, MODE_3_BOUNDS, SCANLINE_CYCLES, SCREEN_HEIGHT, SCREEN_WIDTH,
};
use vstd::prelude::*;

verus! {

/// The framebuffer row of byte `i`.
pub open spec fn row_of(i: int) -> int {
    i / 480
}

/// The pixel column of byte `i`.
pub open spec fn col_of(i: int) -> int {
    (i % 480) / 3
}

/// a + b, wrapping at 8 bits.
pub open spec fn wadd8(a: u8, b: u8) -> u8 {
    ((a + b) % 256) as u8
}

/// a - b, wrapping at 8 bits.
pub open spec fn wsub8(a: u8, b: u8) -> u8 {
    ((a + 256 - b) % 256) as u8
}

/// Whether the window covers the current scanline.
pub open spec fn using_window(m: MemModel, control: u8) -> bool {
    control & 0x20 != 0 && m.peek(0xFF4A) <= m.peek(CURRENT_SCANLINE)
}

/// The row within the background (or window) map of the current scanline.
pub open spec fn bg_y(m: MemModel, control: u8) -> u8 {
    if using_window(m, control) {
        wsub8(m.peek(CURRENT_SCANLINE), m.peek(0xFF4A))
    } else {
        wadd8(m.peek(0xFF42), m.peek(CURRENT_SCANLINE))
    }
}

/// The column within the background (or window) map of screen column `pixel`.
pub open spec fn bg_x(m: MemModel, control: u8, pixel: u8) -> u8 {
    let window_x = wsub8(m.peek(0xFF4B), 7);
    if using_window(m, control) && pixel >= window_x {
        (pixel - window_x) as u8
    } else {
        wadd8(pixel, m.peek(0xFF43))
    }
}

/// The address of the tile map entry under screen column `pixel`.
pub open spec fn bg_map_entry(m: MemModel, control: u8, pixel: u8) -> u16 {
    let map: u16 = if using_window(m, control) {
        if control & 0x40 != 0 {
            0x9C00
        } else {
            0x9800
        }
    } else if control & 0x08 != 0 {
        0x9C00
    } else {
        0x9800
    };
    (map + (bg_y(m, control) / 8) as u16 * 32 + (bg_x(m, control, pixel) / 8) as u16) as u16
}

/// The address of the pattern of tile `tile_num`: unsigned from 0x8000, or
/// signed around 0x9000.
pub open spec fn tile_address(control: u8, tile_num: u8) -> u16 {
    if control & 0x10 != 0 {
        (0x8000 + tile_num as u16 * 16) as u16
    } else {
        (0x8800 + wadd8(tile_num, 128) as u16 * 16) as u16
    }
}

/// The 2-bit color number of bit `bit` of a tile row given by its two bytes.
pub open spec fn color_number(data1: u8, data2: u8, bit: u8) -> u8 {
    (((data2 >> bit) & 1) << 1u8) | ((data1 >> bit) & 1)
}

/// The shade a background or window tile gives column `pixel` of the
/// current scanline under LCD control value `control`.
pub open spec fn bg_color(m: MemModel, control: u8, pixel: u8) -> Color {
    let y_pos = bg_y(m, control);
    let x_pos = bg_x(m, control, pixel);
    let tile_location = tile_address(control, m.peek(bg_map_entry(m, control, pixel)));
    let line = ((y_pos % 8) * 2) as u16;
    let data1 = m.peek((tile_location + line) as u16);
    let data2 = m.peek((tile_location + line + 1) as u16);
    m.color(color_number(data1, data2, (7 - x_pos % 8) as u8), 0xFF47)
}

/// The framebuffer with columns below `upto` of the current scanline drawn
/// from the background and window.
pub open spec fn tiles_drawn(m: MemModel, control: u8, buf: Seq<u8>, upto: int) -> Seq<u8> {
    Seq::new(
        buf.len(),
        |i: int|
            if m.peek(CURRENT_SCANLINE) < 144 && row_of(i) == m.peek(CURRENT_SCANLINE) && col_of(i)
                < upto {
                bg_color(m, control, col_of(i) as u8).spec_level()
            } else {
                buf[i]
            },
    )
}

/// The row of its pattern, in bytes, that a sprite with top `y_pos` and
/// height `y_size` shows on `scanline`; flipped vertically by attribute bit 6.
pub open spec fn sprite_line(scanline: int, y_pos: int, y_size: int, attributes: u8) -> int {
    if attributes & 0x40 != 0 {
        (y_size - (scanline - y_pos)) * 2
    } else {
        (scanline - y_pos) * 2
    }
}

/// The grey level sprite `sprite` puts at column `col` of the current
/// scanline, if it puts one there: sprites behind the background and the
/// transparent color 0 (white) put none.
pub open spec fn sprite_level(m: MemModel, control: u8, sprite: int, col: int) -> Option<u8> {
    let base = 0xFE00 + sprite * 4;
    let y_pos = m.peek(base as u16) - 16;
    let x_pos = m.peek((base + 1) as u16) - 8;
    let tile = m.peek((base + 2) as u16);
    let attributes = m.peek((base + 3) as u16);
    let scanline = m.peek(CURRENT_SCANLINE) as int;
    let y_size: int = if control & 0x4 != 0 {
        16
    } else {
        8
    };
    if scanline >= y_pos && scanline < y_pos + y_size && x_pos <= col < x_pos + 8 && 0 <= col
        < 160 && scanline < 144 && attributes & 0x80 == 0 {
        let line = sprite_line(scanline, y_pos, y_size, attributes);
        let data1 = m.peek((0x8000 + tile * 16 + line) as u16);
        let data2 = m.peek((0x8000 + tile * 16 + line + 1) as u16);
        let k = col - x_pos;
        let bit = (if attributes & 0x20 != 0 {
            k
        } else {
            7 - k
        }) as u8;
        let palette: u16 = if attributes & 0x10 != 0 {
            0xFF49
        } else {
            0xFF48
        };
        let color = m.color(color_number(data1, data2, bit), palette);
        if color == Color::White {
            None
        } else {
            Some(color.spec_level())
        }
    } else {
        None
    }
}

/// The framebuffer with sprite `sprite` drawn on the current scanline at
/// columns of its own below `x_pos + upto`.
pub open spec fn sprite_drawn(m: MemModel, control: u8, buf: Seq<u8>, sprite: int, upto: int) -> Seq<
    u8,
> {
    let x_pos = m.peek((0xFE00 + sprite * 4 + 1) as u16) - 8;
    Seq::new(
        buf.len(),
        |i: int|
            if row_of(i) == m.peek(CURRENT_SCANLINE) && col_of(i) < x_pos + upto && sprite_level(
                m,
                control,
                sprite,
                col_of(i),
            ) is Some {
                sprite_level(m, control, sprite, col_of(i))->Some_0
            } else {
                buf[i]
            },
    )
}

/// The framebuffer with sprites 0 to n-1 drawn in turn.
pub open spec fn sprites_drawn(m: MemModel, control: u8, buf: Seq<u8>, n: int) -> Seq<u8>
    decreases n,
{
    if n <= 0 {
        buf
    } else {
        sprite_drawn(m, control, sprites_drawn(m, control, buf, n - 1), n - 1, 8)
    }
}

/// The framebuffer with the current scanline drawn: background and window
/// when enabled, then the sprites when enabled, all only while the LCD is on.
pub open spec fn scanline_drawn(m: MemModel, buf: Seq<u8>) -> Seq<u8> {
    let control = m.read(LCD_CONTROL);
    let b1 = if control & 0x80 != 0 && control & 0x1 != 0 {
        tiles_drawn(m, control, buf, 160)
    } else {
        buf
    };
    if control & 0x80 != 0 && control & 0x2 != 0 {
        sprites_drawn(m, control, b1, 40)
    } else {
        b1
    }
}

/// The grey level of shade number `color` (0 white to 3 black).
pub open spec fn grey(color: u8) -> u8 {
    if color == 0 {
        255
    } else if color == 1 {
        0xCC
    } else if color == 2 {
        0x77
    } else {
        0
    }
}

/// The shade number of an RGB triple: the grey it matches, else black.
pub open spec fn shade_of(r: u8, g: u8, b: u8) -> u8 {
    if r == 255 && g == 255 && b == 255 {
        0
    } else if r == 0xCC && g == 0xCC && b == 0xCC {
        1
    } else if r == 0x77 && g == 0x77 && b == 0x77 {
        2
    } else {
        3
    }
}

/// The LCD status register and the interrupts after the mode and
/// coincidence check, with scanline counter `counter`; with the LCD off the
/// scanline is reset and the mode forced to 1.
pub open spec fn status_update(m: MemModel, counter: i32) -> MemModel {
    let status = m.read(LCD_STATUS);
    if m.read(LCD_CONTROL) & 0x80 == 0 {
        m.write_forced(CURRENT_SCANLINE, 0).write(LCD_STATUS, (status & 0xFC) | 0x1)
    } else {
        let line = m.read(CURRENT_SCANLINE);
        let current_mode = status & 0x3;
        let mode: u8 = if line >= 144 {
            1
        } else if counter >= MODE_2_BOUNDS {
            2
        } else if counter >= MODE_3_BOUNDS {
            3
        } else {
            0
        };
        let st1: u8 = if mode == 1 {
            (status | 0x1) & !0x2u8
        } else if mode == 2 {
            (status | 0x2) & !0x1u8
        } else if mode == 3 {
            status | 0x3
        } else {
            status & !0x3u8
        };
        let require_interrupt = if mode == 1 {
            st1 & 0x10 != 0
        } else if mode == 2 {
            st1 & 0x20 != 0
        } else if mode == 3 {
            false
        } else {
            st1 & 0x08 != 0
        };
        let m1 = if require_interrupt && mode != current_mode {
            m.request(1)
        } else {
            m
        };
        let coincidence = line == m1.read(COINCIDENCE_FLAG);
        let st2: u8 = if coincidence {
            st1 | 0x4
        } else {
            st1 & !0x4u8
        };
        let m2 = if coincidence && st2 & 0x40 != 0 {
            m1.request(1)
        } else {
            m1
        };
        m2.write(LCD_STATUS, st2)
    }
}

/// Scanline counter, framebuffer and memory after `cycles` more cycles:
/// the LCD status is updated; with the LCD on the counter runs down, and at
/// the end of a scanline the next one starts (past 153 back to 0), with
/// vblank (source 0) requested on reaching 144 and scanlines below 144 drawn.
pub open spec fn screen_advance(counter: i32, pixels: Seq<u8>, m: MemModel, cycles: i32) -> (
    i32,
    Seq<u8>,
    MemModel,
) {
    let m1 = status_update(m, counter);
    let c1 = if m.read(LCD_CONTROL) & 0x80 == 0 {
        SCANLINE_CYCLES
    } else {
        counter
    };
    let c2 = c1 - cycles;
    if m1.read(LCD_CONTROL) & 0x80 == 0 {
        (c1, pixels, m1)
    } else if c2 > 0 {
        (c2 as i32, pixels, m1)
    } else {
        let line = ((m1.read(CURRENT_SCANLINE) + 1) % 256) as u8;
        let m2 = m1.write_forced(CURRENT_SCANLINE, line);
        if line == 144 {
            (SCANLINE_CYCLES, pixels, m2.request(0))
        } else if line > 153 {
            (SCANLINE_CYCLES, pixels, m2.write_forced(CURRENT_SCANLINE, 0))
        } else {
            (SCANLINE_CYCLES, scanline_drawn(m2, pixels), m2)
        }
    }
}

proof fn lemma_pixel_index(line: int, p: int, k: int)
    requires
        0 <= line < 144,
        0 <= p < 160,
        0 <= k < 3,
    ensures
        row_of(line * 480 + p * 3 + k) == line,
        col_of(line * 480 + p * 3 + k) == p,
        line * 480 + p * 3 + k < LCD_SIZE,
{
    assert(row_of(line * 480 + p * 3 + k) == line) by (nonlinear_arith)
        requires
            0 <= line < 144,
            0 <= p < 160,
            0 <= k < 3,
    ;
    assert(col_of(line * 480 + p * 3 + k) == p) by (nonlinear_arith)
        requires
            0 <= line < 144,
            0 <= p < 160,
            0 <= k < 3,
    ;
    assert(line * 480 + p * 3 + k < LCD_SIZE) by (nonlinear_arith)
        requires
            0 <= line < 144,
            0 <= p < 160,
            0 <= k < 3,
    ;
}

proof fn lemma_index_split(i: int)
    requires
        0 <= i,
    ensures
        i == row_of(i) * 480 + col_of(i) * 3 + i % 3,
        0 <= col_of(i) < 160,
{
}

/// The scanline picture generator: scanline cycle counter and the RGB
/// framebuffer, 160 by 144 pixels, 3 bytes each.
pub struct Screen {
    scanline_counter: i32,
    buffer: Vec<u8>,
}

impl Screen {
    pub closed spec fn counter(&self) -> i32 {
        self.scanline_counter
    }

    pub closed spec fn pixels(&self) -> Seq<u8> {
        self.buffer@
    }

    pub open spec fn wf(&self) -> bool {
        &&& self.pixels().len() == LCD_SIZE
        &&& 0 < self.counter() <= SCANLINE_CYCLES
    }

    /// The framebuffer bytes.
    pub fn buffer(&self) -> (r: &Vec<u8>)
        ensures
            r@ == self.pixels(),
    {
        &self.buffer
    }

    /// Draws the background and window on the current scanline.
    pub fn render_tiles(&mut self, mem: &Memory, control: Byte)
        requires
            mem.wf(),
            old(self).wf(),
        ensures
            final(self).wf(),
            final(self).counter() == old(self).counter(),
            final(self).pixels() == tiles_drawn(mem@, control, old(self).pixels(), 160),
    {
        let current_line = mem.peek_byte(CURRENT_SCANLINE);
        let mut pixel: u8 = 0;
        while pixel < 160
            invariant
                self.wf(),
                mem.wf(),
                self.counter() == old(self).counter(),
                pixel <= 160,
                current_line == mem@.peek(CURRENT_SCANLINE),
                self.pixels() == tiles_drawn(mem@, control, old(self).pixels(), pixel as int),
            decreases 160 - pixel,
        {
            let color = Self::tile_color(mem, control, pixel);
            let level = color.level();
            if current_line < 144 {
                let idx = (current_line as usize * 160 + pixel as usize) * 3;
                proof {
                    lemma_pixel_index(current_line as int, pixel as int, 0);
                    lemma_pixel_index(current_line as int, pixel as int, 1);
                    lemma_pixel_index(current_line as int, pixel as int, 2);
                }
                self.buffer.set(idx, level);
                self.buffer.set(idx + 1, level);
                self.buffer.set(idx + 2, level);
            }
            pixel = pixel + 1;
            proof {
                let prev = tiles_drawn(mem@, control, old(self).pixels(), pixel - 1);
                let next = tiles_drawn(mem@, control, old(self).pixels(), pixel as int);
                assert forall|i: int| 0 <= i < next.len() implies self.pixels()[i] == next[i] by {
                    lemma_index_split(i);
                }
                assert(self.pixels() =~= next);
            }
        }
    }

    fn wadd8(a: u8, b: u8) -> (r: u8)
        ensures
            r == wadd8(a, b),
    {
        a.wrapping_add(b)
    }

    fn wsub8(a: u8, b: u8) -> (r: u8)
        ensures
            r == wsub8(a, b),
    {
        a.wrapping_sub(b)
    }

    fn color_number(data1: u8, data2: u8, bit: u8) -> (r: u8)
        requires
            bit < 8,
        ensures
            r == color_number(data1, data2, bit),
            r < 4,
    {
        let r = (((data2 >> bit) & 1) << 1u8) | ((data1 >> bit) & 1);
        assert(r < 4) by (bit_vector)
            requires
                r == (((data2 >> bit) & 1) << 1u8) | ((data1 >> bit) & 1),
        ;
        r
    }

    fn tile_color(mem: &Memory, control: Byte, pixel: Byte) -> (r: Color)
        requires
            mem.wf(),
        ensures
            r == bg_color(mem@, control, pixel),
    {
        let scroll_y = mem.peek_byte(0xFF42);
        let scroll_x = mem.peek_byte(0xFF43);
        let window_y = mem.peek_byte(0xFF4A);
        let window_x = Self::wsub8(mem.peek_byte(0xFF4B), 7);
        let current_line = mem.peek_byte(CURRENT_SCANLINE);
        let using_window = (control & 0x20 != 0) && window_y <= current_line;
        let map: u16 = if using_window {
            if control & 0x40 != 0 {
                0x9C00
            } else {
                0x9800
            }
        } else if control & 0x08 != 0 {
            0x9C00
        } else {
            0x9800
        };
        let y_pos = if using_window {
            Self::wsub8(current_line, window_y)
        } else {
            Self::wadd8(scroll_y, current_line)
        };
        let x_pos = if using_window && pixel >= window_x {
            pixel - window_x
        } else {
            Self::wadd8(pixel, scroll_x)
        };
        let tile_num = mem.peek_byte(map + (y_pos / 8) as u16 * 32 + (x_pos / 8) as u16);
        let tile_location: u16 = if control & 0x10 != 0 {
            0x8000 + tile_num as u16 * 16
        } else {
            0x8800 + Self::wadd8(tile_num, 128) as u16 * 16
        };
        let line = ((y_pos % 8) * 2) as u16;
        let data1 = mem.peek_byte(tile_location + line);
        let data2 = mem.peek_byte(tile_location + line + 1);
        let color_num = Self::color_number(data1, data2, 7 - x_pos % 8);
        mem.get_color(color_num, 0xFF47)
    }
    fn sprite_level_at(mem: &Memory, control: Byte, sprite: u16, col: i32) -> (r: Option<u8>)
        requires
            mem.wf(),
            sprite < 40,
        ensures
            r == sprite_level(mem@, control, sprite as int, col as int),
    {
        let base: u16 = 0xFE00 + sprite * 4;
        let y_pos = mem.peek_byte(base) as i32 - 16;
        let x_pos = mem.peek_byte(base + 1) as i32 - 8;
        let tile = mem.peek_byte(base + 2);
        let attributes = mem.peek_byte(base + 3);
        let scanline = mem.peek_byte(CURRENT_SCANLINE) as i32;
        let y_size: i32 = if control & 0x4 != 0 {
            16
        } else {
            8
        };
        if scanline >= y_pos && scanline < y_pos + y_size && x_pos <= col && col < x_pos + 8 && 0
            <= col && col < 160 && scanline < 144 && attributes & 0x80 == 0 {
            let line: i32 = if attributes & 0x40 != 0 {
                (y_size - (scanline - y_pos)) * 2
            } else {
                (scanline - y_pos) * 2
            };
            let addr: u16 = (0x8000 + tile as i32 * 16 + line) as u16;
            let data1 = mem.peek_byte(addr);
            let data2 = mem.peek_byte(addr + 1);
            let k = col - x_pos;
            let bit: u8 = if attributes & 0x20 != 0 {
                k as u8
            } else {
                (7 - k) as u8
            };
            let palette: u16 = if attributes & 0x10 != 0 {
                0xFF49
            } else {
                0xFF48
            };
            let color_num = Self::color_number(data1, data2, bit);
            let color = mem.get_color(color_num, palette);
            if color == Color::White {
                None
            } else {
                Some(color.level())
            }
        } else {
            None
        }
    }

    /// Draws the sprites on the current scanline, in order, each over the
    /// ones before it.
    pub fn render_sprites(&mut self, mem: &Memory, control: Byte)
        requires
            mem.wf(),
            old(self).wf(),
        ensures
            final(self).wf(),
            final(self).counter() == old(self).counter(),
            final(self).pixels() == sprites_drawn(mem@, control, old(self).pixels(), 40),
    {
        let scanline = mem.peek_byte(CURRENT_SCANLINE);
        let mut sprite: u16 = 0;
        while sprite < 40
            invariant
                self.wf(),
                mem.wf(),
                self.counter() == old(self).counter(),
                sprite <= 40,
                scanline == mem@.peek(CURRENT_SCANLINE),
                self.pixels() == sprites_drawn(mem@, control, old(self).pixels(), sprite as int),
            decreases 40 - sprite,
        {
            let x_pos = mem.peek_byte(0xFE00 + sprite * 4 + 1) as i32 - 8;
            let ghost before = self.pixels();
            let mut k: i32 = 0;
            while k < 8
                invariant
                    self.wf(),
                    mem.wf(),
                    self.counter() == old(self).counter(),
                    sprite < 40,
                    0 <= k <= 8,
                    scanline == mem@.peek(CURRENT_SCANLINE),
                    x_pos == mem@.peek((0xFE00 + sprite * 4 + 1) as u16) - 8,
                    before == sprites_drawn(mem@, control, old(self).pixels(), sprite as int),
                    self.pixels() == sprite_drawn(mem@, control, before, sprite as int, k as int),
                decreases 8 - k,
            {
                let col = x_pos + k;
                match Self::sprite_level_at(mem, control, sprite, col) {
                    Some(level) => {
                        let idx = (scanline as usize * 160 + col as usize) * 3;
                        proof {
                            lemma_pixel_index(scanline as int, col as int, 0);
                            lemma_pixel_index(scanline as int, col as int, 1);
                            lemma_pixel_index(scanline as int, col as int, 2);
                        }
                        self.buffer.set(idx, level);
                        self.buffer.set(idx + 1, level);
                        self.buffer.set(idx + 2, level);
                    },
                    None => {},
                }
                k = k + 1;
                proof {
                    let next = sprite_drawn(mem@, control, before, sprite as int, k as int);
                    assert forall|i: int| 0 <= i < next.len() implies self.pixels()[i] == next[i] by {
                        lemma_index_split(i);
                    }
                    assert(self.pixels() =~= next);
                }
            }
            sprite = sprite + 1;
        }
    }
    pub fn new() -> (r: Screen)
        ensures
            r.wf(),
            r.counter() == SCANLINE_CYCLES,
            r.pixels() == Seq::new(LCD_SIZE as nat, |i: int| 0u8),
    {
        let mut buffer: Vec<u8> = Vec::with_capacity(LCD_SIZE);
        let mut i: usize = 0;
        while i < LCD_SIZE
            invariant
                i <= LCD_SIZE,
                buffer@ == Seq::new(i as nat, |k: int| 0u8),
            decreases LCD_SIZE - i,
        {
            buffer.push(0);
            i = i + 1;
            assert(buffer@ =~= Seq::new(i as nat, |k: int| 0u8));
        }
        Screen { scanline_counter: SCANLINE_CYCLES, buffer }
    }

    /// The RGB triple of shade number `color`.
    pub fn color_to_rgb(color: u8) -> (r: (u8, u8, u8))
        ensures
            r == (grey(color), grey(color), grey(color)),
    {
        match color {
            0 => (255, 255, 255),
            1 => (0xCC, 0xCC, 0xCC),
            2 => (0x77, 0x77, 0x77),
            _ => (0, 0, 0),
        }
    }

    /// The shade number of an RGB triple.
    pub fn rgb_to_color(r: u8, g: u8, b: u8) -> (c: u8)
        ensures
            c == shade_of(r, g, b),
    {
        if r == 255 && g == 255 && b == 255 {
            0
        } else if r == 0xCC && g == 0xCC && b == 0xCC {
            1
        } else if r == 0x77 && g == 0x77 && b == 0x77 {
            2
        } else {
            3
        }
    }

    /// Fills the whole frame with shade number `color`.
    pub fn clear(&mut self, color: u8)
        requires
            old(self).wf(),
        ensures
            final(self).wf(),
            final(self).counter() == old(self).counter(),
            final(self).pixels() == Seq::new(LCD_SIZE as nat, |i: int| grey(color)),
    {
        let (r, g, b) = Self::color_to_rgb(color);
        let mut i: usize = 0;
        while i < LCD_SIZE
            invariant
                self.wf(),
                self.counter() == old(self).counter(),
                i <= LCD_SIZE,
                i % 3 == 0,
                r == grey(color) && g == grey(color) && b == grey(color),
                forall|k: int| 0 <= k < LCD_SIZE ==> #[trigger] self.pixels()[k] == if k < i {
                    grey(color)
                } else {
                    old(self).pixels()[k]
                },
            decreases LCD_SIZE - i,
        {
            self.buffer.set(i, r);
            self.buffer.set(i + 1, g);
            self.buffer.set(i + 2, b);
            i = i + 3;
        }
        assert(self.pixels() =~= Seq::new(LCD_SIZE as nat, |i: int| grey(color)));
    }

    /// Sets pixel (x, y) to shade number `color`; outside the screen nothing
    /// changes.
    pub fn set_pixel(&mut self, x: usize, y: usize, color: u8)
        requires
            old(self).wf(),
        ensures
            final(self).wf(),
            final(self).counter() == old(self).counter(),
            ({
                let idx = (y * 160 + x) * 3;
                let l = grey(color);
                if x < SCREEN_WIDTH && y < SCREEN_HEIGHT {
                    final(self).pixels() == old(self).pixels().update(idx, l).update(
                        idx + 1,
                        l,
                    ).update(idx + 2, l)
                } else {
                    final(self).pixels() == old(self).pixels()
                }
            }),
    {
        if x >= SCREEN_WIDTH as usize || y >= SCREEN_HEIGHT as usize {
            return ;
        }
        let idx = (y * 160 + x) * 3;
        proof {
            lemma_pixel_index(y as int, x as int, 2);
        }
        let (r, g, b) = Self::color_to_rgb(color);
        self.buffer.set(idx, r);
        self.buffer.set(idx + 1, g);
        self.buffer.set(idx + 2, b);
    }

    /// The shade number at pixel (x, y); 0 outside the screen.
    pub fn get_pixel(&self, x: usize, y: usize) -> (c: u8)
        requires
            self.wf(),
        ensures
            ({
                let idx = (y * 160 + x) * 3;
                c == if x < SCREEN_WIDTH && y < SCREEN_HEIGHT {
                    shade_of(self.pixels()[idx], self.pixels()[idx + 1], self.pixels()[idx + 2])
                } else {
                    0
                }
            }),
    {
        if x >= SCREEN_WIDTH as usize || y >= SCREEN_HEIGHT as usize {
            return 0;
        }
        let idx = (y * 160 + x) * 3;
        proof {
            lemma_pixel_index(y as int, x as int, 2);
        }
        Self::rgb_to_color(self.buffer[idx], self.buffer[idx + 1], self.buffer[idx + 2])
    }

    /// Bit 7 of the LCD control register.
    pub fn is_lcd_enabled(&self, mem: &Memory) -> (r: bool)
        requires
            mem.wf(),
        ensures
            r == (mem@.read(LCD_CONTROL) & 0x80 != 0),
    {
        mem.read_byte(LCD_CONTROL) & 0x80 != 0
    }

    /// Updates the mode bits and coincidence flag of the LCD status
    /// register, requesting the LCD status interrupt (source 1) on entering
    /// a mode whose interrupt is enabled and on a coincidence when enabled.
    fn set_lcd_status(&mut self, mem: &mut Memory)
        requires
            old(mem).wf(),
            old(self).wf(),
        ensures
            final(mem).wf(),
            final(self).wf(),
            final(mem)@ == status_update(old(mem)@, old(self).counter()),
            final(self).pixels() == old(self).pixels(),
            final(self).counter() == if old(mem)@.read(LCD_CONTROL) & 0x80 == 0 {
                SCANLINE_CYCLES
            } else {
                old(self).counter()
            },
    {
        let lcd_enabled = self.is_lcd_enabled(mem);
        let mut status = mem.read_byte(LCD_STATUS);
        if !lcd_enabled {
            self.scanline_counter = SCANLINE_CYCLES;
            mem.write_byte_forced(CURRENT_SCANLINE, 0);
            status = (status & 0xFC) | 0x1;
            mem.write_byte(LCD_STATUS, status);
            return ;
        }
        let current_line = mem.read_byte(CURRENT_SCANLINE);
        let current_mode = status & 0x3;
        let mode: u8;
        let require_interrupt: bool;
        if current_line >= 144 {
            mode = 1;
            status = (status | 0x1) & !0x2u8;
            require_interrupt = status & 0x10 != 0;
        } else if self.scanline_counter >= MODE_2_BOUNDS {
            mode = 2;
            status = (status | 0x2) & !0x1u8;
            require_interrupt = status & 0x20 != 0;
        } else if self.scanline_counter >= MODE_3_BOUNDS {
            mode = 3;
            status = status | 0x3;
            require_interrupt = false;
        } else {
            mode = 0;
            status = status & !0x3u8;
            require_interrupt = status & 0x08 != 0;
        }
        if require_interrupt && mode != current_mode {
            mem.request_interrupt(1);
        }
        if current_line == mem.read_byte(COINCIDENCE_FLAG) {
            status = status | 0x4;
            if status & 0x40 != 0 {
                mem.request_interrupt(1);
            }
        } else {
            status = status & !0x4u8;
        }
        mem.write_byte(LCD_STATUS, status);
    }

    /// Draws the current scanline when the LCD is on: background and
    /// window if enabled, then sprites if enabled.
    fn draw_scanline(&mut self, mem: &Memory)
        requires
            mem.wf(),
            old(self).wf(),
        ensures
            final(self).wf(),
            final(self).counter() == old(self).counter(),
            final(self).pixels() == scanline_drawn(mem@, old(self).pixels()),
    {
        let control = mem.read_byte(LCD_CONTROL);
        if control & 0x80 != 0 {
            if control & 0x1 != 0 {
                self.render_tiles(mem, control);
            }
            if control & 0x2 != 0 {
                self.render_sprites(mem, control);
            }
        }
    }

    /// Advances the picture generator by `cycles`: updates the LCD status;
    /// with the LCD on, counts the scanline down and at its end moves to
    /// the next scanline (past 153 back to 0), requesting vblank (source 0)
    /// on reaching 144 and drawing scanlines below 144.
    #[verifier::rlimit(80)]
    pub fn update_screen(&mut self, mem: &mut Memory, cycles: i32)
        requires
            old(mem).wf(),
            old(self).wf(),
            cycles >= 0,
        ensures
            final(mem).wf(),
            final(self).wf(),
            (final(self).counter(), final(self).pixels(), final(mem)@) == screen_advance(
                old(self).counter(),
                old(self).pixels(),
                old(mem)@,
                cycles,
            ),
    {
        self.set_lcd_status(mem);
        if !self.is_lcd_enabled(mem) {
            return ;
        }
        let counter = self.scanline_counter - cycles;
        if counter > 0 {
            self.scanline_counter = counter;
            return ;
        }
        let scanline = mem.read_byte(CURRENT_SCANLINE).wrapping_add(1);
        mem.write_byte_forced(CURRENT_SCANLINE, scanline);
        self.scanline_counter = SCANLINE_CYCLES;
        if scanline == 144 {
            mem.request_interrupt(0);
        } else if scanline > 153 {
            mem.write_byte_forced(CURRENT_SCANLINE, 0);
        } else {
            self.draw_scanline(mem);
        }
    }
}

} // verus!
