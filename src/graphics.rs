//! The pixel pipeline: renders the current scanline's background and window,
//! then its sprites, into a 160x144 RGBA buffer.
use crate::mem::{MemView, Memory};
use crate::util::{is_neg16, sign_extend, twos_complement};
use vstd::prelude::*;

verus! {

pub const DISPLAY_WIDTH_PX: u8 = 160;

pub const DISPLAY_HEIGHT_PX: u8 = 144;

pub const PIXEL_COUNT: usize = 23040;

pub const SCREEN_BYTES: usize = 92160;

pub const LCDC_REG: u8 = 0x40;

pub const STAT_REG: u8 = 0x41;

pub const SCY_REG: u8 = 0x42;

pub const SCX_REG: u8 = 0x43;

pub const LY_REG: u8 = 0x44;

pub const LYC_REG: u8 = 0x45;

pub const BGP_REG: u8 = 0x47;

pub const OBP0_REG: u8 = 0x48;

pub const OBP1_REG: u8 = 0x49;

pub const WY_REG: u8 = 0x4A;

pub const WX_REG: u8 = 0x4B;

#[derive(Clone, Copy, Debug, PartialEq, Eq, Structural)]
pub enum Priority {
    Sprite,
    Background,
}

/// A background tile's attribute byte (CGB), or a sprite's OAM flags.
#[derive(Clone, Copy, Debug, PartialEq, Eq, Structural)]
pub struct TileAttr(pub u8);

impl TileAttr {
    /// Bits 0-2.
    pub fn cgb_palette_number(&self) -> (r: u8)
        ensures
            r == self.0 & 0b111,
    {
        self.0 & 0b111
    }

    /// Bit 3.
    pub fn tile_vram_bank(&self) -> (r: u8)
        ensures
            r == (self.0 >> 3) & 0b1,
    {
        (self.0 >> 3) & 0b1
    }

    /// Bit 4.
    pub fn dmg_palette_number(&self) -> (r: u8)
        ensures
            r == (self.0 >> 4) & 0b1,
    {
        (self.0 >> 4) & 0b1
    }

    /// Bit 5.
    pub fn h_flip(&self) -> (r: bool)
        ensures
            r == (self.0 & 0x20 != 0),
    {
        self.0 & 0x20 != 0
    }

    /// Bit 6.
    pub fn v_flip(&self) -> (r: bool)
        ensures
            r == (self.0 & 0x40 != 0),
    {
        self.0 & 0x40 != 0
    }

    /// Bit 7: set when background colors 1-3 cover sprites.
    pub fn priority(&self) -> (r: Priority)
        ensures
            r == (if self.0 & 0x80 == 0 {
                Priority::Sprite
            } else {
                Priority::Background
            }),
    {
        if self.0 & 0x80 == 0 {
            Priority::Sprite
        } else {
            Priority::Background
        }
    }
}

/// What the background pass left at a screen position: the color number
/// (0-3) and the tile's attributes.
#[derive(Clone, Copy, Debug, PartialEq, Eq, Structural)]
pub struct TilePixel {
    pub color_number: u8,
    pub tile_attr: TileAttr,
}

impl TilePixel {
    pub fn new(color_number: u8, tile_attr: TileAttr) -> (r: TilePixel)
        ensures
            r == (TilePixel { color_number, tile_attr }),
    {
        TilePixel { color_number, tile_attr }
    }

    pub fn blank() -> (r: TilePixel)
        ensures
            r == blank_pixel(),
    {
        TilePixel { color_number: 0, tile_attr: TileAttr(0) }
    }
}

pub open spec fn blank_pixel() -> TilePixel {
    TilePixel { color_number: 0, tile_attr: TileAttr(0) }
}

pub struct GraphicsView {
    pub pixels: Seq<TilePixel>,
    pub screen: Seq<u8>,
    pub bg_on: bool,
    pub wn_on: bool,
    pub sprites_on: bool,
}

impl GraphicsView {
    pub open spec fn wf(self) -> bool {
        self.pixels.len() == PIXEL_COUNT && self.screen.len() == SCREEN_BYTES
    }
}

/// The four shades of the monochrome palette, lightest first.
pub open spec fn dmg_rgb(shade: u8) -> (u8, u8, u8) {
    if shade == 0 {
        (0xFF, 0xFF, 0xFF)
    } else if shade == 1 {
        (0xC0, 0xC0, 0xC0)
    } else if shade == 2 {
        (0x60, 0x60, 0x60)
    } else {
        (0x00, 0x00, 0x00)
    }
}

/// A 5-bit channel widened to 8 bits.
pub open spec fn widen5(c: u8) -> u8 {
    ((c << 3u8) | (c >> 2u8)) as u8
}

/// A CGB color: 15 bits, red in the low bits of the low byte.
pub open spec fn rgb_spec(palette_h: u8, palette_l: u8) -> (u8, u8, u8) {
    (
        widen5(palette_l & 0x1F),
        widen5((((palette_h & 0b11) << 3u8) | (palette_l >> 5u8)) as u8),
        widen5((palette_h >> 2u8) & 0x1F),
    )
}

/// Color `color` of palette `num` in a CGB palette RAM: 8 bytes a palette,
/// 2 bytes a color, low byte first.
pub open spec fn palette_rgb(ram: Seq<u8>, num: u8, color: u8) -> (u8, u8, u8) {
    rgb_spec(ram[num * 8 + color * 2 + 1], ram[num * 8 + color * 2])
}

/// The shade a DMG palette register gives a color number.
pub open spec fn shade(palette: u8, color: u8) -> u8 {
    (palette >> (2 * color) as u8) & 0b11
}

/// The color number of a tile row's pixel `col` (0 leftmost).
pub open spec fn color_number_spec(lo: u8, hi: u8, col: u8) -> u8 {
    (2 * ((hi >> (7 - col) as u8) & 1) + ((lo >> (7 - col) as u8) & 1)) as u8
}

pub open spec fn lcdc(m: MemView) -> u8 {
    m.io[LCDC_REG as int]
}

pub open spec fn color_mode(m: MemView) -> bool {
    m.rom.len() > 0x143 && m.rom[0x143] >= 0x80
}

pub open spec fn ly(m: MemView) -> u8 {
    m.io[LY_REG as int]
}

/// A byte of VRAM bank `bank` at bus address `addr`.
pub open spec fn vbyte(m: MemView, bank: int, addr: int) -> u8 {
    m.vram[bank * 0x2000 + (addr - 0x8000)]
}

pub open spec fn bg_enabled(g: GraphicsView, m: MemView) -> bool {
    if color_mode(m) {
        g.bg_on
    } else {
        lcdc(m) & 0x01 != 0 && g.bg_on
    }
}

pub open spec fn wn_enabled(g: GraphicsView, m: MemView) -> bool {
    lcdc(m) & 0x20 != 0 && g.wn_on
}

/// WX - 7, the window's left edge.
pub open spec fn window_x(m: MemView) -> int {
    (m.io[WX_REG as int] + 249) % 256
}

pub open spec fn in_window(g: GraphicsView, m: MemView, x: int) -> bool {
    wn_enabled(g, m) && x >= window_x(m) && window_x(m) < 160 && ly(m) >= m.io[WY_REG as int]
}

pub open spec fn first_x(g: GraphicsView, m: MemView) -> int {
    if bg_enabled(g, m) {
        0
    } else {
        window_x(m)
    }
}

pub enum BgOutcome {
    Untouched,
    Blank,
    Drawn(TilePixel, (u8, u8, u8)),
}

/// The signed tile numbering of table 0x8800: tile 0 at 0x9000.
pub open spec fn tile_data_addr(m: MemView, tile: u8) -> int {
    if lcdc(m) & 0x10 != 0 {
        0x8000 + tile * 16
    } else if tile < 128 {
        0x9000 + tile * 16
    } else {
        0x9000 + (tile - 256) * 16
    }
}

/// The pixel at (`xpos`, `ypos`) of the background map, or of the window map
/// when `win`, with its color.
pub open spec fn tile_pixel(m: MemView, win: bool, ypos: int, xpos: int) -> (
    TilePixel,
    (u8, u8, u8),
) {
    let map_base: int = if (win && lcdc(m) & 0x40 != 0) || (!win && lcdc(m) & 0x08 != 0) {
        0x9C00
    } else {
        0x9800
    };
    let map_addr = map_base + (ypos / 8) * 32 + xpos / 8;
    let tile = vbyte(m, 0, map_addr);
    let attr: u8 = if color_mode(m) {
        vbyte(m, 1, map_addr)
    } else {
        0
    };
    let col: u8 = (if attr & 0x20 != 0 {
        7 - xpos % 8
    } else {
        xpos % 8
    }) as u8;
    let line: int = if attr & 0x40 != 0 {
        7 - ypos % 8
    } else {
        ypos % 8
    };
    let bank: int = if attr & 0x08 != 0 {
        1
    } else {
        0
    };
    let addr = tile_data_addr(m, tile) + line * 2;
    let cn = color_number_spec(vbyte(m, bank, addr), vbyte(m, bank, addr + 1), col);
    let rgb = if color_mode(m) {
        palette_rgb(m.bg_palette, attr & 0b111, cn)
    } else {
        dmg_rgb(shade(m.io[BGP_REG as int], cn))
    };
    (TilePixel { color_number: cn, tile_attr: TileAttr(attr) }, rgb)
}

/// The background or window pixel at column `x` of the current line.
pub open spec fn bg_outcome(g: GraphicsView, m: MemView, x: int) -> BgOutcome {
    let win = in_window(g, m, x);
    if !(bg_enabled(g, m) || wn_enabled(g, m)) || ly(m) >= 144 || x < first_x(g, m) {
        BgOutcome::Untouched
    } else if !bg_enabled(g, m) && !win {
        BgOutcome::Blank
    } else {
        let ypos: int = if win {
            ly(m) - m.io[WY_REG as int]
        } else {
            (ly(m) + m.io[SCY_REG as int]) % 256
        };
        let xpos: int = if win {
            x - window_x(m)
        } else {
            (m.io[SCX_REG as int] + x) % 256
        };
        let (tp, rgb) = tile_pixel(m, win, ypos, xpos);
        BgOutcome::Drawn(tp, rgb)
    }
}

/// Byte `k` (0-3) of an opaque RGBA pixel.
pub open spec fn rgba_byte(rgb: (u8, u8, u8), k: int) -> u8 {
    if k == 0 {
        rgb.0
    } else if k == 1 {
        rgb.1
    } else if k == 2 {
        rgb.2
    } else {
        255
    }
}

/// The buffers after the background pass over the columns before `upto`.
pub open spec fn bg_line_upto(g: GraphicsView, m: MemView, upto: int) -> GraphicsView {
    GraphicsView {
        pixels: Seq::new(
            g.pixels.len(),
            |p: int|
                if p / 160 == ly(m) && p % 160 < upto {
                    match bg_outcome(g, m, p % 160) {
                        BgOutcome::Untouched => g.pixels[p],
                        BgOutcome::Blank => blank_pixel(),
                        BgOutcome::Drawn(tp, _) => tp,
                    }
                } else {
                    g.pixels[p]
                },
        ),
        screen: Seq::new(
            g.screen.len(),
            |q: int|
                if (q / 4) / 160 == ly(m) && (q / 4) % 160 < upto {
                    match bg_outcome(g, m, (q / 4) % 160) {
                        BgOutcome::Drawn(_, rgb) => rgba_byte(rgb, q % 4),
                        _ => g.screen[q],
                    }
                } else {
                    g.screen[q]
                },
        ),
        ..g
    }
}

pub open spec fn bg_line_spec(g: GraphicsView, m: MemView) -> GraphicsView {
    bg_line_upto(g, m, 160)
}

pub struct Graphics {
    bg_wn_pixel_indexes: Vec<TilePixel>,
    screen_buffer: Vec<u8>,
    bg_on: bool,
    wn_on: bool,
    sprites_on: bool,
}

impl View for Graphics {
    type V = GraphicsView;

    closed spec fn view(&self) -> GraphicsView {
        GraphicsView {
            pixels: self.bg_wn_pixel_indexes@,
            screen: self.screen_buffer@,
            bg_on: self.bg_on,
            wn_on: self.wn_on,
            sprites_on: self.sprites_on,
        }
    }
}

/// A cleared picture: every pixel white, every layer shown.
pub open spec fn cleared(g: GraphicsView) -> bool {
    &&& g.wf()
    &&& g.pixels == Seq::new(PIXEL_COUNT as nat, |i: int| blank_pixel())
    &&& g.screen == Seq::new(SCREEN_BYTES as nat, |i: int| 255u8)
    &&& g.bg_on
    &&& g.wn_on
    &&& g.sprites_on
}

fn filled_pixels() -> (v: Vec<TilePixel>)
    ensures
        v@ == Seq::new(PIXEL_COUNT as nat, |i: int| blank_pixel()),
{
    let mut v: Vec<TilePixel> = Vec::new();
    let mut i: usize = 0;
    while i < PIXEL_COUNT
        invariant
            i <= PIXEL_COUNT,
            v@ == Seq::new(i as nat, |j: int| blank_pixel()),
        decreases PIXEL_COUNT - i,
    {
        v.push(TilePixel::blank());
        i = i + 1;
        assert(v@ =~= Seq::new(i as nat, |j: int| blank_pixel()));
    }
    v
}

fn white_screen() -> (v: Vec<u8>)
    ensures
        v@ == Seq::new(SCREEN_BYTES as nat, |i: int| 255u8),
{
    let v = vec![255u8; SCREEN_BYTES];
    assert(v@ =~= Seq::new(SCREEN_BYTES as nat, |i: int| 255u8));
    v
}

fn dmg_rgb_of(shade: u8) -> (r: (u8, u8, u8))
    ensures
        r == dmg_rgb(shade),
{
    if shade == 0 {
        (0xFF, 0xFF, 0xFF)
    } else if shade == 1 {
        (0xC0, 0xC0, 0xC0)
    } else if shade == 2 {
        (0x60, 0x60, 0x60)
    } else {
        (0x00, 0x00, 0x00)
    }
}

fn vram_byte(mem: &Memory, bank: u8, addr: u16) -> (r: u8)
    requires
        mem@.wf(),
        bank < 2,
        0x8000 <= addr < 0xA000,
    ensures
        r == vbyte(mem@, bank as int, addr as int),
{
    mem.vram_at(bank, addr - 0x8000)
}

impl Graphics {
    pub fn new() -> (g: Graphics)
        ensures
            cleared(g@),
    {
        Graphics {
            bg_wn_pixel_indexes: filled_pixels(),
            screen_buffer: white_screen(),
            bg_on: true,
            wn_on: true,
            sprites_on: true,
        }
    }

    pub fn restart(&mut self)
        ensures
            cleared(final(self)@),
    {
        self.screen_buffer = white_screen();
        self.bg_wn_pixel_indexes = filled_pixels();
        self.bg_on = true;
        self.wn_on = true;
        self.sprites_on = true;
    }

    /// The RGBA picture, row by row.
    pub fn screen(&self) -> (r: &Vec<u8>)
        ensures
            r@ == self@.screen,
    {
        &self.screen_buffer
    }

    /// Whites out the picture, as between two frames.
    pub fn clear_screen(&mut self)
        ensures
            final(self)@ == (GraphicsView {
                screen: Seq::new(SCREEN_BYTES as nat, |i: int| 255u8),
                ..old(self)@
            }),
    {
        self.screen_buffer = white_screen();
    }

    /// Shows or hides the background; returns whether it is now shown.
    pub fn toggle_bg(&mut self) -> (r: bool)
        ensures
            final(self)@ == (GraphicsView { bg_on: !old(self)@.bg_on, ..old(self)@ }),
            r == final(self)@.bg_on,
    {
        self.bg_on = !self.bg_on;
        self.bg_on
    }

    /// Shows or hides the window; returns whether it is now shown.
    pub fn toggle_wn(&mut self) -> (r: bool)
        ensures
            final(self)@ == (GraphicsView { wn_on: !old(self)@.wn_on, ..old(self)@ }),
            r == final(self)@.wn_on,
    {
        self.wn_on = !self.wn_on;
        self.wn_on
    }

    /// Shows or hides the sprites; returns whether they are now shown.
    pub fn toggle_sprites(&mut self) -> (r: bool)
        ensures
            final(self)@ == (GraphicsView { sprites_on: !old(self)@.sprites_on, ..old(self)@ }),
            r == final(self)@.sprites_on,
    {
        self.sprites_on = !self.sprites_on;
        self.sprites_on
    }

    /// A 15-bit CGB color as 8-bit red, green and blue.
    pub fn rgb(palette_h: u8, palette_l: u8) -> (r: (u8, u8, u8))
        ensures
            r == rgb_spec(palette_h, palette_l),
    {
        let r: u8 = palette_l & 0b0001_1111;
        let g: u8 = ((palette_h & 0b11) << 3) | (palette_l >> 5);
        let b: u8 = (palette_h >> 2) & 0b11111;
        (widen(r), widen(g), widen(b))
    }

    pub fn bg_rgb(palette_num: u8, color_number: u8, memory: &Memory) -> (r: (u8, u8, u8))
        requires
            memory@.wf(),
            palette_num < 8,
            color_number < 4,
        ensures
            r == palette_rgb(memory@.bg_palette, palette_num, color_number),
    {
        let palette_h = memory.read_bg_palette(palette_num * 8 + 1 + color_number * 2);
        let palette_l = memory.read_bg_palette(palette_num * 8 + color_number * 2);
        Graphics::rgb(palette_h, palette_l)
    }

    pub fn sprite_rgb(palette_num: u8, color_number: u8, memory: &Memory) -> (r: (u8, u8, u8))
        requires
            memory@.wf(),
            palette_num < 8,
            color_number < 4,
        ensures
            r == palette_rgb(memory@.obj_palette, palette_num, color_number),
    {
        let palette_h = memory.read_sprite_palette(palette_num * 8 + 1 + color_number * 2);
        let palette_l = memory.read_sprite_palette(palette_num * 8 + color_number * 2);
        Graphics::rgb(palette_h, palette_l)
    }
}

fn widen(c: u8) -> (r: u8)
    ensures
        r == widen5(c),
{
    (c << 3) | (c >> 2)
}

proof fn lemma_color_number_small(lo: u8, hi: u8, col: u8)
    requires
        col < 8,
    ensures
        color_number_spec(lo, hi, col) < 4,
        (hi >> (7 - col) as u8) & 1 <= 1,
        (lo >> (7 - col) as u8) & 1 <= 1,
{
    assert((hi >> (7 - col) as u8) & 1 <= 1 && (lo >> (7 - col) as u8) & 1 <= 1) by (bit_vector);
}

proof fn lemma_low_bits(b: u8)
    ensures
        b & 0b111 < 8,
        b & 0b11 < 4,
{
    assert(b & 0b111 < 8 && b & 0b11 < 4) by (bit_vector);
}

/// The start of a tile's data, as the tile-data select bit of LCDC reads its
/// number.
fn tile_location(memory: &Memory, tile: u8) -> (r: u16)
    requires
        memory@.wf(),
    ensures
        r == tile_data_addr(memory@, tile),
        0x8000 <= r <= 0x97F0,
{
    if memory.io_reg(LCDC_REG) & 0x10 != 0 {
        0x8000 + tile as u16 * 16
    } else {
        let n: u16 = sign_extend(tile);
        if is_neg16(n) {
            0x9000 - twos_complement(n) * 16
        } else {
            0x9000 + n * 16
        }
    }
}

#[verifier::rlimit(40)]
fn fetch_tile_pixel(memory: &Memory, is_window: bool, ypos: u8, xpos: u8) -> (r: (
    TilePixel,
    (u8, u8, u8),
))
    requires
        memory@.wf(),
    ensures
        r == tile_pixel(memory@, is_window, ypos as int, xpos as int),
{
    let control: u8 = memory.io_reg(LCDC_REG);
    let map_base: u16 = if (is_window && control & 0x40 != 0) || (!is_window && control & 0x08
        != 0) {
        0x9C00
    } else {
        0x9800
    };
    let map_addr: u16 = map_base + (ypos / 8) as u16 * 32 + (xpos / 8) as u16;
    let tile: u8 = vram_byte(memory, 0, map_addr);
    let color: bool = memory.is_color();
    let attr: TileAttr = TileAttr(if color { vram_byte(memory, 1, map_addr) } else { 0 });
    let col: u8 = if attr.h_flip() { 7 - xpos % 8 } else { xpos % 8 };
    let line: u16 = if attr.v_flip() { 7 - (ypos % 8) as u16 } else { (ypos % 8) as u16 };
    let bank: u8 = attr.tile_vram_bank();
    proof {
        let a: u8 = attr.0;
        assert(a & 0x08 != 0 <==> (a >> 3) & 1 == 1) by (bit_vector);
        assert((a >> 3) & 1 <= 1) by (bit_vector);
    }
    let addr: u16 = tile_location(memory, tile) + line * 2;
    let lo: u8 = vram_byte(memory, bank, addr);
    let hi: u8 = vram_byte(memory, bank, addr + 1);
    proof {
        lemma_color_number_small(lo, hi, col);
        lemma_low_bits(attr.0);
    }
    let color_number: u8 = 2 * ((hi >> (7 - col)) & 1) + ((lo >> (7 - col)) & 1);
    let rgb: (u8, u8, u8) = if color {
        Graphics::bg_rgb(attr.cgb_palette_number(), color_number, memory)
    } else {
        dmg_rgb_of((memory.io_reg(BGP_REG) >> (2 * color_number)) & 0b11)
    };
    (TilePixel::new(color_number, attr), rgb)
}

impl Graphics {
    fn bg_layers(&self, memory: &Memory) -> (r: (bool, bool))
        requires
            memory@.wf(),
        ensures
            r == (bg_enabled(self@, memory@), wn_enabled(self@, memory@)),
    {
        let control: u8 = memory.io_reg(LCDC_REG);
        let bg: bool = if memory.is_color() {
            self.bg_on
        } else {
            control & 0x01 != 0 && self.bg_on
        };
        (bg, control & 0x20 != 0 && self.wn_on)
    }

    /// The background or window pixel at column `x` of the current line.
    #[verifier::rlimit(60)]
    fn bg_pixel(&self, memory: &Memory, x: u8) -> (r: BgOutcome)
        requires
            memory@.wf(),
            x < 160,
        ensures
            r == bg_outcome(self@, memory@, x as int),
    {
        let (bg, wn) = self.bg_layers(memory);
        let curr_line: u8 = memory.io_reg(LY_REG);
        let wx: u8 = memory.io_reg(WX_REG).wrapping_sub(7);
        let wy: u8 = memory.io_reg(WY_REG);
        assert(wx == window_x(memory@));
        let start_x: u8 = if bg { 0 } else { wx };
        if !(bg || wn) || curr_line >= DISPLAY_HEIGHT_PX || x < start_x {
            return BgOutcome::Untouched;
        }
        let is_window: bool = wn && x >= wx && wx < DISPLAY_WIDTH_PX && curr_line >= wy;
        assert(is_window == in_window(self@, memory@, x as int));
        if !bg && !is_window {
            return BgOutcome::Blank;
        }
        let ypos: u8 = if is_window {
            curr_line - wy
        } else {
            curr_line.wrapping_add(memory.io_reg(SCY_REG))
        };
        let xpos: u8 = if is_window {
            x - wx
        } else {
            memory.io_reg(SCX_REG).wrapping_add(x)
        };
        let (tp, rgb) = fetch_tile_pixel(memory, is_window, ypos, xpos);
        BgOutcome::Drawn(tp, rgb)
    }

    fn put_rgb(&mut self, pos: usize, rgb: (u8, u8, u8))
        requires
            old(self)@.wf(),
            pos < PIXEL_COUNT,
        ensures
            final(self)@ == (GraphicsView {
                screen: old(self)@.screen.update(4 * pos as int, rgb.0).update(
                    4 * pos as int + 1,
                    rgb.1,
                ).update(4 * pos as int + 2, rgb.2).update(4 * pos as int + 3, 255),
                ..old(self)@
            }),
    {
        let (r, g, b) = rgb;
        self.screen_buffer[pos * 4] = r;
        self.screen_buffer[pos * 4 + 1] = g;
        self.screen_buffer[pos * 4 + 2] = b;
        self.screen_buffer[pos * 4 + 3] = 255;
    }

    /// Renders the background and window of line LY.
    #[verifier::rlimit(40)]
    pub fn update_line_buffer(&mut self, memory: &Memory)
        requires
            old(self)@.wf(),
            memory@.wf(),
        ensures
            final(self)@ == bg_line_spec(old(self)@, memory@),
            final(self)@.wf(),
    {
        let ghost g0 = self@;
        let ghost m = memory@;
        let curr_line: u8 = memory.io_reg(LY_REG);
        let mut x: u8 = 0;
        assert(self@.pixels =~= bg_line_upto(g0, m, 0).pixels);
        assert(self@.screen =~= bg_line_upto(g0, m, 0).screen);
        while x < DISPLAY_WIDTH_PX
            invariant
                x <= 160,
                memory@ == m,
                m.wf(),
                g0.wf(),
                curr_line == ly(m),
                self@ == bg_line_upto(g0, m, x as int),
            decreases 160 - x,
        {
            let outcome = self.bg_pixel(memory, x);
            assert(outcome == bg_outcome(g0, m, x as int));
            match outcome {
                BgOutcome::Untouched => {},
                BgOutcome::Blank => {
                    let pos: usize = curr_line as usize * 160 + x as usize;
                    self.bg_wn_pixel_indexes[pos] = TilePixel::blank();
                },
                BgOutcome::Drawn(tp, rgb) => {
                    let pos: usize = curr_line as usize * 160 + x as usize;
                    self.bg_wn_pixel_indexes[pos] = tp;
                    self.put_rgb(pos, rgb);
                },
            }
            proof {
                let next = bg_line_upto(g0, m, x + 1);
                assert forall|p: int| 0 <= p < PIXEL_COUNT implies #[trigger] self@.pixels[p]
                    == next.pixels[p] by {
                    if p / 160 == ly(m) && p % 160 == x {
                        assert(p == ly(m) * 160 + x);
                    }
                }
                assert forall|q: int| 0 <= q < SCREEN_BYTES implies #[trigger] self@.screen[q]
                    == next.screen[q] by {
                    if (q / 4) / 160 == ly(m) && (q / 4) % 160 == x {
                        assert(q / 4 == ly(m) * 160 + x);
                    }
                }
                assert(self@.pixels =~= next.pixels);
                assert(self@.screen =~= next.screen);
            }
            x = x + 1;
        }
    }
}

pub open spec fn sprite_height(m: MemView) -> int {
    if lcdc(m) & 0x04 != 0 {
        16
    } else {
        8
    }
}

/// Sprite `s` (0-39) covers the current line and is not hidden off screen.
pub open spec fn sprite_on_line(m: MemView, s: int) -> bool {
    let y = m.oam[4 * s] as int;
    let x = m.oam[4 * s + 1] as int;
    &&& y != 0 && y < 160
    &&& y - 16 <= ly(m) < y - 16 + sprite_height(m)
    &&& x != 0 && x < 168
}

/// The color number of column `c` (0-7) of sprite `s` on the current line.
pub open spec fn sprite_color_number(m: MemView, s: int, c: int) -> u8 {
    let attr = m.oam[4 * s + 3];
    let h = sprite_height(m);
    let tile: int = if h == 16 {
        (m.oam[4 * s + 2] & 0xFE) as int
    } else {
        m.oam[4 * s + 2] as int
    };
    let row = ly(m) - (m.oam[4 * s] - 16);
    let line = if attr & 0x40 != 0 {
        h - 1 - row
    } else {
        row
    };
    let col: u8 = (if attr & 0x20 != 0 {
        7 - c
    } else {
        c
    }) as u8;
    let bank: int = if color_mode(m) && attr & 0x08 != 0 {
        1
    } else {
        0
    };
    let addr = 0x8000 + tile * 16 + line * 2;
    color_number_spec(vbyte(m, bank, addr), vbyte(m, bank, addr + 1), col)
}

/// The color that column `c` of sprite `s` paints, if it paints at all: off
/// screen and color 0 do not; behind-background sprites only paint over
/// background color 0; in CGB mode a background tile with its priority bit
/// wins too, unless LCDC bit 0 puts sprites on top.
pub open spec fn sprite_rgb_at(g: GraphicsView, m: MemView, s: int, c: int) -> Option<
    (u8, u8, u8),
> {
    let x = m.oam[4 * s + 1] - 8 + c;
    let attr = m.oam[4 * s + 3];
    let cn = sprite_color_number(m, s, c);
    if !(0 <= x < 160) || cn == 0 {
        None
    } else {
        let bg_px = g.pixels[ly(m) * 160 + x];
        let above = attr & 0x80 == 0;
        if color_mode(m) {
            if lcdc(m) & 0x01 == 0 || (bg_px.tile_attr.0 & 0x80 == 0 && (above
                || bg_px.color_number == 0)) {
                Some(palette_rgb(m.obj_palette, attr & 0b111, cn))
            } else {
                None
            }
        } else if above || bg_px.color_number == 0 {
            let obp = if attr & 0x10 == 0 {
                m.io[OBP0_REG as int]
            } else {
                m.io[OBP1_REG as int]
            };
            Some(dmg_rgb(shade(obp, cn)))
        } else {
            None
        }
    }
}

/// The picture after the columns of sprite `s` before `upto` were painted.
pub open spec fn sprite_upto(g: GraphicsView, m: MemView, s: int, upto: int) -> GraphicsView {
    GraphicsView {
        screen: Seq::new(
            g.screen.len(),
            |q: int|
                {
                    let p = q / 4;
                    let c = p % 160 - (m.oam[4 * s + 1] - 8);
                    if p / 160 == ly(m) && sprite_on_line(m, s) && 0 <= c < upto && sprite_rgb_at(
                        g,
                        m,
                        s,
                        c,
                    ) is Some {
                        rgba_byte(sprite_rgb_at(g, m, s, c)->0, q % 4)
                    } else {
                        g.screen[q]
                    }
                },
        ),
        ..g
    }
}

/// The picture after the first `n` sprites were painted, in the order 39
/// down to 0, so that lower-numbered sprites end up on top.
pub open spec fn sprites_upto(g: GraphicsView, m: MemView, n: nat) -> GraphicsView
    decreases n,
{
    if n == 0 {
        g
    } else {
        sprite_upto(sprites_upto(g, m, (n - 1) as nat), m, 40 - n, 8)
    }
}

/// The sprite pass over the current line.
pub open spec fn sprites_spec(g: GraphicsView, m: MemView) -> GraphicsView {
    if lcdc(m) & 0x02 != 0 && g.sprites_on && ly(m) < 144 {
        sprites_upto(g, m, 40)
    } else {
        g
    }
}

/// Rendering of the current line: background and window, then sprites, when
/// the LCD is on.
pub open spec fn line_spec(g: GraphicsView, m: MemView) -> GraphicsView {
    if lcdc(m) & 0x80 != 0 {
        sprites_spec(bg_line_spec(g, m), m)
    } else {
        g
    }
}

fn sprite_color(memory: &Memory, s: u8, c: u8) -> (r: u8)
    requires
        memory@.wf(),
        s < 40,
        c < 8,
        sprite_on_line(memory@, s as int),
    ensures
        r == sprite_color_number(memory@, s as int, c as int),
        r < 4,
{
    let base: u8 = s * 4;
    let control: u8 = memory.io_reg(LCDC_REG);
    let curr_line: u8 = memory.io_reg(LY_REG);
    let y: u8 = memory.oam_at(base);
    let attr: TileAttr = TileAttr(memory.oam_at(base + 3));
    let height: u16 = if control & 0x04 != 0 { 16 } else { 8 };
    let tile_raw: u8 = memory.oam_at(base + 2);
    let tile: u16 = if height == 16 { (tile_raw & 0xFE) as u16 } else { tile_raw as u16 };
    let row: u16 = curr_line as u16 + 16 - y as u16;
    let line: u16 = if attr.v_flip() { height - 1 - row } else { row };
    let col: u8 = if attr.h_flip() { 7 - c } else { c };
    let bank: u8 = if memory.is_color() && attr.0 & 0x08 != 0 { 1 } else { 0 };
    let addr: u16 = 0x8000 + tile * 16 + line * 2;
    let lo: u8 = vram_byte(memory, bank, addr);
    let hi: u8 = vram_byte(memory, bank, addr + 1);
    proof {
        lemma_color_number_small(lo, hi, col);
    }
    2 * ((hi >> (7 - col)) & 1) + ((lo >> (7 - col)) & 1)
}

impl Graphics {
    fn sprite_pixel(&self, memory: &Memory, s: u8, c: u8) -> (r: Option<(u8, u8, u8)>)
        requires
            self@.wf(),
            memory@.wf(),
            s < 40,
            c < 8,
            ly(memory@) < 144,
            sprite_on_line(memory@, s as int),
        ensures
            r == sprite_rgb_at(self@, memory@, s as int, c as int),
    {
        let base: u8 = s * 4;
        let x: i16 = memory.oam_at(base + 1) as i16 - 8 + c as i16;
        let attr: TileAttr = TileAttr(memory.oam_at(base + 3));
        let color_number: u8 = sprite_color(memory, s, c);
        if !(0 <= x && x < 160) || color_number == 0 {
            return None;
        }
        let curr_line: u8 = memory.io_reg(LY_REG);
        let bg_px: TilePixel = self.bg_wn_pixel_indexes[curr_line as usize * 160 + x as usize];
        let above: bool = attr.priority() == Priority::Sprite;
        proof {
            lemma_low_bits(attr.0);
        }
        if memory.is_color() {
            let sprites_on_top: bool = memory.io_reg(LCDC_REG) & 0x01 == 0;
            let bg_yields: bool = bg_px.tile_attr.priority() == Priority::Sprite;
            if sprites_on_top || (bg_yields && (above || bg_px.color_number == 0)) {
                Some(Graphics::sprite_rgb(attr.cgb_palette_number(), color_number, memory))
            } else {
                None
            }
        } else if above || bg_px.color_number == 0 {
            let palette: u8 = if attr.0 & 0x10 == 0 {
                memory.io_reg(OBP0_REG)
            } else {
                memory.io_reg(OBP1_REG)
            };
            Some(dmg_rgb_of((palette >> (2 * color_number)) & 0b11))
        } else {
            None
        }
    }

    /// Paints the columns of sprite `s` that show on the current line.
    #[verifier::rlimit(40)]
    fn draw_sprite(&mut self, memory: &Memory, s: u8)
        requires
            old(self)@.wf(),
            memory@.wf(),
            s < 40,
            ly(memory@) < 144,
        ensures
            final(self)@ == sprite_upto(old(self)@, memory@, s as int, 8),
    {
        let ghost g0 = self@;
        let ghost m = memory@;
        let base: u8 = s * 4;
        let control: u8 = memory.io_reg(LCDC_REG);
        let curr_line: u8 = memory.io_reg(LY_REG);
        let height: i16 = if control & 0x04 != 0 { 16 } else { 8 };
        let y: i16 = memory.oam_at(base) as i16;
        let x_raw: u8 = memory.oam_at(base + 1);
        if y == 0 || y >= 160 || (curr_line as i16) < y - 16 || curr_line as i16 >= y - 16 + height
            || x_raw == 0 || x_raw >= 168 {
            assert(!sprite_on_line(m, s as int));
            assert(self@.screen =~= sprite_upto(g0, m, s as int, 8).screen);
            return;
        }
        let x0: i16 = x_raw as i16 - 8;
        let mut c: u8 = 0;
        assert(self@.screen =~= sprite_upto(g0, m, s as int, 0).screen);
        while c < 8
            invariant
                c <= 8,
                memory@ == m,
                m.wf(),
                g0.wf(),
                s < 40,
                ly(m) < 144,
                curr_line == ly(m),
                x0 == m.oam[4 * s + 1] - 8,
                sprite_on_line(m, s as int),
                self@ == sprite_upto(g0, m, s as int, c as int),
            decreases 8 - c,
        {
            let painted = self.sprite_pixel(memory, s, c);
            assert(painted == sprite_rgb_at(g0, m, s as int, c as int));
            match painted {
                Some(rgb) => {
                    let pos: usize = curr_line as usize * 160 + (x0 + c as i16) as usize;
                    self.put_rgb(pos, rgb);
                },
                None => {},
            }
            proof {
                let next = sprite_upto(g0, m, s as int, c + 1);
                assert forall|q: int| 0 <= q < SCREEN_BYTES implies #[trigger] self@.screen[q]
                    == next.screen[q] by {
                    let p = q / 4;
                    if p / 160 == ly(m) && p % 160 - x0 == c {
                        assert(p == ly(m) * 160 + x0 + c);
                    }
                }
                assert(self@.screen =~= next.screen);
            }
            c = c + 1;
        }
    }

    /// Paints the sprites of the current line over its background.
    pub fn draw_sprites(&mut self, memory: &Memory)
        requires
            old(self)@.wf(),
            memory@.wf(),
        ensures
            final(self)@ == sprites_spec(old(self)@, memory@),
            final(self)@.wf(),
    {
        let ghost g0 = self@;
        let ghost m = memory@;
        if memory.io_reg(LCDC_REG) & 0x02 == 0 || !self.sprites_on {
            return;
        }
        let curr_line: u8 = memory.io_reg(LY_REG);
        if curr_line >= DISPLAY_HEIGHT_PX {
            return;
        }
        let mut n: u8 = 0;
        while n < 40
            invariant
                n <= 40,
                memory@ == m,
                m.wf(),
                g0.wf(),
                ly(m) < 144,
                self@.wf(),
                self@ == sprites_upto(g0, m, n as nat),
            decreases 40 - n,
        {
            self.draw_sprite(memory, 39 - n);
            n = n + 1;
        }
    }

    /// Renders line LY when the LCD is on.
    pub fn update(&mut self, memory: &Memory)
        requires
            old(self)@.wf(),
            memory@.wf(),
        ensures
            final(self)@ == line_spec(old(self)@, memory@),
            final(self)@.wf(),
    {
        if memory.io_reg(LCDC_REG) & 0x80 != 0 {
            self.update_line_buffer(memory);
            self.draw_sprites(memory);
        }
    }
}

} // verus!
