use vstd::prelude::*;
use crate::bits::{lemma_pixel_color, lemma_stat_bits};
use crate::constants::{LINES_PER_FRAME, TICKS_PER_LINE, X_RESOLUTION, Y_RESOLUTION};
use crate::interrupts::InterruptType;

verus! {

/// A colour on screen.
#[derive(Debug, Clone, Copy, PartialEq, Eq, Structural)]
pub struct Rgb {
    pub r: u8,
    pub g: u8,
    pub b: u8,
}

/// The four shades of the Game Boy screen, lightest first.
pub open spec fn tile_color_spec(i: int) -> Rgb {
    if i == 0 {
        Rgb { r: 255, g: 255, b: 255 }
    } else if i == 1 {
        Rgb { r: 169, g: 169, b: 169 }
    } else if i == 2 {
        Rgb { r: 84, g: 84, b: 84 }
    } else {
        Rgb { r: 0, g: 0, b: 0 }
    }
}

/// Shade `i` of the screen, lightest first.
pub fn tile_color(i: u8) -> (c: Rgb)
    requires
        i < 4,
    ensures
        c == tile_color_spec(i as int),
{
    match i {
        0 => Rgb { r: 255, g: 255, b: 255 },
        1 => Rgb { r: 169, g: 169, b: 169 },
        2 => Rgb { r: 84, g: 84, b: 84 },
        _ => Rgb { r: 0, g: 0, b: 0 },
    }
}

/// Which of the three palettes a palette register sets.
#[derive(Clone, Copy, PartialEq, Eq, Structural)]
pub enum PaletteType {
    Background,
    Sprite0,
    Sprite1,
}

/// The mode in bits 0-1 of the STAT register.
#[derive(Debug, Clone, Copy, PartialEq, Eq, Structural)]
pub enum LcdMode {
    HBlank,
    VBlank,
    Oam,
    Transfer,
}

/// The number a mode is stored as in STAT.
pub open spec fn mode_bits(mode: LcdMode) -> u8 {
    match mode {
        LcdMode::HBlank => 0,
        LcdMode::VBlank => 1,
        LcdMode::Oam => 2,
        LcdMode::Transfer => 3,
    }
}

/// Bit `n` of `v` is set.
pub open spec fn bit_set(v: u8, n: u8) -> bool {
    (v >> n) & 1 == 1
}

/// LY agrees with the mode: lines 0-143 are drawn (OAM search, transfer,
/// HBlank), lines 144-153 are VBlank.
pub open spec fn line_mode_consistent(p: &Ppu) -> bool {
    if p.stat % 4 == 1 { 144 <= p.ly < 154 } else { p.ly < 144 }
}

/// STAT value `s` with its mode field (bits 0-1) replaced by `m`.
pub open spec fn with_mode(s: u8, m: u8) -> u8 {
    (s / 4 * 4 + m) as u8
}

/// One entry of the object attribute memory.
#[derive(Debug, Copy, Clone, PartialEq, Eq, Structural)]
pub struct SpriteEntry {
    pub y: u8,
    pub x: u8,
    pub tile_index: u8,
    /// Bits: 0-2 CGB palette, 3 VRAM bank, 4 palette number, 5 x flip,
    /// 6 y flip, 7 background over object.
    pub flags: u8,
}

impl SpriteEntry {
    pub fn new() -> (s: SpriteEntry)
        ensures
            s == (SpriteEntry { y: 0, x: 0, tile_index: 0, flags: 0 }),
    {
        SpriteEntry { y: 0, x: 0, tile_index: 0, flags: 0 }
    }
}

/// The state of an OAM DMA transfer.
#[derive(Debug, Copy, Clone, PartialEq, Eq, Structural)]
pub struct Dma {
    pub active: bool,
    pub byte: u8,
    pub value: u8,
    pub start_delay: u8,
}

impl Dma {
    pub fn new() -> (d: Dma)
        ensures
            d == (Dma { active: false, byte: 0, value: 0, start_delay: 0 }),
    {
        Dma { active: false, byte: 0, start_delay: 0, value: 0 }
    }
}

/// Pixel processing unit: video RAM, object memory, LCD registers and the
/// picture it draws line by line.
#[derive(Debug)]
pub struct Ppu {
    pub vram: Vec<u8>,
    pub oam: Vec<SpriteEntry>,
    pub line_ticks: u32,
    pub dma: Dma,
    pub video_buffer: Vec<Rgb>,
    /// LCD status
    pub stat: u8,
    /// LCD control
    pub control: u8,
    pub scroll_x: u8,
    pub scroll_y: u8,
    pub ly: u8,
    pub lyc: u8,
    pub window_x: u8,
    pub window_y: u8,
    pub bg_palette: Vec<Rgb>,
    pub bg_palette_data: u8,
    pub sprite0_palette: Vec<Rgb>,
    pub sprite0_palette_data: u8,
    pub sprite1_palette: Vec<Rgb>,
    pub sprite1_palette_data: u8,
    pub bg_prio: Vec<bool>,
}

/// The four shades, lightest first.
fn default_palette() -> (p: Vec<Rgb>)
    ensures
        p@.len() == 4,
        forall|i: int| 0 <= i < 4 ==> p@[i] == tile_color_spec(i),
{
    let mut p: Vec<Rgb> = Vec::new();
    p.push(tile_color(0));
    p.push(tile_color(1));
    p.push(tile_color(2));
    p.push(tile_color(3));
    p
}

/// STAT after LY moves on: the LY=LYC bit (bit 2) set when the next line
/// is LYC, cleared otherwise.
pub open spec fn lyc_stat(p: &Ppu) -> u8 {
    if p.ly.wrapping_add(1) == p.lyc { p.stat | 4u8 } else { p.stat & !4u8 }
}

/// The interrupts LY moving on asks for: STAT when the next line is LYC and
/// STAT bit 6 enables it.
pub open spec fn lyc_ints(p: &Ppu) -> Seq<InterruptType> {
    if p.ly.wrapping_add(1) == p.lyc && bit_set(p.stat, 6) {
        seq![InterruptType::LcdStat]
    } else {
        Seq::<InterruptType>::empty()
    }
}

/// The PPU at the end of a line in VBlank: the next line, or line 0 in OAM
/// mode after line 153, with the dot count restarted.
pub open spec fn vblank_line_end(p: &Ppu) -> Ppu {
    let ly1 = p.ly.wrapping_add(1);
    Ppu {
        line_ticks: 0,
        ly: if ly1 >= 154 { 0 } else { ly1 },
        stat: if ly1 >= 154 { with_mode(lyc_stat(p), 2) } else { lyc_stat(p) },
        ..*p
    }
}

/// The PPU at the end of a line in HBlank: the next line, in VBlank from
/// line 144 on, else in OAM mode, with the dot count restarted.
pub open spec fn hblank_line_end(p: &Ppu) -> Ppu {
    let ly1 = p.ly.wrapping_add(1);
    Ppu {
        line_ticks: 0,
        ly: ly1,
        stat: with_mode(lyc_stat(p), if ly1 >= 144 { 1u8 } else { 2u8 }),
        ..*p
    }
}

/// The interrupts at the end of a line in HBlank: the LY=LYC ones, then on
/// entering VBlank a VBlank request, and a second one when STAT bit 4 is set.
pub open spec fn hblank_line_ints(p: &Ppu) -> Seq<InterruptType> {
    let ly1 = p.ly.wrapping_add(1);
    lyc_ints(p) + if ly1 >= 144 {
        if bit_set(p.stat, 4) {
            seq![InterruptType::VBlank, InterruptType::VBlank]
        } else {
            seq![InterruptType::VBlank]
        }
    } else {
        Seq::<InterruptType>::empty()
    }
}

/// `p1` holds the picture and priority row of `p0` with line LY drawn:
/// nothing outside the line changes (and nothing at all for a line past the
/// screen); the priority row marks background and window pixels of colour
/// other than 0; without sprites (LCDC bit 1 clear) the line shows
/// background and window, and with sprites each column shows the painting
/// sprite of highest priority among the ten chosen for the line, or
/// background and window where none paints.
pub open spec fn line_drawn(p0: &Ppu, p1: &Ppu) -> bool {
    &&& forall|i: int| 0 <= i < 23040 && !(160 * p0.ly <= i < 160 * p0.ly + 160)
            ==> p1.video_buffer@[i] == p0.video_buffer@[i]
    &&& p0.ly >= 144 ==> p1.video_buffer@ == p0.video_buffer@ && p1.bg_prio@ == p0.bg_prio@
    &&& p0.ly < 144 ==> forall|x: int| 0 <= x < 160 ==> #[trigger] p1.bg_prio@[x] == line_prio(p0, x)
    &&& p0.ly < 144 && !bit_set(p0.control, 1) ==> forall|x: int| 0 <= x < 160
            ==> #[trigger] p1.video_buffer@[160 * p0.ly + x] == line_pixel(p0, x)
    &&& p0.ly < 144 && bit_set(p0.control, 1) ==> {
        let sel = selected(p0, 40);
        &&& forall|x: int| 0 <= x < 160 && (forall|j: int| 0 <= j < sel.len() ==> !sprite_paints(p0, p1.bg_prio@, #[trigger] sel[j].1, x))
            ==> #[trigger] p1.video_buffer@[160 * p0.ly + x] == line_pixel(p0, x)
        &&& forall|x: int, j: int| 0 <= x < 160 && 0 <= j < sel.len() && sprite_paints(p0, p1.bg_prio@, sel[j].1, x)
            && (forall|j2: int| 0 <= j2 < sel.len() && sprite_paints(p0, p1.bg_prio@, #[trigger] sel[j2].1, x)
                ==> has_priority(sel[j], sel[j2]))
            ==> #[trigger] p1.video_buffer@[160 * p0.ly + x] == sprite_rgb(p0, #[trigger] sel[j].1, x)
    }
}

/// One dot of the PPU from `p0` to `p1`, asking for interrupts `ints`: the
/// dot is counted on the line; in OAM search the PPU moves to pixel transfer
/// after 80 dots; pixel transfer draws the line and enters HBlank (asking for
/// STAT when STAT bit 3 enables it); at the end of a line (456 dots) HBlank
/// and VBlank move on to the next line as `hblank_line_end` and
/// `vblank_line_end` say.
pub open spec fn dot_done(p0: Ppu, p1: Ppu, ints: Seq<InterruptType>) -> bool {
    let p = Ppu { line_ticks: p0.line_ticks.wrapping_add(1), ..p0 };
    let mode = p0.stat % 4;
    &&& mode == 2 ==> ints == Seq::<InterruptType>::empty() && p1 == (Ppu {
            stat: if p.line_ticks >= 80 { with_mode(p.stat, 3) } else { p.stat }, ..p })
    &&& mode == 3 ==> p1 == (Ppu { video_buffer: p1.video_buffer,
            bg_prio: p1.bg_prio, stat: with_mode(p.stat, 0), ..p })
        && ints == (if bit_set(p.stat, 3) { seq![InterruptType::LcdStat] } else { Seq::<InterruptType>::empty() })
        && line_drawn(&p, &p1)
    &&& mode == 1 ==> if p.line_ticks < TICKS_PER_LINE {
            p1 == p && ints == Seq::<InterruptType>::empty()
        } else {
            p1 == vblank_line_end(&p) && ints == lyc_ints(&p)
        }
    &&& mode == 0 ==> if p.line_ticks < TICKS_PER_LINE {
            p1 == p && ints == Seq::<InterruptType>::empty()
        } else {
            p1 == hblank_line_end(&p) && ints == hblank_line_ints(&p)
        }
}

/// `p1` is `p0` one dot later, the dot asking for interrupts `ints`.
#[verifier::opaque]
pub open spec fn ppu_ticked(p0: Ppu, p1: Ppu, ints: Seq<InterruptType>) -> bool {
    &&& p1.wf()
    &&& p1.memories_kept(&p0)
    &&& same_registers(&p1, &p0)
    &&& line_mode_consistent(&p0) ==> line_mode_consistent(&p1)
    &&& dot_done(p0, p1, ints)
}

/// Byte `off` of object memory: entry `off / 4`, field `off % 4` (Y, X,
/// tile, flags).
pub open spec fn oam_byte(oam: Seq<SpriteEntry>, off: int) -> u8 {
    let e = oam[off / 4];
    let k = off % 4;
    if k == 0 { e.y } else if k == 1 { e.x } else if k == 2 { e.tile_index } else { e.flags }
}

impl Ppu {
    /// Every memory has its size.
    pub open spec fn wf(&self) -> bool {
        &&& self.vram@.len() == 0x2000
        &&& self.oam@.len() == 40
        &&& self.video_buffer@.len() == 23040
        &&& self.bg_palette@.len() == 4
        &&& self.sprite0_palette@.len() == 4
        &&& self.sprite1_palette@.len() == 4
        &&& self.bg_prio@.len() == 160
    }

    /// The PPU leaves video RAM, object memory and the DMA state as they were.
    pub open spec fn memories_kept(&self, other: &Ppu) -> bool {
        &&& self.vram@ == other.vram@
        &&& self.oam@ == other.oam@
        &&& self.dma == other.dma
    }

    /// A PPU at power-on: memories zeroed, a black picture, LCDC 0x91, OAM mode.
    pub fn new() -> (ppu: Ppu)
        ensures
            ppu.wf(),
            forall|i: int| 0 <= i < 0x2000 ==> ppu.vram@[i] == 0,
            forall|i: int| 0 <= i < 40 ==> ppu.oam@[i] == (SpriteEntry { y: 0, x: 0, tile_index: 0, flags: 0 }),
            ppu.dma == (Dma { active: false, byte: 0, value: 0, start_delay: 0 }),
            ppu.control == 0x91 && ppu.stat == 2 && ppu.line_ticks == 0,
            line_mode_consistent(&ppu),
            ppu.ly == 0 && ppu.lyc == 0 && ppu.scroll_x == 0 && ppu.scroll_y == 0,
            ppu.window_x == 0 && ppu.window_y == 0,
    {
        let mut oam: Vec<SpriteEntry> = Vec::new();
        let mut i: usize = 0;
        while i < 40
            invariant
                i <= 40,
                oam@.len() == i,
                forall|j: int| 0 <= j < i ==> oam@[j] == (SpriteEntry { y: 0, x: 0, tile_index: 0, flags: 0 }),
            decreases 40 - i,
        {
            oam.push(SpriteEntry::new());
            i = i + 1;
        }
        let mut video_buffer: Vec<Rgb> = Vec::new();
        let mut k: usize = 0;
        while k < 23040
            invariant
                k <= 23040,
                video_buffer@.len() == k,
            decreases 23040 - k,
        {
            video_buffer.push(Rgb { r: 0, g: 0, b: 0 });
            k = k + 1;
        }
        let mut bg_prio: Vec<bool> = Vec::new();
        let mut x: usize = 0;
        while x < 160
            invariant
                x <= 160,
                bg_prio@.len() == x,
            decreases 160 - x,
        {
            bg_prio.push(false);
            x = x + 1;
        }
        let mut ppu = Ppu {
            vram: crate::mmu::zeroed(0x2000),
            oam,
            dma: Dma::new(),
            line_ticks: 0,
            video_buffer,
            stat: 0,
            control: 0x91,
            scroll_x: 0,
            scroll_y: 0,
            ly: 0,
            lyc: 0,
            window_x: 0,
            window_y: 0,
            bg_palette: default_palette(),
            bg_palette_data: 0,
            sprite0_palette: default_palette(),
            sprite0_palette_data: 0,
            sprite1_palette: default_palette(),
            sprite1_palette_data: 0,
            bg_prio,
        };
        ppu.set_stat_mode(LcdMode::Oam);
        ppu
    }

    pub fn dma_transferring(&self) -> (r: bool)
        ensures
            r == self.dma.active,
    {
        self.dma.active
    }

    pub fn set_dma_active(&mut self, value: bool)
        ensures
            *final(self) == (Ppu { dma: Dma { active: value, ..old(self).dma }, ..*old(self) }),
    {
        self.dma.active = value;
    }

    pub fn dma_active(&self) -> (r: bool)
        ensures
            r == self.dma.active,
    {
        self.dma.active
    }

    pub fn set_dma_byte(&mut self, value: u8)
        ensures
            *final(self) == (Ppu { dma: Dma { byte: value, ..old(self).dma }, ..*old(self) }),
    {
        self.dma.byte = value;
    }

    pub fn dma_byte(&self) -> (r: u8)
        ensures
            r == self.dma.byte,
    {
        self.dma.byte
    }

    pub fn set_dma_start_delay(&mut self, value: u8)
        ensures
            *final(self) == (Ppu { dma: Dma { start_delay: value, ..old(self).dma }, ..*old(self) }),
    {
        self.dma.start_delay = value;
    }

    pub fn dma_start_delay(&self) -> (r: u8)
        ensures
            r == self.dma.start_delay,
    {
        self.dma.start_delay
    }

    pub fn set_dma_value(&mut self, value: u8)
        ensures
            *final(self) == (Ppu { dma: Dma { value: value, ..old(self).dma }, ..*old(self) }),
    {
        self.dma.value = value;
    }

    pub fn dma_value(&self) -> (r: u8)
        ensures
            r == self.dma.value,
    {
        self.dma.value
    }

    /// Starts an OAM DMA transfer from page `value` after a delay of two.
    pub fn dma_start(&mut self, value: u8)
        ensures
            *final(self) == (Ppu { dma: Dma { active: true, byte: 0, start_delay: 2, value: value }, ..*old(self) }),
    {
        self.dma.active = true;
        self.dma.byte = 0;
        self.dma.start_delay = 2;
        self.dma.value = value;
    }

    pub fn set_line_ticks(&mut self, value: u32)
        ensures
            *final(self) == (Ppu { line_ticks: value, ..*old(self) }),
    {
        self.line_ticks = value;
    }

    pub fn line_ticks(&self) -> (r: u32)
        ensures
            r == self.line_ticks,
    {
        self.line_ticks
    }

    pub fn increment_line_ticks(&mut self)
        ensures
            *final(self) == (Ppu { line_ticks: old(self).line_ticks.wrapping_add(1), ..*old(self) }),
    {
        self.line_ticks = self.line_ticks.wrapping_add(1);
    }

    pub fn set_ly(&mut self, value: u8)
        ensures
            *final(self) == (Ppu { ly: value, ..*old(self) }),
    {
        self.ly = value;
    }

    pub fn ly(&self) -> (r: u8)
        ensures
            r == self.ly,
    {
        self.ly
    }

    pub fn set_lyc(&mut self, value: u8)
        ensures
            *final(self) == (Ppu { lyc: value, ..*old(self) }),
    {
        self.lyc = value;
    }

    pub fn lyc(&self) -> (r: u8)
        ensures
            r == self.lyc,
    {
        self.lyc
    }

    pub fn set_scroll_x(&mut self, value: u8)
        ensures
            *final(self) == (Ppu { scroll_x: value, ..*old(self) }),
    {
        self.scroll_x = value;
    }

    pub fn scroll_x(&self) -> (r: u8)
        ensures
            r == self.scroll_x,
    {
        self.scroll_x
    }

    pub fn set_scroll_y(&mut self, value: u8)
        ensures
            *final(self) == (Ppu { scroll_y: value, ..*old(self) }),
    {
        self.scroll_y = value;
    }

    pub fn scroll_y(&self) -> (r: u8)
        ensures
            r == self.scroll_y,
    {
        self.scroll_y
    }

    pub fn set_window_x(&mut self, value: u8)
        ensures
            *final(self) == (Ppu { window_x: value, ..*old(self) }),
    {
        self.window_x = value;
    }

    pub fn window_x(&self) -> (r: u8)
        ensures
            r == self.window_x,
    {
        self.window_x
    }

    pub fn set_window_y(&mut self, value: u8)
        ensures
            *final(self) == (Ppu { window_y: value, ..*old(self) }),
    {
        self.window_y = value;
    }

    pub fn window_y(&self) -> (r: u8)
        ensures
            r == self.window_y,
    {
        self.window_y
    }

    /// The STAT register.
    pub fn stat(&self) -> (r: u8)
        ensures
            r == self.stat,
    {
        self.stat
    }

    /// The LCDC register.
    pub fn control(&self) -> (r: u8)
        ensures
            r == self.control,
    {
        self.control
    }
}

/// The shade number a palette register gives to colour `i`.
pub open spec fn palette_entry(data: u8, i: int) -> u8 {
    (data >> ((2 * i) as u8)) & 3
}

/// `pal` holds the four shades that palette register value `data` selects.
pub open spec fn shades_of(pal: Seq<Rgb>, data: u8) -> bool {
    &&& pal.len() == 4
    &&& forall|i: int| 0 <= i < 4 ==> #[trigger] pal[i] == tile_color_spec(palette_entry(data, i) as int)
}

/// `p1` is `p0` with palette `t` set from register value `data`.
pub open spec fn palette_updated(p0: Ppu, p1: Ppu, t: PaletteType, data: u8) -> bool {
    match t {
        PaletteType::Background => p1 == (Ppu { bg_palette: p1.bg_palette, bg_palette_data: data, ..p0 })
            && shades_of(p1.bg_palette@, data),
        PaletteType::Sprite0 => p1 == (Ppu { sprite0_palette: p1.sprite0_palette, sprite0_palette_data: data, ..p0 })
            && shades_of(p1.sprite0_palette@, data),
        PaletteType::Sprite1 => p1 == (Ppu { sprite1_palette: p1.sprite1_palette, sprite1_palette_data: data, ..p0 })
            && shades_of(p1.sprite1_palette@, data),
    }
}

/// `p1` is `p0` after a write of `value` to LCD register `addr`
/// (0xFF40-0xFF4B): LCDC, STAT, SCY, SCX, LY, LYC, DMA (starting a
/// transfer after a delay), BGP, OBP0, OBP1 (low two bits dropped), WY, WX.
pub open spec fn lcd_written(p0: Ppu, p1: Ppu, addr: u16, value: u8) -> bool {
    if addr == 0xFF40 {
        p1 == (Ppu { control: value, ..p0 })
    } else if addr == 0xFF41 {
        p1 == (Ppu { stat: value, ..p0 })
    } else if addr == 0xFF42 {
        p1 == (Ppu { scroll_y: value, ..p0 })
    } else if addr == 0xFF43 {
        p1 == (Ppu { scroll_x: value, ..p0 })
    } else if addr == 0xFF44 {
        p1 == (Ppu { ly: value, ..p0 })
    } else if addr == 0xFF45 {
        p1 == (Ppu { lyc: value, ..p0 })
    } else if addr == 0xFF46 {
        p1 == (Ppu { dma: Dma { active: true, byte: 0, start_delay: 2, value: value }, ..p0 })
    } else if addr == 0xFF47 {
        palette_updated(p0, p1, PaletteType::Background, value)
    } else if addr == 0xFF48 {
        palette_updated(p0, p1, PaletteType::Sprite0, value & 0b1111_1100)
    } else if addr == 0xFF49 {
        palette_updated(p0, p1, PaletteType::Sprite1, value & 0b1111_1100)
    } else if addr == 0xFF4A {
        p1 == (Ppu { window_y: value, ..p0 })
    } else {
        p1 == (Ppu { window_x: value, ..p0 })
    }
}

/// The registers that drawing and mode changes leave alone.
pub open spec fn same_registers(p: &Ppu, q: &Ppu) -> bool {
    &&& p.control == q.control && p.scroll_x == q.scroll_x && p.scroll_y == q.scroll_y
    &&& p.lyc == q.lyc && p.window_x == q.window_x && p.window_y == q.window_y
    &&& p.bg_palette@ == q.bg_palette@ && p.sprite0_palette@ == q.sprite0_palette@
    &&& p.sprite1_palette@ == q.sprite1_palette@ && p.bg_palette_data == q.bg_palette_data
    &&& p.sprite0_palette_data == q.sprite0_palette_data && p.sprite1_palette_data == q.sprite1_palette_data
}

/// Sprite height in lines: 16 when LCDC bit 2 is set, else 8.
pub open spec fn sprite_height(p: &Ppu) -> u8 {
    if bit_set(p.control, 2) { 16u8 } else { 8u8 }
}

/// An OAM entry placed on screen: Y taken 16 and X taken 8 back (wrapping).
pub open spec fn placed(e: SpriteEntry) -> SpriteEntry {
    SpriteEntry { y: e.y.wrapping_sub(16), x: e.x.wrapping_sub(8), ..e }
}

/// The sprites on line LY among the first `k` OAM slots, at most ten, in
/// OAM order, each with its slot and placed on screen.
pub open spec fn selected(p: &Ppu, k: int) -> Seq<(usize, SpriteEntry)>
    decreases k,
{
    if k <= 0 {
        Seq::empty()
    } else {
        let prev = selected(p, k - 1);
        let a = placed(p.oam@[k - 1]);
        if p.ly.wrapping_sub(a.y) < sprite_height(p) && prev.len() < 10 {
            prev.push(((k - 1) as usize, a))
        } else {
            prev
        }
    }
}

/// Offset into video RAM of the row of sprite `s` that line LY shows: the
/// row is flipped when flag bit 6 is set, and 8x16 sprites use the even tile
/// for their top half and the next one for the bottom half.
pub open spec fn sprite_row(p: &Ppu, s: SpriteEntry) -> int {
    let size = sprite_height(p);
    let base = s.tile_index as u16;
    let tile0: u16 = if size == 16 { base & 0xFE } else { base };
    let dy = p.ly.wrapping_sub(s.y);
    let line0: int = if bit_set(s.flags, 6) { size - dy - 1 } else { dy as int };
    let tile: int = if line0 >= 8 { tile0 + 1 } else { tile0 as int };
    let line: int = if line0 >= 8 { line0 - 8 } else { line0 };
    tile * 16 + line * 2
}

/// Colour number of sprite `s` at screen column `x` (its column is
/// `(x - s.x) mod 256`, mirrored when flag bit 5 is set).
pub open spec fn sprite_color(p: &Ppu, s: SpriteEntry, x: int) -> u8 {
    let step = (x - s.x) % 256;
    let off = sprite_row(p, s);
    let hi = p.vram@[off];
    let low = p.vram@[off + 1];
    let bit: u8 = if bit_set(s.flags, 5) { step as u8 } else { (7 - step) as u8 };
    (((hi >> bit) & 1u8) + 2 * ((low >> bit) & 1u8)) as u8
}

/// Sprite `s` paints screen column `x`: the column is one of its eight, its
/// colour there is not 0, and it is not behind a background pixel of colour
/// other than 0 (flag bit 7, priority row `prio`).
pub open spec fn sprite_paints(p: &Ppu, prio: Seq<bool>, s: SpriteEntry, x: int) -> bool {
    &&& 0 <= x < 160
    &&& (x - s.x) % 256 < 8
    &&& sprite_color(p, s, x) != 0
    &&& !bit_set(s.flags, 7) || !prio[x]
}

/// The shade sprite `s` gives column `x`, from object palette 1 when flag
/// bit 4 is set, else palette 0.
pub open spec fn sprite_rgb(p: &Ppu, s: SpriteEntry, x: int) -> Rgb {
    let c = sprite_color(p, s, x) as int;
    if bit_set(s.flags, 4) { p.sprite1_palette@[c] } else { p.sprite0_palette@[c] }
}

/// Column `x` of line LY after the first `k` sprites of `v` are drawn in
/// order over background and window.
pub open spec fn painted(p: &Ppu, prio: Seq<bool>, v: Seq<(usize, SpriteEntry)>, k: int, x: int) -> Rgb
    decreases k,
{
    if k <= 0 {
        line_pixel(p, x)
    } else if sprite_paints(p, prio, v[k - 1].1, x) {
        sprite_rgb(p, v[k - 1].1, x)
    } else {
        painted(p, prio, v, k - 1, x)
    }
}

/// Sprite `a` has priority over `b` on screen: smaller X, then smaller slot.
pub open spec fn has_priority(a: (usize, SpriteEntry), b: (usize, SpriteEntry)) -> bool {
    a.1.x < b.1.x || (a.1.x == b.1.x && a.0 <= b.0)
}

/// The priority row once background and window are drawn: a pixel of
/// colour other than 0 there.
pub open spec fn line_prio(p: &Ppu, x: int) -> bool {
    if window_on(p) && x >= window_left(p) {
        win_color(p, x as u8) != 0
    } else if p.control & 1 == 1 {
        bg_color(p, x as u8) != 0
    } else {
        p.bg_prio@[x]
    }
}

/// The sprites chosen for a line come from increasing slots below `k`, at
/// most ten, each on the line.
pub proof fn lemma_selected(p: &Ppu, k: int)
    requires
        0 <= k <= p.oam@.len() == 40,
    ensures
        selected(p, k).len() <= 10,
        forall|i: int| 0 <= i < selected(p, k).len() ==> #[trigger] selected(p, k)[i].0 < k,
        forall|i: int, j: int| 0 <= i < j < selected(p, k).len() ==> selected(p, k)[i].0 < selected(p, k)[j].0,
        forall|i: int| 0 <= i < selected(p, k).len() ==>
            (p.ly.wrapping_sub(#[trigger] selected(p, k)[i].1.y) as int) < sprite_height(p),
    decreases k,
{
    if k > 0 {
        lemma_selected(p, k - 1);
        let prev = selected(p, k - 1);
        let cur = selected(p, k);
        let a = placed(p.oam@[k - 1]);
        if p.ly.wrapping_sub(a.y) < sprite_height(p) && prev.len() < 10 {
            assert(cur == prev.push(((k - 1) as usize, a)));
            assert(((k - 1) as usize) as int == k - 1);
            assert forall|i: int, j: int| 0 <= i < j < cur.len() implies cur[i].0 < cur[j].0 by {
                assert(cur[i] == prev[i]);
                assert(prev[i].0 < k - 1);
                if j < prev.len() {
                    assert(cur[j] == prev[j]);
                    assert(prev[i].0 < prev[j].0);
                } else {
                    assert(cur[j].0 == k - 1);
                }
            }
        } else {
            assert(cur == prev);
        }
    }
}

/// With the sprites in drawing order and from distinct slots, the column
/// shows the painting sprite of highest priority.
proof fn lemma_painted_least(p: &Ppu, prio: Seq<bool>, v: Seq<(usize, SpriteEntry)>, n: int, x: int, j: int)
    requires
        0 <= j < n <= v.len(),
        forall|a: int, b: int| 0 <= a < b < v.len() ==> drawn_before(v[a], v[b]),
        distinct_slots(v),
        sprite_paints(p, prio, v[j].1, x),
        forall|i: int| 0 <= i < n && sprite_paints(p, prio, v[i].1, x) ==> has_priority(v[j], v[i]),
    ensures
        painted(p, prio, v, n, x) == sprite_rgb(p, v[j].1, x),
    decreases n,
{
    if sprite_paints(p, prio, v[n - 1].1, x) {
        if j < n - 1 {
            assert(drawn_before(v[j], v[n - 1]));
            assert(has_priority(v[j], v[n - 1]));
            assert(v[j].0 != v[n - 1].0);
        }
    } else {
        lemma_painted_least(p, prio, v, n - 1, x, j);
    }
}

/// A column no sprite paints shows background and window.
proof fn lemma_painted_none(p: &Ppu, prio: Seq<bool>, v: Seq<(usize, SpriteEntry)>, n: int, x: int)
    requires
        0 <= n <= v.len(),
        forall|i: int| 0 <= i < n ==> !sprite_paints(p, prio, v[i].1, x),
    ensures
        painted(p, prio, v, n, x) == line_pixel(p, x),
    decreases n,
{
    if n > 0 {
        lemma_painted_none(p, prio, v, n - 1, x);
    }
}

/// No two sprites of `v` come from the same OAM slot.
pub open spec fn distinct_slots(v: Seq<(usize, SpriteEntry)>) -> bool {
    forall|a: int, b: int| 0 <= a < b < v.len() ==> #[trigger] v[a].0 != #[trigger] v[b].0
}

/// Sprite `a` is drawn before sprite `b`: larger X first, then larger OAM index.
pub open spec fn drawn_before(a: (usize, SpriteEntry), b: (usize, SpriteEntry)) -> bool {
    a.1.x > b.1.x || (a.1.x == b.1.x && a.0 >= b.0)
}

/// Orders the sprites of a line for drawing: X descending, then OAM index
/// descending, so that the sprites with priority are drawn last.
fn sort_sprites(v: &mut Vec<(usize, SpriteEntry)>, line: u8, size: u8)
    requires
        forall|k: int| 0 <= k < old(v)@.len() ==> (line.wrapping_sub(#[trigger] old(v)@[k].1.y) as int) < size,
    ensures
        final(v)@.len() == old(v)@.len(),
        forall|k: int| 0 <= k < final(v)@.len() ==> (line.wrapping_sub(#[trigger] final(v)@[k].1.y) as int) < size,
        forall|i: int, j: int| 0 <= i < j < final(v)@.len() ==> drawn_before(final(v)@[i], final(v)@[j]),
        forall|e: (usize, SpriteEntry)| final(v)@.contains(e) <==> old(v)@.contains(e),
        distinct_slots(old(v)@) ==> distinct_slots(final(v)@),
{
    let n: usize = v.len();
    let mut i: usize = 0;
    while i < n
        invariant
            n == v@.len(),
            i <= n,
            forall|k: int| 0 <= k < v@.len() ==> (line.wrapping_sub(#[trigger] v@[k].1.y) as int) < size,
            forall|a: int, b: int| 0 <= a < b < i ==> drawn_before(v@[a], v@[b]),
            forall|a: int, b: int| 0 <= a < i <= b < n ==> drawn_before(v@[a], v@[b]),
            forall|e: (usize, SpriteEntry)| v@.contains(e) <==> old(v)@.contains(e),
            distinct_slots(old(v)@) ==> distinct_slots(v@),
        decreases n - i,
    {
        let mut best: usize = i;
        let mut j: usize = i + 1;
        while j < n
            invariant
                n == v@.len(),
                i < n,
                i <= best < n,
                i < j <= n,
                forall|b: int| i <= b < j ==> drawn_before(v@[best as int], v@[b]),
            decreases n - j,
        {
            let cand = v[j];
            let cur = v[best];
            if cand.1.x > cur.1.x || (cand.1.x == cur.1.x && cand.0 >= cur.0) {
                best = j;
            }
            j = j + 1;
        }
        let tmp = v[i];
        let chosen = v[best];
        let ghost before = v@;
        v.set(i, chosen);
        v.set(best, tmp);
        proof {
            assert forall|e: (usize, SpriteEntry)| v@.contains(e) <==> before.contains(e) by {
                if v@.contains(e) {
                    let j = choose|j: int| 0 <= j < v@.len() && v@[j] == e;
                    if j == i as int {
                        assert(before[best as int] == e);
                    } else if j == best as int {
                        assert(before[i as int] == e);
                    } else {
                        assert(before[j] == e);
                    }
                }
                if before.contains(e) {
                    let j = choose|j: int| 0 <= j < before.len() && before[j] == e;
                    if j == i as int {
                        assert(v@[best as int] == e);
                    } else if j == best as int {
                        assert(v@[i as int] == e);
                    } else {
                        assert(v@[j] == e);
                    }
                }
            }
            if distinct_slots(before) {
                assert forall|a: int, b: int| 0 <= a < b < v@.len() implies #[trigger] v@[a].0 != #[trigger] v@[b].0 by {
                    let sa = if a == i as int { best as int } else if a == best as int { i as int } else { a };
                    let sb = if b == i as int { best as int } else if b == best as int { i as int } else { b };
                    assert(v@[a] == before[sa] && v@[b] == before[sb]);
                    assert(sa != sb);
                }
            }
        }
        i = i + 1;
    }
}

impl Ppu {
    /// Stores a palette register and the four shades it selects.
    pub fn update_palette(&mut self, palette_type: &PaletteType, palette_data: u8)
        requires
            old(self).wf(),
        ensures
            final(self).wf(),
            palette_updated(*old(self), *final(self), *palette_type, palette_data),
            *palette_type == PaletteType::Background ==> final(self).bg_palette_data == palette_data
                && (forall|i: int| 0 <= i < 4 ==> final(self).bg_palette@[i] == tile_color_spec(palette_entry(palette_data, i) as int))
                && final(self).sprite0_palette@ == old(self).sprite0_palette@ && final(self).sprite1_palette@ == old(self).sprite1_palette@
                && final(self).sprite0_palette_data == old(self).sprite0_palette_data && final(self).sprite1_palette_data == old(self).sprite1_palette_data,
            *palette_type == PaletteType::Sprite0 ==> final(self).sprite0_palette_data == palette_data
                && (forall|i: int| 0 <= i < 4 ==> final(self).sprite0_palette@[i] == tile_color_spec(palette_entry(palette_data, i) as int))
                && final(self).bg_palette@ == old(self).bg_palette@ && final(self).sprite1_palette@ == old(self).sprite1_palette@
                && final(self).bg_palette_data == old(self).bg_palette_data && final(self).sprite1_palette_data == old(self).sprite1_palette_data,
            *palette_type == PaletteType::Sprite1 ==> final(self).sprite1_palette_data == palette_data
                && (forall|i: int| 0 <= i < 4 ==> final(self).sprite1_palette@[i] == tile_color_spec(palette_entry(palette_data, i) as int))
                && final(self).bg_palette@ == old(self).bg_palette@ && final(self).sprite0_palette@ == old(self).sprite0_palette@
                && final(self).bg_palette_data == old(self).bg_palette_data && final(self).sprite0_palette_data == old(self).sprite0_palette_data,
            final(self).vram@ == old(self).vram@ && final(self).oam@ == old(self).oam@ && final(self).dma == old(self).dma,
            final(self).video_buffer@ == old(self).video_buffer@ && final(self).bg_prio@ == old(self).bg_prio@,
            final(self).stat == old(self).stat && final(self).control == old(self).control,
            final(self).ly == old(self).ly && final(self).lyc == old(self).lyc && final(self).line_ticks == old(self).line_ticks,
            final(self).scroll_x == old(self).scroll_x && final(self).scroll_y == old(self).scroll_y,
            final(self).window_x == old(self).window_x && final(self).window_y == old(self).window_y,
    {
        proof {
            assert((palette_data >> 0u8) & 3 < 4 && (palette_data >> 2u8) & 3 < 4
                && (palette_data >> 4u8) & 3 < 4 && (palette_data >> 6u8) & 3 < 4) by (bit_vector);
        }
        let c0: Rgb = tile_color((palette_data >> 0) & 0b11);
        let c1: Rgb = tile_color((palette_data >> 2) & 0b11);
        let c2: Rgb = tile_color((palette_data >> 4) & 0b11);
        let c3: Rgb = tile_color((palette_data >> 6) & 0b11);
        let mut colors: Vec<Rgb> = Vec::new();
        colors.push(c0);
        colors.push(c1);
        colors.push(c2);
        colors.push(c3);
        assert(forall|i: int| 0 <= i < 4 ==> colors@[i] == tile_color_spec(palette_entry(palette_data, i) as int)) by {
            assert(palette_entry(palette_data, 0) == (palette_data >> 0u8) & 3);
            assert(palette_entry(palette_data, 1) == (palette_data >> 2u8) & 3);
            assert(palette_entry(palette_data, 2) == (palette_data >> 4u8) & 3);
            assert(palette_entry(palette_data, 3) == (palette_data >> 6u8) & 3);
        }
        match palette_type {
            PaletteType::Background => {
                self.bg_palette_data = palette_data;
                self.bg_palette = colors;
            },
            PaletteType::Sprite0 => {
                self.sprite0_palette_data = palette_data;
                self.sprite0_palette = colors;
            },
            PaletteType::Sprite1 => {
                self.sprite1_palette_data = palette_data;
                self.sprite1_palette = colors;
            },
        }
    }

    /// Stores a byte of object memory: entry `offset / 4`, field `offset % 4`
    /// (Y, X, tile, flags), where the offset is taken from 0xFE00 for OAM
    /// addresses and from 0 otherwise.
    pub fn write_oam(&mut self, addr: u16, value: u8)
        requires
            old(self).wf(),
            0xFE00 <= addr < 0xFEA0 || addr < 0xA0,
        ensures
            final(self).wf(),
            ({
                let off: int = if addr >= 0xFE00 { addr - 0xFE00 } else { addr as int };
                let e = old(self).oam@[off / 4];
                let ne = if off % 4 == 0 {
                    SpriteEntry { y: value, ..e }
                } else if off % 4 == 1 {
                    SpriteEntry { x: value, ..e }
                } else if off % 4 == 2 {
                    SpriteEntry { tile_index: value, ..e }
                } else {
                    SpriteEntry { flags: value, ..e }
                };
                final(self).oam@ == old(self).oam@.update(off / 4, ne)
            }),
            forall|o: int| 0 <= o < 0xA0 ==> #[trigger] oam_byte(final(self).oam@, o) == if o == (if addr >= 0xFE00 { addr - 0xFE00 } else { addr as int }) {
                value
            } else {
                oam_byte(old(self).oam@, o)
            },
            *final(self) == (Ppu { oam: final(self).oam, ..*old(self) }),
    {
        let off: u16 = if addr >= 0xFE00 { addr - 0xFE00 } else { addr };
        let index: usize = (off / 4) as usize;
        let inner_index: u16 = off % 4;
        let mut e: SpriteEntry = self.oam[index];
        if inner_index == 0 {
            e.y = value;
        } else if inner_index == 1 {
            e.x = value;
        } else if inner_index == 2 {
            e.tile_index = value;
        } else {
            e.flags = value;
        }
        self.oam.set(index, e);
        assert forall|o: int| 0 <= o < 0xA0 implies #[trigger] oam_byte(self.oam@, o) == if o == off as int {
            value
        } else {
            oam_byte(old(self).oam@, o)
        } by {
            if o / 4 != index as int {
                assert(self.oam@[o / 4] == old(self).oam@[o / 4]);
            }
        }
    }

    /// A byte of object memory at an OAM address.
    pub fn read_oam(&self, addr: u16) -> (r: u8)
        requires
            self.wf(),
            0xFE00 <= addr < 0xFEA0,
        ensures
            r == oam_byte(self.oam@, addr - 0xFE00),
    {
        let index: usize = ((addr - 0xFE00) / 4) as usize;
        let inner_index: u16 = (addr - 0xFE00) % 4;
        let e: SpriteEntry = self.oam[index];
        if inner_index == 0 {
            e.y
        } else if inner_index == 1 {
            e.x
        } else if inner_index == 2 {
            e.tile_index
        } else {
            e.flags
        }
    }

    pub fn write_vram(&mut self, addr: u16, value: u8)
        requires
            old(self).wf(),
            0x8000 <= addr < 0xA000,
        ensures
            final(self).wf(),
            final(self).vram@ == old(self).vram@.update(addr - 0x8000, value),
            *final(self) == (Ppu { vram: final(self).vram, ..*old(self) }),
    {
        self.vram.set((addr - 0x8000) as usize, value);
    }

    pub fn read_vram(&self, addr: u16) -> (r: u8)
        requires
            self.wf(),
            0x8000 <= addr < 0xA000,
        ensures
            r == self.vram@[addr - 0x8000],
    {
        self.vram[(addr - 0x8000) as usize]
    }

    /// Writes an LCD register 0xFF40-0xFF4B: LCDC, STAT, SCY, SCX, LY, LYC,
    /// DMA (starts a transfer), BGP, OBP0, OBP1 (low two bits dropped), WY, WX.
    pub fn write_lcd(&mut self, addr: u16, value: u8)
        requires
            old(self).wf(),
            0xFF40 <= addr <= 0xFF4B,
        ensures
            final(self).wf(),
            final(self).vram@ == old(self).vram@ && final(self).oam@ == old(self).oam@,
            final(self).video_buffer@ == old(self).video_buffer@,
            addr == 0xFF40 ==> *final(self) == (Ppu { control: value, ..*old(self) }),
            addr == 0xFF41 ==> *final(self) == (Ppu { stat: value, ..*old(self) }),
            addr == 0xFF42 ==> *final(self) == (Ppu { scroll_y: value, ..*old(self) }),
            addr == 0xFF43 ==> *final(self) == (Ppu { scroll_x: value, ..*old(self) }),
            addr == 0xFF44 ==> *final(self) == (Ppu { ly: value, ..*old(self) }),
            addr == 0xFF45 ==> *final(self) == (Ppu { lyc: value, ..*old(self) }),
            addr == 0xFF46 ==> *final(self) == (Ppu { dma: Dma { active: true, byte: 0, start_delay: 2, value: value }, ..*old(self) }),
            addr == 0xFF47 ==> final(self).bg_palette_data == value,
            addr == 0xFF48 ==> final(self).sprite0_palette_data == value & 0b1111_1100,
            addr == 0xFF49 ==> final(self).sprite1_palette_data == value & 0b1111_1100,
            addr == 0xFF4A ==> *final(self) == (Ppu { window_y: value, ..*old(self) }),
            addr == 0xFF4B ==> *final(self) == (Ppu { window_x: value, ..*old(self) }),
            0xFF47 <= addr <= 0xFF49 ==> final(self).dma == old(self).dma && final(self).stat == old(self).stat
                && final(self).ly == old(self).ly && final(self).line_ticks == old(self).line_ticks,
            lcd_written(*old(self), *final(self), addr, value),
    {
        let index: u16 = addr - 0xFF40;
        if index == 0x0 {
            self.control = value;
        } else if index == 0x1 {
            self.stat = value;
        } else if index == 0x2 {
            self.scroll_y = value;
        } else if index == 0x3 {
            self.scroll_x = value;
        } else if index == 0x4 {
            self.ly = value;
        } else if index == 0x5 {
            self.lyc = value;
        } else if index == 0x6 {
            self.dma_start(value);
        } else if index == 0x7 {
            self.update_palette(&PaletteType::Background, value);
        } else if index == 0x8 {
            self.update_palette(&PaletteType::Sprite0, value & 0b1111_1100);
        } else if index == 0x9 {
            self.update_palette(&PaletteType::Sprite1, value & 0b1111_1100);
        } else if index == 0xA {
            self.window_y = value;
        } else {
            self.window_x = value;
        }
    }

    /// Reads an LCD register 0xFF40-0xFF4B.
    pub fn read_lcd(&self, addr: u16) -> (r: u8)
        requires
            0xFF40 <= addr <= 0xFF4B,
        ensures
            addr == 0xFF40 ==> r == self.control,
            addr == 0xFF41 ==> r == self.stat,
            addr == 0xFF42 ==> r == self.scroll_y,
            addr == 0xFF43 ==> r == self.scroll_x,
            addr == 0xFF44 ==> r == self.ly,
            addr == 0xFF45 ==> r == self.lyc,
            addr == 0xFF46 ==> r == self.dma.value,
            addr == 0xFF47 ==> r == self.bg_palette_data,
            addr == 0xFF48 ==> r == self.sprite0_palette_data,
            addr == 0xFF49 ==> r == self.sprite1_palette_data,
            addr == 0xFF4A ==> r == self.window_y,
            addr == 0xFF4B ==> r == self.window_x,
    {
        let index: u16 = addr - 0xFF40;
        if index == 0x0 {
            self.control
        } else if index == 0x1 {
            self.stat
        } else if index == 0x2 {
            self.scroll_y
        } else if index == 0x3 {
            self.scroll_x
        } else if index == 0x4 {
            self.ly
        } else if index == 0x5 {
            self.lyc
        } else if index == 0x6 {
            self.dma.value
        } else if index == 0x7 {
            self.bg_palette_data
        } else if index == 0x8 {
            self.sprite0_palette_data
        } else if index == 0x9 {
            self.sprite1_palette_data
        } else if index == 0xA {
            self.window_y
        } else {
            self.window_x
        }
    }

    /// The background tile map: 0x9C00 when LCDC bit 3 is set, else 0x9800.
    pub fn bg_tile_map_addr(&self) -> (r: u16)
        ensures
            r == if bit_set(self.control, 3) { 0x9C00u16 } else { 0x9800u16 },
    {
        if (self.control >> 3) & 1 == 1 { 0x9C00 } else { 0x9800 }
    }

    /// The tile data area: 0x8000 when LCDC bit 4 is set, else 0x8800.
    pub fn bg_window_data_area(&self) -> (r: u16)
        ensures
            r == if bit_set(self.control, 4) { 0x8000u16 } else { 0x8800u16 },
    {
        if (self.control >> 4) & 1 == 1 { 0x8000 } else { 0x8800 }
    }

    /// The window tile map: 0x9C00 when LCDC bit 6 is set, else 0x9800.
    pub fn window_map_area(&self) -> (r: u16)
        ensures
            r == if bit_set(self.control, 6) { 0x9C00u16 } else { 0x9800u16 },
    {
        if (self.control >> 6) & 1 == 1 { 0x9C00 } else { 0x9800 }
    }

    /// The mode in bits 0-1 of STAT.
    pub fn stat_mode(&self) -> (r: LcdMode)
        ensures
            mode_bits(r) == self.stat % 4,
    {
        proof { lemma_stat_bits(self.stat, 0); }
        let bits: u8 = self.stat & 0b11;
        if bits == 0 {
            LcdMode::HBlank
        } else if bits == 1 {
            LcdMode::VBlank
        } else if bits == 2 {
            LcdMode::Oam
        } else {
            LcdMode::Transfer
        }
    }

    /// Replaces the mode in bits 0-1 of STAT, keeping the other bits.
    pub fn set_stat_mode(&mut self, mode: LcdMode)
        ensures
            final(self).stat % 4 == mode_bits(mode),
            final(self).stat / 4 == old(self).stat / 4,
            final(self).stat == with_mode(old(self).stat, mode_bits(mode)),
            *final(self) == (Ppu { stat: final(self).stat, ..*old(self) }),
    {
        let m: u8 = match mode {
            LcdMode::HBlank => 0,
            LcdMode::VBlank => 1,
            LcdMode::Oam => 2,
            LcdMode::Transfer => 3,
        };
        proof { lemma_stat_bits(self.stat, m); }
        let bits: u8 = self.stat & !0b11;
        self.stat = bits | m;
    }

    /// Moves to the next line; sets the LY=LYC bit of STAT when they match
    /// (clears it otherwise) and asks for a STAT interrupt when they match and
    /// STAT bit 6 enables it.
    pub fn increment_ly(&mut self) -> (ints: Vec<InterruptType>)
        ensures
            final(self).ly == old(self).ly.wrapping_add(1),
            bit_set(final(self).stat, 2) == (final(self).ly == old(self).lyc),
            final(self).stat % 4 == old(self).stat % 4,
            bit_set(final(self).stat, 3) == bit_set(old(self).stat, 3),
            bit_set(final(self).stat, 4) == bit_set(old(self).stat, 4),
            bit_set(final(self).stat, 6) == bit_set(old(self).stat, 6),
            final(self).stat == lyc_stat(&*old(self)),
            ints@ == lyc_ints(&*old(self)),
            ints@ == if final(self).ly == old(self).lyc && bit_set(old(self).stat, 6) {
                seq![InterruptType::LcdStat]
            } else {
                Seq::<InterruptType>::empty()
            },
            *final(self) == (Ppu { ly: final(self).ly, stat: final(self).stat, ..*old(self) }),
    {
        let value: u8 = self.ly.wrapping_add(1);
        let mut vec: Vec<InterruptType> = Vec::new();
        self.ly = value;
        let s: u8 = self.stat;
        proof {
            lemma_stat_bits(s, 0);
            assert(((s | 4u8) >> 2u8) & 1 == 1 && ((s & !4u8) >> 2u8) & 1 == 0
                && ((s | 4u8) >> 3u8) & 1 == (s >> 3u8) & 1 && ((s & !4u8) >> 3u8) & 1 == (s >> 3u8) & 1
                && ((s | 4u8) >> 4u8) & 1 == (s >> 4u8) & 1 && ((s & !4u8) >> 4u8) & 1 == (s >> 4u8) & 1
                && ((s | 4u8) >> 6u8) & 1 == (s >> 6u8) & 1 && ((s & !4u8) >> 6u8) & 1 == (s >> 6u8) & 1) by (bit_vector);
        }
        if self.ly == self.lyc {
            self.stat = s | 4;
            if (s >> 6) & 1 == 1 {
                vec.push(InterruptType::LcdStat);
            }
        } else {
            self.stat = s & !4;
        }
        vec
    }

    /// OAM search: after 80 dots the PPU moves to pixel transfer.
    pub fn oam_mode(&mut self)
        ensures
            old(self).line_ticks >= 80 ==> final(self).stat % 4 == 3 && final(self).stat / 4 == old(self).stat / 4,
            old(self).line_ticks >= 80 ==> final(self).stat == with_mode(old(self).stat, 3),
            old(self).line_ticks < 80 ==> final(self).stat == old(self).stat,
            *final(self) == (Ppu { stat: final(self).stat, ..*old(self) }),
    {
        let oam_is_over: bool = self.line_ticks >= 80;
        if oam_is_over {
            self.set_stat_mode(LcdMode::Transfer);
        }
    }
}

/// The tile data area that LCDC bit 4 selects.
pub open spec fn data_area(p: &Ppu) -> u16 {
    if bit_set(p.control, 4) { 0x8000u16 } else { 0x8800u16 }
}

/// Colour number (0-3) of pixel (`fine_x`, `fine_y`) of the tile that map
/// `map_base` holds at (`col`, `row`). In the 0x8800 area tile numbers are
/// taken 128 further on.
pub open spec fn map_pixel(p: &Ppu, map_base: u16, row: u8, col: u8, fine_y: u8, fine_x: u8) -> u8 {
    let entry = p.vram@[map_base + col + row * 32 - 0x8000];
    let tile: u8 = if data_area(p) == 0x8800 { entry.wrapping_add(128) } else { entry };
    let hi_addr = data_area(p) + tile * 16 + fine_y * 2;
    let hi = p.vram@[hi_addr - 0x8000];
    let low = p.vram@[hi_addr + 1 - 0x8000];
    let bit = (7 - fine_x) as u8;
    (((hi >> bit) & 1u8) + 2 * ((low >> bit) & 1u8)) as u8
}

/// Colour number of background pixel `x` of line LY, scrolled by SCX/SCY.
pub open spec fn bg_color(p: &Ppu, x: u8) -> u8 {
    let map_y = p.ly.wrapping_add(p.scroll_y);
    let map_x = x.wrapping_add(p.scroll_x);
    let map_base: u16 = if bit_set(p.control, 3) { 0x9C00u16 } else { 0x9800u16 };
    map_pixel(p, map_base, map_y / 8, map_x / 8, map_y % 8, map_x % 8)
}

/// The first screen column of the window: WX - 7, wrapping.
pub open spec fn window_left(p: &Ppu) -> u8 {
    p.window_x.wrapping_sub(7)
}

/// The window covers line LY: LCDC bit 5 set and WY at or above LY.
pub open spec fn window_on(p: &Ppu) -> bool {
    bit_set(p.control, 5) && p.window_y <= p.ly
}

/// Colour number of window pixel `x` of line LY (for `x` at or right of the
/// window's left edge; a column whose scrolled position falls left of the
/// edge is taken at its scrolled position).
pub open spec fn win_color(p: &Ppu, x: u8) -> u8 {
    let map_y = (p.ly - p.window_y) as u8;
    let scrolled = x.wrapping_add(p.scroll_x);
    let map_x: u8 = if scrolled >= window_left(p) { (x - window_left(p)) as u8 } else { scrolled };
    let map_base: u16 = if bit_set(p.control, 6) { 0x9C00u16 } else { 0x9800u16 };
    map_pixel(p, map_base, map_y / 8, map_x / 8, map_y % 8, map_x % 8)
}

/// Pixel `x` of line LY once background and window are drawn: the window
/// from its left edge on when it covers the line, else the background when
/// LCDC bit 0 is set, else what the picture held.
pub open spec fn line_pixel(p: &Ppu, x: int) -> Rgb {
    if window_on(p) && x >= window_left(p) {
        p.bg_palette@[win_color(p, x as u8) as int]
    } else if p.control & 1 == 1 {
        p.bg_palette@[bg_color(p, x as u8) as int]
    } else {
        p.video_buffer@[160 * p.ly + x]
    }
}

impl Ppu {
    /// Colour number (0-3) of pixel `bit` (7 is leftmost) of a tile row given
    /// by its two bytes.
    pub fn pixel_value(hi: u8, low: u8, bit: u8) -> (r: u8)
        requires
            bit < 8,
        ensures
            r < 4,
            r == ((hi >> bit) & 1u8) + 2 * ((low >> bit) & 1u8),
    {
        proof { lemma_pixel_color(hi, low, bit); }
        let hi_bit: u8 = (hi >> bit) & 1;
        let low_bit: u8 = ((low >> bit) & 1) << 1;
        hi_bit | low_bit
    }

    /// Draws line LY of the picture: background, then window, then sprites.
    /// Only the pixels of that line (and the background priority row) change;
    /// a line number past the screen draws nothing.
    pub fn draw_line(&mut self)
        requires
            old(self).wf(),
        ensures
            final(self).wf(),
            final(self).memories_kept(&*old(self)),
            same_registers(&*final(self), &*old(self)),
            final(self).stat == old(self).stat && final(self).ly == old(self).ly,
            final(self).line_ticks == old(self).line_ticks,
            *final(self) == (Ppu { video_buffer: final(self).video_buffer, bg_prio: final(self).bg_prio, ..*old(self) }),
            line_drawn(&*old(self), &*final(self)),
    {
        if self.ly >= Y_RESOLUTION {
            return;
        }
        let ly: u8 = self.ly;
        let slice_start: usize = (X_RESOLUTION as usize) * (ly as usize);
        let ghost old_self = *self;

        let background_on: bool = self.control & 1 == 1;
        if background_on {
            let map_y: u8 = ly.wrapping_add(self.scroll_y);
            let row: u8 = map_y / 8;
            let mut x_pos: u8 = 0;
            while x_pos < X_RESOLUTION
                invariant
                    self.wf(),
                    self.memories_kept(&old_self),
                    *self == (Ppu { video_buffer: self.video_buffer, bg_prio: self.bg_prio, ..old_self }),
                    same_registers(&*self, &old_self),
                    self.stat == old_self.stat && self.ly == ly && self.line_ticks == old_self.line_ticks,
                    ly < 144,
                    slice_start == 160 * ly,
                    row == map_y / 8,
                    forall|i: int| 0 <= i < 23040 && !(slice_start <= i < slice_start + 160)
                        ==> self.video_buffer@[i] == old_self.video_buffer@[i],
                    map_y == ly.wrapping_add(old_self.scroll_y),
                    old_self.ly == ly,
                    forall|j: int| 0 <= j < x_pos ==> #[trigger] self.video_buffer@[slice_start + j]
                        == old_self.bg_palette@[bg_color(&old_self, j as u8) as int],
                    forall|j: int| x_pos <= j < 160 ==> #[trigger] self.video_buffer@[slice_start + j]
                        == old_self.video_buffer@[slice_start + j],
                    forall|j: int| 0 <= j < x_pos ==> #[trigger] self.bg_prio@[j] == (bg_color(&old_self, j as u8) != 0),
                    forall|j: int| x_pos <= j < 160 ==> #[trigger] self.bg_prio@[j] == old_self.bg_prio@[j],
                decreases 160 - x_pos,
            {
                let map_x: u8 = x_pos.wrapping_add(self.scroll_x);
                let col: u8 = map_x / 8;
                let tile_number: u8 = (map_y % 8) * 2;
                let tile_data_addr: u16 = self.bg_tile_map_addr() + (col as u16) + (row as u16) * 32;
                let mut tile_data: u8 = self.vram[(tile_data_addr - 0x8000) as usize];
                let area: u16 = self.bg_window_data_area();
                if area == 0x8800 {
                    tile_data = tile_data.wrapping_add(128);
                }
                let hi_addr: u16 = area + (tile_data as u16) * 16 + tile_number as u16;
                let low_addr: u16 = hi_addr + 1;
                let hi: u8 = self.vram[(hi_addr - 0x8000) as usize];
                let low: u8 = self.vram[(low_addr - 0x8000) as usize];
                let bit: u8 = 7 - (map_x % 8);
                let color_value: u8 = Self::pixel_value(hi, low, bit);
                assert(color_value == bg_color(&old_self, x_pos));
                let color: Rgb = self.bg_palette[color_value as usize];
                self.bg_prio.set(x_pos as usize, color_value != 0);
                self.video_buffer.set(slice_start + x_pos as usize, color);
                x_pos = x_pos + 1;
            }
        }
        let ghost after_bg = self.video_buffer@;
        let ghost after_bg_prio = self.bg_prio@;
        assert(forall|x: int| 0 <= x < 160 ==> #[trigger] after_bg_prio[x] == if old_self.control & 1 == 1 {
            bg_color(&old_self, x as u8) != 0
        } else {
            old_self.bg_prio@[x]
        });
        assert(forall|x: int| 0 <= x < 160 ==> #[trigger] after_bg[slice_start + x] == if old_self.control & 1 == 1 {
            old_self.bg_palette@[bg_color(&old_self, x as u8) as int]
        } else {
            old_self.video_buffer@[slice_start + x]
        });

        let window_enabled: bool = (self.control >> 5) & 1 == 1 && self.window_y <= ly;
        if window_enabled {
            let window_x: u8 = self.window_x.wrapping_sub(7);
            let map_y: u8 = ly - self.window_y;
            let row: u8 = map_y / 8;
            let mut i: usize = window_x as usize;
            while i < X_RESOLUTION as usize
                invariant
                    self.wf(),
                    self.memories_kept(&old_self),
                    *self == (Ppu { video_buffer: self.video_buffer, bg_prio: self.bg_prio, ..old_self }),
                    same_registers(&*self, &old_self),
                    self.stat == old_self.stat && self.ly == ly && self.line_ticks == old_self.line_ticks,
                    ly < 144,
                    slice_start == 160 * ly,
                    row == map_y / 8,
                    window_x <= i,
                    forall|k: int| 0 <= k < 23040 && !(slice_start <= k < slice_start + 160)
                        ==> self.video_buffer@[k] == old_self.video_buffer@[k],
                    old_self.ly == ly,
                    window_x == window_left(&old_self),
                    old_self.window_y <= ly,
                    map_y == (ly - old_self.window_y) as u8,
                    self.video_buffer@.len() == after_bg.len(),
                    forall|j: int| window_x <= j < i ==> #[trigger] self.video_buffer@[slice_start + j]
                        == old_self.bg_palette@[win_color(&old_self, j as u8) as int],
                    forall|j: int| 0 <= j < 160 && !(window_x <= j < i) ==> #[trigger] self.video_buffer@[slice_start + j]
                        == after_bg[slice_start + j],
                    self.bg_prio@.len() == after_bg_prio.len(),
                    forall|j: int| window_x <= j < i ==> #[trigger] self.bg_prio@[j] == (win_color(&old_self, j as u8) != 0),
                    forall|j: int| 0 <= j < 160 && !(window_x <= j < i) ==> #[trigger] self.bg_prio@[j] == after_bg_prio[j],
                decreases 160 - i,
            {
                let mut map_x: u8 = (i as u8).wrapping_add(self.scroll_x);
                if map_x >= window_x {
                    map_x = (i as u8) - window_x;
                }
                let col: u8 = map_x / 8;
                let tile_data_addr: u16 = self.window_map_area() + (col as u16) + (row as u16) * 32;
                let mut tile_data: u8 = self.vram[(tile_data_addr - 0x8000) as usize];
                let area: u16 = self.bg_window_data_area();
                if area == 0x8800 {
                    tile_data = tile_data.wrapping_add(128);
                }
                let tile_number: u8 = (map_y % 8) * 2;
                let hi_addr: u16 = area + (tile_data as u16) * 16 + tile_number as u16;
                let low_addr: u16 = hi_addr + 1;
                let hi: u8 = self.vram[(hi_addr - 0x8000) as usize];
                let low: u8 = self.vram[(low_addr - 0x8000) as usize];
                let bit: u8 = 7 - (map_x % 8);
                let color_value: u8 = Self::pixel_value(hi, low, bit);
                assert(color_value == win_color(&old_self, i as u8));
                let color: Rgb = self.bg_palette[color_value as usize];
                self.bg_prio.set(i, color_value != 0);
                self.video_buffer.set(slice_start + i, color);
                i = i + 1;
            }
        }
        assert(forall|x: int| 0 <= x < 160 ==> #[trigger] self.video_buffer@[slice_start + x] == line_pixel(&old_self, x));
        assert(forall|x: int| 0 <= x < 160 ==> #[trigger] self.bg_prio@[x] == line_prio(&old_self, x));

        let ghost prio = self.bg_prio@;
        if (self.control >> 1) & 1 == 1 {
            let sprite_size: u8 = if (self.control >> 2) & 1 == 1 { 16 } else { 8 };
            let current_line: u8 = ly;
            let mut sprites_to_draw: Vec<(usize, SpriteEntry)> = Vec::new();
            let mut index: usize = 0;
            while index < 40
                invariant
                    self.wf(),
                    index <= 40,
                    sprites_to_draw@.len() <= 10,
                    sprite_size == 8 || sprite_size == 16,
                    forall|k: int| 0 <= k < sprites_to_draw@.len() ==>
                        (current_line.wrapping_sub(#[trigger] sprites_to_draw@[k].1.y) as int) < sprite_size,
                    self.oam@ == old_self.oam@ && old_self.oam@.len() == 40,
                    current_line == old_self.ly,
                    sprite_size == sprite_height(&old_self),
                    sprites_to_draw@ == selected(&old_self, index as int),
                decreases 40 - index,
            {
                let sprite: SpriteEntry = self.oam[index];
                let y: u8 = sprite.y.wrapping_sub(16);
                let x: u8 = sprite.x.wrapping_sub(8);
                if current_line.wrapping_sub(y) < sprite_size {
                    let res = SpriteEntry { y, x, tile_index: sprite.tile_index, flags: sprite.flags };
                    if sprites_to_draw.len() < 10 {
                        sprites_to_draw.push((index, res));
                    }
                }
                index = index + 1;
            }
            proof { lemma_selected(&old_self, 40); }
            let ghost sel = sprites_to_draw@;
            assert(distinct_slots(sel));

            sort_sprites(&mut sprites_to_draw, current_line, sprite_size);

            let mut k: usize = 0;
            while k < sprites_to_draw.len()
                invariant
                    self.wf(),
                    self.memories_kept(&old_self),
                    *self == (Ppu { video_buffer: self.video_buffer, bg_prio: self.bg_prio, ..old_self }),
                    same_registers(&*self, &old_self),
                    self.stat == old_self.stat && self.ly == ly && self.line_ticks == old_self.line_ticks,
                    ly < 144,
                    slice_start == 160 * ly,
                    sprite_size == 8 || sprite_size == 16,
                    forall|m: int| 0 <= m < sprites_to_draw@.len() ==>
                        (current_line.wrapping_sub(#[trigger] sprites_to_draw@[m].1.y) as int) < sprite_size,
                    forall|m: int| 0 <= m < 23040 && !(slice_start <= m < slice_start + 160)
                        ==> self.video_buffer@[m] == old_self.video_buffer@[m],
                    current_line == old_self.ly,
                    sprite_size == sprite_height(&old_self),
                    self.bg_prio@ == prio,
                    k <= sprites_to_draw@.len(),
                    forall|xx: int| 0 <= xx < 160 ==> #[trigger] self.video_buffer@[slice_start + xx]
                        == painted(&old_self, prio, sprites_to_draw@, k as int, xx),
                decreases sprites_to_draw@.len() - k,
            {
                let sprite: SpriteEntry = sprites_to_draw[k].1;
                assert(current_line.wrapping_sub(sprites_to_draw@[k as int].1.y) < sprite_size);
                let use_palette_1: bool = (sprite.flags >> 4) & 1 == 1;
                let base_tile: u16 = sprite.tile_index as u16;
                proof { assert((base_tile & 0xFEu16) <= base_tile) by (bit_vector); }
                let mut tile_num: u16 = if sprite_size == 16 { base_tile & 0xFE } else { base_tile };
                let dy: u8 = current_line.wrapping_sub(sprite.y);
                let mut line: u8 = if (sprite.flags >> 6) & 1 == 1 {
                    sprite_size - dy - 1
                } else {
                    dy
                };
                if line >= 8 {
                    tile_num = tile_num + 1;
                    line = line - 8;
                }
                line = line * 2;
                let hi_addr: u16 = 0x8000 + tile_num * 16 + line as u16;
                let low_addr: u16 = hi_addr + 1;
                assert(hi_addr - 0x8000 == sprite_row(&old_self, sprite));
                let hi: u8 = self.vram[(hi_addr - 0x8000) as usize];
                let low: u8 = self.vram[(low_addr - 0x8000) as usize];
                let x_flip: bool = (sprite.flags >> 5) & 1 == 1;
                let behind: bool = (sprite.flags >> 7) & 1 == 1;
                let mut step: u8 = 0;
                while step < 8
                    invariant
                        self.wf(),
                        self.memories_kept(&old_self),
                        *self == (Ppu { video_buffer: self.video_buffer, bg_prio: self.bg_prio, ..old_self }),
                        same_registers(&*self, &old_self),
                        self.stat == old_self.stat && self.ly == ly && self.line_ticks == old_self.line_ticks,
                        ly < 144,
                        slice_start == 160 * ly,
                        forall|m: int| 0 <= m < 23040 && !(slice_start <= m < slice_start + 160)
                            ==> self.video_buffer@[m] == old_self.video_buffer@[m],
                        step <= 8,
                        k < sprites_to_draw@.len(),
                        sprite == sprites_to_draw@[k as int].1,
                        hi == old_self.vram@[sprite_row(&old_self, sprite)],
                        low == old_self.vram@[sprite_row(&old_self, sprite) + 1],
                        x_flip == bit_set(sprite.flags, 5),
                        behind == bit_set(sprite.flags, 7),
                        use_palette_1 == bit_set(sprite.flags, 4),
                        self.bg_prio@ == prio,
                        forall|xx: int| 0 <= xx < 160 ==> #[trigger] self.video_buffer@[slice_start + xx] == if sprite_paints(&old_self, prio, sprite, xx)
                            && (xx - sprite.x) % 256 < step {
                            sprite_rgb(&old_self, sprite, xx)
                        } else {
                            painted(&old_self, prio, sprites_to_draw@, k as int, xx)
                        },
                    decreases 8 - step,
                {
                    let x: u8 = 7 - step;
                    let bit: u8 = if x_flip { 7 - x } else { x };
                    let color_value: u8 = Self::pixel_value(hi, low, bit);
                    let color: Rgb = if use_palette_1 {
                        self.sprite1_palette[color_value as usize]
                    } else {
                        self.sprite0_palette[color_value as usize]
                    };
                    let target_x: u8 = sprite.x.wrapping_add(7 - x);
                    assert((target_x - sprite.x) % 256 == step);
                    assert(target_x < 160 ==> color_value == sprite_color(&old_self, sprite, target_x as int));
                    if target_x < X_RESOLUTION && color_value != 0 {
                        if !behind || !self.bg_prio[target_x as usize] {
                            self.video_buffer.set(slice_start + target_x as usize, color);
                        }
                    }
                    step = step + 1;
                }
                assert forall|xx: int| 0 <= xx < 160 implies #[trigger] self.video_buffer@[slice_start + xx]
                    == painted(&old_self, prio, sprites_to_draw@, k + 1, xx) by {
                    assert(sprites_to_draw@[k as int].1 == sprite);
                }
                k = k + 1;
            }
            proof {
                let sorted = sprites_to_draw@;
                let n = sorted.len() as int;
                assert(sel == selected(&old_self, 40));
                assert forall|x: int| 0 <= x < 160 && (forall|j: int| 0 <= j < sel.len() ==> !sprite_paints(&old_self, prio, #[trigger] sel[j].1, x))
                    implies #[trigger] self.video_buffer@[slice_start + x] == line_pixel(&old_self, x) by {
                    assert forall|i: int| 0 <= i < n implies !sprite_paints(&old_self, prio, sorted[i].1, x) by {
                        assert(sorted.contains(sorted[i]));
                        assert(sel.contains(sorted[i]));
                        let j = choose|j: int| 0 <= j < sel.len() && sel[j] == sorted[i];
                        assert(!sprite_paints(&old_self, prio, sel[j].1, x));
                    }
                    lemma_painted_none(&old_self, prio, sorted, n, x);
                }
                assert forall|x: int, j: int| 0 <= x < 160 && 0 <= j < sel.len() && sprite_paints(&old_self, prio, sel[j].1, x)
                    && (forall|j2: int| 0 <= j2 < sel.len() && sprite_paints(&old_self, prio, #[trigger] sel[j2].1, x)
                        ==> has_priority(sel[j], sel[j2]))
                    implies #[trigger] self.video_buffer@[slice_start + x] == sprite_rgb(&old_self, #[trigger] sel[j].1, x) by {
                    assert(sel.contains(sel[j]));
                    assert(sorted.contains(sel[j]));
                    let i = choose|i: int| 0 <= i < n && sorted[i] == sel[j];
                    assert forall|i2: int| 0 <= i2 < n && sprite_paints(&old_self, prio, sorted[i2].1, x) implies has_priority(sorted[i], sorted[i2]) by {
                        assert(sorted.contains(sorted[i2]));
                        assert(sel.contains(sorted[i2]));
                        let j2 = choose|j2: int| 0 <= j2 < sel.len() && sel[j2] == sorted[i2];
                        assert(sprite_paints(&old_self, prio, sel[j2].1, x));
                    }
                    lemma_painted_least(&old_self, prio, sorted, n, x, i);
                }
            }
        }
    }

    /// Pixel transfer: draws the line, enters HBlank and asks for a STAT
    /// interrupt when STAT bit 3 enables it.
    pub fn transfer_mode(&mut self, interrupts: &mut Vec<InterruptType>)
        requires
            old(self).wf(),
        ensures
            final(self).wf(),
            final(self).memories_kept(&*old(self)),
            same_registers(&*final(self), &*old(self)),
            final(self).stat % 4 == 0 && final(self).stat / 4 == old(self).stat / 4,
            final(self).ly == old(self).ly && final(self).line_ticks == old(self).line_ticks,
            *final(self) == (Ppu { video_buffer: final(self).video_buffer, bg_prio: final(self).bg_prio,
                stat: with_mode(old(self).stat, 0), ..*old(self) }),
            line_drawn(&*old(self), &*final(self)),
            final(interrupts)@ == if bit_set(old(self).stat, 3) {
                old(interrupts)@.push(InterruptType::LcdStat)
            } else {
                old(interrupts)@
            },
    {
        self.draw_line();
        let s: u8 = self.stat;
        self.set_stat_mode(LcdMode::HBlank);
        proof {
            assert((s >> 3u8) & 1 == ((s / 4) / 2) % 2) by (bit_vector);
        }
        if (s >> 3) & 1 == 1 {
            interrupts.push(InterruptType::LcdStat);
        }
    }

    /// VBlank: at the end of each line moves to the next; after line 153
    /// returns to line 0 in OAM mode.
    pub fn vblank_mode(&mut self, interrupts: &mut Vec<InterruptType>)
        requires
            old(self).wf(),
        ensures
            final(self).wf(),
            final(self).memories_kept(&*old(self)),
            same_registers(&*final(self), &*old(self)),
            final(self).video_buffer@ == old(self).video_buffer@,
            old(self).line_ticks < TICKS_PER_LINE ==> *final(self) == *old(self) && final(interrupts)@ == old(interrupts)@,
            old(self).line_ticks >= TICKS_PER_LINE ==> *final(self) == vblank_line_end(&*old(self))
                && final(interrupts)@ == old(interrupts)@ + lyc_ints(&*old(self)),
            old(self).line_ticks >= TICKS_PER_LINE ==> final(self).line_ticks == 0,
            old(self).line_ticks >= TICKS_PER_LINE && old(self).ly.wrapping_add(1) >= LINES_PER_FRAME
                ==> final(self).ly == 0 && final(self).stat % 4 == 2,
            old(self).line_ticks >= TICKS_PER_LINE && old(self).ly.wrapping_add(1) < LINES_PER_FRAME
                ==> final(self).ly == old(self).ly.wrapping_add(1) && final(self).stat % 4 == old(self).stat % 4,
            forall|k: int| 0 <= k < final(interrupts)@.len() ==> final(interrupts)@[k] == InterruptType::LcdStat
                || final(interrupts)@[k] == InterruptType::VBlank || k < old(interrupts)@.len(),
            final(interrupts)@.len() >= old(interrupts)@.len(),
            forall|k: int| 0 <= k < old(interrupts)@.len() ==> final(interrupts)@[k] == old(interrupts)@[k],
    {
        let end_of_scanline: bool = self.line_ticks >= TICKS_PER_LINE;
        if end_of_scanline {
            let mut ints: Vec<InterruptType> = self.increment_ly();
            interrupts.append(&mut ints);
            let onto_next_screen: bool = self.ly >= LINES_PER_FRAME;
            if onto_next_screen {
                self.set_stat_mode(LcdMode::Oam);
                self.ly = 0;
            }
            self.line_ticks = 0;
        }
    }

    /// HBlank: at the end of each line moves to the next; after line 143
    /// enters VBlank (asking for a VBlank interrupt, twice when STAT bit 4 is
    /// set), else returns to OAM mode.
    pub fn hblank_mode(&mut self, interrupts: &mut Vec<InterruptType>)
        requires
            old(self).wf(),
        ensures
            final(self).wf(),
            final(self).memories_kept(&*old(self)),
            same_registers(&*final(self), &*old(self)),
            final(self).video_buffer@ == old(self).video_buffer@,
            old(self).line_ticks < TICKS_PER_LINE ==> *final(self) == *old(self) && final(interrupts)@ == old(interrupts)@,
            old(self).line_ticks >= TICKS_PER_LINE ==> *final(self) == hblank_line_end(&*old(self))
                && final(interrupts)@ == old(interrupts)@ + hblank_line_ints(&*old(self)),
            old(self).line_ticks >= TICKS_PER_LINE ==> final(self).line_ticks == 0
                && final(self).ly == old(self).ly.wrapping_add(1),
            old(self).line_ticks >= TICKS_PER_LINE && old(self).ly.wrapping_add(1) >= Y_RESOLUTION
                ==> final(self).stat % 4 == 1,
            old(self).line_ticks >= TICKS_PER_LINE && old(self).ly.wrapping_add(1) < Y_RESOLUTION
                ==> final(self).stat % 4 == 2,
            forall|k: int| 0 <= k < final(interrupts)@.len() ==> final(interrupts)@[k] == InterruptType::LcdStat
                || final(interrupts)@[k] == InterruptType::VBlank || k < old(interrupts)@.len(),
            final(interrupts)@.len() >= old(interrupts)@.len(),
            forall|k: int| 0 <= k < old(interrupts)@.len() ==> final(interrupts)@[k] == old(interrupts)@[k],
    {
        let end_of_scanline: bool = self.line_ticks >= TICKS_PER_LINE;
        if end_of_scanline {
            let mut ints: Vec<InterruptType> = self.increment_ly();
            interrupts.append(&mut ints);
            if self.ly >= Y_RESOLUTION {
                let s: u8 = self.stat;
                self.set_stat_mode(LcdMode::VBlank);
                interrupts.push(InterruptType::VBlank);
                if (s >> 4) & 1 == 1 {
                    interrupts.push(InterruptType::VBlank);
                }
            } else {
                self.set_stat_mode(LcdMode::Oam);
            }
            self.line_ticks = 0;
        }
    }

    /// One dot: counts it on the line and runs the current mode. Returns the
    /// interrupts the PPU asks for (VBlank and STAT only).
    pub fn tick(&mut self) -> (interrupts: Vec<InterruptType>)
        requires
            old(self).wf(),
        ensures
            final(self).wf(),
            final(self).memories_kept(&*old(self)),
            same_registers(&*final(self), &*old(self)),
            forall|k: int| 0 <= k < interrupts@.len() ==> interrupts@[k] == InterruptType::LcdStat
                || interrupts@[k] == InterruptType::VBlank,
            line_mode_consistent(&*old(self)) ==> line_mode_consistent(&*final(self)),
            dot_done(*old(self), *final(self), interrupts@),
            ppu_ticked(*old(self), *final(self), interrupts@),
    {
        self.increment_line_ticks();
        let mut interrupts: Vec<InterruptType> = Vec::new();
        match self.stat_mode() {
            LcdMode::Oam => self.oam_mode(),
            LcdMode::Transfer => self.transfer_mode(&mut interrupts),
            LcdMode::VBlank => self.vblank_mode(&mut interrupts),
            LcdMode::HBlank => self.hblank_mode(&mut interrupts),
        };
        proof { reveal(ppu_ticked); }
        interrupts
    }
}

} // verus!
