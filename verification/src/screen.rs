//! Decoding of the display file: the bitmap at `0x4000..0x57FF` and the
//! colour attributes above it, into a buffer of RGB pixels.

use crate::memory::memory;
use vstd::prelude::*;

verus! {

/// Pixels in a row of the frame.
pub const WIDTH: usize = 256;

/// Rows in the frame.
pub const HEIGHT: usize = 192;

/// First address of the bitmap.
pub const BITMAP_START: u16 = 0x4000;

/// Address after the last bitmap byte that is drawn.
pub const BITMAP_END: u16 = 0x57FF;

/// First address of the colour attributes.
pub const ATTRIBUTES_START: u16 = 0x5800;

/// Pixels drawn for each bitmap byte, from its top bit down.
pub const PIXELS_PER_BYTE: usize = 7;

/// The RGB value of a colour number `0..=7`.
pub open spec fn color_of(color: u8) -> u32 {
    if color == 0 {
        0x000000
    } else if color == 1 {
        0x0000D7
    } else if color == 2 {
        0xD70000
    } else if color == 3 {
        0xD700D7
    } else if color == 4 {
        0x00D700
    } else if color == 5 {
        0x00D7D7
    } else if color == 6 {
        0xD7D700
    } else {
        0xD7D7D7
    }
}

/// The address of the attribute byte that colours the bitmap byte at
/// `address`.
pub open spec fn attribute_address(address: u16) -> u16 {
    let relative = (address - BITMAP_START) as u16;
    ((((relative >> 3) & 0x300) | (relative & 0xFF)) + ATTRIBUTES_START) as u16
}

/// The foreground colour number of an attribute byte.
pub open spec fn foreground_of(attribute: u8) -> u8 {
    attribute & 0x07
}

/// The background colour number of an attribute byte. It takes four bits,
/// so it can exceed the last colour number.
pub open spec fn background_of(attribute: u8) -> u8 {
    (attribute >> 3) & 0x0F
}

/// Whether the attribute byte for `address` names two colours that exist.
pub open spec fn has_colors(mem: Seq<u8>, address: u16) -> bool {
    background_of(mem[attribute_address(address) as int]) <= 7
}

/// The foreground and background RGB values for the bitmap byte at
/// `address`.
pub open spec fn colors_at(mem: Seq<u8>, address: u16) -> (u32, u32) {
    let attribute = mem[attribute_address(address) as int];
    (color_of(foreground_of(attribute)), color_of(background_of(attribute)))
}

/// The row of the frame that the bitmap byte at `address` is drawn in.
pub open spec fn row_of(address: u16) -> u16 {
    ((address & 0x1800) | (address & 0xE0)) >> 5
}

/// The column of the frame that bit `i`, counted from the top bit, of the
/// bitmap byte at `address` is drawn in.
pub open spec fn column_of(address: u16, i: u16) -> u16 {
    ((address & 0x1F) << 3) | i
}

/// The index in the frame of bit `i` of the bitmap byte at `address`.
pub open spec fn pixel_index(address: u16, i: u16) -> int {
    row_of(address) as int * WIDTH as int + column_of(address, i) as int
}

/// The frame after the first `bits` pixels of the bitmap byte at `address`
/// have been drawn onto `frame`: a set bit takes the foreground colour, a
/// clear one the background colour.
pub open spec fn draw_byte(frame: Seq<u32>, mem: Seq<u8>, address: u16, bits: nat) -> Seq<u32>
    decreases bits,
{
    if bits == 0 {
        frame
    } else {
        let i = (bits - 1) as u16;
        let colors = colors_at(mem, address);
        let lit = mem[address as int] & (0x80u8 >> i) != 0;
        draw_byte(frame, mem, address, (bits - 1) as nat).update(
            pixel_index(address, i),
            if lit {
                colors.0
            } else {
                colors.1
            },
        )
    }
}

/// The frame after the first `count` bitmap bytes have been drawn, in
/// address order, onto a black frame. Bytes drawn later overwrite pixels
/// drawn earlier.
pub open spec fn drawn(mem: Seq<u8>, count: nat) -> Seq<u32>
    decreases count,
{
    if count == 0 {
        Seq::new((WIDTH * HEIGHT) as nat, |i: int| 0u32)
    } else {
        draw_byte(
            drawn(mem, (count - 1) as nat),
            mem,
            (BITMAP_START + count - 1) as u16,
            PIXELS_PER_BYTE as nat,
        )
    }
}

/// Whether every bitmap byte that is drawn has an attribute byte that names
/// two colours that exist.
pub open spec fn drawable(mem: Seq<u8>) -> bool {
    forall|address: u16| BITMAP_START <= address < BITMAP_END ==> has_colors(mem, address)
}

proof fn lemma_attribute_bits(address: u16)
    by (bit_vector)
    requires
        address >= 0x4000,
    ensures
        ((((address - 0x4000) as u16) >> 3) & 0x300) | (((address - 0x4000) as u16) & 0xFF)
            <= 0x3FF,
{
}

proof fn lemma_pixel_bits(address: u16, i: u16)
    by (bit_vector)
    requires
        0x4000 <= address < 0x57FF,
        i < 7,
    ensures
        ((address & 0x1800) | (address & 0xE0)) >> 5 <= 135,
        ((address & 0x1F) << 3) | i <= 255,
        i < 8,
{
}

/// The RGB value of a colour number.
pub fn get_color(color: u8) -> (rgb: u32)
    requires
        color <= 7,
    ensures
        rgb == color_of(color),
{
    match color {
        0 => 0x000000,
        1 => 0x0000D7,
        2 => 0xD70000,
        3 => 0xD700D7,
        4 => 0x00D700,
        5 => 0x00D7D7,
        6 => 0xD7D700,
        _ => 0xD7D7D7,
    }
}

/// The attribute byte that colours the bitmap byte at `address`.
pub fn attribute_for_byte(mem: &memory, address: u16) -> (attribute: u8)
    requires
        address >= BITMAP_START,
    ensures
        attribute == mem@[attribute_address(address) as int],
{
    proof {
        lemma_attribute_bits(address);
    }
    let relative_address = address - 0x4000;
    let attribute_relative_address = ((relative_address >> 3) & 0x300) | (relative_address & 0xFF);
    mem.peek(attribute_relative_address + 0x5800)
}

/// Whether the attribute byte for `address` names two colours that exist.
pub fn byte_has_colors(mem: &memory, address: u16) -> (res: bool)
    requires
        address >= BITMAP_START,
    ensures
        res == has_colors(mem@, address),
{
    let contents = attribute_for_byte(mem, address);
    (contents >> 3) & 0x0F <= 7
}

/// The foreground and background RGB values for the bitmap byte at
/// `address`.
pub fn get_color_for_byte(mem: &memory, address: u16) -> (colors: (u32, u32))
    requires
        address >= BITMAP_START,
        has_colors(mem@, address),
    ensures
        colors == colors_at(mem@, address),
{
    let contents = attribute_for_byte(mem, address);
    assert(contents & 0x07 <= 7) by (bit_vector);
    let foreground = get_color(contents & 0x07);
    let background = get_color((contents >> 3) & 0x0F);
    (foreground, background)
}

/// Draws the bitmap into a frame of `WIDTH * HEIGHT` RGB pixels, or returns
/// `None` where an attribute byte names a colour that does not exist.
pub fn render(mem: &memory) -> (frame: Option<Vec<u32>>)
    ensures
        frame is Some <==> drawable(mem@),
        frame matches Some(buffer) ==> buffer@ == drawn(mem@, (BITMAP_END - BITMAP_START) as nat),
{
    let mut buffer: Vec<u32> = Vec::new();
    let mut filled: usize = 0;
    while filled < WIDTH * HEIGHT
        invariant
            filled <= WIDTH * HEIGHT,
            buffer@.len() == filled,
            forall|k: int| 0 <= k < filled ==> buffer@[k] == 0u32,
        decreases WIDTH * HEIGHT - filled,
    {
        buffer.push(0);
        filled = filled + 1;
    }
    assert(buffer@ =~= drawn(mem@, 0));
    let mut addr: u16 = BITMAP_START;
    while addr < BITMAP_END
        invariant
            BITMAP_START <= addr <= BITMAP_END,
            buffer@.len() == WIDTH * HEIGHT,
            buffer@ == drawn(mem@, (addr - BITMAP_START) as nat),
            forall|a: u16| BITMAP_START <= a < addr ==> has_colors(mem@, a),
        decreases BITMAP_END - addr,
    {
        if !byte_has_colors(mem, addr) {
            return None;
        }
        let pixel = mem.peek(addr);
        let colors = get_color_for_byte(mem, addr);
        let x_in_byte = addr & 0x1F;
        let y = ((addr & 0x1800) | (addr & 0xE0)) >> 5;
        let ghost before = buffer@;
        let mut i: u16 = 0;
        while i < 7
            invariant
                i <= 7,
                BITMAP_START <= addr < BITMAP_END,
                buffer@.len() == WIDTH * HEIGHT,
                buffer@ == draw_byte(before, mem@, addr, i as nat),
                pixel == mem@[addr as int],
                colors == colors_at(mem@, addr),
                x_in_byte == addr & 0x1F,
                y == row_of(addr),
            decreases 7 - i,
        {
            proof {
                lemma_pixel_bits(addr, i);
            }
            let x_in_bit = (x_in_byte << 3) | i;
            let mask = 0x80u8 >> i;
            let index: usize = (y as usize * WIDTH) + x_in_bit as usize;
            if pixel & mask != 0 {
                buffer.set(index, colors.0);
            } else {
                buffer.set(index, colors.1);
            }
            i = i + 1;
        }
        addr = addr + 1;
    }
    Some(buffer)
}

} // verus!
