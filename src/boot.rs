use vstd::prelude::*;

use crate::instructions::utils::{read_byte_from_memory, write_byte_to_memory};
use crate::memory::{Memory, MEMORY_SIZE};

verus! {

/// First address of the cartridge's logo bitmap (48 bytes).
pub const LOGO_START: usize = 0x0104;

/// First address of the tile data that the logo is unpacked to.
pub const LOGO_TILES_START: usize = 0x8010;

/// A four-bit logo pixel row widened to a tile row: each bit becomes two.
pub open spec fn unpacked_nibble(n: u8) -> u8 {
    ((if n & 0x8 != 0 {
        0xC0int
    } else {
        0
    }) + (if n & 0x4 != 0 {
        0x30int
    } else {
        0
    }) + (if n & 0x2 != 0 {
        0x0Cint
    } else {
        0
    }) + (if n & 0x1 != 0 {
        0x03int
    } else {
        0
    })) as u8
}

/// The tile byte at `addr` (in [0x8010, 0x8190)) that unpacking the logo of
/// `m` gives: each nibble of a logo byte fills four bytes, a widened row and
/// a zero, twice.
pub open spec fn logo_tile_byte(m: Seq<u8>, addr: int) -> u8 {
    let k = (addr - 0x8010) / 8;
    let o = (addr - 0x8010) % 8;
    let b = m[0x0104 + k];
    let nibble = if o < 4 {
        b / 16
    } else {
        b % 16
    };
    if o % 2 == 0 {
        unpacked_nibble(nibble as u8)
    } else {
        0
    }
}

/// The memory after unpacking the logo of its first `count` bytes.
pub open spec fn with_logo_prefix(m: Seq<u8>, count: int) -> Seq<u8> {
    Seq::new(
        m.len(),
        |i: int|
            if 0x8010 <= i < 0x8010 + 8 * count {
                logo_tile_byte(m, i)
            } else {
                m[i]
            },
    )
}

/// The memory after unpacking the whole logo.
pub open spec fn with_logo(m: Seq<u8>) -> Seq<u8> {
    with_logo_prefix(m, 48)
}

/// The memory after priming the background tile map: tiles 1 to 12 at
/// [0x9904, 0x990F], tiles 13 to 24 at [0x9924, 0x992F].
pub open spec fn with_tile_map(m: Seq<u8>) -> Seq<u8> {
    Seq::new(
        m.len(),
        |i: int|
            if 0x9904 <= i < 0x9910 {
                (i - 0x9903) as u8
            } else if 0x9924 <= i < 0x9930 {
                (i - 0x9924 + 13) as u8
            } else {
                m[i]
            },
    )
}

/// Unpacks the cartridge logo into tile data and primes the background tile
/// indices that show it.
pub fn boot_sequence(memory: &mut Memory)
    requires
        old(memory).wf(),
    ensures
        final(memory).wf(),
        final(memory)@ == with_tile_map(with_logo(old(memory)@)),
{
    unpack_and_load_logo(memory);
    setup_tile_data(memory);
}

fn setup_tile_data(memory: &mut Memory)
    requires
        old(memory).wf(),
    ensures
        final(memory).wf(),
        final(memory)@ == with_tile_map(old(memory)@),
{
    let mut tile: u8 = 0x01;
    let mut i: usize = 0x9904;
    while i < 0x9910
        invariant
            0x9904 <= i <= 0x9910,
            tile == i - 0x9903,
            memory.wf(),
            old(memory).wf(),
            forall|j: int|
                0 <= j < MEMORY_SIZE ==> #[trigger] memory@[j] == if 0x9904 <= j < i {
                    (j - 0x9903) as u8
                } else {
                    old(memory)@[j]
                },
        decreases 0x9910 - i,
    {
        write_byte_to_memory(memory, i, tile);
        tile = tile + 1;
        i = i + 1;
    }
    i = 0x9924;
    while i < 0x9930
        invariant
            0x9924 <= i <= 0x9930,
            tile == i - 0x9924 + 13,
            memory.wf(),
            old(memory).wf(),
            forall|j: int|
                0 <= j < MEMORY_SIZE ==> #[trigger] memory@[j] == if 0x9904 <= j < 0x9910 {
                    (j - 0x9903) as u8
                } else if 0x9924 <= j < i {
                    (j - 0x9924 + 13) as u8
                } else {
                    old(memory)@[j]
                },
        decreases 0x9930 - i,
    {
        write_byte_to_memory(memory, i, tile);
        tile = tile + 1;
        i = i + 1;
    }
    assert(memory@ =~= with_tile_map(old(memory)@));
}

fn unpack_and_load_logo(memory: &mut Memory)
    requires
        old(memory).wf(),
    ensures
        final(memory).wf(),
        final(memory)@ == with_logo(old(memory)@),
{
    let mut memory_index: usize = LOGO_TILES_START;
    let mut i: usize = LOGO_START;
    while i < 0x0134
        invariant
            LOGO_START <= i <= 0x0134,
            memory_index == 0x8010 + 8 * (i - 0x0104),
            memory.wf(),
            old(memory).wf(),
            memory@ == with_logo_prefix(old(memory)@, i - 0x0104),
        decreases 0x0134 - i,
    {
        let ghost before = memory@;
        let byte = read_byte_from_memory(memory, i);
        assert(byte == old(memory)@[i as int]);
        let upper = byte / 16;
        let lower = byte % 16;
        load_to_vram(memory, upper, memory_index);
        load_to_vram(memory, lower, memory_index + 4);
        let ghost k: int = i - 0x0104;
        assert forall|j: int| 0 <= j < MEMORY_SIZE implies #[trigger] memory@[j] == with_logo_prefix(
            old(memory)@,
            k + 1,
        )[j] by {
            if memory_index <= j < memory_index + 8 {
                assert((j - 0x8010) / 8 == k);
                assert((j - 0x8010) % 8 == j - memory_index);
            }
        }
        assert(memory@ =~= with_logo_prefix(old(memory)@, k + 1));
        memory_index = memory_index + 8;
        i = i + 1;
    }
}

/// Writes a widened row and a zero byte, twice, from `index` on.
fn load_to_vram(memory: &mut Memory, value: u8, index: usize)
    requires
        old(memory).wf(),
        index + 4 <= 0xE000,
    ensures
        final(memory).wf(),
        final(memory)@ == old(memory)@.update(index as int, unpacked_nibble(value)).update(
            index + 1,
            0,
        ).update(index + 2, unpacked_nibble(value)).update(index + 3, 0),
{
    let unpacked = get_current_value_unpacked(value);
    let mut memory_index = index;
    write_byte_to_memory(memory, memory_index, unpacked);
    memory_index = memory_index + 1;
    write_byte_to_memory(memory, memory_index, 0x00);
    memory_index = memory_index + 1;
    write_byte_to_memory(memory, memory_index, unpacked);
    memory_index = memory_index + 1;
    write_byte_to_memory(memory, memory_index, 0x00);
}

fn get_current_value_unpacked(byte: u8) -> (r: u8)
    ensures
        r == unpacked_nibble(byte),
{
    let mut value: u8 = 0x00;
    if byte & 0b1000 > 0 {
        value = value + 0b11000000;
    }
    if byte & 0b0100 > 0 {
        value = value + 0b00110000;
    }
    if byte & 0b0010 > 0 {
        value = value + 0b00001100;
    }
    if byte & 0b0001 > 0 {
        value = value + 0b00000011;
    }
    value
}

} // verus!
