use vstd::prelude::*;

verus! {

/// Length of the iNES header.
pub const HEADER_SIZE: usize = 16;

/// Length of the trainer block that may follow the header.
pub const TRAINER_SIZE: usize = 512;

/// PRG ROM comes in units of this many bytes.
pub const PRG_ROM_UNIT_SIZE: usize = 16384;

/// CHR ROM comes in units of this many bytes.
pub const CHR_ROM_UNIT_SIZE: usize = 8192;

/// `data` starts with the iNES magic `4E 45 53 1A`.
pub open spec fn has_magic(data: Seq<u8>) -> bool {
    &&& data.len() >= 4
    &&& data[0] == 0x4E
    &&& data[1] == 0x45
    &&& data[2] == 0x53
    &&& data[3] == 0x1A
}

/// Bit 2 of header byte 6 announces a trainer.
pub open spec fn has_trainer(data: Seq<u8>) -> bool {
    (data[6] / 4) % 2 == 1
}

/// Where PRG ROM starts: after the header, and after the trainer if any.
pub open spec fn prg_start(data: Seq<u8>) -> int {
    if has_trainer(data) {
        HEADER_SIZE + TRAINER_SIZE
    } else {
        HEADER_SIZE as int
    }
}

pub open spec fn prg_len(data: Seq<u8>) -> int {
    data[4] * PRG_ROM_UNIT_SIZE
}

pub open spec fn chr_len(data: Seq<u8>) -> int {
    data[5] * CHR_ROM_UNIT_SIZE
}

/// The header is complete and the stream holds every region it announces.
pub open spec fn is_complete(data: Seq<u8>) -> bool {
    data.len() >= HEADER_SIZE && data.len() >= prg_start(data) + prg_len(data) + chr_len(data)
}

/// The PRG and CHR ROM of a cartridge image.
#[derive(Debug)]
pub struct Cartidge {
    prg_rom: Vec<u8>,
    chr_rom: Vec<u8>,
}

/// Why a cartridge image could not be read.
#[derive(Debug)]
pub enum CartidgeError {
    /// The stream does not start with the iNES magic.
    MissingHeaderPrefix,
    /// The header, or a region it announces, runs past the end of the stream.
    Truncated,
    /// The image could not be read; the reason in words.
    Io(String),
}

/// `data[start..end]` as a new vector.
fn copy_range(data: &Vec<u8>, start: usize, end: usize) -> (r: Vec<u8>)
    requires
        start <= end <= data@.len(),
    ensures
        r@ == data@.subrange(start as int, end as int),
{
    let mut r: Vec<u8> = Vec::new();
    let mut i: usize = start;
    while i < end
        invariant
            start <= i <= end <= data@.len(),
            r@ == data@.subrange(start as int, i as int),
        decreases end - i,
    {
        r.push(data[i]);
        i = i + 1;
        assert(r@ =~= data@.subrange(start as int, i as int));
    }
    r
}

impl Cartidge {
    pub closed spec fn prg(&self) -> Seq<u8> {
        self.prg_rom@
    }

    pub closed spec fn chr(&self) -> Seq<u8> {
        self.chr_rom@
    }

    fn new(prg_rom: Vec<u8>, chr_rom: Vec<u8>) -> (c: Cartidge)
        ensures
            c.prg() == prg_rom@,
            c.chr() == chr_rom@,
    {
        Cartidge { prg_rom, chr_rom }
    }

    pub fn prg_rom(&self) -> (r: &Vec<u8>)
        ensures
            r@ == self.prg(),
    {
        &self.prg_rom
    }

    pub fn chr_rom(&self) -> (r: &Vec<u8>)
        ensures
            r@ == self.chr(),
    {
        &self.chr_rom
    }

    /// Parses an iNES image: checks the magic, then slices out PRG ROM and
    /// CHR ROM as the header sizes them, skipping a trainer if there is one.
    pub fn from_bytes(data: Vec<u8>) -> (r: Result<Cartidge, CartidgeError>)
        ensures
            !has_magic(data@) ==> r matches Err(CartidgeError::MissingHeaderPrefix),
            has_magic(data@) && !is_complete(data@) ==> r matches Err(CartidgeError::Truncated),
            has_magic(data@) && is_complete(data@) ==> (r matches Ok(c) && {
                let start = prg_start(data@);
                let end = start + prg_len(data@);
                &&& c.prg() == data@.subrange(start, end)
                &&& c.chr() == data@.subrange(end, end + chr_len(data@))
            }),
    {
        if data.len() < 4 || data[0] != 0x4E || data[1] != 0x45 || data[2] != 0x53 || data[3] != 0x1A {
            return Err(CartidgeError::MissingHeaderPrefix);
        }
        if data.len() < HEADER_SIZE {
            return Err(CartidgeError::Truncated);
        }
        let prg_rom_size = data[4] as usize * PRG_ROM_UNIT_SIZE;
        let chr_rom_size = data[5] as usize * CHR_ROM_UNIT_SIZE;
        let prg_start = if (data[6] / 4) % 2 == 1 {
            HEADER_SIZE + TRAINER_SIZE
        } else {
            HEADER_SIZE
        };
        let prg_end = prg_start + prg_rom_size;
        if data.len() < prg_end + chr_rom_size {
            return Err(CartidgeError::Truncated);
        }
        let prg = copy_range(&data, prg_start, prg_end);
        let chr = copy_range(&data, prg_end, prg_end + chr_rom_size);
        Ok(Cartidge::new(prg, chr))
    }
}

} // verus!
