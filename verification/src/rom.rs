//! The cartridge container: a 16-byte header (a 4-byte identifying constant,
//! the program-ROM size in 16KB units, the character-ROM size in 8KB units,
//! and five flag bytes) followed by the program data. The core consumes only
//! the program byte sequence; the flags are carried, not interpreted.

use vstd::prelude::*;

verus! {

/// Mathematical model of a parsed header.
#[verifier::ext_equal]
pub ghost struct HeaderV {
    pub constants: Seq<u8>,
    pub prg_rom_size: u8,
    pub chr_rom_size: u8,
    pub flags: Seq<u8>,
}

/// The header parsed from the first bytes of a container image: bytes 0..3
/// are the identifying constant, byte 4 the program-ROM size, byte 5 the
/// character-ROM size, bytes 6..10 the flag bytes.
pub open spec fn parse_header(data: Seq<u8>) -> HeaderV {
    HeaderV {
        constants: seq![data[0], data[1], data[2], data[3]],
        prg_rom_size: data[4],
        chr_rom_size: data[5],
        flags: seq![data[6], data[7], data[8], data[9], data[10]],
    }
}

/// A parsed container header.
pub struct Header {
    first_four_constants: [u8; 4],
    prg_rom_size: u8,
    chr_rom_size: u8,
    flags: [u8; 5],
}

impl View for Header {
    type V = HeaderV;

    closed spec fn view(&self) -> HeaderV {
        HeaderV {
            constants: self.first_four_constants@,
            prg_rom_size: self.prg_rom_size,
            chr_rom_size: self.chr_rom_size,
            flags: self.flags@,
        }
    }
}

/// Relies on String::push: appends one character at the end of the string.
#[verifier::external_body]
fn push_char(s: &mut String, c: char)
    ensures
        final(s)@ == old(s)@.push(c),
{
    s.push(c)
}

impl Header {
    /// Parse a header from the leading bytes of a container image.
    pub fn new(data: &[u8]) -> (h: Header)
        requires
            data@.len() >= 11,
        ensures
            h@ == parse_header(data@),
    {
        let h = Header {
            first_four_constants: [data[0], data[1], data[2], data[3]],
            prg_rom_size: data[4],
            chr_rom_size: data[5],
            flags: [data[6], data[7], data[8], data[9], data[10]],
        };
        proof {
            assert(h@ =~= parse_header(data@));
        }
        h
    }

    /// The 4-byte identifying constant.
    pub fn get_constants(&self) -> (r: [u8; 4])
        ensures
            r@ == self@.constants,
    {
        self.first_four_constants
    }

    /// The identifying constant with each byte read as a character.
    pub fn constant_as_str(&self) -> (r: String)
        ensures
            r@.len() == 4,
            forall|i: int| 0 <= i < 4 ==> r@[i] == self@.constants[i] as char,
    {
        let mut s = String::new();
        push_char(&mut s, self.first_four_constants[0] as char);
        push_char(&mut s, self.first_four_constants[1] as char);
        push_char(&mut s, self.first_four_constants[2] as char);
        push_char(&mut s, self.first_four_constants[3] as char);
        s
    }

    /// Size of the program ROM in 16KB units.
    pub fn get_prg_rom_size(&self) -> (r: u8)
        ensures
            r == self@.prg_rom_size,
    {
        self.prg_rom_size
    }

    /// Size of the character ROM in 8KB units.
    pub fn get_chr_rom_size(&self) -> (r: u8)
        ensures
            r == self@.chr_rom_size,
    {
        self.chr_rom_size
    }

    /// All five flag bytes.
    pub fn get_all_flag(&self) -> (r: [u8; 5])
        ensures
            r@ == self@.flags,
    {
        self.flags
    }

    /// One flag byte by index.
    pub fn get_flag(&self, idx: usize) -> (r: u8)
        requires
            idx < 5,
        ensures
            r == self@.flags[idx as int],
    {
        self.flags[idx]
    }
}

/// A cartridge image: a parsed header plus the program byte sequence the
/// processor is booted from.
pub trait Rom: Sized {
    /// The parsed header this image carries.
    spec fn spec_header(&self) -> HeaderV;

    /// The program byte sequence this image carries.
    spec fn spec_prg(&self) -> Seq<u8>;

    /// Parse a container image: the header from the first 16 bytes, the
    /// program data as the `0x4000 * prg-size` bytes that follow them.
    fn new(data: &Vec<u8>) -> (r: Self)
        requires
            data@.len() >= 16,
            data@.len() >= 0x10 + 0x4000 * (data@[4] as int),
        ensures
            r.spec_header() == parse_header(data@),
            r.spec_prg() == data@.subrange(0x10, 0x10 + 0x4000 * (data@[4] as int)),
    ;

    fn get_header(&self) -> (h: &Header)
        ensures
            h@ == self.spec_header(),
    ;

    fn get_rom_data(&self) -> (d: &Vec<u8>)
        ensures
            d@ == self.spec_prg(),
    ;

    fn get_prg_data(&self) -> (d: &Vec<u8>)
        ensures
            d@ == self.spec_prg(),
    ;
}

/// The first container version: header plus program data, no trainer.
pub struct RomV1 {
    header: Header,
    prg: Vec<u8>,
}

impl Rom for RomV1 {
    closed spec fn spec_header(&self) -> HeaderV {
        self.header@
    }

    closed spec fn spec_prg(&self) -> Seq<u8> {
        self.prg@
    }

    fn new(data: &Vec<u8>) -> (r: RomV1) {
        let header = Header::new(vstd::slice::slice_subrange(data.as_slice(), 0, 11));
        let to: usize = 0x10 + 0x4000 * (header.get_prg_rom_size() as usize);
        let prg = vstd::slice::slice_to_vec(vstd::slice::slice_subrange(data.as_slice(), 0x10, to));
        proof {
            assert(parse_header(data@.subrange(0, 11)) =~= parse_header(data@));
        }
        RomV1 { header, prg }
    }

    fn get_header(&self) -> (h: &Header) {
        &self.header
    }

    fn get_prg_data(&self) -> (d: &Vec<u8>) {
        &self.prg
    }

    fn get_rom_data(&self) -> (d: &Vec<u8>) {
        &self.prg
    }
}

} // verus!
