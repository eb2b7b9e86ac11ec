//! The cartridge store: a flat byte array covering both cartridge regions,
//! indexed with absolute addresses, plus the fixed-offset header fields
//! parsed for diagnostic display.

use vstd::prelude::*;
use vstd::string::StringExecFns;

use crate::memory_map::CART_STORE_SIZE;

verus! {

/// First address of the title field in the cartridge header.
pub const TITLE_START: u16 = 0x134;

/// Number of bytes in the title window.
pub const TITLE_LEN: u16 = 16;

/// The cartridge store. It is created sized exactly to its regions and
/// its contents are replaced wholesale when a new cartridge image is
/// loaded.
pub struct Rom {
    bytes: Vec<u8>,
    /// Whether a cartridge image has been loaded since construction.
    pub is_loaded: bool,
}

impl View for Rom {
    type V = Seq<u8>;

    closed spec fn view(&self) -> Seq<u8> {
        self.bytes@
    }
}

/// The characters of the title field starting at index `i` of the window:
/// ASCII bytes taken until a zero byte or until the 16-byte window is
/// consumed, whichever comes first.
pub open spec fn title_chars(cart: Seq<u8>, i: int) -> Seq<char>
    recommends
        cart.len() == CART_STORE_SIZE,
    decreases TITLE_LEN - i,
{
    if i < 0 || i >= TITLE_LEN || cart.len() != CART_STORE_SIZE {
        Seq::empty()
    } else if cart[TITLE_START + i] == 0 {
        Seq::empty()
    } else {
        seq![cart[TITLE_START + i] as char] + title_chars(cart, i + 1)
    }
}

/// The title field of a cartridge image.
pub open spec fn spec_title(cart: Seq<u8>) -> Seq<char> {
    title_chars(cart, 0)
}

/// The title stops at the first zero byte within the window or after 16
/// bytes, whichever comes first: it is exactly the run of nonzero bytes
/// from the window's start, decoded byte for byte.
pub proof fn lemma_title_stops(cart: Seq<u8>, i: int)
    requires
        cart.len() == CART_STORE_SIZE,
        0 <= i <= TITLE_LEN,
    ensures
        title_chars(cart, i).len() <= TITLE_LEN - i,
        forall|j: int|
            0 <= j < title_chars(cart, i).len() ==> #[trigger] cart[TITLE_START + i + j] != 0
                && title_chars(cart, i)[j] == cart[TITLE_START + i + j] as char,
        title_chars(cart, i).len() < TITLE_LEN - i ==> cart[TITLE_START + i + title_chars(
            cart,
            i,
        ).len()] == 0,
    decreases TITLE_LEN - i,
{
    if i < TITLE_LEN && cart[TITLE_START + i] != 0 {
        lemma_title_stops(cart, i + 1);
        assert(title_chars(cart, i) == seq![cart[TITLE_START + i] as char] + title_chars(
            cart,
            i + 1,
        ));
        assert forall|j: int|
            0 <= j < title_chars(cart, i).len() implies #[trigger] cart[TITLE_START + i + j] != 0
            && title_chars(cart, i)[j] == cart[TITLE_START + i + j] as char by {
            if j > 0 {
                assert(title_chars(cart, i)[j] == title_chars(cart, i + 1)[j - 1]);
                assert(cart[TITLE_START + (i + 1) + (j - 1)] != 0);
            }
        }
    }
}

/// The description the color-support flag byte decodes to.
pub open spec fn cgb_desc(code: u8) -> Seq<char> {
    if code == 0x80 {
        "The game supports CGB enhancements, but is backwards compatible with monochrome Game Boys"@
    } else if code == 0xC0 {
        "The game works on CGB only (the hardware ignores bit 6, so this really functions the same as $80)"@
    } else {
        "UNKNOWN CGB FLAG"@
    }
}

/// The description the legacy-peripheral-support flag byte decodes to.
pub open spec fn sgb_desc(code: u8) -> Seq<char> {
    if code == 0x03 {
        "The game supports SGB functions"@
    } else {
        "The game doesn't support SGB functions"@
    }
}

/// The description the cartridge-and-mapper-type byte decodes to.
pub open spec fn cartridge_type_desc(code: u8) -> Seq<char> {
    if code == 0x00 {
        "ROM ONLY"@
    } else if code == 0x01 {
        "MBC1"@
    } else if code == 0x02 {
        "MBC1+RAM"@
    } else if code == 0x03 {
        "MBC1+RAM+BATTERY"@
    } else if code == 0x05 {
        "MBC2"@
    } else if code == 0x06 {
        "MBC2+BATTERY"@
    } else if code == 0x08 {
        "ROM+RAM 1"@
    } else if code == 0x09 {
        "ROM+RAM+BATTERY 1"@
    } else if code == 0x0B {
        "MMM01"@
    } else if code == 0x0C {
        "MMM01+RAM"@
    } else if code == 0x0D {
        "MMM01+RAM+BATTERY"@
    } else if code == 0x0F {
        "MBC3+TIMER+BATTERY"@
    } else if code == 0x10 {
        "MBC3+TIMER+RAM+BATTERY 2"@
    } else if code == 0x11 {
        "MBC3"@
    } else if code == 0x12 {
        "MBC3+RAM 2"@
    } else if code == 0x13 {
        "MBC3+RAM+BATTERY 2"@
    } else if code == 0x19 {
        "MBC5"@
    } else if code == 0x1A {
        "MBC5+RAM"@
    } else if code == 0x1B {
        "MBC5+RAM+BATTERY"@
    } else if code == 0x1C {
        "MBC5+RUMBLE"@
    } else if code == 0x1D {
        "MBC5+RUMBLE+RAM"@
    } else if code == 0x1E {
        "MBC5+RUMBLE+RAM+BATTERY"@
    } else if code == 0x20 {
        "MBC6"@
    } else if code == 0x22 {
        "MBC7+SENSOR+RUMBLE+RAM+BATTERY"@
    } else if code == 0xFC {
        "POCKET CAMERA"@
    } else if code == 0xFD {
        "BANDAI TAMA5"@
    } else if code == 0xFE {
        "HuC3"@
    } else if code == 0xFF {
        "HuC1+RAM+BATTERY"@
    } else {
        "UNKNOWN CARTRIDGE TYPE"@
    }
}

/// The description the ROM-size code byte decodes to.
pub open spec fn rom_size_desc(code: u8) -> Seq<char> {
    if code == 0x00 {
        "32 KiB (no banking)"@
    } else if code == 0x01 {
        "64 KiB (4 banks)"@
    } else if code == 0x02 {
        "128 KiB (8 banks)"@
    } else if code == 0x03 {
        "256 KiB (16 banks)"@
    } else if code == 0x04 {
        "512 KiB (32 banks)"@
    } else if code == 0x05 {
        "1 MiB (64 banks)"@
    } else if code == 0x06 {
        "2 MiB (128 banks)"@
    } else if code == 0x07 {
        "4 MiB (256 banks)"@
    } else if code == 0x08 {
        "8 MiB (512 banks)"@
    } else if code == 0x52 {
        "1.1 MiB (72 banks)"@
    } else if code == 0x53 {
        "1.2 MiB (80 banks)"@
    } else if code == 0x54 {
        "1.5 MiB (96 banks)"@
    } else {
        "UNKNOWN ROM SIZE"@
    }
}

/// The description the RAM-size code byte decodes to.
pub open spec fn ram_size_desc(code: u8) -> Seq<char> {
    if code == 0x00 {
        "0 (No RAM)"@
    } else if code == 0x01 {
        "Unused"@
    } else if code == 0x02 {
        "8 KiB (1 bank)"@
    } else if code == 0x03 {
        "32 KiB (4 banks of 8 KiB each)"@
    } else if code == 0x04 {
        "128 KiB (16 banks of 8 KiB each)"@
    } else if code == 0x05 {
        "64 KiB (8 banks of 8 KiB each)"@
    } else {
        "UNKNOWN RAM SIZE"@
    }
}

/// Decode the color-support flag byte into its description.
pub fn cgb_flag_text(code: u8) -> (r: &'static str)
    ensures
        r@ == cgb_desc(code),
{
    if code == 0x80 {
        "The game supports CGB enhancements, but is backwards compatible with monochrome Game Boys"
    } else if code == 0xC0 {
        "The game works on CGB only (the hardware ignores bit 6, so this really functions the same as $80)"
    } else {
        "UNKNOWN CGB FLAG"
    }
}

/// Decode the legacy-peripheral-support flag byte into its description.
pub fn sgb_flag_text(code: u8) -> (r: &'static str)
    ensures
        r@ == sgb_desc(code),
{
    if code == 0x03 {
        "The game supports SGB functions"
    } else {
        "The game doesn't support SGB functions"
    }
}

/// Decode the cartridge-and-mapper-type byte into its description.
pub fn cartridge_type_text(code: u8) -> (r: &'static str)
    ensures
        r@ == cartridge_type_desc(code),
{
    if code == 0x00 {
        "ROM ONLY"
    } else if code == 0x01 {
        "MBC1"
    } else if code == 0x02 {
        "MBC1+RAM"
    } else if code == 0x03 {
        "MBC1+RAM+BATTERY"
    } else if code == 0x05 {
        "MBC2"
    } else if code == 0x06 {
        "MBC2+BATTERY"
    } else if code == 0x08 {
        "ROM+RAM 1"
    } else if code == 0x09 {
        "ROM+RAM+BATTERY 1"
    } else if code == 0x0B {
        "MMM01"
    } else if code == 0x0C {
        "MMM01+RAM"
    } else if code == 0x0D {
        "MMM01+RAM+BATTERY"
    } else if code == 0x0F {
        "MBC3+TIMER+BATTERY"
    } else if code == 0x10 {
        "MBC3+TIMER+RAM+BATTERY 2"
    } else if code == 0x11 {
        "MBC3"
    } else if code == 0x12 {
        "MBC3+RAM 2"
    } else if code == 0x13 {
        "MBC3+RAM+BATTERY 2"
    } else if code == 0x19 {
        "MBC5"
    } else if code == 0x1A {
        "MBC5+RAM"
    } else if code == 0x1B {
        "MBC5+RAM+BATTERY"
    } else if code == 0x1C {
        "MBC5+RUMBLE"
    } else if code == 0x1D {
        "MBC5+RUMBLE+RAM"
    } else if code == 0x1E {
        "MBC5+RUMBLE+RAM+BATTERY"
    } else if code == 0x20 {
        "MBC6"
    } else if code == 0x22 {
        "MBC7+SENSOR+RUMBLE+RAM+BATTERY"
    } else if code == 0xFC {
        "POCKET CAMERA"
    } else if code == 0xFD {
        "BANDAI TAMA5"
    } else if code == 0xFE {
        "HuC3"
    } else if code == 0xFF {
        "HuC1+RAM+BATTERY"
    } else {
        "UNKNOWN CARTRIDGE TYPE"
    }
}

/// Decode the ROM-size code byte into its description.
pub fn rom_size_text(code: u8) -> (r: &'static str)
    ensures
        r@ == rom_size_desc(code),
{
    if code == 0x00 {
        "32 KiB (no banking)"
    } else if code == 0x01 {
        "64 KiB (4 banks)"
    } else if code == 0x02 {
        "128 KiB (8 banks)"
    } else if code == 0x03 {
        "256 KiB (16 banks)"
    } else if code == 0x04 {
        "512 KiB (32 banks)"
    } else if code == 0x05 {
        "1 MiB (64 banks)"
    } else if code == 0x06 {
        "2 MiB (128 banks)"
    } else if code == 0x07 {
        "4 MiB (256 banks)"
    } else if code == 0x08 {
        "8 MiB (512 banks)"
    } else if code == 0x52 {
        "1.1 MiB (72 banks)"
    } else if code == 0x53 {
        "1.2 MiB (80 banks)"
    } else if code == 0x54 {
        "1.5 MiB (96 banks)"
    } else {
        "UNKNOWN ROM SIZE"
    }
}

/// Decode the RAM-size code byte into its description.
pub fn ram_size_text(code: u8) -> (r: &'static str)
    ensures
        r@ == ram_size_desc(code),
{
    if code == 0x00 {
        "0 (No RAM)"
    } else if code == 0x01 {
        "Unused"
    } else if code == 0x02 {
        "8 KiB (1 bank)"
    } else if code == 0x03 {
        "32 KiB (4 banks of 8 KiB each)"
    } else if code == 0x04 {
        "128 KiB (16 banks of 8 KiB each)"
    } else if code == 0x05 {
        "64 KiB (8 banks of 8 KiB each)"
    } else {
        "UNKNOWN RAM SIZE"
    }
}

/// The whole diagnostic header block a cartridge image decodes to:
/// banner, title and the five decoded header fields, one per line.
pub open spec fn header_desc(cart: Seq<u8>) -> Seq<char> {
    "*~~ ROM Header ~~*\nTitle: "@ + spec_title(cart) + "\nCGB Flag: "@ + cgb_desc(cart[0x143])
        + "\nSGB Flag: "@ + sgb_desc(cart[0x146]) + "\nCartridge Type: "@ + cartridge_type_desc(
        cart[0x147],
    ) + "\nROM Size: "@ + rom_size_desc(cart[0x148]) + "\nRAM Size: "@ + ram_size_desc(cart[0x149])
        + "\n"@
}

/// Relies on String::push: appends exactly the given character to the end
/// of the string.
#[verifier::external_body]
fn push_char(s: &mut String, c: char)
    ensures
        final(s)@ == old(s)@ + seq![c],
{
    s.push(c);
}

impl Rom {
    /// The store holds one byte per address of the cartridge regions.
    pub open spec fn wf(&self) -> bool {
        self@.len() == CART_STORE_SIZE
    }

    /// Whether a cartridge image has been loaded since construction.
    pub closed spec fn loaded(&self) -> bool {
        self.is_loaded
    }

    /// An empty cartridge store: sized to its regions, zero-filled, with
    /// no image loaded.
    pub fn new() -> (r: Rom)
        ensures
            r.wf(),
            r@ == Seq::<u8>::new(CART_STORE_SIZE as nat, |i: int| 0u8),
            !r.loaded(),
    {
        let mut bytes: Vec<u8> = Vec::new();
        let mut i: usize = 0;
        while i < CART_STORE_SIZE
            invariant
                i <= CART_STORE_SIZE,
                bytes@ =~= Seq::<u8>::new(i as nat, |j: int| 0u8),
            decreases CART_STORE_SIZE - i,
        {
            bytes.push(0);
            i = i + 1;
        }
        proof {
            assert(bytes@ =~= Seq::<u8>::new(CART_STORE_SIZE as nat, |j: int| 0u8));
        }
        Rom { bytes, is_loaded: false }
    }

    /// Replace the store's contents with a cartridge image: the image's
    /// bytes fill the store from address zero, any space past the image is
    /// zeroed, and anything past the store's size is out of scope of the
    /// raw byte array.
    pub fn load(&mut self, data: &[u8])
        requires
            old(self).wf(),
        ensures
            final(self).wf(),
            final(self).loaded(),
            forall|i: int|
                0 <= i < CART_STORE_SIZE ==> final(self)@[i] == (if i < data@.len() {
                    data@[i]
                } else {
                    0u8
                }),
    {
        let mut i: usize = 0;
        while i < CART_STORE_SIZE
            invariant
                old(self).wf(),
                self.wf(),
                i <= CART_STORE_SIZE,
                forall|j: int|
                    0 <= j < i ==> self@[j] == (if j < data@.len() {
                        data@[j]
                    } else {
                        0u8
                    }),
        decreases CART_STORE_SIZE - i,
        {
            let b: u8 = if i < data.len() {
                data[i]
            } else {
                0
            };
            self.bytes.set(i, b);
            i = i + 1;
        }
        self.is_loaded = true;
    }

    /// The byte at an absolute address of the cartridge regions.
    pub fn read(&self, address: u16) -> (r: u8)
        requires
            (address as int) < self@.len(),
        ensures
            r == self@[address as int],
    {
        self.bytes[address as usize]
    }

    /// Store a byte at an absolute address of the cartridge regions.
    pub fn write(&mut self, address: u16, data: u8)
        requires
            (address as int) < old(self)@.len(),
        ensures
            final(self)@ == old(self)@.update(address as int, data),
            final(self).loaded() == old(self).loaded(),
    {
        self.bytes.set(address as usize, data);
    }

    /// The title field of the header: ASCII bytes from the title window,
    /// until a zero byte or 16 bytes consumed.
    pub fn title(&self) -> (r: String)
        requires
            self.wf(),
        ensures
            r@ == spec_title(self@),
    {
        let mut name = String::new();
        let mut i: u16 = 0;
        while i < TITLE_LEN
            invariant
                self.wf(),
                i <= TITLE_LEN,
                title_chars(self@, 0) == name@ + title_chars(self@, i as int),
            decreases TITLE_LEN - i,
        {
            let code = self.read(TITLE_START + i);
            if code == 0 {
                proof {
                    assert(title_chars(self@, i as int) =~= Seq::<char>::empty());
                    assert(name@ + Seq::<char>::empty() =~= name@);
                }
                return name;
            }
            push_char(&mut name, code as char);
            proof {
                assert(title_chars(self@, i as int) =~= seq![self@[TITLE_START + i] as char]
                    + title_chars(self@, i + 1));
                assert(name@ + title_chars(self@, i + 1) =~= title_chars(self@, 0));
            }
            i = i + 1;
        }
        proof {
            assert(title_chars(self@, TITLE_LEN as int) =~= Seq::<char>::empty());
            assert(name@ + Seq::<char>::empty() =~= name@);
        }
        name
    }

    /// The color-support flag byte of the header.
    pub fn cgb_flag(&self) -> (r: u8)
        requires
            self.wf(),
        ensures
            r == self@[0x143],
    {
        self.read(0x143)
    }

    /// The legacy-peripheral-support flag byte of the header.
    pub fn sgb_flag(&self) -> (r: u8)
        requires
            self.wf(),
        ensures
            r == self@[0x146],
    {
        self.read(0x146)
    }

    /// The cartridge-and-mapper-type byte of the header.
    pub fn cartridge_type(&self) -> (r: u8)
        requires
            self.wf(),
        ensures
            r == self@[0x147],
    {
        self.read(0x147)
    }

    /// The ROM-size code byte of the header.
    pub fn rom_size(&self) -> (r: u8)
        requires
            self.wf(),
        ensures
            r == self@[0x148],
    {
        self.read(0x148)
    }

    /// The diagnostic header block: banner, title and the five decoded
    /// header fields, one per line.
    pub fn header_text(&self) -> (r: String)
        requires
            self.wf(),
        ensures
            r@ == header_desc(self@),
    {
        let mut s = String::from_str("*~~ ROM Header ~~*\nTitle: ");
        let title = self.title();
        s.append(title.as_str());
        s.append("\nCGB Flag: ");
        s.append(cgb_flag_text(self.cgb_flag()));
        s.append("\nSGB Flag: ");
        s.append(sgb_flag_text(self.sgb_flag()));
        s.append("\nCartridge Type: ");
        s.append(cartridge_type_text(self.cartridge_type()));
        s.append("\nROM Size: ");
        s.append(rom_size_text(self.rom_size()));
        s.append("\nRAM Size: ");
        s.append(ram_size_text(self.ram_size()));
        s.append("\n");
        proof {
            assert(s@ =~= header_desc(self@));
        }
        s
    }

    /// The RAM-size code byte of the header.
    pub fn ram_size(&self) -> (r: u8)
        requires
            self.wf(),
        ensures
            r == self@[0x149],
    {
        self.read(0x149)
    }
}

} // verus!
