//! A frozen copy of one module of the target process.
//!
//! The copy is taken once and never refreshed: code bytes do not change while
//! the process runs, so signatures are searched and displacements are read in
//! the copy, not in the live process.

use crate::address::{address_space, LocalAddress, RemoteAddress};
use crate::error::ErrorKind;
use crate::pattern::{first_match, matches_at, parse_pattern, BytePattern, Matcher};
use vstd::prelude::*;

verus! {

/// The signed 32-bit number that four bytes encode, lowest byte first.
pub open spec fn le_i32(bytes: Seq<u8>) -> int
    recommends
        bytes.len() == 4,
{
    let unsigned = bytes[0] + 0x100 * bytes[1] + 0x1_0000 * bytes[2] + 0x100_0000 * bytes[3];
    if unsigned >= 0x8000_0000 {
        unsigned - 0x1_0000_0000
    } else {
        unsigned
    }
}

/// A module image as the contracts see it: where the module lies in the
/// process, and the bytes that were copied from there.
pub struct ModuleImage {
    pub base: u64,
    pub bytes: Seq<u8>,
}

impl ModuleImage {
    /// The image lies inside the address space with all its length, and its
    /// bytes can be counted in a `usize`.
    pub open spec fn wf(self) -> bool {
        &&& self.base + self.bytes.len() <= address_space()
        &&& self.bytes.len() <= usize::MAX
    }

    /// Whether `address` is the position of one of the copied bytes.
    pub open spec fn contains(self, address: int) -> bool {
        self.base <= address < self.base + self.bytes.len()
    }

    /// The place in the snapshot of the byte that lies at `address` in the
    /// process.
    pub open spec fn translate(self, address: RemoteAddress) -> Result<LocalAddress, ErrorKind> {
        if self.contains(address.0 as int) {
            Ok(LocalAddress((address.0 - self.base) as usize))
        } else {
            Err(ErrorKind::OutOfBoundsTranslation)
        }
    }

    /// The place in the process of the byte that lies at `local` in the
    /// snapshot.
    pub open spec fn locate(self, local: LocalAddress) -> Result<RemoteAddress, ErrorKind> {
        if local.0 < self.bytes.len() {
            Ok(RemoteAddress((self.base + local.0) as u64))
        } else {
            Err(ErrorKind::OutOfBoundsTranslation)
        }
    }

    /// The copied byte of the process position `address`.
    pub open spec fn byte_at(self, address: int) -> Result<u8, ErrorKind> {
        if self.contains(address) {
            Ok(self.bytes[address - self.base])
        } else {
            Err(ErrorKind::OutOfBoundsTranslation)
        }
    }

    /// The signed 32-bit number in the four copied bytes from the process
    /// position `address` on. All four have to lie in the image.
    pub open spec fn i32_at(self, address: int) -> Result<int, ErrorKind> {
        if self.contains(address) && self.contains(address + 3) {
            Ok(le_i32(self.bytes.subrange(address - self.base, address - self.base + 4)))
        } else {
            Err(ErrorKind::OutOfBoundsTranslation)
        }
    }

    /// The process position of the lowest match of `pattern` in the image.
    pub open spec fn scan(self, pattern: Seq<Matcher>) -> Option<RemoteAddress> {
        match first_match(self.bytes, pattern) {
            Some(at) => Some(RemoteAddress((self.base + at) as u64)),
            None => None,
        }
    }

    /// What a search by pattern text gives: nothing for a text that does not
    /// compile, otherwise what the search for the compiled pattern gives.
    pub open spec fn scan_text(self, text: Seq<char>) -> Option<RemoteAddress> {
        match parse_pattern(text) {
            Ok(pattern) => self.scan(pattern),
            Err(_) => None,
        }
    }
}

/// The snapshot of one module: its base address in the process, and a copy
/// of its bytes.
#[derive(Debug)]
pub struct Module {
    base_addr: RemoteAddress,
    snapshot: Vec<u8>,
}

impl View for Module {
    type V = ModuleImage;

    closed spec fn view(&self) -> ModuleImage {
        ModuleImage { base: self.base_addr.0, bytes: self.snapshot@ }
    }
}

impl Module {
    /// Every module image lies inside the address space.
    #[verifier::type_invariant]
    pub open spec fn wf(&self) -> bool {
        self@.wf()
    }

    /// Makes the image of a module from its base address and the bytes read
    /// there. A range that runs over the end of the address space cannot have
    /// been read.
    pub fn capture(
        base_addr: RemoteAddress,
        snapshot: Vec<u8>,
    ) -> (captured: Result<Module, ErrorKind>)
        ensures
            match captured {
                Ok(module) => {
                    &&& base_addr.0 + snapshot@.len() <= address_space()
                    &&& module@ == (ModuleImage { base: base_addr.0, bytes: snapshot@ })
                    &&& module.wf()
                },
                Err(error) => {
                    &&& base_addr.0 + snapshot@.len() > address_space()
                    &&& error == ErrorKind::MemoryReadFailed
                },
            },
    {
        if snapshot.len() as u128 + base_addr.0 as u128 > 0x1_0000_0000_0000_0000 {
            return Err(ErrorKind::MemoryReadFailed);
        }
        Ok(Module { base_addr, snapshot })
    }

    /// The address of the module's first byte in the process.
    pub fn base_addr(&self) -> (base: RemoteAddress)
        ensures
            base.0 == self@.base,
    {
        self.base_addr
    }

    /// The number of bytes of the module.
    pub fn base_size(&self) -> (size: usize)
        ensures
            size == self@.bytes.len(),
    {
        self.snapshot.len()
    }

    /// The copied bytes.
    pub fn snapshot(&self) -> (bytes: &[u8])
        ensures
            bytes@ == self@.bytes,
    {
        self.snapshot.as_slice()
    }

    /// Translates a process address into the snapshot. An address outside
    /// the module is refused.
    pub fn snapshot_addr(&self, ps_addr: RemoteAddress) -> (local: Result<LocalAddress, ErrorKind>)
        ensures
            local == self@.translate(ps_addr),
    {
        if ps_addr.0 < self.base_addr.0 {
            return Err(ErrorKind::OutOfBoundsTranslation);
        }
        let offset = ps_addr.0 - self.base_addr.0;
        if offset >= self.snapshot.len() as u64 {
            return Err(ErrorKind::OutOfBoundsTranslation);
        }
        Ok(LocalAddress(offset as usize))
    }

    /// Translates a snapshot position back into the process. A position
    /// behind the last byte is refused.
    pub fn process_addr(&self, local: LocalAddress) -> (remote: Result<RemoteAddress, ErrorKind>)
        ensures
            remote == self@.locate(local),
    {
        proof {
            use_type_invariant(self);
        }
        if local.0 >= self.snapshot.len() {
            return Err(ErrorKind::OutOfBoundsTranslation);
        }
        Ok(RemoteAddress(self.base_addr.0 + local.0 as u64))
    }

    /// Reads one byte of the snapshot by its process address.
    pub fn read_u8(&self, ps_addr: RemoteAddress) -> (byte: Result<u8, ErrorKind>)
        ensures
            byte == self@.byte_at(ps_addr.0 as int),
    {
        proof {
            use_type_invariant(self);
        }
        match self.snapshot_addr(ps_addr) {
            Ok(local) => Ok(self.snapshot[local.0]),
            Err(error) => Err(error),
        }
    }

    /// Reads a signed 32-bit number, lowest byte first, from the snapshot by
    /// the process address of its first byte.
    pub fn read_i32(&self, ps_addr: RemoteAddress) -> (value: Result<i32, ErrorKind>)
        ensures
            match value {
                Ok(number) => self@.i32_at(ps_addr.0 as int) == Ok::<int, ErrorKind>(number as int),
                Err(error) => self@.i32_at(ps_addr.0 as int) == Err::<int, ErrorKind>(error),
            },
    {
        let start = match self.snapshot_addr(ps_addr) {
            Ok(local) => local.0,
            Err(error) => {
                return Err(error);
            },
        };
        if self.snapshot.len() - start < 4 {
            return Err(ErrorKind::OutOfBoundsTranslation);
        }
        let ghost field = self@.bytes.subrange(start as int, start + 4);
        assert(field[0] == self.snapshot@[start as int]);
        assert(field[1] == self.snapshot@[start + 1]);
        assert(field[2] == self.snapshot@[start + 2]);
        assert(field[3] == self.snapshot@[start + 3]);
        let unsigned: u32 = self.snapshot[start] as u32 + 0x100 * (self.snapshot[start + 1] as u32)
            + 0x1_0000 * (self.snapshot[start + 2] as u32) + 0x100_0000 * (self.snapshot[start
            + 3] as u32);
        let number: i64 = if unsigned >= 0x8000_0000 {
            unsigned as i64 - 0x1_0000_0000
        } else {
            unsigned as i64
        };
        Ok(number as i32)
    }

    /// Reads a signed 32-bit number, lowest byte first, from the snapshot,
    /// `offset` bytes behind the process address `ps_addr`.
    pub fn read_i32_at(
        &self,
        ps_addr: RemoteAddress,
        offset: usize,
    ) -> (value: Result<i32, ErrorKind>)
        ensures
            match value {
                Ok(number) => self@.i32_at(ps_addr.0 + offset) == Ok::<int, ErrorKind>(
                    number as int,
                ),
                Err(error) => self@.i32_at(ps_addr.0 + offset) == Err::<int, ErrorKind>(error),
            },
    {
        proof {
            use_type_invariant(self);
        }
        match ps_addr.checked_advance(offset) {
            Some(field) => self.read_i32(field),
            None => Err(ErrorKind::OutOfBoundsTranslation),
        }
    }

    /// Finds the lowest process address at which `pattern` matches the
    /// snapshot.
    pub fn scan(&self, pattern: &BytePattern) -> (found: Option<RemoteAddress>)
        ensures
            found == self@.scan(pattern@),
    {
        proof {
            use_type_invariant(self);
        }
        match pattern.scan(self.snapshot.as_slice()) {
            Some(at) => {
                assert(at == 0 || at < self.snapshot@.len()) by {
                    if pattern@.len() == 0 {
                        assert(matches_at(self.snapshot@, pattern@, 0));
                    }
                }
                Some(RemoteAddress(self.base_addr.0 + at as u64))
            },
            None => None,
        }
    }

    /// Compiles `pattern` and finds the lowest process address at which it
    /// matches the snapshot. A text that does not compile is found nowhere.
    pub fn pattern_scan(&self, pattern: &str) -> (found: Option<RemoteAddress>)
        ensures
            found == self@.scan_text(pattern@),
    {
        match BytePattern::compile(pattern) {
            Ok(compiled) => self.scan(&compiled),
            Err(_) => None,
        }
    }
}

/// Translation is one-to-one between the addresses of a module and the
/// positions of its snapshot: an address of the module goes to its distance
/// from the base, every other address is refused, and `locate` leads back.
pub proof fn law_translate_is_bijection(
    image: ModuleImage,
    address: RemoteAddress,
    local: LocalAddress,
)
    requires
        image.wf(),
    ensures
        image.contains(address.0 as int) ==> {
            &&& image.translate(address) == Ok::<LocalAddress, ErrorKind>(
                LocalAddress((address.0 - image.base) as usize),
            )
            &&& address.0 - image.base < image.bytes.len()
            &&& image.locate(image.translate(address)->Ok_0) == Ok::<RemoteAddress, ErrorKind>(
                address,
            )
        },
        !image.contains(address.0 as int) ==> image.translate(address) == Err::<
            LocalAddress,
            ErrorKind,
        >(ErrorKind::OutOfBoundsTranslation),
        local.0 < image.bytes.len() ==> {
            &&& image.locate(local) is Ok
            &&& image.contains(image.locate(local)->Ok_0.0 as int)
            &&& image.translate(image.locate(local)->Ok_0) == Ok::<LocalAddress, ErrorKind>(local)
        },
{
}

} // verus!
