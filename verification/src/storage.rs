//! Flash storage: the range of flash that holds the key-value store, and a
//! NOR flash kept in a buffer.
//!
//! Erasing sets every bit of a range. Writing can only clear bits: a byte
//! becomes the conjunction of what it held and what is written.

use vstd::prelude::*;

verus! {

/// Length in bytes that a flash is given if it has none yet.
pub const DEFAULT_LENGTH: u64 = 16384;

/// The smallest unit that can be read.
pub const READ_SIZE: usize = 1;

/// The smallest unit that can be written.
pub const DEFAULT_WRITE_SIZE: usize = 1;

/// The smallest unit that can be erased.
pub const DEFAULT_ERASE_SIZE: usize = 256;

/// The value which flash takes when it is erased.
pub const ERASE_VALUE: u8 = 0xff;

/// The key under which the marker of an initialized store is kept.
pub const MARKER_KEY: &'static str = "ARIEL_INIT_MARK";

/// The value of the marker of an initialized store.
pub const MARKER_VALUE: u8 = 0;

/// Error type for [`FileFlash`].
#[derive(Debug, Copy, Clone, PartialEq, Eq, Structural)]
pub enum FileFlashError {
    /// The requested data is out of bounds of the emulated flash storage.
    OutOfBounds,
}

/// The kinds of error that a NOR flash can report.
#[derive(Debug, Copy, Clone, PartialEq, Eq, Structural)]
pub enum NorFlashErrorKind {
    /// The arguments are not properly aligned.
    NotAligned,
    /// The arguments are out of bounds.
    OutOfBounds,
    /// Any other error.
    Other,
}

impl FileFlashError {
    /// Returns the kind of the error.
    pub fn kind(&self) -> (k: NorFlashErrorKind)
        ensures
            k == NorFlashErrorKind::OutOfBounds,
    {
        match self {
            FileFlashError::OutOfBounds => NorFlashErrorKind::OutOfBounds,
        }
    }
}

/// An emulated NOR flash whose content is kept in a buffer.
pub struct FileFlash {
    buffer: Vec<u8>,
}

impl View for FileFlash {
    type V = Seq<u8>;

    /// The content of the flash.
    closed spec fn view(&self) -> Seq<u8> {
        self.buffer@
    }
}

/// Whether the `length` bytes from `start` on lie within a flash of `len`
/// bytes.
pub open spec fn in_bounds(len: nat, start: int, length: int) -> bool {
    0 <= start <= len && 0 <= length <= len - start
}

/// `content` with every byte from `from` up to, but not including, `to`
/// erased.
pub open spec fn erased(content: Seq<u8>, from: int, to: int) -> Seq<u8> {
    Seq::new(
        content.len(),
        |i: int|
            if from <= i < to {
                ERASE_VALUE
            } else {
                content[i]
            },
    )
}

/// Whether the range from `from` up to, but not including, `to` lies
/// within a flash of `len` bytes. A range that ends before it starts does
/// not.
pub open spec fn range_in_bounds(len: nat, from: int, to: int) -> bool {
    0 <= from <= to <= len
}

/// `content` after `bytes` were written from `start` on.
pub open spec fn written(content: Seq<u8>, start: int, bytes: Seq<u8>) -> Seq<u8> {
    Seq::new(
        content.len(),
        |i: int|
            if start <= i < start + bytes.len() {
                content[i] & bytes[i - start]
            } else {
                content[i]
            },
    )
}

/// What a flash holds at first when its file holds `existing`: the first
/// `DEFAULT_LENGTH` bytes of it, filled up with zeros.
pub open spec fn spec_initial_content(existing: Seq<u8>) -> Seq<u8> {
    Seq::new(
        DEFAULT_LENGTH as nat,
        |i: int|
            if i < existing.len() {
                existing[i]
            } else {
                0u8
            },
    )
}

impl FileFlash {
    /// Returns a flash with the content `buffer`.
    pub fn new(buffer: Vec<u8>) -> (f: FileFlash)
        ensures
            f@ == buffer@,
    {
        FileFlash { buffer }
    }

    /// Returns the length of the storage.
    pub fn size(&mut self) -> (n: usize)
        ensures
            n == old(self)@.len(),
            final(self)@ == old(self)@,
    {
        self.buffer.len()
    }

    /// Returns the length of the storage.
    pub fn capacity(&self) -> (n: usize)
        ensures
            n == self@.len(),
    {
        self.buffer.len()
    }

    /// Returns the content, to be saved.
    pub fn content(&self) -> (c: &Vec<u8>)
        ensures
            c@ == self@,
    {
        &self.buffer
    }

    /// Checks that the `length` bytes from `start` on lie within the
    /// flash, and returns `start`.
    pub fn check_range(&self, start: u32, length: usize) -> (r: Result<usize, FileFlashError>)
        ensures
            in_bounds(self@.len(), start as int, length as int) ==> r == Ok::<
                usize,
                FileFlashError,
            >(start as usize),
            !in_bounds(self@.len(), start as int, length as int) ==> r == Err::<
                usize,
                FileFlashError,
            >(FileFlashError::OutOfBounds),
    {
        let start = start as usize;
        if start > self.buffer.len() {
            return Err(FileFlashError::OutOfBounds);
        }
        if length > self.buffer.len() - start {
            return Err(FileFlashError::OutOfBounds);
        }
        Ok(start)
    }

    /// Reads `length` bytes from `offset` on.
    pub fn read(&mut self, offset: u32, length: usize) -> (r: Result<Vec<u8>, FileFlashError>)
        ensures
            final(self)@ == old(self)@,
            in_bounds(old(self)@.len(), offset as int, length as int) ==> (r matches Ok(bytes)
                && bytes@ == old(self)@.subrange(offset as int, offset + length)),
            !in_bounds(old(self)@.len(), offset as int, length as int) ==> (r matches Err(e) && e
                == FileFlashError::OutOfBounds),
    {
        let start = match self.check_range(offset, length) {
            Ok(s) => s,
            Err(e) => {
                return Err(e);
            },
        };
        let mut bytes: Vec<u8> = Vec::new();
        let mut i: usize = 0;
        while i < length
            invariant
                i <= length,
                start + length <= self.buffer.len(),
                bytes@ == self@.subrange(start as int, start + i),
            decreases length - i,
        {
            bytes.push(self.buffer[start + i]);
            proof {
                assert(self@.subrange(start as int, start + i).push(self@[start + i])
                    =~= self@.subrange(start as int, start + i + 1));
            }
            i += 1;
        }
        Ok(bytes)
    }

    /// Erases the range from `from` up to, but not including, `to`: every
    /// byte of it holds `ERASE_VALUE` afterwards. Fails, and changes
    /// nothing, if the range does not lie within the flash or ends before
    /// it starts.
    pub fn erase(&mut self, from: u32, to: u32) -> (r: Result<(), FileFlashError>)
        ensures
            range_in_bounds(old(self)@.len(), from as int, to as int) ==> r.is_ok() && final(self)@
                == erased(old(self)@, from as int, to as int),
            !range_in_bounds(old(self)@.len(), from as int, to as int) ==> (r matches Err(e) && e
                == FileFlashError::OutOfBounds) && final(self)@ == old(self)@,
    {
        if to < from {
            return Err(FileFlashError::OutOfBounds);
        }
        let length = (to - from) as usize;
        let start = match self.check_range(from, length) {
            Ok(s) => s,
            Err(e) => {
                return Err(e);
            },
        };
        let mut i: usize = 0;
        while i < length
            invariant
                i <= length,
                start + length <= self.buffer.len(),
                self@.len() == old(self)@.len(),
                forall|j: int| start <= j < start + i ==> self@[j] == ERASE_VALUE,
                forall|j: int|
                    0 <= j < self@.len() && !(start <= j < start + i) ==> self@[j] == old(self)@[j],
            decreases length - i,
        {
            self.buffer[start + i] = ERASE_VALUE;
            i += 1;
        }
        proof {
            assert(self@ =~= erased(old(self)@, from as int, to as int));
        }
        Ok(())
    }

    /// Writes `bytes` from `offset` on. Each byte of the flash becomes the
    /// conjunction of what it held and what is written.
    pub fn write(&mut self, offset: u32, bytes: &Vec<u8>) -> (r: Result<(), FileFlashError>)
        ensures
            in_bounds(old(self)@.len(), offset as int, bytes@.len() as int) ==> r.is_ok() && final(self)@ == written(old(self)@, offset as int, bytes@),
            !in_bounds(old(self)@.len(), offset as int, bytes@.len() as int) ==> (r matches Err(e)
                && e == FileFlashError::OutOfBounds) && final(self)@ == old(self)@,
    {
        let length = bytes.len();
        let start = match self.check_range(offset, length) {
            Ok(s) => s,
            Err(e) => {
                return Err(e);
            },
        };
        let mut i: usize = 0;
        while i < length
            invariant
                i <= length,
                length == bytes@.len(),
                start + length <= self.buffer.len(),
                self@.len() == old(self)@.len(),
                forall|j: int|
                    start <= j < start + i ==> self@[j] == old(self)@[j] & bytes@[j - start],
                forall|j: int|
                    0 <= j < self@.len() && !(start <= j < start + i) ==> self@[j] == old(self)@[j],
            decreases length - i,
        {
            let b = self.buffer[start + i] & bytes[i];
            self.buffer[start + i] = b;
            i += 1;
        }
        proof {
            assert(self@ =~= written(old(self)@, offset as int, bytes@));
        }
        Ok(())
    }
}

/// Returns what a flash holds at first when its file holds `existing`: the
/// file is cut or filled up with zeros to `DEFAULT_LENGTH` bytes.
pub fn initial_content(existing: &Vec<u8>) -> (content: Vec<u8>)
    ensures
        content@ == spec_initial_content(existing@),
{
    let mut content: Vec<u8> = Vec::new();
    let mut i: usize = 0;
    while i < DEFAULT_LENGTH as usize
        invariant
            i <= DEFAULT_LENGTH,
            content@.len() == i,
            forall|j: int|
                0 <= j < i ==> content@[j] == (if j < existing@.len() {
                    existing@[j]
                } else {
                    0u8
                }),
        decreases DEFAULT_LENGTH - i,
    {
        if i < existing.len() {
            content.push(existing[i]);
        } else {
            content.push(0);
        }
        i += 1;
    }
    proof {
        assert(content@ =~= spec_initial_content(existing@));
    }
    content
}

/// Whether a store has to be erased and marked before it is used: unless
/// the marker was read and has its value.
pub fn needs_initializing<E>(marker: &Result<Option<u8>, E>) -> (needed: bool)
    ensures
        needed <==> !(marker matches Ok(Some(v)) && v == MARKER_VALUE),
{
    match marker {
        Ok(Some(v)) => *v != MARKER_VALUE,
        _ => true,
    }
}

/// The offset between the addresses of the linker and those of the flash
/// driver on nRF chips.
pub const OFFSET_NRF: usize = 0x0;

/// The offset on the network core of the nRF5340.
pub const OFFSET_NRF5340_NET: usize = 0x0100_0000;

/// The offset on RP chips.
pub const OFFSET_RP: usize = 0x1000_0000;

/// The offset on STM32 chips.
pub const OFFSET_STM32: usize = 0x0800_0000;

/// Returns the range of flash of the store, as the flash driver counts,
/// from the addresses `storage_start` and `storage_end` that the linker
/// gives and the offset between the two ways of counting. The bounds are
/// cut to 32 bits.
pub fn flash_range_from_linker(storage_start: usize, storage_end: usize, offset: usize) -> (r: (
    u32,
    u32,
))
    requires
        offset <= storage_start,
        offset <= storage_end,
    ensures
        r.0 == (storage_start - offset) % 0x1_0000_0000,
        r.1 == (storage_end - offset) % 0x1_0000_0000,
{
    let start = storage_start - offset;
    let end = storage_end - offset;
    ((start as u64 % 0x1_0000_0000u64) as u32, (end as u64 % 0x1_0000_0000u64) as u32)
}

/// Returns the range of flash of the store, given the data partition that
/// the partition table holds, as its offset and length, if it holds one.
/// Without one the range is empty.
pub fn flash_range_from_partition(partition: Option<(u32, u32)>) -> (r: (u32, u32))
    requires
        partition matches Some(p) ==> p.0 + p.1 <= u32::MAX,
    ensures
        match partition {
            Some(p) => r == (p.0, (p.0 + p.1) as u32),
            None => r == (0u32, 0u32),
        },
{
    match partition {
        Some(part) => (part.0, part.0 + part.1),
        None => (0, 0),
    }
}

} // verus!
