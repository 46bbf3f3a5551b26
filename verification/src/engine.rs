//! Transfer engines: the validation and chunking logic of a whole-image
//! flash (host file to device) and of a device clone (device to host file).
//!
//! An engine never performs I/O.  The caller owns the scratch buffer, reads
//! the file or the device, and feeds each chunk's actual byte count back;
//! the engine decides chunk starting sectors, progress reports and
//! termination, so that every decision of the copy loop is verified.  Any
//! fatal validation failure is reported before a single byte moves.

use vstd::prelude::*;

verus! {

/// Why a flash operation is rejected during validation, before any write.
#[derive(Clone, Copy, Debug, PartialEq, Eq, Structural)]
pub enum FlashError {
    /// The image size is not a multiple of the 512-byte sector size.
    ImageNotSectorAligned,
    /// The device reported a capacity smaller than the image.
    ImageExceedsCapacity,
    /// The requested sector count is greater than the image's sector count.
    CountExceedsImage,
}

/// One step of the flash copy loop.
#[derive(Clone, Copy, Debug, PartialEq, Eq, Structural)]
pub enum FlashStep {
    /// Write the chunk just read from the file to the device at
    /// `start_sector`, after reporting `(progress_done, progress_total)`.
    WriteChunk { start_sector: u32, progress_done: u32, progress_total: u32 },
    /// The copy loop is over; loop exit is the only success signal.
    Done,
}

/// The flash copy loop: a cursor over the sectors still to be written.
///
/// Per chunk, the caller reads up to its buffer's worth of bytes from the
/// image file and hands the byte count to [`FlashEngine::step`]; the engine
/// answers with the chunk's device write and progress report, or with
/// `Done` when the read came back empty or the cursor has run past the
/// output size.
#[derive(Clone, Copy, Debug, PartialEq, Eq, Structural)]
pub struct FlashEngine {
    /// Next sector to write; held wider than the wire's 32-bit LBA so the
    /// final advance past the output size cannot overflow.
    pub current_sector: u64,
    /// Number of sectors to copy in all.
    pub output_size: u32,
    /// The copy loop has ended.
    pub finished: bool,
}

impl FlashEngine {
    /// The cursor never runs more than one chunk past the output size.
    pub open spec fn wf(&self) -> bool {
        self.current_sector <= self.output_size + 0xFFFF
    }

    /// Validates a flash request and positions the cursor at sector 0.
    ///
    /// In order: an image whose size is not a multiple of 512 is rejected;
    /// an image larger than the device's reported capacity is rejected,
    /// but an unknown capacity (a failed capacity query) is tolerated
    /// best-effort; a requested sector count greater than the image's
    /// sector count is rejected.  Otherwise the output size is the
    /// requested sector count, or the whole image when none was given.
    pub fn new(file_size: u64, preferred_size: Option<u32>, device_capacity: Option<u32>) -> (r:
        Result<FlashEngine, FlashError>)
        requires
            file_size / 512 <= u32::MAX,
        ensures
            match r {
                Ok(e) => {
                    &&& file_size % 512 == 0
                    &&& (device_capacity matches Some(c) ==> file_size <= c * 512)
                    &&& (preferred_size matches Some(sz) ==> sz <= file_size / 512)
                    &&& e.output_size == (if preferred_size is Some {
                        preferred_size->0
                    } else {
                        (file_size / 512) as u32
                    })
                    &&& e.current_sector == 0
                    &&& !e.finished
                    &&& e.wf()
                },
                Err(FlashError::ImageNotSectorAligned) => file_size % 512 != 0,
                Err(FlashError::ImageExceedsCapacity) => file_size % 512 == 0
                    && (device_capacity matches Some(c) && file_size > c * 512),
                Err(FlashError::CountExceedsImage) => {
                    &&& file_size % 512 == 0
                    &&& (device_capacity matches Some(c) ==> file_size <= c * 512)
                    &&& (preferred_size matches Some(sz) && sz > file_size / 512)
                },
            },
    {
        if file_size % 512 != 0 {
            return Err(FlashError::ImageNotSectorAligned);
        }
        if let Some(capacity) = device_capacity {
            if file_size > (capacity as u64) * 512 {
                return Err(FlashError::ImageExceedsCapacity);
            }
        }
        let file_sectors = (file_size / 512) as u32;
        let output_size = match preferred_size {
            Some(sz) => {
                if sz > file_sectors {
                    return Err(FlashError::CountExceedsImage);
                }
                sz
            },
            None => file_sectors,
        };
        Ok(FlashEngine { current_sector: 0, output_size, finished: false })
    }

    /// Consumes one file read of `bytes_read` bytes and decides the chunk.
    ///
    /// An empty read, or a cursor already past the output size, ends the
    /// loop.  Otherwise the chunk of `bytes_read / 512` sectors is to be
    /// written at the cursor, the progress report `(cursor, output_size)`
    /// comes before the chunk's device write, and the cursor advances by
    /// the sectors actually read.
    pub fn step(&mut self, bytes_read: usize) -> (r: FlashStep)
        requires
            old(self).wf(),
            !old(self).finished,
            bytes_read % 512 == 0,
            bytes_read / 512 <= 0xFFFF,
        ensures
            final(self).wf(),
            final(self).output_size == old(self).output_size,
            if bytes_read == 0 || old(self).current_sector > old(self).output_size {
                &&& r == FlashStep::Done
                &&& final(self).finished
                &&& final(self).current_sector == old(self).current_sector
            } else {
                &&& r == (FlashStep::WriteChunk {
                    start_sector: old(self).current_sector as u32,
                    progress_done: old(self).current_sector as u32,
                    progress_total: old(self).output_size,
                })
                &&& !final(self).finished
                &&& final(self).current_sector == old(self).current_sector + bytes_read / 512
            },
    {
        if bytes_read == 0 || self.current_sector > self.output_size as u64 {
            self.finished = true;
            return FlashStep::Done;
        }
        let start_sector = self.current_sector as u32;
        self.current_sector = self.current_sector + (bytes_read / 512) as u64;
        FlashStep::WriteChunk {
            start_sector,
            progress_done: start_sector,
            progress_total: self.output_size,
        }
    }
}

/// Why a clone operation is rejected during validation, before the
/// destination file is even opened.
#[derive(Clone, Copy, Debug, PartialEq, Eq, Structural)]
pub enum CloneError {
    /// The requested sector count is greater than the device's capacity.
    CountExceedsCapacity,
}

/// The clone copy loop: fixed-size chunks walking the device in order.
///
/// Chunk `i` reads `chunk_sectors` sectors starting at `i * chunk_sectors`;
/// the device may answer the last chunk short.  After each chunk the caller
/// reports progress with the chunk's starting sector; one final report
/// lands on the true last sector reached.
#[derive(Clone, Copy, Debug, PartialEq, Eq, Structural)]
pub struct CloneEngine {
    /// Starting sector of the next chunk; held wider than 32 bits so the
    /// advance past the output size cannot overflow.
    pub next_start: u64,
    /// Number of sectors to copy in all.
    pub output_size: u32,
    /// Sectors requested per chunk (the caller's buffer size).
    pub chunk_sectors: u16,
    /// Starting sector of the last chunk completed.
    pub last_start: u32,
    /// Sectors the device actually returned for the last chunk.
    pub last_read_sectors: u32,
}

impl CloneEngine {
    /// Chunks are nonempty, and the cursor never runs more than one chunk
    /// past the output size.
    pub open spec fn wf(&self) -> bool {
        &&& self.chunk_sectors >= 1
        &&& self.next_start <= self.output_size + self.chunk_sectors
    }

    /// Validates a clone request.  A requested sector count greater than
    /// the device's capacity is rejected — before the destination file is
    /// opened, so a bad request never mutates it.  Otherwise the output
    /// size is the requested count, or the whole device when none was
    /// given.  `buffer_size` is in sectors and must fit the 16-bit
    /// transfer-count field.
    pub fn new(device_capacity: u32, buffer_size: usize, preferred_size: Option<u32>) -> (r:
        Result<CloneEngine, CloneError>)
        requires
            1 <= buffer_size <= 0xFFFF,
        ensures
            match r {
                Ok(e) => {
                    &&& (preferred_size matches Some(sz) ==> sz <= device_capacity)
                    &&& e.output_size == (if preferred_size is Some {
                        preferred_size->0
                    } else {
                        device_capacity
                    })
                    &&& e.next_start == 0
                    &&& e.chunk_sectors == buffer_size
                    &&& e.last_start == 0
                    &&& e.last_read_sectors == 0
                    &&& e.wf()
                },
                Err(CloneError::CountExceedsCapacity) => preferred_size matches Some(sz)
                    && sz > device_capacity,
            },
    {
        let output_size = match preferred_size {
            Some(sz) => {
                if sz > device_capacity {
                    return Err(CloneError::CountExceedsCapacity);
                }
                sz
            },
            None => device_capacity,
        };
        Ok(CloneEngine {
            next_start: 0,
            output_size,
            chunk_sectors: buffer_size as u16,
            last_start: 0,
            last_read_sectors: 0,
        })
    }

    /// The copy loop is over once the next chunk would start at or past the
    /// output size.
    pub fn finished(&self) -> (r: bool)
        ensures
            r == (self.next_start >= self.output_size),
    {
        self.next_start >= self.output_size as u64
    }

    /// The next chunk to read from the device: its starting sector and the
    /// sector count to request (always a full chunk; the device answers the
    /// last one short).
    pub fn next_chunk(&self) -> (r: (u32, u16))
        requires
            self.next_start < self.output_size,
        ensures
            r.0 == self.next_start as u32,
            r.1 == self.chunk_sectors,
    {
        (self.next_start as u32, self.chunk_sectors)
    }

    /// Consumes one device read of `bytes_read` bytes (at most the chunk's
    /// worth) and advances to the next chunk.  Returns the progress report
    /// owed after the chunk: its starting sector and the output size.
    pub fn complete_chunk(&mut self, bytes_read: usize) -> (r: (u32, u32))
        requires
            old(self).wf(),
            old(self).next_start < old(self).output_size,
            bytes_read <= old(self).chunk_sectors * 512,
        ensures
            final(self).wf(),
            r == ((old(self).next_start as u32, old(self).output_size)),
            final(self).next_start == old(self).next_start + old(self).chunk_sectors,
            final(self).last_start == old(self).next_start as u32,
            final(self).last_read_sectors == bytes_read / 512,
            final(self).output_size == old(self).output_size,
            final(self).chunk_sectors == old(self).chunk_sectors,
    {
        let start = self.next_start as u32;
        self.last_start = start;
        self.last_read_sectors = (bytes_read / 512) as u32;
        self.next_start = self.next_start + self.chunk_sectors as u64;
        (start, self.output_size)
    }

    /// The one progress report made after the loop: the true final sector
    /// position — the last chunk's start plus the sectors it actually
    /// returned — against the output size.  With no chunks at all it is
    /// `(0, output_size)`.
    pub fn final_progress(&self) -> (r: (u32, u32))
        requires
            self.next_start >= self.output_size,
            self.last_start + self.last_read_sectors <= u32::MAX,
        ensures
            r == ((self.last_start + self.last_read_sectors) as u32, self.output_size),
    {
        (self.last_start + self.last_read_sectors, self.output_size)
    }
}

} // verus!
