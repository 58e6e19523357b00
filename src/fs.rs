//! Custom resource loading: the importer reads files through a file system
//! that the caller implements.
//!
//! The importer asks for reads and writes of `count` items of `size` bytes
//! each; [`FileOperationsWrapper`] turns such a request into calls of the
//! caller's byte-level operations and reports what it reports back.
use vstd::prelude::*;

verus! {

/// The reply to a read or write of single bytes that failed.
pub const IO_ERROR: usize = usize::MAX;

/// The importer's success code.
pub const AI_SUCCESS: i32 = 0;

/// The importer's failure code.
pub const AI_FAILURE: i32 = -1;

/// A position to seek to.
#[derive(Debug, Clone, Copy, PartialEq, Eq, Structural)]
pub enum SeekFrom {
    /// From the start of the file.
    Start(u64),
    /// From the end of the file.
    End(i64),
    /// From the current position.
    Current(i64),
}

/// One open resource.
pub trait FileOperations {
    /// Reads into `buf`; the number of bytes read.
    fn read(&mut self, buf: &mut Vec<u8>) -> Result<usize, ()>;

    /// Writes `buf`; the number of bytes written.
    fn write(&mut self, buf: &[u8]) -> Result<usize, ()>;

    /// The current position.
    fn tell(&mut self) -> usize;

    /// The size of the resource.
    fn size(&mut self) -> usize;

    /// Moves the current position.
    fn seek(&mut self, seek_from: SeekFrom) -> Result<(), ()>;

    /// Flushes pending writes.
    fn flush(&mut self);

    /// Closes the resource.
    fn close(&mut self);
}

/// A source of resources.
pub trait FileSystem {
    /// The resources it opens.
    type File: FileOperations;

    /// Opens `file_path` in the given mode, if possible.
    fn open(&self, file_path: &str, mode: &str) -> Option<Self::File>;
}

/// Serves the importer's file requests from a caller's file system.
pub struct FileOperationsWrapper<'a, T: FileSystem> {
    file_system: &'a T,
}

/// The seek position for an importer origin code: `0` from the start, `1`
/// from the current position, `2` from the end.
pub open spec fn seek_target(pos: usize, origin: u32) -> SeekFrom {
    if origin == 0 {
        SeekFrom::Start(pos as u64)
    } else if origin == 1 {
        SeekFrom::Current(pos as i64)
    } else {
        SeekFrom::End(pos as i64)
    }
}

impl<'a, T: FileSystem> FileOperationsWrapper<'a, T> {
    /// A wrapper serving requests from `file_system`.
    pub fn new(file_system: &'a T) -> (r: FileOperationsWrapper<'a, T>)
        ensures
            r.file_system() == file_system,
    {
        FileOperationsWrapper { file_system }
    }

    /// The file system requests are served from.
    pub closed spec fn file_system(&self) -> &'a T {
        self.file_system
    }

    /// The file system requests are served from.
    pub fn ai_file(&self) -> (r: &'a T)
        ensures
            r == self.file_system(),
    {
        self.file_system
    }

    /// Opens a resource for the importer.
    pub fn io_open(&self, file_path: &str, mode: &str) -> Option<T::File> {
        self.file_system.open(file_path, mode)
    }

    /// Serves a read of `count` items of `size` bytes. A read of single
    /// bytes is one read of `count` bytes and reports the bytes read, or
    /// [`IO_ERROR`]; otherwise items are read one by one and the number of
    /// whole items read is reported, stopping at the first short or failed
    /// one. `out` receives the bytes read.
    pub fn io_read<F: FileOperations>(file: &mut F, size: usize, count: usize, out: &mut Vec<u8>) -> (r: usize)
        requires
            size > 0,
            count > 0,
        ensures
            size == 1 || r <= count,
    {
        if size == 1 {
            let mut buf: Vec<u8> = Vec::new();
            let mut k: usize = 0;
            while k < count
                invariant
                    k <= count,
                    buf@.len() == k,
                decreases count - k,
            {
                buf.push(0);
                k += 1;
            }
            let r = match file.read(&mut buf) {
                Ok(n) => n,
                Err(_) => IO_ERROR,
            };
            out.append(&mut buf);
            r
        } else {
            let mut total: usize = 0;
            let mut done = false;
            while total < count && !done
                invariant
                    total <= count,
                    size > 1,
                decreases 2 * (count - total) + (if done { 0int } else { 1int }),
            {
                let mut chunk: Vec<u8> = Vec::new();
                let mut k: usize = 0;
                while k < size
                    invariant
                        k <= size,
                        chunk@.len() == k,
                    decreases size - k,
                {
                    chunk.push(0);
                    k += 1;
                }
                match file.read(&mut chunk) {
                    Err(_) => {
                        done = true;
                    },
                    Ok(n) => {
                        out.append(&mut chunk);
                        if n != size {
                            done = true;
                        } else {
                            total = total + 1;
                        }
                    },
                }
            }
            total
        }
    }

    /// Serves a write of `count` items of `size` bytes taken from `buffer`.
    /// A write of single bytes is one write and reports the bytes written,
    /// or [`IO_ERROR`]; otherwise items are written one by one and the
    /// number of whole items written is reported, stopping at the first
    /// short or failed one.
    pub fn io_write<F: FileOperations>(file: &mut F, buffer: &[u8], size: usize, count: usize) -> (r: usize)
        requires
            size > 0,
            count > 0,
            size * count <= buffer@.len(),
        ensures
            size == 1 || r <= count,
    {
        if size == 1 {
            let mut bytes: Vec<u8> = Vec::new();
            let mut k: usize = 0;
            while k < count
                invariant
                    k <= count,
                    count <= buffer@.len(),
                    bytes@.len() == k,
                decreases count - k,
            {
                bytes.push(buffer[k]);
                k += 1;
            }
            match file.write(bytes.as_slice()) {
                Ok(n) => n,
                Err(_) => IO_ERROR,
            }
        } else {
            let blen = buffer.len();
            let mut total: usize = 0;
            let mut done = false;
            while total < count && !done
                invariant
                    total <= count,
                    size > 1,
                    blen == buffer@.len(),
                    size * count <= buffer@.len(),
                decreases 2 * (count - total) + (if done { 0int } else { 1int }),
            {
                proof {
                    assert(size * total + size <= size * count) by (nonlinear_arith)
                        requires
                            total < count,
                            size > 1,
                    ;
                    assert(size * total + size <= buffer@.len());
                }
                let start = size * total;
                let mut chunk: Vec<u8> = Vec::new();
                let mut k: usize = 0;
                while k < size
                    invariant
                        k <= size,
                        blen == buffer@.len(),
                        start + size <= buffer@.len(),
                        chunk@.len() == k,
                    decreases size - k,
                {
                    chunk.push(buffer[start + k]);
                    k += 1;
                }
                match file.write(chunk.as_slice()) {
                    Err(_) => {
                        done = true;
                    },
                    Ok(n) => {
                        if n != size {
                            done = true;
                        } else {
                            total = total + 1;
                        }
                    },
                }
            }
            total
        }
    }

    /// Serves a seek: moves to `pos` counted from the origin the code
    /// names, and reports success or failure in the importer's codes.
    pub fn io_seek<F: FileOperations>(file: &mut F, pos: usize, origin: u32) -> (r: i32)
        requires
            origin <= 2,
        ensures
            r == AI_SUCCESS || r == AI_FAILURE,
    {
        let target = Self::seek_from(pos, origin);
        match file.seek(target) {
            Ok(()) => AI_SUCCESS,
            Err(()) => AI_FAILURE,
        }
    }

    /// The seek position for an importer origin code.
    pub fn seek_from(pos: usize, origin: u32) -> (r: SeekFrom)
        requires
            origin <= 2,
        ensures
            r == seek_target(pos, origin),
    {
        if origin == 0 {
            SeekFrom::Start(pos as u64)
        } else if origin == 1 {
            SeekFrom::Current(pos as i64)
        } else {
            SeekFrom::End(pos as i64)
        }
    }

    /// Serves a request for the current position.
    pub fn io_tell<F: FileOperations>(file: &mut F) -> usize {
        file.tell()
    }

    /// Serves a request for the size.
    pub fn io_size<F: FileOperations>(file: &mut F) -> usize {
        file.size()
    }

    /// Serves a flush.
    pub fn io_flush<F: FileOperations>(file: &mut F) {
        file.flush()
    }

    /// Serves a close.
    pub fn io_close<F: FileOperations>(file: &mut F) {
        file.close()
    }
}

} // verus!
