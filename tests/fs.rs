use russimp::fs::{FileOperations, FileOperationsWrapper, FileSystem, SeekFrom, AI_FAILURE, AI_SUCCESS, IO_ERROR};

struct MemFile {
    data: Vec<u8>,
    pos: usize,
    written: Vec<u8>,
    fail_reads: bool,
}

impl FileOperations for MemFile {
    fn read(&mut self, buf: &mut Vec<u8>) -> Result<usize, ()> {
        if self.fail_reads {
            return Err(());
        }
        let n = buf.len().min(self.data.len() - self.pos);
        buf[..n].copy_from_slice(&self.data[self.pos..self.pos + n]);
        self.pos += n;
        Ok(n)
    }
    fn write(&mut self, buf: &[u8]) -> Result<usize, ()> {
        self.written.extend_from_slice(buf);
        Ok(buf.len())
    }
    fn tell(&mut self) -> usize {
        self.pos
    }
    fn size(&mut self) -> usize {
        self.data.len()
    }
    fn seek(&mut self, seek_from: SeekFrom) -> Result<(), ()> {
        let target = match seek_from {
            SeekFrom::Start(p) => p as i64,
            SeekFrom::Current(d) => self.pos as i64 + d,
            SeekFrom::End(d) => self.data.len() as i64 + d,
        };
        if target < 0 || target as usize > self.data.len() {
            return Err(());
        }
        self.pos = target as usize;
        Ok(())
    }
    fn flush(&mut self) {}
    fn close(&mut self) {}
}

struct MemFs;

impl FileSystem for MemFs {
    type File = MemFile;
    fn open(&self, file_path: &str, mode: &str) -> Option<MemFile> {
        assert_eq!(mode, "rb");
        if file_path == "cube.obj" {
            Some(MemFile { data: (0u8..10).collect(), pos: 0, written: vec![], fail_reads: false })
        } else {
            None
        }
    }
}

type W<'a> = FileOperationsWrapper<'a, MemFs>;

#[test]
fn wrapper_serves_opens_and_byte_reads() {
    let fs = MemFs;
    let w = FileOperationsWrapper::new(&fs);
    assert!(w.io_open("missing.obj", "rb").is_none());
    let mut f = w.io_open("cube.obj", "rb").unwrap();
    assert_eq!(W::io_size(&mut f), 10);
    let mut out = Vec::new();
    assert_eq!(W::io_read(&mut f, 1, 4, &mut out), 4);
    assert_eq!(out, vec![0, 1, 2, 3]);
    assert_eq!(W::io_tell(&mut f), 4);
}

#[test]
fn strided_read_counts_whole_items() {
    let fs = MemFs;
    let w = FileOperationsWrapper::new(&fs);
    let mut f = w.io_open("cube.obj", "rb").unwrap();
    let mut out = Vec::new();
    assert_eq!(W::io_read(&mut f, 4, 3, &mut out), 2);
}

#[test]
fn failed_byte_read_reports_error() {
    let mut f = MemFile { data: vec![1, 2], pos: 0, written: vec![], fail_reads: true };
    let mut out = Vec::new();
    assert_eq!(W::io_read(&mut f, 1, 2, &mut out), IO_ERROR);
    assert_eq!(W::io_read(&mut f, 2, 2, &mut out), 0);
}

#[test]
fn strided_write_counts_items() {
    let mut f = MemFile { data: vec![], pos: 0, written: vec![], fail_reads: false };
    assert_eq!(W::io_write(&mut f, &[1, 2, 3, 4, 5, 6], 2, 3), 3);
    assert_eq!(f.written, vec![1, 2, 3, 4, 5, 6]);
    assert_eq!(W::io_write(&mut f, &[9], 1, 1), 1);
}

#[test]
fn seek_maps_origins() {
    assert_eq!(W::seek_from(3, 0), SeekFrom::Start(3));
    assert_eq!(W::seek_from(3, 1), SeekFrom::Current(3));
    assert_eq!(W::seek_from(0, 2), SeekFrom::End(0));
    let mut f = MemFile { data: vec![0; 5], pos: 0, written: vec![], fail_reads: false };
    assert_eq!(W::io_seek(&mut f, 2, 0), AI_SUCCESS);
    assert_eq!(W::io_tell(&mut f), 2);
    assert_eq!(W::io_seek(&mut f, 9, 1), AI_FAILURE);
    assert_eq!(W::io_seek(&mut f, 0, 2), AI_SUCCESS);
    assert_eq!(W::io_tell(&mut f), 5);
}
