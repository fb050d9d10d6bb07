use vstd::prelude::*;

use crate::error::FsError;
use crate::file::AliyunFile;

verus! {

/// One more than the largest cursor.
pub open spec fn cursor_modulus() -> int {
    0x1_0000_0000_0000_0000
}

/// An integer reduced to a cursor, modulo 2^64 (two's complement, as a cast does).
pub open spec fn wrap_cursor(x: int) -> int {
    x % cursor_modulus()
}

/// Where a seek counts from.
pub enum SeekOrigin {
    /// An absolute position.
    Start(u64),
    /// A distance back from the end of the file: the cursor becomes `size - n`.
    End(i64),
    /// A distance from the current cursor.
    Current(i64),
}

/// The cursor that a seek sets, from the file size and the cursor before it.
/// The arithmetic is modulo 2^64 and never clamped to the file's size.
pub open spec fn seek_target(size: u64, cursor: u64, origin: SeekOrigin) -> int {
    match origin {
        SeekOrigin::Start(n) => n as int,
        SeekOrigin::End(n) => wrap_cursor(size - n),
        SeekOrigin::Current(n) => wrap_cursor(cursor + n),
    }
}

/// A ranged download to perform: `count` bytes of file `file_id` from `offset`, through `url`.
pub struct ReadRequest {
    pub file_id: String,
    pub url: String,
    pub offset: u64,
    pub count: usize,
}

/// An open remote file: a snapshot of its metadata, the download URL resolved at
/// open time (if any), and a byte cursor.
pub struct AliyunDavFile {
    pub file: AliyunFile,
    pub current_pos: u64,
    pub download_url: Option<String>,
}

impl AliyunDavFile {
    /// A handle at position 0.
    pub fn new(file: AliyunFile, download_url: Option<String>) -> (r: AliyunDavFile)
        ensures
            r.file == file,
            r.download_url == download_url,
            r.current_pos == 0,
    {
        AliyunDavFile { file, current_pos: 0, download_url }
    }

    /// The snapshot taken at open time.
    pub fn metadata(&self) -> (r: AliyunFile)
        ensures
            r@ == self.file@,
    {
        self.file.duplicate()
    }

    /// The cursor.
    pub fn position(&self) -> (r: u64)
        ensures
            r == self.current_pos,
    {
        self.current_pos
    }

    /// Moves the cursor and returns its new value; it never fails.
    pub fn seek(&mut self, origin: SeekOrigin) -> (r: u64)
        ensures
            r as int == seek_target(old(self).file.size, old(self).current_pos, origin),
            final(self).current_pos == r,
            final(self).file == old(self).file,
            final(self).download_url == old(self).download_url,
    {
        let new_pos: u64 = match origin {
            SeekOrigin::Start(n) => n,
            SeekOrigin::End(n) => {
                if n >= 0 {
                    self.file.size.wrapping_sub(n as u64)
                } else {
                    self.file.size.wrapping_add((-(n + 1)) as u64 + 1)
                }
            },
            SeekOrigin::Current(n) => self.current_pos.wrapping_add_signed(n),
        };
        self.current_pos = new_pos;
        new_pos
    }

    /// The download that a read of `count` bytes needs: from the cursor, through the
    /// URL resolved at open time. Without a URL the read fails with `NotFound`.
    pub fn read_request(&self, count: usize) -> (r: Result<ReadRequest, FsError>)
        ensures
            match r {
                Ok(q) => {
                    &&& self.download_url matches Some(u)
                    &&& q.url@ == u@
                    &&& q.file_id@ == self.file.id@
                    &&& q.offset == self.current_pos
                    &&& q.count == count
                },
                Err(e) => self.download_url is None && e == FsError::NotFound,
            },
    {
        match &self.download_url {
            Some(u) => Ok(
                ReadRequest {
                    file_id: self.file.id.clone(),
                    url: u.clone(),
                    offset: self.current_pos,
                    count,
                },
            ),
            None => Err(FsError::NotFound),
        }
    }

    /// Accounts for the outcome of a download: the number of bytes that came back,
    /// or `None` when it failed. The cursor advances by that number; a failure is
    /// `NotFound` and leaves the cursor where it was.
    pub fn finish_read(&mut self, fetched: Option<u64>) -> (r: Result<u64, FsError>)
        ensures
            final(self).file == old(self).file,
            final(self).download_url == old(self).download_url,
            match fetched {
                Some(n) => r == Ok::<u64, FsError>(n) && final(self).current_pos as int == wrap_cursor(
                    old(self).current_pos + n,
                ),
                None => r == Err::<u64, FsError>(FsError::NotFound) && final(self).current_pos
                    == old(self).current_pos,
            },
    {
        match fetched {
            Some(n) => {
                self.current_pos = self.current_pos.wrapping_add(n);
                Ok(n)
            },
            None => Err(FsError::NotFound),
        }
    }

    /// Writing is refused: the filesystem is read-only.
    pub fn write_bytes(&self, buf: &[u8]) -> (r: Result<(), FsError>)
        ensures
            r == Err::<(), FsError>(FsError::NotImplemented),
    {
        Err(FsError::NotImplemented)
    }

    /// Flushing is refused: the filesystem is read-only.
    pub fn flush(&self) -> (r: Result<(), FsError>)
        ensures
            r == Err::<(), FsError>(FsError::NotImplemented),
    {
        Err(FsError::NotImplemented)
    }
}

} // verus!
