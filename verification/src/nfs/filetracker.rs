//! Reassembly of one file transfer from the chunks that carry it, and the
//! files that a flow hands to the host's file store.

use vstd::prelude::*;

verus! {

/// A file as the host's file store is to see it: its name, the octets
/// gathered so far and whether it was closed.
#[derive(Debug)]
pub struct File {
    pub name: Vec<u8>,
    pub data: Vec<u8>,
    pub closed: bool,
}

/// The files of one direction of a flow, in the order in which they were
/// opened.
#[derive(Debug)]
pub struct FileContainer {
    pub files: Vec<File>,
}

/// Mathematical value of a [`File`].
pub struct FileView {
    pub name: Seq<u8>,
    pub data: Seq<u8>,
    pub closed: bool,
}

impl View for File {
    type V = FileView;

    open spec fn view(&self) -> FileView {
        FileView { name: self.name@, data: self.data@, closed: self.closed }
    }
}

impl View for FileContainer {
    type V = Seq<FileView>;

    open spec fn view(&self) -> Seq<FileView> {
        self.files@.map_values(|f: File| f@)
    }
}

/// The state of one file transfer.
///
/// While `file_open` the file is the one at `track_id` in its container and
/// `file_size` octets of it have arrived, in order. `chunk_left` is what the
/// chunk seen last still lacks of its announced size, `fill_bytes` the
/// padding behind it, and `dropped` the number of chunks that did not
/// continue the file where it stood.
#[derive(Debug, Clone, Copy, PartialEq, Eq, Structural)]
pub struct FileTransferTracker {
    pub file_open: bool,
    pub track_id: usize,
    pub file_size: u64,
    pub chunk_left: u32,
    pub fill_bytes: u8,
    pub chunk_is_last: bool,
    pub dropped: u32,
}

/// How many octets of a chunk of `have` octets count towards an announced
/// size of `chunk_size`.
pub open spec fn spec_accepted(have: int, chunk_size: u32) -> int {
    if have < chunk_size {
        have
    } else {
        chunk_size as int
    }
}

/// `files` with `file` put in place of the file at `at`, if there is one.
pub open spec fn spec_replace(files: Seq<FileView>, at: int, file: FileView) -> Seq<FileView> {
    if 0 <= at < files.len() {
        files.update(at, file)
    } else {
        files
    }
}

/// Appends the first `count` octets of `data` to `buffer`.
fn append_front(buffer: &mut Vec<u8>, data: &[u8], count: usize)
    requires
        count <= data@.len(),
    ensures
        final(buffer)@ == old(buffer)@ + data@.subrange(0, count as int),
{
    let mut i: usize = 0;
    while i < count
        invariant
            i <= count <= data@.len(),
            buffer@ == old(buffer)@ + data@.subrange(0, i as int),
        decreases count - i,
    {
        buffer.push(data[i]);
        i += 1;
    }
}

impl FileTransferTracker {
    /// The tracker of a transfer of which nothing has been seen.
    pub open spec fn spec_new() -> FileTransferTracker {
        FileTransferTracker {
            file_open: false,
            track_id: 0,
            file_size: 0,
            chunk_left: 0,
            fill_bytes: 0,
            chunk_is_last: false,
            dropped: 0,
        }
    }

    /// The tracker once it has a file to write to: as it is if the file is
    /// open, else at the start of a new file behind those in `files`.
    pub open spec fn opened(self, files: Seq<FileView>) -> FileTransferTracker {
        if self.file_open {
            self
        } else {
            FileTransferTracker {
                file_open: true,
                track_id: files.len() as usize,
                file_size: 0,
                ..self
            }
        }
    }

    /// Whether a chunk at `chunk_offset` with `have` octets of an announced
    /// `chunk_size` continues the file: it starts where the file stands, the
    /// file is in the container and not closed, and the octet count stays
    /// within its range.
    pub open spec fn continues(
        self,
        files: Seq<FileView>,
        have: int,
        chunk_offset: u64,
        chunk_size: u32,
    ) -> bool {
        let t = self.opened(files);
        &&& chunk_offset == t.file_size
        &&& t.file_size + spec_accepted(have, chunk_size) <= u64::MAX
        &&& (self.file_open ==> t.track_id < files.len() && !files[t.track_id as int].closed)
    }

    /// The tracker after a chunk, see [`FileTransferTracker::new_chunk`].
    pub open spec fn after_chunk(
        self,
        files: Seq<FileView>,
        data: Seq<u8>,
        chunk_offset: u64,
        chunk_size: u32,
        fill_bytes: u8,
        is_last: bool,
    ) -> FileTransferTracker {
        let t = self.opened(files);
        let taken = spec_accepted(data.len() as int, chunk_size);
        if self.continues(files, data.len() as int, chunk_offset, chunk_size) {
            FileTransferTracker {
                file_open: !(is_last && taken == chunk_size),
                file_size: (t.file_size + taken) as u64,
                chunk_left: (chunk_size - taken) as u32,
                fill_bytes,
                chunk_is_last: is_last,
                ..t
            }
        } else {
            FileTransferTracker {
                dropped: if self.dropped < u32::MAX {
                    (self.dropped + 1) as u32
                } else {
                    self.dropped
                },
                ..self
            }
        }
    }

    /// The files after a chunk, see [`FileTransferTracker::new_chunk`].
    pub open spec fn files_after_chunk(
        self,
        files: Seq<FileView>,
        name: Seq<u8>,
        data: Seq<u8>,
        chunk_offset: u64,
        chunk_size: u32,
        is_last: bool,
    ) -> Seq<FileView> {
        let t = self.opened(files);
        let taken = spec_accepted(data.len() as int, chunk_size);
        if self.continues(files, data.len() as int, chunk_offset, chunk_size) {
            let had = if self.file_open {
                files
            } else {
                files.push(FileView { name, data: Seq::empty(), closed: false })
            };
            had.update(
                t.track_id as int,
                FileView {
                    data: had[t.track_id as int].data + data.subrange(0, taken),
                    closed: is_last && taken == chunk_size,
                    ..had[t.track_id as int]
                },
            )
        } else {
            files
        }
    }

    /// The tracker after [`FileTransferTracker::close`].
    pub open spec fn after_close(self) -> FileTransferTracker {
        FileTransferTracker { file_open: false, chunk_left: 0, fill_bytes: 0, ..self }
    }

    /// The files after [`FileTransferTracker::close`].
    pub open spec fn files_after_close(self, files: Seq<FileView>) -> Seq<FileView> {
        if self.file_open && self.track_id < files.len() {
            files.update(
                self.track_id as int,
                FileView { closed: true, ..files[self.track_id as int] },
            )
        } else {
            files
        }
    }

    /// The tracker of a transfer of which nothing has been seen.
    pub fn new() -> (tracker: FileTransferTracker)
        ensures
            tracker == FileTransferTracker::spec_new(),
    {
        FileTransferTracker {
            file_open: false,
            track_id: 0,
            file_size: 0,
            chunk_left: 0,
            fill_bytes: 0,
            chunk_is_last: false,
            dropped: 0,
        }
    }

    /// Takes a chunk of the file: `data`, which belongs at `chunk_offset`
    /// and is the beginning, or all, of a chunk of `chunk_size` octets.
    ///
    /// Where no file is open one named `name` is opened at the end of
    /// `files`. A chunk that starts where the file stands is appended, as
    /// far as its announced size goes; if it is whole and the last one, the
    /// file is closed. Any other chunk is dropped and counted.
    pub fn new_chunk(
        &mut self,
        files: &mut FileContainer,
        name: &[u8],
        data: &[u8],
        chunk_offset: u64,
        chunk_size: u32,
        fill_bytes: u8,
        is_last: bool,
    )
        ensures
            *final(self) == old(self).after_chunk(
                old(files)@,
                data@,
                chunk_offset,
                chunk_size,
                fill_bytes,
                is_last,
            ),
            final(files)@ == old(self).files_after_chunk(
                old(files)@,
                name@,
                data@,
                chunk_offset,
                chunk_size,
                is_last,
            ),
    {
        let have = data.len();
        let taken: usize = if have < chunk_size as usize {
            have
        } else {
            chunk_size as usize
        };
        let start: u64 = if self.file_open {
            self.file_size
        } else {
            0
        };
        let in_place = if self.file_open {
            self.track_id < files.files.len() && !files.files[self.track_id].closed
        } else {
            true
        };
        if chunk_offset != start || !in_place || (taken as u64) > u64::MAX - start {
            if self.dropped < u32::MAX {
                self.dropped += 1;
            }
            return ;
        }
        if !self.file_open {
            let ghost before = files.files@;
            files.files.push(File { name: crate::bytes::to_vec(name), data: Vec::new(), closed: false });
            assert(files@ =~= old(files)@.push(
                FileView { name: name@, data: Seq::empty(), closed: false },
            ));
            self.file_open = true;
            self.track_id = files.files.len() - 1;
            self.file_size = 0;
        }
        let ghost had = files@;
        let whole = is_last && taken == chunk_size as usize;
        let at = self.track_id;
        let ghost before = files.files@;
        assert(before[at as int]@ == had[at as int]);
        append_front(&mut files.files[at].data, data, taken);
        assert(files@ =~= had.update(
            at as int,
            FileView {
                data: had[at as int].data + data@.subrange(0, taken as int),
                ..had[at as int]
            },
        ));
        if whole {
            files.files[at].closed = true;
        }
        assert(files@ =~= had.update(
            at as int,
            FileView {
                data: had[at as int].data + data@.subrange(0, taken as int),
                closed: whole,
                ..had[at as int]
            },
        ));
        self.file_size = start + taken as u64;
        self.chunk_left = chunk_size - taken as u32;
        self.fill_bytes = fill_bytes;
        self.chunk_is_last = is_last;
        self.file_open = !whole;
    }

    /// Ends the transfer: the file, if one is open, is marked as closed.
    pub fn close(&mut self, files: &mut FileContainer)
        ensures
            *final(self) == old(self).after_close(),
            final(files)@ == old(self).files_after_close(old(files)@),
    {
        if self.file_open && self.track_id < files.files.len() {
            files.files[self.track_id].closed = true;
            assert(files@ =~= old(self).files_after_close(old(files)@));
        }
        self.file_open = false;
        self.chunk_left = 0;
        self.fill_bytes = 0;
    }
}

} // verus!
