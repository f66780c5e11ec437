//! What local durable storage reports back, and how one record file is read.

use vstd::prelude::*;

verus! {

/// Outcome of reading one fixed-width file without following links.
#[derive(Debug, PartialEq, Eq)]
pub enum ExactFileRead {
    /// The path names nothing.
    Missing,
    /// The path could not be inspected, opened or read.
    Unreadable,
    /// The path names something other than a regular file.
    NotRegular,
    /// The file ends before the expected width.
    Short,
    /// The file goes on after the expected width.
    Trailing,
    /// The file's whole contents.
    Exact(Vec<u8>),
}

impl ExactFileRead {
    /// The bytes that were read; none if the read did not succeed.
    pub open spec fn contents(self) -> Seq<u8> {
        match self {
            Self::Exact(bytes) => bytes@,
            _ => Seq::empty(),
        }
    }
}

/// What a path names, without following links.
#[derive(Debug, Clone, Copy, PartialEq, Eq, Structural)]
pub enum PathKind {
    Missing,
    Directory,
    RegularFile,
    Other,
    Unreadable,
}

/// Outcome of opening a file.
#[derive(Debug, Clone, Copy, PartialEq, Eq, Structural)]
pub enum FileOpening {
    Opened,
    Missing,
    Unreadable,
}

/// Outcome of reading a number of bytes from an open file.
#[derive(Debug, PartialEq, Eq)]
pub enum FileFill {
    /// That many bytes.
    Filled(Vec<u8>),
    /// The file ends before.
    Ended,
    Unreadable,
}

/// Outcome of reading on from where a record ends.
#[derive(Debug, Clone, Copy, PartialEq, Eq, Structural)]
pub enum FileEnd {
    Reached,
    More,
    Unreadable,
}

/// One access to a record file, and what came back.
pub enum RecordFileStep {
    Inspected { kind: PathKind },
    Opened { opening: FileOpening },
    Filled { width: usize, fill: FileFill },
    Probed { end: FileEnd },
}

/// The file that a path names.
///
/// Nothing is known of what an access does but what an implementation says in
/// `steps_to`; one that says nothing promises nothing.
pub trait RecordFile: Sized {
    /// The states that an access with that reply may lead to.
    open spec fn steps_to(before: Self, step: RecordFileStep, after: Self) -> bool {
        true
    }

    /// Tells what the path names, without following links.
    fn inspect(&mut self) -> (kind: PathKind)
        ensures
            Self::steps_to(*old(self), RecordFileStep::Inspected { kind }, *final(self)),
    ;

    fn open(&mut self) -> (opening: FileOpening)
        ensures
            Self::steps_to(*old(self), RecordFileStep::Opened { opening }, *final(self)),
    ;

    /// Reads the file's first bytes.
    fn fill(&mut self, width: usize) -> (fill: FileFill)
        ensures
            Self::steps_to(*old(self), RecordFileStep::Filled { width, fill }, *final(self)),
    ;

    /// Reads one more byte.
    fn probe_end(&mut self) -> (end: FileEnd)
        ensures
            Self::steps_to(*old(self), RecordFileStep::Probed { end }, *final(self)),
    ;
}

/// What the accesses of one read gave, and the file's states between them.
pub struct RecordReadTranscript<F> {
    pub kind: PathKind,
    pub inspected: F,
    pub opening: FileOpening,
    pub opened: F,
    pub fill: FileFill,
    pub filled: F,
    pub end: FileEnd,
}

/// How the read of one record of a width ends.
pub open spec fn record_read_ends<F: RecordFile>(
    before: F,
    width: usize,
    t: RecordReadTranscript<F>,
    after: F,
    read: ExactFileRead,
) -> bool {
    &&& F::steps_to(before, RecordFileStep::Inspected { kind: t.kind }, t.inspected)
    &&& match t.kind {
        PathKind::Missing => after == t.inspected && read == ExactFileRead::Missing,
        PathKind::Unreadable => after == t.inspected && read == ExactFileRead::Unreadable,
        PathKind::Directory | PathKind::Other => after == t.inspected && read
            == ExactFileRead::NotRegular,
        PathKind::RegularFile => {
            &&& F::steps_to(t.inspected, RecordFileStep::Opened { opening: t.opening }, t.opened)
            &&& match t.opening {
                FileOpening::Missing => after == t.opened && read == ExactFileRead::Missing,
                FileOpening::Unreadable => after == t.opened && read == ExactFileRead::Unreadable,
                FileOpening::Opened => {
                    &&& F::steps_to(
                        t.opened,
                        RecordFileStep::Filled { width, fill: t.fill },
                        t.filled,
                    )
                    &&& match t.fill {
                        FileFill::Ended => after == t.filled && read == ExactFileRead::Short,
                        FileFill::Unreadable => after == t.filled && read
                            == ExactFileRead::Unreadable,
                        FileFill::Filled(bytes) => {
                            &&& F::steps_to(t.filled, RecordFileStep::Probed { end: t.end }, after)
                            &&& read == match t.end {
                                FileEnd::Reached => ExactFileRead::Exact(bytes),
                                FileEnd::More => ExactFileRead::Trailing,
                                FileEnd::Unreadable => ExactFileRead::Unreadable,
                            }
                        },
                    }
                },
            }
        },
    }
}

/// Reads a record that is to be the whole of a regular file.
///
/// Nothing is opened that is not a regular file, and nothing is read past a failure.
pub fn read_exact_record<F: RecordFile>(file: &mut F, width: usize) -> (read: ExactFileRead)
    ensures
        exists|t: RecordReadTranscript<F>| #[trigger]
            record_read_ends(*old(file), width, t, *final(file), read),
{
    let ghost before = *file;
    let ghost mut t: RecordReadTranscript<F> = arbitrary();
    let kind = file.inspect();
    proof {
        t = RecordReadTranscript { kind, inspected: *file, ..t };
    }
    match kind {
        PathKind::Missing => {
            assert(record_read_ends(before, width, t, *file, ExactFileRead::Missing));
            return ExactFileRead::Missing;
        },
        PathKind::Unreadable => {
            assert(record_read_ends(before, width, t, *file, ExactFileRead::Unreadable));
            return ExactFileRead::Unreadable;
        },
        PathKind::Directory | PathKind::Other => {
            assert(record_read_ends(before, width, t, *file, ExactFileRead::NotRegular));
            return ExactFileRead::NotRegular;
        },
        PathKind::RegularFile => {},
    }
    let opening = file.open();
    proof {
        t = RecordReadTranscript { opening, opened: *file, ..t };
    }
    match opening {
        FileOpening::Missing => {
            assert(record_read_ends(before, width, t, *file, ExactFileRead::Missing));
            return ExactFileRead::Missing;
        },
        FileOpening::Unreadable => {
            assert(record_read_ends(before, width, t, *file, ExactFileRead::Unreadable));
            return ExactFileRead::Unreadable;
        },
        FileOpening::Opened => {},
    }
    let fill = file.fill(width);
    proof {
        t = RecordReadTranscript { fill, filled: *file, ..t };
    }
    let bytes = match fill {
        FileFill::Filled(bytes) => bytes,
        FileFill::Ended => {
            assert(record_read_ends(before, width, t, *file, ExactFileRead::Short));
            return ExactFileRead::Short;
        },
        FileFill::Unreadable => {
            assert(record_read_ends(before, width, t, *file, ExactFileRead::Unreadable));
            return ExactFileRead::Unreadable;
        },
    };
    let end = file.probe_end();
    proof {
        t = RecordReadTranscript { end, ..t };
    }
    let read = match end {
        FileEnd::Reached => ExactFileRead::Exact(bytes),
        FileEnd::More => ExactFileRead::Trailing,
        FileEnd::Unreadable => ExactFileRead::Unreadable,
    };
    assert(record_read_ends(before, width, t, *file, read));
    read
}

/// Why a directory cannot be used.
#[derive(Debug, Clone, Copy, PartialEq, Eq, Structural)]
pub enum RealDirectoryError {
    /// It could not be created or inspected.
    Io,
    /// It is not a real directory.
    UnsafePath,
}

/// A file's whole contents are given exactly where it is a regular file that opens, holds
/// the width and ends there; each other reading says what was found: nothing, something
/// that could not be looked at, something else than a regular file, a shorter or a longer one.
pub proof fn whole_file_is_read_or_none_of_it<F: RecordFile>(
    before: F,
    width: usize,
    t: RecordReadTranscript<F>,
    after: F,
    read: ExactFileRead,
)
    requires
        record_read_ends(before, width, t, after, read),
    ensures
        ({
            let opened = t.kind is RegularFile && t.opening is Opened;
            let filled = opened && t.fill is Filled;
            &&& read is Exact <==> filled && t.end is Reached
            &&& read is Exact ==> read->Exact_0 == t.fill->Filled_0
            &&& read is Trailing <==> filled && t.end is More
            &&& read is Short <==> opened && t.fill is Ended
            &&& read is NotRegular <==> t.kind is Directory || t.kind is Other
            &&& read is Missing <==> t.kind is Missing || t.kind is RegularFile
                && t.opening is Missing
            &&& read is Unreadable <==> t.kind is Unreadable || t.kind is RegularFile
                && t.opening is Unreadable || opened && t.fill is Unreadable || filled
                && t.end is Unreadable
            &&& F::steps_to(before, RecordFileStep::Inspected { kind: t.kind }, t.inspected)
            &&& t.kind is RegularFile ==> F::steps_to(
                t.inspected,
                RecordFileStep::Opened { opening: t.opening },
                t.opened,
            )
            &&& opened ==> F::steps_to(
                t.opened,
                RecordFileStep::Filled { width, fill: t.fill },
                t.filled,
            )
            &&& filled ==> F::steps_to(t.filled, RecordFileStep::Probed { end: t.end }, after)
        }),
{
}

} // verus!
