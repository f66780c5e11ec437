use zaino_oram::record_files::read_exact_record;
use zaino_oram::record_files::ExactFileRead;
use zaino_oram::record_files::FileEnd;
use zaino_oram::record_files::FileFill;
use zaino_oram::record_files::FileOpening;
use zaino_oram::record_files::PathKind;
use zaino_oram::record_files::RecordFile;

/// A file whose every access is scripted, and counted.
struct ScriptedFile {
    kind: PathKind,
    opening: FileOpening,
    contents: Option<Vec<u8>>,
    end_unreadable: bool,
    accesses: usize,
}

fn regular(contents: &[u8]) -> ScriptedFile {
    ScriptedFile {
        kind: PathKind::RegularFile,
        opening: FileOpening::Opened,
        contents: Some(contents.to_vec()),
        end_unreadable: false,
        accesses: 0,
    }
}

impl RecordFile for ScriptedFile {
    fn inspect(&mut self) -> PathKind {
        self.accesses += 1;
        self.kind
    }

    fn open(&mut self) -> FileOpening {
        self.accesses += 1;
        self.opening
    }

    fn fill(&mut self, width: usize) -> FileFill {
        self.accesses += 1;
        match &self.contents {
            None => FileFill::Unreadable,
            Some(contents) if contents.len() < width => FileFill::Ended,
            Some(contents) => FileFill::Filled(contents[..width].to_vec()),
        }
    }

    fn probe_end(&mut self) -> FileEnd {
        self.accesses += 1;
        if self.end_unreadable {
            FileEnd::Unreadable
        } else if self.contents.as_ref().is_some_and(|contents| contents.len() > 4) {
            FileEnd::More
        } else {
            FileEnd::Reached
        }
    }
}

#[test]
fn a_record_is_the_whole_of_its_file() {
    let mut exact = regular(&[1, 2, 3, 4]);
    assert_eq!(
        read_exact_record(&mut exact, 4),
        ExactFileRead::Exact(vec![1, 2, 3, 4])
    );
    assert_eq!(exact.accesses, 4);
    assert_eq!(
        read_exact_record(&mut regular(&[1, 2, 3]), 4),
        ExactFileRead::Short
    );
    assert_eq!(
        read_exact_record(&mut regular(&[1, 2, 3, 4, 5]), 4),
        ExactFileRead::Trailing
    );
    assert_eq!(
        read_exact_record(&mut regular(&[]), 4),
        ExactFileRead::Short
    );
}

#[test]
fn nothing_but_a_regular_file_is_opened() {
    for (kind, expected) in [
        (PathKind::Missing, ExactFileRead::Missing),
        (PathKind::Unreadable, ExactFileRead::Unreadable),
        (PathKind::Directory, ExactFileRead::NotRegular),
        (PathKind::Other, ExactFileRead::NotRegular),
    ] {
        let mut file = regular(&[1, 2, 3, 4]);
        file.kind = kind;
        assert_eq!(read_exact_record(&mut file, 4), expected);
        assert_eq!(file.accesses, 1);
    }
}

#[test]
fn nothing_is_read_past_a_failure() {
    for (opening, expected) in [
        (FileOpening::Missing, ExactFileRead::Missing),
        (FileOpening::Unreadable, ExactFileRead::Unreadable),
    ] {
        let mut file = regular(&[1, 2, 3, 4]);
        file.opening = opening;
        assert_eq!(read_exact_record(&mut file, 4), expected);
        assert_eq!(file.accesses, 2);
    }
    let mut unreadable = regular(&[1, 2, 3, 4]);
    unreadable.contents = None;
    assert_eq!(
        read_exact_record(&mut unreadable, 4),
        ExactFileRead::Unreadable
    );
    assert_eq!(unreadable.accesses, 3);
    let mut unreadable_end = regular(&[1, 2, 3, 4]);
    unreadable_end.end_unreadable = true;
    assert_eq!(
        read_exact_record(&mut unreadable_end, 4),
        ExactFileRead::Unreadable
    );
}
