use vstd::prelude::*;

verus! {

/// Command-line input: an optional target path. When it is absent the
/// caller substitutes the current working directory before invoking the
/// core.
pub struct Cli {
    pub path: Option<String>,
}

/// Mutually exclusive classification of one directory entry, resolved at
/// read time.
#[derive(Debug, PartialEq, Eq, Structural, Clone, Copy)]
pub enum FileType {
    File,
    Directory,
    Symlink,
    Unknown,
}

/// The classification the resolver assigns, given the three structural
/// predicates reported by the filesystem: `is-directory` wins, then
/// `is-regular-file`, then `is-symlink`; otherwise `Unknown`.
pub open spec fn spec_classify(is_dir: bool, is_file: bool, is_symlink: bool) -> FileType {
    if is_dir {
        FileType::Directory
    } else if is_file {
        FileType::File
    } else if is_symlink {
        FileType::Symlink
    } else {
        FileType::Unknown
    }
}

/// The user-facing label of each classification.
pub open spec fn spec_type_label(t: FileType) -> Seq<char> {
    match t {
        FileType::File => seq!['f', 'i', 'l', 'e'],
        FileType::Directory => seq!['d', 'i', 'r', 'e', 'c', 't', 'o', 'r', 'y'],
        FileType::Symlink => seq!['s', 'y', 'm', 'l', 'i', 'n', 'k'],
        FileType::Unknown => seq!['u', 'n', 'k', 'n', 'o', 'w', 'n'],
    }
}

impl FileType {
    /// Classify an entry from its structural predicates, first match wins.
    pub fn classify(is_dir: bool, is_file: bool, is_symlink: bool) -> (r: FileType)
        ensures
            r == spec_classify(is_dir, is_file, is_symlink),
    {
        if is_dir {
            FileType::Directory
        } else if is_file {
            FileType::File
        } else if is_symlink {
            FileType::Symlink
        } else {
            FileType::Unknown
        }
    }

    /// The label under which this classification is rendered.
    pub fn label(self) -> (r: &'static str)
        ensures
            r@ == spec_type_label(self),
    {
        proof {
            reveal_strlit("file");
            reveal_strlit("directory");
            reveal_strlit("symlink");
            reveal_strlit("unknown");
        }
        match self {
            FileType::File => {
                proof {
                    assert("file"@ =~= spec_type_label(FileType::File));
                }
                "file"
            },
            FileType::Directory => {
                proof {
                    assert("directory"@ =~= spec_type_label(FileType::Directory));
                }
                "directory"
            },
            FileType::Symlink => {
                proof {
                    assert("symlink"@ =~= spec_type_label(FileType::Symlink));
                }
                "symlink"
            },
            FileType::Unknown => {
                proof {
                    assert("unknown"@ =~= spec_type_label(FileType::Unknown));
                }
                "unknown"
            },
        }
    }
}

/// One row of the rendered listing. Field order matters to consumers:
/// attributes, type label, modified timestamp, byte size, name.
pub struct FileEntry {
    pub permissions: String,
    pub file_type: String,
    pub modified: String,
    pub file_len: u64,
    pub file_name: String,
}

/// The metadata resolved for one raw entry before it is folded into a
/// `FileEntry` row.
pub struct FileMetadata {
    pub size: u64,
    pub modified: String,
    pub permissions: String,
    pub file_type: String,
}

} // verus!
