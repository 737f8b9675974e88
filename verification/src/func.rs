//! The metadata resolver: a stateless map from one raw directory entry
//! to one display-ready record, and the pass that folds a whole
//! listing, entry by entry and in order, into its rows.
//!
//! Failure policy, inherited from the driver design: a timestamp that
//! cannot be rendered fails the whole pass (the caller treats that as
//! fatal), while a failed attribute query only degrades the attributes
//! column to a fixed placeholder.

use vstd::prelude::*;
use crate::attrs::{attributes_field, spec_attributes_field};
use crate::structs::{spec_classify, spec_type_label, FileEntry, FileMetadata, FileType};
use crate::timeapi::{
    format_timestamp_local,
    spec_local_rendering,
    spec_secs_renderable,
    spec_secs_supported,
};

verus! {

/// One directory entry as the enumerating caller hands it over: the
/// decoded name, the metadata values, the three structural predicates,
/// and the raw result of the OS attribute query (the sentinel
/// `ATTR_INVALID` where that query failed).
pub struct RawEntry {
    pub file_name: String,
    pub size: u64,
    pub modified_secs: i64,
    pub is_dir: bool,
    pub is_file: bool,
    pub is_symlink: bool,
    pub attributes: u32,
}

/// What the resolver owes for one entry: size copied through,
/// attributes decoded from the raw mask, the type label of the
/// first-match classification, and the modified string rendered from
/// this entry's own timestamp under some sub-day zone offset.
pub open spec fn spec_metadata_ok(raw: RawEntry, m: FileMetadata) -> bool {
    &&& m.size == raw.size
    &&& m.permissions@ == spec_attributes_field(raw.attributes)
    &&& m.file_type@ == spec_type_label(spec_classify(raw.is_dir, raw.is_file, raw.is_symlink))
    &&& spec_local_rendering(raw.modified_secs as int, m.modified@)
}

/// What one finished row owes to the raw entry it came from.
pub open spec fn spec_entry_ok(raw: RawEntry, e: FileEntry) -> bool {
    &&& e.file_name@ == raw.file_name@
    &&& e.file_len == raw.size
    &&& e.permissions@ == spec_attributes_field(raw.attributes)
    &&& e.file_type@ == spec_type_label(spec_classify(raw.is_dir, raw.is_file, raw.is_symlink))
    &&& spec_local_rendering(raw.modified_secs as int, e.modified@)
}

impl FileEntry {
    /// Resolve the metadata of one raw entry. `None` only when the
    /// modified time cannot be rendered — owed whenever the timestamp
    /// lies where every zone renders it, refused outside the supported
    /// band; an attribute-query failure is absorbed into the
    /// placeholder instead.
    pub fn get_file_metadata(raw: &RawEntry) -> (r: Option<FileMetadata>)
        ensures
            r matches Some(m) ==> spec_metadata_ok(*raw, m),
            !spec_secs_supported(raw.modified_secs) ==> r is None,
            spec_secs_renderable(raw.modified_secs) ==> r is Some,
    {
        let modified = match format_timestamp_local(raw.modified_secs) {
            Some(t) => t,
            None => {
                return None;
            },
        };
        let kind = FileType::classify(raw.is_dir, raw.is_file, raw.is_symlink);
        Some(
            FileMetadata {
                size: raw.size,
                modified,
                permissions: attributes_field(raw.attributes),
                file_type: String::from_str(kind.label()),
            },
        )
    }

    /// Fold a whole listing into its rows: one row per raw entry,
    /// in enumeration order, none synthesized and none dropped.
    /// `None` only when some entry's modified time cannot be rendered —
    /// no partial listing comes back. An empty listing yields the empty
    /// list, and a listing whose every timestamp lies where every zone
    /// renders it is owed its rows.
    pub fn get_file(entries: Vec<RawEntry>) -> (r: Option<Vec<FileEntry>>)
        ensures
            r matches Some(v) ==> v@.len() == entries@.len() && (forall|i: int|
                0 <= i < v@.len() ==> spec_entry_ok(entries@[i], #[trigger] v@[i])),
            entries@.len() == 0 ==> r is Some,
            (forall|i: int|
                0 <= i < entries@.len() ==> spec_secs_renderable(
                    (#[trigger] entries@[i]).modified_secs,
                )) ==> r is Some,
    {
        let mut rows: Vec<FileEntry> = Vec::new();
        let mut k: usize = 0;
        while k < entries.len()
            invariant
                k <= entries@.len(),
                rows@.len() == k,
                forall|i: int| 0 <= i < k ==> spec_entry_ok(entries@[i], #[trigger] rows@[i]),
            decreases entries@.len() - k,
        {
            let raw = &entries[k];
            let m = match Self::get_file_metadata(raw) {
                Some(m) => m,
                None => {
                    proof {
                        assert(!spec_secs_renderable(entries@[k as int].modified_secs));
                    }
                    return None;
                },
            };
            let row = FileEntry {
                file_name: raw.file_name.clone(),
                file_len: m.size,
                permissions: m.permissions,
                modified: m.modified,
                file_type: m.file_type,
            };
            rows.push(row);
            k = k + 1;
        }
        Some(rows)
    }
}

/// The classification is deterministic and mutually exclusive: of the
/// four outcomes exactly one is assigned, `is-directory` before
/// `is-regular-file` before `is-symlink`, and `Unknown` exactly when no
/// predicate holds.
pub proof fn lemma_classification_order(is_dir: bool, is_file: bool, is_symlink: bool)
    ensures
        is_dir ==> spec_classify(is_dir, is_file, is_symlink) == FileType::Directory,
        !is_dir && is_file ==> spec_classify(is_dir, is_file, is_symlink) == FileType::File,
        !is_dir && !is_file && is_symlink ==> spec_classify(is_dir, is_file, is_symlink)
            == FileType::Symlink,
        !is_dir && !is_file && !is_symlink ==> spec_classify(is_dir, is_file, is_symlink)
            == FileType::Unknown,
{
}

} // verus!
