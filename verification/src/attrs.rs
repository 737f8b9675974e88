//! Decoding of the platform attribute bitmask into its display string.
//!
//! A fixed ordered table of (mask, label) pairs is tested sequentially;
//! the labels of all flags present are joined with `" | "` in table
//! order, `"Normal"` stands for an empty selection, and the sentinel
//! mask returned by a failed query yields a fixed placeholder.

use vstd::prelude::*;

verus! {

// File-attribute bits as the Win32 API defines them.
pub const ATTR_READONLY: u32 = 0x1;

pub const ATTR_HIDDEN: u32 = 0x2;

pub const ATTR_SYSTEM: u32 = 0x4;

pub const ATTR_DIRECTORY: u32 = 0x10;

pub const ATTR_ARCHIVE: u32 = 0x20;

pub const ATTR_REPARSE_POINT: u32 = 0x400;

pub const ATTR_COMPRESSED: u32 = 0x800;

pub const ATTR_ENCRYPTED: u32 = 0x4000;

/// Win32's INVALID_FILE_ATTRIBUTES: the sentinel a failed attribute
/// query returns in place of a mask.
pub const ATTR_INVALID: u32 = 0xFFFF_FFFF;

/// How many rows the flag table has.
pub const FLAG_COUNT: usize = 8;

/// The mask of row `i` of the flag table.
pub open spec fn flag_mask(i: int) -> u32 {
    if i == 0 {
        ATTR_DIRECTORY
    } else if i == 1 {
        ATTR_REPARSE_POINT
    } else if i == 2 {
        ATTR_READONLY
    } else if i == 3 {
        ATTR_HIDDEN
    } else if i == 4 {
        ATTR_SYSTEM
    } else if i == 5 {
        ATTR_ARCHIVE
    } else if i == 6 {
        ATTR_COMPRESSED
    } else {
        ATTR_ENCRYPTED
    }
}

/// The label of row `i` of the flag table.
pub open spec fn flag_label(i: int) -> Seq<char> {
    if i == 0 {
        seq!['D', 'i', 'r', 'e', 'c', 't', 'o', 'r', 'y']
    } else if i == 1 {
        seq!['S', 'y', 'm', 'l', 'i', 'n', 'k']
    } else if i == 2 {
        seq!['R', 'e', 'a', 'd', 'O', 'n', 'l', 'y']
    } else if i == 3 {
        seq!['H', 'i', 'd', 'd', 'e', 'n']
    } else if i == 4 {
        seq!['S', 'y', 's', 't', 'e', 'm']
    } else if i == 5 {
        seq!['A', 'r', 'c', 'h', 'i', 'v', 'e']
    } else if i == 6 {
        seq!['C', 'o', 'm', 'p', 'r', 'e', 's', 's', 'e', 'd']
    } else {
        seq!['E', 'n', 'c', 'r', 'y', 'p', 't', 'e', 'd']
    }
}

/// What stands for an empty selection of flags.
pub open spec fn normal_label() -> Seq<char> {
    seq!['N', 'o', 'r', 'm', 'a', 'l']
}

/// The fixed placeholder for a failed attribute query.
pub open spec fn unavailable_label() -> Seq<char> {
    seq!['a', 't', 't', 'r', 'i', 'b', 'u', 't', 'e', 's', ' ', 'u', 'n', 'a', 'v', 'a', 'i', 'l',
        'a', 'b', 'l', 'e']
}

/// The separator between two labels.
pub open spec fn label_sep() -> Seq<char> {
    seq![' ', '|', ' ']
}

/// The labels of the flags present in `mask`, among the first `n` table
/// rows, in table order.
pub open spec fn selected_labels(mask: u32, n: int) -> Seq<Seq<char>>
    decreases n,
{
    if n <= 0 {
        Seq::empty()
    } else if mask & flag_mask(n - 1) != 0 {
        selected_labels(mask, n - 1).push(flag_label(n - 1))
    } else {
        selected_labels(mask, n - 1)
    }
}

/// The given parts joined with `" | "`.
pub open spec fn join_labels(parts: Seq<Seq<char>>) -> Seq<char>
    decreases parts.len(),
{
    if parts.len() == 0 {
        Seq::empty()
    } else if parts.len() == 1 {
        parts[0]
    } else {
        join_labels(parts.drop_last()) + label_sep() + parts.last()
    }
}

/// The summary of a successfully queried mask: the selected labels
/// joined, or `"Normal"` when none is selected.
pub open spec fn spec_attribute_summary(mask: u32) -> Seq<char> {
    if selected_labels(mask, FLAG_COUNT as int).len() == 0 {
        normal_label()
    } else {
        join_labels(selected_labels(mask, FLAG_COUNT as int))
    }
}

/// The attributes column for a raw query result: the placeholder for the
/// failure sentinel, the decoded summary otherwise.
pub open spec fn spec_attributes_field(raw: u32) -> Seq<char> {
    if raw == ATTR_INVALID {
        unavailable_label()
    } else {
        spec_attribute_summary(raw)
    }
}

/// A mask in which no bit of the flag table is set decodes to exactly
/// `"Normal"`, whatever other bits it carries.
pub proof fn lemma_no_flags_normal(mask: u32)
    requires
        forall|i: int| 0 <= i < FLAG_COUNT ==> mask & #[trigger] flag_mask(i) == 0,
    ensures
        spec_attribute_summary(mask) == normal_label(),
{
    assert(selected_labels(mask, 0) =~= Seq::<Seq<char>>::empty());
    assert(selected_labels(mask, 1) =~= selected_labels(mask, 0));
    assert(selected_labels(mask, 2) =~= selected_labels(mask, 1));
    assert(selected_labels(mask, 3) =~= selected_labels(mask, 2));
    assert(selected_labels(mask, 4) =~= selected_labels(mask, 3));
    assert(selected_labels(mask, 5) =~= selected_labels(mask, 4));
    assert(selected_labels(mask, 6) =~= selected_labels(mask, 5));
    assert(selected_labels(mask, 7) =~= selected_labels(mask, 6));
    assert(selected_labels(mask, 8) =~= selected_labels(mask, 7));
}

/// The zero mask decodes to exactly `"Normal"`.
pub proof fn lemma_zero_mask_normal()
    ensures
        spec_attribute_summary(0) == normal_label(),
{
    assert(0u32 & 0x10u32 == 0 && 0u32 & 0x400u32 == 0 && 0u32 & 0x1u32 == 0 && 0u32 & 0x2u32 == 0
        && 0u32 & 0x4u32 == 0 && 0u32 & 0x20u32 == 0 && 0u32 & 0x800u32 == 0 && 0u32
            & 0x4000u32 == 0) by (bit_vector);
    assert(forall|i: int| 0 <= i < FLAG_COUNT ==> 0u32 & #[trigger] flag_mask(i) == 0);
    lemma_no_flags_normal(0);
}

/// With the bits of all eight table rows set, the summary lists the
/// eight labels in exactly table order, pipe-separated: directory,
/// symlink, read-only, hidden, system, archive, compressed, encrypted.
pub proof fn lemma_all_flags_in_table_order()
    ensures
        spec_attribute_summary(0x4C37) =~= flag_label(0) + label_sep() + flag_label(1)
            + label_sep() + flag_label(2) + label_sep() + flag_label(3) + label_sep() + flag_label(
            4,
        ) + label_sep() + flag_label(5) + label_sep() + flag_label(6) + label_sep() + flag_label(7),
{
    assert(0x4C37u32 & 0x10u32 != 0 && 0x4C37u32 & 0x400u32 != 0 && 0x4C37u32 & 0x1u32 != 0
        && 0x4C37u32 & 0x2u32 != 0 && 0x4C37u32 & 0x4u32 != 0 && 0x4C37u32 & 0x20u32 != 0
        && 0x4C37u32 & 0x800u32 != 0 && 0x4C37u32 & 0x4000u32 != 0) by (bit_vector);
    let m: u32 = 0x4C37;
    assert(selected_labels(m, 0) =~= Seq::<Seq<char>>::empty());
    assert(selected_labels(m, 1) =~= seq![flag_label(0)]);
    assert(selected_labels(m, 2) =~= seq![flag_label(0), flag_label(1)]);
    assert(selected_labels(m, 3) =~= seq![flag_label(0), flag_label(1), flag_label(2)]);
    assert(selected_labels(m, 4) =~= seq![
        flag_label(0),
        flag_label(1),
        flag_label(2),
        flag_label(3),
    ]);
    assert(selected_labels(m, 5) =~= seq![
        flag_label(0),
        flag_label(1),
        flag_label(2),
        flag_label(3),
        flag_label(4),
    ]);
    assert(selected_labels(m, 6) =~= seq![
        flag_label(0),
        flag_label(1),
        flag_label(2),
        flag_label(3),
        flag_label(4),
        flag_label(5),
    ]);
    assert(selected_labels(m, 7) =~= seq![
        flag_label(0),
        flag_label(1),
        flag_label(2),
        flag_label(3),
        flag_label(4),
        flag_label(5),
        flag_label(6),
    ]);
    assert(selected_labels(m, 8) =~= seq![
        flag_label(0),
        flag_label(1),
        flag_label(2),
        flag_label(3),
        flag_label(4),
        flag_label(5),
        flag_label(6),
        flag_label(7),
    ]);
    lemma_join_eight(
        flag_label(0),
        flag_label(1),
        flag_label(2),
        flag_label(3),
        flag_label(4),
        flag_label(5),
        flag_label(6),
        flag_label(7),
    );
}

/// Joining eight parts yields them in order with the separator between
/// each neighbouring pair.
proof fn lemma_join_eight(
    a: Seq<char>,
    b: Seq<char>,
    c: Seq<char>,
    d: Seq<char>,
    e: Seq<char>,
    f: Seq<char>,
    g: Seq<char>,
    h: Seq<char>,
)
    ensures
        join_labels(seq![a, b, c, d, e, f, g, h]) =~= a + label_sep() + b + label_sep() + c
            + label_sep() + d + label_sep() + e + label_sep() + f + label_sep() + g + label_sep()
            + h,
{
    assert(seq![a].drop_last() =~= Seq::<Seq<char>>::empty());
    assert(seq![a, b].drop_last() =~= seq![a]);
    assert(seq![a, b, c].drop_last() =~= seq![a, b]);
    assert(seq![a, b, c, d].drop_last() =~= seq![a, b, c]);
    assert(seq![a, b, c, d, e].drop_last() =~= seq![a, b, c, d]);
    assert(seq![a, b, c, d, e, f].drop_last() =~= seq![a, b, c, d, e]);
    assert(seq![a, b, c, d, e, f, g].drop_last() =~= seq![a, b, c, d, e, f]);
    assert(seq![a, b, c, d, e, f, g, h].drop_last() =~= seq![a, b, c, d, e, f, g]);
    assert(join_labels(seq![a]) == a);
    assert(join_labels(seq![a, b]) =~= a + label_sep() + b);
    assert(join_labels(seq![a, b, c]) =~= a + label_sep() + b + label_sep() + c);
    assert(join_labels(seq![a, b, c, d]) =~= a + label_sep() + b + label_sep() + c + label_sep()
        + d);
    assert(join_labels(seq![a, b, c, d, e]) =~= a + label_sep() + b + label_sep() + c + label_sep()
        + d + label_sep() + e);
    assert(join_labels(seq![a, b, c, d, e, f]) =~= a + label_sep() + b + label_sep() + c
        + label_sep() + d + label_sep() + e + label_sep() + f);
    assert(join_labels(seq![a, b, c, d, e, f, g]) =~= a + label_sep() + b + label_sep() + c
        + label_sep() + d + label_sep() + e + label_sep() + f + label_sep() + g);
    assert(join_labels(seq![a, b, c, d, e, f, g, h]) =~= a + label_sep() + b + label_sep() + c
        + label_sep() + d + label_sep() + e + label_sep() + f + label_sep() + g + label_sep() + h);
}

/// Row `i` of the flag table.
fn flag_entry(i: usize) -> (r: (u32, &'static str))
    requires
        i < FLAG_COUNT,
    ensures
        r.0 == flag_mask(i as int),
        r.1@ == flag_label(i as int),
{
    proof {
        reveal_strlit("Directory");
        reveal_strlit("Symlink");
        reveal_strlit("ReadOnly");
        reveal_strlit("Hidden");
        reveal_strlit("System");
        reveal_strlit("Archive");
        reveal_strlit("Compressed");
        reveal_strlit("Encrypted");
    }
    if i == 0 {
        proof {
            assert("Directory"@ =~= flag_label(0));
        }
        (ATTR_DIRECTORY, "Directory")
    } else if i == 1 {
        proof {
            assert("Symlink"@ =~= flag_label(1));
        }
        (ATTR_REPARSE_POINT, "Symlink")
    } else if i == 2 {
        proof {
            assert("ReadOnly"@ =~= flag_label(2));
        }
        (ATTR_READONLY, "ReadOnly")
    } else if i == 3 {
        proof {
            assert("Hidden"@ =~= flag_label(3));
        }
        (ATTR_HIDDEN, "Hidden")
    } else if i == 4 {
        proof {
            assert("System"@ =~= flag_label(4));
        }
        (ATTR_SYSTEM, "System")
    } else if i == 5 {
        proof {
            assert("Archive"@ =~= flag_label(5));
        }
        (ATTR_ARCHIVE, "Archive")
    } else if i == 6 {
        proof {
            assert("Compressed"@ =~= flag_label(6));
        }
        (ATTR_COMPRESSED, "Compressed")
    } else {
        proof {
            assert("Encrypted"@ =~= flag_label(7));
        }
        (ATTR_ENCRYPTED, "Encrypted")
    }
}

/// Decode a successfully queried attribute mask into its summary string.
pub fn decode_attributes(mask: u32) -> (r: String)
    ensures
        r@ == spec_attribute_summary(mask),
{
    let mut s = String::new();
    let mut count: usize = 0;
    let mut i: usize = 0;
    while i < FLAG_COUNT
        invariant
            i <= FLAG_COUNT,
            count <= i,
            count == selected_labels(mask, i as int).len(),
            s@ == join_labels(selected_labels(mask, i as int)),
        decreases FLAG_COUNT - i,
    {
        let (m, label) = flag_entry(i);
        if mask & m != 0 {
            proof {
                let parts = selected_labels(mask, i as int);
                assert(selected_labels(mask, i as int + 1) == parts.push(flag_label(i as int)));
                assert(parts.push(flag_label(i as int)).drop_last() =~= parts);
            }
            if count > 0 {
                s.append(" | ");
                proof {
                    reveal_strlit(" | ");
                    assert(" | "@ =~= label_sep());
                }
            }
            s.append(label);
            count = count + 1;
        }
        i = i + 1;
    }
    if count == 0 {
        proof {
            reveal_strlit("Normal");
            assert("Normal"@ =~= normal_label());
        }
        String::from_str("Normal")
    } else {
        s
    }
}

/// The attributes column for the raw result of the OS attribute query:
/// the failure sentinel is absorbed into a fixed placeholder, never an
/// error; every other mask is decoded.
pub fn attributes_field(raw: u32) -> (r: String)
    ensures
        r@ == spec_attributes_field(raw),
{
    if raw == ATTR_INVALID {
        proof {
            reveal_strlit("attributes unavailable");
            assert("attributes unavailable"@ =~= unavailable_label());
        }
        String::from_str("attributes unavailable")
    } else {
        decode_attributes(raw)
    }
}

} // verus!
