//! The bit table: the twelve mode bits that this crate reads, laid out as in
//! POSIX `mode_t`.

use vstd::prelude::*;

verus! {

/// Set-user-ID on execution.
pub const S_ISUID: u32 = 0o4000;

/// Set-group-ID on execution.
pub const S_ISGID: u32 = 0o2000;

/// Sticky bit (restricted deletion).
pub const S_ISVTX: u32 = 0o1000;

/// Read permission, owner.
pub const S_IRUSR: u32 = 0o400;

/// Write permission, owner.
pub const S_IWUSR: u32 = 0o200;

/// Execute permission, owner.
pub const S_IXUSR: u32 = 0o100;

/// Read permission, group.
pub const S_IRGRP: u32 = 0o40;

/// Write permission, group.
pub const S_IWGRP: u32 = 0o20;

/// Execute permission, group.
pub const S_IXGRP: u32 = 0o10;

/// Read permission, others.
pub const S_IROTH: u32 = 0o4;

/// Write permission, others.
pub const S_IWOTH: u32 = 0o2;

/// Execute permission, others.
pub const S_IXOTH: u32 = 0o1;

/// The low twelve bits of a mode: the union of the bit table.
pub const ALLPERMS: u32 = 0o7777;

/// Whether `mask` is one of the twelve entries of the bit table.
pub open spec fn is_mask(mask: u32) -> bool {
    ||| mask == S_ISUID
    ||| mask == S_ISGID
    ||| mask == S_ISVTX
    ||| mask == S_IRUSR
    ||| mask == S_IWUSR
    ||| mask == S_IXUSR
    ||| mask == S_IRGRP
    ||| mask == S_IWGRP
    ||| mask == S_IXGRP
    ||| mask == S_IROTH
    ||| mask == S_IWOTH
    ||| mask == S_IXOTH
}

/// No two entries of the bit table share a bit.
pub proof fn masks_are_disjoint(m1: u32, m2: u32)
    requires
        is_mask(m1),
        is_mask(m2),
        m1 != m2,
    ensures
        m1 & m2 == 0,
{
    assert(m1 & m2 == 0) by (bit_vector)
        requires
            is_mask(m1),
            is_mask(m2),
            m1 != m2,
    ;
}

/// An entry of the bit table is a single bit: applied to any mode it leaves
/// either nothing or itself.
pub proof fn mask_is_single_bit(mode: u32, mask: u32)
    requires
        is_mask(mask),
    ensures
        mode & mask == 0 || mode & mask == mask,
{
    assert(mode & mask == 0 || mode & mask == mask) by (bit_vector)
        requires
            is_mask(mask),
    ;
}

/// Every entry of the bit table is a bit of the low twelve.
pub proof fn mask_lies_in_low_bits(mask: u32)
    requires
        is_mask(mask),
    ensures
        mask != 0,
        mask & ALLPERMS == mask,
{
    assert(mask != 0 && mask & ALLPERMS == mask) by (bit_vector)
        requires
            is_mask(mask),
    ;
}

/// Together the entries of the bit table make up the low twelve bits.
pub proof fn allperms_is_the_whole_table()
    ensures
        ALLPERMS == S_ISUID | S_ISGID | S_ISVTX | S_IRUSR | S_IWUSR | S_IXUSR | S_IRGRP | S_IWGRP
            | S_IXGRP | S_IROTH | S_IWOTH | S_IXOTH,
{
    assert(ALLPERMS == S_ISUID | S_ISGID | S_ISVTX | S_IRUSR | S_IWUSR | S_IXUSR | S_IRGRP
        | S_IWGRP | S_IXGRP | S_IROTH | S_IWOTH | S_IXOTH) by (bit_vector);
}

} // verus!
