//! Functions that work directly on a mode held as a `u32`.
//!
//! A mode is taken as it comes: nothing is validated, and only the twelve
//! bits of the bit table are ever read.

use crate::constants::{
    is_mask, ALLPERMS, S_IRGRP, S_IROTH, S_IRUSR, S_ISGID, S_ISUID, S_ISVTX, S_IWGRP, S_IWOTH,
    S_IWUSR, S_IXGRP, S_IXOTH, S_IXUSR,
};
use vstd::prelude::*;
use vstd::string::StringExecFns;

verus! {

/// Whether `mode` has a bit of `mask`.
pub open spec fn has_bit(mode: u32, mask: u32) -> bool {
    mode & mask != 0
}

/// Is a bit of `mask` set in `mode`?
#[inline]
#[verifier::when_used_as_spec(has_bit)]
pub fn is_set(mode: u32, mask: u32) -> (r: bool)
    ensures
        r == (mode & mask != 0),
{
    mode & mask != 0
}

/// Is set-UID bit set?
#[inline]
pub fn set_uid(perm: u32) -> (r: bool)
    ensures
        r == is_set(perm, S_ISUID),
{
    is_set(perm, S_ISUID)
}

/// Is set-GID bit set?
#[inline]
pub fn set_gid(perm: u32) -> (r: bool)
    ensures
        r == is_set(perm, S_ISGID),
{
    is_set(perm, S_ISGID)
}

/// Is sticky bit set?
#[inline]
pub fn sticky_bit(perm: u32) -> (r: bool)
    ensures
        r == is_set(perm, S_ISVTX),
{
    is_set(perm, S_ISVTX)
}

/// Is this file readable by owner?
#[inline]
pub fn readable_by_owner(perm: u32) -> (r: bool)
    ensures
        r == is_set(perm, S_IRUSR),
{
    is_set(perm, S_IRUSR)
}

/// Is this file writable by owner?
#[inline]
pub fn writable_by_owner(perm: u32) -> (r: bool)
    ensures
        r == is_set(perm, S_IWUSR),
{
    is_set(perm, S_IWUSR)
}

/// Is this file executable by owner?
#[inline]
pub fn executable_by_owner(perm: u32) -> (r: bool)
    ensures
        r == is_set(perm, S_IXUSR),
{
    is_set(perm, S_IXUSR)
}

/// Is this file readable by group?
#[inline]
pub fn readable_by_group(perm: u32) -> (r: bool)
    ensures
        r == is_set(perm, S_IRGRP),
{
    is_set(perm, S_IRGRP)
}

/// Is this file writable by group?
#[inline]
pub fn writable_by_group(perm: u32) -> (r: bool)
    ensures
        r == is_set(perm, S_IWGRP),
{
    is_set(perm, S_IWGRP)
}

/// Is this file executable by group?
#[inline]
pub fn executable_by_group(perm: u32) -> (r: bool)
    ensures
        r == is_set(perm, S_IXGRP),
{
    is_set(perm, S_IXGRP)
}

/// Is this file readable by others?
#[inline]
pub fn readable_by_other(perm: u32) -> (r: bool)
    ensures
        r == is_set(perm, S_IROTH),
{
    is_set(perm, S_IROTH)
}

/// Is this file writable by others?
#[inline]
pub fn writable_by_other(perm: u32) -> (r: bool)
    ensures
        r == is_set(perm, S_IWOTH),
{
    is_set(perm, S_IWOTH)
}

/// Is this file executable by others?
#[inline]
pub fn executable_by_other(perm: u32) -> (r: bool)
    ensures
        r == is_set(perm, S_IXOTH),
{
    is_set(perm, S_IXOTH)
}

/// The glyph of a read slot.
pub open spec fn read_glyph(readable: bool) -> char {
    if readable {
        'r'
    } else {
        '-'
    }
}

/// The glyph of a write slot.
pub open spec fn write_glyph(writable: bool) -> char {
    if writable {
        'w'
    } else {
        '-'
    }
}

/// The glyph of the execute slot of owner or group, overlaid with the
/// class's set-ID bit. The set-ID bit shows in lower case over a set execute
/// bit, and in upper case where the execute bit is clear.
pub open spec fn setid_glyph(executable: bool, setid: bool) -> char {
    match (executable, setid) {
        (true, true) => 's',
        (true, false) => 'x',
        (false, true) => 'S',
        (false, false) => '-',
    }
}

/// The glyph of the execute slot of others, overlaid with the sticky bit in
/// the way that `setid_glyph` overlays the set-ID bit.
pub open spec fn sticky_glyph(executable: bool, sticky: bool) -> char {
    match (executable, sticky) {
        (true, true) => 't',
        (true, false) => 'x',
        (false, true) => 'T',
        (false, false) => '-',
    }
}

/// The nine glyphs of a mode as `ls(1)` prints them: read, write and execute
/// slot of the owner, then of the group, then of others.
pub open spec fn glyphs(perm: u32) -> Seq<char> {
    seq![
        read_glyph(is_set(perm, S_IRUSR)),
        write_glyph(is_set(perm, S_IWUSR)),
        setid_glyph(is_set(perm, S_IXUSR), is_set(perm, S_ISUID)),
        read_glyph(is_set(perm, S_IRGRP)),
        write_glyph(is_set(perm, S_IWGRP)),
        setid_glyph(is_set(perm, S_IXGRP), is_set(perm, S_ISGID)),
        read_glyph(is_set(perm, S_IROTH)),
        write_glyph(is_set(perm, S_IWOTH)),
        sticky_glyph(is_set(perm, S_IXOTH), is_set(perm, S_ISVTX)),
    ]
}

/// Whether `c` is one of the eight characters that a rendering is made of.
pub open spec fn is_glyph(c: char) -> bool {
    c == 'r' || c == 'w' || c == 'x' || c == 's' || c == 'S' || c == 't' || c == 'T' || c == '-'
}

/// The characters that slot `i` of a rendering can hold.
pub open spec fn slot_alphabet(i: int) -> Set<char> {
    if i == 0 || i == 3 || i == 6 {
        set!['r', '-']
    } else if i == 1 || i == 4 || i == 7 {
        set!['w', '-']
    } else if i == 2 || i == 5 {
        set!['s', 'x', 'S', '-']
    } else if i == 8 {
        set!['t', 'x', 'T', '-']
    } else {
        Set::empty()
    }
}

/// A read slot as a string of one character.
fn read_mark(readable: bool) -> (g: &'static str)
    ensures
        g@ == seq![read_glyph(readable)],
{
    proof {
        reveal_strlit("r");
        reveal_strlit("-");
        assert("r"@ =~= seq!['r']);
        assert("-"@ =~= seq!['-']);
    }
    if readable {
        "r"
    } else {
        "-"
    }
}

/// A write slot as a string of one character.
fn write_mark(writable: bool) -> (g: &'static str)
    ensures
        g@ == seq![write_glyph(writable)],
{
    proof {
        reveal_strlit("w");
        reveal_strlit("-");
        assert("w"@ =~= seq!['w']);
        assert("-"@ =~= seq!['-']);
    }
    if writable {
        "w"
    } else {
        "-"
    }
}

/// The execute slot of owner or group as a string of one character.
fn setid_mark(executable: bool, setid: bool) -> (g: &'static str)
    ensures
        g@ == seq![setid_glyph(executable, setid)],
{
    proof {
        reveal_strlit("s");
        reveal_strlit("x");
        reveal_strlit("S");
        reveal_strlit("-");
        assert("s"@ =~= seq!['s']);
        assert("x"@ =~= seq!['x']);
        assert("S"@ =~= seq!['S']);
        assert("-"@ =~= seq!['-']);
    }
    if executable && setid {
        "s"
    } else if executable {
        "x"
    } else if setid {
        "S"
    } else {
        "-"
    }
}

/// The execute slot of others as a string of one character.
fn sticky_mark(executable: bool, sticky: bool) -> (g: &'static str)
    ensures
        g@ == seq![sticky_glyph(executable, sticky)],
{
    proof {
        reveal_strlit("t");
        reveal_strlit("x");
        reveal_strlit("T");
        reveal_strlit("-");
        assert("t"@ =~= seq!['t']);
        assert("x"@ =~= seq!['x']);
        assert("T"@ =~= seq!['T']);
        assert("-"@ =~= seq!['-']);
    }
    if executable && sticky {
        "t"
    } else if executable {
        "x"
    } else if sticky {
        "T"
    } else {
        "-"
    }
}

/// Convert a mode into a `String`, just like the one printed by `ls(1)`.
pub fn stringify(perm: u32) -> (s: String)
    ensures
        s@ == glyphs(perm),
        s@.len() == 9,
        forall|i: int| 0 <= i < 9 ==> is_glyph(#[trigger] s@[i]),
{
    let mut s = String::new();
    s.append(read_mark(readable_by_owner(perm)));
    s.append(write_mark(writable_by_owner(perm)));
    s.append(setid_mark(executable_by_owner(perm), set_uid(perm)));
    s.append(read_mark(readable_by_group(perm)));
    s.append(write_mark(writable_by_group(perm)));
    s.append(setid_mark(executable_by_group(perm), set_gid(perm)));
    s.append(read_mark(readable_by_other(perm)));
    s.append(write_mark(writable_by_other(perm)));
    s.append(sticky_mark(executable_by_other(perm), sticky_bit(perm)));
    proof {
        assert(s@ =~= glyphs(perm));
        glyphs_fit_slots(perm);
    }
    s
}

/// A rendering has nine characters, each from the alphabet of its slot, and
/// so each one of the eight glyphs.
pub proof fn glyphs_fit_slots(perm: u32)
    ensures
        glyphs(perm).len() == 9,
        forall|i: int| 0 <= i < 9 ==> slot_alphabet(i).contains(#[trigger] glyphs(perm)[i]),
        forall|i: int| 0 <= i < 9 ==> is_glyph(#[trigger] glyphs(perm)[i]),
{
}

/// The results hold no hidden state: what the contracts of `is_set` and
/// `stringify` admit for one mode is one value, so two calls agree.
pub proof fn same_mode_same_result(
    perm: u32,
    mask: u32,
    set1: bool,
    set2: bool,
    text1: Seq<char>,
    text2: Seq<char>,
)
    requires
        set1 == is_set(perm, mask),
        set2 == is_set(perm, mask),
        text1 == glyphs(perm),
        text2 == glyphs(perm),
    ensures
        set1 == set2,
        text1 == text2,
{
}

/// Only the low twelve bits of a mode take part: two modes that agree on
/// them have the same bits of the bit table set and the same rendering.
pub proof fn only_low_bits_matter(a: u32, b: u32)
    requires
        a & ALLPERMS == b & ALLPERMS,
    ensures
        forall|mask: u32| is_mask(mask) ==> is_set(a, mask) == is_set(b, mask),
        glyphs(a) == glyphs(b),
{
    assert forall|mask: u32| is_mask(mask) implies is_set(a, mask) == is_set(b, mask) by {
        assert(a & mask == b & mask) by (bit_vector)
            requires
                a & ALLPERMS == b & ALLPERMS,
                is_mask(mask),
        ;
    }
    // The rendering reads the twelve entries, each of which is a mask.
    assert(is_mask(S_ISUID) && is_mask(S_ISGID) && is_mask(S_ISVTX));
    assert(is_mask(S_IRUSR) && is_mask(S_IWUSR) && is_mask(S_IXUSR));
    assert(is_mask(S_IRGRP) && is_mask(S_IWGRP) && is_mask(S_IXGRP));
    assert(is_mask(S_IROTH) && is_mask(S_IWOTH) && is_mask(S_IXOTH));
}

/// Bits above the low twelve, such as those of the file type, change
/// nothing: a mode renders as its low twelve bits do.
pub proof fn high_bits_are_ignored(perm: u32)
    ensures
        forall|mask: u32| is_mask(mask) ==> is_set(perm, mask) == is_set(perm & ALLPERMS, mask),
        glyphs(perm) == glyphs(perm & ALLPERMS),
{
    assert(perm & ALLPERMS == (perm & ALLPERMS) & ALLPERMS) by (bit_vector);
    only_low_bits_matter(perm, perm & ALLPERMS);
}

} // verus!
