//! Decoding of the permission and special bits of a POSIX file mode.
//!
//! The functions of [`raw_fn`] work on a mode held as a `u32`;
//! [`UNIXPermissionsExt`] offers the same questions as methods, and
//! [`Permissions`] is a value that answers them.

pub mod constants;
pub mod raw_fn;

use crate::constants::{
    S_IRGRP, S_IROTH, S_IRUSR, S_ISGID, S_ISUID, S_ISVTX, S_IWGRP, S_IWOTH, S_IWUSR, S_IXGRP,
    S_IXOTH, S_IXUSR,
};
use crate::raw_fn::{glyphs, is_glyph, is_set};
use vstd::prelude::*;

verus! {

/// The questions that a holder of a mode answers: one per bit of the bit
/// table, and the rendering of `ls(1)`.
pub trait UNIXPermissionsExt {
    /// The mode that this value holds.
    spec fn mode_bits(&self) -> u32;

    /// Is set-UID bit set?
    fn set_uid(&self) -> (r: bool)
        ensures
            r == is_set(self.mode_bits(), S_ISUID),
    ;

    /// Is set-GID bit set?
    fn set_gid(&self) -> (r: bool)
        ensures
            r == is_set(self.mode_bits(), S_ISGID),
    ;

    /// Is sticky bit set?
    fn sticky_bit(&self) -> (r: bool)
        ensures
            r == is_set(self.mode_bits(), S_ISVTX),
    ;

    /// Is this file readable by owner?
    fn readable_by_owner(&self) -> (r: bool)
        ensures
            r == is_set(self.mode_bits(), S_IRUSR),
    ;

    /// Is this file writable by owner?
    fn writable_by_owner(&self) -> (r: bool)
        ensures
            r == is_set(self.mode_bits(), S_IWUSR),
    ;

    /// Is this file executable by owner?
    fn executable_by_owner(&self) -> (r: bool)
        ensures
            r == is_set(self.mode_bits(), S_IXUSR),
    ;

    /// Is this file readable by group?
    fn readable_by_group(&self) -> (r: bool)
        ensures
            r == is_set(self.mode_bits(), S_IRGRP),
    ;

    /// Is this file writable by group?
    fn writable_by_group(&self) -> (r: bool)
        ensures
            r == is_set(self.mode_bits(), S_IWGRP),
    ;

    /// Is this file executable by group?
    fn executable_by_group(&self) -> (r: bool)
        ensures
            r == is_set(self.mode_bits(), S_IXGRP),
    ;

    /// Is this file readable by others?
    fn readable_by_other(&self) -> (r: bool)
        ensures
            r == is_set(self.mode_bits(), S_IROTH),
    ;

    /// Is this file writable by others?
    fn writable_by_other(&self) -> (r: bool)
        ensures
            r == is_set(self.mode_bits(), S_IWOTH),
    ;

    /// Is this file executable by others?
    fn executable_by_other(&self) -> (r: bool)
        ensures
            r == is_set(self.mode_bits(), S_IXOTH),
    ;

    /// Convert the mode into a `String`, just like the one printed by
    /// `ls(1)`.
    fn stringify(&self) -> (s: String)
        ensures
            s@ == glyphs(self.mode_bits()),
            s@.len() == 9,
            forall|i: int| 0 <= i < 9 ==> is_glyph(#[trigger] s@[i]),
    ;
}

/// The permissions of a file: its mode, kept whole as the file system gave
/// it.
#[derive(Clone, Copy, Debug, PartialEq, Eq, Structural)]
pub struct Permissions {
    mode: u32,
}

impl Permissions {
    /// The permissions that `mode` stands for. No bit is dropped.
    pub fn from_mode(mode: u32) -> (p: Self)
        ensures
            p.mode_bits() == mode,
    {
        Permissions { mode }
    }

    /// The mode, as it was given.
    pub fn mode(&self) -> (m: u32)
        ensures
            m == self.mode_bits(),
    {
        self.mode
    }

    /// Two values are equal exactly when they hold the same mode.
    pub proof fn equal_by_mode(self, other: Self)
        ensures
            (self == other) <==> (self.mode_bits() == other.mode_bits()),
    {
    }
}

impl UNIXPermissionsExt for Permissions {
    closed spec fn mode_bits(&self) -> u32 {
        self.mode
    }

    #[inline]
    fn set_uid(&self) -> (r: bool) {
        raw_fn::set_uid(self.mode)
    }

    #[inline]
    fn set_gid(&self) -> (r: bool) {
        raw_fn::set_gid(self.mode)
    }

    #[inline]
    fn sticky_bit(&self) -> (r: bool) {
        raw_fn::sticky_bit(self.mode)
    }

    #[inline]
    fn readable_by_owner(&self) -> (r: bool) {
        raw_fn::readable_by_owner(self.mode)
    }

    #[inline]
    fn writable_by_owner(&self) -> (r: bool) {
        raw_fn::writable_by_owner(self.mode)
    }

    #[inline]
    fn executable_by_owner(&self) -> (r: bool) {
        raw_fn::executable_by_owner(self.mode)
    }

    #[inline]
    fn readable_by_group(&self) -> (r: bool) {
        raw_fn::readable_by_group(self.mode)
    }

    #[inline]
    fn writable_by_group(&self) -> (r: bool) {
        raw_fn::writable_by_group(self.mode)
    }

    #[inline]
    fn executable_by_group(&self) -> (r: bool) {
        raw_fn::executable_by_group(self.mode)
    }

    #[inline]
    fn readable_by_other(&self) -> (r: bool) {
        raw_fn::readable_by_other(self.mode)
    }

    #[inline]
    fn writable_by_other(&self) -> (r: bool) {
        raw_fn::writable_by_other(self.mode)
    }

    #[inline]
    fn executable_by_other(&self) -> (r: bool) {
        raw_fn::executable_by_other(self.mode)
    }

    fn stringify(&self) -> (s: String) {
        raw_fn::stringify(self.mode)
    }
}

} // verus!
