//! The permission bit-set: eight named access flags with the usual set
//! algebra (union, intersection, difference), and nothing else. Every value
//! of the type is valid: only the eight defined flags are representable.

use vstd::prelude::*;

verus! {

/// A set of document access permissions, one `bool` per defined flag.
///
/// Equality is field-wise; union, intersection and difference are the
/// corresponding pointwise boolean operations.
#[derive(Clone, Copy, Debug, PartialEq, Eq, Structural)]
pub struct PermissionSet {
    /// Print the document.
    pub printable: bool,
    /// Modify the document's contents.
    pub modifiable: bool,
    /// Copy or extract text and graphics.
    pub copyable: bool,
    /// Add or modify text annotations.
    pub annotatable: bool,
    /// Fill in existing interactive form fields.
    pub fillable: bool,
    /// Extract content for accessibility purposes.
    pub copyable_for_accessibility: bool,
    /// Assemble the document (insert, rotate, delete pages).
    pub assemblable: bool,
    /// Print at the highest quality level.
    pub printable_high_quality: bool,
}

impl PermissionSet {
    /// The set with no flag set.
    pub open spec fn empty_spec() -> Self {
        PermissionSet {
            printable: false,
            modifiable: false,
            copyable: false,
            annotatable: false,
            fillable: false,
            copyable_for_accessibility: false,
            assemblable: false,
            printable_high_quality: false,
        }
    }

    /// The set with all eight flags set.
    pub open spec fn all_spec() -> Self {
        PermissionSet {
            printable: true,
            modifiable: true,
            copyable: true,
            annotatable: true,
            fillable: true,
            copyable_for_accessibility: true,
            assemblable: true,
            printable_high_quality: true,
        }
    }

    /// The set holding exactly the flag at table position `i`
    /// (empty for an out-of-range position).
    pub open spec fn singleton_spec(i: int) -> Self {
        PermissionSet {
            printable: i == 0,
            modifiable: i == 1,
            copyable: i == 2,
            annotatable: i == 3,
            fillable: i == 4,
            copyable_for_accessibility: i == 5,
            assemblable: i == 6,
            printable_high_quality: i == 7,
        }
    }

    /// Whether the flag at table position `i` is set.
    pub open spec fn flag_on(self, i: int) -> bool {
        if i == 0 {
            self.printable
        } else if i == 1 {
            self.modifiable
        } else if i == 2 {
            self.copyable
        } else if i == 3 {
            self.annotatable
        } else if i == 4 {
            self.fillable
        } else if i == 5 {
            self.copyable_for_accessibility
        } else if i == 6 {
            self.assemblable
        } else if i == 7 {
            self.printable_high_quality
        } else {
            false
        }
    }

    pub open spec fn union_spec(self, other: Self) -> Self {
        PermissionSet {
            printable: self.printable || other.printable,
            modifiable: self.modifiable || other.modifiable,
            copyable: self.copyable || other.copyable,
            annotatable: self.annotatable || other.annotatable,
            fillable: self.fillable || other.fillable,
            copyable_for_accessibility: self.copyable_for_accessibility
                || other.copyable_for_accessibility,
            assemblable: self.assemblable || other.assemblable,
            printable_high_quality: self.printable_high_quality
                || other.printable_high_quality,
        }
    }

    pub open spec fn intersect_spec(self, other: Self) -> Self {
        PermissionSet {
            printable: self.printable && other.printable,
            modifiable: self.modifiable && other.modifiable,
            copyable: self.copyable && other.copyable,
            annotatable: self.annotatable && other.annotatable,
            fillable: self.fillable && other.fillable,
            copyable_for_accessibility: self.copyable_for_accessibility
                && other.copyable_for_accessibility,
            assemblable: self.assemblable && other.assemblable,
            printable_high_quality: self.printable_high_quality
                && other.printable_high_quality,
        }
    }

    pub open spec fn difference_spec(self, other: Self) -> Self {
        PermissionSet {
            printable: self.printable && !other.printable,
            modifiable: self.modifiable && !other.modifiable,
            copyable: self.copyable && !other.copyable,
            annotatable: self.annotatable && !other.annotatable,
            fillable: self.fillable && !other.fillable,
            copyable_for_accessibility: self.copyable_for_accessibility
                && !other.copyable_for_accessibility,
            assemblable: self.assemblable && !other.assemblable,
            printable_high_quality: self.printable_high_quality
                && !other.printable_high_quality,
        }
    }

    /// Whether every flag of `other` is also set in `self`.
    pub open spec fn contains_spec(self, other: Self) -> bool {
        self.intersect_spec(other) == other
    }

    /// Returns the set with no flag set.
    pub fn empty() -> (r: Self)
        ensures
            r == Self::empty_spec(),
    {
        PermissionSet {
            printable: false,
            modifiable: false,
            copyable: false,
            annotatable: false,
            fillable: false,
            copyable_for_accessibility: false,
            assemblable: false,
            printable_high_quality: false,
        }
    }

    /// Returns the set with all eight flags set.
    pub fn all() -> (r: Self)
        ensures
            r == Self::all_spec(),
    {
        PermissionSet {
            printable: true,
            modifiable: true,
            copyable: true,
            annotatable: true,
            fillable: true,
            copyable_for_accessibility: true,
            assemblable: true,
            printable_high_quality: true,
        }
    }

    /// Pointwise union of two sets.
    pub fn union(self, other: Self) -> (r: Self)
        ensures
            r == self.union_spec(other),
    {
        PermissionSet {
            printable: self.printable || other.printable,
            modifiable: self.modifiable || other.modifiable,
            copyable: self.copyable || other.copyable,
            annotatable: self.annotatable || other.annotatable,
            fillable: self.fillable || other.fillable,
            copyable_for_accessibility: self.copyable_for_accessibility
                || other.copyable_for_accessibility,
            assemblable: self.assemblable || other.assemblable,
            printable_high_quality: self.printable_high_quality
                || other.printable_high_quality,
        }
    }

    /// Pointwise intersection of two sets.
    pub fn intersect(self, other: Self) -> (r: Self)
        ensures
            r == self.intersect_spec(other),
    {
        PermissionSet {
            printable: self.printable && other.printable,
            modifiable: self.modifiable && other.modifiable,
            copyable: self.copyable && other.copyable,
            annotatable: self.annotatable && other.annotatable,
            fillable: self.fillable && other.fillable,
            copyable_for_accessibility: self.copyable_for_accessibility
                && other.copyable_for_accessibility,
            assemblable: self.assemblable && other.assemblable,
            printable_high_quality: self.printable_high_quality
                && other.printable_high_quality,
        }
    }

    /// Flags of `self` that are not in `other`.
    pub fn difference(self, other: Self) -> (r: Self)
        ensures
            r == self.difference_spec(other),
    {
        PermissionSet {
            printable: self.printable && !other.printable,
            modifiable: self.modifiable && !other.modifiable,
            copyable: self.copyable && !other.copyable,
            annotatable: self.annotatable && !other.annotatable,
            fillable: self.fillable && !other.fillable,
            copyable_for_accessibility: self.copyable_for_accessibility
                && !other.copyable_for_accessibility,
            assemblable: self.assemblable && !other.assemblable,
            printable_high_quality: self.printable_high_quality
                && !other.printable_high_quality,
        }
    }

    /// Whether every flag of `other` is also set in `self`.
    pub fn contains(self, other: Self) -> (r: bool)
        ensures
            r == self.contains_spec(other),
    {
        (!other.printable || self.printable) && (!other.modifiable || self.modifiable)
            && (!other.copyable || self.copyable) && (!other.annotatable || self.annotatable)
            && (!other.fillable || self.fillable)
            && (!other.copyable_for_accessibility || self.copyable_for_accessibility)
            && (!other.assemblable || self.assemblable)
            && (!other.printable_high_quality || self.printable_high_quality)
    }

    /// Field-wise equality.
    pub fn equals(self, other: Self) -> (r: bool)
        ensures
            r == (self == other),
    {
        self == other
    }
}

} // verus!
