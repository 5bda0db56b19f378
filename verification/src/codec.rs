//! The short-flag codec and the modification mini-language.
//!
//! Each of the eight permission flags is paired with one display character,
//! in table order: `p m c a f x s q`. A string of such characters decodes to
//! the union of the flags it names; the character `*` is a wildcard for all
//! eight flags, and unknown characters contribute nothing. A modification
//! expression is an operator (`+`, `-` or `=`) followed by flag characters,
//! and transforms an existing set by union, difference or replacement.

use vstd::prelude::*;

use crate::perm::PermissionSet;

verus! {

/// The short-flag table: one display character per flag, in the flags'
/// declaration order.
pub open spec fn flag_chars() -> Seq<char> {
    seq!['p', 'm', 'c', 'a', 'f', 'x', 's', 'q']
}

/// What a single character decodes to: the full set for the wildcard `*`,
/// the matching singleton for a table character, nothing otherwise.
pub open spec fn decode_char_spec(c: char) -> Option<PermissionSet> {
    if c == '*' {
        Some(PermissionSet::all_spec())
    } else if c == 'p' {
        Some(PermissionSet::singleton_spec(0))
    } else if c == 'm' {
        Some(PermissionSet::singleton_spec(1))
    } else if c == 'c' {
        Some(PermissionSet::singleton_spec(2))
    } else if c == 'a' {
        Some(PermissionSet::singleton_spec(3))
    } else if c == 'f' {
        Some(PermissionSet::singleton_spec(4))
    } else if c == 'x' {
        Some(PermissionSet::singleton_spec(5))
    } else if c == 's' {
        Some(PermissionSet::singleton_spec(6))
    } else if c == 'q' {
        Some(PermissionSet::singleton_spec(7))
    } else {
        None
    }
}

/// The flags one character adds to a decoded string: what it decodes to,
/// or nothing if it is not recognized.
pub open spec fn char_contrib(c: char) -> PermissionSet {
    match decode_char_spec(c) {
        Some(f) => f,
        None => PermissionSet::empty_spec(),
    }
}

/// What a whole string decodes to: the union of every character's
/// contribution, starting from the empty set.
pub open spec fn decode_string_spec(s: Seq<char>) -> PermissionSet
    decreases s.len(),
{
    if s.len() == 0 {
        PermissionSet::empty_spec()
    } else {
        decode_string_spec(s.drop_last()).union_spec(char_contrib(s.last()))
    }
}

/// The canonical rendering of a set: one character per table slot, the
/// flag's character if set, `-` if not.
pub open spec fn summary_spec(s: PermissionSet) -> Seq<char> {
    Seq::new(flag_chars().len(), |i: int| if s.flag_on(i) {
        flag_chars()[i]
    } else {
        '-'
    })
}

/// What a modification expression does to a current set: its first
/// character picks the operation, the rest decodes to the operand.
/// An unknown operator leaves the set unchanged.
pub open spec fn apply_modification_spec(cur: PermissionSet, m: Seq<char>) -> PermissionSet {
    if m.len() == 0 {
        cur
    } else {
        let parsed = decode_string_spec(m.subrange(1, m.len() as int));
        if m[0] == '+' {
            cur.union_spec(parsed)
        } else if m[0] == '-' {
            cur.difference_spec(parsed)
        } else if m[0] == '=' {
            parsed
        } else {
            cur
        }
    }
}

/// The set holding exactly the flag at table position `i`.
pub fn flag_at(i: usize) -> (r: PermissionSet)
    requires
        i < flag_chars().len(),
    ensures
        r == PermissionSet::singleton_spec(i as int),
{
    PermissionSet {
        printable: i == 0,
        modifiable: i == 1,
        copyable: i == 2,
        annotatable: i == 3,
        fillable: i == 4,
        copyable_for_accessibility: i == 5,
        assemblable: i == 6,
        printable_high_quality: i == 7,
    }
}

/// Short-flag capability: parsing single characters and strings of them,
/// applying modification expressions, and rendering a summary.
pub trait ShortFlags: Sized + Copy {
    /// Number of entries in the implementor's short-flag table.
    spec fn table_len() -> nat;

    /// What one character decodes to for this type.
    spec fn char_model(c: char) -> Option<Self>;

    /// What a whole string decodes to for this type.
    spec fn string_model(s: Seq<char>) -> Self;

    /// What a modification expression turns `self` into.
    spec fn modified_model(self, m: Seq<char>) -> Self;

    /// The canonical summary rendering of `self`.
    spec fn summary_model(self) -> Seq<char>;

    /// Parses one character.
    fn from_char(c: char) -> (r: Option<Self>)
        ensures
            r == Self::char_model(c),
    ;

    /// Parses a string of short-flag characters; unknown characters are
    /// skipped, the rest are unioned.
    fn from_str(s: &str) -> (r: Self)
        ensures
            r == Self::string_model(s@),
    ;

    /// Applies a modification expression. The expression must at least
    /// hold its operator character.
    fn apply_modification(&mut self, modification: &str)
        requires
            modification@.len() >= 1,
        ensures
            *final(self) == (*old(self)).modified_model(modification@),
    ;

    /// Renders the summary string, one character per table slot.
    fn summary(&self) -> (r: String)
        ensures
            r@ == (*self).summary_model(),
            r@.len() == Self::table_len(),
    ;
}

impl ShortFlags for PermissionSet {
    open spec fn table_len() -> nat {
        flag_chars().len()
    }

    open spec fn char_model(c: char) -> Option<PermissionSet> {
        decode_char_spec(c)
    }

    open spec fn string_model(s: Seq<char>) -> PermissionSet {
        decode_string_spec(s)
    }

    open spec fn modified_model(self, m: Seq<char>) -> PermissionSet {
        apply_modification_spec(self, m)
    }

    open spec fn summary_model(self) -> Seq<char> {
        summary_spec(self)
    }

    fn from_char(c: char) -> (r: Option<Self>) {
        if c == '*' {
            Some(PermissionSet::all())
        } else if c == 'p' {
            Some(flag_at(0))
        } else if c == 'm' {
            Some(flag_at(1))
        } else if c == 'c' {
            Some(flag_at(2))
        } else if c == 'a' {
            Some(flag_at(3))
        } else if c == 'f' {
            Some(flag_at(4))
        } else if c == 'x' {
            Some(flag_at(5))
        } else if c == 's' {
            Some(flag_at(6))
        } else if c == 'q' {
            Some(flag_at(7))
        } else {
            None
        }
    }

    fn from_str(s: &str) -> (r: Self) {
        let len = s.unicode_len();
        let mut flags = PermissionSet::empty();
        let mut i: usize = 0;
        while i < len
            invariant
                len == s@.len(),
                i <= len,
                flags == decode_string_spec(s@.subrange(0, i as int)),
            decreases len - i,
        {
            let c = s.get_char(i);
            match Self::from_char(c) {
                Some(f) => {
                    flags = flags.union(f);
                },
                None => {
                    // unknown short flag: skipped, decoding continues
                },
            }
            proof {
                assert(s@.subrange(0, i + 1 as int).drop_last() =~= s@.subrange(0, i as int));
            }
            i = i + 1;
        }
        proof {
            assert(s@.subrange(0, len as int) =~= s@);
        }
        flags
    }

    fn apply_modification(&mut self, modification: &str) {
        let len = modification.unicode_len();
        let op = modification.get_char(0);
        let rest = modification.substring_char(1, len);
        let parsed = Self::from_str(rest);
        if op == '+' {
            *self = (*self).union(parsed);
        } else if op == '-' {
            *self = (*self).difference(parsed);
        } else if op == '=' {
            *self = parsed;
        } else {
            // unknown operator: the modification is ignored
        }
    }

    fn summary(&self) -> (r: String) {
        let mut out = String::new();
        out.append(if self.printable { "p" } else { "-" });
        out.append(if self.modifiable { "m" } else { "-" });
        out.append(if self.copyable { "c" } else { "-" });
        out.append(if self.annotatable { "a" } else { "-" });
        out.append(if self.fillable { "f" } else { "-" });
        out.append(if self.copyable_for_accessibility { "x" } else { "-" });
        out.append(if self.assemblable { "s" } else { "-" });
        out.append(if self.printable_high_quality { "q" } else { "-" });
        proof {
            reveal_strlit("p");
            reveal_strlit("m");
            reveal_strlit("c");
            reveal_strlit("a");
            reveal_strlit("f");
            reveal_strlit("x");
            reveal_strlit("s");
            reveal_strlit("q");
            reveal_strlit("-");
            assert(out@ =~= summary_spec(*self));
        }
        out
    }
}

/// The full name of the flag at table position `i`.
pub open spec fn flag_name_spec(i: int) -> Seq<char> {
    if i == 0 {
        "Printable"@
    } else if i == 1 {
        "Modifiable"@
    } else if i == 2 {
        "Copyable"@
    } else if i == 3 {
        "Annotatable"@
    } else if i == 4 {
        "Fillable"@
    } else if i == 5 {
        "CopyableForAccessibility"@
    } else if i == 6 {
        "Assemblable"@
    } else if i == 7 {
        "PrintableHighQuality"@
    } else {
        Seq::<char>::empty()
    }
}

/// Number of entries in the short-flag table.
pub fn flag_count() -> (n: usize)
    ensures
        n == flag_chars().len(),
{
    8
}

/// The display character at table position `i`.
pub fn short_flag_char(i: usize) -> (c: char)
    requires
        i < flag_chars().len(),
    ensures
        c == flag_chars()[i as int],
{
    if i == 0 {
        'p'
    } else if i == 1 {
        'm'
    } else if i == 2 {
        'c'
    } else if i == 3 {
        'a'
    } else if i == 4 {
        'f'
    } else if i == 5 {
        'x'
    } else if i == 6 {
        's'
    } else {
        'q'
    }
}

/// The full name of the flag at table position `i`.
pub fn flag_name(i: usize) -> (r: String)
    requires
        i < flag_chars().len(),
    ensures
        r@ == flag_name_spec(i as int),
{
    if i == 0 {
        "Printable".to_owned()
    } else if i == 1 {
        "Modifiable".to_owned()
    } else if i == 2 {
        "Copyable".to_owned()
    } else if i == 3 {
        "Annotatable".to_owned()
    } else if i == 4 {
        "Fillable".to_owned()
    } else if i == 5 {
        "CopyableForAccessibility".to_owned()
    } else if i == 6 {
        "Assemblable".to_owned()
    } else {
        "PrintableHighQuality".to_owned()
    }
}

/// Whether the flag at table position `i` is set in `s`.
pub fn flag_on_at(s: PermissionSet, i: usize) -> (r: bool)
    requires
        i < flag_chars().len(),
    ensures
        r == s.flag_on(i as int),
{
    if i == 0 {
        s.printable
    } else if i == 1 {
        s.modifiable
    } else if i == 2 {
        s.copyable
    } else if i == 3 {
        s.annotatable
    } else if i == 4 {
        s.fillable
    } else if i == 5 {
        s.copyable_for_accessibility
    } else if i == 6 {
        s.assemblable
    } else {
        s.printable_high_quality
    }
}

/// The short-flag table is well formed: it has one character per flag,
/// no character appears twice, and neither the wildcard `*` nor the
/// placeholder `-` appears in it.
pub proof fn lemma_table_well_formed()
    ensures
        flag_chars().len() == 8,
        forall|i: int, j: int|
            0 <= i < j < flag_chars().len() ==> flag_chars()[i] != flag_chars()[j],
        forall|i: int|
            0 <= i < flag_chars().len() ==> flag_chars()[i] != '*' && flag_chars()[i] != '-',
{
}

/// Decoding a string with one more character appended unions in that
/// character's contribution.
pub proof fn lemma_decode_push(s: Seq<char>, c: char)
    ensures
        decode_string_spec(s.push(c)) == decode_string_spec(s).union_spec(char_contrib(c)),
{
    assert(s.push(c).drop_last() =~= s);
}

/// Decoding distributes over concatenation: the flags of `a + b` are the
/// union of the flags of `a` and the flags of `b`.
pub proof fn lemma_decode_append(a: Seq<char>, b: Seq<char>)
    ensures
        decode_string_spec(a + b) == decode_string_spec(a).union_spec(decode_string_spec(b)),
    decreases b.len(),
{
    if b.len() == 0 {
        assert(a + b =~= a);
    } else {
        lemma_decode_append(a, b.drop_last());
        assert((a + b).drop_last() =~= a + b.drop_last());
        assert((a + b).last() == b.last());
    }
}

/// The wildcard decodes to the full set, alone or as a whole string.
pub proof fn lemma_wildcard()
    ensures
        decode_char_spec('*') == Some(PermissionSet::all_spec()),
        decode_string_spec(seq!['*']) == PermissionSet::all_spec(),
{
    assert(seq!['*'].drop_last() =~= Seq::<char>::empty());
    assert(decode_string_spec(Seq::<char>::empty()) == PermissionSet::empty_spec());
}

/// A character outside the table (and other than the wildcard) contributes
/// nothing, wherever it stands: decoding is unchanged when it is removed.
pub proof fn lemma_unknown_char_ignored(a: Seq<char>, c: char, b: Seq<char>)
    requires
        decode_char_spec(c) is None,
    ensures
        decode_string_spec(a + seq![c] + b) == decode_string_spec(a + b),
{
    lemma_decode_append(a + seq![c], b);
    lemma_decode_append(a, b);
    assert(a + seq![c] =~= a.push(c));
    lemma_decode_push(a, c);
}

/// Round trip: decoding the summary of any set yields that set back.
pub proof fn lemma_summary_round_trip(s: PermissionSet)
    ensures
        decode_string_spec(summary_spec(s)) == s,
{
    let t = summary_spec(s);
    assert(t.subrange(0, 1) =~= t.subrange(0, 0).push(t[0]));
    assert(t.subrange(0, 2) =~= t.subrange(0, 1).push(t[1]));
    assert(t.subrange(0, 3) =~= t.subrange(0, 2).push(t[2]));
    assert(t.subrange(0, 4) =~= t.subrange(0, 3).push(t[3]));
    assert(t.subrange(0, 5) =~= t.subrange(0, 4).push(t[4]));
    assert(t.subrange(0, 6) =~= t.subrange(0, 5).push(t[5]));
    assert(t.subrange(0, 7) =~= t.subrange(0, 6).push(t[6]));
    assert(t =~= t.subrange(0, 7).push(t[7]));
    assert(t.subrange(0, 0) =~= Seq::<char>::empty());
    lemma_decode_push(t.subrange(0, 0), t[0]);
    lemma_decode_push(t.subrange(0, 1), t[1]);
    lemma_decode_push(t.subrange(0, 2), t[2]);
    lemma_decode_push(t.subrange(0, 3), t[3]);
    lemma_decode_push(t.subrange(0, 4), t[4]);
    lemma_decode_push(t.subrange(0, 5), t[5]);
    lemma_decode_push(t.subrange(0, 6), t[6]);
    lemma_decode_push(t.subrange(0, 7), t[7]);
}

/// Applying the same modification expression twice yields the same result
/// as applying it once, whichever operator it carries.
pub proof fn lemma_modification_idempotent(cur: PermissionSet, m: Seq<char>)
    ensures
        apply_modification_spec(apply_modification_spec(cur, m), m)
            == apply_modification_spec(cur, m),
{
}

/// Removing flags that the current set does not hold is a no-op.
pub proof fn lemma_difference_noop(cur: PermissionSet, m: Seq<char>)
    requires
        m.len() >= 1,
        m[0] == '-',
        cur.intersect_spec(decode_string_spec(m.subrange(1, m.len() as int)))
            == PermissionSet::empty_spec(),
    ensures
        apply_modification_spec(cur, m) == cur,
{
}

} // verus!
