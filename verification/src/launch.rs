//! Launch-name detection: whether the program was invoked under a name
//! that asks for the remove-restrictions entry point.
//!
//! The rule, over the invocation path: trailing `/` characters are
//! dropped, and the file name is what follows the last `/` of the rest;
//! its stem is the part before the last `.`, except that a dot opening
//! the name does not start an extension; matching is ASCII
//! case-insensitive; a leading `pdf-` and a trailing `ure` are stripped;
//! the launch name matches when the remainder reads `desec`.

use vstd::prelude::*;

verus! {

/// The ASCII upper-case partner of the lower-case letters the launch-name
/// patterns use; any other character is its own partner.
pub open spec fn upper_of(p: char) -> char {
    if p == 'p' {
        'P'
    } else if p == 'd' {
        'D'
    } else if p == 'f' {
        'F'
    } else if p == 'u' {
        'U'
    } else if p == 'r' {
        'R'
    } else if p == 'e' {
        'E'
    } else if p == 's' {
        'S'
    } else if p == 'c' {
        'C'
    } else {
        p
    }
}

/// Case-insensitive match of one character against a lower-case pattern
/// character.
pub open spec fn ci_match(c: char, p: char) -> bool {
    c == p || c == upper_of(p)
}

/// Index just after the last `/` of a path; 0 when there is none.
pub open spec fn name_start(s: Seq<char>) -> int
    decreases s.len(),
{
    if s.len() == 0 {
        0
    } else if s.last() == '/' {
        s.len() as int
    } else {
        name_start(s.drop_last())
    }
}

/// Index of the last `.` of a file name, not counting a dot that opens
/// the name; -1 when there is none.
pub open spec fn last_dot(n: Seq<char>) -> int
    decreases n.len(),
{
    if n.len() <= 1 {
        -1
    } else if n.last() == '.' {
        n.len() - 1
    } else {
        last_dot(n.drop_last())
    }
}

/// The path with its trailing `/` characters dropped.
pub open spec fn trim_trailing_slashes(s: Seq<char>) -> Seq<char>
    decreases s.len(),
{
    if s.len() > 0 && s.last() == '/' {
        trim_trailing_slashes(s.drop_last())
    } else {
        s
    }
}

/// The file name of a path: what follows the last `/` once trailing `/`
/// characters are dropped.
pub open spec fn file_name_of(s: Seq<char>) -> Seq<char> {
    let t = trim_trailing_slashes(s);
    t.subrange(name_start(t), t.len() as int)
}

/// The stem of a file name: what stands before the last `.`, the whole
/// name when there is none.
pub open spec fn stem_of(n: Seq<char>) -> Seq<char> {
    if last_dot(n) >= 1 {
        n.subrange(0, last_dot(n))
    } else {
        n
    }
}

/// Whether a name opens with `pdf-`, case-insensitively.
pub open spec fn has_pdf_prefix(n: Seq<char>) -> bool {
    n.len() >= 4 && ci_match(n[0], 'p') && ci_match(n[1], 'd') && ci_match(n[2], 'f')
        && n[3] == '-'
}

/// The name with a leading `pdf-` stripped, if it has one.
pub open spec fn strip_pdf(n: Seq<char>) -> Seq<char> {
    if has_pdf_prefix(n) {
        n.subrange(4, n.len() as int)
    } else {
        n
    }
}

/// Whether a name closes with `ure`, case-insensitively.
pub open spec fn has_ure_suffix(n: Seq<char>) -> bool {
    n.len() >= 3 && ci_match(n[n.len() - 3], 'u') && ci_match(n[n.len() - 2], 'r') && ci_match(
        n[n.len() - 1],
        'e',
    )
}

/// The name with a trailing `ure` stripped, if it has one.
pub open spec fn strip_ure(n: Seq<char>) -> Seq<char> {
    if has_ure_suffix(n) {
        n.subrange(0, n.len() - 3)
    } else {
        n
    }
}

/// Whether a name reads `desec`, case-insensitively.
pub open spec fn is_desec_word(n: Seq<char>) -> bool {
    n.len() == 5 && ci_match(n[0], 'd') && ci_match(n[1], 'e') && ci_match(n[2], 's') && ci_match(
        n[3],
        'e',
    ) && ci_match(n[4], 'c')
}

/// Whether an invocation path names the remove-restrictions entry point:
/// its file-name stem, with a leading `pdf-` and a trailing `ure`
/// stripped, reads `desec`.
pub open spec fn is_desec_spec(s: Seq<char>) -> bool {
    is_desec_word(strip_ure(strip_pdf(stem_of(file_name_of(s)))))
}

fn scan_trim_end(s: &str, i: usize) -> (r: usize)
    requires
        i <= s@.len(),
    ensures
        s@.subrange(0, r as int) == trim_trailing_slashes(s@.subrange(0, i as int)),
        r <= i,
    decreases i,
{
    if i == 0 {
        0
    } else {
        let c = s.get_char(i - 1);
        if c == '/' {
            proof {
                assert(s@.subrange(0, i as int).drop_last() =~= s@.subrange(0, (i - 1) as int));
            }
            scan_trim_end(s, i - 1)
        } else {
            i
        }
    }
}

fn scan_name_start(s: &str, i: usize) -> (r: usize)
    requires
        i <= s@.len(),
    ensures
        r == name_start(s@.subrange(0, i as int)),
        r <= i,
    decreases i,
{
    if i == 0 {
        0
    } else {
        let c = s.get_char(i - 1);
        if c == '/' {
            i
        } else {
            proof {
                assert(s@.subrange(0, i as int).drop_last() =~= s@.subrange(0, (i - 1) as int));
            }
            scan_name_start(s, i - 1)
        }
    }
}

fn scan_last_dot(n: &str, i: usize) -> (r: Option<usize>)
    requires
        i <= n@.len(),
    ensures
        match r {
            Some(d) => d == last_dot(n@.subrange(0, i as int)) && 1 <= d < i,
            None => last_dot(n@.subrange(0, i as int)) == -1,
        },
    decreases i,
{
    if i <= 1 {
        None
    } else {
        let c = n.get_char(i - 1);
        if c == '.' {
            Some(i - 1)
        } else {
            proof {
                assert(n@.subrange(0, i as int).drop_last() =~= n@.subrange(0, (i - 1) as int));
            }
            scan_last_dot(n, i - 1)
        }
    }
}

/// Whether the program was invoked under a remove-restrictions launch
/// name such as `desec`, `pdf-desec`, `desecure` or `pdf-desecure`,
/// in any letter case, with any leading path, any file extension, and
/// any trailing `/` characters.
pub fn is_desec(program_path: &str) -> (r: bool)
    ensures
        r == is_desec_spec(program_path@),
{
    let len = program_path.unicode_len();
    proof {
        assert(program_path@.subrange(0, len as int) =~= program_path@);
    }
    let end = scan_trim_end(program_path, len);
    let ns = scan_name_start(program_path, end);
    let name = program_path.substring_char(ns, end);
    let name_len = name.unicode_len();
    proof {
        let trimmed = trim_trailing_slashes(program_path@);
        assert(trimmed.subrange(name_start(trimmed), trimmed.len() as int) =~= program_path@
            .subrange(ns as int, end as int));
        assert(name@ =~= file_name_of(program_path@));
        assert(name@.subrange(0, name_len as int) =~= name@);
    }
    let stem = match scan_last_dot(name, name_len) {
        Some(d) => name.substring_char(0, d),
        None => name,
    };
    proof {
        assert(stem@ =~= stem_of(name@));
    }
    let stem_len = stem.unicode_len();

    // Strip a leading `pdf-`, case-insensitively.
    let (base, base_len): (&str, usize) = if stem_len >= 4 {
        let c0 = stem.get_char(0);
        let c1 = stem.get_char(1);
        let c2 = stem.get_char(2);
        let c3 = stem.get_char(3);
        if (c0 == 'p' || c0 == 'P') && (c1 == 'd' || c1 == 'D') && (c2 == 'f' || c2 == 'F') && c3
            == '-' {
            (stem.substring_char(4, stem_len), stem_len - 4)
        } else {
            (stem, stem_len)
        }
    } else {
        (stem, stem_len)
    };
    proof {
        assert(base@ =~= strip_pdf(stem@));
    }

    // Strip a trailing `ure`, case-insensitively.
    let (word, word_len): (&str, usize) = if base_len >= 3 {
        let c0 = base.get_char(base_len - 3);
        let c1 = base.get_char(base_len - 2);
        let c2 = base.get_char(base_len - 1);
        if (c0 == 'u' || c0 == 'U') && (c1 == 'r' || c1 == 'R') && (c2 == 'e' || c2 == 'E') {
            (base.substring_char(0, base_len - 3), base_len - 3)
        } else {
            (base, base_len)
        }
    } else {
        (base, base_len)
    };
    proof {
        assert(word@ =~= strip_ure(base@));
    }

    // The remainder must read `desec`, case-insensitively.
    if word_len != 5 {
        return false;
    }
    let c0 = word.get_char(0);
    let c1 = word.get_char(1);
    let c2 = word.get_char(2);
    let c3 = word.get_char(3);
    let c4 = word.get_char(4);
    (c0 == 'd' || c0 == 'D') && (c1 == 'e' || c1 == 'E') && (c2 == 's' || c2 == 'S') && (c3 == 'e'
        || c3 == 'E') && (c4 == 'c' || c4 == 'C')
}

} // verus!
