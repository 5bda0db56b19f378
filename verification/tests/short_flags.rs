use pdf_perm::codec::{flag_count, flag_name, flag_on_at, short_flag_char, ShortFlags};
use pdf_perm::perm::PermissionSet;

fn ps(
    printable: bool,
    modifiable: bool,
    copyable: bool,
    annotatable: bool,
    fillable: bool,
    copyable_for_accessibility: bool,
    assemblable: bool,
    printable_high_quality: bool,
) -> PermissionSet {
    PermissionSet {
        printable,
        modifiable,
        copyable,
        annotatable,
        fillable,
        copyable_for_accessibility,
        assemblable,
        printable_high_quality,
    }
}

#[test]
fn test_from_str_1() {
    let permissions = PermissionSet::from_str("pmc");
    let expected = ps(true, true, true, false, false, false, false, false);
    assert_eq!(permissions, expected);
}

#[test]
fn test_from_str_2() {
    let permissions = PermissionSet::from_str("*");
    let expected = PermissionSet::all();
    assert_eq!(permissions, expected);
}

#[test]
fn test_apply_modification() {
    let mut permissions = PermissionSet::empty();
    permissions.apply_modification("+p");
    assert_eq!(permissions, ps(true, false, false, false, false, false, false, false));
    permissions.apply_modification("-p");
    assert_eq!(permissions, PermissionSet::empty());
    permissions.apply_modification("=m");
    assert_eq!(permissions, ps(false, true, false, false, false, false, false, false));
}

#[test]
fn test_from_char() {
    assert_eq!(PermissionSet::from_char('*'), Some(PermissionSet::all()));
    assert_eq!(
        PermissionSet::from_char('p'),
        Some(ps(true, false, false, false, false, false, false, false))
    );
    assert_eq!(
        PermissionSet::from_char('q'),
        Some(ps(false, false, false, false, false, false, false, true))
    );
    assert_eq!(PermissionSet::from_char('z'), None);
    assert_eq!(PermissionSet::from_char('P'), None);
    assert_eq!(PermissionSet::from_char('-'), None);
}

#[test]
fn test_unknown_character_skipped() {
    assert_eq!(PermissionSet::from_str("pz"), PermissionSet::from_str("p"));
    assert_eq!(PermissionSet::from_str("zp"), PermissionSet::from_str("p"));
    assert_eq!(PermissionSet::from_str("z"), PermissionSet::empty());
}

#[test]
fn test_decode_empty_string() {
    assert_eq!(PermissionSet::from_str(""), PermissionSet::empty());
}

#[test]
fn test_wildcard_among_others() {
    assert_eq!(PermissionSet::from_str("p*"), PermissionSet::all());
    assert_eq!(PermissionSet::from_str("*q"), PermissionSet::all());
}

#[test]
fn test_summary_values() {
    assert_eq!(PermissionSet::empty().summary(), "--------");
    assert_eq!(PermissionSet::all().summary(), "pmcafxsq");
    let pc = ps(true, false, true, false, false, false, false, false);
    assert_eq!(pc.summary(), "p-c-----");
    let pma = ps(true, true, false, true, false, false, false, false);
    assert_eq!(pma.summary(), "pm-a----");
}

#[test]
fn test_summary_length() {
    assert_eq!(PermissionSet::empty().summary().chars().count(), 8);
    assert_eq!(PermissionSet::all().summary().chars().count(), 8);
    let odd = ps(false, true, false, true, false, true, false, true);
    assert_eq!(odd.summary().chars().count(), 8);
}

#[test]
fn test_round_trip_summary() {
    let cases = [
        PermissionSet::empty(),
        PermissionSet::all(),
        ps(true, false, true, false, false, false, false, true),
        ps(false, true, false, true, true, false, true, false),
    ];
    for s in cases {
        assert_eq!(PermissionSet::from_str(&s.summary()), s);
    }
}

#[test]
fn test_modification_idempotent() {
    let mut once = ps(false, false, true, false, false, true, false, false);
    let mut twice = once;
    once.apply_modification("+pc");
    twice.apply_modification("+pc");
    twice.apply_modification("+pc");
    assert_eq!(once, twice);

    let mut once = ps(true, true, false, false, false, false, false, false);
    let mut twice = once;
    once.apply_modification("-m");
    twice.apply_modification("-m");
    twice.apply_modification("-m");
    assert_eq!(once, twice);
}

#[test]
fn test_difference_of_absent_flags_is_noop() {
    let start = ps(true, false, false, false, false, false, false, false);
    let mut modified = start;
    modified.apply_modification("-mq");
    assert_eq!(modified, start);
}

#[test]
fn test_unknown_operator_ignored() {
    let start = ps(true, false, true, false, false, false, false, false);
    let mut modified = start;
    modified.apply_modification("?p");
    assert_eq!(modified, start);
    modified.apply_modification("p");
    assert_eq!(modified, start);
}

#[test]
fn test_set_algebra() {
    let p = ps(true, false, false, false, false, false, false, false);
    let m = ps(false, true, false, false, false, false, false, false);
    let pm = ps(true, true, false, false, false, false, false, false);
    assert_eq!(p.union(m), pm);
    assert_eq!(pm.intersect(p), p);
    assert_eq!(pm.difference(m), p);
    assert!(pm.contains(p));
    assert!(!p.contains(pm));
    assert!(p.equals(p));
    assert!(!p.equals(m));
    assert_eq!(PermissionSet::all().difference(PermissionSet::all()), PermissionSet::empty());
}

#[test]
fn test_legend() {
    assert_eq!(flag_count(), 8);
    let chars: Vec<char> = (0..flag_count()).map(short_flag_char).collect();
    assert_eq!(chars, vec!['p', 'm', 'c', 'a', 'f', 'x', 's', 'q']);
    assert_eq!(flag_name(0), "Printable");
    assert_eq!(flag_name(5), "CopyableForAccessibility");
    assert_eq!(flag_name(7), "PrintableHighQuality");
    let pq = ps(true, false, false, false, false, false, false, true);
    assert!(flag_on_at(pq, 0));
    assert!(!flag_on_at(pq, 1));
    assert!(flag_on_at(pq, 7));
}
