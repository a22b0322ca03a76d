use oom_edit::gutter::{
    marker_style, GutterMarkerRole, GutterTroubleItem, GutterTroubleSnapshot, MarkerEmphasis,
    PendingGutterTroubleBuild,
};
use oom_edit::keys::{severity_priority, DiagnosticSeverity};

fn item(source_line: usize, severity: DiagnosticSeverity) -> GutterTroubleItem {
    GutterTroubleItem { source_line, severity }
}

#[test]
fn shuffled_duplicates_keep_explicit_highest_severity() {
    let severities = [
        DiagnosticSeverity::Error,
        DiagnosticSeverity::Warning,
        DiagnosticSeverity::Info,
        DiagnosticSeverity::Hint,
    ];
    for first in severities {
        for second in severities {
            for pair in [[first, second], [second, first]] {
                let items = [item(9, pair[0]), item(2, DiagnosticSeverity::Hint), item(9, pair[1])];
                let mut build = PendingGutterTroubleBuild::new(7, items.len());
                assert_eq!(build.advance(usize::MAX, |index| Some(items[index])), items.len());
                let snapshot = build.publish(7).unwrap();
                let expected = if severity_priority(first) >= severity_priority(second) { first } else { second };
                assert_eq!(snapshot.severity(9), Some(expected));
                assert_eq!(snapshot.severity(2), Some(DiagnosticSeverity::Hint));
                assert_eq!(snapshot.len(), 2);
            }
        }
    }
}

#[test]
fn marker_glyph_role_and_modifier_mapping_is_exhaustive() {
    for (severity, glyph, role) in [
        (DiagnosticSeverity::Error, 'E', GutterMarkerRole::Error),
        (DiagnosticSeverity::Warning, 'W', GutterMarkerRole::Warning),
        (DiagnosticSeverity::Info, 'I', GutterMarkerRole::Info),
        (DiagnosticSeverity::Hint, 'H', GutterMarkerRole::Muted),
    ] {
        let style = marker_style(severity);
        assert_eq!(style.glyph, glyph);
        assert_eq!(style.role, role);
        assert_eq!(style.emphasis, MarkerEmphasis::Bold);
    }
}

#[test]
fn budget_completion_and_generation_publication_are_exact() {
    let items = [
        item(1, DiagnosticSeverity::Hint),
        item(2, DiagnosticSeverity::Info),
        item(3, DiagnosticSeverity::Error),
    ];
    let mut build = PendingGutterTroubleBuild::new(11, items.len());
    assert_eq!(build.advance(0, |index| Some(items[index])), 0);
    assert_eq!(build.mapped_items(), 0);
    assert_eq!(build.advance(1, |index| Some(items[index])), 1);
    assert_eq!(build.mapped_items(), 1);
    assert!(!build.is_complete());
    assert_eq!(build.advance(1, |index| Some(items[index])), 1);
    assert_eq!(build.mapped_items(), 2);
    assert!(!build.is_complete());
    assert_eq!(build.advance(50, |index| Some(items[index])), 1);
    assert_eq!(build.mapped_items(), 3);
    assert!(build.is_complete());
    assert_eq!(build.publish(11).unwrap().len(), 3);

    let mut partial = PendingGutterTroubleBuild::new(11, items.len());
    partial.advance(2, |index| Some(items[index]));
    assert!(partial.publish(11).is_none());

    let mut stale = PendingGutterTroubleBuild::new(11, items.len());
    stale.advance(usize::MAX, |index| Some(items[index]));
    assert!(stale.publish(12).is_none());
}

#[test]
fn snapshot_memory_is_compact_sorted_and_lookup_is_read_only() {
    let count = 10_000;
    let items: Vec<_> = (0..count).rev().map(|source_line| item(source_line, DiagnosticSeverity::Warning)).collect();
    let mut build = PendingGutterTroubleBuild::new(3, items.len());
    build.advance(count, |index| Some(items[index]));
    let snapshot = build.publish(3).unwrap();
    assert_eq!(snapshot.len(), count);
    assert!(!snapshot.is_empty());
    assert!(std::mem::size_of::<oom_edit::gutter::GutterTroubleEntry>() <= 24);
    for source_line in 0..count {
        assert_eq!(snapshot.severity(source_line), Some(DiagnosticSeverity::Warning));
    }
    assert_eq!(snapshot.severity(count), None);
}

#[test]
fn unprojected_items_mark_nothing() {
    let mut build = PendingGutterTroubleBuild::new(1, 3);
    build.advance(3, |index| if index == 1 { Some(item(4, DiagnosticSeverity::Error)) } else { None });
    let snapshot = build.publish(1).unwrap();
    assert_eq!(snapshot.len(), 1);
    assert_eq!(snapshot.severity(4), Some(DiagnosticSeverity::Error));
    assert_eq!(snapshot.severity(0), None);
}

#[test]
fn testing_snapshot_summarizes_pairs_and_clone_keeps_entries() {
    let snapshot = GutterTroubleSnapshot::testing(&vec![
        (5, DiagnosticSeverity::Info),
        (1, DiagnosticSeverity::Hint),
        (5, DiagnosticSeverity::Warning),
    ]);
    let copy = snapshot.clone();
    assert_eq!(copy, snapshot);
    assert_eq!(copy.severity(5), Some(DiagnosticSeverity::Warning));
    assert_eq!(copy.severity(1), Some(DiagnosticSeverity::Hint));
    assert!(GutterTroubleSnapshot::empty().is_empty());
}
