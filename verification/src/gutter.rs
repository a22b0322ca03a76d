//! Compact App-owned presentation state for diagnostic gutter markers.
//!
//! A resumable build maps published diagnostics to source lines in bounded
//! slices; when a line carries several diagnostics, the most severe wins.
//! The completed snapshot is a list sorted by source line.

use std::collections::BTreeMap;
use vstd::prelude::*;
use vstd::std_specs::iter::IteratorSpec;
use crate::keys::{severity_priority, spec_severity_priority, DiagnosticSeverity};

verus! {

/// One marker row retained by a completed snapshot.
#[derive(Clone, Copy, Debug, Eq, PartialEq, Structural)]
pub struct GutterTroubleEntry {
    pub source_line: usize,
    pub severity: DiagnosticSeverity,
}

/// One projected diagnostic: the source line it marks and its severity.
#[derive(Clone, Copy, Debug, Eq, PartialEq, Structural)]
pub struct GutterTroubleItem {
    pub source_line: usize,
    pub severity: DiagnosticSeverity,
}

/// Some projected item in `items` marks `line` with `severity`.
pub open spec fn spec_marks(items: Seq<Option<GutterTroubleItem>>, line: usize, severity: DiagnosticSeverity) -> bool {
    exists|i: int| 0 <= i < items.len() && #[trigger] items[i] == Some(GutterTroubleItem { source_line: line, severity })
}

/// The projected item is present and marks `line`.
pub open spec fn spec_on_line(item: Option<GutterTroubleItem>, line: usize) -> bool {
    match item {
        Some(x) => x.source_line == line,
        None => false,
    }
}

/// Some projected item in `items` marks `line`.
pub open spec fn spec_line_marked(items: Seq<Option<GutterTroubleItem>>, line: usize) -> bool {
    exists|i: int| 0 <= i < items.len() && spec_on_line(#[trigger] items[i], line)
}

/// `severity` is the marker of `line`: an item marks the line with it, and
/// no item marks the line with a more severe one.
pub open spec fn spec_highest(items: Seq<Option<GutterTroubleItem>>, line: usize, severity: DiagnosticSeverity) -> bool {
    &&& spec_marks(items, line, severity)
    &&& forall|i: int| 0 <= i < items.len() && spec_on_line(#[trigger] items[i], line)
        ==> spec_severity_priority(items[i]->Some_0.severity) <= spec_severity_priority(severity)
}

/// Entries sorted by strictly increasing source line.
pub open spec fn spec_sorted(entries: Seq<GutterTroubleEntry>) -> bool {
    forall|a: int, b: int| 0 <= a < b < entries.len() ==> #[trigger] entries[a].source_line < #[trigger] entries[b].source_line
}

/// The entries are exactly the highest-severity marker of every marked line.
pub open spec fn spec_summarizes(entries: Seq<GutterTroubleEntry>, items: Seq<Option<GutterTroubleItem>>) -> bool {
    &&& spec_sorted(entries)
    &&& forall|k: int| 0 <= k < entries.len() ==> spec_highest(items, #[trigger] entries[k].source_line, entries[k].severity)
    &&& forall|line: usize| #[trigger] spec_line_marked(items, line) ==> exists|k: int| 0 <= k < entries.len() && #[trigger] entries[k].source_line == line
}

/// The per-line summary as a map: exactly the marked lines, each with its
/// highest severity.
pub open spec fn spec_map_summarizes(m: Map<usize, DiagnosticSeverity>, items: Seq<Option<GutterTroubleItem>>) -> bool {
    &&& forall|line: usize|
        #![trigger m.contains_key(line)]
        #![trigger spec_line_marked(items, line)]
        m.contains_key(line) <==> spec_line_marked(items, line)
    &&& forall|line: usize| #[trigger] m.contains_key(line) ==> spec_highest(items, line, m[line])
}

/// The marker severity of `line` in sorted entries.
pub open spec fn spec_lookup(entries: Seq<GutterTroubleEntry>, line: usize) -> Option<DiagnosticSeverity> {
    if exists|k: int| 0 <= k < entries.len() && #[trigger] entries[k].source_line == line {
        Some(entries[choose|k: int| 0 <= k < entries.len() && #[trigger] entries[k].source_line == line].severity)
    } else {
        None
    }
}

/// The first position whose line is at least `line`, in sorted entries.
fn lower_bound(entries: &Vec<GutterTroubleEntry>, line: usize) -> (r: usize)
    requires
        spec_sorted(entries@),
    ensures
        r <= entries@.len(),
        forall|k: int| 0 <= k < r ==> #[trigger] entries@[k].source_line < line,
        forall|k: int| r <= k < entries@.len() ==> #[trigger] entries@[k].source_line >= line,
{
    let mut lo: usize = 0;
    let mut hi: usize = entries.len();
    while lo < hi
        invariant
            spec_sorted(entries@),
            lo <= hi <= entries@.len(),
            forall|k: int| 0 <= k < lo ==> #[trigger] entries@[k].source_line < line,
            forall|k: int| hi <= k < entries@.len() ==> #[trigger] entries@[k].source_line >= line,
        decreases hi - lo,
    {
        let mid = lo + (hi - lo) / 2;
        if entries[mid].source_line < line {
            lo = mid + 1;
        } else {
            hi = mid;
        }
    }
    lo
}

/// Lines in increasing order, as a walk of the summary map gives them,
/// strictly increase.
proof fn lemma_increasing_lines(lines: Seq<usize>)
    requires
        vstd::std_specs::btree::increasing_seq(lines),
    ensures
        forall|i: int, j: int| 0 <= i < j < lines.len() ==> #[trigger] lines[i] < #[trigger] lines[j],
{
    broadcast use vstd::laws_cmp::group_laws_cmp;

    assert forall|i: int, j: int| 0 <= i < j < lines.len() implies #[trigger] lines[i] < #[trigger] lines[j] by {
        assert(vstd::std_specs::cmp::OrdSpec::cmp_spec(&lines[i], &lines[j]) is Less);
    }
}

/// Immutable completed marker summary consumed by renderers.
#[derive(Debug, Eq, PartialEq)]
pub struct GutterTroubleSnapshot {
    entries: Vec<GutterTroubleEntry>,
}

impl Clone for GutterTroubleSnapshot {
    fn clone(&self) -> (r: Self)
        ensures
            r.spec_entries() == self.spec_entries(),
    {
        proof {
            use_type_invariant(self);
        }
        let mut entries: Vec<GutterTroubleEntry> = Vec::new();
        let mut i: usize = 0;
        while i < self.entries.len()
            invariant
                i <= self.entries@.len(),
                entries@ == self.entries@.subrange(0, i as int),
            decreases self.entries@.len() - i,
        {
            entries.push(self.entries[i]);
            i = i + 1;
            assert(entries@ =~= self.entries@.subrange(0, i as int));
        }
        assert(entries@ =~= self.entries@);
        GutterTroubleSnapshot { entries }
    }
}

impl GutterTroubleSnapshot {
    #[verifier::type_invariant]
    spec fn wf(self) -> bool {
        spec_sorted(self.entries@)
    }

    /// The marker rows, sorted by source line.
    pub closed spec fn spec_entries(self) -> Seq<GutterTroubleEntry> {
        self.entries@
    }

    /// An empty snapshot.
    pub fn empty() -> (r: Self)
        ensures
            r.spec_entries().len() == 0,
    {
        GutterTroubleSnapshot { entries: Vec::new() }
    }

    /// The marker severity of a source line, if it has one.
    pub fn severity(&self, source_line: usize) -> (r: Option<DiagnosticSeverity>)
        ensures
            r == spec_lookup(self.spec_entries(), source_line),
    {
        proof {
            use_type_invariant(self);
        }
        let p = lower_bound(&self.entries, source_line);
        if p < self.entries.len() && self.entries[p].source_line == source_line {
            proof {
                let c = choose|k: int| 0 <= k < self.entries@.len() && #[trigger] self.entries@[k].source_line == source_line;
                if c != p {
                    if c < p {
                        assert(self.entries@[c].source_line < self.entries@[p as int].source_line);
                    } else {
                        assert(self.entries@[p as int].source_line < self.entries@[c].source_line);
                    }
                }
            }
            Some(self.entries[p].severity)
        } else {
            None
        }
    }

    /// Number of marked lines.
    pub fn len(&self) -> (r: usize)
        ensures
            r == self.spec_entries().len(),
    {
        self.entries.len()
    }

    /// Whether no line is marked.
    pub fn is_empty(&self) -> (r: bool)
        ensures
            r == (self.spec_entries().len() == 0),
    {
        self.entries.len() == 0
    }

    /// A completed snapshot of a fully projected list of items.
    pub fn testing(items: &Vec<(usize, DiagnosticSeverity)>) -> (r: Self)
        ensures
            spec_summarizes(
                r.spec_entries(),
                items@.map_values(|p: (usize, DiagnosticSeverity)| Some(GutterTroubleItem { source_line: p.0, severity: p.1 })),
            ),
    {
        let ghost projected = items@.map_values(|p: (usize, DiagnosticSeverity)| Some(GutterTroubleItem { source_line: p.0, severity: p.1 }));
        let mut build = PendingGutterTroubleBuild::new(0, items.len());
        let project = |index: usize| -> (r: Option<GutterTroubleItem>)
            requires
                index < items@.len(),
            ensures
                r == Some(GutterTroubleItem { source_line: items@[index as int].0, severity: items@[index as int].1 }),
        {
            let (source_line, severity) = items[index];
            Some(GutterTroubleItem { source_line, severity })
        };
        build.advance(items.len(), project);
        proof {
            assert(build.spec_mapped() =~= projected) by {
                assert forall|i: int| 0 <= i < build.spec_mapped().len() implies build.spec_mapped()[i] == projected[i] by {
                    assert(call_ensures(project, (i as usize,), build.spec_mapped()[i]));
                }
            }
        }
        match build.publish(0) {
            Some(snapshot) => snapshot,
            None => GutterTroubleSnapshot::empty(),
        }
    }
}

/// Resumable highest-severity-per-line work tagged with its owning generation.
pub struct PendingGutterTroubleBuild {
    generation: u64,
    item_count: usize,
    next: usize,
    highest_by_line: BTreeMap<usize, DiagnosticSeverity>,
    mapped_items: usize,
    mapped: Ghost<Seq<Option<GutterTroubleItem>>>,
}

impl PendingGutterTroubleBuild {
    /// Well-formedness: the summary covers exactly the items mapped so far.
    pub closed spec fn wf(self) -> bool {
        &&& self.next <= self.item_count
        &&& self.mapped_items == self.next
        &&& self.mapped@.len() == self.next
        &&& spec_map_summarizes(self.highest_by_line@, self.mapped@)
    }

    /// The owning generation.
    pub closed spec fn spec_generation(self) -> u64 {
        self.generation
    }

    /// The number of items of the publication.
    pub closed spec fn spec_item_count(self) -> usize {
        self.item_count
    }

    /// The projections of the items mapped so far, in index order.
    pub closed spec fn spec_mapped(self) -> Seq<Option<GutterTroubleItem>> {
        self.mapped@
    }

    /// A build over `item_count` items owned by `generation`.
    pub fn new(generation: u64, item_count: usize) -> (r: Self)
        ensures
            r.wf(),
            r.spec_generation() == generation,
            r.spec_item_count() == item_count,
            r.spec_mapped().len() == 0,
    {
        PendingGutterTroubleBuild {
            generation,
            item_count,
            next: 0,
            highest_by_line: BTreeMap::new(),
            mapped_items: 0,
            mapped: Ghost(Seq::empty()),
        }
    }

    /// Fold one projected item into the per-line summary.
    fn fold_item(
        map: &mut BTreeMap<usize, DiagnosticSeverity>,
        mapped: Ghost<Seq<Option<GutterTroubleItem>>>,
        item: Option<GutterTroubleItem>,
    )
        requires
            spec_map_summarizes(old(map)@, mapped@),
        ensures
            spec_map_summarizes(final(map)@, mapped@.push(item)),
    {
        broadcast use vstd::laws_cmp::group_laws_cmp;

        let ghost before = map@;
        match item {
            None => {
                proof {
                    Self::lemma_fold_none(before, mapped@);
                }
            },
            Some(it) => {
                let current: Option<DiagnosticSeverity> = match map.get(&it.source_line) {
                    Some(severity) => Some(*severity),
                    None => None,
                };
                match current {
                    Some(severity) => {
                        if severity_priority(it.severity) > severity_priority(severity) {
                            map.insert(it.source_line, it.severity);
                        }
                    },
                    None => {
                        map.insert(it.source_line, it.severity);
                    },
                }
                proof {
                    Self::lemma_fold_some(before, map@, mapped@, it);
                }
            },
        }
    }

    /// An absent projection leaves the summary as it is.
    proof fn lemma_fold_none(m: Map<usize, DiagnosticSeverity>, mapped: Seq<Option<GutterTroubleItem>>)
        requires
            spec_map_summarizes(m, mapped),
        ensures
            spec_map_summarizes(m, mapped.push(None)),
    {
        let items = mapped.push(None);
        assert forall|i: int| 0 <= i < mapped.len() implies #[trigger] items[i] == mapped[i] by {}
        assert forall|line: usize| spec_line_marked(items, line) == spec_line_marked(mapped, line) by {
            if spec_line_marked(items, line) {
                let w = choose|i: int| 0 <= i < items.len() && spec_on_line(#[trigger] items[i], line);
                assert(mapped[w] == items[w]);
            }
            if spec_line_marked(mapped, line) {
                let w = choose|i: int| 0 <= i < mapped.len() && spec_on_line(#[trigger] mapped[i], line);
                assert(mapped[w] == items[w]);
            }
        }
        assert forall|line: usize| #[trigger] m.contains_key(line) implies spec_highest(items, line, m[line]) by {
            assert(spec_highest(mapped, line, m[line]));
            let w = choose|i: int| 0 <= i < mapped.len() && #[trigger] mapped[i] == Some(GutterTroubleItem { source_line: line, severity: m[line] });
            assert(items[w] == mapped[w]);
        }
    }

    /// A present projection marks its line: the line keeps the more severe
    /// of its old marker and the new one.
    proof fn lemma_fold_some(
        m: Map<usize, DiagnosticSeverity>,
        m2: Map<usize, DiagnosticSeverity>,
        mapped: Seq<Option<GutterTroubleItem>>,
        it: GutterTroubleItem,
    )
        requires
            spec_map_summarizes(m, mapped),
            m2 == (if m.contains_key(it.source_line) && spec_severity_priority(it.severity) <= spec_severity_priority(m[it.source_line]) {
                m
            } else {
                m.insert(it.source_line, it.severity)
            }),
        ensures
            spec_map_summarizes(m2, mapped.push(Some(it))),
    {
        let items = mapped.push(Some(it));
        let l = it.source_line;
        let n = mapped.len() as int;
        assert forall|i: int| 0 <= i < mapped.len() implies #[trigger] items[i] == mapped[i] by {}
        assert(items[n] == Some(it));
        assert forall|line: usize| line != l implies spec_line_marked(items, line) == spec_line_marked(mapped, line) by {
            if spec_line_marked(items, line) {
                let w = choose|i: int| 0 <= i < items.len() && spec_on_line(#[trigger] items[i], line);
                assert(mapped[w] == items[w]);
            }
            if spec_line_marked(mapped, line) {
                let w = choose|i: int| 0 <= i < mapped.len() && spec_on_line(#[trigger] mapped[i], line);
                assert(mapped[w] == items[w]);
            }
        }
        assert(spec_line_marked(items, l)) by {
            assert(spec_on_line(items[n], l));
        }
        assert forall|line: usize| #[trigger] m2.contains_key(line) implies spec_highest(items, line, m2[line]) by {
            if line != l {
                assert(spec_highest(mapped, line, m[line]));
                let w = choose|i: int| 0 <= i < mapped.len() && #[trigger] mapped[i] == Some(GutterTroubleItem { source_line: line, severity: m[line] });
                assert(items[w] == mapped[w]);
            } else if m.contains_key(l) && spec_severity_priority(it.severity) <= spec_severity_priority(m[l]) {
                assert(spec_highest(mapped, l, m[l]));
                let w = choose|i: int| 0 <= i < mapped.len() && #[trigger] mapped[i] == Some(GutterTroubleItem { source_line: l, severity: m[l] });
                assert(items[w] == mapped[w]);
            } else {
                assert(items[n] == Some(GutterTroubleItem { source_line: l, severity: it.severity }));
                assert forall|i: int| 0 <= i < items.len() && spec_on_line(#[trigger] items[i], l)
                    implies spec_severity_priority(items[i]->Some_0.severity) <= spec_severity_priority(it.severity) by {
                    if i < n {
                        assert(items[i] == mapped[i]);
                        assert(spec_line_marked(mapped, l));
                        assert(m.contains_key(l));
                        assert(spec_highest(mapped, l, m[l]));
                    }
                }
            }
        }
        assert forall|line: usize| #[trigger] m2.contains_key(line) <==> spec_line_marked(items, line) by {
            if line != l {
                assert(m2.contains_key(line) == m.contains_key(line));
                assert(m.contains_key(line) <==> spec_line_marked(mapped, line));
            }
        }
    }

    /// Walking the summary map in increasing line order gives the sorted
    /// summary of the same items.
    proof fn lemma_published(
        m: Map<usize, DiagnosticSeverity>,
        pairs: Seq<(&usize, &DiagnosticSeverity)>,
        entries: Seq<GutterTroubleEntry>,
        mapped: Seq<Option<GutterTroubleItem>>,
    )
        requires
            spec_map_summarizes(m, mapped),
            forall|i: int| 0 <= i < pairs.len() ==> m.contains_key(*(#[trigger] pairs[i]).0) && m[*pairs[i].0] == *pairs[i].1,
            forall|k: usize| #[trigger] m.contains_key(k) ==> pairs.contains((&k, &m[k])),
            forall|i: int, j: int| 0 <= i < j < pairs.len() ==> *(#[trigger] pairs[i]).0 < *(#[trigger] pairs[j]).0,
            entries.len() == pairs.len(),
            forall|j: int| 0 <= j < entries.len() ==> #[trigger] entries[j] == (GutterTroubleEntry {
                source_line: *pairs[j].0,
                severity: *pairs[j].1,
            }),
        ensures
            spec_summarizes(entries, mapped),
    {
        assert forall|a: int, b: int| 0 <= a < b < entries.len() implies #[trigger] entries[a].source_line < #[trigger] entries[b].source_line by {
            assert(*pairs[a].0 < *pairs[b].0);
        }
        assert forall|k: int| 0 <= k < entries.len() implies spec_highest(mapped, #[trigger] entries[k].source_line, entries[k].severity) by {
            assert(m.contains_key(*pairs[k].0));
        }
        assert forall|line: usize| #[trigger] spec_line_marked(mapped, line) implies exists|k: int| 0 <= k < entries.len() && #[trigger] entries[k].source_line == line by {
            assert(m.contains_key(line));
            assert(pairs.contains((&line, &m[line])));
            let k = choose|k: int| 0 <= k < pairs.len() && pairs[k] == (&line, &m[line]);
            assert(entries[k].source_line == line);
        }
    }

    /// Request and map at most `item_budget` items, in index order, through
    /// `project`; returns how many were mapped.
    pub fn advance<F: Fn(usize) -> Option<GutterTroubleItem>>(&mut self, item_budget: usize, project: F) -> (r: usize)
        requires
            old(self).wf(),
            forall|i: usize| old(self).spec_mapped().len() <= i < old(self).spec_item_count() ==> call_requires(project, (i,)),
        ensures
            final(self).wf(),
            final(self).spec_generation() == old(self).spec_generation(),
            final(self).spec_item_count() == old(self).spec_item_count(),
            r == (if old(self).spec_mapped().len() + item_budget <= old(self).spec_item_count() {
                item_budget as int
            } else {
                old(self).spec_item_count() - old(self).spec_mapped().len()
            }),
            final(self).spec_mapped().len() == old(self).spec_mapped().len() + r,
            final(self).spec_mapped().subrange(0, old(self).spec_mapped().len() as int) == old(self).spec_mapped(),
            forall|i: int| old(self).spec_mapped().len() <= i < final(self).spec_mapped().len()
                ==> call_ensures(project, (i as usize,), #[trigger] final(self).spec_mapped()[i]),
    {
        let start = self.next;
        let end = if self.item_count - start <= item_budget { self.item_count } else { start + item_budget };
        if end == start {
            return 0;
        }
        let mut entries: BTreeMap<usize, DiagnosticSeverity> = BTreeMap::new();
        std::mem::swap(&mut entries, &mut self.highest_by_line);
        let ghost mut mapped = self.mapped@;
        let ghost initial_mapped = self.mapped@;
        let mut index = start;
        while index < end
            invariant
                start <= index <= end,
                end <= old(self).spec_item_count(),
                initial_mapped == old(self).spec_mapped(),
                start == initial_mapped.len(),
                mapped.len() == index,
                mapped.subrange(0, start as int) == initial_mapped,
                spec_map_summarizes(entries@, mapped),
                forall|i: usize| initial_mapped.len() <= i < old(self).spec_item_count() ==> call_requires(project, (i,)),
                forall|i: int| start <= i < index ==> call_ensures(project, (i as usize,), #[trigger] mapped[i]),
            decreases end - index,
        {
            let item = project(index);
            Self::fold_item(&mut entries, Ghost(mapped), item);
            proof {
                let m2 = mapped.push(item);
                assert(m2.subrange(0, start as int) =~= mapped.subrange(0, start as int));
                assert forall|i: int| start <= i < index + 1 implies call_ensures(project, (i as usize,), #[trigger] m2[i]) by {
                    if i < index {
                        assert(m2[i] == mapped[i]);
                    }
                }
                mapped = m2;
            }
            index = index + 1;
        }
        self.highest_by_line = entries;
        self.next = end;
        self.mapped_items = end;
        self.mapped = Ghost(mapped);
        end - start
    }

    /// Whether every item has been mapped.
    pub fn is_complete(&self) -> (r: bool)
        requires
            self.wf(),
        ensures
            r == (self.spec_mapped().len() == self.spec_item_count()),
    {
        self.next == self.item_count
    }

    /// Number of items mapped so far.
    pub fn mapped_items(&self) -> (r: usize)
        requires
            self.wf(),
        ensures
            r == self.spec_mapped().len(),
    {
        self.mapped_items
    }

    /// Publish a complete result belonging to the current owner generation:
    /// the highest-severity marker of every marked line, sorted by line.
    pub fn publish(self, current_generation: u64) -> (r: Option<GutterTroubleSnapshot>)
        requires
            self.wf(),
        ensures
            match r {
                Some(snapshot) => self.spec_mapped().len() == self.spec_item_count()
                    && self.spec_generation() == current_generation && spec_summarizes(
                    snapshot.spec_entries(),
                    self.spec_mapped(),
                ),
                None => self.spec_mapped().len() != self.spec_item_count()
                    || self.spec_generation() != current_generation,
            },
    {
        if self.next != self.item_count || self.generation != current_generation {
            return None;
        }
        let ghost m = self.highest_by_line@;
        let ghost mapped = self.mapped@;
        let mut entries: Vec<GutterTroubleEntry> = Vec::new();
        let lines = self.highest_by_line.iter();
        let ghost pairs = lines.remaining();
        for kv in it: lines
            invariant
                entries@.len() == it.index(),
                forall|j: int| 0 <= j < it.index() ==> #[trigger] entries@[j] == (GutterTroubleEntry {
                    source_line: *it.seq()[j].0,
                    severity: *it.seq()[j].1,
                }),
        {
            let (line, severity) = kv;
            entries.push(GutterTroubleEntry { source_line: *line, severity: *severity });
        }
        proof {
            broadcast use vstd::laws_cmp::group_laws_cmp;
            let keys = pairs.map_values(|kv: (&usize, &DiagnosticSeverity)| *kv.0);
            assert(vstd::std_specs::btree::increasing_seq(keys));
            lemma_increasing_lines(keys);
            assert forall|i: int, j: int| 0 <= i < j < pairs.len() implies *(#[trigger] pairs[i]).0 < *(#[trigger] pairs[j]).0 by {
                assert(keys[i] == *pairs[i].0 && keys[j] == *pairs[j].0);
            }
            Self::lemma_published(m, pairs, entries@, mapped);
        }
        Some(GutterTroubleSnapshot { entries })
    }
}

/// The marker of a line in a summary is its highest-severity diagnostic,
/// and unmarked lines have none.
pub proof fn lemma_highest_severity_wins(
    entries: Seq<GutterTroubleEntry>,
    items: Seq<Option<GutterTroubleItem>>,
    line: usize,
)
    requires
        spec_summarizes(entries, items),
    ensures
        match spec_lookup(entries, line) {
            Some(severity) => spec_highest(items, line, severity),
            None => !spec_line_marked(items, line),
        },
{
    if spec_line_marked(items, line) {
        let k = choose|k: int| 0 <= k < entries.len() && #[trigger] entries[k].source_line == line;
        assert(entries[k].source_line == line);
    }
    if exists|k: int| 0 <= k < entries.len() && #[trigger] entries[k].source_line == line {
        let c = choose|k: int| 0 <= k < entries.len() && #[trigger] entries[k].source_line == line;
        assert(spec_highest(items, entries[c].source_line, entries[c].severity));
    }
}

/// The display role of a gutter marker.
#[derive(Clone, Copy, Debug, Eq, PartialEq, Structural)]
pub enum GutterMarkerRole {
    Error,
    Warning,
    Info,
    Muted,
}

/// How a gutter marker's glyph is emphasised.
#[derive(Clone, Copy, Debug, Eq, PartialEq, Structural)]
pub enum MarkerEmphasis {
    /// Drawn bold.
    Bold,
}

/// The glyph, role and emphasis that mark a line in the gutter.
#[derive(Clone, Copy, Debug, Eq, PartialEq, Structural)]
pub struct GutterMarkerStyle {
    pub glyph: char,
    pub role: GutterMarkerRole,
    pub emphasis: MarkerEmphasis,
}

/// The marker for a severity: `E`, `W`, `I`, or `H`, with a matching role,
/// drawn bold.
pub fn marker_style(severity: DiagnosticSeverity) -> (r: GutterMarkerStyle)
    ensures
        (r.glyph, r.role) == (match severity {
            DiagnosticSeverity::Error => ('E', GutterMarkerRole::Error),
            DiagnosticSeverity::Warning => ('W', GutterMarkerRole::Warning),
            DiagnosticSeverity::Info => ('I', GutterMarkerRole::Info),
            DiagnosticSeverity::Hint => ('H', GutterMarkerRole::Muted),
        }),
        r.emphasis == MarkerEmphasis::Bold,
{
    let (glyph, role) = match severity {
        DiagnosticSeverity::Error => ('E', GutterMarkerRole::Error),
        DiagnosticSeverity::Warning => ('W', GutterMarkerRole::Warning),
        DiagnosticSeverity::Info => ('I', GutterMarkerRole::Info),
        DiagnosticSeverity::Hint => ('H', GutterMarkerRole::Muted),
    };
    GutterMarkerStyle { glyph, role, emphasis: MarkerEmphasis::Bold }
}

} // verus!
