//! The per-language aggregate: reports folded into running totals, the
//! breakdown of embedded languages gathered from their blobs, snapshots
//! and summaries, and the stable presentation ordering of reports.

use vstd::prelude::*;
use vstd::seq_lib::lemma_fold_left_permutation;
use vstd::seq_lib::commutative_foldl;

use crate::language_type::LanguageType;
use crate::sort::Sort;
use crate::stats::Counts;
use crate::stats::CodeStats;
use crate::stats::Report;
use crate::stats::ReportView;
use crate::stats::StatsView;
use crate::stats::blobs_sum;
use crate::stats::lemma_blobs_of;
use crate::stats::lemma_blobs_wf_index;

verus! {

/// The mathematical value of a `Language`: its running totals, the
/// reports folded into it, the reports of embedded languages gathered
/// from those reports' blobs, and the accuracy flag.
#[verifier::ext_equal]
pub ghost struct LanguageView {
    pub blanks: int,
    pub code: int,
    pub comments: int,
    pub reports: Seq<ReportView>,
    pub children: Seq<(LanguageType, Seq<ReportView>)>,
    pub inaccurate: bool,
}

/// The folding step of `reports_sum`.
pub open spec fn counts_folder() -> spec_fn(Counts, ReportView) -> Counts {
    |c: Counts, r: ReportView| c.add(r.stats.counts())
}

/// The total of the reports' own counters, nested blobs not included.
pub open spec fn reports_sum(rs: Seq<ReportView>) -> Counts {
    rs.fold_left(Counts::zero(), counts_folder())
}

/// Every report in the run is well-formed.
pub open spec fn reports_wf(rs: Seq<ReportView>) -> bool {
    forall|i: int| 0 <= i < rs.len() ==> (#[trigger] rs[i]).wf()
}

/// Each embedded language has at most one entry in the breakdown.
pub open spec fn unique_child_keys(cs: Seq<(LanguageType, Seq<ReportView>)>) -> bool {
    forall|i: int, j: int| 0 <= i < j < cs.len() ==> (#[trigger] cs[i]).0 != (#[trigger] cs[j]).0
}

/// The embedded-language breakdown is well-formed: keys are unique and
/// the gathered reports are well-formed.
pub open spec fn children_wf(cs: Seq<(LanguageType, Seq<ReportView>)>) -> bool {
    &&& unique_child_keys(cs)
    &&& forall|i: int| 0 <= i < cs.len() ==> reports_wf((#[trigger] cs[i]).1)
}

/// The position of the entry for `ty`, or `-1` if there is none.
pub open spec fn child_index(cs: Seq<(LanguageType, Seq<ReportView>)>, ty: LanguageType) -> int
    decreases cs,
{
    if cs.len() == 0 {
        -1
    } else if cs.first().0 == ty {
        0
    } else {
        let rest = child_index(cs.drop_first(), ty);
        if rest < 0 {
            -1
        } else {
            rest + 1
        }
    }
}

pub proof fn lemma_child_index(cs: Seq<(LanguageType, Seq<ReportView>)>, ty: LanguageType)
    ensures
        child_index(cs, ty) < 0 ==> forall|i: int|
            0 <= i < cs.len() ==> (#[trigger] cs[i]).0 != ty,
        child_index(cs, ty) >= 0 ==> child_index(cs, ty) < cs.len() && cs[child_index(
            cs,
            ty,
        )].0 == ty,
    decreases cs,
{
    if cs.len() > 0 && cs.first().0 != ty {
        lemma_child_index(cs.drop_first(), ty);
        if child_index(cs.drop_first(), ty) < 0 {
            assert forall|i: int| 0 <= i < cs.len() implies (#[trigger] cs[i]).0 != ty by {
                if i > 0 {
                    assert(cs.drop_first()[i - 1] == cs[i]);
                }
            }
        } else {
            assert(cs.drop_first()[child_index(cs.drop_first(), ty)] == cs[child_index(cs, ty)]);
        }
    }
}

/// One gathered report appended to the breakdown entry of `ty`; the
/// entry is created if it is not present yet.
pub open spec fn append_child(
    cs: Seq<(LanguageType, Seq<ReportView>)>,
    ty: LanguageType,
    rv: ReportView,
) -> Seq<(LanguageType, Seq<ReportView>)> {
    let idx = child_index(cs, ty);
    if idx < 0 {
        cs.push((ty, seq![rv]))
    } else {
        cs.update(idx, (ty, cs[idx].1.push(rv)))
    }
}

/// The breakdown after gathering one report's blobs, in blob order: for
/// each embedded language a synthetic report with the same path and that
/// blob's statistics.
pub open spec fn add_blobs_spec(
    cs: Seq<(LanguageType, Seq<ReportView>)>,
    name: Seq<char>,
    blobs: Seq<(LanguageType, StatsView)>,
) -> Seq<(LanguageType, Seq<ReportView>)>
    decreases blobs,
{
    if blobs.len() == 0 {
        cs
    } else {
        append_child(
            add_blobs_spec(cs, name, blobs.drop_last()),
            blobs.last().0,
            ReportView { name, stats: blobs.last().1 },
        )
    }
}

pub proof fn lemma_append_child_wf(
    cs: Seq<(LanguageType, Seq<ReportView>)>,
    ty: LanguageType,
    rv: ReportView,
)
    requires
        children_wf(cs),
        rv.wf(),
    ensures
        children_wf(append_child(cs, ty, rv)),
{
    lemma_child_index(cs, ty);
    let r = append_child(cs, ty, rv);
    let idx = child_index(cs, ty);
    if idx < 0 {
        assert forall|i: int| 0 <= i < r.len() implies reports_wf((#[trigger] r[i]).1) by {
            if i < cs.len() {
                assert(r[i] == cs[i]);
            } else {
                assert(r[i].1 =~= seq![rv]);
            }
        }
    } else {
        assert forall|i: int| 0 <= i < r.len() implies reports_wf((#[trigger] r[i]).1) by {
            if i != idx {
                assert(r[i] == cs[i]);
            } else {
                assert(r[i].1 == cs[idx].1.push(rv));
            }
        }
        assert(unique_child_keys(r));
    }
}

pub proof fn lemma_add_blobs_wf(
    cs: Seq<(LanguageType, Seq<ReportView>)>,
    name: Seq<char>,
    blobs: Seq<(LanguageType, StatsView)>,
)
    requires
        children_wf(cs),
        crate::stats::blobs_wf(blobs),
    ensures
        children_wf(add_blobs_spec(cs, name, blobs)),
    decreases blobs,
{
    if blobs.len() > 0 {
        lemma_add_blobs_wf(cs, name, blobs.drop_last());
        assert(blobs.last().1.wf());
        lemma_append_child_wf(
            add_blobs_spec(cs, name, blobs.drop_last()),
            blobs.last().0,
            ReportView { name, stats: blobs.last().1 },
        );
    }
}

impl LanguageView {
    pub open spec fn lines(self) -> int {
        self.blanks + self.code + self.comments
    }

    pub open spec fn counts(self) -> Counts {
        Counts { blanks: self.blanks, code: self.code, comments: self.comments }
    }

    /// Structural well-formedness: every report and every gathered
    /// child report is well-formed, and child keys are unique.
    pub open spec fn wf(self) -> bool {
        &&& reports_wf(self.reports)
        &&& children_wf(self.children)
    }

    /// The running totals agree with the sum over the reports.  This
    /// holds for every language built up by `add_report`; the synthetic
    /// snapshot that `Languages::total` returns does not maintain it,
    /// carrying grand totals and no reports instead.
    pub open spec fn totals_match(self) -> bool {
        self.counts() == reports_sum(self.reports)
    }

    pub open spec fn empty() -> LanguageView {
        LanguageView {
            blanks: 0,
            code: 0,
            comments: 0,
            reports: Seq::empty(),
            children: Seq::empty(),
            inaccurate: false,
        }
    }
}

/// `reports_sum` grows by one report's counters at a time.
pub proof fn lemma_reports_sum_push(rs: Seq<ReportView>, r: ReportView)
    ensures
        reports_sum(rs.push(r)) == reports_sum(rs).add(r.stats.counts()),
{
    assert(rs.push(r).drop_last() =~= rs);
    assert(rs.push(r).last() == r);
}

/// Two runs that hold the same reports as multisets have equal sums.
pub proof fn lemma_reports_sum_permutation(rs1: Seq<ReportView>, rs2: Seq<ReportView>)
    requires
        rs1.to_multiset() == rs2.to_multiset(),
    ensures
        reports_sum(rs1) == reports_sum(rs2),
{
    assert(commutative_foldl(counts_folder()));
    lemma_fold_left_permutation(rs1, rs2, counts_folder(), Counts::zero());
}

/// The aggregate that arises when a run of reports is folded, in order,
/// into a fresh language.
pub open spec fn fold_reports(rs: Seq<ReportView>) -> LanguageView
    decreases rs,
{
    if rs.len() == 0 {
        LanguageView::empty()
    } else {
        lang_add_report(fold_reports(rs.drop_last()), rs.last())
    }
}

/// Folding a run of reports into a fresh language accumulates exactly
/// the reports and the sum of their counters.
pub proof fn lemma_fold_reports(rs: Seq<ReportView>)
    ensures
        fold_reports(rs).reports == rs,
        fold_reports(rs).counts() == reports_sum(rs),
        fold_reports(rs).inaccurate == false,
    decreases rs,
{
    if rs.len() > 0 {
        lemma_fold_reports(rs.drop_last());
        assert(rs.drop_last().push(rs.last()) =~= rs);
        lemma_reports_sum_push(rs.drop_last(), rs.last());
        assert(fold_reports(rs).counts() =~= reports_sum(rs));
    } else {
        assert(fold_reports(rs).counts() =~= reports_sum(rs));
    }
}

/// Merge order does not matter: folding the same reports into a fresh
/// language in any two orders gives identical totals.
pub proof fn lemma_fold_reports_permutation(rs1: Seq<ReportView>, rs2: Seq<ReportView>)
    requires
        rs1.to_multiset() == rs2.to_multiset(),
    ensures
        fold_reports(rs1).counts() == fold_reports(rs2).counts(),
{
    lemma_fold_reports(rs1);
    lemma_fold_reports(rs2);
    lemma_reports_sum_permutation(rs1, rs2);
}

/// Partial sums of reports never exceed the full sum.
pub proof fn lemma_reports_sum_take(rs: Seq<ReportView>, i: int)
    requires
        0 <= i < rs.len(),
    ensures
        reports_sum(rs.take(i + 1)) == reports_sum(rs.take(i)).add(rs[i].stats.counts()),
{
    assert(rs.take(i + 1).drop_last() =~= rs.take(i));
    assert(rs.take(i + 1).last() == rs[i]);
}

pub proof fn lemma_reports_sum_non_negative(rs: Seq<ReportView>)
    requires
        reports_wf(rs),
    ensures
        reports_sum(rs).non_negative(),
    decreases rs.len(),
{
    if rs.len() > 0 {
        assert(rs.drop_last() =~= rs.take(rs.len() - 1));
        assert forall|i: int| 0 <= i < rs.drop_last().len() implies (#[trigger] rs.drop_last()[i]).wf() by {
            assert(rs.drop_last()[i] == rs[i]);
        }
        lemma_reports_sum_non_negative(rs.drop_last());
        assert(rs.last().wf());
        assert(reports_sum(rs) == reports_sum(rs.drop_last()).add(rs.last().stats.counts()));
    }
}

pub proof fn lemma_reports_sum_bounded(rs: Seq<ReportView>, i: int)
    requires
        reports_wf(rs),
        0 <= i <= rs.len(),
    ensures
        reports_sum(rs.take(i)).blanks <= reports_sum(rs).blanks,
        reports_sum(rs.take(i)).code <= reports_sum(rs).code,
        reports_sum(rs.take(i)).comments <= reports_sum(rs).comments,
    decreases rs.len() - i,
{
    if i == rs.len() {
        assert(rs.take(i) =~= rs);
    } else {
        lemma_reports_sum_take(rs, i);
        assert(rs[i].wf());
        lemma_reports_sum_bounded(rs, i + 1);
    }
}

/// Aggregated statistics of every report classified as one language,
/// together with a breakdown of the languages embedded in those reports.
pub struct Language {
    blanks: usize,
    code: usize,
    comments: usize,
    reports: Vec<Report>,
    children: Vec<(LanguageType, Vec<Report>)>,
    inaccurate: bool,
}

pub open spec fn reports_view(v: Seq<Report>) -> Seq<ReportView> {
    Seq::new(v.len(), |i: int| v[i]@)
}

pub open spec fn children_view(c: Seq<(LanguageType, Vec<Report>)>) -> Seq<
    (LanguageType, Seq<ReportView>),
> {
    Seq::new(c.len(), |i: int| (c[i].0, reports_view(c[i].1@)))
}

impl View for Language {
    type V = LanguageView;

    closed spec fn view(&self) -> LanguageView {
        LanguageView {
            blanks: self.blanks as int,
            code: self.code as int,
            comments: self.comments as int,
            reports: reports_view(self.reports@),
            children: children_view(self.children@),
            inaccurate: self.inaccurate,
        }
    }
}

impl Language {
    /// Creates an empty language: zero totals, no reports, no children,
    /// accurate.
    pub fn new() -> (r: Language)
        ensures
            r@ == LanguageView::empty(),
            r@.wf(),
            r@.totals_match(),
    {
        let r = Language {
            blanks: 0,
            code: 0,
            comments: 0,
            reports: Vec::new(),
            children: Vec::new(),
            inaccurate: false,
        };
        proof {
            assert(r@ =~= LanguageView::empty());
        }
        r
    }

    /// The total number of blank lines over all reports.
    pub fn blanks(&self) -> (r: usize)
        ensures
            r == self@.blanks,
    {
        self.blanks
    }

    /// The total number of lines of code over all reports.
    pub fn code(&self) -> (r: usize)
        ensures
            r == self@.code,
    {
        self.code
    }

    /// The total number of comment lines over all reports.
    pub fn comments(&self) -> (r: usize)
        ensures
            r == self@.comments,
    {
        self.comments
    }

    /// Whether at least one contributing file could not be classified
    /// with confidence.
    pub fn inaccurate(&self) -> (r: bool)
        ensures
            r == self@.inaccurate,
    {
        self.inaccurate
    }

    /// The total number of lines over all reports.
    pub fn lines(&self) -> (r: usize)
        requires
            self@.lines() <= usize::MAX,
        ensures
            r == self@.lines(),
    {
        self.blanks + self.code + self.comments
    }

    /// Whether no report has been folded in yet.  True exactly when the
    /// reports collection is empty.
    pub fn is_empty(&self) -> (r: bool)
        ensures
            r == (self@.reports.len() == 0),
    {
        self.reports.len() == 0
    }

    /// The number of reports, that is, of files.
    pub fn files(&self) -> (r: usize)
        ensures
            r == self@.reports.len(),
    {
        self.reports.len()
    }

    /// The reports folded into this language so far.
    pub fn reports(&self) -> (r: &Vec<Report>)
        ensures
            reports_view(r@) == self@.reports,
    {
        &self.reports
    }

    /// The breakdown of embedded languages gathered from the reports.
    pub fn children(&self) -> (r: &Vec<(LanguageType, Vec<Report>)>)
        ensures
            children_view(r@) == self@.children,
    {
        &self.children
    }

    /// Marks this language as possibly not reflecting correct counts.
    /// The flag is never cleared again.
    pub fn mark_inaccurate(&mut self)
        ensures
            final(self)@ == (LanguageView { inaccurate: true, ..old(self)@ }),
    {
        self.inaccurate = true;
        proof {
            assert(self@ =~= LanguageView { inaccurate: true, ..old(self)@ });
        }
    }

    /// Folds one report into this language: the report is appended, its
    /// own counters are added to the running totals, and for every
    /// embedded-language blob a synthetic report with the same path is
    /// appended to that language's breakdown entry.  Blob counters are
    /// *not* added to the totals, so a file and the languages embedded
    /// in it are never double-counted.  The accuracy flag is untouched:
    /// once set, no amount of further reports clears it.
    pub fn add_report(&mut self, report: Report)
        requires
            old(self)@.wf(),
            old(self)@.totals_match(),
            report@.wf(),
            old(self)@.blanks + report@.stats.blanks <= usize::MAX,
            old(self)@.code + report@.stats.code <= usize::MAX,
            old(self)@.comments + report@.stats.comments <= usize::MAX,
        ensures
            final(self)@.blanks == old(self)@.blanks + report@.stats.blanks,
            final(self)@.code == old(self)@.code + report@.stats.code,
            final(self)@.comments == old(self)@.comments + report@.stats.comments,
            final(self)@.reports == old(self)@.reports.push(report@),
            final(self)@.children == add_blobs_spec(
                old(self)@.children,
                report@.name,
                report@.stats.blobs,
            ),
            final(self)@.inaccurate == old(self)@.inaccurate,
            final(self)@.wf(),
            final(self)@.totals_match(),
    {
        proof {
            assert(report@.stats.counts().non_negative());
        }
        let ghost old_children = self@.children;
        let ghost rname = report@.name;
        let ghost rblobs = report@.stats.blobs;
        {
            let stats = report.stats();
            let blobs = stats.blobs();
            proof {
                lemma_blobs_of(blobs@);
            }
            let n = blobs.len();
            let mut i: usize = 0;
            while i < n
                invariant
                    n == blobs@.len(),
                    rblobs.len() == n,
                    rname == report@.name,
                    rblobs == report@.stats.blobs,
                    i <= n,
                    forall|j: int|
                        0 <= j < n ==> rblobs[j] == ((#[trigger] blobs@[j]).0, blobs@[j].1@),
                    crate::stats::blobs_wf(rblobs),
                    children_wf(old_children),
                    self@.children == add_blobs_spec(old_children, rname, rblobs.take(i as int)),
                    self@.blanks == old(self)@.blanks,
                    self@.code == old(self)@.code,
                    self@.comments == old(self)@.comments,
                    self@.reports == old(self)@.reports,
                    self@.inaccurate == old(self)@.inaccurate,
                    self.blanks == old(self).blanks,
                    self.code == old(self).code,
                    self.comments == old(self).comments,
                decreases n - i,
            {
                proof {
                    lemma_blobs_wf_index(rblobs, i as int);
                    crate::stats::lemma_blobs_wf_take(rblobs, i as int);
                    lemma_add_blobs_wf(old_children, rname, rblobs.take(i as int));
                    assert(rblobs.take(i + 1).drop_last() =~= rblobs.take(i as int));
                    assert(rblobs.take(i + 1).last() == rblobs[i as int]);
                }
                let b = &blobs[i];
                let child_stats = b.1.duplicate();
                let child = Report::with_stats(report.name(), child_stats);
                proof {
                    assert(child@ =~= (ReportView { name: rname, stats: rblobs[i as int].1 }));
                }
                let ghost mid_children = self@.children;
                self.push_child(b.0, child);
                proof {
                    assert(self@.children == append_child(
                        mid_children,
                        rblobs[i as int].0,
                        (ReportView { name: rname, stats: rblobs[i as int].1 }),
                    ));
                    assert(self@.children == add_blobs_spec(old_children, rname, rblobs.take(i + 1)));
                }
                i = i + 1;
            }
            proof {
                assert(rblobs.take(n as int) =~= rblobs);
            }
        }
        self.blanks = self.blanks + report.stats().blanks();
        self.code = self.code + report.stats().code();
        self.comments = self.comments + report.stats().comments();
        self.reports.push(report);
        proof {
            assert(self@.reports =~= old(self)@.reports.push(report@));
            lemma_reports_sum_push(old(self)@.reports, report@);
            lemma_add_blobs_wf(old_children, rname, rblobs);
            assert forall|j: int|
                0 <= j < self@.reports.len() implies (#[trigger] self@.reports[j]).wf() by {
                if j < old(self)@.reports.len() {
                    assert(self@.reports[j] == old(self)@.reports[j]);
                }
            }
        }
    }

    /// Appends one gathered report to the breakdown entry of `ty`,
    /// creating the entry if there is none.
    fn push_child(&mut self, ty: LanguageType, child: Report)
        requires
            children_wf(old(self)@.children),
        ensures
            final(self)@.children == append_child(old(self)@.children, ty, child@),
            final(self)@.blanks == old(self)@.blanks,
            final(self)@.code == old(self)@.code,
            final(self)@.comments == old(self)@.comments,
            final(self)@.reports == old(self)@.reports,
            final(self)@.inaccurate == old(self)@.inaccurate,
            final(self).blanks == old(self).blanks,
            final(self).code == old(self).code,
            final(self).comments == old(self).comments,
    {
        proof {
            lemma_child_index(old(self)@.children, ty);
        }
        let n = self.children.len();
        let mut i: usize = 0;
        while i < n
            invariant
                n == self.children@.len(),
                i <= n,
                self == old(self),
                forall|j: int| 0 <= j < i ==> (#[trigger] self@.children[j]).0 != ty,
            decreases n - i,
        {
            if self.children[i].0 == ty {
                proof {
                    assert((self@.children[i as int]).0 == ty);
                    lemma_child_index_found(self@.children, ty, i as int);
                }
                let mut entry = self.children.remove(i);
                entry.1.push(child);
                self.children.insert(i, entry);
                proof {
                    let cs = old(self)@.children;
                    let idx = i as int;
                    assert(self.children@ =~= old(self).children@.update(idx, self.children@[idx]));
                    assert(self@.children[idx].1 =~= cs[idx].1.push(child@));
                    assert(self@.children[idx] == (ty, cs[idx].1.push(child@)));
                    assert(self@.children =~= append_child(cs, ty, child@));
                }
                return;
            }
            proof {
                assert((self@.children[i as int]).0 == self.children@[i as int].0);
            }
            i = i + 1;
        }
        let mut reports: Vec<Report> = Vec::new();
        reports.push(child);
        self.children.push((ty, reports));
        proof {
            let cs = old(self)@.children;
            assert(child_index(cs, ty) < 0) by {
                lemma_child_index(cs, ty);
                if child_index(cs, ty) >= 0 {
                    assert(cs[child_index(cs, ty)].0 == ty);
                }
            }
            assert(reports_view(reports@) =~= seq![child@]);
            assert(self@.children =~= cs.push((ty, seq![child@])));
        }
    }
}

/// When an entry with the key stands at `i` and no earlier entry has
/// the key, `child_index` finds exactly `i`.
proof fn lemma_child_index_found(cs: Seq<(LanguageType, Seq<ReportView>)>, ty: LanguageType, i: int)
    requires
        0 <= i < cs.len(),
        cs[i].0 == ty,
        forall|j: int| 0 <= j < i ==> (#[trigger] cs[j]).0 != ty,
    ensures
        child_index(cs, ty) == i,
    decreases i,
{
    if i > 0 {
        assert(cs.first().0 != ty);
        assert(cs.drop_first()[i - 1] == cs[i]);
        assert forall|j: int| 0 <= j < i - 1 implies (#[trigger] cs.drop_first()[j]).0 != ty by {
            assert(cs.drop_first()[j] == cs[j + 1]);
        }
        lemma_child_index_found(cs.drop_first(), ty, i - 1);
    }
}


/// A deep copy of a run of reports.
pub(crate) fn duplicate_reports(v: &Vec<Report>) -> (r: Vec<Report>)
    ensures
        reports_view(r@) == reports_view(v@),
{
    let n = v.len();
    let mut r: Vec<Report> = Vec::new();
    let mut i: usize = 0;
    while i < n
        invariant
            n == v@.len(),
            i <= n,
            r@.len() == i,
            forall|j: int| 0 <= j < i ==> (#[trigger] r@[j])@ == v@[j]@,
        decreases n - i,
    {
        r.push(v[i].duplicate());
        i = i + 1;
    }
    proof {
        assert(reports_view(r@) =~= reports_view(v@));
    }
    r
}

impl Language {
    /// Produces the aggregated snapshot of this language: a synthetic
    /// language whose totals are the sum of every report's own counters,
    /// carried by a single synthetic report, with no children.  The
    /// snapshot is empty exactly when this language is empty, and it
    /// carries the accuracy flag over.
    pub fn total(&self) -> (r: Language)
        requires
            self@.wf(),
            reports_sum(self@.reports).lines() <= usize::MAX,
        ensures
            r@.blanks == reports_sum(self@.reports).blanks,
            r@.code == reports_sum(self@.reports).code,
            r@.comments == reports_sum(self@.reports).comments,
            r@.inaccurate == self@.inaccurate,
            r@.children.len() == 0,
            r@.reports.len() == (if self@.reports.len() == 0 { 0int } else { 1int }),
            self@.reports.len() > 0 ==> r@.reports[0].stats.counts() == reports_sum(self@.reports)
                && r@.reports[0].stats.blobs.len() == 0 && r@.reports[0].name
                == Seq::<char>::empty(),
            r@.wf(),
            r@.totals_match(),
    {
        proof {
            lemma_reports_sum_non_negative(self@.reports);
        }
        let n = self.reports.len();
        let mut blanks: usize = 0;
        let mut code: usize = 0;
        let mut comments: usize = 0;
        let mut i: usize = 0;
        while i < n
            invariant
                n == self.reports@.len(),
                self@.reports.len() == n,
                i <= n,
                self@.wf(),
                reports_sum(self@.reports).lines() <= usize::MAX,
                reports_sum(self@.reports).non_negative(),
                blanks == reports_sum(self@.reports.take(i as int)).blanks,
                code == reports_sum(self@.reports.take(i as int)).code,
                comments == reports_sum(self@.reports.take(i as int)).comments,
                forall|j: int| 0 <= j < n ==> (#[trigger] self@.reports[j]) == self.reports@[j]@,
            decreases n - i,
        {
            proof {
                lemma_reports_sum_take(self@.reports, i as int);
                lemma_reports_sum_bounded(self@.reports, i + 1);
                lemma_reports_sum_non_negative_take(self@.reports, i as int);
                lemma_reports_sum_non_negative_take(self@.reports, i + 1);
                assert(self@.reports[i as int].wf());
            }
            let rep = &self.reports[i];
            blanks = blanks + rep.stats().blanks();
            code = code + rep.stats().code();
            comments = comments + rep.stats().comments();
            i = i + 1;
        }
        proof {
            assert(self@.reports.take(n as int) =~= self@.reports);
        }
        let mut reports: Vec<Report> = Vec::new();
        if n > 0 {
            let stats = CodeStats::with_counts(blanks, code, comments);
            proof {
                reveal_strlit("");
            }
            reports.push(Report::with_stats("", stats));
        }
        let r = Language {
            blanks,
            code,
            comments,
            reports,
            children: Vec::new(),
            inaccurate: self.inaccurate,
        };
        proof {
            assert(r@.children =~= Seq::<(LanguageType, Seq<ReportView>)>::empty());
            if n > 0 {
                let rv = r@.reports[0];
                assert(r@.reports =~= seq![rv]);
                assert(seq![rv].drop_last() =~= Seq::<ReportView>::empty());
                assert(reports_sum(seq![rv]) == reports_sum(Seq::<ReportView>::empty()).add(
                    rv.stats.counts(),
                ));
                assert(reports_sum(r@.reports) =~= rv.stats.counts());
                assert(rv.stats.counts() =~= reports_sum(self@.reports));
            } else {
                assert(r@.reports =~= Seq::<ReportView>::empty());
            }
            assert(r@.totals_match());
        }
        r
    }
}

proof fn lemma_reports_sum_non_negative_take(rs: Seq<ReportView>, i: int)
    requires
        reports_wf(rs),
        0 <= i <= rs.len(),
    ensures
        reports_sum(rs.take(i)).non_negative(),
{
    assert forall|j: int| 0 <= j < rs.take(i).len() implies (#[trigger] rs.take(i)[j]).wf() by {
        assert(rs.take(i)[j] == rs[j]);
    }
    lemma_reports_sum_non_negative(rs.take(i));
}

/// The counters of one report once its blobs are folded in.
pub open spec fn flat_counts(s: StatsView) -> Counts {
    s.counts().add(blobs_sum(s.blobs))
}

/// The flattened total of a run of gathered reports.
pub open spec fn gathered_sum(rs: Seq<ReportView>) -> Counts
    decreases rs,
{
    if rs.len() == 0 {
        Counts::zero()
    } else {
        gathered_sum(rs.drop_last()).add(flat_counts(rs.last().stats))
    }
}

/// The flattened total of the whole embedded-language breakdown.
pub open spec fn children_sum(cs: Seq<(LanguageType, Seq<ReportView>)>) -> Counts
    decreases cs,
{
    if cs.len() == 0 {
        Counts::zero()
    } else {
        children_sum(cs.drop_last()).add(gathered_sum(cs.last().1))
    }
}

proof fn lemma_gathered_sum_take(rs: Seq<ReportView>, i: int)
    requires
        0 <= i < rs.len(),
    ensures
        gathered_sum(rs.take(i + 1)) == gathered_sum(rs.take(i)).add(flat_counts(rs[i].stats)),
{
    assert(rs.take(i + 1).drop_last() =~= rs.take(i));
    assert(rs.take(i + 1).last() == rs[i]);
}

proof fn lemma_gathered_sum_non_negative(rs: Seq<ReportView>)
    requires
        reports_wf(rs),
    ensures
        gathered_sum(rs).non_negative(),
    decreases rs,
{
    if rs.len() > 0 {
        assert forall|j: int| 0 <= j < rs.drop_last().len() implies (#[trigger] rs.drop_last()[j]).wf() by {
            assert(rs.drop_last()[j] == rs[j]);
        }
        lemma_gathered_sum_non_negative(rs.drop_last());
        assert(rs.last().wf());
        crate::stats::lemma_blobs_sum_non_negative(rs.last().stats.blobs);
    }
}

proof fn lemma_gathered_sum_bounded(rs: Seq<ReportView>, i: int)
    requires
        reports_wf(rs),
        0 <= i <= rs.len(),
    ensures
        gathered_sum(rs.take(i)).blanks <= gathered_sum(rs).blanks,
        gathered_sum(rs.take(i)).code <= gathered_sum(rs).code,
        gathered_sum(rs.take(i)).comments <= gathered_sum(rs).comments,
    decreases rs.len() - i,
{
    if i == rs.len() {
        assert(rs.take(i) =~= rs);
    } else {
        lemma_gathered_sum_take(rs, i);
        assert(rs[i].wf());
        crate::stats::lemma_blobs_sum_non_negative(rs[i].stats.blobs);
        lemma_gathered_sum_bounded(rs, i + 1);
    }
}

proof fn lemma_children_sum_take(cs: Seq<(LanguageType, Seq<ReportView>)>, i: int)
    requires
        0 <= i < cs.len(),
    ensures
        children_sum(cs.take(i + 1)) == children_sum(cs.take(i)).add(gathered_sum(cs[i].1)),
{
    assert(cs.take(i + 1).drop_last() =~= cs.take(i));
    assert(cs.take(i + 1).last() == cs[i]);
}

proof fn lemma_children_sum_non_negative(cs: Seq<(LanguageType, Seq<ReportView>)>)
    requires
        children_wf(cs),
    ensures
        children_sum(cs).non_negative(),
    decreases cs,
{
    if cs.len() > 0 {
        assert forall|j: int|
            0 <= j < cs.drop_last().len() implies reports_wf(
            (#[trigger] cs.drop_last()[j]).1,
        ) && (forall|a: int, b: int|
            0 <= a < b < cs.drop_last().len() ==> (#[trigger] cs.drop_last()[a]).0 != (
            #[trigger] cs.drop_last()[b]).0) by {
            assert(cs.drop_last()[j] == cs[j]);
            assert forall|a: int, b: int|
                0 <= a < b < cs.drop_last().len() implies (#[trigger] cs.drop_last()[a]).0 != (
                #[trigger] cs.drop_last()[b]).0 by {
                assert(cs.drop_last()[a] == cs[a]);
                assert(cs.drop_last()[b] == cs[b]);
            }
        }
        lemma_children_sum_non_negative(cs.drop_last());
        assert(reports_wf(cs.last().1));
        lemma_gathered_sum_non_negative(cs.last().1);
    }
}

proof fn lemma_children_sum_bounded(cs: Seq<(LanguageType, Seq<ReportView>)>, i: int)
    requires
        children_wf(cs),
        0 <= i <= cs.len(),
    ensures
        children_sum(cs.take(i)).blanks <= children_sum(cs).blanks,
        children_sum(cs.take(i)).code <= children_sum(cs).code,
        children_sum(cs.take(i)).comments <= children_sum(cs).comments,
    decreases cs.len() - i,
{
    if i == cs.len() {
        assert(cs.take(i) =~= cs);
    } else {
        lemma_children_sum_take(cs, i);
        assert(reports_wf(cs[i].1));
        lemma_gathered_sum_non_negative(cs[i].1);
        lemma_children_sum_bounded(cs, i + 1);
    }
}


/// A deep copy of the embedded-language breakdown.
fn duplicate_children(v: &Vec<(LanguageType, Vec<Report>)>) -> (r: Vec<(LanguageType, Vec<Report>)>)
    ensures
        children_view(r@) == children_view(v@),
{
    let n = v.len();
    let mut r: Vec<(LanguageType, Vec<Report>)> = Vec::new();
    let mut i: usize = 0;
    while i < n
        invariant
            n == v@.len(),
            i <= n,
            r@.len() == i,
            forall|j: int| 0 <= j < i ==> (#[trigger] r@[j]).0 == v@[j].0 && reports_view(
                r@[j].1@,
            ) == reports_view(v@[j].1@),
        decreases n - i,
    {
        let entry = &v[i];
        r.push((entry.0, duplicate_reports(&entry.1)));
        i = i + 1;
    }
    proof {
        assert(children_view(r@) =~= children_view(v@));
    }
    r
}

impl Language {
    /// Produces the summarised form of this language: a copy whose
    /// totals additionally include, for every gathered child report, the
    /// flattened counters of that report.  Reports, children and the
    /// accuracy flag are carried over unchanged.
    pub fn summarise(&self) -> (r: Language)
        requires
            self@.wf(),
            self@.blanks + children_sum(self@.children).blanks <= usize::MAX,
            self@.code + children_sum(self@.children).code <= usize::MAX,
            self@.comments + children_sum(self@.children).comments <= usize::MAX,
        ensures
            r@.blanks == self@.blanks + children_sum(self@.children).blanks,
            r@.code == self@.code + children_sum(self@.children).code,
            r@.comments == self@.comments + children_sum(self@.children).comments,
            r@.reports == self@.reports,
            r@.children == self@.children,
            r@.inaccurate == self@.inaccurate,
            r@.wf(),
    {
        proof {
            lemma_children_sum_non_negative(self@.children);
        }
        let cn = self.children.len();
        let mut blanks: usize = self.blanks;
        let mut code: usize = self.code;
        let mut comments: usize = self.comments;
        let mut i: usize = 0;
        while i < cn
            invariant
                cn == self.children@.len(),
                self@.children.len() == cn,
                i <= cn,
                self@.wf(),
                self@.blanks + children_sum(self@.children).blanks <= usize::MAX,
                self@.code + children_sum(self@.children).code <= usize::MAX,
                self@.comments + children_sum(self@.children).comments <= usize::MAX,
                blanks == self@.blanks + children_sum(self@.children.take(i as int)).blanks,
                code == self@.code + children_sum(self@.children.take(i as int)).code,
                comments == self@.comments + children_sum(self@.children.take(i as int)).comments,
                forall|j: int| 0 <= j < cn ==> (#[trigger] self@.children[j]) == (
                self.children@[j].0,
                reports_view(self.children@[j].1@),
                ),
            decreases cn - i,
        {
            let entry = &self.children[i];
            let ghost gentry = self@.children[i as int].1;
            proof {
                assert(reports_wf(gentry));
                lemma_children_sum_take(self@.children, i as int);
                lemma_children_sum_bounded(self@.children, i + 1);
                lemma_children_sum_non_negative_take(self@.children, i as int);
                lemma_gathered_sum_non_negative(gentry);
            }
            let rn = entry.1.len();
            let mut j: usize = 0;
            while j < rn
                invariant
                    rn == entry.1@.len(),
                    gentry.len() == rn,
                    j <= rn,
                    self@.wf(),
                    reports_wf(gentry),
                    gentry == reports_view(entry.1@),
                    self@.blanks + children_sum(self@.children).blanks <= usize::MAX,
                    self@.code + children_sum(self@.children).code <= usize::MAX,
                    self@.comments + children_sum(self@.children).comments <= usize::MAX,
                    children_sum(self@.children.take(i as int)).add(gathered_sum(gentry))
                        == children_sum(self@.children.take(i as int + 1)),
                    children_sum(self@.children.take(i as int + 1)).blanks <= children_sum(
                        self@.children,
                    ).blanks,
                    children_sum(self@.children.take(i as int + 1)).code <= children_sum(
                        self@.children,
                    ).code,
                    children_sum(self@.children.take(i as int + 1)).comments <= children_sum(
                        self@.children,
                    ).comments,
                    children_sum(self@.children.take(i as int)).non_negative(),
                    blanks == self@.blanks + children_sum(self@.children.take(i as int)).blanks
                        + gathered_sum(gentry.take(j as int)).blanks,
                    code == self@.code + children_sum(self@.children.take(i as int)).code
                        + gathered_sum(gentry.take(j as int)).code,
                    comments == self@.comments + children_sum(
                        self@.children.take(i as int),
                    ).comments + gathered_sum(gentry.take(j as int)).comments,
                decreases rn - j,
            {
                let rep = &entry.1[j];
                let ghost st = gentry[j as int].stats;
                proof {
                    assert(rep@ == gentry[j as int]);
                    assert(gentry[j as int].wf());
                    lemma_gathered_sum_take(gentry, j as int);
                    lemma_gathered_sum_bounded(gentry, j + 1);
                    lemma_gathered_sum_non_negative_take(gentry, j as int);
                    crate::stats::lemma_blobs_sum_non_negative(st.blobs);
                }
                let stats = rep.stats();
                let blobs = stats.blobs();
                proof {
                    lemma_blobs_of(blobs@);
                }
                blanks = blanks + stats.blanks();
                code = code + stats.code();
                comments = comments + stats.comments();
                let bn = blobs.len();
                let mut k: usize = 0;
                while k < bn
                    invariant
                        bn == blobs@.len(),
                        st.blobs.len() == bn,
                        k <= bn,
                        st.wf(),
                        forall|m: int| 0 <= m < bn ==> st.blobs[m] == ((
                        #[trigger] blobs@[m]).0, blobs@[m].1@),
                        blanks == self@.blanks + children_sum(self@.children.take(i as int)).blanks
                            + gathered_sum(gentry.take(j as int)).blanks + st.counts().blanks
                            + blobs_sum(st.blobs.take(k as int)).blanks,
                        code == self@.code + children_sum(self@.children.take(i as int)).code
                            + gathered_sum(gentry.take(j as int)).code + st.counts().code
                            + blobs_sum(st.blobs.take(k as int)).code,
                        comments == self@.comments + children_sum(
                            self@.children.take(i as int),
                        ).comments + gathered_sum(gentry.take(j as int)).comments
                            + st.counts().comments + blobs_sum(st.blobs.take(k as int)).comments,
                        self@.blanks + children_sum(self@.children.take(i as int)).blanks
                            + gathered_sum(gentry.take(j as int)).blanks + flat_counts(st).blanks
                            <= usize::MAX,
                        self@.code + children_sum(self@.children.take(i as int)).code
                            + gathered_sum(gentry.take(j as int)).code + flat_counts(st).code
                            <= usize::MAX,
                        self@.comments + children_sum(self@.children.take(i as int)).comments
                            + gathered_sum(gentry.take(j as int)).comments + flat_counts(
                            st,
                        ).comments <= usize::MAX,
                        self@.blanks + children_sum(self@.children.take(i as int)).blanks
                            + gathered_sum(gentry.take(j as int)).blanks >= self@.blanks,
                        children_sum(self@.children.take(i as int)).non_negative(),
                        gathered_sum(gentry.take(j as int)).non_negative(),
                    decreases bn - k,
                {
                    proof {
                        crate::stats::lemma_blobs_sum_prefix(st.blobs, k as int);
                        crate::stats::lemma_blobs_wf_take(st.blobs, k as int);
                        crate::stats::lemma_blobs_wf_take(st.blobs, k + 1);
                        crate::stats::lemma_blobs_sum_non_negative(st.blobs.take(k as int));
                        crate::stats::lemma_blobs_sum_non_negative(st.blobs.take(k + 1));
                        crate::stats::lemma_blobs_sum_bounded(st.blobs, k + 1);
                        crate::stats::lemma_blobs_wf_index(st.blobs, k as int);
                    }
                    let b = &blobs[k];
                    blanks = blanks + b.1.blanks();
                    code = code + b.1.code();
                    comments = comments + b.1.comments();
                    k = k + 1;
                }
                proof {
                    assert(st.blobs.take(bn as int) =~= st.blobs);
                }
                j = j + 1;
            }
            proof {
                assert(gentry.take(rn as int) =~= gentry);
            }
            i = i + 1;
        }
        proof {
            assert(self@.children.take(cn as int) =~= self@.children);
        }
        let r = Language {
            blanks,
            code,
            comments,
            reports: duplicate_reports(&self.reports),
            children: duplicate_children(&self.children),
            inaccurate: self.inaccurate,
        };
        r
    }
}

proof fn lemma_children_sum_non_negative_take(cs: Seq<(LanguageType, Seq<ReportView>)>, i: int)
    requires
        children_wf(cs),
        0 <= i <= cs.len(),
    ensures
        children_sum(cs.take(i)).non_negative(),
{
    assert forall|j: int|
        0 <= j < cs.take(i).len() implies reports_wf((#[trigger] cs.take(i)[j]).1) by {
        assert(cs.take(i)[j] == cs[j]);
    }
    assert forall|a: int, b: int|
        0 <= a < b < cs.take(i).len() implies (#[trigger] cs.take(i)[a]).0 != (
        #[trigger] cs.take(i)[b]).0 by {
        assert(cs.take(i)[a] == cs[a]);
        assert(cs.take(i)[b] == cs[b]);
    }
    lemma_children_sum_non_negative(cs.take(i));
}

proof fn lemma_gathered_sum_non_negative_take(rs: Seq<ReportView>, i: int)
    requires
        reports_wf(rs),
        0 <= i <= rs.len(),
    ensures
        gathered_sum(rs.take(i)).non_negative(),
{
    assert forall|j: int| 0 <= j < rs.take(i).len() implies (#[trigger] rs.take(i)[j]).wf() by {
        assert(rs.take(i)[j] == rs[j]);
    }
    lemma_gathered_sum_non_negative(rs.take(i));
}


/// The presentation order that a sort category puts on two reports:
/// `report_le(cat, a, b)` says that `a` may stand before `b`.  The count
/// categories order descending by their counter; the file category
/// orders ascending by path.
pub open spec fn report_le(cat: Sort, a: ReportView, b: ReportView) -> bool {
    match cat {
        Sort::Blanks => a.stats.blanks >= b.stats.blanks,
        Sort::Comments => a.stats.comments >= b.stats.comments,
        Sort::Code => a.stats.code >= b.stats.code,
        Sort::Files => crate::text::lex_le_bytes(
            vstd::utf8::encode_utf8(a.name),
            vstd::utf8::encode_utf8(b.name),
        ),
        Sort::Lines => a.stats.lines() >= b.stats.lines(),
    }
}

/// Every pair of reports is related one way or the other.
pub proof fn lemma_report_le_total(cat: Sort, a: ReportView, b: ReportView)
    ensures
        report_le(cat, a, b) || report_le(cat, b, a),
{
    if cat is Files {
        crate::text::lemma_lex_total(
            vstd::utf8::encode_utf8(a.name),
            vstd::utf8::encode_utf8(b.name),
        );
    }
}

/// The presentation order is transitive.
pub proof fn lemma_report_le_trans(cat: Sort, a: ReportView, b: ReportView, c: ReportView)
    requires
        report_le(cat, a, b),
        report_le(cat, b, c),
    ensures
        report_le(cat, a, c),
{
    if cat is Files {
        crate::text::lemma_lex_trans(
            vstd::utf8::encode_utf8(a.name),
            vstd::utf8::encode_utf8(b.name),
            vstd::utf8::encode_utf8(c.name),
        );
    }
}

fn report_le_exec(cat: Sort, a: &Report, b: &Report) -> (r: bool)
    requires
        a@.wf(),
        b@.wf(),
    ensures
        r == report_le(cat, a@, b@),
{
    match cat {
        Sort::Blanks => b.stats().blanks() <= a.stats().blanks(),
        Sort::Comments => b.stats().comments() <= a.stats().comments(),
        Sort::Code => b.stats().code() <= a.stats().code(),
        Sort::Files => crate::text::str_lex_le(a.name(), b.name()),
        Sort::Lines => b.stats().lines() <= a.stats().lines(),
    }
}

/// A run of reports standing in the order of the category.
pub open spec fn sorted_by_cat(cat: Sort, rs: Seq<ReportView>) -> bool {
    forall|i: int, j: int| 0 <= i <= j < rs.len() ==> report_le(cat, rs[i], rs[j])
}

/// Stable insertion of one report into an ordered run: the new report
/// goes after every report that may stand before it, so reports with
/// equal keys keep their arrival order.
pub open spec fn insert_spec(cat: Sort, t: Seq<ReportView>, x: ReportView) -> Seq<ReportView>
    decreases t,
{
    if t.len() > 0 && !report_le(cat, t.last(), x) {
        insert_spec(cat, t.drop_last(), x).push(t.last())
    } else {
        t.push(x)
    }
}

/// Stable insertion sort: reports are folded in arrival order into an
/// ordered run.
pub open spec fn sort_spec(cat: Sort, s: Seq<ReportView>) -> Seq<ReportView>
    decreases s,
{
    if s.len() == 0 {
        s
    } else {
        insert_spec(cat, sort_spec(cat, s.drop_last()), s.last())
    }
}

pub proof fn lemma_insert_spec_ensures(cat: Sort, t: Seq<ReportView>, x: ReportView)
    requires
        sorted_by_cat(cat, t),
    ensures
        sorted_by_cat(cat, insert_spec(cat, t, x)),
        insert_spec(cat, t, x).to_multiset() == t.to_multiset().insert(x),
        insert_spec(cat, t, x).len() == t.len() + 1,
    decreases t,
{
    broadcast use vstd::seq_lib::group_to_multiset_ensures;

    let r = insert_spec(cat, t, x);
    if t.len() > 0 && !report_le(cat, t.last(), x) {
        assert forall|a: int, b: int|
            0 <= a <= b < t.drop_last().len() implies report_le(
            cat,
            t.drop_last()[a],
            t.drop_last()[b],
        ) by {
            assert(t.drop_last()[a] == t[a]);
            assert(t.drop_last()[b] == t[b]);
        }
        lemma_insert_spec_ensures(cat, t.drop_last(), x);
        let inner = insert_spec(cat, t.drop_last(), x);
        // every element of `inner` may stand before `t.last()`
        assert forall|a: int| 0 <= a < inner.len() implies report_le(cat, inner[a], t.last()) by {
            assert(inner.to_multiset().count(inner[a]) > 0);
            if inner[a] == x {
                lemma_report_le_total(cat, x, t.last());
            } else {
                assert(t.drop_last().to_multiset().count(inner[a]) > 0);
                assert(t.drop_last().contains(inner[a]));
                let w = choose|w: int|
                    0 <= w < t.drop_last().len() && t.drop_last()[w] == inner[a];
                assert(t.drop_last()[w] == t[w]);
                assert(report_le(cat, t[w], t.last()));
            }
        }
        assert forall|a: int, b: int| 0 <= a <= b < r.len() implies report_le(cat, r[a], r[b]) by {
            if b < r.len() - 1 {
                assert(r[a] == inner[a] && r[b] == inner[b]);
            } else if a < b {
                assert(r[a] == inner[a] && r[b] == t.last());
            } else {
                lemma_report_le_total(cat, r[a], r[a]);
            }
        }
        assert(r.to_multiset() =~= t.to_multiset().insert(x)) by {
            assert(t.drop_last().push(t.last()) =~= t);
        }
    } else {
        assert forall|a: int, b: int| 0 <= a <= b < r.len() implies report_le(cat, r[a], r[b]) by {
            if b < r.len() - 1 {
                assert(r[a] == t[a] && r[b] == t[b]);
            } else if a < b {
                assert(r[a] == t[a] && r[b] == x);
                assert(report_le(cat, t[a], t.last()));
                lemma_report_le_total(cat, t.last(), x);
                lemma_report_le_trans(cat, t[a], t.last(), x);
            } else {
                lemma_report_le_total(cat, r[a], r[a]);
            }
        }
    }
}

pub proof fn lemma_sort_spec_ensures(cat: Sort, s: Seq<ReportView>)
    ensures
        sorted_by_cat(cat, sort_spec(cat, s)),
        sort_spec(cat, s).to_multiset() == s.to_multiset(),
        sort_spec(cat, s).len() == s.len(),
    decreases s,
{
    broadcast use vstd::seq_lib::group_to_multiset_ensures;

    if s.len() > 0 {
        lemma_sort_spec_ensures(cat, s.drop_last());
        lemma_insert_spec_ensures(cat, sort_spec(cat, s.drop_last()), s.last());
        assert(s.drop_last().push(s.last()) =~= s);
    }
}

/// Two runs holding the same reports are well-formed together.
pub proof fn lemma_reports_wf_multiset(rs1: Seq<ReportView>, rs2: Seq<ReportView>)
    requires
        reports_wf(rs1),
        rs1.to_multiset() == rs2.to_multiset(),
    ensures
        reports_wf(rs2),
{
    broadcast use vstd::seq_lib::group_to_multiset_ensures;

    assert forall|i: int| 0 <= i < rs2.len() implies (#[trigger] rs2[i]).wf() by {
        assert(rs2.to_multiset().count(rs2[i]) > 0);
        assert(rs1.contains(rs2[i]));
        let w = choose|w: int| 0 <= w < rs1.len() && rs1[w] == rs2[i];
        assert(rs1[w].wf());
    }
}

/// Where the new report lands when the ordered run's tail from `j` on
/// cannot stand before it while the entry before `j` can: right at `j`.
proof fn lemma_insert_spec_at(cat: Sort, t: Seq<ReportView>, x: ReportView, j: int)
    requires
        0 <= j <= t.len(),
        forall|k: int| j <= k < t.len() ==> !report_le(cat, #[trigger] t[k], x),
        j > 0 ==> report_le(cat, t[j - 1], x),
    ensures
        insert_spec(cat, t, x) == t.take(j).push(x) + t.skip(j),
    decreases t,
{
    if j == t.len() {
        assert(insert_spec(cat, t, x) == t.push(x));
        assert(t.take(j) =~= t);
        assert(t.skip(j) =~= Seq::<ReportView>::empty());
        assert(t.take(j).push(x) + t.skip(j) =~= t.push(x));
    } else {
        assert(!report_le(cat, t[t.len() - 1], x));
        assert(insert_spec(cat, t, x) == insert_spec(cat, t.drop_last(), x).push(t.last()));
        assert forall|k: int|
            j <= k < t.drop_last().len() implies !report_le(cat, #[trigger] t.drop_last()[k], x) by {
            assert(t.drop_last()[k] == t[k]);
        }
        if j > 0 {
            assert(t.drop_last()[j - 1] == t[j - 1]);
        }
        lemma_insert_spec_at(cat, t.drop_last(), x, j);
        assert(t.drop_last().take(j) =~= t.take(j));
        assert((t.take(j).push(x) + t.drop_last().skip(j)).push(t.last()) =~= t.take(j).push(x)
            + t.skip(j));
    }
}

/// Two reports whose keys tie under the category: each may stand
/// before the other.
pub open spec fn ties(cat: Sort, a: ReportView, b: ReportView) -> bool {
    report_le(cat, a, b) && report_le(cat, b, a)
}

/// The class of reports tying with `x`, in their order of appearance.
pub open spec fn tie_class(cat: Sort, s: Seq<ReportView>, x: ReportView) -> Seq<ReportView> {
    s.filter(|r: ReportView| ties(cat, r, x))
}

proof fn lemma_insert_spec_tie_class(cat: Sort, t: Seq<ReportView>, y: ReportView, x: ReportView)
    ensures
        tie_class(cat, insert_spec(cat, t, y), x) == (if ties(cat, y, x) {
            tie_class(cat, t, x).push(y)
        } else {
            tie_class(cat, t, x)
        }),
    decreases t,
{
    reveal(Seq::filter);
    let pred = |r: ReportView| ties(cat, r, x);
    if t.len() > 0 && !report_le(cat, t.last(), y) {
        lemma_insert_spec_tie_class(cat, t.drop_last(), y, x);
        let inner = insert_spec(cat, t.drop_last(), y);
        assert(insert_spec(cat, t, y) == inner.push(t.last()));
        assert(inner.push(t.last()).drop_last() =~= inner);
        assert(tie_class(cat, inner.push(t.last()), x) == (if pred(t.last()) {
            tie_class(cat, inner, x).push(t.last())
        } else {
            tie_class(cat, inner, x)
        }));
        if ties(cat, y, x) && pred(t.last()) {
            // both tying with `x` would make them tie with each other,
            // against the branch condition
            lemma_report_le_trans(cat, t.last(), x, y);
            assert(false);
        }
    } else {
        assert(insert_spec(cat, t, y) == t.push(y));
        assert(t.push(y).drop_last() =~= t);
    }
}

/// The sort is stable: reports whose keys tie keep their previous
/// relative order.  Formally, the class of reports tying with any
/// pivot reads the same, in order, before and after sorting.
pub proof fn lemma_sort_spec_stable(cat: Sort, s: Seq<ReportView>, x: ReportView)
    ensures
        tie_class(cat, sort_spec(cat, s), x) == tie_class(cat, s, x),
    decreases s,
{
    reveal(Seq::filter);
    if s.len() > 0 {
        lemma_sort_spec_stable(cat, s.drop_last(), x);
        lemma_insert_spec_tie_class(cat, sort_spec(cat, s.drop_last()), s.last(), x);
    }
}

impl Language {
    /// Reorders the reports by the given category: descending by the
    /// chosen counter, or ascending by path for the file category.  The
    /// sort is stable: reports whose keys tie keep their previous
    /// relative order (`lemma_sort_spec_stable`).  Nothing else changes.
    pub fn sort_by(&mut self, category: Sort)
        requires
            old(self)@.wf(),
        ensures
            final(self)@.reports == sort_spec(category, old(self)@.reports),
            sorted_by_cat(category, final(self)@.reports),
            final(self)@.reports.to_multiset() == old(self)@.reports.to_multiset(),
            final(self)@.blanks == old(self)@.blanks,
            final(self)@.code == old(self)@.code,
            final(self)@.comments == old(self)@.comments,
            final(self)@.children == old(self)@.children,
            final(self)@.inaccurate == old(self)@.inaccurate,
            final(self)@.wf(),
            old(self)@.totals_match() ==> final(self)@.totals_match(),
    {
        let ghost orig = self@.reports;
        proof {
            lemma_sort_spec_ensures(category, orig);
        }
        let n = self.reports.len();
        if n <= 1 {
            proof {
                if n == 1 {
                    let e = orig.drop_last();
                    assert(e.len() == 0);
                    assert(sort_spec(category, e) == e);
                    assert(insert_spec(category, e, orig.last()) == e.push(orig.last()));
                    assert(sort_spec(category, orig) == insert_spec(
                        category,
                        sort_spec(category, e),
                        orig.last(),
                    ));
                    assert(sort_spec(category, orig) =~= orig);
                }
            }
            return ;
        }
        let mut i: usize = 1;
        proof {
            let t1 = orig.take(1);
            let e = t1.drop_last();
            assert(e.len() == 0);
            assert(sort_spec(category, e) == e);
            assert(insert_spec(category, e, t1.last()) == e.push(t1.last()));
            assert(sort_spec(category, t1) == insert_spec(category, sort_spec(category, e), t1.last()));
            assert(sort_spec(category, t1) =~= t1);
            assert(self@.reports.take(1) =~= t1);
            assert forall|a: int, b: int|
                0 <= a <= b < t1.len() implies report_le(category, t1[a], t1[b]) by {
                lemma_report_le_total(category, t1[a], t1[a]);
            }
        }
        while i < n
            invariant
                n == self.reports@.len(),
                self@.reports.len() == n,
                1 <= i <= n,
                orig.len() == n,
                reports_wf(orig),
                self@.reports.skip(i as int) == orig.skip(i as int),
                self@.reports.take(i as int) == sort_spec(category, orig.take(i as int)),
                sorted_by_cat(category, self@.reports.take(i as int)),
                reports_wf(self@.reports),
                self@.blanks == old(self)@.blanks,
                self@.code == old(self)@.code,
                self@.comments == old(self)@.comments,
                self@.children == old(self)@.children,
                self@.inaccurate == old(self)@.inaccurate,
                self.blanks == old(self).blanks,
                self.code == old(self).code,
                self.comments == old(self).comments,
                orig == old(self)@.reports,
            decreases n - i,
        {
            let ghost prefix = self@.reports.take(i as int);
            let ghost x = orig[i as int];
            proof {
                assert(self@.reports.skip(i as int)[0] == self@.reports[i as int]);
                assert(orig.skip(i as int)[0] == orig[i as int]);
                assert(self@.reports[i as int] == x);
            }
            let mut j: usize = i;
            let mut found: bool = false;
            while !found && j > 0
                invariant
                    n == self.reports@.len(),
                    self@.reports.len() == n,
                    1 <= i <= n,
                    i < n,
                    j <= i,
                    prefix == self@.reports.take(i as int),
                    x == self@.reports[i as int],
                    reports_wf(self@.reports),
                    forall|k: int| j <= k < i ==> !report_le(category, #[trigger] prefix[k], x),
                    found ==> j >= 1 && report_le(category, prefix[j - 1], x),
                decreases 2 * j + (if found { 0int } else { 1int }),
            {
                proof {
                    assert(prefix[j - 1] == self@.reports[j - 1]);
                }
                if report_le_exec(category, &self.reports[j - 1], &self.reports[i]) {
                    found = true;
                } else {
                    j = j - 1;
                }
            }
            let ghost vec_before = self@.reports;
            let x_owned = self.reports.remove(i);
            self.reports.insert(j, x_owned);
            proof {
                lemma_insert_spec_at(category, prefix, x, j as int);
                let gi = i as int;
                let gj = j as int;
                let target = prefix.take(gj).push(x) + prefix.skip(gj) + orig.skip(gi + 1);
                assert forall|m: int|
                    0 <= m < self@.reports.len() implies self@.reports[m] == target[m] by {
                    if m < gj {
                        assert(self@.reports[m] == vec_before[m]);
                        assert(vec_before[m] == prefix[m]);
                        assert(target[m] == prefix.take(gj).push(x)[m]);
                    } else if m == gj {
                        assert(self@.reports[m] == x);
                        assert(target[m] == x);
                    } else if m <= gi {
                        assert(self@.reports[m] == vec_before[m - 1]);
                        assert(vec_before[m - 1] == prefix[m - 1]);
                        assert(target[m] == (prefix.take(gj).push(x) + prefix.skip(gj))[m]);
                        assert(target[m] == prefix.skip(gj)[m - gj - 1]);
                        assert(prefix.skip(gj)[m - gj - 1] == prefix[m - 1]);
                    } else {
                        assert(self@.reports[m] == vec_before[m]);
                        assert(vec_before[m] == orig.skip(gi)[m - gi]);
                        assert(vec_before[m] == orig[m]);
                        assert(target[m] == orig.skip(gi + 1)[m - gi - 1]);
                        assert(target[m] == orig[m]);
                    }
                }
                assert(self@.reports =~= target);
                assert(self@.reports.take(gi + 1) =~= insert_spec(category, prefix, x));
                assert(self@.reports.skip(gi + 1) =~= orig.skip(gi + 1));
                assert(orig.take(i as int + 1).drop_last() =~= orig.take(i as int));
                assert(orig.take(i as int + 1).last() == x);
                assert(sort_spec(category, orig.take(i as int + 1)) == insert_spec(
                    category,
                    sort_spec(category, orig.take(i as int)),
                    x,
                ));
                lemma_insert_spec_ensures(category, prefix, x);
                lemma_sort_spec_ensures(category, orig.take(i as int + 1));
                assert forall|m: int|
                    0 <= m < self@.reports.len() implies (#[trigger] self@.reports[m]).wf() by {
                    lemma_reports_wf_multiset(
                        orig.take(i as int + 1),
                        self@.reports.take(i as int + 1),
                    );
                    if m <= i {
                        assert(self@.reports.take(i as int + 1)[m] == self@.reports[m]);
                        assert(self@.reports[m].wf());
                    } else {
                        assert(self@.reports[m] == orig.skip(i as int + 1)[m - i - 1]);
                        assert(self@.reports[m] == orig[m]);
                    }
                }
            }
            i = i + 1;
        }
        proof {
            assert(self@.reports.take(n as int) =~= self@.reports);
            assert(orig.take(n as int) =~= orig);
            lemma_sort_spec_ensures(category, orig);
            if old(self)@.totals_match() {
                lemma_reports_sum_permutation(orig, self@.reports);
            }
        }
    }
}


/// The aggregate after one report is folded in: totals grow by the
/// report's own counters, the report is appended, its blobs are
/// gathered into the children, and the accuracy flag is untouched.
pub open spec fn lang_add_report(l: LanguageView, rv: ReportView) -> LanguageView {
    LanguageView {
        blanks: l.blanks + rv.stats.blanks,
        code: l.code + rv.stats.code,
        comments: l.comments + rv.stats.comments,
        reports: l.reports.push(rv),
        children: add_blobs_spec(l.children, rv.name, rv.stats.blobs),
        inaccurate: l.inaccurate,
    }
}

impl Language {
    /// Creates an equal copy of this language.
    pub fn duplicate(&self) -> (r: Language)
        ensures
            r@ == self@,
    {
        let r = Language {
            blanks: self.blanks,
            code: self.code,
            comments: self.comments,
            reports: duplicate_reports(&self.reports),
            children: duplicate_children(&self.children),
            inaccurate: self.inaccurate,
        };
        proof {
            assert(r@ =~= self@);
        }
        r
    }

    /// Builds a language value from parts.  Used by the collection
    /// level to assemble snapshots; the caller is responsible for any
    /// further properties it claims of the result.
    pub(crate) fn assemble(
        blanks: usize,
        code: usize,
        comments: usize,
        reports: Vec<Report>,
        children: Vec<(LanguageType, Vec<Report>)>,
        inaccurate: bool,
    ) -> (r: Language)
        ensures
            r@.blanks == blanks,
            r@.code == code,
            r@.comments == comments,
            r@.reports == reports_view(reports@),
            r@.children == children_view(children@),
            r@.inaccurate == inaccurate,
    {
        Language { blanks, code, comments, reports, children, inaccurate }
    }
}

} // verus!
