//! The top-level collection of per-language aggregates produced by one
//! scan, with lookup, enumeration and grand totals.

use vstd::prelude::*;

use crate::errors::LanguageTypeNotFound;
use crate::language::Language;
use crate::language::LanguageView;
use crate::language::lang_add_report;
use crate::language::reports_view;
use crate::language_type::LanguageType;
use crate::language_type::name_spec;
use crate::stats::Counts;
use crate::stats::Report;
use crate::stats::ReportView;

verus! {

/// The position of the entry for `ty`, or `-1` if there is none.
pub open spec fn lang_index(s: Seq<(LanguageType, LanguageView)>, ty: LanguageType) -> int
    decreases s,
{
    if s.len() == 0 {
        -1
    } else if s.first().0 == ty {
        0
    } else {
        let rest = lang_index(s.drop_first(), ty);
        if rest < 0 {
            -1
        } else {
            rest + 1
        }
    }
}

/// The aggregate for `ty`, if any file of that language was folded in.
pub open spec fn lang_lookup(
    s: Seq<(LanguageType, LanguageView)>,
    ty: LanguageType,
) -> Option<LanguageView> {
    let idx = lang_index(s, ty);
    if idx < 0 {
        None
    } else {
        Some(s[idx].1)
    }
}

pub proof fn lemma_lang_index(s: Seq<(LanguageType, LanguageView)>, ty: LanguageType)
    ensures
        lang_index(s, ty) < 0 ==> forall|i: int| 0 <= i < s.len() ==> (#[trigger] s[i]).0 != ty,
        lang_index(s, ty) >= 0 ==> lang_index(s, ty) < s.len() && s[lang_index(s, ty)].0 == ty,
    decreases s,
{
    if s.len() > 0 && s.first().0 != ty {
        lemma_lang_index(s.drop_first(), ty);
        if lang_index(s.drop_first(), ty) < 0 {
            assert forall|i: int| 0 <= i < s.len() implies (#[trigger] s[i]).0 != ty by {
                if i > 0 {
                    assert(s.drop_first()[i - 1] == s[i]);
                }
            }
        } else {
            assert(s.drop_first()[lang_index(s.drop_first(), ty)] == s[lang_index(s, ty)]);
        }
    }
}

proof fn lemma_lang_index_found(s: Seq<(LanguageType, LanguageView)>, ty: LanguageType, i: int)
    requires
        0 <= i < s.len(),
        s[i].0 == ty,
        forall|j: int| 0 <= j < i ==> (#[trigger] s[j]).0 != ty,
    ensures
        lang_index(s, ty) == i,
    decreases i,
{
    if i > 0 {
        assert(s.first().0 != ty);
        assert(s.drop_first()[i - 1] == s[i]);
        assert forall|j: int| 0 <= j < i - 1 implies (#[trigger] s.drop_first()[j]).0 != ty by {
            assert(s.drop_first()[j] == s[j + 1]);
        }
        lemma_lang_index_found(s.drop_first(), ty, i - 1);
    }
}

/// Each language has at most one aggregate entry.
pub open spec fn unique_lang_keys(s: Seq<(LanguageType, LanguageView)>) -> bool {
    forall|i: int, j: int| 0 <= i < j < s.len() ==> (#[trigger] s[i]).0 != (#[trigger] s[j]).0
}

/// Every entry is a well-formed aggregate whose running totals agree
/// with its reports, and no language has two entries.
pub open spec fn languages_wf(s: Seq<(LanguageType, LanguageView)>) -> bool {
    &&& unique_lang_keys(s)
    &&& forall|i: int|
        0 <= i < s.len() ==> (#[trigger] s[i]).1.wf() && s[i].1.totals_match()
}

/// The grand totals over all aggregates' own counters.
pub open spec fn langs_sum(s: Seq<(LanguageType, LanguageView)>) -> Counts
    decreases s,
{
    if s.len() == 0 {
        Counts::zero()
    } else {
        langs_sum(s.drop_last()).add(s.last().1.counts())
    }
}

/// Whether any aggregate is marked inaccurate.
pub open spec fn langs_inaccurate(s: Seq<(LanguageType, LanguageView)>) -> bool
    decreases s,
{
    if s.len() == 0 {
        false
    } else {
        langs_inaccurate(s.drop_last()) || s.last().1.inaccurate
    }
}

/// The per-language file breakdown carried by the grand-total snapshot:
/// one child entry per aggregated language, holding its reports.
pub open spec fn total_children_spec(s: Seq<(LanguageType, LanguageView)>) -> Seq<
    (LanguageType, Seq<ReportView>),
> {
    Seq::new(s.len(), |i: int| (s[i].0, s[i].1.reports))
}

/// The collection after one language is marked inaccurate: its entry
/// carries the flag, and is created empty first if it was absent.
pub open spec fn mark_inaccurate_spec(
    s: Seq<(LanguageType, LanguageView)>,
    ty: LanguageType,
) -> Seq<(LanguageType, LanguageView)> {
    let idx = lang_index(s, ty);
    if idx < 0 {
        s.push((ty, LanguageView { inaccurate: true, ..LanguageView::empty() }))
    } else {
        s.update(idx, (ty, LanguageView { inaccurate: true, ..s[idx].1 }))
    }
}

/// The collection after folding one report in under `ty`: the entry for
/// `ty` absorbs the report, and is created first if no file of that
/// language was seen before.
pub open spec fn add_report_spec(
    s: Seq<(LanguageType, LanguageView)>,
    ty: LanguageType,
    rv: ReportView,
) -> Seq<(LanguageType, LanguageView)> {
    let idx = lang_index(s, ty);
    if idx < 0 {
        s.push((ty, lang_add_report(LanguageView::empty(), rv)))
    } else {
        s.update(idx, (ty, lang_add_report(s[idx].1, rv)))
    }
}

proof fn lemma_langs_sum_take(s: Seq<(LanguageType, LanguageView)>, i: int)
    requires
        0 <= i < s.len(),
    ensures
        langs_sum(s.take(i + 1)) == langs_sum(s.take(i)).add(s[i].1.counts()),
        langs_inaccurate(s.take(i + 1)) == (langs_inaccurate(s.take(i)) || s[i].1.inaccurate),
{
    assert(s.take(i + 1).drop_last() =~= s.take(i));
    assert(s.take(i + 1).last() == s[i]);
}

proof fn lemma_langs_sum_non_negative(s: Seq<(LanguageType, LanguageView)>)
    requires
        forall|i: int| 0 <= i < s.len() ==> (#[trigger] s[i]).1.wf() && s[i].1.totals_match(),
    ensures
        langs_sum(s).non_negative(),
    decreases s,
{
    if s.len() > 0 {
        assert forall|i: int|
            0 <= i < s.drop_last().len() implies (#[trigger] s.drop_last()[i]).1.wf()
            && s.drop_last()[i].1.totals_match() by {
            assert(s.drop_last()[i] == s[i]);
        }
        lemma_langs_sum_non_negative(s.drop_last());
        assert(s.last().1.wf() && s.last().1.totals_match());
        crate::language::lemma_reports_sum_non_negative(s.last().1.reports);
    }
}

proof fn lemma_langs_sum_bounded(s: Seq<(LanguageType, LanguageView)>, i: int)
    requires
        forall|j: int| 0 <= j < s.len() ==> (#[trigger] s[j]).1.wf() && s[j].1.totals_match(),
        0 <= i <= s.len(),
    ensures
        langs_sum(s.take(i)).blanks <= langs_sum(s).blanks,
        langs_sum(s.take(i)).code <= langs_sum(s).code,
        langs_sum(s.take(i)).comments <= langs_sum(s).comments,
    decreases s.len() - i,
{
    if i == s.len() {
        assert(s.take(i) =~= s);
    } else {
        lemma_langs_sum_take(s, i);
        assert(s[i].1.wf() && s[i].1.totals_match());
        crate::language::lemma_reports_sum_non_negative(s[i].1.reports);
        lemma_langs_sum_bounded(s, i + 1);
    }
}

proof fn lemma_langs_sum_non_negative_take(s: Seq<(LanguageType, LanguageView)>, i: int)
    requires
        forall|j: int| 0 <= j < s.len() ==> (#[trigger] s[j]).1.wf() && s[j].1.totals_match(),
        0 <= i <= s.len(),
    ensures
        langs_sum(s.take(i)).non_negative(),
{
    assert forall|j: int|
        0 <= j < s.take(i).len() implies (#[trigger] s.take(i)[j]).1.wf() && s.take(
        i,
    )[j].1.totals_match() by {
        assert(s.take(i)[j] == s[j]);
    }
    lemma_langs_sum_non_negative(s.take(i));
}

/// The aggregates of every language encountered in one scan, keyed by
/// language, with at most one entry per language.  An absent entry
/// means that no file of that language was seen, which is different
/// from a present but empty aggregate.
pub struct Languages {
    inner: Vec<(LanguageType, Language)>,
}

impl View for Languages {
    type V = Seq<(LanguageType, LanguageView)>;

    closed spec fn view(&self) -> Seq<(LanguageType, LanguageView)> {
        Seq::new(self.inner@.len(), |i: int| (self.inner@[i].0, self.inner@[i].1@))
    }
}

impl Languages {
    /// Creates an empty collection: no language was seen yet.
    pub fn new() -> (r: Languages)
        ensures
            r@ == Seq::<(LanguageType, LanguageView)>::empty(),
            languages_wf(r@),
    {
        let r = Languages { inner: Vec::new() };
        proof {
            assert(r@ =~= Seq::<(LanguageType, LanguageView)>::empty());
        }
        r
    }

    /// The number of languages with an aggregate entry.
    pub fn len(&self) -> (r: usize)
        ensures
            r == self@.len(),
    {
        self.inner.len()
    }

    /// The aggregate entries, in the order their languages were first
    /// encountered.
    pub fn get_languages(&self) -> (r: &Vec<(LanguageType, Language)>)
        ensures
            r@.len() == self@.len(),
            forall|i: int| 0 <= i < r@.len() ==> (#[trigger] r@[i]).0 == self@[i].0 && r@[i].1@
                == self@[i].1,
    {
        &self.inner
    }

    /// Folds one classified report into the aggregate of its language,
    /// creating that aggregate on first encounter.
    pub fn add_report(&mut self, ty: LanguageType, report: Report)
        requires
            languages_wf(old(self)@),
            report@.wf(),
            match lang_lookup(old(self)@, ty) {
                Some(l) => l.blanks + report@.stats.blanks <= usize::MAX && l.code
                    + report@.stats.code <= usize::MAX && l.comments + report@.stats.comments
                    <= usize::MAX,
                None => true,
            },
        ensures
            final(self)@ == add_report_spec(old(self)@, ty, report@),
            languages_wf(final(self)@),
    {
        proof {
            lemma_lang_index(self@, ty);
        }
        let n = self.inner.len();
        let mut i: usize = 0;
        while i < n
            invariant
                n == self.inner@.len(),
                i <= n,
                self == old(self),
                languages_wf(old(self)@),
                report@.wf(),
                match lang_lookup(old(self)@, ty) {
                    Some(l) => l.blanks + report@.stats.blanks <= usize::MAX && l.code
                        + report@.stats.code <= usize::MAX && l.comments + report@.stats.comments
                        <= usize::MAX,
                    None => true,
                },
                forall|j: int| 0 <= j < i ==> (#[trigger] self@[j]).0 != ty,
            decreases n - i,
        {
            if self.inner[i].0 == ty {
                proof {
                    assert((self@[i as int]).0 == ty);
                    lemma_lang_index_found(self@, ty, i as int);
                    assert(lang_lookup(self@, ty) == Some(self@[i as int].1));
                }
                let mut entry = self.inner.remove(i);
                proof {
                    assert(entry.1@ == old(self)@[i as int].1);
                    assert(entry.1@.wf() && entry.1@.totals_match());
                }
                entry.1.add_report(report);
                self.inner.insert(i, entry);
                proof {
                    let os = old(self)@;
                    let idx = i as int;
                    assert(entry.1@ =~= lang_add_report(os[idx].1, report@));
                    assert(self@ =~= os.update(idx, (ty, lang_add_report(os[idx].1, report@))));
                    assert forall|j: int|
                        0 <= j < self@.len() implies (#[trigger] self@[j]).1.wf()
                        && self@[j].1.totals_match() by {
                        if j != idx {
                            assert(self@[j] == os[j]);
                        }
                    }
                }
                return ;
            }
            proof {
                assert((self@[i as int]).0 == self.inner@[i as int].0);
            }
            i = i + 1;
        }
        let mut fresh = Language::new();
        fresh.add_report(report);
        self.inner.push((ty, fresh));
        proof {
            let os = old(self)@;
            assert(lang_index(os, ty) < 0) by {
                lemma_lang_index(os, ty);
                if lang_index(os, ty) >= 0 {
                    assert(os[lang_index(os, ty)].0 == ty);
                }
            }
            assert(fresh@ =~= lang_add_report(LanguageView::empty(), report@));
            assert(self@ =~= os.push((ty, fresh@)));
            assert forall|j: int|
                0 <= j < self@.len() implies (#[trigger] self@[j]).1.wf()
                && self@[j].1.totals_match() by {
                if j < os.len() {
                    assert(self@[j] == os[j]);
                }
            }
        }
    }

    /// Marks the aggregate of one language as possibly inaccurate,
    /// creating an empty marked aggregate if none is present.  The flag
    /// is never cleared again.
    pub fn mark_inaccurate(&mut self, ty: LanguageType)
        requires
            languages_wf(old(self)@),
        ensures
            final(self)@ == mark_inaccurate_spec(old(self)@, ty),
            languages_wf(final(self)@),
    {
        proof {
            lemma_lang_index(self@, ty);
        }
        let n = self.inner.len();
        let mut i: usize = 0;
        while i < n
            invariant
                n == self.inner@.len(),
                i <= n,
                self == old(self),
                languages_wf(old(self)@),
                forall|j: int| 0 <= j < i ==> (#[trigger] self@[j]).0 != ty,
            decreases n - i,
        {
            if self.inner[i].0 == ty {
                proof {
                    assert((self@[i as int]).0 == ty);
                    lemma_lang_index_found(self@, ty, i as int);
                }
                let mut entry = self.inner.remove(i);
                entry.1.mark_inaccurate();
                self.inner.insert(i, entry);
                proof {
                    let os = old(self)@;
                    let idx = i as int;
                    assert(entry.1@ =~= (LanguageView { inaccurate: true, ..os[idx].1 }));
                    assert(self@ =~= os.update(
                        idx,
                        (ty, LanguageView { inaccurate: true, ..os[idx].1 }),
                    ));
                    assert forall|j: int|
                        0 <= j < self@.len() implies (#[trigger] self@[j]).1.wf()
                        && self@[j].1.totals_match() by {
                        if j != idx {
                            assert(self@[j] == os[j]);
                        } else {
                            assert(os[idx].1.wf() && os[idx].1.totals_match());
                        }
                    }
                }
                return ;
            }
            proof {
                assert((self@[i as int]).0 == self.inner@[i as int].0);
            }
            i = i + 1;
        }
        let mut fresh = Language::new();
        fresh.mark_inaccurate();
        self.inner.push((ty, fresh));
        proof {
            let os = old(self)@;
            assert(lang_index(os, ty) < 0) by {
                lemma_lang_index(os, ty);
                if lang_index(os, ty) >= 0 {
                    assert(os[lang_index(os, ty)].0 == ty);
                }
            }
            assert(fresh@ =~= (LanguageView { inaccurate: true, ..LanguageView::empty() }));
            assert(self@ =~= os.push((ty, fresh@)));
            assert forall|j: int|
                0 <= j < self@.len() implies (#[trigger] self@[j]).1.wf()
                && self@[j].1.totals_match() by {
                if j < os.len() {
                    assert(self@[j] == os[j]);
                } else {
                    assert(self@[j].1 == fresh@);
                    assert(fresh@.reports =~= Seq::<ReportView>::empty());
                }
            }
        }
    }

    /// Looks the aggregate of one language up.  Absence is an expected
    /// outcome, reported through the error, never by handing back some
    /// other language's aggregate.
    pub fn get(&self, ty: LanguageType) -> (r: Result<&Language, LanguageTypeNotFound>)
        ensures
            match r {
                Ok(l) => lang_lookup(self@, ty) == Some(l@),
                Err(e) => lang_lookup(self@, ty) is None && e.language_type == ty,
            },
    {
        proof {
            lemma_lang_index(self@, ty);
        }
        let n = self.inner.len();
        let mut i: usize = 0;
        while i < n
            invariant
                n == self.inner@.len(),
                i <= n,
                forall|j: int| 0 <= j < i ==> (#[trigger] self@[j]).0 != ty,
            decreases n - i,
        {
            if self.inner[i].0 == ty {
                proof {
                    assert((self@[i as int]).0 == ty);
                    lemma_lang_index_found(self@, ty, i as int);
                }
                return Ok(&self.inner[i].1);
            }
            proof {
                assert((self@[i as int]).0 == self.inner@[i as int].0);
            }
            i = i + 1;
        }
        proof {
            if lang_index(self@, ty) >= 0 {
                assert(self@[lang_index(self@, ty)].0 == ty);
            }
        }
        Err(LanguageTypeNotFound { language_type: ty })
    }

    /// The display names of every language with an aggregate entry, in
    /// entry order.
    pub fn language_names(&self) -> (r: Vec<&'static str>)
        ensures
            r@.len() == self@.len(),
            forall|i: int| 0 <= i < r@.len() ==> (#[trigger] r@[i])@ == name_spec(self@[i].0),
    {
        let n = self.inner.len();
        let mut r: Vec<&'static str> = Vec::new();
        let mut i: usize = 0;
        while i < n
            invariant
                n == self.inner@.len(),
                i <= n,
                r@.len() == i,
                forall|j: int| 0 <= j < i ==> (#[trigger] r@[j])@ == name_spec(self@[j].0),
            decreases n - i,
        {
            proof {
                assert((self@[i as int]).0 == self.inner@[i as int].0);
            }
            r.push(self.inner[i].0.name());
            i = i + 1;
        }
        r
    }

    /// Produces the grand-total snapshot over every aggregate: a
    /// synthetic language whose counters are the sums of all languages'
    /// own totals, which is inaccurate when any language is, and whose
    /// children list each aggregated language with its reports.  The
    /// snapshot holds no reports of its own; the number of scanned
    /// files is the sum of its children's report counts.  A scan that
    /// matched no file yields all-zero counters and no children.
    pub fn total(&self) -> (r: Language)
        requires
            languages_wf(self@),
            langs_sum(self@).blanks <= usize::MAX,
            langs_sum(self@).code <= usize::MAX,
            langs_sum(self@).comments <= usize::MAX,
        ensures
            r@.blanks == langs_sum(self@).blanks,
            r@.code == langs_sum(self@).code,
            r@.comments == langs_sum(self@).comments,
            r@.inaccurate == langs_inaccurate(self@),
            r@.reports.len() == 0,
            r@.children == total_children_spec(self@),
            r@.wf(),
    {
        proof {
            lemma_langs_sum_non_negative(self@);
        }
        let n = self.inner.len();
        let mut blanks: usize = 0;
        let mut code: usize = 0;
        let mut comments: usize = 0;
        let mut inaccurate: bool = false;
        let mut children: Vec<(LanguageType, Vec<Report>)> = Vec::new();
        let mut i: usize = 0;
        while i < n
            invariant
                n == self.inner@.len(),
                self@.len() == n,
                i <= n,
                languages_wf(self@),
                langs_sum(self@).blanks <= usize::MAX,
                langs_sum(self@).code <= usize::MAX,
                langs_sum(self@).comments <= usize::MAX,
                blanks == langs_sum(self@.take(i as int)).blanks,
                code == langs_sum(self@.take(i as int)).code,
                comments == langs_sum(self@.take(i as int)).comments,
                inaccurate == langs_inaccurate(self@.take(i as int)),
                children@.len() == i,
                forall|j: int| 0 <= j < i ==> (#[trigger] children@[j]).0 == self@[j].0
                    && reports_view(children@[j].1@) == self@[j].1.reports,
                forall|j: int| 0 <= j < n ==> (#[trigger] self@[j]) == (
                self.inner@[j].0,
                self.inner@[j].1@,
                ),
            decreases n - i,
        {
            proof {
                lemma_langs_sum_take(self@, i as int);
                lemma_langs_sum_bounded(self@, i + 1);
                lemma_langs_sum_non_negative_take(self@, i as int);
                lemma_langs_sum_non_negative_take(self@, i + 1);
                assert(self@[i as int].1.wf() && self@[i as int].1.totals_match());
                crate::language::lemma_reports_sum_non_negative(self@[i as int].1.reports);
            }
            let entry = &self.inner[i];
            blanks = blanks + entry.1.blanks();
            code = code + entry.1.code();
            comments = comments + entry.1.comments();
            inaccurate = inaccurate || entry.1.inaccurate();
            children.push((entry.0, crate::language::duplicate_reports(entry.1.reports())));
            i = i + 1;
        }
        proof {
            assert(self@.take(n as int) =~= self@);
        }
        let r = Language::assemble(blanks, code, comments, Vec::new(), children, inaccurate);
        proof {
            assert(r@.children =~= total_children_spec(self@));
            assert(r@.reports =~= Seq::<ReportView>::empty());
            assert forall|j: int|
                0 <= j < r@.children.len() implies crate::language::reports_wf(
                (#[trigger] r@.children[j]).1,
            ) by {
                assert(r@.children[j].1 == self@[j].1.reports);
                assert(self@[j].1.wf());
            }
        }
        r
    }
}

} // verus!
