//! Per-blob line counters and per-file reports, with the flattening
//! operation that folds embedded-language counters into the top level.

use vstd::prelude::*;

use crate::language_type::LanguageType;

verus! {

/// A triple of line counters: blank lines, lines of code, comment lines.
#[verifier::ext_equal]
pub ghost struct Counts {
    pub blanks: int,
    pub code: int,
    pub comments: int,
}

impl Counts {
    pub open spec fn zero() -> Counts {
        Counts { blanks: 0, code: 0, comments: 0 }
    }

    pub open spec fn add(self, o: Counts) -> Counts {
        Counts {
            blanks: self.blanks + o.blanks,
            code: self.code + o.code,
            comments: self.comments + o.comments,
        }
    }

    pub open spec fn lines(self) -> int {
        self.blanks + self.code + self.comments
    }

    pub open spec fn non_negative(self) -> bool {
        0 <= self.blanks && 0 <= self.code && 0 <= self.comments
    }

    pub open spec fn fits(self) -> bool {
        self.non_negative() && self.lines() <= usize::MAX
    }
}

/// The mathematical value of a `CodeStats`: its own three counters and
/// the statistics of the language blobs embedded in the same region.
#[verifier::ext_equal]
pub ghost struct StatsView {
    pub blanks: int,
    pub code: int,
    pub comments: int,
    pub blobs: Seq<(LanguageType, StatsView)>,
}

impl StatsView {
    pub open spec fn counts(self) -> Counts {
        Counts { blanks: self.blanks, code: self.code, comments: self.comments }
    }

    /// Lines of this blob alone, nested blobs not included.
    pub open spec fn lines(self) -> int {
        self.blanks + self.code + self.comments
    }

    pub open spec fn zero() -> StatsView {
        StatsView { blanks: 0, code: 0, comments: 0, blobs: Seq::empty() }
    }

    /// Well-formedness: counters are genuine counts that fit the machine,
    /// each embedded language appears at most once, and the nested
    /// statistics are well-formed in turn.
    pub open spec fn wf(self) -> bool
        decreases self,
    {
        &&& self.counts().fits()
        &&& unique_blob_keys(self.blobs)
        &&& blobs_wf(self.blobs)
    }
}

/// Each embedded language occurs at most once among the blobs.
pub open spec fn unique_blob_keys(s: Seq<(LanguageType, StatsView)>) -> bool {
    forall|i: int, j: int| 0 <= i < j < s.len() ==> (#[trigger] s[i]).0 != (#[trigger] s[j]).0
}

pub open spec fn blobs_wf(s: Seq<(LanguageType, StatsView)>) -> bool
    decreases s,
{
    if s.len() == 0 {
        true
    } else {
        blobs_wf(s.drop_last()) && s.last().1.wf()
    }
}

pub proof fn lemma_blobs_wf_index(s: Seq<(LanguageType, StatsView)>, i: int)
    requires
        blobs_wf(s),
        0 <= i < s.len(),
    ensures
        s[i].1.wf(),
    decreases s,
{
    if i < s.len() - 1 {
        assert(s.drop_last()[i] == s[i]);
        lemma_blobs_wf_index(s.drop_last(), i);
    }
}

pub proof fn lemma_blobs_wf_push(s: Seq<(LanguageType, StatsView)>, p: (LanguageType, StatsView))
    ensures
        blobs_wf(s.push(p)) <==> blobs_wf(s) && p.1.wf(),
{
    assert(s.push(p).drop_last() =~= s);
    assert(s.push(p).last() == p);
}

/// Well-formedness of a run of blobs carries over to every prefix.
pub proof fn lemma_blobs_wf_take(s: Seq<(LanguageType, StatsView)>, i: int)
    requires
        blobs_wf(s),
        0 <= i <= s.len(),
    ensures
        blobs_wf(s.take(i)),
    decreases s.len() - i,
{
    if i == s.len() {
        assert(s.take(i) =~= s);
    } else {
        lemma_blobs_wf_take(s, i + 1);
        assert(s.take(i + 1).drop_last() =~= s.take(i));
    }
}

/// The element-wise total of a run of blobs.
pub open spec fn blobs_sum(s: Seq<(LanguageType, StatsView)>) -> Counts
    decreases s,
{
    if s.len() == 0 {
        Counts::zero()
    } else {
        blobs_sum(s.drop_last()).add(s.last().1.counts())
    }
}

/// The sum of `lines()` over a run of blobs.
pub open spec fn blobs_lines(s: Seq<(LanguageType, StatsView)>) -> int
    decreases s,
{
    if s.len() == 0 {
        0
    } else {
        blobs_lines(s.drop_last()) + s.last().1.lines()
    }
}

pub proof fn lemma_blobs_sum_lines(s: Seq<(LanguageType, StatsView)>)
    ensures
        blobs_sum(s).lines() == blobs_lines(s),
    decreases s,
{
    if s.len() > 0 {
        lemma_blobs_sum_lines(s.drop_last());
    }
}

pub proof fn lemma_blobs_sum_non_negative(s: Seq<(LanguageType, StatsView)>)
    requires
        blobs_wf(s),
    ensures
        blobs_sum(s).non_negative(),
    decreases s,
{
    if s.len() > 0 {
        lemma_blobs_sum_non_negative(s.drop_last());
        assert(s.last().1.wf());
        assert(s.last().1.counts().non_negative());
    }
}

/// The result of flattening: nested blob counters are folded additively
/// into the top-level counters and the blob run is cleared.
pub open spec fn summarise_spec(s: StatsView) -> StatsView {
    StatsView {
        blanks: s.blanks + blobs_sum(s.blobs).blanks,
        code: s.code + blobs_sum(s.blobs).code,
        comments: s.comments + blobs_sum(s.blobs).comments,
        blobs: Seq::empty(),
    }
}

/// Flattening leaves no blobs behind, and accounts for every line once:
/// the lines of the summary are the lines of the original plus the lines
/// of each of its blobs.
pub proof fn lemma_summarise_lines(s: StatsView)
    ensures
        summarise_spec(s).blobs.len() == 0,
        summarise_spec(s).lines() == s.lines() + blobs_lines(s.blobs),
{
    lemma_blobs_sum_lines(s.blobs);
}

/// Flattening an already flattened value changes nothing.
pub proof fn lemma_summarise_idempotent(s: StatsView)
    ensures
        summarise_spec(summarise_spec(s)) == summarise_spec(s),
{
    assert(summarise_spec(summarise_spec(s)) =~= summarise_spec(s));
}

/// Per-blob line counters of one region of one file, together with the
/// statistics of embedded-language regions detected inside it.
pub struct CodeStats {
    blanks: usize,
    code: usize,
    comments: usize,
    blobs: Vec<(LanguageType, CodeStats)>,
}

pub open spec fn blobs_of(s: Seq<(LanguageType, CodeStats)>) -> Seq<(LanguageType, StatsView)>
    decreases s,
{
    if s.len() == 0 {
        Seq::empty()
    } else {
        blobs_of(s.drop_last()).push((s.last().0, s.last().1.view()))
    }
}

pub proof fn lemma_blobs_of(s: Seq<(LanguageType, CodeStats)>)
    ensures
        blobs_of(s).len() == s.len(),
        forall|i: int| 0 <= i < s.len() ==> blobs_of(s)[i] == ((#[trigger] s[i]).0, s[i].1.view()),
    decreases s,
{
    if s.len() > 0 {
        lemma_blobs_of(s.drop_last());
        let mapped = blobs_of(s.drop_last()).push((s.last().0, s.last().1.view()));
        assert(blobs_of(s) == mapped);
        assert forall|i: int| 0 <= i < s.len() implies blobs_of(s)[i] == ((#[trigger] s[i]).0, s[i].1.view()) by {
            if i < s.len() - 1 {
                assert(s.drop_last()[i] == s[i]);
                assert(mapped[i] == blobs_of(s.drop_last())[i]);
            } else {
                assert(s.last() == s[i]);
                assert(mapped[i] == (s.last().0, s.last().1.view()));
            }
        }
    }
}

impl View for CodeStats {
    type V = StatsView;

    closed spec fn view(&self) -> StatsView
        decreases self,
    {
        StatsView {
            blanks: self.blanks as int,
            code: self.code as int,
            comments: self.comments as int,
            blobs: blobs_of(self.blobs@),
        }
    }
}

impl CodeStats {
    /// Creates an empty statistics value: all counters zero, no blobs.
    pub fn new() -> (r: CodeStats)
        ensures
            r@ == StatsView::zero(),
            r@.wf(),
    {
        let r = CodeStats { blanks: 0, code: 0, comments: 0, blobs: Vec::new() };
        proof {
            assert(r@ =~= StatsView::zero());
        }
        r
    }

    /// Creates a statistics value with the given counters and no blobs.
    pub fn with_counts(blanks: usize, code: usize, comments: usize) -> (r: CodeStats)
        requires
            blanks + code + comments <= usize::MAX,
        ensures
            r@.blanks == blanks,
            r@.code == code,
            r@.comments == comments,
            r@.blobs.len() == 0,
            r@.wf(),
    {
        let r = CodeStats { blanks, code, comments, blobs: Vec::new() };
        proof {
            assert(r@.blobs =~= Seq::<(LanguageType, StatsView)>::empty());
        }
        r
    }

    /// The number of blank lines in this blob.
    pub fn blanks(&self) -> (r: usize)
        ensures
            r == self@.blanks,
    {
        self.blanks
    }

    /// The number of lines of code in this blob.
    pub fn code(&self) -> (r: usize)
        ensures
            r == self@.code,
    {
        self.code
    }

    /// The number of comment lines in this blob.
    pub fn comments(&self) -> (r: usize)
        ensures
            r == self@.comments,
    {
        self.comments
    }

    /// The statistics of embedded-language regions inside this blob.
    pub fn blobs(&self) -> (r: &Vec<(LanguageType, CodeStats)>)
        ensures
            blobs_of(r@) == self@.blobs,
    {
        &self.blobs
    }

    /// The total lines of this blob alone: blanks, code and comments.
    /// Nested blobs are not included.
    pub fn lines(&self) -> (r: usize)
        requires
            self@.wf(),
        ensures
            r == self@.lines(),
    {
        self.blanks + self.code + self.comments
    }

    /// Whether a blob for the given language is already present.
    pub fn has_blob(&self, lang: LanguageType) -> (r: bool)
        ensures
            r == exists|i: int| 0 <= i < self@.blobs.len() && (#[trigger] self@.blobs[i]).0 == lang,
    {
        proof {
            lemma_blobs_of(self.blobs@);
        }
        let n = self.blobs.len();
        let mut i: usize = 0;
        while i < n
            invariant
                n == self.blobs@.len(),
                self@.blobs.len() == n,
                i <= n,
                forall|j: int| 0 <= j < i ==> (#[trigger] self@.blobs[j]).0 != lang,
                forall|j: int|
                    0 <= j < n ==> (#[trigger] self@.blobs[j]).0 == self.blobs@[j].0,
            decreases n - i,
        {
            if self.blobs[i].0 == lang {
                proof {
                    assert((self@.blobs[i as int]).0 == lang);
                }
                return true;
            }
            i = i + 1;
        }
        false
    }

    /// Records the statistics of an embedded-language region.  Each
    /// language may be recorded at most once per blob.
    pub fn add_blob(&mut self, lang: LanguageType, stats: CodeStats)
        requires
            old(self)@.wf(),
            stats@.wf(),
            forall|i: int|
                0 <= i < old(self)@.blobs.len() ==> (#[trigger] old(self)@.blobs[i]).0 != lang,
        ensures
            final(self)@.blanks == old(self)@.blanks,
            final(self)@.code == old(self)@.code,
            final(self)@.comments == old(self)@.comments,
            final(self)@.blobs == old(self)@.blobs.push((lang, stats@)),
            final(self)@.wf(),
    {
        proof {
            lemma_blobs_of(self.blobs@);
        }
        self.blobs.push((lang, stats));
        proof {
            assert(self.blobs@.drop_last() =~= old(self).blobs@);
            assert(self@.blobs =~= old(self)@.blobs.push((lang, stats@)));
            lemma_blobs_wf_push(old(self)@.blobs, (lang, stats@));
        }
    }

    /// Creates the flattened form of this value: every blob's counters
    /// are folded additively into the top-level counters, and the blobs
    /// are cleared.
    pub fn summarise(&self) -> (r: CodeStats)
        requires
            self@.wf(),
            self@.counts().add(blobs_sum(self@.blobs)).lines() <= usize::MAX,
        ensures
            r@ == summarise_spec(self@),
            r@.wf(),
    {
        proof {
            lemma_blobs_of(self.blobs@);
            lemma_blobs_sum_non_negative(self@.blobs);
        }
        let n = self.blobs.len();
        let mut blanks: usize = self.blanks;
        let mut code: usize = self.code;
        let mut comments: usize = self.comments;
        let mut i: usize = 0;
        while i < n
            invariant
                n == self.blobs@.len(),
                self@.blobs.len() == n,
                i <= n,
                self@.wf(),
                self@.counts().add(blobs_sum(self@.blobs)).lines() <= usize::MAX,
                blanks == self@.blanks + blobs_sum(self@.blobs.take(i as int)).blanks,
                code == self@.code + blobs_sum(self@.blobs.take(i as int)).code,
                comments == self@.comments + blobs_sum(self@.blobs.take(i as int)).comments,
                forall|j: int|
                    0 <= j < n ==> (#[trigger] self@.blobs[j]) == (
                    self.blobs@[j].0,
                    self.blobs@[j].1@,
                    ),
            decreases n - i,
        {
            proof {
                lemma_blobs_sum_prefix(self@.blobs, i as int);
                lemma_blobs_wf_take(self@.blobs, i as int);
                lemma_blobs_wf_take(self@.blobs, i + 1);
                lemma_blobs_sum_non_negative(self@.blobs.take(i as int));
                lemma_blobs_sum_non_negative(self@.blobs.take(i + 1));
                lemma_blobs_sum_bounded(self@.blobs, i + 1);
                lemma_blobs_wf_index(self@.blobs, i as int);
            }
            let b = &self.blobs[i];
            blanks = blanks + b.1.blanks;
            code = code + b.1.code;
            comments = comments + b.1.comments;
            i = i + 1;
        }
        proof {
            assert(self@.blobs.take(n as int) =~= self@.blobs);
        }
        let r = CodeStats { blanks, code, comments, blobs: Vec::new() };
        proof {
            assert(r@ =~= summarise_spec(self@));
        }
        r
    }

    /// Creates an equal copy of this value.
    pub fn duplicate(&self) -> (r: CodeStats)
        ensures
            r@ == self@,
        decreases self,
    {
        proof {
            lemma_blobs_of(self.blobs@);
        }
        let n = self.blobs.len();
        let mut blobs: Vec<(LanguageType, CodeStats)> = Vec::new();
        let mut i: usize = 0;
        while i < n
            invariant
                n == self.blobs@.len(),
                i <= n,
                blobs@.len() == i,
                forall|j: int|
                    0 <= j < i ==> (#[trigger] blobs@[j]).0 == self.blobs@[j].0 && blobs@[j].1@
                        == self.blobs@[j].1@,
            decreases n - i,
        {
            let b = &self.blobs[i];
            let copy = b.1.duplicate();
            blobs.push((b.0, copy));
            i = i + 1;
        }
        let r = CodeStats { blanks: self.blanks, code: self.code, comments: self.comments, blobs };
        proof {
            lemma_blobs_of(blobs@);
            lemma_blobs_of(self.blobs@);
            assert forall|j: int| 0 <= j < self.blobs@.len() implies r@.blobs[j]
                == self@.blobs[j] by {
                assert(r@.blobs[j] == (blobs@[j].0, blobs@[j].1@));
                assert(self@.blobs[j] == (self.blobs@[j].0, self.blobs@[j].1@));
            }
            assert(r@.blobs =~= self@.blobs);
            assert(r@ =~= self@);
        }
        r
    }
}

/// `blobs_sum` over a prefix grows one blob at a time.
pub proof fn lemma_blobs_sum_prefix(s: Seq<(LanguageType, StatsView)>, i: int)
    requires
        0 <= i < s.len(),
    ensures
        blobs_sum(s.take(i + 1)) == blobs_sum(s.take(i)).add(s[i].1.counts()),
{
    assert(s.take(i + 1).drop_last() =~= s.take(i));
    assert(s.take(i + 1).last() == s[i]);
}

/// A partial blob total never exceeds the full total, provided all counts
/// are non-negative.
pub proof fn lemma_blobs_sum_bounded(s: Seq<(LanguageType, StatsView)>, i: int)
    requires
        blobs_wf(s),
        0 <= i <= s.len(),
    ensures
        blobs_sum(s.take(i)).blanks <= blobs_sum(s).blanks,
        blobs_sum(s.take(i)).code <= blobs_sum(s).code,
        blobs_sum(s.take(i)).comments <= blobs_sum(s).comments,
    decreases s.len() - i,
{
    if i == s.len() {
        assert(s.take(i) =~= s);
    } else {
        lemma_blobs_sum_prefix(s, i);
        lemma_blobs_wf_index(s, i);
        lemma_blobs_sum_bounded(s, i + 1);
    }
}

/// One file's identity together with the statistics found in it.
pub struct Report {
    name: String,
    stats: CodeStats,
}

/// The mathematical value of a `Report`.
#[verifier::ext_equal]
pub ghost struct ReportView {
    pub name: Seq<char>,
    pub stats: StatsView,
}

impl ReportView {
    pub open spec fn wf(self) -> bool {
        self.stats.wf()
    }
}

impl View for Report {
    type V = ReportView;

    closed spec fn view(&self) -> ReportView {
        ReportView { name: self.name@, stats: self.stats@ }
    }
}

impl Report {
    /// Creates a report for the named file, with empty statistics.
    pub fn new(name: &str) -> (r: Report)
        ensures
            r@.name == name@,
            r@.stats == StatsView::zero(),
            r@.wf(),
    {
        Report { name: name.to_owned(), stats: CodeStats::new() }
    }

    /// Creates a report for the named file carrying the given statistics.
    pub fn with_stats(name: &str, stats: CodeStats) -> (r: Report)
        requires
            stats@.wf(),
        ensures
            r@.name == name@,
            r@.stats == stats@,
            r@.wf(),
    {
        Report { name: name.to_owned(), stats }
    }

    /// The path of the file this report describes.
    pub fn name(&self) -> (r: &str)
        ensures
            r@ == self@.name,
    {
        self.name.as_str()
    }

    /// The statistics of the file this report describes.
    pub fn stats(&self) -> (r: &CodeStats)
        ensures
            r@ == self@.stats,
    {
        &self.stats
    }

    /// Replaces the statistics of this report.
    pub fn set_stats(&mut self, stats: CodeStats)
        requires
            stats@.wf(),
        ensures
            final(self)@.name == old(self)@.name,
            final(self)@.stats == stats@,
            final(self)@.wf(),
    {
        self.stats = stats;
    }

    /// Creates an equal copy of this report.
    pub fn duplicate(&self) -> (r: Report)
        ensures
            r@ == self@,
    {
        let r = Report { name: self.name.clone(), stats: self.stats.duplicate() };
        proof {
            assert(r@ =~= self@);
        }
        r
    }
}

} // verus!
