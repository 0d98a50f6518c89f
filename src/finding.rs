use vstd::prelude::*;

verus! {

/// How serious a finding is, ordered `Info < Low < Medium < High < Critical`.
#[derive(PartialEq, Eq, Structural, Clone, Copy, Debug, PartialOrd, Ord, Hash)]
pub enum Severity {
    Info,
    Low,
    Medium,
    High,
    Critical,
}

impl Severity {
    /// Position of the severity in the total order, `Info` being 0.
    pub open spec fn spec_rank(self) -> nat {
        match self {
            Severity::Info => 0,
            Severity::Low => 1,
            Severity::Medium => 2,
            Severity::High => 3,
            Severity::Critical => 4,
        }
    }

    pub fn rank(&self) -> (r: u8)
        ensures
            r as nat == self.spec_rank(),
    {
        match self {
            Severity::Info => 0,
            Severity::Low => 1,
            Severity::Medium => 2,
            Severity::High => 3,
            Severity::Critical => 4,
        }
    }
}


/// Severity names, as reports print them.
impl Severity {
    pub fn as_str(&self) -> (r: &'static str)
        ensures
            r@ == self.spec_name(),
    {
        match self {
            Severity::Info => "Info",
            Severity::Low => "Low",
            Severity::Medium => "Medium",
            Severity::High => "High",
            Severity::Critical => "Critical",
        }
    }

    pub open spec fn spec_name(self) -> Seq<char> {
        match self {
            Severity::Info => "Info"@,
            Severity::Low => "Low"@,
            Severity::Medium => "Medium"@,
            Severity::High => "High"@,
            Severity::Critical => "Critical"@,
        }
    }
}

/// Which probe produced a finding: a compiled-in module, or a sandboxed plugin
/// identified by its artifact's file name.
#[derive(Clone, Debug)]
pub enum ProbeSource {
    Native(String),
    Plugin(String),
}

impl ProbeSource {
    pub fn duplicate(&self) -> (r: ProbeSource)
        ensures
            r == *self,
    {
        match self {
            ProbeSource::Native(n) => ProbeSource::Native(n.clone()),
            ProbeSource::Plugin(n) => ProbeSource::Plugin(n.clone()),
        }
    }
}

/// One reported observation. Findings are values: they are produced once,
/// then only aggregated and sorted.
#[derive(Clone, Debug)]
pub struct Vulnerability {
    pub name: String,
    pub severity: Severity,
    pub description: String,
    pub evidence: String,
    pub source: ProbeSource,
}

impl Vulnerability {
    pub fn duplicate(&self) -> (r: Vulnerability)
        ensures
            r == *self,
    {
        Vulnerability {
            name: self.name.clone(),
            severity: self.severity,
            description: self.description.clone(),
            evidence: self.evidence.clone(),
            source: self.source.duplicate(),
        }
    }
}

/// Whether `v` is tagged as coming from the plugin named `plugin`.
pub open spec fn from_plugin(v: Vulnerability, plugin: Seq<char>) -> bool {
    v.source matches ProbeSource::Plugin(n) && n@ == plugin
}

/// Whether `v` is tagged as coming from the native module named `module`.
pub open spec fn from_native(v: Vulnerability, module: Seq<char>) -> bool {
    v.source matches ProbeSource::Native(n) && n@ == module
}

/// The findings of `s` whose severity is `sev`, in their original order.
pub open spec fn with_severity(s: Seq<Vulnerability>, sev: Severity) -> Seq<Vulnerability> {
    s.filter(|f: Vulnerability| f.severity == sev)
}

/// `s` ordered from most to least severe; findings of equal severity keep
/// their relative order.
pub open spec fn severity_sorted(s: Seq<Vulnerability>) -> Seq<Vulnerability> {
    with_severity(s, Severity::Critical) + with_severity(s, Severity::High) + with_severity(
        s,
        Severity::Medium,
    ) + with_severity(s, Severity::Low) + with_severity(s, Severity::Info)
}

/// Appends to `out` the findings of `v` with severity `sev`.
fn append_with_severity(out: &mut Vec<Vulnerability>, v: &Vec<Vulnerability>, sev: Severity)
    ensures
        final(out)@ == old(out)@ + with_severity(v@, sev),
{
    let ghost start = out@;
    let mut i: usize = 0;
    while i < v.len()
        invariant
            i <= v@.len(),
            out@ == start + with_severity(v@.subrange(0, i as int), sev),
        decreases v@.len() - i,
    {
        proof {
            reveal(Seq::filter);
            assert(v@.subrange(0, i + 1).drop_last() =~= v@.subrange(0, i as int));
        }
        if v[i].severity == sev {
            out.push(v[i].duplicate());
        }
        i += 1;
    }
    proof {
        assert(v@.subrange(0, v@.len() as int) =~= v@);
    }
}

/// Orders findings from most to least severe, keeping the relative order of
/// findings of equal severity.
pub fn sort_by_severity(v: &Vec<Vulnerability>) -> (r: Vec<Vulnerability>)
    ensures
        r@ == severity_sorted(v@),
{
    let mut out: Vec<Vulnerability> = Vec::new();
    append_with_severity(&mut out, v, Severity::Critical);
    append_with_severity(&mut out, v, Severity::High);
    append_with_severity(&mut out, v, Severity::Medium);
    append_with_severity(&mut out, v, Severity::Low);
    append_with_severity(&mut out, v, Severity::Info);
    proof {
        assert(out@ =~= severity_sorted(v@));
    }
    out
}


proof fn lemma_with_severity_all(s: Seq<Vulnerability>, sev: Severity, k: int)
    requires
        0 <= k < with_severity(s, sev).len(),
    ensures
        with_severity(s, sev)[k].severity == sev,
{
    s.lemma_filter_pred(|f: Vulnerability| f.severity == sev, k);
}

/// The severity found at position `k` of a severity-sorted sequence, read off
/// the sizes of its blocks.
pub open spec fn block_severity(s: Seq<Vulnerability>, k: int) -> Severity {
    let c = with_severity(s, Severity::Critical).len();
    let h = c + with_severity(s, Severity::High).len();
    let m = h + with_severity(s, Severity::Medium).len();
    let l = m + with_severity(s, Severity::Low).len();
    if k < c {
        Severity::Critical
    } else if k < h {
        Severity::High
    } else if k < m {
        Severity::Medium
    } else if k < l {
        Severity::Low
    } else {
        Severity::Info
    }
}

proof fn lemma_block_severity(s: Seq<Vulnerability>, k: int)
    requires
        0 <= k < severity_sorted(s).len(),
    ensures
        severity_sorted(s)[k].severity == block_severity(s, k),
{
    let a = with_severity(s, Severity::Critical);
    let b = with_severity(s, Severity::High);
    let c = with_severity(s, Severity::Medium);
    let d = with_severity(s, Severity::Low);
    let e = with_severity(s, Severity::Info);
    let t = severity_sorted(s);
    assert(t == a + b + c + d + e);
    if k < a.len() {
        assert(t[k] == a[k]);
        lemma_with_severity_all(s, Severity::Critical, k);
    } else if k < a.len() + b.len() {
        assert(t[k] == b[k - a.len()]);
        lemma_with_severity_all(s, Severity::High, k - a.len());
    } else if k < a.len() + b.len() + c.len() {
        assert(t[k] == c[k - a.len() - b.len()]);
        lemma_with_severity_all(s, Severity::Medium, k - a.len() - b.len());
    } else if k < a.len() + b.len() + c.len() + d.len() {
        assert(t[k] == d[k - a.len() - b.len() - c.len()]);
        lemma_with_severity_all(s, Severity::Low, k - a.len() - b.len() - c.len());
    } else {
        assert(t[k] == e[k - a.len() - b.len() - c.len() - d.len()]);
        lemma_with_severity_all(s, Severity::Info, k - a.len() - b.len() - c.len() - d.len());
    }
}

/// In a severity-sorted sequence no finding comes before a more severe one.
pub proof fn lemma_sorted_descending(s: Seq<Vulnerability>, i: int, j: int)
    requires
        0 <= i <= j < severity_sorted(s).len(),
    ensures
        severity_sorted(s)[i].severity.spec_rank() >= severity_sorted(s)[j].severity.spec_rank(),
{
    lemma_block_severity(s, i);
    lemma_block_severity(s, j);
}


proof fn lemma_refilter(s: Seq<Vulnerability>, x: Severity, sev: Severity)
    ensures
        with_severity(with_severity(s, x), sev) == if x == sev {
            with_severity(s, sev)
        } else {
            Seq::<Vulnerability>::empty()
        },
    decreases s.len(),
{
    reveal(Seq::filter);
    if s.len() > 0 {
        lemma_refilter(s.drop_last(), x, sev);
        let p = |f: Vulnerability| f.severity == x;
        let inner = with_severity(s, x);
        if p(s.last()) {
            assert(inner == with_severity(s.drop_last(), x).push(s.last()));
            assert(inner.drop_last() =~= with_severity(s.drop_last(), x));
        }
    }
}

/// Sorting by severity neither drops, adds nor reorders the findings of any
/// one severity.
pub proof fn lemma_sorted_keeps_each_severity(s: Seq<Vulnerability>, sev: Severity)
    ensures
        with_severity(severity_sorted(s), sev) == with_severity(s, sev),
{
    let p = |f: Vulnerability| f.severity == sev;
    let a = with_severity(s, Severity::Critical);
    let b = with_severity(s, Severity::High);
    let c = with_severity(s, Severity::Medium);
    let d = with_severity(s, Severity::Low);
    let e = with_severity(s, Severity::Info);
    Seq::filter_distributes_over_add(a + b + c + d, e, p);
    Seq::filter_distributes_over_add(a + b + c, d, p);
    Seq::filter_distributes_over_add(a + b, c, p);
    Seq::filter_distributes_over_add(a, b, p);
    lemma_refilter(s, Severity::Critical, sev);
    lemma_refilter(s, Severity::High, sev);
    lemma_refilter(s, Severity::Medium, sev);
    lemma_refilter(s, Severity::Low, sev);
    lemma_refilter(s, Severity::Info, sev);
    assert(with_severity(severity_sorted(s), sev) =~= with_severity(s, sev));
}

} // verus!
