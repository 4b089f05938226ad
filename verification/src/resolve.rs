//! The target resolver: turns one wordlist line into the candidates the scan
//! will probe, honouring the configured extension list and trailing-slash
//! rule.

use vstd::prelude::*;
use vstd::string::StringExecFns;
use crate::config::ScanConfig;
use crate::target::BaseUrl;
use crate::target::spec_url_for;

verus! {

/// One unit of work: a wordlist line, a chosen extension (or none), and the
/// trailing-slash rule in force. Derived deterministically from a wordlist
/// line and the configuration; immutable; consumed once by the scheduler.
pub struct Candidate {
    /// The wordlist line, as read.
    pub line: String,
    /// The extension chosen for this candidate, without the dot.
    pub extension: Option<String>,
    /// Whether a trailing slash is appended to the path.
    pub add_slash: bool,
}

/// The mathematical model of a `Candidate`.
#[verifier::ext_equal]
pub struct CandidateView {
    pub line: Seq<char>,
    pub extension: Option<Seq<char>>,
    pub add_slash: bool,
}

impl View for Candidate {
    type V = CandidateView;

    open spec fn view(&self) -> CandidateView {
        CandidateView {
            line: self.line@,
            extension: match self.extension {
                Some(ref e) => Some(e@),
                None => None,
            },
            add_slash: self.add_slash,
        }
    }
}

impl DeepView for Candidate {
    type V = CandidateView;

    open spec fn deep_view(&self) -> CandidateView {
        self.view()
    }
}

/// The path fragment of a candidate: the line, then `.` and the extension
/// when one was chosen, then a trailing `/` when the slash rule is set — the
/// slash comes after the extension.
pub open spec fn spec_candidate_path(c: CandidateView) -> Seq<char> {
    (match c.extension {
        Some(e) => c.line + seq!['.'] + e,
        None => c.line,
    }) + if c.add_slash {
        seq!['/']
    } else {
        Seq::<char>::empty()
    }
}

/// The candidates one wordlist line resolves to: one per configured
/// extension, in the extension list's order and without deduplication, or a
/// single extensionless candidate when no extension is configured.
pub open spec fn spec_resolve(line: Seq<char>, exts: Seq<Seq<char>>, add_slash: bool) -> Seq<
    CandidateView,
> {
    if exts.len() == 0 {
        seq![CandidateView { line, extension: None, add_slash }]
    } else {
        Seq::new(exts.len(), |i: int| CandidateView { line, extension: Some(exts[i]), add_slash })
    }
}

impl Candidate {
    /// Renders this candidate's path fragment.
    pub fn path(&self) -> (r: String)
        ensures
            r@ == spec_candidate_path(self@),
    {
        let mut s = self.line.as_str().to_owned();
        match &self.extension {
            Some(e) => {
                s.append(".");
                s.append(e.as_str());
            },
            None => {},
        }
        if self.add_slash {
            s.append("/");
        }
        proof {
            reveal_strlit(".");
            reveal_strlit("/");
            assert(s@ =~= spec_candidate_path(self@));
        }
        s
    }

    /// Builds the concrete request URL for this candidate under `base`.
    pub fn url(&self, base: &BaseUrl) -> (r: String)
        ensures
            r@ == spec_url_for(base@, spec_candidate_path(self@)),
    {
        let p = self.path();
        base.url_for(p.as_str())
    }
}

/// Resolves one wordlist line into its candidates. Exactly `max(1, |exts|)`
/// candidates are produced, each a deterministic function of the line, the
/// extension list and the slash flag alone: with no extension configured, the
/// line as-is; otherwise one candidate per extension, in list order,
/// duplicates kept.
pub fn resolve(line: &str, extensions: &Vec<String>, add_slash: bool) -> (r: Vec<Candidate>)
    ensures
        r.deep_view() == spec_resolve(line@, extensions.deep_view(), add_slash),
        r@.len() == if extensions@.len() == 0 {
            1int
        } else {
            extensions@.len() as int
        },
{
    let ghost exts = extensions.deep_view();
    let mut r: Vec<Candidate> = Vec::new();
    if extensions.len() == 0 {
        r.push(Candidate { line: line.to_owned(), extension: None, add_slash });
        proof {
            assert(r.deep_view() =~~= spec_resolve(line@, exts, add_slash));
        }
        return r;
    }
    let mut i: usize = 0;
    proof {
        assert(r.deep_view() =~~= spec_resolve(line@, exts, add_slash).take(0));
    }
    while i < extensions.len()
        invariant
            i <= extensions@.len(),
            exts == extensions.deep_view(),
            exts.len() == extensions@.len(),
            r@.len() == i,
            r.deep_view() == spec_resolve(line@, exts, add_slash).take(i as int),
        decreases extensions@.len() - i,
    {
        let ext = extensions[i].clone();
        proof {
            assert(ext@ == exts[i as int]);
        }
        let ghost prev = r.deep_view();
        r.push(Candidate { line: line.to_owned(), extension: Some(ext), add_slash });
        proof {
            let ghost full = spec_resolve(line@, exts, add_slash);
            assert forall|j: int| 0 <= j <= i implies r.deep_view()[j] == full.take(i as int + 1)[j] by {
                assert(r.deep_view()[j] == r@[j].deep_view());
                if j < i {
                    assert(r.deep_view()[j] == prev[j]);
                }
            }
            assert(r.deep_view() =~~= full.take(i as int + 1));
        }
        i = i + 1;
    }
    proof {
        assert(spec_resolve(line@, exts, add_slash).take(exts.len() as int) =~~= spec_resolve(
            line@,
            exts,
            add_slash,
        ));
    }
    r
}

impl ScanConfig {
    /// Resolves one wordlist line under this configuration.
    pub fn resolve_line(&self, line: &str) -> (r: Vec<Candidate>)
        ensures
            r.deep_view() == spec_resolve(line@, self.extensions.deep_view(), self.add_slash),
            r@.len() == if self.extensions@.len() == 0 {
                1int
            } else {
                self.extensions@.len() as int
            },
    {
        resolve(line, &self.extensions, self.add_slash)
    }
}

/// How many candidates a scan of `line_count` wordlist lines makes under
/// `extension_count` configured extensions: `line_count * max(1,
/// extension_count)`, or `None` when that exceeds `u64::MAX`.
pub fn candidate_total(line_count: u64, extension_count: u64) -> (r: Option<u64>)
    ensures
        ({
            let per = if extension_count == 0 {
                1int
            } else {
                extension_count as int
            };
            &&& (r matches Some(n) ==> n == line_count * per)
            &&& (r is None <==> line_count * per > u64::MAX)
        }),
{
    let per: u64 = if extension_count == 0 {
        1
    } else {
        extension_count
    };
    proof {
        assert((line_count as u128) * (per as u128)
            <= 0xfffffffffffffffe0000000000000001u128) by (nonlinear_arith)
            requires
                line_count <= u64::MAX,
                per <= u64::MAX,
        ;
    }
    let product: u128 = (line_count as u128) * (per as u128);
    if product > u64::MAX as u128 {
        None
    } else {
        Some(product as u64)
    }
}

/// The resolver is idempotent: it pins its result to `spec_resolve`, a
/// function of the line, the extension list and the slash flag alone, so two
/// runs on identical inputs yield identical candidate sequences.
pub proof fn lemma_resolver_idempotent(
    line: Seq<char>,
    exts: Seq<Seq<char>>,
    add_slash: bool,
    r1: Seq<CandidateView>,
    r2: Seq<CandidateView>,
)
    requires
        r1 == spec_resolve(line, exts, add_slash),
        r2 == spec_resolve(line, exts, add_slash),
    ensures
        r1 == r2,
{
}

} // verus!
