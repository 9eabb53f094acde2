//! Records of test runs: how a run is stamped and filed, the summary read
//! from a plan's JSON, and the listing order. Writing and reading the files
//! are left to the caller.
use vstd::prelude::*;
use crate::ext::{format_rfc3339, format_utc, utc_rfc3339, utc_text};
use crate::storage::{join_path, path_join};
use crate::text::{lemma_lex_total, lemma_lex_trans, lex_le, owned, string_views, text_le};
use crate::time::Timestamp;

verus! {

/// One recorded test run, for listing.
#[derive(Debug)]
pub struct TestSummary {
    pub dir_name: String,
    pub timestamp: String,
    pub task: String,
    pub result: String,
    pub duration_ms: u64,
}

/// Starts timing a test run.
pub fn start_test() -> std::time::Instant {
    crate::ext::instant_now()
}

/// When a run was recorded: the name of its directory and its timestamp.
#[derive(Debug)]
pub struct RunStamp {
    pub dir_name: String,
    pub timestamp: String,
}

/// The stamp of a run recorded at `now`: the directory is named
/// `YYYY-MM-DD-HHMMSS` (UTC), the timestamp is RFC 3339.
pub fn run_stamp(now: Timestamp) -> (s: RunStamp)
    ensures
        s.dir_name@ == utc_text(now.spec_micros(), "%Y-%m-%d-%H%M%S"@),
        s.timestamp@ == utc_rfc3339(now.spec_micros()),
{
    let m = now.micros();
    RunStamp { dir_name: format_utc(m, "%Y-%m-%d-%H%M%S"), timestamp: format_rfc3339(m) }
}

/// The result word of a run.
pub fn result_word(success: bool) -> (s: &'static str)
    ensures
        s@ == (if success {
            "success"@
        } else {
            "failed"@
        }),
{
    if success {
        "success"
    } else {
        "failed"
    }
}

/// The directory of the run named `dir_name` under the system's directory.
pub fn test_dir(root: &str, dir_name: &str) -> (p: String)
    ensures
        p@ == path_join(path_join(root@, "tests"@), dir_name@),
{
    let t = join_path(root, "tests");
    join_path(t.as_str(), dir_name)
}

/// The whole-number parts of a plan's summary (its complexity measure, a
/// fraction, is kept by the caller).
#[derive(Debug)]
pub struct ManifestCounts {
    pub work_mode: String,
    pub reasoning_branches: u8,
    pub domain_diversity: u8,
    pub estimated_nodes: usize,
    pub domain_tags: Vec<String>,
}

/// The texts among `s`, in order.
pub open spec fn present(s: Seq<Option<Seq<char>>>) -> Seq<Seq<char>>
    decreases s.len(),
{
    if s.len() == 0 {
        Seq::<Seq<char>>::empty()
    } else {
        let r = present(s.drop_last());
        match s.last() {
            Some(t) => r.push(t),
            None => r,
        }
    }
}

/// The texts of a list of optional strings.
pub open spec fn opt_views(s: Seq<Option<String>>) -> Seq<Option<Seq<char>>> {
    s.map_values(|o: Option<String>| crate::text::opt_text(o))
}

/// `c` is the summary of a plan whose JSON holds these values: `work_mode`
/// (when it is a string), the complexity's `reasoning_branches` and
/// `domain_diversity` (when they are whole numbers, kept to their low byte),
/// the dispatch's `estimated_nodes` and the strings among its `domain_tags`;
/// "unknown", zero or nothing where a value is missing.
pub open spec fn counts_from(
    c: ManifestCounts,
    work_mode: Option<Seq<char>>,
    reasoning_branches: Option<u64>,
    domain_diversity: Option<u64>,
    estimated_nodes: Option<u64>,
    domain_tags: Option<Seq<Option<Seq<char>>>>,
) -> bool {
    &&& c.work_mode@ == match work_mode {
        Some(w) => w,
        None => "unknown"@,
    }
    &&& c.reasoning_branches == match reasoning_branches {
        Some(n) => n % 256,
        None => 0,
    }
    &&& c.domain_diversity == match domain_diversity {
        Some(n) => n % 256,
        None => 0,
    }
    &&& c.estimated_nodes == match estimated_nodes {
        Some(n) => n as usize,
        None => 0usize,
    }
    &&& string_views(c.domain_tags@) == match domain_tags {
        Some(t) => present(t),
        None => Seq::<Seq<char>>::empty(),
    }
}

/// The summary read from what a plan's JSON holds (see `counts_from`).
pub fn manifest_counts(
    work_mode: Option<&str>,
    reasoning_branches: Option<u64>,
    domain_diversity: Option<u64>,
    estimated_nodes: Option<u64>,
    domain_tags: Option<Vec<Option<String>>>,
) -> (c: ManifestCounts)
    ensures
        counts_from(
            c,
            match work_mode {
                Some(w) => Some(w@),
                None => None,
            },
            reasoning_branches,
            domain_diversity,
            estimated_nodes,
            match domain_tags {
                Some(t) => Some(opt_views(t@)),
                None => None,
            },
        ),
{
    let ghost tv = if domain_tags is Some {
        Some(opt_views(domain_tags->0@))
    } else {
        None
    };
    let tags = match domain_tags {
        Some(t) => texts_present(&t),
        None => Vec::new(),
    };
    assert(string_views(tags@) == match tv {
        Some(t) => present(t),
        None => Seq::<Seq<char>>::empty(),
    }) by {
        if tv is None {
            assert(string_views(tags@) =~= Seq::<Seq<char>>::empty());
        }
    }
    ManifestCounts {
        work_mode: match work_mode {
            Some(w) => owned(w),
            None => owned("unknown"),
        },
        reasoning_branches: match reasoning_branches {
            Some(n) => (n % 256) as u8,
            None => 0,
        },
        domain_diversity: match domain_diversity {
            Some(n) => (n % 256) as u8,
            None => 0,
        },
        estimated_nodes: match estimated_nodes {
            Some(n) => #[verifier::truncate]
            (n as usize),
            None => 0,
        },
        domain_tags: tags,
    }
}

/// The values a plan's JSON holds where the summary reads them.
#[derive(Debug)]
pub struct ManifestFields {
    pub work_mode: Option<String>,
    pub reasoning_branches: Option<u64>,
    pub domain_diversity: Option<u64>,
    pub estimated_nodes: Option<u64>,
    pub domain_tags: Option<Vec<Option<String>>>,
}

/// The fields, as plain values.
pub open spec fn fields_view(f: ManifestFields) -> (
    Option<Seq<char>>,
    Option<u64>,
    Option<u64>,
    Option<u64>,
    Option<Seq<Option<Seq<char>>>>,
) {
    (
        crate::text::opt_text(f.work_mode),
        f.reasoning_branches,
        f.domain_diversity,
        f.estimated_nodes,
        match f.domain_tags {
            Some(t) => Some(opt_views(t@)),
            None => None,
        },
    )
}

/// What serde_json reads of the plan text `json`: nothing where it is not
/// JSON; else `work_mode` as a string, the complexity's
/// `reasoning_branches` and `domain_diversity` and the dispatch's
/// `estimated_nodes` as unsigned numbers, and the dispatch's `domain_tags`
/// as an array whose items are taken where they are strings.
pub uninterp spec fn manifest_fields_of(json: Seq<char>) -> Option<
    (Option<Seq<char>>, Option<u64>, Option<u64>, Option<u64>, Option<Seq<Option<Seq<char>>>>),
>;

/// Parses `json` with serde_json's `from_str` into a `Value` and reads the
/// plan's fields with its indexing (`Null` where a key is missing),
/// `as_str`, `as_u64` and `as_array`. The result is named
/// `manifest_fields_of(json)`; it depends on the text alone.
#[verifier::external_body]
pub fn manifest_fields(json: &str) -> (r: Option<ManifestFields>)
    ensures
        match r {
            Some(f) => manifest_fields_of(json@) == Some(fields_view(f)),
            None => manifest_fields_of(json@) is None,
        },
{
    let v: serde_json::Value = serde_json::from_str(json).ok()?;
    let (c, d) = (&v["complexity"], &v["dispatch"]);
    let tags = d["domain_tags"].as_array();
    Some(ManifestFields {
        work_mode: v["work_mode"].as_str().map(String::from),
        reasoning_branches: c["reasoning_branches"].as_u64(),
        domain_diversity: c["domain_diversity"].as_u64(),
        estimated_nodes: d["estimated_nodes"].as_u64(),
        domain_tags: tags.map(|a| a.iter().map(|t| t.as_str().map(String::from)).collect()),
    })
}

/// The summary of the plan text `json`: all missing ("unknown", zeros, no
/// tags) where it is not JSON, else read from its fields.
pub fn manifest_summary_counts(json: &str) -> (c: ManifestCounts)
    ensures
        match manifest_fields_of(json@) {
            None => counts_from(c, None, None, None, None, None),
            Some(f) => counts_from(c, f.0, f.1, f.2, f.3, f.4),
        },
{
    match manifest_fields(json) {
        None => manifest_counts(None, None, None, None, None),
        Some(f) => {
            let wm: Option<&str> = match &f.work_mode {
                Some(w) => Some(w.as_str()),
                None => None,
            };
            manifest_counts(wm, f.reasoning_branches, f.domain_diversity, f.estimated_nodes, f.domain_tags)
        },
    }
}

fn texts_present(v: &Vec<Option<String>>) -> (r: Vec<String>)
    ensures
        string_views(r@) == present(opt_views(v@)),
{
    let mut r: Vec<String> = Vec::new();
    let n = v.len();
    for i in 0..n
        invariant
            n == v@.len(),
            string_views(r@) == present(opt_views(v@).take(i as int)),
    {
        assert(opt_views(v@).take(i + 1).drop_last() =~= opt_views(v@).take(i as int));
        match &v[i] {
            Some(t) => {
                let c = t.clone();
                let ghost before = r@;
                r.push(c);
                assert(string_views(r@) =~= string_views(before).push(c@));
            },
            None => {},
        }
    }
    assert(opt_views(v@).take(n as int) =~= opt_views(v@));
    r
}

impl Default for ManifestCounts {
    /// Everything missing: "unknown", zeros and no tags.
    fn default() -> (c: ManifestCounts)
        ensures
            c.work_mode@ == "unknown"@,
            c.reasoning_branches == 0,
            c.domain_diversity == 0,
            c.estimated_nodes == 0,
            c.domain_tags@.len() == 0,
    {
        ManifestCounts {
            work_mode: owned("unknown"),
            reasoning_branches: 0,
            domain_diversity: 0,
            estimated_nodes: 0,
            domain_tags: Vec::new(),
        }
    }
}

/// The runs are in listing order: by timestamp, newest first.
pub open spec fn newest_first_order(r: Seq<TestSummary>) -> bool {
    forall|i: int, j: int|
        0 <= i < j < r.len() ==> lex_le(#[trigger] r[j].timestamp@, #[trigger] r[i].timestamp@)
}

proof fn lemma_insert_keeps_order(r: Seq<TestSummary>, p: int, x: TestSummary)
    requires
        0 <= p <= r.len(),
        newest_first_order(r),
        forall|j: int| 0 <= j < p ==> lex_le(x.timestamp@, #[trigger] r[j].timestamp@),
        p < r.len() ==> lex_le(r[p].timestamp@, x.timestamp@),
    ensures
        newest_first_order(r.insert(p, x)),
{
    let n = r.insert(p, x);
    assert forall|i: int, j: int| 0 <= i < j < n.len() implies lex_le(
        #[trigger] n[j].timestamp@,
        #[trigger] n[i].timestamp@,
    ) by {
        if j < p {
            assert(n[i] == r[i] && n[j] == r[j]);
        } else if j == p {
            assert(n[i] == r[i] && n[j] == x);
        } else if i < p {
            assert(n[i] == r[i] && n[j] == r[j - 1]);
        } else if i == p {
            assert(n[i] == x && n[j] == r[j - 1]);
            if j - 1 > p {
                assert(lex_le(r[j - 1].timestamp@, r[p].timestamp@));
                lemma_lex_trans(r[j - 1].timestamp@, r[p].timestamp@, x.timestamp@);
            }
        } else {
            assert(n[i] == r[i - 1] && n[j] == r[j - 1]);
        }
    }
}

/// The runs in listing order: the same runs, sorted by timestamp, newest
/// first (runs with equal timestamps in no stated order).
pub fn newest_first(runs: Vec<TestSummary>) -> (r: Vec<TestSummary>)
    ensures
        r@.to_multiset() == runs@.to_multiset(),
        newest_first_order(r@),
{
    broadcast use vstd::multiset::group_multiset_axioms, vstd::seq_lib::group_to_multiset_ensures;

    let ghost orig = runs@;
    let mut rest = runs;
    let mut r: Vec<TestSummary> = Vec::new();
    assert(r@.to_multiset() =~= vstd::multiset::Multiset::<TestSummary>::empty());
    assert(r@.to_multiset().add(rest@.to_multiset()) =~= orig.to_multiset());
    while rest.len() > 0
        invariant
            r@.to_multiset().add(rest@.to_multiset()) == orig.to_multiset(),
            newest_first_order(r@),
        decreases rest.len(),
    {
        let ghost before = rest@;
        let x = rest.pop().unwrap();
        assert(before =~= rest@.push(x));
        let mut p: usize = 0;
        while p < r.len() && text_le(x.timestamp.as_str(), r[p].timestamp.as_str())
            invariant
                p <= r@.len(),
                newest_first_order(r@),
                forall|j: int| 0 <= j < p ==> lex_le(x.timestamp@, #[trigger] r@[j].timestamp@),
            decreases r@.len() - p,
        {
            p = p + 1;
        }
        let ghost old_r = r@;
        proof {
            if p < old_r.len() {
                lemma_lex_total(x.timestamp@, old_r[p as int].timestamp@);
            }
            lemma_insert_keeps_order(old_r, p as int, x);
        }
        let ghost xv = x;
        r.insert(p, x);
        assert(r@ == old_r.insert(p as int, xv));
        proof {
            vstd::seq_lib::to_multiset_insert(old_r, p as int, xv);
            vstd::seq_lib::to_multiset_build(rest@, xv);
        }
        assert(r@.to_multiset().add(rest@.to_multiset()) =~= orig.to_multiset());
    }
    assert(rest@.to_multiset() =~= vstd::multiset::Multiset::<TestSummary>::empty());
    assert(r@.to_multiset() =~= r@.to_multiset().add(rest@.to_multiset()));
    r
}

} // verus!
