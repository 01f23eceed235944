use vstd::prelude::*;
use vstd::string::StrSliceExecFns;
use vstd::string::StringExecFns;

verus! {

/// How many times the separator `/` occurs in `s`.
pub open spec fn slash_count(s: Seq<char>) -> nat
    decreases s.len(),
{
    if s.len() == 0 {
        0
    } else {
        slash_count(s.drop_last()) + if s.last() == '/' { 1nat } else { 0nat }
    }
}

/// `s` holds no separator.
pub open spec fn slash_free(s: Seq<char>) -> bool {
    forall|i: int| 0 <= i < s.len() ==> s[i] != '/'
}

/// `s` names a repository: exactly one separator.
pub open spec fn is_repo_text(s: Seq<char>) -> bool {
    slash_count(s) == 1
}

pub proof fn lemma_slash_count_concat(a: Seq<char>, b: Seq<char>)
    ensures
        slash_count(a + b) == slash_count(a) + slash_count(b),
    decreases b.len(),
{
    if b.len() == 0 {
        assert(a + b =~= a);
    } else {
        lemma_slash_count_concat(a, b.drop_last());
        assert((a + b).drop_last() =~= a + b.drop_last());
    }
}

pub proof fn lemma_slash_count_zero(a: Seq<char>)
    ensures
        slash_count(a) == 0 <==> slash_free(a),
    decreases a.len(),
{
    if a.len() > 0 {
        lemma_slash_count_zero(a.drop_last());
        if slash_free(a) {
            assert(slash_free(a.drop_last()));
        }
        if slash_count(a) == 0 {
            assert forall|i: int| 0 <= i < a.len() implies a[i] != '/' by {
                if i < a.len() - 1 {
                    assert(a.drop_last()[i] == a[i]);
                }
            }
        }
    }
}

/// Every `organisation/repository` text whose two parts hold no separator is
/// accepted, and it splits in one way only: parsing it gives those two parts.
pub proof fn lemma_repo_text_parts(o: Seq<char>, r: Seq<char>, o2: Seq<char>, r2: Seq<char>)
    requires
        slash_free(o),
        slash_free(r),
        slash_free(o2),
        slash_free(r2),
        o2 + seq!['/'] + r2 == o + seq!['/'] + r,
    ensures
        is_repo_text(o + seq!['/'] + r),
        o2 == o,
        r2 == r,
{
    let s = o + seq!['/'] + r;
    lemma_slash_count_zero(o);
    lemma_slash_count_zero(r);
    lemma_slash_count_concat(o, seq!['/']);
    lemma_slash_count_concat(o + seq!['/'], r);
    assert(slash_count(seq!['/']) == 1) by {
        assert(seq!['/'].drop_last() =~= Seq::<char>::empty());
        assert(seq!['/'].last() == '/');
        assert(slash_count(Seq::<char>::empty()) == 0);
    }
    assert(s[o.len() as int] == '/');
    assert(s[o2.len() as int] == '/') by {
        assert((o2 + seq!['/'] + r2)[o2.len() as int] == '/');
    }
    if o2.len() < o.len() {
        assert(o[o2.len() as int] == s[o2.len() as int]);
    }
    if o.len() < o2.len() {
        assert(o2[o.len() as int] == (o2 + seq!['/'] + r2)[o.len() as int]);
    }
    assert(o2.len() == o.len());
    assert(o2 =~= s.take(o.len() as int));
    assert(o =~= s.take(o.len() as int));
    assert(r2 =~= s.skip(o.len() as int + 1));
    assert(r =~= s.skip(o.len() as int + 1));
}

/// A repository on the release host, written `organisation/repository`.
#[derive(Debug, Clone)]
pub struct RepoSpec {
    pub organisation: String,
    pub repository: String,
}

impl RepoSpec {
    pub fn new(organisation: &str, repository: &str) -> (r: Self)
        ensures
            r.organisation@ == organisation@,
            r.repository@ == repository@,
    {
        RepoSpec {
            organisation: <String as StringExecFns>::from_str(organisation),
            repository: <String as StringExecFns>::from_str(repository),
        }
    }

    /// Reads `organisation/repository`; any other number of separators is refused.
    pub fn parse(s: &str) -> (r: Result<Self, String>)
        ensures
            r is Ok <==> is_repo_text(s@),
            r matches Ok(p) ==> s@ == p.organisation@ + seq!['/'] + p.repository@
                && slash_free(p.organisation@) && slash_free(p.repository@),
    {
        let n = s.unicode_len();
        let mut count: usize = 0;
        let mut first: Option<usize> = None;
        let mut i: usize = 0;
        while i < n
            invariant
                n == s@.len(),
                i <= n,
                count == slash_count(s@.take(i as int)),
                count <= i,
                first matches Some(k) ==> k < i && s@[k as int] == '/' && slash_free(
                    s@.take(k as int),
                ),
                first is None ==> slash_free(s@.take(i as int)),
            decreases n - i,
        {
            let c = s.get_char(i);
            assert(s@.take(i + 1).drop_last() =~= s@.take(i as int));
            if c == '/' {
                count = count + 1;
                if first.is_none() {
                    first = Some(i);
                }
            }
            i = i + 1;
            proof {
                if first is None {
                    assert forall|j: int| 0 <= j < i implies s@.take(i as int)[j] != '/' by {
                        if j < i - 1 {
                            assert(s@.take(i - 1)[j] == s@[j]);
                        }
                    }
                }
            }
        }
        assert(s@.take(n as int) =~= s@);
        if count != 1 {
            return Err(<String as StringExecFns>::from_str(
                "Repository must be in the format 'organisation/repository'",
            ));
        }
        proof {
            lemma_slash_count_zero(s@);
        }
        let k = first.unwrap();
        let org = s.substring_char(0, k);
        let repo = s.substring_char(k + 1, n);
        proof {
            let a = s@.take(k as int);
            let b = s@.subrange(k + 1, n as int);
            assert(s@ =~= a + seq!['/'] + b);
            assert(org@ =~= a);
            lemma_slash_count_zero(a);
            lemma_slash_count_concat(a, seq!['/']);
            assert((a + seq!['/']).drop_last() =~= a);
            assert(slash_count(seq!['/']) == 1) by {
                assert(seq!['/'].drop_last() =~= Seq::<char>::empty());
            }
            lemma_slash_count_concat(a + seq!['/'], b);
            lemma_slash_count_zero(b);
        }
        Ok(RepoSpec::new(org, repo))
    }
}

impl std::str::FromStr for RepoSpec {
    type Err = String;

    fn from_str(s: &str) -> Result<Self, Self::Err> {
        RepoSpec::parse(s)
    }
}

} // verus!

verus! {

/// What one run of the bundle builder is asked for.
#[derive(Debug, Clone)]
pub struct BundleSettings {
    /// The release tag fetched from every repository.
    pub version: String,
    /// The repository of the generic payload, when not the default one.
    pub framework_repo: Option<RepoSpec>,
    /// A file holding the README template, when not the built-in one.
    pub readme_template_path: Option<String>,
}

/// The two operations of the tool.
#[derive(Debug, Clone)]
pub enum Operation {
    CreateBundle(BundleSettings),
    Clear,
}

} // verus!
