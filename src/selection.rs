use crate::configuration::DeploymentFiles;
use vstd::prelude::*;

verus! {

/// Why a set of glob patterns could not be resolved into paths.
#[derive(Debug, Clone)]
pub enum DeploymentFileGlobError {
    /// A pattern is malformed; `pos` is the offending character's index.
    PatternError { pos: usize, msg: String },
    /// The file system could not be read at `path`.
    GlobError { path: String, error: String },
}

/// Whether `pattern` is a well-formed glob pattern.
pub uninterp spec fn glob_pattern_valid(pattern: Seq<char>) -> bool;

/// A glob pattern's walk over the file system, not yet taken.
#[verifier::external_body]
pub struct PendingWalk {
    inner: glob::Paths,
}

/// Relies on glob::glob: it fails, with a pattern error, exactly when the
/// pattern is malformed; otherwise it hands back an iterator over the file
/// system that has not been walked yet.
#[verifier::external_body]
fn open_glob(pattern: &str) -> (r: Result<PendingWalk, DeploymentFileGlobError>)
    ensures
        r is Ok <==> glob_pattern_valid(pattern@),
        r is Err ==> r->Err_0 is PatternError,
{
    glob::glob(pattern).map(|inner| PendingWalk { inner }).map_err(
        |e| DeploymentFileGlobError::PatternError { pos: e.pos, msg: e.msg.to_string() },
    )
}

/// Relies on the `Iterator` impl of glob::Paths: it walks the file system,
/// so what it finds depends on the disk; it fails only on a path it cannot
/// read.
#[verifier::external_body]
fn walk(paths: PendingWalk) -> (r: Result<Vec<String>, DeploymentFileGlobError>)
    ensures
        r is Err ==> r->Err_0 is GlobError,
{
    paths.inner.map(|p| match p {
        Ok(p) => Ok(p.to_string_lossy().into_owned()),
        Err(e) => Err(DeploymentFileGlobError::GlobError {
            path: e.path().to_string_lossy().into_owned(),
            error: format!("{:?}", e.error().kind()),
        }),
    }).collect()
}

/// Every pattern of `patterns` is well-formed.
pub open spec fn all_patterns_valid(patterns: Seq<Seq<char>>) -> bool {
    forall|i: int| 0 <= i < patterns.len() ==> glob_pattern_valid(#[trigger] patterns[i])
}

/// What resolving `patterns` may return: a pattern error exactly when a
/// pattern is malformed, success only when all are well-formed, and nothing
/// found for no pattern.
pub open spec fn glob_outcome(
    patterns: Seq<Seq<char>>,
    r: Result<Vec<String>, DeploymentFileGlobError>,
) -> bool {
    &&& (r is Ok ==> all_patterns_valid(patterns))
    &&& ((r matches Err(DeploymentFileGlobError::PatternError { .. })) <==> !all_patterns_valid(
        patterns,
    ))
    &&& (patterns.len() == 0 ==> r is Ok && r->Ok_0@.len() == 0)
}

/// The paths of every result in order, or the first error among them.
pub open spec fn gathered(results: Seq<Result<Vec<String>, DeploymentFileGlobError>>) -> Result<
    Seq<Seq<char>>,
    DeploymentFileGlobError,
>
    decreases results.len(),
{
    if results.len() == 0 {
        Ok(Seq::empty())
    } else {
        match results[0] {
            Err(e) => Err(e),
            Ok(p) => match gathered(results.drop_first()) {
                Ok(v) => Ok(p.deep_view() + v),
                Err(e) => Err(e),
            },
        }
    }
}

pub open spec fn prepend(
    found: Seq<Seq<char>>,
    rest: Result<Seq<Seq<char>>, DeploymentFileGlobError>,
) -> Result<Seq<Seq<char>>, DeploymentFileGlobError> {
    match rest {
        Ok(v) => Ok(found + v),
        Err(e) => Err(e),
    }
}

/// An error that `gathered` gives is the error of one of the results.
pub proof fn lemma_gathered_error(results: Seq<Result<Vec<String>, DeploymentFileGlobError>>)
    ensures
        gathered(results) is Err ==> exists|i: int|
            0 <= i < results.len() && #[trigger] results[i] == Err::<Vec<String>, _>(
                gathered(results)->Err_0,
            ),
    decreases results.len(),
{
    if results.len() > 0 {
        lemma_gathered_error(results.drop_first());
        if gathered(results) is Err && results[0] is Ok {
            let i = choose|i: int|
                0 <= i < results.drop_first().len() && #[trigger] results.drop_first()[i]
                    == Err::<Vec<String>, _>(gathered(results.drop_first())->Err_0);
            assert(results[i + 1] == results.drop_first()[i]);
        }
    }
}

/// Gathers what each pattern found, in pattern order, and stops at the first
/// error: nothing partial is returned.
pub fn gather(results: Vec<Result<Vec<String>, DeploymentFileGlobError>>) -> (r: Result<
    Vec<String>,
    DeploymentFileGlobError,
>)
    ensures
        match r {
            Ok(v) => gathered(results@) == Ok::<_, DeploymentFileGlobError>(v.deep_view()),
            Err(e) => gathered(results@) == Err::<Seq<Seq<char>>, _>(e),
        },
{
    let mut rest = results;
    let mut found: Vec<String> = Vec::new();
    while rest.len() > 0
        invariant
            gathered(results@) == prepend(found.deep_view(), gathered(rest@)),
        decreases rest.len(),
    {
        assert(rest@.drop_first() =~= rest@.subrange(1, rest@.len() as int));
        let first = rest.remove(0);
        match first {
            Ok(paths) => {
                let ghost old_found = found.deep_view();
                let mut paths = paths;
                found.append(&mut paths);
                assert(found.deep_view() =~= old_found + paths_view_of(first));
                proof {
                    if gathered(rest@) is Ok {
                        let v = gathered(rest@)->Ok_0;
                        assert(old_found + (paths_view_of(first) + v) =~= found.deep_view() + v);
                    }
                }
            },
            Err(e) => {
                return Err(e);
            },
        }
    }
    assert(found.deep_view() + Seq::<Seq<char>>::empty() =~= found.deep_view());
    Ok(found)
}

pub open spec fn paths_view_of(r: Result<Vec<String>, DeploymentFileGlobError>) -> Seq<Seq<char>> {
    match r {
        Ok(p) => p.deep_view(),
        Err(_) => Seq::empty(),
    }
}

/// The paths of `all` that survive: a path is dropped when it is excluded and
/// not also included. Order of `all` is kept.
pub open spec fn selected(
    all: Seq<Seq<char>>,
    excludes: Seq<Seq<char>>,
    includes: Seq<Seq<char>>,
) -> Seq<Seq<char>> {
    all.filter(survival(excludes, includes))
}

pub open spec fn survival(excludes: Seq<Seq<char>>, includes: Seq<Seq<char>>) -> spec_fn(
    Seq<char>,
) -> bool {
    |p: Seq<char>| survives(p, excludes, includes)
}

pub open spec fn survives(p: Seq<char>, excludes: Seq<Seq<char>>, includes: Seq<Seq<char>>) -> bool {
    !excludes.contains(p) || includes.contains(p)
}

/// The exclusions that apply to every project: its configuration file, its
/// version control directory and its local secrets.
pub open spec fn default_exclude_patterns() -> Seq<Seq<char>> {
    seq!["./alphadep.toml"@, "./.git"@, "./.env"@]
}

/// Whether `paths` holds a path equal to `p`.
pub fn contains_path(paths: &Vec<String>, p: &String) -> (r: bool)
    ensures
        r == paths.deep_view().contains(p@),
{
    let mut i: usize = 0;
    while i < paths.len()
        invariant
            i <= paths.len(),
            forall|j: int| 0 <= j < i ==> paths@[j]@ != p@,
        decreases paths.len() - i,
    {
        if paths[i] == *p {
            assert(paths.deep_view()[i as int] == p@);
            return true;
        }
        i = i + 1;
    }
    assert(!paths.deep_view().contains(p@)) by {
        if paths.deep_view().contains(p@) {
            let k = choose|k: int| 0 <= k < paths.deep_view().len() && paths.deep_view()[k] == p@;
            assert(paths@[k]@ == p@);
        }
    }
    false
}

/// Keeps the paths of `all` that are not excluded, or that are excluded and
/// included too: an include always wins over an exclude.
pub fn select_paths(all: Vec<String>, excludes: &Vec<String>, includes: &Vec<String>) -> (r: Vec<
    String,
>)
    ensures
        r.deep_view() == selected(all.deep_view(), excludes.deep_view(), includes.deep_view()),
{
    let ghost ex = excludes.deep_view();
    let ghost inc = includes.deep_view();
    let mut r: Vec<String> = Vec::new();
    let mut i: usize = 0;
    while i < all.len()
        invariant
            i <= all.len(),
            ex == excludes.deep_view(),
            inc == includes.deep_view(),
            r.deep_view() == selected(all.deep_view().take(i as int), ex, inc),
        decreases all.len() - i,
    {
        let p = &all[i];
        let keep = !contains_path(excludes, p) || contains_path(includes, p);
        let ghost before = all.deep_view().take(i as int);
        let ghost after = all.deep_view().take(i as int + 1);
        assert(after.drop_last() == before);
        assert(after.last() == p@);
        proof {
            reveal(Seq::filter);
        }
        if keep {
            r.push(p.clone());
        }
        assert(r.deep_view() =~= selected(after, ex, inc));
        i = i + 1;
    }
    assert(all.deep_view().take(all.len() as int) =~= all.deep_view());
    r
}

impl DeploymentFiles {
    /// The patterns excluded from every deployment.
    pub fn default_excludes() -> (r: Vec<String>)
        ensures
            r.deep_view() == default_exclude_patterns(),
    {
        let r = vec![
            String::from_str("./alphadep.toml"),
            String::from_str("./.git"),
            String::from_str("./.env"),
        ];
        assert(r.deep_view() =~= default_exclude_patterns());
        r
    }

    /// Checks every pattern first, failing on the first malformed one; then
    /// walks the file system for each in turn and gathers what they found.
    pub fn glob_all(patterns: Vec<String>) -> (r: Result<Vec<String>, DeploymentFileGlobError>)
        ensures
            glob_outcome(patterns.deep_view(), r),
    {
        let mut opened: Vec<PendingWalk> = Vec::new();
        let mut i: usize = 0;
        while i < patterns.len()
            invariant
                i <= patterns.len(),
                opened.len() == i,
                forall|j: int| 0 <= j < i ==> glob_pattern_valid(#[trigger] patterns.deep_view()[j]),
            decreases patterns.len() - i,
        {
            match open_glob(patterns[i].as_str()) {
                Ok(paths) => opened.push(paths),
                Err(e) => {
                    assert(!glob_pattern_valid(patterns.deep_view()[i as int]));
                    return Err(e);
                },
            }
            i = i + 1;
        }
        let mut results: Vec<Result<Vec<String>, DeploymentFileGlobError>> = Vec::new();
        while opened.len() > 0
            invariant
                forall|j: int| 0 <= j < results.len() ==> (#[trigger] results@[j]) is Ok || results@[j]->Err_0 is GlobError,
                patterns.len() == 0 ==> results.len() == 0 && opened.len() == 0,
            decreases opened.len(),
        {
            let paths = opened.remove(0);
            results.push(walk(paths));
        }
        proof {
            lemma_gathered_error(results@);
            if patterns.len() == 0 {
                assert(results@ =~= Seq::<Result<Vec<String>, DeploymentFileGlobError>>::empty());
            }
        }
        let r = gather(results);
        assert(patterns.len() == 0 ==> r is Ok && r->Ok_0.deep_view().len() == 0);
        r
    }

    /// The exclude patterns in force: the configured ones, then the defaults.
    pub open spec fn exclude_patterns(&self) -> Seq<Seq<char>> {
        self.excludes.deep_view() + default_exclude_patterns()
    }

    /// Every pattern that resolving the files of this project reads.
    pub open spec fn patterns_valid(&self) -> bool {
        &&& glob_pattern_valid(every_path_pattern())
        &&& all_patterns_valid(self.exclude_patterns())
        &&& all_patterns_valid(self.includes.deep_view())
    }

    /// Paths matched by the configured exclude patterns and by the defaults.
    pub fn excludes(&self) -> (r: Result<Vec<String>, DeploymentFileGlobError>)
        ensures
            glob_outcome(self.exclude_patterns(), r),
    {
        let mut patterns = self.excludes.clone();
        let mut defaults = Self::default_excludes();
        patterns.append(&mut defaults);
        assert(patterns.deep_view() =~= self.exclude_patterns());
        Self::glob_all(patterns)
    }

    /// Paths matched by the configured include patterns.
    pub fn includes(&self) -> (r: Result<Vec<String>, DeploymentFileGlobError>)
        ensures
            glob_outcome(self.includes.deep_view(), r),
    {
        let patterns = self.includes.clone();
        assert(patterns.deep_view() =~= self.includes.deep_view());
        Self::glob_all(patterns)
    }

    /// Every path under the working directory that the rules keep.
    pub fn list(&self) -> (r: Result<Vec<String>, DeploymentFileGlobError>)
        ensures
            r is Ok ==> self.patterns_valid(),
            (r matches Err(DeploymentFileGlobError::PatternError { .. })) ==> !self.patterns_valid(),
            !self.patterns_valid() ==> r is Err,
    {
        let every = vec![String::from_str("**/*")];
        assert(every.deep_view() =~= seq![every_path_pattern()]);
        assert(every.deep_view()[0] == every_path_pattern());
        let all = Self::glob_all(every);
        let excludes = self.excludes();
        let includes = self.includes();
        resolve(all, excludes, includes)
    }
}

/// Completes a resolution from what the file system gave for every path, the
/// exclude patterns and the include patterns: the first error in that order,
/// or else the selection. Nothing partial is returned on error.
pub fn resolve(
    all: Result<Vec<String>, DeploymentFileGlobError>,
    excludes: Result<Vec<String>, DeploymentFileGlobError>,
    includes: Result<Vec<String>, DeploymentFileGlobError>,
) -> (r: Result<Vec<String>, DeploymentFileGlobError>)
    ensures
        match (all, excludes, includes) {
            (Err(e), _, _) => r == Err::<Vec<String>, _>(e),
            (Ok(_), Err(e), _) => r == Err::<Vec<String>, _>(e),
            (Ok(_), Ok(_), Err(e)) => r == Err::<Vec<String>, _>(e),
            (Ok(a), Ok(x), Ok(i)) => r is Ok && r->Ok_0.deep_view() == selected(
                a.deep_view(),
                x.deep_view(),
                i.deep_view(),
            ),
        },
{
    match (all, excludes, includes) {
        (Err(e), _, _) => Err(e),
        (Ok(_), Err(e), _) => Err(e),
        (Ok(_), Ok(_), Err(e)) => Err(e),
        (Ok(a), Ok(x), Ok(i)) => Ok(select_paths(a, &x, &i)),
    }
}

/// The pattern that enumerates every path below the working directory.
pub open spec fn every_path_pattern() -> Seq<char> {
    "**/*"@
}

/// A path that is excluded and also included is kept: the include wins,
/// whatever the order of the patterns.
pub proof fn lemma_include_wins(
    all: Seq<Seq<char>>,
    excludes: Seq<Seq<char>>,
    includes: Seq<Seq<char>>,
    p: Seq<char>,
)
    requires
        all.contains(p),
        excludes.contains(p),
        includes.contains(p),
    ensures
        selected(all, excludes, includes).contains(p),
{
    let f = survival(excludes, includes);
    all.filter_lemma(f);
    let k = choose|k: int| 0 <= k < all.len() && all[k] == p;
    assert(f(all[k]));
}

/// With no include patterns, nothing that an exclude pattern matched is kept;
/// and the exclude patterns of a project always hold the defaults, so its
/// configuration file, version control directory and secrets never reach the
/// selection unless an include names them.
pub proof fn lemma_default_excludes_apply(
    files: DeploymentFiles,
    all: Seq<Seq<char>>,
    excluded: Seq<Seq<char>>,
    p: Seq<char>,
)
    requires
        files.includes.len() == 0,
        excluded.contains(p),
    ensures
        !selected(all, excluded, files.includes.deep_view()).contains(p),
        files.exclude_patterns().subrange(
            files.excludes.len() as int,
            files.exclude_patterns().len() as int,
        ) == default_exclude_patterns(),
{
    let inc = files.includes.deep_view();
    assert(inc.len() == 0);
    assert(!inc.contains(p));
    let f = survival(excluded, inc);
    all.filter_lemma(f);
    assert(files.exclude_patterns().subrange(
        files.excludes.len() as int,
        files.exclude_patterns().len() as int,
    ) =~= default_exclude_patterns());
}

/// The selection depends on which paths the file system and the patterns
/// give, not on the order in which they come: the same sets give the same set.
pub proof fn lemma_selection_deterministic(
    all1: Seq<Seq<char>>,
    excludes1: Seq<Seq<char>>,
    includes1: Seq<Seq<char>>,
    all2: Seq<Seq<char>>,
    excludes2: Seq<Seq<char>>,
    includes2: Seq<Seq<char>>,
)
    requires
        all1.to_set() == all2.to_set(),
        excludes1.to_set() == excludes2.to_set(),
        includes1.to_set() == includes2.to_set(),
    ensures
        selected(all1, excludes1, includes1).to_set() == selected(all2, excludes2, includes2).to_set(),
{
    let f1 = survival(excludes1, includes1);
    let f2 = survival(excludes2, includes2);
    all1.filter_lemma(f1);
    all2.filter_lemma(f2);
    let s1 = selected(all1, excludes1, includes1);
    let s2 = selected(all2, excludes2, includes2);
    assert forall|q: Seq<char>| excludes1.contains(q) == excludes2.contains(q) by {
        assert(excludes1.to_set().contains(q) == excludes1.contains(q));
        assert(excludes2.to_set().contains(q) == excludes2.contains(q));
    }
    assert forall|q: Seq<char>| includes1.contains(q) == includes2.contains(q) by {
        assert(includes1.to_set().contains(q) == includes1.contains(q));
        assert(includes2.to_set().contains(q) == includes2.contains(q));
    }
    assert forall|q: Seq<char>| all1.contains(q) == all2.contains(q) by {
        assert(all1.to_set().contains(q) == all1.contains(q));
        assert(all2.to_set().contains(q) == all2.contains(q));
    }
    assert forall|q: Seq<char>| s1.contains(q) ==> s2.contains(q) by {
        if s1.contains(q) {
            let k = choose|k: int| 0 <= k < s1.len() && s1[k] == q;
            all1.lemma_filter_contains_rev(f1, q);
            assert(f1(s1[k]));
            let j = choose|j: int| 0 <= j < all2.len() && all2[j] == q;
            assert(f2(all2[j]));
        }
    }
    assert forall|q: Seq<char>| s2.contains(q) ==> s1.contains(q) by {
        if s2.contains(q) {
            let k = choose|k: int| 0 <= k < s2.len() && s2[k] == q;
            all2.lemma_filter_contains_rev(f2, q);
            assert(f2(s2[k]));
            let j = choose|j: int| 0 <= j < all1.len() && all1[j] == q;
            assert(f1(all1[j]));
        }
    }
    assert(s1.to_set() =~= s2.to_set());
}

} // verus!
