//! Choosing the package to install from what the release and CI listings
//! hold: the first entry, in listing order, that fits the selection.
use vstd::prelude::*;
use crate::selection::{build_type_name, build_type_text, Architecture, BuildType};
use crate::text::{contains, ends_with, has_substring, has_suffix, same_text};

verus! {

/// The endpoint that describes the latest tagged release.
pub const LATEST_RELEASE_URL: &'static str =
    "https://api.github.com/repos/NVIDIAGameWorks/rtx-remix/releases/latest";

/// The endpoint that lists the CI workflow runs of the runtime repository.
pub const WORKFLOW_RUNS_URL: &'static str =
    "https://api.github.com/repos/NVIDIAGameWorks/dxvk-remix/actions/runs";

/// Where a CI artifact of the runtime repository is downloaded from: this
/// text, the artifact's id, then `.zip`.
pub const ARTIFACT_URL_PREFIX: &'static str =
    "https://nightly.link/NVIDIAGameWorks/dxvk-remix/actions/artifacts/";

/// The marker that names the unified package for 32-bit games.
pub const UNIFIED_X86_MARKER: &'static str = "rtx-remix-for-x86-games";

/// A file attached to a release, as the listing gives it.
#[derive(Clone, Debug)]
pub struct ReleaseAsset {
    pub name: Option<String>,
    pub download_url: Option<String>,
}

/// A CI workflow run, as the listing gives it.
#[derive(Clone, Debug)]
pub struct WorkflowRun {
    pub conclusion: Option<String>,
    pub artifacts_url: Option<String>,
}

/// An artifact of a CI run, as the listing gives it.
#[derive(Clone, Debug)]
pub struct CiArtifact {
    pub name: Option<String>,
    pub id: Option<u64>,
}

/// The text an optional string holds, if any.
pub open spec fn opt_text(o: Option<String>) -> Option<Seq<char>> {
    match o {
        Some(t) => Some(t@),
        None => None,
    }
}

impl View for ReleaseAsset {
    type V = (Option<Seq<char>>, Option<Seq<char>>);

    /// The asset's name and download URL.
    open spec fn view(&self) -> Self::V {
        (opt_text(self.name), opt_text(self.download_url))
    }
}

impl View for WorkflowRun {
    type V = (Option<Seq<char>>, Option<Seq<char>>);

    /// The run's conclusion and artifacts URL.
    open spec fn view(&self) -> Self::V {
        (opt_text(self.conclusion), opt_text(self.artifacts_url))
    }
}

impl View for CiArtifact {
    type V = (Option<Seq<char>>, Option<u64>);

    /// The artifact's name and id.
    open spec fn view(&self) -> Self::V {
        (opt_text(self.name), self.id)
    }
}

pub open spec fn asset_views(s: Seq<ReleaseAsset>) -> Seq<(Option<Seq<char>>, Option<Seq<char>>)> {
    s.map_values(|a: ReleaseAsset| a@)
}

pub open spec fn run_views(s: Seq<WorkflowRun>) -> Seq<(Option<Seq<char>>, Option<Seq<char>>)> {
    s.map_values(|r: WorkflowRun| r@)
}

pub open spec fn artifact_views(s: Seq<CiArtifact>) -> Seq<(Option<Seq<char>>, Option<u64>)> {
    s.map_values(|a: CiArtifact| a@)
}

/// A package resolved to a name and a download location.
#[derive(Clone, Debug)]
pub struct RemoteAsset {
    pub display_name: String,
    pub download_url: String,
}

/// Why no package could be resolved.
#[derive(Clone, Copy, Debug, PartialEq, Eq, Structural)]
pub enum ResolveError {
    /// The response is not JSON.
    MalformedResponse,
    /// No release asset fits the build type.
    NoSuitablePackage,
    /// The chosen release asset has no download URL.
    MissingDownloadUrl,
    /// No CI run succeeded, or the first that did lists no artifacts URL.
    NoSuccessfulRun,
    /// No artifact of the run fits the selection.
    NoMatchingArtifact,
    /// The chosen artifact has no numeric id.
    MissingArtifactId,
}

/// The position of the first element of `s` that satisfies `p`, or the
/// length of `s` where none does.
pub open spec fn first_index_where<A>(s: Seq<A>, p: spec_fn(A) -> bool) -> nat
    decreases s.len(),
{
    if s.len() == 0 || p(s[0]) {
        0
    } else {
        1 + first_index_where(s.drop_first(), p)
    }
}

/// `i` is the first position that satisfies `p` (or the length, where none
/// does) exactly when every earlier element fails `p`.
pub proof fn lemma_first_index_where<A>(s: Seq<A>, p: spec_fn(A) -> bool, i: int)
    requires
        0 <= i <= s.len(),
        forall|j: int| 0 <= j < i ==> !p(s[j]),
        i == s.len() || p(s[i]),
    ensures
        first_index_where(s, p) == i,
    decreases i,
{
    if i > 0 {
        assert(!p(s[0]));
        let t = s.drop_first();
        assert forall|j: int| 0 <= j < i - 1 implies !p(t[j]) by {
            assert(t[j] == s[j + 1]);
        }
        lemma_first_index_where(t, p, i - 1);
    }
}

/// The name of a release package of the build type: it ends with
/// `-<type>.zip` and is not a symbols package.
pub open spec fn is_release_package(name: Seq<char>, b: BuildType) -> bool {
    ends_with(name, "-"@ + build_type_text(b) + ".zip"@) && !contains(name, "-symbols"@)
}

pub open spec fn asset_fits(a: (Option<Seq<char>>, Option<Seq<char>>), b: BuildType) -> bool {
    a.0 is Some && is_release_package(a.0->0, b)
}

/// The first asset that fits the build type, by listing order.
pub open spec fn first_fitting_asset(
    s: Seq<(Option<Seq<char>>, Option<Seq<char>>)>,
    b: BuildType,
) -> nat {
    first_index_where(s, |a: (Option<Seq<char>>, Option<Seq<char>>)| asset_fits(a, b))
}

/// What the release listing resolves to: the name and URL of the first
/// fitting asset.
pub open spec fn release_choice(
    s: Seq<(Option<Seq<char>>, Option<Seq<char>>)>,
    b: BuildType,
) -> Result<
    (Seq<char>, Seq<char>),
    ResolveError,
> {
    let k = first_fitting_asset(s, b);
    if k == s.len() {
        Err(ResolveError::NoSuitablePackage)
    } else {
        match s[k as int].1 {
            Some(u) => Ok((s[k as int].0->0, u)),
            None => Err(ResolveError::MissingDownloadUrl),
        }
    }
}

/// The resolution `r` is what `choice` says, read through the views of its
/// name and URL.
pub open spec fn resolves_to(
    r: Result<RemoteAsset, ResolveError>,
    choice: Result<(Seq<char>, Seq<char>), ResolveError>,
) -> bool {
    match choice {
        Ok((n, u)) => r is Ok && r->Ok_0.display_name@ == n && r->Ok_0.download_url@ == u,
        Err(e) => r == Err::<RemoteAsset, ResolveError>(e),
    }
}

/// Whether a release package name fits the build type.
pub fn release_package_fits(name: &str, b: BuildType) -> (r: bool)
    ensures
        r == is_release_package(name@, b),
{
    let mut suffix = String::from_str("-");
    suffix.append(build_type_name(b));
    suffix.append(".zip");
    has_suffix(name, suffix.as_str()) && !has_substring(name, "-symbols")
}

/// The first asset of the release listing whose name ends with
/// `-<type>.zip` and is no symbols package, with its download URL.
pub fn select_release_asset(assets: &Vec<ReleaseAsset>, b: BuildType) -> (r: Result<
    RemoteAsset,
    ResolveError,
>)
    ensures
        resolves_to(r, release_choice(asset_views(assets@), b)),
{
    let ghost vs = asset_views(assets@);
    let ghost p = |a: (Option<Seq<char>>, Option<Seq<char>>)| asset_fits(a, b);
    let mut i: usize = 0;
    while i < assets.len()
        invariant
            i <= assets@.len(),
            vs == asset_views(assets@),
            p == (|a: (Option<Seq<char>>, Option<Seq<char>>)| asset_fits(a, b)),
            forall|j: int| 0 <= j < i ==> !p(vs[j]),
        decreases assets.len() - i,
    {
        let a = &assets[i];
        assert(vs[i as int] == a@);
        let fits = match &a.name {
            Some(n) => release_package_fits(n.as_str(), b),
            None => false,
        };
        if fits {
            proof {
                lemma_first_index_where(vs, p, i as int);
            }
            return match &a.download_url {
                Some(u) => Ok(
                    RemoteAsset { display_name: a.name.clone().unwrap(), download_url: u.clone() },
                ),
                None => Err(ResolveError::MissingDownloadUrl),
            };
        }
        i += 1;
    }
    proof {
        lemma_first_index_where(vs, p, i as int);
    }
    Err(ResolveError::NoSuitablePackage)
}

pub open spec fn run_succeeded(r: (Option<Seq<char>>, Option<Seq<char>>)) -> bool {
    r.0 == Some("success"@)
}

/// The first run that succeeded, by listing order, not by time.
pub open spec fn first_successful_run(s: Seq<(Option<Seq<char>>, Option<Seq<char>>)>) -> nat {
    first_index_where(s, |r: (Option<Seq<char>>, Option<Seq<char>>)| run_succeeded(r))
}

/// What the run listing resolves to: the artifacts URL of the first run that
/// succeeded.
pub open spec fn run_choice(s: Seq<(Option<Seq<char>>, Option<Seq<char>>)>) -> Result<
    Seq<char>,
    ResolveError,
> {
    let k = first_successful_run(s);
    if k == s.len() {
        Err(ResolveError::NoSuccessfulRun)
    } else {
        match s[k as int].1 {
            Some(u) => Ok(u),
            None => Err(ResolveError::NoSuccessfulRun),
        }
    }
}

/// The artifacts URL of the first run in the listing whose conclusion is
/// `success`.
pub fn select_successful_run(runs: &Vec<WorkflowRun>) -> (r: Result<String, ResolveError>)
    ensures
        match run_choice(run_views(runs@)) {
            Ok(u) => r is Ok && r->Ok_0@ == u,
            Err(e) => r == Err::<String, ResolveError>(e),
        },
{
    let ghost vs = run_views(runs@);
    let ghost p = |r: (Option<Seq<char>>, Option<Seq<char>>)| run_succeeded(r);
    let mut i: usize = 0;
    while i < runs.len()
        invariant
            i <= runs@.len(),
            vs == run_views(runs@),
            p == (|r: (Option<Seq<char>>, Option<Seq<char>>)| run_succeeded(r)),
            forall|j: int| 0 <= j < i ==> !p(vs[j]),
        decreases runs.len() - i,
    {
        let run = &runs[i];
        assert(vs[i as int] == run@);
        let succeeded = match &run.conclusion {
            Some(c) => same_text(c.as_str(), "success"),
            None => false,
        };
        if succeeded {
            proof {
                lemma_first_index_where(vs, p, i as int);
            }
            return match &run.artifacts_url {
                Some(u) => Ok(u.clone()),
                None => Err(ResolveError::NoSuccessfulRun),
            };
        }
        i += 1;
    }
    proof {
        lemma_first_index_where(vs, p, i as int);
    }
    Err(ResolveError::NoSuccessfulRun)
}

/// The name of a CI artifact for the build type and architecture: it holds
/// the build type, and for 32-bit games the unified-package marker, for
/// 64-bit games neither `x86` nor `symbols`.
pub open spec fn is_wanted_artifact(name: Seq<char>, b: BuildType, arch: Architecture) -> bool {
    contains(name, build_type_text(b)) && match arch {
        Architecture::X86 => contains(name, UNIFIED_X86_MARKER@),
        Architecture::X64 => !contains(name, "x86"@) && !contains(name, "symbols"@),
    }
}

pub open spec fn artifact_fits(
    a: (Option<Seq<char>>, Option<u64>),
    b: BuildType,
    arch: Architecture,
) -> bool {
    a.0 is Some && is_wanted_artifact(a.0->0, b, arch)
}

/// The first artifact that fits, by listing order.
pub open spec fn first_fitting_artifact(
    s: Seq<(Option<Seq<char>>, Option<u64>)>,
    b: BuildType,
    arch: Architecture,
) -> nat {
    first_index_where(s, |a: (Option<Seq<char>>, Option<u64>)| artifact_fits(a, b, arch))
}

/// The decimal digits of `n`, without leading zeros.
pub open spec fn decimal_text(n: nat) -> Seq<char>
    decreases n,
{
    if n < 10 {
        seq![(n + '0' as nat) as char]
    } else {
        decimal_text(n / 10) + seq![((n % 10) + '0' as nat) as char]
    }
}

/// Where the CI artifact with this id is downloaded from.
pub open spec fn artifact_url(id: nat) -> Seq<char> {
    ARTIFACT_URL_PREFIX@ + decimal_text(id) + ".zip"@
}

/// What the artifact listing resolves to: the name of the first fitting
/// artifact and the download URL made from its id.
pub open spec fn artifact_choice(
    s: Seq<(Option<Seq<char>>, Option<u64>)>,
    b: BuildType,
    arch: Architecture,
) -> Result<
    (Seq<char>, Seq<char>),
    ResolveError,
> {
    let k = first_fitting_artifact(s, b, arch);
    if k == s.len() {
        Err(ResolveError::NoMatchingArtifact)
    } else {
        match s[k as int].1 {
            Some(id) => Ok((s[k as int].0->0, artifact_url(id as nat))),
            None => Err(ResolveError::MissingArtifactId),
        }
    }
}

/// The decimal digit `d` as text.
fn digit_text(d: u64) -> (r: &'static str)
    requires
        d < 10,
    ensures
        r@ == seq![((d as nat) + '0' as nat) as char],
{
    proof {
        reveal_strlit("0");
        reveal_strlit("1");
        reveal_strlit("2");
        reveal_strlit("3");
        reveal_strlit("4");
        reveal_strlit("5");
        reveal_strlit("6");
        reveal_strlit("7");
        reveal_strlit("8");
        reveal_strlit("9");
    }
    let r = if d == 0 {
        "0"
    } else if d == 1 {
        "1"
    } else if d == 2 {
        "2"
    } else if d == 3 {
        "3"
    } else if d == 4 {
        "4"
    } else if d == 5 {
        "5"
    } else if d == 6 {
        "6"
    } else if d == 7 {
        "7"
    } else if d == 8 {
        "8"
    } else {
        "9"
    };
    assert(r@ =~= seq![((d as nat) + '0' as nat) as char]);
    r
}

/// The decimal digits of `n`, without leading zeros.
fn u64_text(n: u64) -> (r: String)
    ensures
        r@ == decimal_text(n as nat),
{
    let mut m: u64 = n;
    let mut out = String::new();
    loop
        invariant_except_break
            decimal_text(n as nat) == decimal_text(m as nat) + out@,
        ensures
            decimal_text(n as nat) == out@,
        decreases m,
    {
        let mut digits = String::from_str(digit_text(m % 10));
        digits.append(out.as_str());
        if m < 10 {
            assert(decimal_text(m as nat) == seq![((m as nat) + '0' as nat) as char]);
            assert(decimal_text(n as nat) =~= digits@);
            out = digits;
            break;
        }
        assert(decimal_text(m as nat) == decimal_text((m / 10) as nat) + seq![
            (((m % 10) as nat) + '0' as nat) as char,
        ]);
        assert(decimal_text(n as nat) =~= decimal_text((m / 10) as nat) + digits@);
        out = digits;
        m = m / 10;
    }
    out
}

/// Where the CI artifact with this id is downloaded from: a redirect service
/// that serves artifacts without authentication.
pub fn artifact_download_url(id: u64) -> (r: String)
    ensures
        r@ == artifact_url(id as nat),
{
    let mut url = String::from_str(ARTIFACT_URL_PREFIX);
    let digits = u64_text(id);
    url.append(digits.as_str());
    url.append(".zip");
    url
}

/// Whether a CI artifact name fits the build type and architecture.
pub fn artifact_name_fits(name: &str, b: BuildType, arch: Architecture) -> (r: bool)
    ensures
        r == is_wanted_artifact(name@, b, arch),
{
    if !has_substring(name, build_type_name(b)) {
        return false;
    }
    match arch {
        Architecture::X86 => has_substring(name, UNIFIED_X86_MARKER),
        Architecture::X64 => !has_substring(name, "x86") && !has_substring(name, "symbols"),
    }
}

/// The first artifact of the listing that fits the build type and
/// architecture, with the URL it is downloaded from.
pub fn select_artifact(artifacts: &Vec<CiArtifact>, b: BuildType, arch: Architecture) -> (r:
    Result<RemoteAsset, ResolveError>)
    ensures
        resolves_to(r, artifact_choice(artifact_views(artifacts@), b, arch)),
{
    let ghost vs = artifact_views(artifacts@);
    let ghost p = |a: (Option<Seq<char>>, Option<u64>)| artifact_fits(a, b, arch);
    let mut i: usize = 0;
    while i < artifacts.len()
        invariant
            i <= artifacts@.len(),
            vs == artifact_views(artifacts@),
            p == (|a: (Option<Seq<char>>, Option<u64>)| artifact_fits(a, b, arch)),
            forall|j: int| 0 <= j < i ==> !p(vs[j]),
        decreases artifacts.len() - i,
    {
        let a = &artifacts[i];
        assert(vs[i as int] == a@);
        let fits = match &a.name {
            Some(n) => artifact_name_fits(n.as_str(), b, arch),
            None => false,
        };
        if fits {
            proof {
                lemma_first_index_where(vs, p, i as int);
            }
            return match a.id {
                Some(id) => Ok(
                    RemoteAsset {
                        display_name: a.name.clone().unwrap(),
                        download_url: artifact_download_url(id),
                    },
                ),
                None => Err(ResolveError::MissingArtifactId),
            };
        }
        i += 1;
    }
    proof {
        lemma_first_index_where(vs, p, i as int);
    }
    Err(ResolveError::NoMatchingArtifact)
}

/// Where some element satisfies `p`, the first position is one that does.
pub proof fn lemma_first_index_where_satisfies<A>(s: Seq<A>, p: spec_fn(A) -> bool)
    ensures
        first_index_where(s, p) <= s.len(),
        first_index_where(s, p) < s.len() ==> p(s[first_index_where(s, p) as int]),
    decreases s.len(),
{
    if s.len() > 0 && !p(s[0]) {
        let t = s.drop_first();
        lemma_first_index_where_satisfies(t, p);
        if first_index_where(t, p) < t.len() {
            assert(t[first_index_where(t, p) as int] == s[first_index_where(s, p) as int]);
        }
    }
}

/// The asset that the release listing resolves to fits the build type.
pub proof fn lemma_first_fitting_asset_fits(
    s: Seq<(Option<Seq<char>>, Option<Seq<char>>)>,
    b: BuildType,
)
    ensures
        release_choice(s, b) is Ok ==> is_release_package(release_choice(s, b)->Ok_0.0, b),
{
    lemma_first_index_where_satisfies(
        s,
        |a: (Option<Seq<char>>, Option<Seq<char>>)| asset_fits(a, b),
    );
}

/// The artifact that the CI listing resolves to fits the selection.
pub proof fn lemma_first_fitting_artifact_fits(
    s: Seq<(Option<Seq<char>>, Option<u64>)>,
    b: BuildType,
    arch: Architecture,
)
    ensures
        artifact_choice(s, b, arch) is Ok ==> is_wanted_artifact(
            artifact_choice(s, b, arch)->Ok_0.0,
            b,
            arch,
        ),
{
    lemma_first_index_where_satisfies(
        s,
        |a: (Option<Seq<char>>, Option<u64>)| artifact_fits(a, b, arch),
    );
}

} // verus!
