//! Reading the release and CI listings out of JSON response bodies, and
//! resolving a package from a response body in one call.
use vstd::prelude::*;
use crate::json::{
    json_doc_of, member, member_items, member_text, member_u64, parse_document, items_in,
    text_in, u64_in, JsonDoc,
};
use crate::resolve::{
    artifact_choice, artifact_views, asset_views, is_release_package, is_wanted_artifact,
    release_choice, resolves_to, run_choice, run_views, select_artifact, select_release_asset,
    select_successful_run, CiArtifact, ReleaseAsset, RemoteAsset, ResolveError, WorkflowRun,
};
use crate::selection::{Architecture, BuildType};

verus! {

/// A release asset as a listing element gives it: its `name` and
/// `browser_download_url` members, where they are strings.
pub open spec fn asset_in(item: JsonDoc) -> (Option<Seq<char>>, Option<Seq<char>>) {
    (text_in(member(item, "name"@)), text_in(member(item, "browser_download_url"@)))
}

/// A workflow run as a listing element gives it: its `conclusion` and
/// `artifacts_url` members, where they are strings.
pub open spec fn run_in(item: JsonDoc) -> (Option<Seq<char>>, Option<Seq<char>>) {
    (text_in(member(item, "conclusion"@)), text_in(member(item, "artifacts_url"@)))
}

/// A CI artifact as a listing element gives it: its `name` member, where it
/// is a string, and its `id`, where it is an integer that fits in a `u64`.
pub open spec fn artifact_in(item: JsonDoc) -> (Option<Seq<char>>, Option<u64>) {
    (text_in(member(item, "name"@)), u64_in(member(item, "id"@)))
}

/// The assets of a latest-release document: the elements of its `assets`
/// array, in order; none where there is no such array.
pub open spec fn release_assets_in(d: JsonDoc) -> Seq<(Option<Seq<char>>, Option<Seq<char>>)> {
    items_in(member(d, "assets"@)).map_values(|item: JsonDoc| asset_in(item))
}

/// The runs of a workflow-runs document: the elements of its
/// `workflow_runs` array, in order.
pub open spec fn runs_in(d: JsonDoc) -> Seq<(Option<Seq<char>>, Option<Seq<char>>)> {
    items_in(member(d, "workflow_runs"@)).map_values(|item: JsonDoc| run_in(item))
}

/// The artifacts of an artifacts document: the elements of its `artifacts`
/// array, in order.
pub open spec fn artifacts_in(d: JsonDoc) -> Seq<(Option<Seq<char>>, Option<u64>)> {
    items_in(member(d, "artifacts"@)).map_values(|item: JsonDoc| artifact_in(item))
}

/// The elements of the array member `key` of the document, or none.
fn list_member<'a>(doc: &'a JsonDoc, key: &str, empty: &'a Vec<JsonDoc>) -> (r: &'a Vec<JsonDoc>)
    requires
        empty@.len() == 0,
    ensures
        r@ == items_in(member(*doc, key@)),
{
    match member_items(doc, key) {
        Some(items) => items,
        None => {
            assert(empty@ =~= Seq::<JsonDoc>::empty());
            empty
        },
    }
}

/// The assets of a latest-release response, one record for each element of
/// its `assets` array, in order; `MalformedResponse` where the body is not
/// JSON.
pub fn release_assets_from_json(body: &[u8]) -> (r: Result<Vec<ReleaseAsset>, ResolveError>)
    ensures
        match json_doc_of(body@) {
            None => r == Err::<Vec<ReleaseAsset>, ResolveError>(ResolveError::MalformedResponse),
            Some(d) => r is Ok && asset_views(r->Ok_0@) == release_assets_in(d),
        },
{
    let doc = match parse_document(body) {
        Some(d) => d,
        None => return Err(ResolveError::MalformedResponse),
    };
    let empty: Vec<JsonDoc> = Vec::new();
    let items = list_member(&doc, "assets", &empty);
    let mut out: Vec<ReleaseAsset> = Vec::new();
    let mut i: usize = 0;
    while i < items.len()
        invariant
            i <= items@.len(),
            out@.len() == i,
            forall|j: int| 0 <= j < i ==> #[trigger] out@[j]@ == asset_in(items@[j]),
        decreases items.len() - i,
    {
        let item = &items[i];
        out.push(
            ReleaseAsset {
                name: member_text(item, "name"),
                download_url: member_text(item, "browser_download_url"),
            },
        );
        i += 1;
    }
    assert(asset_views(out@) =~= release_assets_in(doc));
    Ok(out)
}

/// The runs of a workflow-runs response, one record for each element of its
/// `workflow_runs` array, in order; `MalformedResponse` where the body is
/// not JSON.
pub fn workflow_runs_from_json(body: &[u8]) -> (r: Result<Vec<WorkflowRun>, ResolveError>)
    ensures
        match json_doc_of(body@) {
            None => r == Err::<Vec<WorkflowRun>, ResolveError>(ResolveError::MalformedResponse),
            Some(d) => r is Ok && run_views(r->Ok_0@) == runs_in(d),
        },
{
    let doc = match parse_document(body) {
        Some(d) => d,
        None => return Err(ResolveError::MalformedResponse),
    };
    let empty: Vec<JsonDoc> = Vec::new();
    let items = list_member(&doc, "workflow_runs", &empty);
    let mut out: Vec<WorkflowRun> = Vec::new();
    let mut i: usize = 0;
    while i < items.len()
        invariant
            i <= items@.len(),
            out@.len() == i,
            forall|j: int| 0 <= j < i ==> #[trigger] out@[j]@ == run_in(items@[j]),
        decreases items.len() - i,
    {
        let item = &items[i];
        out.push(
            WorkflowRun {
                conclusion: member_text(item, "conclusion"),
                artifacts_url: member_text(item, "artifacts_url"),
            },
        );
        i += 1;
    }
    assert(run_views(out@) =~= runs_in(doc));
    Ok(out)
}

/// The artifacts of an artifacts response, one record for each element of
/// its `artifacts` array, in order; `MalformedResponse` where the body is
/// not JSON.
pub fn artifacts_from_json(body: &[u8]) -> (r: Result<Vec<CiArtifact>, ResolveError>)
    ensures
        match json_doc_of(body@) {
            None => r == Err::<Vec<CiArtifact>, ResolveError>(ResolveError::MalformedResponse),
            Some(d) => r is Ok && artifact_views(r->Ok_0@) == artifacts_in(d),
        },
{
    let doc = match parse_document(body) {
        Some(d) => d,
        None => return Err(ResolveError::MalformedResponse),
    };
    let empty: Vec<JsonDoc> = Vec::new();
    let items = list_member(&doc, "artifacts", &empty);
    let mut out: Vec<CiArtifact> = Vec::new();
    let mut i: usize = 0;
    while i < items.len()
        invariant
            i <= items@.len(),
            out@.len() == i,
            forall|j: int| 0 <= j < i ==> #[trigger] out@[j]@ == artifact_in(items@[j]),
        decreases items.len() - i,
    {
        let item = &items[i];
        out.push(CiArtifact { name: member_text(item, "name"), id: member_u64(item, "id") });
        i += 1;
    }
    assert(artifact_views(out@) =~= artifacts_in(doc));
    Ok(out)
}

/// The package that a latest-release response offers for the build type:
/// the first asset, in listing order, whose name ends with `-<type>.zip` and
/// is no symbols package.
pub fn resolve_release(body: &[u8], b: BuildType) -> (r: Result<RemoteAsset, ResolveError>)
    ensures
        match json_doc_of(body@) {
            None => r == Err::<RemoteAsset, ResolveError>(ResolveError::MalformedResponse),
            Some(d) => resolves_to(r, release_choice(release_assets_in(d), b)),
        },
        r is Ok ==> is_release_package(r->Ok_0.display_name@, b),
{
    let assets = release_assets_from_json(body)?;
    let r = select_release_asset(&assets, b);
    proof {
        crate::resolve::lemma_first_fitting_asset_fits(asset_views(assets@), b);
    }
    r
}

/// The artifacts URL of the first run, in listing order, that a
/// workflow-runs response gives as successful.
pub fn successful_run_from_json(body: &[u8]) -> (r: Result<String, ResolveError>)
    ensures
        match json_doc_of(body@) {
            None => r == Err::<String, ResolveError>(ResolveError::MalformedResponse),
            Some(d) => match run_choice(runs_in(d)) {
                Ok(u) => r is Ok && r->Ok_0@ == u,
                Err(e) => r == Err::<String, ResolveError>(e),
            },
        },
{
    let runs = workflow_runs_from_json(body)?;
    select_successful_run(&runs)
}

/// The artifact that an artifacts response offers for the build type and
/// architecture: the first that fits, in listing order, with the URL made
/// from its id.
pub fn resolve_artifact(body: &[u8], b: BuildType, arch: Architecture) -> (r: Result<
    RemoteAsset,
    ResolveError,
>)
    ensures
        match json_doc_of(body@) {
            None => r == Err::<RemoteAsset, ResolveError>(ResolveError::MalformedResponse),
            Some(d) => resolves_to(r, artifact_choice(artifacts_in(d), b, arch)),
        },
        r is Ok ==> is_wanted_artifact(r->Ok_0.display_name@, b, arch),
{
    let artifacts = artifacts_from_json(body)?;
    let r = select_artifact(&artifacts, b, arch);
    proof {
        crate::resolve::lemma_first_fitting_artifact_fits(artifact_views(artifacts@), b, arch);
    }
    r
}

} // verus!
