//! The deployment pipeline: a sequential state machine that resolves a
//! download URL, fetches the archive, unpacks it into the deploy directory
//! and writes the certificate stub. Every outside effect — directory
//! bookkeeping, the catalog query, the download, the unpack, the file
//! write — is asked for as a `DeployAction`; the embedding application
//! performs the action and hands the outcome back as the next
//! `DeployEvent`. The pipeline short-circuits to the failed stage on the
//! first failing outcome.

use vstd::prelude::*;
use vstd::string::*;

use crate::fsmodel::{choose_plan, plan_for, DeployDirPlan};
use crate::lookup::{catalog_endpoint, catalog_endpoint_spec};
use crate::params::{join_path, DeployParam};

verus! {

/// Where the pipeline stands: each stage awaits the outcome of the action
/// it last asked for.
#[derive(Clone, Copy, PartialEq, Eq, Structural, Debug)]
pub enum Stage {
    /// Nothing has happened yet.
    Start,
    /// Environment initialization was asked for.
    EnvPreparing,
    /// The catalog lookup was asked for.
    Looking,
    /// The archive download was asked for.
    Fetching,
    /// The unpack of the fetched archive was asked for.
    Unzipping,
    /// The certificate stub write was asked for.
    Signing,
    /// The pipeline finished successfully.
    Done,
    /// The pipeline aborted on a failure.
    Failed,
}

/// The outcome of the action the pipeline last asked for. Each `Err`
/// carries the failure as text.
#[derive(Debug)]
pub enum DeployEvent {
    /// The run begins; reports whether the scratch and deploy directories
    /// already exist.
    Started { download_dir_exists: bool, deploy_dir_exists: bool },
    /// Environment initialization completed.
    EnvReady,
    /// The catalog lookup returned a download URL, or failed.
    LookupResult(Result<String, String>),
    /// The download was saved to the reported scratch path, or failed.
    FetchResult(Result<String, String>),
    /// The unpack into the deploy directory completed, or failed.
    UnzipResult(Result<(), String>),
    /// The certificate stub write completed, or failed.
    SignResult(Result<(), String>),
}

/// What the pipeline asks the embedding application to perform next.
#[derive(Debug)]
pub enum DeployAction {
    /// Create the scratch directory if asked, and apply the plan to the
    /// deploy directory.
    PrepareEnv { create_download_dir: bool, deploy_plan: DeployDirPlan },
    /// Post the catalog query for the package to the endpoint.
    PostLookup { endpoint: String, package_name: String },
    /// Download the archive at the URL and save it at the destination.
    Fetch { url: String, dest: String },
    /// Unpack the archive into the destination directory.
    Unzip { archive: String, dest: String },
    /// Write the contents to the file at the path.
    WriteFile { path: String, contents: String },
    /// Report success; the pipeline is finished.
    Succeed,
    /// Report the failure; the pipeline is finished.
    Fail { message: String },
}

/// The scratch directory that downloads are saved under.
pub open spec fn tmp_download_dir_spec() -> Seq<char> {
    "/tmp/download"@
}

/// The scratch directory that downloads are saved under.
pub fn tmp_download_dir() -> (r: String)
    ensures
        r@ == tmp_download_dir_spec(),
{
    String::from_str("/tmp/download")
}

/// The scratch path that a package's archive is saved at:
/// `{scratch_dir}/{package_name}.rpk`.
pub open spec fn download_path_spec(package_name: Seq<char>) -> Seq<char> {
    join_path(tmp_download_dir_spec(), package_name) + ".rpk"@
}

/// The scratch path that a package's archive is saved at.
pub fn download_path(package_name: &str) -> (r: String)
    ensures
        r@ == download_path_spec(package_name@),
{
    tmp_download_dir().concat("/").concat(package_name).concat(".rpk")
}

/// The path of the certificate stub inside the deploy directory.
pub open spec fn cert_path_spec(dir: Seq<char>) -> Seq<char> {
    join_path(dir, "cp.cert"@)
}

/// The placeholder contents of the certificate stub.
pub open spec fn cert_contents_spec() -> Seq<char> {
    "123123123"@
}

/// The failure text for an event that the current stage does not await.
pub open spec fn unexpected_event_msg() -> Seq<char> {
    "unexpected event"@
}

/// The stage the pipeline moves to on an event: the successful outcome of
/// each awaited action advances to the next stage, any failing outcome
/// moves to `Failed`, and an event that the stage does not await moves to
/// `Failed` as well.
pub open spec fn next_stage(s: Stage, e: DeployEvent) -> Stage {
    match (s, e) {
        (Stage::Start, DeployEvent::Started { .. }) => Stage::EnvPreparing,
        (Stage::EnvPreparing, DeployEvent::EnvReady) => Stage::Looking,
        (Stage::Looking, DeployEvent::LookupResult(r)) => match r {
            Ok(_) => Stage::Fetching,
            Err(_) => Stage::Failed,
        },
        (Stage::Fetching, DeployEvent::FetchResult(r)) => match r {
            Ok(_) => Stage::Unzipping,
            Err(_) => Stage::Failed,
        },
        (Stage::Unzipping, DeployEvent::UnzipResult(r)) => match r {
            Ok(_) => Stage::Signing,
            Err(_) => Stage::Failed,
        },
        (Stage::Signing, DeployEvent::SignResult(r)) => match r {
            Ok(_) => Stage::Done,
            Err(_) => Stage::Failed,
        },
        _ => Stage::Failed,
    }
}

/// The action the pipeline asks for on an event, pinned field by field:
/// the start event asks for environment initialization under the resolved
/// overwrite policy; a ready environment asks for the catalog lookup of
/// the package; a looked-up URL asks for the download to the package's
/// scratch path; a saved download asks for the unpack of that file into
/// the deploy directory; a finished unpack asks for the certificate stub
/// write inside the deploy directory; a finished write asks for the
/// success report. Any failing outcome asks for the failure report with
/// the failure's own text, and an event that the stage does not await
/// asks for the failure report as well.
pub open spec fn action_ok(p: DeployParam, s: Stage, e: DeployEvent, a: DeployAction) -> bool {
    match (s, e) {
        (Stage::Start, DeployEvent::Started { download_dir_exists, deploy_dir_exists }) => a == (
        DeployAction::PrepareEnv {
            create_download_dir: !download_dir_exists,
            deploy_plan: plan_for(deploy_dir_exists, p.replace_if_exists),
        }),
        (Stage::EnvPreparing, DeployEvent::EnvReady) => a matches DeployAction::PostLookup {
            endpoint,
            package_name,
        } && endpoint@ == catalog_endpoint_spec() && package_name@ == p.package_name@,
        (Stage::Looking, DeployEvent::LookupResult(r)) => match r {
            Ok(url) => a matches DeployAction::Fetch { url: u, dest } && u@ == url@ && dest@
                == download_path_spec(p.package_name@),
            Err(m) => a matches DeployAction::Fail { message } && message@ == m@,
        },
        (Stage::Fetching, DeployEvent::FetchResult(r)) => match r {
            Ok(path) => a matches DeployAction::Unzip { archive, dest } && archive@ == path@
                && dest@ == p.deploy_dir@,
            Err(m) => a matches DeployAction::Fail { message } && message@ == m@,
        },
        (Stage::Unzipping, DeployEvent::UnzipResult(r)) => match r {
            Ok(_) => a matches DeployAction::WriteFile { path, contents } && path@
                == cert_path_spec(p.deploy_dir@) && contents@ == cert_contents_spec(),
            Err(m) => a matches DeployAction::Fail { message } && message@ == m@,
        },
        (Stage::Signing, DeployEvent::SignResult(r)) => match r {
            Ok(_) => a == DeployAction::Succeed,
            Err(m) => a matches DeployAction::Fail { message } && message@ == m@,
        },
        _ => a matches DeployAction::Fail { message } && message@ == unexpected_event_msg(),
    }
}

/// The pipeline: the resolved deployment request together with the stage
/// reached so far.
pub struct DeployProcessor {
    pub param: DeployParam,
    pub stage: Stage,
}

impl DeployProcessor {
    /// A fresh pipeline for the request, standing at the start.
    pub fn new(param: DeployParam) -> (d: DeployProcessor)
        ensures
            d.param == param,
            d.stage == Stage::Start,
    {
        DeployProcessor { param, stage: Stage::Start }
    }

    /// The environment-initialization action: create the scratch directory
    /// exactly when it is absent, and apply to the deploy directory the
    /// plan that the overwrite policy selects.
    pub fn env_init(&self, download_dir_exists: bool, deploy_dir_exists: bool) -> (a: DeployAction)
        ensures
            a == (DeployAction::PrepareEnv {
                create_download_dir: !download_dir_exists,
                deploy_plan: plan_for(deploy_dir_exists, self.param.replace_if_exists),
            }),
    {
        DeployAction::PrepareEnv {
            create_download_dir: !download_dir_exists,
            deploy_plan: choose_plan(deploy_dir_exists, self.param.replace_if_exists),
        }
    }

    /// The certificate-stub action for a finished unpack: write the
    /// placeholder contents to `cp.cert` inside the unpacked directory.
    pub fn create_cert_sign(unzip_path: &str) -> (a: DeployAction)
        ensures
            a matches DeployAction::WriteFile { path, contents } && path@ == cert_path_spec(
                unzip_path@,
            ) && contents@ == cert_contents_spec(),
    {
        DeployAction::WriteFile {
            path: String::from_str(unzip_path).concat("/").concat("cp.cert"),
            contents: String::from_str("123123123"),
        }
    }

    /// One step of the pipeline: consumes the outcome of the action last
    /// asked for, moves to the stage that `next_stage` gives, and returns
    /// the action that `action_ok` pins for the event. The request itself
    /// never changes.
    pub fn process(&mut self, event: DeployEvent) -> (a: DeployAction)
        ensures
            final(self).param == old(self).param,
            final(self).stage == next_stage(old(self).stage, event),
            action_ok(old(self).param, old(self).stage, event, a),
    {
        match (self.stage, event) {
            (Stage::Start, DeployEvent::Started { download_dir_exists, deploy_dir_exists }) => {
                self.stage = Stage::EnvPreparing;
                self.env_init(download_dir_exists, deploy_dir_exists)
            },
            (Stage::EnvPreparing, DeployEvent::EnvReady) => {
                self.stage = Stage::Looking;
                DeployAction::PostLookup {
                    endpoint: catalog_endpoint(),
                    package_name: String::from_str(self.param.package_name.as_str()),
                }
            },
            (Stage::Looking, DeployEvent::LookupResult(r)) => match r {
                Ok(url) => {
                    self.stage = Stage::Fetching;
                    DeployAction::Fetch {
                        url,
                        dest: download_path(self.param.package_name.as_str()),
                    }
                },
                Err(m) => {
                    self.stage = Stage::Failed;
                    DeployAction::Fail { message: m }
                },
            },
            (Stage::Fetching, DeployEvent::FetchResult(r)) => match r {
                Ok(path) => {
                    self.stage = Stage::Unzipping;
                    DeployAction::Unzip {
                        archive: path,
                        dest: String::from_str(self.param.deploy_dir.as_str()),
                    }
                },
                Err(m) => {
                    self.stage = Stage::Failed;
                    DeployAction::Fail { message: m }
                },
            },
            (Stage::Unzipping, DeployEvent::UnzipResult(r)) => match r {
                Ok(_) => {
                    self.stage = Stage::Signing;
                    Self::create_cert_sign(self.param.deploy_dir.as_str())
                },
                Err(m) => {
                    self.stage = Stage::Failed;
                    DeployAction::Fail { message: m }
                },
            },
            (Stage::Signing, DeployEvent::SignResult(r)) => match r {
                Ok(_) => {
                    self.stage = Stage::Done;
                    DeployAction::Succeed
                },
                Err(m) => {
                    self.stage = Stage::Failed;
                    DeployAction::Fail { message: m }
                },
            },
            _ => {
                self.stage = Stage::Failed;
                DeployAction::Fail { message: String::from_str("unexpected event") }
            },
        }
    }
}

/// A failing fetch aborts the pipeline before any extraction: the fetch
/// error moves the pipeline to the failed stage, the only action it can
/// emit for that outcome is the failure report, and from the failed stage
/// no event can make the pipeline ask for an unpack, a write, or any
/// other change to the deploy directory — only further failure reports.
pub proof fn lemma_fetch_error_aborts(p: DeployParam, m: String)
    ensures
        next_stage(Stage::Fetching, DeployEvent::FetchResult(Err(m))) == Stage::Failed,
        forall|a: DeployAction|
            #[trigger] action_ok(p, Stage::Fetching, DeployEvent::FetchResult(Err(m)), a)
                ==> a matches DeployAction::Fail { .. },
        forall|e: DeployEvent, a: DeployAction|
            #[trigger] action_ok(p, Stage::Failed, e, a) ==> a matches DeployAction::Fail { .. },
{
}

} // verus!
