//! Parameter resolution: turns the raw invocation parameters into a
//! fully-resolved deployment target.

use vstd::prelude::*;
use vstd::string::*;

verus! {

/// Raw invocation parameters: the package name, an optional workspace
/// override, and an optional overwrite flag.
pub struct CmdArgs {
    pub package_name: String,
    pub workspace: Option<String>,
    pub replace_if_exists: Option<bool>,
}

/// The workspace root used when no override is given.
pub open spec fn default_workspace_spec() -> Seq<char> {
    "/opt/xxxx/yyyy"@
}

/// The workspace root used when no override is given.
pub fn default_workspace() -> (r: String)
    ensures
        r@ == default_workspace_spec(),
{
    String::from_str("/opt/xxxx/yyyy")
}

/// A directory joined with a child name: `dir + "/" + name`.
pub open spec fn join_path(dir: Seq<char>, name: Seq<char>) -> Seq<char> {
    dir + "/"@ + name
}

/// The workspace root that a given override resolves to.
pub open spec fn resolved_workspace(workspace: Option<String>) -> Seq<char> {
    match workspace {
        Some(w) => w@,
        None => default_workspace_spec(),
    }
}

/// A fully-resolved deployment request. The deploy directory is always a
/// direct child of the workspace root named exactly after the package.
#[derive(Debug)]
pub struct DeployParam {
    pub package_name: String,
    pub deploy_dir: String,
    pub replace_if_exists: bool,
}

impl DeployParam {
    /// Applies the defaults: the deploy directory is
    /// `workspace + "/" + package_name`, the workspace falls back to the
    /// default root, and the overwrite policy defaults to `true`.
    pub fn from_args(args: CmdArgs) -> (p: DeployParam)
        ensures
            p.package_name@ == args.package_name@,
            p.deploy_dir@ == join_path(resolved_workspace(args.workspace), args.package_name@),
            p.replace_if_exists == (match args.replace_if_exists {
                Some(b) => b,
                None => true,
            }),
    {
        let workspace = match args.workspace {
            Some(w) => w,
            None => default_workspace(),
        };
        let deploy_dir = workspace.concat("/").concat(args.package_name.as_str());
        let replace_if_exists = match args.replace_if_exists {
            Some(b) => b,
            None => true,
        };
        DeployParam { package_name: args.package_name, deploy_dir, replace_if_exists }
    }
}

} // verus!
