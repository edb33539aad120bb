//! The plugin registry, as far as this crate reads it: which plugins exist
//! and which of them are installed. Loading, saving and installing are file
//! and process work outside this crate.

use crate::util::clone_opt;
use vstd::prelude::*;

verus! {

/// The registry document.
#[derive(Debug)]
pub struct PowersRegistry {
    pub version: String,
    pub powers: Vec<(String, PowerInfo)>,
    pub repo_sources: Vec<(String, RepoSource)>,
    pub kiro_recommended_repo: Option<KiroRecommendedRepo>,
    pub last_updated: Option<String>,
}

/// One source repository of plugins.
#[derive(Debug, Clone)]
pub struct RepoSource {
    pub name: String,
    pub source_type: String,
    pub enabled: bool,
    pub branch: String,
    pub last_commit_sha: Option<String>,
    pub clone_url: String,
    pub path_in_repo: String,
    pub local_path: Option<String>,
    pub cloned_at: Option<String>,
    pub power_count: i32,
    pub powers: Vec<String>,
}

/// The recommended repository block.
#[derive(Debug, Clone)]
pub struct KiroRecommendedRepo {
    pub url: String,
    pub last_fetch: Option<String>,
    pub power_count: i32,
}

/// One plugin's registry entry.
#[derive(Debug)]
pub struct PowerInfo {
    pub name: String,
    pub display_name: String,
    pub description: String,
    pub author: String,
    pub license: String,
    pub keywords: Vec<String>,
    pub icon_url: Option<String>,
    pub repository_url: Option<String>,
    pub repository_clone_url: Option<String>,
    pub repository_branch: Option<String>,
    pub path_in_repo: Option<String>,
    pub installed: bool,
    pub installed_at: Option<String>,
    pub install_path: Option<String>,
    pub installed_commit_sha: Option<String>,
    pub mcp_servers: Vec<String>,
    pub source: Option<PowerSource>,
}

/// Where an installed plugin came from.
#[derive(Debug, Clone)]
pub struct PowerSource {
    pub source_type: String,
    pub clone_id: Option<String>,
}

/// The view of an optional string.
pub open spec fn opt_view_p(o: Option<String>) -> Option<Seq<char>> {
    match o {
        Some(s) => Some(s@),
        None => None,
    }
}

/// The two entries describe the same plugin: every field agrees, lists on
/// their elements.
pub open spec fn same_power_info(a: PowerInfo, b: PowerInfo) -> bool {
    &&& a.name@ == b.name@
    &&& a.display_name@ == b.display_name@
    &&& a.description@ == b.description@
    &&& a.author@ == b.author@
    &&& a.license@ == b.license@
    &&& a.keywords@ == b.keywords@
    &&& opt_view_p(a.icon_url) == opt_view_p(b.icon_url)
    &&& opt_view_p(a.repository_url) == opt_view_p(b.repository_url)
    &&& opt_view_p(a.repository_clone_url) == opt_view_p(b.repository_clone_url)
    &&& opt_view_p(a.repository_branch) == opt_view_p(b.repository_branch)
    &&& opt_view_p(a.path_in_repo) == opt_view_p(b.path_in_repo)
    &&& a.installed == b.installed
    &&& opt_view_p(a.installed_at) == opt_view_p(b.installed_at)
    &&& opt_view_p(a.install_path) == opt_view_p(b.install_path)
    &&& opt_view_p(a.installed_commit_sha) == opt_view_p(b.installed_commit_sha)
    &&& a.mcp_servers@ == b.mcp_servers@
    &&& match (a.source, b.source) {
        (Some(sa), Some(sb)) => sa.source_type@ == sb.source_type@ && opt_view_p(sa.clone_id)
            == opt_view_p(sb.clone_id),
        (None, None) => true,
        _ => false,
    }
}

impl PowerInfo {
    /// A copy that describes the same plugin.
    pub fn duplicate(&self) -> (r: PowerInfo)
        ensures
            same_power_info(r, *self),
            r.installed == self.installed,
    {
        PowerInfo {
            name: self.name.clone(),
            display_name: self.display_name.clone(),
            description: self.description.clone(),
            author: self.author.clone(),
            license: self.license.clone(),
            keywords: clone_string_list(&self.keywords),
            icon_url: clone_opt(&self.icon_url),
            repository_url: clone_opt(&self.repository_url),
            repository_clone_url: clone_opt(&self.repository_clone_url),
            repository_branch: clone_opt(&self.repository_branch),
            path_in_repo: clone_opt(&self.path_in_repo),
            installed: self.installed,
            installed_at: clone_opt(&self.installed_at),
            install_path: clone_opt(&self.install_path),
            installed_commit_sha: clone_opt(&self.installed_commit_sha),
            mcp_servers: clone_string_list(&self.mcp_servers),
            source: match &self.source {
                Some(src) => Some(
                    PowerSource {
                        source_type: src.source_type.clone(),
                        clone_id: clone_opt(&src.clone_id),
                    },
                ),
                None => None,
            },
        }
    }
}

impl PowersRegistry {
    /// The registered plugins that are installed, in registry order; each
    /// returned entry describes the stored one.
    pub fn get_installed(&self) -> (r: Vec<PowerInfo>)
        ensures
            ({
                let installed = self.powers@.map_values(|e: (String, PowerInfo)| e.1).filter(
                    |p: PowerInfo| p.installed,
                );
                &&& r@.len() == installed.len()
                &&& forall|i: int|
                    0 <= i < r@.len() ==> same_power_info(#[trigger] r@[i], installed[i])
            }),
    {
        let ghost values = self.powers@.map_values(|e: (String, PowerInfo)| e.1);
        let ghost pred = |p: PowerInfo| p.installed;
        let n = self.powers.len();
        let mut out: Vec<PowerInfo> = Vec::new();
        proof {
            assert(values.take(0) =~= Seq::<PowerInfo>::empty());
            reveal(Seq::filter);
        }
        for i in 0..n
            invariant
                n == self.powers@.len(),
                values == self.powers@.map_values(|e: (String, PowerInfo)| e.1),
                values.len() == n,
                out@.len() == values.take(i as int).filter(pred).len(),
                pred == (|p: PowerInfo| p.installed),
                forall|k: int|
                    0 <= k < out@.len() ==> same_power_info(
                        #[trigger] out@[k],
                        values.take(i as int).filter(pred)[k],
                    ),
        {
            proof {
                assert(values.take(i + 1).drop_last() =~= values.take(i as int));
                assert(values.take(i + 1).last() == values[i as int]);
                assert(values[i as int] == self.powers@[i as int].1);
                reveal(Seq::filter);
            }
            let entry = &self.powers[i];
            if entry.1.installed {
                out.push(entry.1.duplicate());
            }
        }
        proof {
            assert(values.take(n as int) =~= values);
        }
        out
    }

    /// Every registered plugin, installed or not, in registry order; each
    /// returned entry describes the stored one.
    pub fn get_all(&self) -> (r: Vec<PowerInfo>)
        ensures
            r@.len() == self.powers@.len(),
            forall|i: int|
                0 <= i < r@.len() ==> same_power_info(#[trigger] r@[i], self.powers@[i].1),
    {
        let n = self.powers.len();
        let mut out: Vec<PowerInfo> = Vec::new();
        for i in 0..n
            invariant
                n == self.powers@.len(),
                out@.len() == i,
                forall|k: int|
                    0 <= k < i ==> same_power_info(#[trigger] out@[k], self.powers@[k].1),
        {
            out.push(self.powers[i].1.duplicate());
        }
        out
    }
}

/// Copy a list of strings, element for element.
fn clone_string_list(v: &Vec<String>) -> (r: Vec<String>)
    ensures
        r@ == v@,
{
    let n = v.len();
    let mut out: Vec<String> = Vec::new();
    for i in 0..n
        invariant
            n == v@.len(),
            out@ == v@.subrange(0, i as int),
    {
        out.push(v[i].clone());
        proof {
            assert(out@ =~= v@.subrange(0, i + 1));
        }
    }
    proof {
        assert(v@.subrange(0, n as int) =~= v@);
    }
    out
}

} // verus!
