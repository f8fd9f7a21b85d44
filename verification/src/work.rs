//! Work items: the pairing of targets with analysis dimensions, and the
//! endpoint each pairing is assigned to.

use crate::llm::schemas::github_response::{RepoInfo, RepoView};
use crate::llm::schemas::openai_response::Endpoint;
use crate::text::text_views;
use vstd::prelude::*;

verus! {

/// One (target, analysis dimension) pairing with its assigned endpoint.
#[derive(Clone, Debug)]
pub struct WorkItem {
    pub repo_info: RepoInfo,
    pub debate_type: String,
    pub endpoint_index: usize,
}

/// Mathematical value of a [`WorkItem`].
pub struct WorkItemView {
    pub repo_info: RepoView,
    pub debate_type: Seq<char>,
    pub endpoint_index: nat,
}

impl View for WorkItem {
    type V = WorkItemView;

    open spec fn view(&self) -> WorkItemView {
        WorkItemView {
            repo_info: self.repo_info@,
            debate_type: self.debate_type@,
            endpoint_index: self.endpoint_index as nat,
        }
    }
}

/// The views of a list of work items, entry by entry.
pub open spec fn item_views(items: Seq<WorkItem>) -> Seq<WorkItemView> {
    Seq::new(items.len(), |i: int| items[i]@)
}

/// The views of a list of targets, entry by entry.
pub open spec fn repo_views(repos: Seq<RepoInfo>) -> Seq<RepoView> {
    Seq::new(repos.len(), |i: int| repos[i]@)
}

/// Whether the pairing of target `i` with dimension `j` is made twice: the
/// pairings at even positions in both lists are.
pub open spec fn is_doubled(i: int, j: int) -> bool {
    i % 2 == 0 && j % 2 == 0
}

/// The items of one pairing, `made` items having been made before: the
/// first goes to endpoint `made mod n`; a second one, where the pairing is
/// doubled, to endpoint `(made + 3) mod n`.
pub open spec fn pair_items(
    repo: RepoView,
    debate_type: Seq<char>,
    doubled: bool,
    made: nat,
    endpoint_count: nat,
) -> Seq<WorkItemView> {
    let first = WorkItemView {
        repo_info: repo,
        debate_type,
        endpoint_index: made % endpoint_count,
    };
    if doubled {
        seq![
            first,
            WorkItemView {
                repo_info: repo,
                debate_type,
                endpoint_index: (made + 3) % endpoint_count,
            },
        ]
    } else {
        seq![first]
    }
}

/// The items of all pairings of the first `rows` targets, followed by those
/// of target `rows` with the first `cols` dimensions.
pub open spec fn fan_out_upto(
    repos: Seq<RepoView>,
    types: Seq<Seq<char>>,
    endpoint_count: nat,
    rows: nat,
    cols: nat,
) -> Seq<WorkItemView>
    decreases rows, cols,
{
    if cols > 0 {
        let before = fan_out_upto(repos, types, endpoint_count, rows, (cols - 1) as nat);
        before + pair_items(
            repos[rows as int],
            types[cols - 1],
            is_doubled(rows as int, cols - 1),
            before.len(),
            endpoint_count,
        )
    } else if rows > 0 {
        fan_out_upto(repos, types, endpoint_count, (rows - 1) as nat, types.len())
    } else {
        Seq::empty()
    }
}

/// The work items for the given targets and dimensions: target by target,
/// and for each target dimension by dimension.
pub open spec fn fan_out(repos: Seq<RepoView>, types: Seq<Seq<char>>, endpoint_count: nat) -> Seq<
    WorkItemView,
> {
    fan_out_upto(repos, types, endpoint_count, repos.len(), 0)
}

fn copy_repo(repo: &RepoInfo) -> (out: RepoInfo)
    ensures
        out@ == repo@,
{
    RepoInfo { owner: repo.owner.clone(), repo: repo.repo.clone(), max_files: repo.max_files }
}

/// Makes the work items for the given targets and dimensions.
pub fn build_work_items(repos: &Vec<RepoInfo>, debate_types: &Vec<String>, endpoint_count: usize) -> (items:
    Vec<WorkItem>)
    requires
        endpoint_count > 0,
    ensures
        item_views(items@) == fan_out(
            repo_views(repos@),
            text_views(debate_types@),
            endpoint_count as nat,
        ),
{
    let mut items: Vec<WorkItem> = Vec::new();
    let ghost rv = repo_views(repos@);
    let ghost tv = text_views(debate_types@);
    let ghost n = endpoint_count as nat;
    let mut i: usize = 0;
    proof {
        assert(item_views(items@) =~= fan_out_upto(rv, tv, n, 0, 0));
    }
    while i < repos.len()
        invariant
            i <= repos.len(),
            endpoint_count > 0,
            rv == repo_views(repos@),
            tv == text_views(debate_types@),
            n == endpoint_count as nat,
            item_views(items@) == fan_out_upto(rv, tv, n, i as nat, 0),
        decreases repos.len() - i,
    {
        let mut j: usize = 0;
        while j < debate_types.len()
            invariant
                i < repos.len(),
                j <= debate_types.len(),
                endpoint_count > 0,
                rv == repo_views(repos@),
                tv == text_views(debate_types@),
                n == endpoint_count as nat,
                item_views(items@) == fan_out_upto(rv, tv, n, i as nat, j as nat),
            decreases debate_types.len() - j,
        {
            let made: usize = items.len();
            let ghost before = item_views(items@);
            items.push(
                WorkItem {
                    repo_info: copy_repo(&repos[i]),
                    debate_type: debate_types[j].clone(),
                    endpoint_index: made % endpoint_count,
                },
            );
            if i % 2 == 0 && j % 2 == 0 {
                let extra: usize = ((made as u128 + 3) % (endpoint_count as u128)) as usize;
                items.push(
                    WorkItem {
                        repo_info: copy_repo(&repos[i]),
                        debate_type: debate_types[j].clone(),
                        endpoint_index: extra,
                    },
                );
            }
            proof {
                assert(item_views(items@) =~= before + pair_items(
                    rv[i as int],
                    tv[j as int],
                    is_doubled(i as int, j as int),
                    before.len(),
                    n,
                ));
            }
            j += 1;
        }
        i += 1;
    }
    items
}

/// The endpoint assigned to an index: the pool is used round-robin.
pub fn select_endpoint(endpoints: &Vec<Endpoint>, endpoint_index: usize) -> (endpoint: &Endpoint)
    requires
        endpoints@.len() > 0,
    ensures
        *endpoint == endpoints@[(endpoint_index as int) % (endpoints@.len() as int)],
{
    &endpoints[endpoint_index % endpoints.len()]
}

} // verus!
