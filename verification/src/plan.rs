//! The follower fan-out plan: one log follower per discovered service, each
//! bound to its own `{logs_dir}/{service}.log` file.
use vstd::prelude::*;

use crate::discovery::service_lines;

verus! {

/// The log file path for one service: `{dir}/{service}.log`.
pub open spec fn log_path(dir: Seq<char>, service: Seq<char>) -> Seq<char> {
    dir + "/"@ + service + ".log"@
}

/// Build the log file path for one service.
pub fn log_file_path(dir: &str, service: &str) -> (r: String)
    ensures
        r@ == log_path(dir@, service@),
{
    let mut r = dir.to_owned();
    r.append("/");
    r.append(service);
    r.append(".log");
    r
}

/// One planned follower: the service it attaches to and the file that
/// receives that service's log stream.
pub struct FollowerSpec {
    pub service: String,
    pub path: String,
}

/// The plan covers the services exactly: one entry per service, in listing
/// order, each bound to that service's own log path.
pub open spec fn plan_matches_services(
    plan: Seq<FollowerSpec>,
    dir: Seq<char>,
    services: Seq<Seq<char>>,
) -> bool {
    &&& plan.len() == services.len()
    &&& forall|i: int|
        0 <= i < plan.len() ==> #[trigger] plan[i].service@ == services[i] && plan[i].path@
            == log_path(dir, services[i])
}

/// Lay out one follower per service: entry `i` follows service `i` and
/// writes to `{dir}/{services[i]}.log`.
pub fn plan_followers(dir: &str, services: &Vec<String>) -> (r: Vec<FollowerSpec>)
    ensures
        plan_matches_services(r@, dir@, services.deep_view()),
{
    let mut r: Vec<FollowerSpec> = Vec::new();
    let mut i: usize = 0;
    while i < services.len()
        invariant
            i <= services.len(),
            r@.len() == i,
            forall|k: int|
                0 <= k < i ==> #[trigger] r@[k].service@ == services.deep_view()[k]
                    && r@[k].path@ == log_path(dir@, services.deep_view()[k]),
        decreases services.len() - i,
    {
        let service = &services[i];
        let path = log_file_path(dir, service.as_str());
        r.push(FollowerSpec { service: service.clone(), path });
        i = i + 1;
    }
    proof {
        assert(plan_matches_services(r@, dir@, services.deep_view()));
    }
    r
}

/// Distinct services get distinct log files: the path determines the
/// service name, for one fixed log directory.
pub proof fn lemma_log_path_injective(dir: Seq<char>, s1: Seq<char>, s2: Seq<char>)
    requires
        log_path(dir, s1) == log_path(dir, s2),
    ensures
        s1 == s2,
{
    reveal_strlit("/");
    reveal_strlit(".log");
    let p1 = log_path(dir, s1);
    let p2 = log_path(dir, s2);
    assert(p1.len() == dir.len() + 1 + s1.len() + 4);
    assert(p2.len() == dir.len() + 1 + s2.len() + 4);
    assert(s1.len() == s2.len());
    assert forall|i: int| 0 <= i < s1.len() implies s1[i] == s2[i] by {
        assert(p1[dir.len() + 1 + i] == s1[i]);
        assert(p2[dir.len() + 1 + i] == s2[i]);
    }
    assert(s1 =~= s2);
}

/// Discovery completeness: a plan drawn from a listing has exactly one
/// follower per reported service, and any two followers of distinct
/// services write to distinct files.
pub proof fn lemma_plan_complete_and_distinct(
    plan: Seq<FollowerSpec>,
    dir: Seq<char>,
    listing: Seq<char>,
)
    requires
        plan_matches_services(plan, dir, service_lines(listing)),
    ensures
        plan.len() == service_lines(listing).len(),
        forall|i: int, j: int|
            0 <= i < plan.len() && 0 <= j < plan.len() && #[trigger] plan[i].service@
                != #[trigger] plan[j].service@ ==> plan[i].path@ != plan[j].path@,
{
    let services = service_lines(listing);
    assert forall|i: int, j: int|
        0 <= i < plan.len() && 0 <= j < plan.len() && #[trigger] plan[i].service@
            != #[trigger] plan[j].service@ implies plan[i].path@ != plan[j].path@ by {
        if plan[i].path@ == plan[j].path@ {
            lemma_log_path_injective(dir, services[i], services[j]);
        }
    }
}

} // verus!
