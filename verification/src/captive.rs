//! The captive-portal check's decision logic.
//!
//! The check picks a relay region, asks its first node's host for a
//! canonical `204 No Content` response, and reads the verdict off the
//! status and a challenge-response header.  Everything but the HTTP
//! request itself is decided here.

use crate::relay::{find_region, RelayMap, RelayRegion, RelayRegionV};
use crate::strutil::{ends_with, str_ends_with, str_eq};
use rand::seq::IteratorRandom;
use vstd::prelude::*;
use vstd::string::StringExecFns;

verus! {

/// A region the random captive-portal pick may use: not marked avoided,
/// with at least one node.
pub open spec fn eligible(regions: Seq<RelayRegionV>, i: int) -> bool {
    0 <= i < regions.len() && !regions[i].avoid && regions[i].nodes.len() > 0
}

/// Relies on rand's `IteratorRandom::choose` over `0..n`: it returns
/// `None` if and only if the range is empty, otherwise one of its items.
#[verifier::external_body]
fn pick_index(n: usize) -> (r: Option<usize>)
    ensures
        (r is Some) == (n > 0),
        r is Some ==> r->0 < n,
{
    (0..n).choose(&mut rand::thread_rng())
}

/// The indices of the regions the random pick may choose from: exactly the
/// eligible ones, in order and each once.
pub fn eligible_indices(map: &RelayMap) -> (r: Vec<usize>)
    ensures
        forall|j: int| 0 <= j < r@.len() ==> eligible(map@, #[trigger] r@[j] as int),
        forall|i: usize| eligible(map@, i as int) ==> r@.contains(i),
        forall|a: int, b: int| 0 <= a < b < r@.len() ==> r@[a] < r@[b],
{
    let n = map.regions.len();
    let mut out: Vec<usize> = Vec::new();
    let mut i: usize = 0;
    while i < n
        invariant
            n == map.regions@.len(),
            i <= n,
            forall|j: int| 0 <= j < out@.len() ==> eligible(map@, #[trigger] out@[j] as int),
            forall|k: usize| k < i && eligible(map@, k as int) ==> out@.contains(k),
            forall|j: int| 0 <= j < out@.len() ==> #[trigger] out@[j] < i,
            forall|a: int, b: int| 0 <= a < b < out@.len() ==> out@[a] < out@[b],
        decreases n - i,
    {
        proof {
            assert(map@[i as int] == map.regions@[i as int]@);
        }
        if !map.regions[i].avoid && map.regions[i].nodes.len() > 0 {
            let ghost before = out@;
            out.push(i);
            proof {
                assert(out@[out@.len() - 1] == i);
                assert(out@.contains(i));
                assert forall|k: usize| before.contains(k) implies out@.contains(k) by {
                    let j = choose|j: int| 0 <= j < before.len() && before[j] == k;
                    assert(out@[j] == k);
                }
            }
        }
        i = i + 1;
    }
    out
}

/// What the captive-portal check should do.
pub enum CaptiveCheckPlan {
    /// No request is needed; this is the verdict (`false`: no portal).
    Resolved(bool),
    /// Issue `GET url` with the challenge header and hold the response
    /// against `expected`.
    Request { host: String, url: String, challenge: String, expected: String },
}

/// The challenge sent with the probe request.
pub open spec fn challenge_of(host: Seq<char>) -> Seq<char> {
    "ts_"@ + host
}

/// The URL the probe request is sent to.
pub open spec fn url_of(host: Seq<char>) -> Seq<char> {
    "http://"@ + host + "/generate_204"@
}

/// The response-header value that proves the absence of a captive portal.
pub open spec fn expected_of(host: Seq<char>) -> Seq<char> {
    "response "@ + challenge_of(host)
}

/// The plan a check of the host `h` must produce: a test-only `.invalid`
/// host resolves without a request, any other host is probed.
pub open spec fn plan_for_host(p: CaptiveCheckPlan, h: Seq<char>) -> bool {
    if ends_with(h, ".invalid"@) {
        p is Resolved
    } else {
        (p matches CaptiveCheckPlan::Request { host, .. } && host@ == h)
    }
}

/// Whether the previous report's preferred region still picks the region
/// to probe: it must exist in the map and have at least one node.
pub open spec fn preferred_usable(regions: Seq<RelayRegionV>, preferred: Option<u16>) -> bool {
    match preferred {
        Some(id) => match find_region(regions, id) {
            Some(region) => region.nodes.len() > 0,
            None => false,
        },
        None => false,
    }
}

/// Decides the captive-portal check: picks the previous report's preferred
/// region when the map still knows it and it has nodes, otherwise a random
/// region that is neither avoided nor empty; the probed node is the
/// selected region's first.  With no region to use, or a test-only
/// `.invalid` host, the check resolves to "no portal" without any network
/// traffic.
pub fn captive_portal_plan(map: &RelayMap, preferred: Option<u16>) -> (r: CaptiveCheckPlan)
    ensures
        match r {
            CaptiveCheckPlan::Resolved(found) => !found,
            CaptiveCheckPlan::Request { host, url, challenge, expected } => {
                &&& !ends_with(host@, ".invalid"@)
                &&& url@ == url_of(host@)
                &&& challenge@ == challenge_of(host@)
                &&& expected@ == expected_of(host@)
            },
        },
        preferred_usable(map@, preferred) ==> plan_for_host(
            r,
            find_region(map@, preferred->0)->0.nodes[0].host,
        ),
        !preferred_usable(map@, preferred) && (exists|i: int| eligible(map@, i)) ==> exists|i: int|
            #[trigger] eligible(map@, i) && plan_for_host(r, map@[i].nodes[0].host),
        !preferred_usable(map@, preferred) && (forall|i: int| !eligible(map@, i)) ==> (
        r matches CaptiveCheckPlan::Resolved(found) && !found),
{
    if let Some(id) = preferred {
        if let Some(region) = map.get_region(id) {
            if region.nodes.len() > 0 {
                return plan_for_region(region);
            }
        }
    }
    let rids = eligible_indices(map);
    if rids.len() == 0 {
        proof {
            assert forall|i: int| !eligible(map@, i) by {
                if eligible(map@, i) {
                    vstd::std_specs::vec::axiom_spec_len(&map.regions);
                    assert(map@.len() == map.regions@.len());
                    assert(0 <= i < map.regions@.len() <= usize::MAX);
                    let k: usize = i as usize;
                    assert(k as int == i);
                    assert(eligible(map@, k as int));
                    assert(rids@.contains(k));
                }
            }
        }
        return CaptiveCheckPlan::Resolved(false);
    }
    let i = match pick_index(rids.len()) {
        Some(i) => i,
        None => 0,
    };
    let idx = rids[i];
    proof {
        assert(eligible(map@, rids@[i as int] as int));
        assert(map@[idx as int] == map.regions@[idx as int]@);
    }
    let r = plan_for_region(&map.regions[idx]);
    proof {
        assert(plan_for_host(r, map@[idx as int].nodes[0].host));
    }
    r
}

/// The plan for a selected region: probe its first node's host, unless the
/// host is a test-only `.invalid` name.
fn plan_for_region(region: &RelayRegion) -> (r: CaptiveCheckPlan)
    requires
        region@.nodes.len() > 0,
    ensures
        match r {
            CaptiveCheckPlan::Resolved(found) => !found,
            CaptiveCheckPlan::Request { host, url, challenge, expected } => {
                &&& !ends_with(host@, ".invalid"@)
                &&& url@ == url_of(host@)
                &&& challenge@ == challenge_of(host@)
                &&& expected@ == expected_of(host@)
            },
        },
        plan_for_host(r, region@.nodes[0].host),
{
    proof {
        assert(region@.nodes[0] == region.nodes@[0]@);
    }
    let node = &region.nodes[0];
    if str_ends_with(node.host.as_str(), ".invalid") {
        // A test-only host name; never try to connect to it.
        return CaptiveCheckPlan::Resolved(false);
    }
    let challenge = String::from_str("ts_").concat(node.host.as_str());
    let url = String::from_str("http://").concat(node.host.as_str()).concat("/generate_204");
    let expected = String::from_str("response ").concat(challenge.as_str());
    CaptiveCheckPlan::Request { host: node.host.clone(), url, challenge, expected }
}

/// Reads the captive-portal verdict off the probe response: a portal is
/// detected unless the status is 204 and the challenge-response header
/// matches the expected value exactly.
pub fn evaluate_captive_response(status: u16, response_header: Option<&str>, host: &str) -> (r:
    bool)
    ensures
        r == !(status == 204 && (response_header matches Some(h) && h@ == expected_of(host@))),
{
    let expected = String::from_str("response ts_").concat(host);
    proof {
        assert(expected@ =~= expected_of(host@)) by {
            reveal_strlit("response ts_");
            reveal_strlit("response ");
            reveal_strlit("ts_");
            assert(expected@ =~= "response "@ + ("ts_"@ + host@));
        }
    }
    let is_valid_response = match response_header {
        Some(h) => str_eq(h, expected.as_str()),
        None => false,
    };
    status != 204 || !is_valid_response
}

} // verus!
