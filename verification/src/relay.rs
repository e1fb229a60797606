//! Plain models of the relay map.
//!
//! A relay map groups relay nodes into regions.  The actor only reads the
//! map: it resolves a node name to its region and, for the captive-portal
//! check, picks a region and reads its first node's URL host.

use vstd::prelude::*;

verus! {

/// Mathematical value of a relay node.
pub ghost struct RelayNodeV {
    pub name: Seq<char>,
    pub region_id: u16,
    pub host: Seq<char>,
}

/// A relay node: its name, the region it belongs to, and the host part of
/// its URL.
#[derive(Debug)]
pub struct RelayNode {
    pub name: String,
    pub region_id: u16,
    pub host: String,
}

impl View for RelayNode {
    type V = RelayNodeV;

    open spec fn view(&self) -> RelayNodeV {
        RelayNodeV { name: self.name@, region_id: self.region_id, host: self.host@ }
    }
}

/// Mathematical value of a relay region.
pub ghost struct RelayRegionV {
    pub region_id: u16,
    pub avoid: bool,
    pub nodes: Seq<RelayNodeV>,
}

/// A relay region: a group of nodes, possibly marked to be avoided by the
/// captive-portal check.
#[derive(Debug)]
pub struct RelayRegion {
    pub region_id: u16,
    pub avoid: bool,
    pub nodes: Vec<RelayNode>,
}

impl View for RelayRegion {
    type V = RelayRegionV;

    open spec fn view(&self) -> RelayRegionV {
        RelayRegionV {
            region_id: self.region_id,
            avoid: self.avoid,
            nodes: self.nodes@.map_values(|n: RelayNode| n@),
        }
    }
}

/// The relay map: the set of regions the report generator probes.
#[derive(Debug)]
pub struct RelayMap {
    pub regions: Vec<RelayRegion>,
}

impl View for RelayMap {
    type V = Seq<RelayRegionV>;

    open spec fn view(&self) -> Seq<RelayRegionV> {
        self.regions@.map_values(|r: RelayRegion| r@)
    }
}

/// Whether a region holds a node with this name.
pub open spec fn region_has_node(region: RelayRegionV, name: Seq<char>) -> bool {
    exists|j: int| 0 <= j < region.nodes.len() && #[trigger] region.nodes[j].name == name
}

/// The region id of the first region holding a node with this name.
pub open spec fn find_node_region(regions: Seq<RelayRegionV>, name: Seq<char>) -> Option<u16>
    decreases regions.len(),
{
    if regions.len() == 0 {
        None
    } else if region_has_node(regions[0], name) {
        Some(regions[0].region_id)
    } else {
        find_node_region(regions.skip(1), name)
    }
}

/// The first region with this id.
pub open spec fn find_region(regions: Seq<RelayRegionV>, id: u16) -> Option<RelayRegionV>
    decreases regions.len(),
{
    if regions.len() == 0 {
        None
    } else if regions[0].region_id == id {
        Some(regions[0])
    } else {
        find_region(regions.skip(1), id)
    }
}

impl RelayRegion {
    /// The node the ICMP and captive-portal measurements of a region use:
    /// its first one, if the region has any.
    pub fn first_node(&self) -> (r: Option<&RelayNode>)
        ensures
            match r {
                Some(node) => self@.nodes.len() > 0 && node@ == self@.nodes[0],
                None => self@.nodes.len() == 0,
            },
    {
        if self.nodes.len() > 0 {
            proof {
                assert(self@.nodes[0] == self.nodes@[0]@);
            }
            Some(&self.nodes[0])
        } else {
            None
        }
    }
}

impl RelayMap {
    /// The region id of the node with the given name, if the map has one.
    ///
    /// This is the name resolution used when a STUN probe reports a latency
    /// for a node.
    pub fn find_region_by_name(&self, name: &String) -> (r: Option<u16>)
        ensures
            r == find_node_region(self@, name@),
    {
        let nr = self.regions.len();
        let mut i: usize = 0;
        proof {
            assert(self@.skip(0) =~= self@);
        }
        while i < nr
            invariant
                nr == self.regions@.len(),
                i <= nr,
                find_node_region(self@, name@) == find_node_region(self@.skip(i as int), name@),
            decreases nr - i,
        {
            let region = &self.regions[i];
            proof {
                assert(self@.skip(i as int).len() == nr - i);
                assert(self@[i as int] == region@);
                assert(self@.skip(i as int)[0] == self@[i as int]);
            }
            let nn = region.nodes.len();
            let mut j: usize = 0;
            while j < nn
                invariant
                    nr == self.regions@.len(),
                    i < nr,
                    region@ == self@[i as int],
                    find_node_region(self@, name@) == find_node_region(
                        self@.skip(i as int),
                        name@,
                    ),
                    nn == region.nodes@.len(),
                    j <= nn,
                    forall|b: int| 0 <= b < j ==> #[trigger] region@.nodes[b].name != name@,
                decreases nn - j,
            {
                proof {
                    assert(region@.nodes[j as int] == region.nodes@[j as int]@);
                }
                if region.nodes[j].name == *name {
                    proof {
                        let s = self@.skip(i as int);
                        assert(s.len() > 0);
                        assert(s[0] == region@);
                        assert(region@.nodes[j as int].name == name@);
                        assert(region_has_node(region@, name@));
                        assert(find_node_region(s, name@) == Some(region@.region_id));
                    }
                    return Some(region.region_id);
                }
                j = j + 1;
            }
            proof {
                assert(self@.skip(i as int).len() == nr - i);
                assert(!region_has_node(self@.skip(i as int)[0], name@));
                assert(self@.skip(i as int).skip(1) =~= self@.skip(i as int + 1));
            }
            i = i + 1;
        }
        proof {
            assert(self@.skip(nr as int).len() == 0);
        }
        None
    }

    /// The region with the given id, if the map has one.
    pub fn get_region(&self, id: u16) -> (r: Option<&RelayRegion>)
        ensures
            match r {
                Some(region) => find_region(self@, id) == Some(region@),
                None => find_region(self@, id) is None,
            },
    {
        let nr = self.regions.len();
        let mut i: usize = 0;
        proof {
            assert(self@.skip(0) =~= self@);
        }
        while i < nr
            invariant
                nr == self.regions@.len(),
                i <= nr,
                find_region(self@, id) == find_region(self@.skip(i as int), id),
            decreases nr - i,
        {
            proof {
                assert(self@.skip(i as int).len() == nr - i);
                assert(self@.skip(i as int)[0] == self@[i as int]);
                assert(self@[i as int] == self.regions@[i as int]@);
            }
            if self.regions[i].region_id == id {
                return Some(&self.regions[i]);
            }
            proof {
                assert(self@.skip(i as int).skip(1) =~= self@.skip(i as int + 1));
            }
            i = i + 1;
        }
        proof {
            assert(self@.skip(nr as int).len() == 0);
        }
        None
    }
}

} // verus!
