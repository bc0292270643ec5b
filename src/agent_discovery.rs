//! Agent directories: parsing their names, and gathering them from a listing
//! of the standalone agents folder and of the rigs under the Gas Town root.
//!
//! Reading the file system is left to the caller, which hands over what it
//! found as a [`DiscoveryListing`]; everything decided about that listing is
//! done here.

use crate::paths::{
    file_name, file_name_of, find_first, first_index_of, join, joined, lemma_first_index_of_bounds,
};
use crate::role::{role_of, AgentRole};
use vstd::prelude::*;

verus! {

/// What precedes the first `-` of a directory name: the role it names.
pub open spec fn role_part(name: Seq<char>) -> Seq<char> {
    name.take(first_index_of(name, '-'))
}

/// What follows the first `-` of a directory name, if it has one.
pub open spec fn instance_part(name: Seq<char>) -> Option<Seq<char>> {
    if first_index_of(name, '-') < name.len() {
        Some(name.skip(first_index_of(name, '-') + 1))
    } else {
        None
    }
}

/// A directory name has an instance exactly when it holds a `-`; the name is
/// then its role part, the first `-` and the instance, and the role part
/// holds no `-`. Without one, the whole name is the role part.
pub proof fn lemma_name_split(name: Seq<char>)
    ensures
        instance_part(name) is Some <==> name.contains('-'),
        !role_part(name).contains('-'),
        instance_part(name) matches Some(id) ==> name == role_part(name) + seq!['-'] + id,
        instance_part(name) is None ==> role_part(name) == name,
{
    lemma_first_index_of_bounds(name, '-');
    let k = first_index_of(name, '-');
    if k < name.len() {
        assert(name =~= role_part(name) + seq!['-'] + name.skip(k + 1));
    } else {
        assert(role_part(name) =~= name);
    }
}

/// An agent directory as values: what [`AgentDirectory`] holds.
pub struct AgentDirectoryView {
    pub path: Seq<char>,
    pub role: AgentRole,
    pub instance_name: Seq<char>,
    pub instance_id: Option<Seq<char>>,
}

/// The record for the directory at `path` whose name is `name`.
pub open spec fn record_named(path: Seq<char>, name: Seq<char>) -> AgentDirectoryView {
    AgentDirectoryView {
        path,
        role: role_of(role_part(name)),
        instance_name: name,
        instance_id: instance_part(name),
    }
}

/// The record for the directory at `path`, where the path has a final name.
pub open spec fn record_of(path: Seq<char>) -> Option<AgentDirectoryView> {
    match file_name_of(path) {
        Some(name) => Some(record_named(path, name)),
        None => None,
    }
}

/// Represents a discovered agent directory.
#[derive(Debug, Clone, PartialEq)]
pub struct AgentDirectory {
    /// Full path to the agent directory
    pub path: String,
    /// The agent's role type
    pub role: AgentRole,
    /// The full instance name (e.g., "polecat-1", "mayor", "crew-alice")
    pub instance_name: String,
    /// Optional instance identifier (e.g., "1" from "polecat-1", "alice" from "crew-alice")
    pub instance_id: Option<String>,
}

impl View for AgentDirectory {
    type V = AgentDirectoryView;

    open spec fn view(&self) -> AgentDirectoryView {
        AgentDirectoryView {
            path: self.path@,
            role: self.role,
            instance_name: self.instance_name@,
            instance_id: match &self.instance_id {
                Some(s) => Some(s@),
                None => None,
            },
        }
    }
}

/// The views of a sequence of agent directories.
pub open spec fn views(v: Seq<AgentDirectory>) -> Seq<AgentDirectoryView> {
    v.map_values(|a: AgentDirectory| a@)
}

impl AgentDirectory {
    /// Builds the record for the directory at `path` named `name`: the role
    /// from what precedes the first `-`, the instance from what follows it.
    fn with_name(path: String, name: String) -> (r: AgentDirectory)
        ensures
            r@ == record_named(path@, name@),
    {
        let n = name.unicode_len();
        let k = find_first(name.as_str(), '-');
        let role = AgentRole::from_name(name.substring_char(0, k));
        let instance_id = if k < n {
            Some(String::from_str(name.substring_char(k + 1, n)))
        } else {
            None
        };
        AgentDirectory { path, role, instance_name: name, instance_id }
    }

    /// Parses an agent directory from a path.
    ///
    /// Directory names follow the pattern `{role}[-{instance}]`: `mayor` is the
    /// Mayor with no instance, `polecat-1` a Polecat with instance `1`,
    /// `crew-alice-2` a Crew member with instance `alice-2`. A name whose
    /// role is not recognised still parses, with the role `Unknown`. Returns
    /// `None` only where the path has no final name.
    pub fn from_path(path: String) -> (r: Option<AgentDirectory>)
        ensures
            r matches Some(a) ==> record_of(path@) == Some(a@),
            r is None ==> record_of(path@) is None,
    {
        match file_name(path.as_str()) {
            Some(name) => Some(AgentDirectory::with_name(path, name)),
            None => None,
        }
    }
}

/// One entry of a directory listing.
pub struct DirEntryInfo {
    /// Full path to the entry
    pub path: String,
    /// Whether the entry is a directory; `false` where that could not be read
    pub is_dir: bool,
}

/// One entry of the Gas Town root: a candidate rig.
pub struct RigEntry {
    /// Whether the entry is a directory; `false` where that could not be read
    pub is_dir: bool,
    /// The listing of the entry's `.agents` folder: `None` where it does not
    /// exist, empty where it could not be read
    pub agents: Option<Vec<DirEntryInfo>>,
}

/// What the file system showed at the places that discovery looks at.
pub struct DiscoveryListing {
    /// The listing of `~/.gazetown/agents`: `None` where the home directory is
    /// unknown or the folder does not exist, empty where it could not be read
    pub standalone: Option<Vec<DirEntryInfo>>,
    /// The listing of the Gas Town root: `None` where it does not exist,
    /// empty where it could not be read
    pub rigs: Option<Vec<RigEntry>>,
}

/// The agents found in one agents folder: each subdirectory whose path has a
/// name and whose role is recognised, in listing order.
pub open spec fn agents_in(entries: Seq<DirEntryInfo>) -> Seq<AgentDirectoryView>
    decreases entries.len(),
{
    if entries.len() == 0 {
        Seq::empty()
    } else {
        let rest = agents_in(entries.drop_last());
        let e = entries.last();
        if e.is_dir && record_of(e.path@) is Some && record_of(e.path@)->0.role
            != AgentRole::Unknown {
            rest.push(record_of(e.path@)->0)
        } else {
            rest
        }
    }
}

/// The agents found in the rigs: for each rig that is a directory with an
/// agents folder, the agents in that folder, rig after rig.
pub open spec fn agents_in_rigs(rigs: Seq<RigEntry>) -> Seq<AgentDirectoryView>
    decreases rigs.len(),
{
    if rigs.len() == 0 {
        Seq::empty()
    } else {
        let r = rigs.last();
        agents_in_rigs(rigs.drop_last()) + if r.is_dir && r.agents is Some {
            agents_in(r.agents->0@)
        } else {
            Seq::empty()
        }
    }
}

/// The standalone agents that a listing shows.
pub open spec fn standalone_agents(listing: DiscoveryListing) -> Seq<AgentDirectoryView> {
    match listing.standalone {
        Some(entries) => agents_in(entries@),
        None => Seq::empty(),
    }
}

proof fn lemma_agents_in_known(entries: Seq<DirEntryInfo>)
    ensures
        forall|i: int|
            0 <= i < agents_in(entries).len() ==> #[trigger] agents_in(entries)[i].role
                != AgentRole::Unknown,
    decreases entries.len(),
{
    if entries.len() > 0 {
        lemma_agents_in_known(entries.drop_last());
    }
}

proof fn lemma_agents_in_rigs_known(rigs: Seq<RigEntry>)
    ensures
        forall|i: int|
            0 <= i < agents_in_rigs(rigs).len() ==> #[trigger] agents_in_rigs(rigs)[i].role
                != AgentRole::Unknown,
    decreases rigs.len(),
{
    if rigs.len() > 0 {
        lemma_agents_in_rigs_known(rigs.drop_last());
        let r = rigs.last();
        if r.is_dir && r.agents is Some {
            lemma_agents_in_known(r.agents->0@);
        }
    }
}

/// Discovers agent directories from known locations.
pub struct AgentDiscovery {
    /// Root directory for Gas Town (e.g., ~/gt/)
    pub gastown_root: Option<String>,
}

/// Scans one agents folder for agent subdirectories.
fn scan_agents_directory(entries: &Vec<DirEntryInfo>) -> (r: Vec<AgentDirectory>)
    ensures
        views(r@) == agents_in(entries@),
{
    let mut agents: Vec<AgentDirectory> = Vec::new();
    let mut i: usize = 0;
    while i < entries.len()
        invariant
            i <= entries@.len(),
            views(agents@) == agents_in(entries@.take(i as int)),
        decreases entries@.len() - i,
    {
        let e = &entries[i];
        assert(entries@.take(i + 1).drop_last() =~= entries@.take(i as int));
        assert(entries@.take(i + 1).last() == entries@[i as int]);
        if e.is_dir {
            match AgentDirectory::from_path(e.path.clone()) {
                Some(agent) => {
                    if agent.role != AgentRole::Unknown {
                        let ghost before = agents@;
                        agents.push(agent);
                        assert(views(agents@) =~= views(before).push(agent@));
                    }
                },
                None => {},
            }
        }
        i += 1;
    }
    assert(entries@.take(entries@.len() as int) =~= entries@);
    agents
}

impl AgentDiscovery {
    /// The agents that discovery finds in `listing`: the standalone ones
    /// first, then those of the rigs where a root is configured.
    pub open spec fn discovered(&self, listing: DiscoveryListing) -> Seq<AgentDirectoryView> {
        standalone_agents(listing) + self.rig_agents(listing)
    }

    /// The agents found in the rigs of `listing`, none where no root is
    /// configured or the root does not exist.
    pub open spec fn rig_agents(&self, listing: DiscoveryListing) -> Seq<AgentDirectoryView> {
        if self.gastown_root is Some && listing.rigs is Some {
            agents_in_rigs(listing.rigs->0@)
        } else {
            Seq::empty()
        }
    }

    /// Discovery never yields a record whose role is `Unknown`.
    pub proof fn lemma_no_unknown_roles(&self, listing: DiscoveryListing)
        ensures
            forall|i: int|
                0 <= i < self.discovered(listing).len() ==> #[trigger] self.discovered(
                    listing,
                )[i].role != AgentRole::Unknown,
    {
        lemma_agents_in_rigs_known(listing.rigs->0@);
        match listing.standalone {
            Some(entries) => lemma_agents_in_known(entries@),
            None => {},
        }
        let s = standalone_agents(listing);
        let g = self.rig_agents(listing);
        assert forall|i: int| 0 <= i < self.discovered(listing).len() implies #[trigger] self.discovered(
            listing,
        )[i].role != AgentRole::Unknown by {
            if i < s.len() {
                assert(self.discovered(listing)[i] == s[i]);
            } else {
                assert(self.discovered(listing)[i] == g[i - s.len()]);
            }
        }
    }

    /// The records that discovery returns number exactly the standalone ones
    /// plus the in-rig ones: nothing found twice is dropped.
    pub proof fn lemma_discovered_count(&self, listing: DiscoveryListing)
        ensures
            self.discovered(listing).len() == standalone_agents(listing).len() + self.rig_agents(
                listing,
            ).len(),
    {
    }

    /// Creates a new agent discovery instance.
    pub fn new(gastown_root: Option<String>) -> (r: AgentDiscovery)
        ensures
            r.gastown_root == gastown_root,
    {
        AgentDiscovery { gastown_root }
    }

    /// The folder of standalone agents under the home directory `home`.
    pub fn standalone_agents_dir(home: &str) -> (r: String)
        ensures
            r@ == joined(joined(home@, ".gazetown"@), "agents"@),
    {
        let base = join(home, ".gazetown");
        join(base.as_str(), "agents")
    }

    /// The agents folder of the rig at `rig`.
    pub fn rig_agents_dir(rig: &str) -> (r: String)
        ensures
            r@ == joined(rig@, ".agents"@),
    {
        join(rig, ".agents")
    }

    /// Discovers all agent directories that `listing` shows: the standalone
    /// agents, then the in-rig agents. Nothing is de-duplicated.
    pub fn discover_agents(&self, listing: &DiscoveryListing) -> (r: Vec<AgentDirectory>)
        ensures
            views(r@) == self.discovered(*listing),
    {
        let mut agents = self.discover_standalone_agents(listing);
        let mut rig_agents = self.discover_rig_agents(listing);
        let ghost first = agents@;
        let ghost second = rig_agents@;
        agents.append(&mut rig_agents);
        assert(views(agents@) =~= views(first) + views(second));
        agents
    }

    /// Discovers the standalone agents.
    fn discover_standalone_agents(&self, listing: &DiscoveryListing) -> (r: Vec<AgentDirectory>)
        ensures
            views(r@) == standalone_agents(*listing),
    {
        match &listing.standalone {
            Some(entries) => scan_agents_directory(entries),
            None => Vec::new(),
        }
    }

    /// Discovers the in-rig agents.
    fn discover_rig_agents(&self, listing: &DiscoveryListing) -> (r: Vec<AgentDirectory>)
        ensures
            views(r@) == self.rig_agents(*listing),
    {
        let mut agents: Vec<AgentDirectory> = Vec::new();
        if self.gastown_root.is_none() {
            return agents;
        }
        let rigs = match &listing.rigs {
            Some(rigs) => rigs,
            None => {
                return agents;
            },
        };
        let mut i: usize = 0;
        while i < rigs.len()
            invariant
                i <= rigs@.len(),
                self.gastown_root is Some,
                listing.rigs == Some(*rigs),
                views(agents@) == agents_in_rigs(rigs@.take(i as int)),
            decreases rigs@.len() - i,
        {
            let rig = &rigs[i];
            assert(rigs@.take(i + 1).drop_last() =~= rigs@.take(i as int));
            assert(rigs@.take(i + 1).last() == rigs@[i as int]);
            let ghost before = agents@;
            if rig.is_dir {
                match &rig.agents {
                    Some(entries) => {
                        let mut found = scan_agents_directory(entries);
                        let ghost more = found@;
                        agents.append(&mut found);
                        assert(views(agents@) =~= views(before) + views(more));
                    },
                    None => {},
                }
            }
            assert(views(agents@) =~= agents_in_rigs(rigs@.take(i + 1)));
            i += 1;
        }
        assert(rigs@.take(rigs@.len() as int) =~= rigs@);
        agents
    }
}

} // verus!
