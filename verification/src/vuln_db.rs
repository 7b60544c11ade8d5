//! The vulnerabilities that are known of UAVs.

use crate::sequences::lemma_filter_take_next;
use crate::text::{lowercase, occurs_in, str_contains, str_is, to_lowercase};
use vstd::prelude::*;

verus! {

/// A known vulnerability.
#[derive(Debug, Clone)]
pub struct Vulnerability {
    pub id: String,
    pub name: String,
    pub description: String,
    pub severity: VulnSeverity,
    pub cve: Option<String>,
    pub affected_systems: Vec<String>,
    pub exploit_available: bool,
}

#[derive(Debug, Clone, Copy, PartialEq, Eq, PartialOrd, Ord, Structural)]
pub enum VulnSeverity {
    Low,
    Medium,
    High,
    Critical,
}

/// The known vulnerabilities, each under its identity.
pub struct VulnerabilityDatabase {
    vulnerabilities: Vec<Vulnerability>,
}

/// The index of the first vulnerability at or behind `from` with the
/// identity `id`.
pub open spec fn entry_index_from(entries: Seq<Vulnerability>, id: Seq<char>, from: int) -> Option<
    int,
>
    decreases entries.len() - from,
{
    if from < 0 || from >= entries.len() {
        None
    } else if entries[from].id@ == id {
        Some(from)
    } else {
        entry_index_from(entries, id, from + 1)
    }
}

/// The entries `entries` with `entry` put in: in the place of the entry
/// that had its identity, or else behind all others.
pub open spec fn with_entry(entries: Seq<Vulnerability>, entry: Vulnerability) -> Seq<
    Vulnerability,
> {
    match entry_index_from(entries, entry.id@, 0) {
        Some(index) => entries.update(index, entry),
        None => entries.push(entry),
    }
}

/// No two entries have the same identity.
pub open spec fn distinct_entries(entries: Seq<Vulnerability>) -> bool {
    forall|i: int, j: int|
        0 <= i < j < entries.len() ==> (#[trigger] entries[i]).id@ != (#[trigger] entries[j]).id@
}

/// Whether the lower-case words `query` stand in the lower-case name or in
/// the lower-case description.
pub open spec fn query_found(query: Seq<char>, name: Seq<char>, description: Seq<char>) -> bool {
    occurs_in(query, name) || occurs_in(query, description)
}

/// Whether `entry` answers the search for `query`: whether the words stand
/// in its name or in its description, where upper and lower case count as
/// the same.
pub open spec fn answers(entry: Vulnerability, query: Seq<char>) -> bool {
    query_found(lowercase(query), lowercase(entry.name@), lowercase(entry.description@))
}

/// The entries that answer the search for `query`, in their order.
pub open spec fn search_result(entries: Seq<Vulnerability>, query: Seq<char>) -> Seq<
    Vulnerability,
> {
    entries.filter(|entry: Vulnerability| answers(entry, query))
}

/// The entries of the severity `severity`, in their order.
pub open spec fn of_severity(entries: Seq<Vulnerability>, severity: VulnSeverity) -> Seq<
    Vulnerability,
> {
    entries.filter(|entry: Vulnerability| entry.severity == severity)
}

/// Whether `entry` is the entry with these texts.
pub open spec fn reads_as(
    entry: Vulnerability,
    id: Seq<char>,
    name: Seq<char>,
    description: Seq<char>,
    severity: VulnSeverity,
    cve: Option<Seq<char>>,
    affected_systems: Seq<Seq<char>>,
) -> bool {
    &&& entry.id@ == id
    &&& entry.name@ == name
    &&& entry.description@ == description
    &&& entry.severity == severity
    &&& match cve {
        Some(number) => entry.cve matches Some(text) && text@ == number,
        None => entry.cve is None,
    }
    &&& entry.affected_systems@.map_values(|system: String| system@) == affected_systems
    &&& entry.exploit_available
}

/// Whether `entries` are the three vulnerabilities that every database
/// starts with.
pub open spec fn is_default_set(entries: Seq<Vulnerability>) -> bool {
    &&& entries.len() == 3
    &&& reads_as(
        entries[0],
        "UAV-001"@,
        "MAVLink Unauthenticated Command Injection"@,
        "MAVLink protocol lacks authentication, allowing arbitrary command injection"@,
        VulnSeverity::Critical,
        Some("CVE-2023-XXXXX"@),
        seq!["ArduPilot"@, "PX4"@],
    )
    &&& reads_as(
        entries[1],
        "UAV-002"@,
        "DJI WiFi Default Credentials"@,
        "DJI drones often ship with default WiFi credentials"@,
        VulnSeverity::High,
        None,
        seq!["DJI Phantom"@, "DJI Mavic"@],
    )
    &&& reads_as(
        entries[2],
        "UAV-003"@,
        "GPS Spoofing Vulnerability"@,
        "UAVs vulnerable to GPS spoofing attacks due to lack of GPS authentication"@,
        VulnSeverity::High,
        None,
        seq!["Most consumer drones"@],
    )
}

impl View for VulnerabilityDatabase {
    type V = Seq<Vulnerability>;

    /// The entries, in the order in which their identities first came.
    closed spec fn view(&self) -> Seq<Vulnerability> {
        self.vulnerabilities@
    }
}

/// Whether the lower-case words `query` stand in the lower-case name or in
/// the lower-case description.
pub fn matches_query(query: &str, name: &str, description: &str) -> (found: bool)
    ensures
        found == query_found(query@, name@, description@),
{
    str_contains(name, query) || str_contains(description, query)
}

impl VulnerabilityDatabase {
    /// No two entries of the database have the same identity.
    pub open spec fn wf(&self) -> bool {
        distinct_entries(self@)
    }

    /// The database with the three vulnerabilities that every database
    /// starts with.
    pub fn new() -> (db: Self)
        ensures
            db.wf(),
            is_default_set(db@),
    {
        let mut db = Self { vulnerabilities: Vec::new() };
        db.load_default_vulnerabilities();
        db
    }

    /// Puts the three vulnerabilities that every database starts with into
    /// an empty database.
    fn load_default_vulnerabilities(&mut self)
        requires
            old(self)@.len() == 0,
        ensures
            final(self).wf(),
            is_default_set(final(self)@),
    {
        proof {
            reveal_strlit("UAV-001");
            reveal_strlit("UAV-002");
            reveal_strlit("UAV-003");
            reveal_with_fuel(entry_index_from, 4);
        }
        let mut systems: Vec<String> = Vec::new();
        systems.push("ArduPilot".to_string());
        systems.push("PX4".to_string());
        assert(systems@.map_values(|system: String| system@) =~= seq!["ArduPilot"@, "PX4"@]);
        self.add_vulnerability(
            Vulnerability {
                id: "UAV-001".to_string(),
                name: "MAVLink Unauthenticated Command Injection".to_string(),
                description: "MAVLink protocol lacks authentication, allowing arbitrary command injection".to_string(),
                severity: VulnSeverity::Critical,
                cve: Some("CVE-2023-XXXXX".to_string()),
                affected_systems: systems,
                exploit_available: true,
            },
        );
        let mut systems: Vec<String> = Vec::new();
        systems.push("DJI Phantom".to_string());
        systems.push("DJI Mavic".to_string());
        assert(systems@.map_values(|system: String| system@) =~= seq![
            "DJI Phantom"@,
            "DJI Mavic"@,
        ]);
        assert("UAV-001"@[6] != "UAV-002"@[6]);
        self.add_vulnerability(
            Vulnerability {
                id: "UAV-002".to_string(),
                name: "DJI WiFi Default Credentials".to_string(),
                description: "DJI drones often ship with default WiFi credentials".to_string(),
                severity: VulnSeverity::High,
                cve: None,
                affected_systems: systems,
                exploit_available: true,
            },
        );
        let mut systems: Vec<String> = Vec::new();
        systems.push("Most consumer drones".to_string());
        assert(systems@.map_values(|system: String| system@) =~= seq!["Most consumer drones"@]);
        assert("UAV-001"@[6] != "UAV-003"@[6]);
        assert("UAV-002"@[6] != "UAV-003"@[6]);
        self.add_vulnerability(
            Vulnerability {
                id: "UAV-003".to_string(),
                name: "GPS Spoofing Vulnerability".to_string(),
                description: "UAVs vulnerable to GPS spoofing attacks due to lack of GPS authentication".to_string(),
                severity: VulnSeverity::High,
                cve: None,
                affected_systems: systems,
                exploit_available: true,
            },
        );
    }

    /// Puts `vuln` into the database. An entry that stood under the same
    /// identity gives way to it.
    pub fn add_vulnerability(&mut self, vuln: Vulnerability)
        requires
            old(self).wf(),
        ensures
            final(self).wf(),
            final(self)@ == with_entry(old(self)@, vuln),
    {
        let mut i: usize = 0;
        while i < self.vulnerabilities.len()
            invariant
                i <= self.vulnerabilities.len(),
                self.vulnerabilities@ == old(self).vulnerabilities@,
                distinct_entries(old(self).vulnerabilities@),
                entry_index_from(self.vulnerabilities@, vuln.id@, 0) == entry_index_from(
                    self.vulnerabilities@,
                    vuln.id@,
                    i as int,
                ),
                forall|k: int| 0 <= k < i ==> (#[trigger] self.vulnerabilities@[k]).id@ != vuln.id@,
            decreases self.vulnerabilities.len() - i,
        {
            if self.vulnerabilities[i].id == vuln.id {
                self.vulnerabilities[i] = vuln;
                proof {
                    let before = old(self).vulnerabilities@;
                    let after = self.vulnerabilities@;
                    assert forall|a: int, b: int| 0 <= a < b < after.len() implies (
                    #[trigger] after[a]).id@ != (#[trigger] after[b]).id@ by {
                        assert(after[a].id@ == before[a].id@);
                        assert(after[b].id@ == before[b].id@);
                    }
                }
                return ;
            }
            i += 1;
        }
        self.vulnerabilities.push(vuln);
        proof {
            let before = old(self).vulnerabilities@;
            let after = self.vulnerabilities@;
            assert forall|a: int, b: int| 0 <= a < b < after.len() implies (#[trigger] after[a]).id@
                != (#[trigger] after[b]).id@ by {
                if b < before.len() {
                    assert(after[a].id@ == before[a].id@);
                    assert(after[b].id@ == before[b].id@);
                } else {
                    assert(after[a] == before[a]);
                }
            }
        }
    }

    /// The entry with the identity `id`.
    pub fn get_vulnerability(&self, id: &str) -> (found: Option<&Vulnerability>)
        ensures
            match found {
                Some(entry) => entry_index_from(self@, id@, 0) matches Some(index) && *entry
                    == self@[index],
                None => entry_index_from(self@, id@, 0) is None,
            },
    {
        let mut i: usize = 0;
        while i < self.vulnerabilities.len()
            invariant
                i <= self.vulnerabilities.len(),
                entry_index_from(self@, id@, 0) == entry_index_from(self@, id@, i as int),
            decreases self.vulnerabilities.len() - i,
        {
            if str_is(self.vulnerabilities[i].id.as_str(), id) {
                return Some(&self.vulnerabilities[i]);
            }
            i += 1;
        }
        None
    }

    /// The entries whose name or description holds the words `query`,
    /// where upper and lower case count as the same.
    pub fn search(&self, query: &str) -> (found: Vec<&Vulnerability>)
        ensures
            found@.map_values(|entry: &Vulnerability| *entry) == search_result(self@, query@),
    {
        let lower_query = to_lowercase(query);
        let mut found: Vec<&Vulnerability> = Vec::new();
        let mut i: usize = 0;
        proof {
            assert(found@.map_values(|entry: &Vulnerability| *entry) =~= Seq::<
                Vulnerability,
            >::empty());
            assert(self.vulnerabilities@.take(0) =~= Seq::<Vulnerability>::empty());
            Seq::<Vulnerability>::empty().lemma_filter_len(
                |entry: Vulnerability| answers(entry, query@),
            );
        }
        while i < self.vulnerabilities.len()
            invariant
                i <= self.vulnerabilities.len(),
                lower_query@ == lowercase(query@),
                found@.map_values(|entry: &Vulnerability| *entry) == search_result(
                    self.vulnerabilities@.take(i as int),
                    query@,
                ),
            decreases self.vulnerabilities.len() - i,
        {
            proof {
                lemma_filter_take_next(
                    self.vulnerabilities@,
                    |entry: Vulnerability| answers(entry, query@),
                    i as int,
                );
            }
            let ghost found_before = found@;
            let entry: &Vulnerability = &self.vulnerabilities[i];
            let lower_name = to_lowercase(entry.name.as_str());
            let lower_description = to_lowercase(entry.description.as_str());
            if matches_query(
                lower_query.as_str(),
                lower_name.as_str(),
                lower_description.as_str(),
            ) {
                found.push(entry);
                proof {
                    assert(found@.map_values(|entry: &Vulnerability| *entry)
                        =~= found_before.map_values(|entry: &Vulnerability| *entry).push(
                        self.vulnerabilities@[i as int],
                    ));
                }
            }
            i += 1;
        }
        proof {
            assert(self.vulnerabilities@.take(i as int) =~= self.vulnerabilities@);
        }
        found
    }

    /// The entries of the severity `severity`.
    pub fn get_by_severity(&self, severity: VulnSeverity) -> (found: Vec<&Vulnerability>)
        ensures
            found@.map_values(|entry: &Vulnerability| *entry) == of_severity(self@, severity),
    {
        let mut found: Vec<&Vulnerability> = Vec::new();
        let mut i: usize = 0;
        proof {
            assert(found@.map_values(|entry: &Vulnerability| *entry) =~= Seq::<
                Vulnerability,
            >::empty());
            assert(self.vulnerabilities@.take(0) =~= Seq::<Vulnerability>::empty());
            Seq::<Vulnerability>::empty().lemma_filter_len(
                |entry: Vulnerability| entry.severity == severity,
            );
        }
        while i < self.vulnerabilities.len()
            invariant
                i <= self.vulnerabilities.len(),
                found@.map_values(|entry: &Vulnerability| *entry) == of_severity(
                    self.vulnerabilities@.take(i as int),
                    severity,
                ),
            decreases self.vulnerabilities.len() - i,
        {
            proof {
                lemma_filter_take_next(
                    self.vulnerabilities@,
                    |entry: Vulnerability| entry.severity == severity,
                    i as int,
                );
            }
            let ghost found_before = found@;
            if self.vulnerabilities[i].severity == severity {
                found.push(&self.vulnerabilities[i]);
                proof {
                    assert(found@.map_values(|entry: &Vulnerability| *entry)
                        =~= found_before.map_values(|entry: &Vulnerability| *entry).push(
                        self.vulnerabilities@[i as int],
                    ));
                }
            }
            i += 1;
        }
        proof {
            assert(self.vulnerabilities@.take(i as int) =~= self.vulnerabilities@);
        }
        found
    }

    /// The number of entries.
    pub fn len(&self) -> (count: usize)
        ensures
            count == self@.len(),
    {
        self.vulnerabilities.len()
    }
}

impl Default for VulnerabilityDatabase {
    fn default() -> (db: Self)
        ensures
            db.wf(),
            is_default_set(db@),
    {
        Self::new()
    }
}

} // verus!
