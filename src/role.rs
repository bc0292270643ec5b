//! The closed set of agent roles and their case-insensitive lexicon.

use vstd::prelude::*;

verus! {

/// Agent roles in the Gas Town ecosystem.
#[derive(Debug, Clone, Copy, PartialEq, Eq, Hash, Structural)]
pub enum AgentRole {
    /// Primary AI coordinator
    Mayor,
    /// Ephemeral worker agents
    Polecat,
    /// Personal workspace agent
    Crew,
    /// Witness for specific rigs
    Witness,
    /// Deacon daemon
    Deacon,
    /// Unknown/unrecognized role
    Unknown,
}

/// A character with ASCII upper-case letters folded to lower case, as a code point.
pub open spec fn folded(c: char) -> u32 {
    if 'A' <= c && c <= 'Z' {
        (c as u32 + 32) as u32
    } else {
        c as u32
    }
}

/// `s` and `t` are the same text up to the case of ASCII letters.
pub open spec fn same_ignoring_case(s: Seq<char>, t: Seq<char>) -> bool {
    &&& s.len() == t.len()
    &&& forall|i: int| 0 <= i < s.len() ==> #[trigger] folded(s[i]) == folded(t[i])
}

/// The role that a name stands for: one of the five role words, compared
/// without regard to case, and `Unknown` for anything else.
pub open spec fn role_of(s: Seq<char>) -> AgentRole {
    if same_ignoring_case(s, "mayor"@) {
        AgentRole::Mayor
    } else if same_ignoring_case(s, "polecat"@) {
        AgentRole::Polecat
    } else if same_ignoring_case(s, "crew"@) {
        AgentRole::Crew
    } else if same_ignoring_case(s, "witness"@) {
        AgentRole::Witness
    } else if same_ignoring_case(s, "deacon"@) {
        AgentRole::Deacon
    } else {
        AgentRole::Unknown
    }
}

/// Whether `name` spells one of the five role words, in any case.
pub open spec fn is_role_word(s: Seq<char>) -> bool {
    ||| same_ignoring_case(s, "mayor"@)
    ||| same_ignoring_case(s, "polecat"@)
    ||| same_ignoring_case(s, "crew"@)
    ||| same_ignoring_case(s, "witness"@)
    ||| same_ignoring_case(s, "deacon"@)
}

fn fold_char(c: char) -> (r: u32)
    ensures
        r == folded(c),
{
    if 'A' <= c && c <= 'Z' {
        c as u32 + 32
    } else {
        c as u32
    }
}

/// Compares `name` with `word` without regard to the case of ASCII letters.
fn matches_word(name: &str, word: &str) -> (r: bool)
    ensures
        r == same_ignoring_case(name@, word@),
{
    let n = name.unicode_len();
    let m = word.unicode_len();
    if n != m {
        return false;
    }
    let mut i: usize = 0;
    while i < n
        invariant
            n == name@.len(),
            m == word@.len(),
            n == m,
            i <= n,
            forall|j: int| 0 <= j < i ==> #[trigger] folded(name@[j]) == folded(word@[j]),
        decreases n - i,
    {
        if fold_char(name.get_char(i)) != fold_char(word.get_char(i)) {
            return false;
        }
        i += 1;
    }
    true
}

/// Two names that differ only in the case of ASCII letters are classified
/// alike: upper-casing or lower-casing a name does not change its role.
pub proof fn lemma_role_ignores_case(s: Seq<char>, t: Seq<char>)
    requires
        same_ignoring_case(s, t),
    ensures
        role_of(s) == role_of(t),
{
    assert forall|w: Seq<char>| same_ignoring_case(s, w) <==> same_ignoring_case(t, w) by {
        if same_ignoring_case(s, w) {
            assert forall|i: int| 0 <= i < t.len() implies #[trigger] folded(t[i]) == folded(w[i]) by {
                assert(folded(s[i]) == folded(t[i]));
            }
        }
        if same_ignoring_case(t, w) {
            assert forall|i: int| 0 <= i < s.len() implies #[trigger] folded(s[i]) == folded(w[i]) by {
                assert(folded(s[i]) == folded(t[i]));
            }
        }
    }
}

/// Every name that is not one of the five role words, in any case, is
/// classified as `Unknown`: classification never fails.
pub proof fn lemma_unrecognized_is_unknown(s: Seq<char>)
    requires
        !is_role_word(s),
    ensures
        role_of(s) == AgentRole::Unknown,
{
}

/// The name under which each role is shown.
pub open spec fn display_name_of(r: AgentRole) -> Seq<char> {
    match r {
        AgentRole::Mayor => "Mayor"@,
        AgentRole::Polecat => "Polecat"@,
        AgentRole::Crew => "Crew"@,
        AgentRole::Witness => "Witness"@,
        AgentRole::Deacon => "Deacon"@,
        AgentRole::Unknown => "Unknown"@,
    }
}

impl AgentRole {
    /// The role's name for presentation.
    pub fn display_name(&self) -> (r: String)
        ensures
            r@ == display_name_of(*self),
    {
        match self {
            AgentRole::Mayor => String::from_str("Mayor"),
            AgentRole::Polecat => String::from_str("Polecat"),
            AgentRole::Crew => String::from_str("Crew"),
            AgentRole::Witness => String::from_str("Witness"),
            AgentRole::Deacon => String::from_str("Deacon"),
            AgentRole::Unknown => String::from_str("Unknown"),
        }
    }

    /// Parses a role from a directory name component, ignoring case.
    pub fn from_name(name: &str) -> (r: AgentRole)
        ensures
            r == role_of(name@),
    {
        if matches_word(name, "mayor") {
            AgentRole::Mayor
        } else if matches_word(name, "polecat") {
            AgentRole::Polecat
        } else if matches_word(name, "crew") {
            AgentRole::Crew
        } else if matches_word(name, "witness") {
            AgentRole::Witness
        } else if matches_word(name, "deacon") {
            AgentRole::Deacon
        } else {
            AgentRole::Unknown
        }
    }
}

} // verus!
