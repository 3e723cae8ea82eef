//! Conditional rules gating whether an argument template or a library entry
//! applies on a given host platform.

use vstd::prelude::*;

verus! {

/// The platform families a manifest rule can name.
#[derive(Debug, Clone, Copy, PartialEq, Eq, Structural)]
pub enum OsKind {
    Windows,
    MacOS,
    Linux,
}

/// The platform condition of a rule: an optional platform name.
#[derive(Debug, Clone, Copy, PartialEq, Eq, Structural)]
pub struct OsSpecifier {
    pub name: Option<OsKind>,
}

/// Feature-flag conditions. They are carried through from the manifest but
/// deliberately not evaluated: a rule holding only feature conditions passes.
#[derive(Debug, Clone, Copy, PartialEq, Eq, Structural)]
pub struct RuleFeatures {
    pub is_demo_user: Option<bool>,
    pub has_custom_resolution: Option<bool>,
}

/// Whether a matching platform lets the entry through or keeps it out.
#[derive(Debug, Clone, Copy, PartialEq, Eq, Structural)]
pub enum RuleAction {
    Allow,
    Disallow,
}

/// A single conditional rule from the manifest.
#[derive(Debug, Clone, Copy, PartialEq, Eq, Structural)]
pub struct Rule {
    pub action: RuleAction,
    pub os: Option<OsSpecifier>,
    pub features: Option<RuleFeatures>,
}

impl Rule {
    /// What [`Rule::is_followed`] returns: with no platform condition the
    /// rule passes whatever the action or features say; with one, `Allow`
    /// passes exactly on the named platform and `Disallow` everywhere else.
    pub open spec fn spec_followed(self, current_os: OsKind) -> bool {
        match self.os {
            Some(spec) => match spec.name {
                Some(os) => match self.action {
                    RuleAction::Allow => os == current_os,
                    RuleAction::Disallow => os != current_os,
                },
                None => true,
            },
            None => true,
        }
    }

    /// Evaluates the rule against `current_os`. Feature conditions are
    /// ignored by design; a rule without a platform name always passes.
    pub fn is_followed(&self, current_os: OsKind) -> (r: bool)
        ensures
            r == self.spec_followed(current_os),
    {
        match &self.os {
            Some(OsSpecifier { name: Some(os) }) => match self.action {
                RuleAction::Allow => *os == current_os,
                RuleAction::Disallow => *os != current_os,
            },
            _ => true,
        }
    }
}

/// Every rule of the sequence passes.
pub open spec fn spec_rule_seq_pass(rs: Seq<Rule>, current_os: OsKind) -> bool {
    forall|i: int| 0 <= i < rs.len() ==> #[trigger] rs[i].spec_followed(current_os)
}

/// A rule set passes when every rule in it passes; an absent rule set passes.
pub open spec fn spec_rules_pass(rules: Option<Seq<Rule>>, current_os: OsKind) -> bool {
    match rules {
        Some(rs) => spec_rule_seq_pass(rs, current_os),
        None => true,
    }
}

/// The rule set of a manifest entry, seen as a sequence.
pub open spec fn opt_rules_view(rules: Option<Vec<Rule>>) -> Option<Seq<Rule>> {
    match rules {
        Some(rs) => Some(rs@),
        None => None,
    }
}

/// Composite evaluation: logical AND over the rule set, an empty or absent
/// set passing, with a short circuit on the first failing rule.
#[verifier::loop_isolation(false)]
pub fn rules_pass(rules: &Option<Vec<Rule>>, current_os: OsKind) -> (r: bool)
    ensures
        r == spec_rules_pass(opt_rules_view(*rules), current_os),
{
    match rules {
        Some(rs) => {
            let mut i: usize = 0;
            while i < rs.len()
                invariant
                    i <= rs.len(),
                    forall|j: int| 0 <= j < i ==> (#[trigger] rs@[j]).spec_followed(current_os),
                decreases rs.len() - i,
            {
                if !rs[i].is_followed(current_os) {
                    proof {
                        assert(!rs@[i as int].spec_followed(current_os));
                    }
                    return false;
                }
                i += 1;
            }
            true
        },
        None => true,
    }
}

/// A rule with no platform condition passes on every platform, whatever its
/// action and feature conditions.
pub proof fn lemma_no_platform_condition_always_passes(rule: Rule, current_os: OsKind)
    requires
        rule.os is None || rule.os->Some_0.name is None,
    ensures
        rule.spec_followed(current_os),
{
}

/// A rule naming platform `p` passes exactly on `p` when it allows, and
/// exactly away from `p` when it disallows.
pub proof fn lemma_platform_condition_decides(rule: Rule, p: OsKind, current_os: OsKind)
    requires
        rule.os matches Some(spec) && spec.name == Some(p),
    ensures
        rule.action is Allow ==> (rule.spec_followed(current_os) <==> p == current_os),
        rule.action is Disallow ==> (rule.spec_followed(current_os) <==> p != current_os),
{
}

} // verus!

