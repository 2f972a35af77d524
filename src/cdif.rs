//! Terminology rules: banned investigation terms and their replacements.
use vstd::prelude::*;

use crate::json::{field, owned, str_of, Json, JsonValue};
use crate::platform::{contains, lowercase_of, occurs_in, replace_all, replaced, to_lowercase};

verus! {

/// Each banned term with its replacement, in lower and in upper case:
/// `(banned, replacement, BANNED, REPLACEMENT)`, in the order they are checked.
pub open spec fn term_rules() -> Seq<(Seq<char>, Seq<char>, Seq<char>, Seq<char>)> {
    seq![
        ("hunt"@, "investigation"@, "HUNT"@, "INVESTIGATION"@),
        ("artifact"@, "detonator"@, "ARTIFACT"@, "DETONATOR"@),
        ("client"@, "agent"@, "CLIENT"@, "AGENT"@),
        ("execution"@, "collection"@, "EXECUTION"@, "COLLECTION"@),
        ("session"@, "case"@, "SESSION"@, "CASE"@),
    ]
}

fn rules() -> (r: Vec<(&'static str, &'static str, &'static str, &'static str)>)
    ensures
        r@.len() == term_rules().len(),
        forall|k: int|
            0 <= k < r@.len() ==> {
                &&& (#[trigger] r@[k]).0@ == term_rules()[k].0
                &&& r@[k].1@ == term_rules()[k].1
                &&& r@[k].2@ == term_rules()[k].2
                &&& r@[k].3@ == term_rules()[k].3
            },
{
    let r = vec![
        ("hunt", "investigation", "HUNT", "INVESTIGATION"),
        ("artifact", "detonator", "ARTIFACT", "DETONATOR"),
        ("client", "agent", "CLIENT", "AGENT"),
        ("execution", "collection", "EXECUTION", "COLLECTION"),
        ("session", "case", "SESSION", "CASE"),
    ];
    assert(r@.len() == 5);
    r
}

/// The message that rejects `banned` in favour of `replacement`.
pub open spec fn rejection(banned: Seq<char>, replacement: Seq<char>) -> Seq<char> {
    "Invalid terminology: '"@ + banned + "'. Use '"@ + replacement
        + "' instead (CDIF compliance)"@
}

/// The position of the first rule, from position `k` on, whose banned term
/// occurs in `lower`.
pub open spec fn first_banned_from(lower: Seq<char>, k: nat) -> Option<int>
    decreases term_rules().len() - k,
{
    if k >= term_rules().len() {
        None
    } else if occurs_in(term_rules()[k as int].0, lower) {
        Some(k as int)
    } else {
        first_banned_from(lower, k + 1)
    }
}

/// The rejection of `term`, if its lower-case form holds a banned term: the
/// message names the first such term of the rules.
pub open spec fn terminology_problem(term: Seq<char>) -> Option<Seq<char>> {
    match first_banned_from(lowercase_of(term), 0) {
        Some(k) => Some(rejection(term_rules()[k].0, term_rules()[k].1)),
        None => None,
    }
}

/// Accepts `term` when its lower-case form holds none of the banned terms;
/// otherwise rejects it naming the first banned term that it holds.
pub fn validate_terminology(term: &str) -> (r: Result<(), String>)
    ensures
        match terminology_problem(term@) {
            Some(m) => r matches Err(e) && e@ == m,
            None => r is Ok,
        },
{
    let lower = to_lowercase(term);
    let table = rules();
    let mut i: usize = 0;
    while i < table.len()
        invariant
            lower@ == lowercase_of(term@),
            table@.len() == term_rules().len(),
            forall|k: int|
                0 <= k < table@.len() ==> {
                    &&& (#[trigger] table@[k]).0@ == term_rules()[k].0
                    &&& table@[k].1@ == term_rules()[k].1
                },
            0 <= i <= table@.len(),
            first_banned_from(lower@, 0) == first_banned_from(lower@, i as nat),
        decreases table@.len() - i,
    {
        let (banned, replacement, _, _) = table[i];
        if contains(lower.as_str(), banned) {
            let mut m = owned("Invalid terminology: '");
            m.append(banned);
            m.append("'. Use '");
            m.append(replacement);
            m.append("' instead (CDIF compliance)");
            assert(m@ == rejection(term_rules()[i as int].0, term_rules()[i as int].1));
            return Err(m);
        }
        i = i + 1;
    }
    Ok(())
}

/// `s` with the first `n` rules applied in order: each banned term replaced in
/// lower case, then in upper case.
pub open spec fn converted(s: Seq<char>, n: nat) -> Seq<char>
    decreases n,
{
    if n == 0 {
        s
    } else {
        let rule = term_rules()[n - 1];
        replaced(replaced(converted(s, (n - 1) as nat), rule.0, rule.1), rule.2, rule.3)
    }
}

/// `term` with each banned term replaced, in lower and in upper case.
pub fn convert_to_fire_marshal(term: &str) -> (r: String)
    ensures
        r@ == converted(term@, term_rules().len()),
{
    let table = rules();
    let mut result = owned(term);
    let mut i: usize = 0;
    while i < table.len()
        invariant
            table@.len() == term_rules().len(),
            forall|k: int|
                0 <= k < table@.len() ==> {
                    &&& (#[trigger] table@[k]).0@ == term_rules()[k].0
                    &&& table@[k].1@ == term_rules()[k].1
                    &&& table@[k].2@ == term_rules()[k].2
                    &&& table@[k].3@ == term_rules()[k].3
                },
            0 <= i <= table@.len(),
            result@ == converted(term@, i as nat),
        decreases table@.len() - i,
    {
        let (banned, replacement, banned_upper, replacement_upper) = table[i];
        proof {
            reveal_strlit("hunt");
            reveal_strlit("artifact");
            reveal_strlit("client");
            reveal_strlit("execution");
            reveal_strlit("session");
            reveal_strlit("HUNT");
            reveal_strlit("ARTIFACT");
            reveal_strlit("CLIENT");
            reveal_strlit("EXECUTION");
            reveal_strlit("SESSION");
        }
        let lowered = replace_all(result.as_str(), banned, replacement);
        result = replace_all(lowered.as_str(), banned_upper, replacement_upper);
        i = i + 1;
    }
    result
}

/// Which compliance checks apply.
pub struct CdifCompliance {
    pub fire_marshal_terminology: bool,
    pub quantum_verification: bool,
    pub evidence_chain: bool,
}

/// The problems that `CdifCompliance::validate` reports for `data`, in order.
pub open spec fn compliance_problems(c: CdifCompliance, data: JsonValue) -> Seq<Seq<char>> {
    let term = match str_of(Some(data)) {
        Some(text) => match terminology_problem(text) {
            Some(m) => if c.fire_marshal_terminology {
                seq![m]
            } else {
                seq![]
            },
            None => seq![],
        },
        None => seq![],
    };
    let chain = if c.evidence_chain && field(data, "evidence_chain"@) is None {
        seq!["Missing evidence_chain (CDIF requirement)"@]
    } else {
        seq![]
    };
    term + chain
}

impl CdifCompliance {
    /// Every check switched on.
    pub fn new() -> (r: CdifCompliance)
        ensures
            r.fire_marshal_terminology,
            r.quantum_verification,
            r.evidence_chain,
    {
        CdifCompliance {
            fire_marshal_terminology: true,
            quantum_verification: true,
            evidence_chain: true,
        }
    }

    /// Checks `data`: a string value must use valid terminology, and an
    /// evidence chain must be present. Fails with every problem found.
    pub fn validate(&self, data: &Json) -> (r: Result<(), Vec<String>>)
        ensures
            r is Ok <==> compliance_problems(*self, data@).len() == 0,
            r matches Err(problems) ==> problems@.map_values(|p: String| p@) == compliance_problems(
                *self,
                data@,
            ),
    {
        let mut errors: Vec<String> = Vec::new();
        if self.fire_marshal_terminology {
            if let Some(text) = data.as_str() {
                if let Err(e) = validate_terminology(text) {
                    errors.push(e);
                }
            }
        }
        if self.evidence_chain {
            if data.get("evidence_chain").is_none() {
                errors.push(owned("Missing evidence_chain (CDIF requirement)"));
            }
        }
        assert(errors@.map_values(|p: String| p@) =~= compliance_problems(*self, data@));
        if errors.len() == 0 {
            Ok(())
        } else {
            Err(errors)
        }
    }
}

impl Default for CdifCompliance {
    fn default() -> (r: CdifCompliance)
        ensures
            r.fire_marshal_terminology,
            r.quantum_verification,
            r.evidence_chain,
    {
        CdifCompliance::new()
    }
}

} // verus!
