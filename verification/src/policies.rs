//! The access policies the service starts with, and which of them still
//! have to be added to the enforcer.

use vstd::prelude::*;

use casbin::MgmtApi;

verus! {

/// A policy rule: `subject` may do `action` on `object`.
#[derive(Debug, Clone)]
pub struct Policy {
    pub subject: String,
    pub object: String,
    pub action: String,
}

/// The rules seeded at start-up: users may read the notes.
pub fn default_policies() -> (r: Vec<Policy>)
    ensures
        r.len() == 1,
        r[0].subject@ == "user"@,
        r[0].object@ == "/notes"@,
        r[0].action@ == "GET"@,
{
    let mut r: Vec<Policy> = Vec::new();
    r.push(Policy { subject: "user".to_owned(), object: "/notes".to_owned(), action: "GET".to_owned() });
    r
}

/// `picked` lists, in increasing order, exactly the positions of `present`
/// that hold `false`.
pub open spec fn lists_missing(present: Seq<bool>, picked: Seq<usize>) -> bool {
    &&& forall|k: int| 0 <= k < picked.len() ==> picked[k] < present.len() && !present[picked[k] as int]
    &&& forall|k: int, l: int| 0 <= k < l < picked.len() ==> picked[k] < picked[l]
    &&& forall|i: int| 0 <= i < present.len() && !present[i] ==> picked.contains(i as usize)
}

/// The positions of the rules to add, given for each rule whether the
/// enforcer already holds it.
pub fn policies_to_add(present: &Vec<bool>) -> (r: Vec<usize>)
    ensures
        lists_missing(present@, r@),
{
    let mut r: Vec<usize> = Vec::new();
    let mut i: usize = 0;
    while i < present.len()
        invariant
            i <= present.len(),
            forall|k: int| 0 <= k < r.len() ==> r[k] < i && !present@[r[k] as int],
            forall|k: int, l: int| 0 <= k < l < r.len() ==> r[k] < r[l],
            forall|j: int| 0 <= j < i && !present@[j] ==> r@.contains(j as usize),
        decreases present.len() - i,
    {
        let ghost before = r@;
        if !present[i] {
            r.push(i);
        }
        assert forall|j: int| 0 <= j < i + 1 && !present@[j] implies r@.contains(j as usize) by {
            if j == i {
                assert(r@[r.len() - 1] == i);
            } else {
                let k = choose|k: int| 0 <= k < before.len() && before[k] == j as usize;
                assert(r@[k] == before[k]);
            }
        }
        i = i + 1;
    }
    r
}

/// The policy rules (section `p`, type `p`) that the enforcer's model holds,
/// each as its list of fields.
pub uninterp spec fn enforcer_rules(enforcer: casbin::Enforcer) -> Set<Seq<Seq<char>>>;

/// The fields of a rule, in the order the enforcer stores them.
pub open spec fn rule_fields(policy: Policy) -> Seq<Seq<char>> {
    seq![policy.subject@, policy.object@, policy.action@]
}

/// For each rule of `policies`, whether the enforcer holds it.
pub open spec fn held_rules(enforcer: casbin::Enforcer, policies: Seq<Policy>) -> Seq<bool> {
    Seq::new(policies.len(), |i: int| enforcer_rules(enforcer).contains(rule_fields(policies[i])))
}

/// Calls `MgmtApi::has_policy` with the rule's subject, object and action.
/// Claimed, from the crate's source (`has_named_policy("p", ..)` and the
/// model's `has_policy`, which compares the fields with each stored rule of
/// section `p`): the answer is whether the enforcer holds that rule.
#[verifier::external_body]
fn has_policy(enforcer: &casbin::Enforcer, policy: &Policy) -> (r: bool)
    ensures
        r == enforcer_rules(*enforcer).contains(rule_fields(*policy)),
{
    enforcer.has_policy(vec![policy.subject.clone(), policy.object.clone(), policy.action.clone()])
}

/// Seeding is idempotent: once the enforcer holds every rule of `policies`,
/// a plan `seed_plan` gives for them adds nothing.
pub proof fn nothing_to_seed_when_all_held(
    enforcer: casbin::Enforcer,
    policies: Seq<Policy>,
    plan: Seq<usize>,
)
    requires
        lists_missing(held_rules(enforcer, policies), plan),
        forall|i: int|
            0 <= i < policies.len() ==> enforcer_rules(enforcer).contains(rule_fields(policies[i])),
    ensures
        plan.len() == 0,
{
    if plan.len() > 0 {
        let k = plan[0] as int;
        assert(!held_rules(enforcer, policies)[k]);
    }
}

/// The positions of the rules in `policies` that the enforcer does not hold
/// yet, in increasing order.
pub fn seed_plan(enforcer: &casbin::Enforcer, policies: &Vec<Policy>) -> (r: Vec<usize>)
    ensures
        lists_missing(held_rules(*enforcer, policies@), r@),
{
    let mut present: Vec<bool> = Vec::new();
    let mut i: usize = 0;
    while i < policies.len()
        invariant
            i <= policies.len(),
            present.len() == i,
            forall|j: int|
                0 <= j < i ==> present@[j] == enforcer_rules(*enforcer).contains(
                    rule_fields(policies@[j]),
                ),
        decreases policies.len() - i,
    {
        present.push(has_policy(enforcer, &policies[i]));
        i = i + 1;
    }
    assert(present@ =~= held_rules(*enforcer, policies@));
    policies_to_add(&present)
}

} // verus!
