//! Policy engine for action gating.
//!
//! A policy decides whether an action is allowed, denied, or needs human
//! confirmation before execution. Several policies compose: the most
//! restrictive decision wins.

use vstd::prelude::*;
use vstd::string::*;
use crate::intent::Intent;
use crate::text::{has_prefix, starts_with, concat, concat3, concat4};

verus! {

/// The decision made by a policy evaluation.
#[derive(Debug, Clone, PartialEq, Eq)]
pub enum PolicyDecision {
    /// Action is allowed to proceed without confirmation.
    Allow,
    /// Action requires human confirmation before proceeding.
    Confirm { reason: String },
    /// Action is denied outright.
    Deny { reason: String },
}

/// The mathematical model of a [`PolicyDecision`].
pub enum DecisionModel {
    Allow,
    Confirm { reason: Seq<char> },
    Deny { reason: Seq<char> },
}

impl View for PolicyDecision {
    type V = DecisionModel;

    open spec fn view(&self) -> DecisionModel {
        match self {
            PolicyDecision::Allow => DecisionModel::Allow,
            PolicyDecision::Confirm { reason } => DecisionModel::Confirm { reason: reason@ },
            PolicyDecision::Deny { reason } => DecisionModel::Deny { reason: reason@ },
        }
    }
}

/// A policy: decides, for an intent, whether the action may go ahead.
pub trait Policy {
    /// The decision this policy makes for `intent`.
    spec fn decision(&self, intent: Intent) -> DecisionModel;

    /// Evaluate a policy decision for the given intent.
    fn evaluate(&self, intent: &Intent) -> (d: PolicyDecision)
        requires
            intent.wf(),
        ensures
            d@ == self.decision(*intent);

    /// The policy's name.
    spec fn spec_name(&self) -> Seq<char>;

    /// Human-readable name for this policy.
    fn name(&self) -> (n: &str)
        ensures
            n@ == self.spec_name();
}

/// A policy that always allows all actions (for testing/development).
pub struct AllowAllPolicy;

impl Policy for AllowAllPolicy {
    open spec fn decision(&self, intent: Intent) -> DecisionModel {
        DecisionModel::Allow
    }

    fn evaluate(&self, intent: &Intent) -> (d: PolicyDecision) {
        PolicyDecision::Allow
    }

    open spec fn spec_name(&self) -> Seq<char> {
        "allow-all"@
    }

    fn name(&self) -> (n: &str) {
        "allow-all"
    }
}

/// A policy that denies intents whose kind starts with a deny prefix, and
/// asks for confirmation of those whose kind starts with a confirm prefix.
pub struct ConfirmPatternPolicy {
    /// Intent kind prefixes that require confirmation (e.g., "payment.", "email.send").
    pub confirm_prefixes: Vec<String>,
    /// Intent kind prefixes that are denied outright.
    pub deny_prefixes: Vec<String>,
}

/// The first of `prefixes` that `kind` starts with.
pub open spec fn first_prefix(prefixes: Seq<Seq<char>>, kind: Seq<char>) -> Option<Seq<char>>
    decreases prefixes.len(),
{
    if prefixes.len() == 0 {
        None
    } else if has_prefix(kind, prefixes[0]) {
        Some(prefixes[0])
    } else {
        first_prefix(prefixes.drop_first(), kind)
    }
}

/// The reason given when `kind` matches deny pattern `prefix`.
pub open spec fn deny_reason(kind: Seq<char>, prefix: Seq<char>) -> Seq<char> {
    "Intent '"@ + kind + "' matches deny pattern '"@ + prefix + "'"@
}

/// The reason given when `kind` needs confirmation.
pub open spec fn confirm_reason(kind: Seq<char>) -> Seq<char> {
    "Intent '"@ + kind + "' requires human confirmation"@
}

/// The decision of a pattern policy with the given prefixes for `kind`.
pub open spec fn pattern_decision(deny: Seq<Seq<char>>, confirm: Seq<Seq<char>>, kind: Seq<char>) -> DecisionModel {
    match first_prefix(deny, kind) {
        Some(p) => DecisionModel::Deny { reason: deny_reason(kind, p) },
        None => match first_prefix(confirm, kind) {
            Some(_) => DecisionModel::Confirm { reason: confirm_reason(kind) },
            None => DecisionModel::Allow,
        },
    }
}

/// The first of `prefixes` that `kind` starts with.
fn find_prefix<'a>(prefixes: &'a Vec<String>, kind: &str) -> (r: Option<&'a String>)
    ensures
        match r {
            Some(p) => first_prefix(prefixes.deep_view(), kind@) == Some(p@),
            None => first_prefix(prefixes.deep_view(), kind@) is None,
        },
{
    let ghost all = prefixes.deep_view();
    let mut i: usize = 0;
    assert(all.subrange(0, all.len() as int) =~= all);
    while i < prefixes.len()
        invariant
            i <= prefixes@.len(),
            all == prefixes.deep_view(),
            first_prefix(all, kind@) == first_prefix(all.subrange(i as int, all.len() as int), kind@),
        decreases prefixes@.len() - i,
    {
        let ghost rest = all.subrange(i as int, all.len() as int);
        assert(rest.drop_first() =~= all.subrange(i + 1, all.len() as int));
        assert(rest[0] == prefixes@[i as int]@);
        if starts_with(kind, prefixes[i].as_str()) {
            return Some(&prefixes[i]);
        }
        i += 1;
    }
    None
}

impl Policy for ConfirmPatternPolicy {
    open spec fn decision(&self, intent: Intent) -> DecisionModel {
        pattern_decision(self.deny_prefixes.deep_view(), self.confirm_prefixes.deep_view(), intent.kind@)
    }

    fn evaluate(&self, intent: &Intent) -> (d: PolicyDecision) {
        let kind = intent.kind.as_str();
        if let Some(prefix) = find_prefix(&self.deny_prefixes, kind) {
            let reason = concat(&concat4("Intent '", kind, "' matches deny pattern '", prefix.as_str()), "'");
            return PolicyDecision::Deny { reason };
        }
        if let Some(_) = find_prefix(&self.confirm_prefixes, kind) {
            let reason = concat3("Intent '", kind, "' requires human confirmation");
            return PolicyDecision::Confirm { reason };
        }
        PolicyDecision::Allow
    }

    open spec fn spec_name(&self) -> Seq<char> {
        "confirm-pattern"@
    }

    fn name(&self) -> (n: &str) {
        "confirm-pattern"
    }
}

/// The combined decision of a sequence of decisions taken in order: the
/// first denial wins; otherwise the last confirmation; otherwise allow.
pub open spec fn combined(ds: Seq<DecisionModel>) -> DecisionModel
    decreases ds.len(),
{
    if ds.len() == 0 {
        DecisionModel::Allow
    } else {
        let prev = combined(ds.drop_last());
        if prev is Deny {
            prev
        } else {
            match ds.last() {
                DecisionModel::Allow => prev,
                other => other,
            }
        }
    }
}

/// The decisions of `policies` for `intent`, in order.
pub open spec fn decisions_of(policies: Seq<&dyn Policy>, intent: Intent) -> Seq<DecisionModel> {
    Seq::new(policies.len(), |i: int| policies[i].decision(intent))
}

/// Compose multiple policies. The most restrictive decision wins:
/// Deny > Confirm > Allow.
pub fn evaluate_policies(policies: &[&dyn Policy], intent: &Intent) -> (d: PolicyDecision)
    requires
        intent.wf(),
    ensures
        d@ == combined(decisions_of(policies@, *intent)),
{
    let ghost ds = decisions_of(policies@, *intent);
    let mut result = PolicyDecision::Allow;
    let mut i: usize = 0;
    while i < policies.len()
        invariant
            intent.wf(),
            i <= policies@.len(),
            ds == decisions_of(policies@, *intent),
            result@ == combined(ds.subrange(0, i as int)),
            !(result@ is Deny),
        decreases policies@.len() - i,
    {
        let decision = policies[i].evaluate(intent);
        assert(ds.subrange(0, i + 1).drop_last() =~= ds.subrange(0, i as int));
        match decision {
            PolicyDecision::Deny { reason } => {
                proof {
                    lemma_combined_deny_stays(ds, i as int + 1);
                }
                return PolicyDecision::Deny { reason };
            }
            PolicyDecision::Confirm { reason } => {
                result = PolicyDecision::Confirm { reason };
            }
            PolicyDecision::Allow => {}
        }
        i += 1;
    }
    assert(ds.subrange(0, ds.len() as int) =~= ds);
    result
}

/// Once the decisions so far combine to a denial, later ones do not change it.
pub proof fn lemma_combined_deny_stays(ds: Seq<DecisionModel>, i: int)
    requires
        0 <= i <= ds.len(),
        combined(ds.subrange(0, i)) is Deny,
    ensures
        combined(ds) == combined(ds.subrange(0, i)),
    decreases ds.len() - i,
{
    if i < ds.len() {
        assert(ds.subrange(0, i + 1).drop_last() =~= ds.subrange(0, i));
        lemma_combined_deny_stays(ds, i + 1);
    } else {
        assert(ds.subrange(0, i) =~= ds);
    }
}

} // verus!

verus! {

/// The combination of decisions obeys "the most restrictive decision wins":
/// it denies exactly when some decision denies, allows exactly when every
/// decision allows, and asks for confirmation otherwise.
pub proof fn lemma_most_restrictive_wins(ds: Seq<DecisionModel>)
    ensures
        combined(ds) is Deny <==> exists|i: int| 0 <= i < ds.len() && #[trigger] ds[i] is Deny,
        combined(ds) is Allow <==> forall|i: int| 0 <= i < ds.len() ==> #[trigger] ds[i] is Allow,
        combined(ds) is Confirm <==> (exists|i: int| 0 <= i < ds.len() && #[trigger] ds[i] is Confirm) && !exists|i: int|
            0 <= i < ds.len() && #[trigger] ds[i] is Deny,
    decreases ds.len(),
{
    if ds.len() > 0 {
        let prefix = ds.drop_last();
        lemma_most_restrictive_wins(prefix);
        assert forall|i: int| 0 <= i < prefix.len() implies prefix[i] == ds[i] by {}
        if exists|i: int| 0 <= i < prefix.len() && #[trigger] prefix[i] is Deny {
            let i = choose|i: int| 0 <= i < prefix.len() && #[trigger] prefix[i] is Deny;
            assert(ds[i] is Deny);
        }
        if exists|i: int| 0 <= i < prefix.len() && #[trigger] prefix[i] is Confirm {
            let i = choose|i: int| 0 <= i < prefix.len() && #[trigger] prefix[i] is Confirm;
            assert(ds[i] is Confirm);
        }
        if exists|i: int| 0 <= i < ds.len() && #[trigger] ds[i] is Deny {
            let i = choose|i: int| 0 <= i < ds.len() && #[trigger] ds[i] is Deny;
            if i < prefix.len() {
                assert(prefix[i] is Deny);
            }
        }
        if exists|i: int| 0 <= i < ds.len() && #[trigger] ds[i] is Confirm {
            let i = choose|i: int| 0 <= i < ds.len() && #[trigger] ds[i] is Confirm;
            if i < prefix.len() {
                assert(prefix[i] is Confirm);
            }
        }
        if forall|i: int| 0 <= i < ds.len() ==> #[trigger] ds[i] is Allow {
            assert forall|i: int| 0 <= i < prefix.len() implies #[trigger] prefix[i] is Allow by {
                assert(ds[i] is Allow);
            }
        }
    }
}

/// A denial among the decisions is the combined decision: the first one.
pub proof fn lemma_first_denial_wins(ds: Seq<DecisionModel>, i: int)
    requires
        0 <= i < ds.len(),
        ds[i] is Deny,
        forall|j: int| 0 <= j < i ==> !(#[trigger] ds[j] is Deny),
    ensures
        combined(ds) == ds[i],
{
    lemma_no_denial_prefix(ds, i);
    assert(ds.subrange(0, i + 1).drop_last() =~= ds.subrange(0, i));
    assert(ds.subrange(0, i + 1).last() == ds[i]);
    lemma_combined_deny_stays(ds, i + 1);
}

proof fn lemma_no_denial_prefix(ds: Seq<DecisionModel>, i: int)
    requires
        0 <= i <= ds.len(),
        forall|j: int| 0 <= j < i ==> !(#[trigger] ds[j] is Deny),
    ensures
        !(combined(ds.subrange(0, i)) is Deny),
{
    lemma_most_restrictive_wins(ds.subrange(0, i));
    if exists|j: int| 0 <= j < i && #[trigger] ds.subrange(0, i)[j] is Deny {
        let j = choose|j: int| 0 <= j < i && #[trigger] ds.subrange(0, i)[j] is Deny;
        assert(ds[j] is Deny);
    }
}

/// An allowing policy does not change the combined decision, wherever it
/// stands among the others.
pub proof fn lemma_allow_is_neutral(ds: Seq<DecisionModel>, i: int)
    requires
        0 <= i <= ds.len(),
    ensures
        combined(ds.insert(i, DecisionModel::Allow)) == combined(ds),
    decreases ds.len(),
{
    let with = ds.insert(i, DecisionModel::Allow);
    if i == ds.len() {
        assert(with.drop_last() =~= ds);
    } else {
        lemma_allow_is_neutral(ds.drop_last(), i);
        assert(with.drop_last() =~= ds.drop_last().insert(i, DecisionModel::Allow));
        assert(with.last() == ds.last());
    }
}

/// In a pattern policy, a deny pattern beats a confirm pattern: an intent
/// whose kind matches some deny prefix is denied, whatever the confirm
/// prefixes; one that matches no prefix at all is allowed.
pub proof fn lemma_deny_pattern_beats_confirm(deny: Seq<Seq<char>>, confirm: Seq<Seq<char>>, kind: Seq<char>)
    ensures
        (exists|i: int| 0 <= i < deny.len() && has_prefix(kind, #[trigger] deny[i])) ==> pattern_decision(deny, confirm, kind) is Deny,
        (forall|i: int| 0 <= i < deny.len() ==> !has_prefix(kind, #[trigger] deny[i])) && (forall|i: int|
            0 <= i < confirm.len() ==> !has_prefix(kind, #[trigger] confirm[i])) ==> pattern_decision(deny, confirm, kind) is Allow,
{
    lemma_first_prefix(deny, kind);
    lemma_first_prefix(confirm, kind);
}

/// `first_prefix` finds a prefix exactly when some prefix matches, and what
/// it finds is one of them that matches.
pub proof fn lemma_first_prefix(prefixes: Seq<Seq<char>>, kind: Seq<char>)
    ensures
        first_prefix(prefixes, kind) is Some <==> exists|i: int| 0 <= i < prefixes.len() && has_prefix(kind, #[trigger] prefixes[i]),
        first_prefix(prefixes, kind) matches Some(p) ==> has_prefix(kind, p) && prefixes.contains(p),
    decreases prefixes.len(),
{
    if prefixes.len() > 0 {
        let rest = prefixes.drop_first();
        lemma_first_prefix(rest, kind);
        if exists|i: int| 0 <= i < prefixes.len() && has_prefix(kind, #[trigger] prefixes[i]) {
            let i = choose|i: int| 0 <= i < prefixes.len() && has_prefix(kind, #[trigger] prefixes[i]);
            if i > 0 {
                assert(rest[i - 1] == prefixes[i]);
            }
        }
        if exists|i: int| 0 <= i < rest.len() && has_prefix(kind, #[trigger] rest[i]) {
            let i = choose|i: int| 0 <= i < rest.len() && has_prefix(kind, #[trigger] rest[i]);
            assert(prefixes[i + 1] == rest[i]);
        }
        if let Some(p) = first_prefix(rest, kind) {
            let j = choose|j: int| 0 <= j < rest.len() && rest[j] == p;
            assert(prefixes[j + 1] == p);
        }
        assert(prefixes[0] == prefixes[0]);
    }
}

} // verus!
