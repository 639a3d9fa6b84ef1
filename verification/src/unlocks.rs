//! The mathematical model of the unlock engine: which secret code belongs to
//! which ability, and which abilities are activated. Selection and redemption
//! are stated here as pure functions and predicates of that state.

use vstd::prelude::*;
use crate::activation::CheatCodeActivationResult;
use crate::code::is_code_of;
use crate::kind::{
    lemma_dependencies_precede, lemma_mandatory_has_no_dependencies, lemma_ordinal_injective,
    CheatCodeKind,
};
use crate::rarity::CheatCodeRarity;

verus! {

/// The state of the engine as a mathematical value.
#[verifier::ext_equal]
pub struct Unlocks {
    /// The secret code of each ability.
    pub texts: Map<CheatCodeKind, Seq<char>>,
    /// The abilities activated so far.
    pub activated: Set<CheatCodeKind>,
}

impl Unlocks {
    /// Every ability has a secret code of the shape that its rarity asks
    /// for, and finitely many abilities are activated.
    pub open spec fn wf(self) -> bool {
        &&& forall|kind: CheatCodeKind| #[trigger] self.texts.dom().contains(kind)
        &&& forall|kind: CheatCodeKind| is_code_of(kind.rarity(), #[trigger] self.texts[kind])
        &&& self.activated.finite()
    }

    /// Whether `kind` is the first ability, in canonical order, whose secret
    /// code is `text`.
    pub open spec fn is_first_match(self, text: Seq<char>, kind: CheatCodeKind) -> bool {
        &&& self.texts[kind] == text
        &&& forall|other: CheatCodeKind|
            other.ordinal() < kind.ordinal() ==> #[trigger] self.texts[other] != text
    }

    /// The ability that `text` redeems: the first one in canonical order
    /// whose secret code it is, if there is any.
    pub open spec fn lookup(self, text: Seq<char>) -> Option<CheatCodeKind> {
        if exists|kind: CheatCodeKind| self.is_first_match(text, kind) {
            Some(choose|kind: CheatCodeKind| self.is_first_match(text, kind))
        } else {
            None
        }
    }

    /// The state after activating `kind`.
    pub open spec fn activate(self, kind: CheatCodeKind) -> Unlocks {
        Unlocks { texts: self.texts, activated: self.activated.insert(kind) }
    }

    /// Redemption: the state after submitting `text`, and the outcome.
    pub open spec fn redeem(self, text: Seq<char>) -> (Unlocks, CheatCodeActivationResult) {
        match self.lookup(text) {
            None => (self, CheatCodeActivationResult::NotFound),
            Some(kind) => if self.activated.contains(kind) {
                (self, CheatCodeActivationResult::AlreadyActivated(kind))
            } else {
                (self.activate(kind), CheatCodeActivationResult::Activated(kind))
            },
        }
    }

    /// The state after submitting each of `texts` in turn.
    pub open spec fn redeem_all(self, texts: Seq<Seq<char>>) -> Unlocks
        decreases texts.len(),
    {
        if texts.len() == 0 {
            self
        } else {
            self.redeem_all(texts.drop_last()).redeem(texts.last()).0
        }
    }

    /// Whether every prerequisite of `kind` is activated.
    pub open spec fn dependencies_met(self, kind: CheatCodeKind) -> bool {
        forall|dep: CheatCodeKind| #[trigger]
            kind.dependencies().contains(dep) ==> self.activated.contains(dep)
    }

    /// Whether `kind` is still locked and all its prerequisites are activated.
    pub open spec fn is_eligible(self, kind: CheatCodeKind) -> bool {
        !self.activated.contains(kind) && self.dependencies_met(kind)
    }

    /// Whether `kind` is a mandatory ability that is still locked.
    pub open spec fn is_pending_mandatory(self, kind: CheatCodeKind) -> bool {
        kind.rarity() == CheatCodeRarity::Mandatory && !self.activated.contains(kind)
    }

    /// Whether some mandatory ability is still locked.
    pub open spec fn mandatory_pending(self) -> bool {
        exists|kind: CheatCodeKind| self.is_pending_mandatory(kind)
    }

    /// Whether the selector may offer `kind` next: a locked mandatory ability
    /// while there is one, else any eligible ability.
    pub open spec fn may_offer(self, kind: CheatCodeKind) -> bool {
        if self.mandatory_pending() {
            self.is_pending_mandatory(kind)
        } else {
            self.is_eligible(kind)
        }
    }

    /// Whether every ability is activated, so that nothing is left to offer.
    pub open spec fn is_exhausted(self) -> bool {
        forall|kind: CheatCodeKind| self.activated.contains(kind)
    }
}

/// Whether the abilities of a list stand in canonical order, none twice.
pub open spec fn in_canonical_order(kinds: Seq<CheatCodeKind>) -> bool {
    forall|i: int, j: int|
        0 <= i < j < kinds.len() ==> (#[trigger] kinds[i]).ordinal() < (
        #[trigger] kinds[j]).ordinal()
}

/// At most one ability is the first match of a text.
pub proof fn lemma_first_match_unique(
    state: Unlocks,
    text: Seq<char>,
    a: CheatCodeKind,
    b: CheatCodeKind,
)
    requires
        state.is_first_match(text, a),
        state.is_first_match(text, b),
    ensures
        a == b,
{
    if a.ordinal() == b.ordinal() {
        lemma_ordinal_injective(a, b);
    }
}

/// A text that is the code of some ability has a first match; `lookup` finds
/// it, and finds nothing exactly where the text is no ability's code.
pub proof fn lemma_lookup(state: Unlocks, text: Seq<char>)
    ensures
        match state.lookup(text) {
            Some(kind) => state.is_first_match(text, kind),
            None => forall|kind: CheatCodeKind| #[trigger] state.texts[kind] != text,
        },
{
    if state.lookup(text) is None {
        assert forall|kind: CheatCodeKind| #[trigger] state.texts[kind] != text by {
            if state.texts[kind] == text {
                lemma_first_match_below(state, text, kind, kind.ordinal());
            }
        }
    }
}

/// Among the abilities whose code is `text`, one comes first.
proof fn lemma_first_match_below(state: Unlocks, text: Seq<char>, kind: CheatCodeKind, bound: nat)
    requires
        state.texts[kind] == text,
        kind.ordinal() <= bound,
    ensures
        exists|first: CheatCodeKind| state.is_first_match(text, first),
    decreases bound,
{
    if state.is_first_match(text, kind) {
    } else {
        let other = choose|other: CheatCodeKind|
            other.ordinal() < kind.ordinal() && state.texts[other] == text;
        lemma_first_match_below(state, text, other, (bound - 1) as nat);
    }
}

/// While an ability is locked, some ability is eligible: the first locked
/// one in canonical order, whose prerequisites all come before it.
pub proof fn lemma_some_eligible(state: Unlocks)
    requires
        !state.is_exhausted(),
    ensures
        exists|kind: CheatCodeKind| state.is_eligible(kind),
{
    let locked = choose|kind: CheatCodeKind| !state.activated.contains(kind);
    lemma_first_locked(state, locked, locked.ordinal());
    let first = choose|first: CheatCodeKind|
        !state.activated.contains(first) && forall|other: CheatCodeKind|
            other.ordinal() < first.ordinal() ==> #[trigger] state.activated.contains(other);
    assert forall|dep: CheatCodeKind| #[trigger]
        first.dependencies().contains(dep) implies state.activated.contains(dep) by {
        lemma_dependencies_precede(first, dep);
    }
    assert(state.is_eligible(first));
}

/// Among the locked abilities, one comes first.
proof fn lemma_first_locked(state: Unlocks, kind: CheatCodeKind, bound: nat)
    requires
        !state.activated.contains(kind),
        kind.ordinal() <= bound,
    ensures
        exists|first: CheatCodeKind|
            !state.activated.contains(first) && forall|other: CheatCodeKind|
                other.ordinal() < first.ordinal() ==> #[trigger] state.activated.contains(other),
    decreases bound,
{
    if forall|other: CheatCodeKind|
        other.ordinal() < kind.ordinal() ==> #[trigger] state.activated.contains(other) {
    } else {
        let other = choose|other: CheatCodeKind|
            other.ordinal() < kind.ordinal() && !state.activated.contains(other);
        lemma_first_locked(state, other, (bound - 1) as nat);
    }
}

/// Redemption never locks an ability again: what was activated before stays
/// activated, and the secret codes stay as they were.
pub proof fn lemma_redeem_keeps(state: Unlocks, text: Seq<char>)
    ensures
        state.redeem(text).0.texts == state.texts,
        state.activated.subset_of(state.redeem(text).0.activated),
        state.wf() ==> state.redeem(text).0.wf(),
{
}

/// Whatever is offered next is eligible: it is locked and each of its
/// prerequisites is activated. A locked mandatory ability has no
/// prerequisite, so it is eligible as well.
pub proof fn lemma_offer_is_eligible(state: Unlocks, kind: CheatCodeKind)
    requires
        state.may_offer(kind),
    ensures
        state.is_eligible(kind),
        !state.activated.contains(kind),
        forall|dep: CheatCodeKind| #[trigger]
            kind.dependencies().contains(dep) ==> state.activated.contains(dep),
{
    if state.mandatory_pending() {
        lemma_mandatory_has_no_dependencies(kind);
    }
}

/// An ability with a locked prerequisite is never offered.
pub proof fn lemma_dependency_gating(state: Unlocks, kind: CheatCodeKind, dep: CheatCodeKind)
    requires
        kind.dependencies().contains(dep),
        !state.activated.contains(dep),
    ensures
        !state.is_eligible(kind),
        !state.may_offer(kind),
{
    if state.may_offer(kind) {
        lemma_offer_is_eligible(state, kind);
    }
}

/// While a mandatory ability is locked, only mandatory abilities are offered.
pub proof fn lemma_mandatory_first(state: Unlocks, locked: CheatCodeKind, kind: CheatCodeKind)
    requires
        locked.rarity() == CheatCodeRarity::Mandatory,
        !state.activated.contains(locked),
        state.may_offer(kind),
    ensures
        kind.rarity() == CheatCodeRarity::Mandatory,
{
    assert(state.is_pending_mandatory(locked));
}

/// An ability that is activated stays so whatever is redeemed afterwards,
/// and is never offered again.
pub proof fn lemma_activated_for_good(state: Unlocks, kind: CheatCodeKind, later: Seq<Seq<char>>)
    requires
        state.activated.contains(kind),
    ensures
        state.redeem_all(later).activated.contains(kind),
        !state.redeem_all(later).may_offer(kind),
    decreases later.len(),
{
    if later.len() > 0 {
        lemma_activated_for_good(state, kind, later.drop_last());
        lemma_redeem_keeps(state.redeem_all(later.drop_last()), later.last());
    }
}

/// Once a redemption has activated an ability, the ability is activated in
/// every later state and is never offered again.
pub proof fn lemma_no_offer_after_unlock(
    state: Unlocks,
    text: Seq<char>,
    kind: CheatCodeKind,
    later: Seq<Seq<char>>,
)
    requires
        state.redeem(text).1 == CheatCodeActivationResult::Activated(kind),
    ensures
        state.redeem(text).0.redeem_all(later).activated.contains(kind),
        !state.redeem(text).0.redeem_all(later).may_offer(kind),
{
    lemma_activated_for_good(state.redeem(text).0, kind, later);
}

/// Redeeming a secret code a second time changes nothing: the first
/// redemption activates the ability that the code belongs to, unless it was
/// activated before, and the second reports it as activated already and
/// leaves the state, and so the number of activated abilities, as it was.
pub proof fn lemma_redeem_twice(state: Unlocks, text: Seq<char>, kind: CheatCodeKind)
    requires
        state.lookup(text) == Some(kind),
    ensures
        state.redeem(text).1 == if state.activated.contains(kind) {
            CheatCodeActivationResult::AlreadyActivated(kind)
        } else {
            CheatCodeActivationResult::Activated(kind)
        },
        state.redeem(text).0.redeem(text) == (
            state.redeem(text).0,
            CheatCodeActivationResult::AlreadyActivated(kind),
        ),
        state.redeem(text).0.redeem(text).0.activated.len()
            == state.redeem(text).0.activated.len(),
{
    let after = state.redeem(text).0;
    lemma_lookup(state, text);
    lemma_lookup(after, text);
    lemma_first_match_unique(state, text, kind, after.lookup(text).unwrap());
}

/// A redemption that activates an ability adds exactly that one to the
/// activated abilities.
pub proof fn lemma_activation_counts(state: Unlocks, text: Seq<char>, kind: CheatCodeKind)
    requires
        state.activated.finite(),
        state.redeem(text).1 == CheatCodeActivationResult::Activated(kind),
    ensures
        state.lookup(text) == Some(kind),
        !state.activated.contains(kind),
        state.redeem(text).0.activated == state.activated.insert(kind),
        state.redeem(text).0.activated.len() == state.activated.len() + 1,
{
}

/// A text that is no ability's secret code is not found, and redeeming it
/// leaves the state as it was.
pub proof fn lemma_unknown_code(state: Unlocks, text: Seq<char>)
    requires
        forall|kind: CheatCodeKind| #[trigger] state.texts[kind] != text,
    ensures
        state.redeem(text) == (state, CheatCodeActivationResult::NotFound),
{
}

/// A text that has the shape of no rarity's secret code (the empty text, a
/// text of another length than 4, 6 or 8, a text with a character that is
/// no letter or digit) is not found.
pub proof fn lemma_misshapen_code(state: Unlocks, text: Seq<char>)
    requires
        state.wf(),
        forall|rarity: CheatCodeRarity| !is_code_of(rarity, text),
    ensures
        state.redeem(text) == (state, CheatCodeActivationResult::NotFound),
{
    assert forall|kind: CheatCodeKind| #[trigger] state.texts[kind] != text by {
        assert(is_code_of(kind.rarity(), state.texts[kind]));
    }
}

} // verus!
