//! The unlock engine itself: the catalog of abilities with their secret
//! codes, and the abilities activated so far.

use vstd::prelude::*;
use vstd::string::*;
use crate::activation::CheatCodeActivationResult;
use crate::code::{has_code_shape, is_code_of, CheatCode};
use crate::kind::{
    lemma_mandatory_has_no_dependencies, lemma_ordinal_injective, CheatCodeKind, KIND_COUNT,
};
use crate::random::{
    choose_kind, choose_weighted_code, generate_random_code, lemma_total_weight_bound,
};
use crate::rarity::CheatCodeRarity;
use crate::unlocks::{
    in_canonical_order, lemma_first_match_unique, lemma_lookup, lemma_some_eligible, Unlocks,
};

verus! {

/// Whether `codes` is a full catalog: one well-formed entry per ability, in
/// canonical order.
spec fn is_catalog(codes: Seq<CheatCode>) -> bool {
    &&& codes.len() == KIND_COUNT
    &&& forall|i: int|
        0 <= i < codes.len() ==> (#[trigger] codes[i]).kind.ordinal() == i && codes[i].is_entry()
}

/// Whether `texts` can serve as the secret codes of a catalog: one per
/// ability, in canonical order, each of the shape that the ability's rarity
/// asks for.
pub open spec fn are_catalog_texts(texts: Seq<String>) -> bool {
    &&& texts.len() == KIND_COUNT
    &&& forall|kind: CheatCodeKind|
        is_code_of(kind.rarity(), (#[trigger] texts[kind.ordinal() as int])@)
}

/// Whether `codes` is the beginning of a catalog whose secret codes are taken
/// from `texts`, or, without `texts`, are of the right shape.
spec fn is_catalog_prefix(codes: Seq<CheatCode>, texts: Option<&Vec<String>>) -> bool {
    forall|i: int|
        0 <= i < codes.len() ==> {
            &&& (#[trigger] codes[i]).kind.ordinal() == i
            &&& codes[i].has_static_data()
            &&& match texts {
                Some(given) => i < given@.len() && codes[i].text@ == given@[i]@,
                None => is_code_of(codes[i].rarity, codes[i].text@),
            }
        }
}

/// The catalog of abilities and the set of activated ones.
pub struct CheatCodeResource {
    /// One entry per ability, in canonical order.
    codes: Vec<CheatCode>,
    /// The activated abilities, in the order of their activation.
    activated: Vec<CheatCodeKind>,
}

impl View for CheatCodeResource {
    type V = Unlocks;

    closed spec fn view(&self) -> Unlocks {
        Unlocks {
            texts: Map::total(|kind: CheatCodeKind| self.codes@[kind.ordinal() as int].text@),
            activated: self.activated@.to_set(),
        }
    }
}

/// Appends the entry of `kind` to a catalog under construction. The secret
/// code is the next of `texts`, or a fresh random one where there are none.
fn insert_cheat(
    codes: &mut Vec<CheatCode>,
    texts: Option<&Vec<String>>,
    kind: CheatCodeKind,
    rarity: CheatCodeRarity,
    dependencies: Vec<CheatCodeKind>,
    image_path: &str,
)
    requires
        is_catalog_prefix(old(codes)@, texts),
        texts matches Some(given) ==> old(codes)@.len() < given@.len(),
        kind.ordinal() == old(codes)@.len(),
        rarity == kind.rarity(),
        dependencies@ =~= kind.dependencies(),
        image_path@ == kind.image(),
    ensures
        is_catalog_prefix(final(codes)@, texts),
        final(codes)@.len() == old(codes)@.len() + 1,
{
    let text = match texts {
        Some(given) => given[codes.len()].clone(),
        None => generate_random_code(rarity),
    };
    codes.push(CheatCode::new(kind, rarity, text.as_str(), dependencies, image_path.to_string()));
}

/// The catalog: every ability with its rarity, its prerequisites and its
/// icon, in canonical order.
fn catalog(texts: Option<&Vec<String>>) -> (codes: Vec<CheatCode>)
    requires
        texts matches Some(given) ==> given@.len() == KIND_COUNT,
    ensures
        codes@.len() == KIND_COUNT,
        is_catalog_prefix(codes@, texts),
{
    let mut codes: Vec<CheatCode> = Vec::new();

    // Mandatory
    insert_cheat(
        &mut codes,
        texts,
        CheatCodeKind::Jump,
        CheatCodeRarity::Mandatory,
        vec![],
        "jump.png",
    );

    // Common
    insert_cheat(
        &mut codes,
        texts,
        CheatCodeKind::Crouch,
        CheatCodeRarity::Common,
        vec![],
        "crouch.png",
    );
    insert_cheat(
        &mut codes,
        texts,
        CheatCodeKind::Attack,
        CheatCodeRarity::Common,
        vec![],
        "attack.png",
    );
    insert_cheat(
        &mut codes,
        texts,
        CheatCodeKind::AttackDmgBoost,
        CheatCodeRarity::Common,
        vec![CheatCodeKind::Attack],
        "attack_dmg_boost.png",
    );
    insert_cheat(
        &mut codes,
        texts,
        CheatCodeKind::AttackFireRateBoost,
        CheatCodeRarity::Common,
        vec![CheatCodeKind::Attack],
        "attack_fr_boost.png",
    );
    insert_cheat(
        &mut codes,
        texts,
        CheatCodeKind::MoveLeft,
        CheatCodeRarity::Common,
        vec![],
        "move_left.png",
    );
    insert_cheat(
        &mut codes,
        texts,
        CheatCodeKind::SpeedBoost1,
        CheatCodeRarity::Common,
        vec![],
        "speed.png",
    );
    insert_cheat(
        &mut codes,
        texts,
        CheatCodeKind::SpeedBoost2,
        CheatCodeRarity::Common,
        vec![CheatCodeKind::SpeedBoost1],
        "speed.png",
    );
    insert_cheat(
        &mut codes,
        texts,
        CheatCodeKind::SpeedBoost3,
        CheatCodeRarity::Common,
        vec![CheatCodeKind::SpeedBoost1, CheatCodeKind::SpeedBoost2],
        "speed.png",
    );
    insert_cheat(
        &mut codes,
        texts,
        CheatCodeKind::Armor,
        CheatCodeRarity::Common,
        vec![],
        "armor.png",
    );
    insert_cheat(
        &mut codes,
        texts,
        CheatCodeKind::Dash,
        CheatCodeRarity::Common,
        vec![],
        "dash.png",
    );

    // Rare
    insert_cheat(
        &mut codes,
        texts,
        CheatCodeKind::DoubleJump,
        CheatCodeRarity::Rare,
        vec![CheatCodeKind::Jump],
        "double_jump.png",
    );
    insert_cheat(
        &mut codes,
        texts,
        CheatCodeKind::SpeedBoost4,
        CheatCodeRarity::Rare,
        vec![CheatCodeKind::SpeedBoost1, CheatCodeKind::SpeedBoost2, CheatCodeKind::SpeedBoost3],
        "speed.png",
    );
    insert_cheat(
        &mut codes,
        texts,
        CheatCodeKind::SpeedBoost5,
        CheatCodeRarity::Rare,
        vec![
            CheatCodeKind::SpeedBoost1,
            CheatCodeKind::SpeedBoost2,
            CheatCodeKind::SpeedBoost3,
            CheatCodeKind::SpeedBoost4,
        ],
        "speed.png",
    );
    insert_cheat(
        &mut codes,
        texts,
        CheatCodeKind::Shield,
        CheatCodeRarity::Rare,
        vec![CheatCodeKind::Jump],
        "shield.png",
    );

    // Legendary
    insert_cheat(
        &mut codes,
        texts,
        CheatCodeKind::ExtraLife,
        CheatCodeRarity::Legendary,
        vec![],
        "extra_life.png",
    );
    insert_cheat(
        &mut codes,
        texts,
        CheatCodeKind::TempInvincibility,
        CheatCodeRarity::Legendary,
        vec![CheatCodeKind::Armor, CheatCodeKind::Shield],
        "temp_invincibility.png",
    );
    insert_cheat(
        &mut codes,
        texts,
        CheatCodeKind::Fly,
        CheatCodeRarity::Legendary,
        vec![CheatCodeKind::Jump, CheatCodeKind::DoubleJump],
        "fly.png",
    );

    codes
}

/// Whether one of `codes` is the entry of `kind`.
pub open spec fn lists_kind(codes: Seq<&CheatCode>, kind: CheatCodeKind) -> bool {
    exists|i: int| 0 <= i < codes.len() && (#[trigger] codes[i]).kind == kind
}

/// Whether the entries of a list stand in canonical order, none twice.
pub open spec fn entries_in_canonical_order(codes: Seq<&CheatCode>) -> bool {
    forall|i: int, j: int|
        0 <= i < j < codes.len() ==> (#[trigger] codes[i]).kind.ordinal() < (
        #[trigger] codes[j]).kind.ordinal()
}

impl CheatCodeResource {
    /// The catalog is complete and well formed, and no ability is recorded
    /// as activated twice.
    #[verifier::type_invariant]
    pub closed spec fn wf(&self) -> bool {
        &&& is_catalog(self.codes@)
        &&& self.activated@.no_duplicates()
    }

    /// The catalog entry of an ability.
    pub closed spec fn entry(&self, kind: CheatCodeKind) -> CheatCode {
        self.codes@[kind.ordinal() as int]
    }

    /// Whether every ability has an entry of its own that is well formed:
    /// the rarity, prerequisites and icon that the catalog fixes for it, and
    /// a secret code of the right shape, which is the one the model holds.
    pub open spec fn holds_catalog(&self) -> bool {
        forall|kind: CheatCodeKind|
            {
                &&& (#[trigger] self.entry(kind)).kind == kind
                &&& self.entry(kind).is_entry()
                &&& self.entry(kind).text@ == self@.texts[kind]
            }
    }

    /// What well-formedness means for the entries and for the model.
    pub proof fn lemma_wf(&self)
        requires
            self.wf(),
        ensures
            self.holds_catalog(),
            self@.wf(),
    {
        assert forall|kind: CheatCodeKind|
            {
                &&& (#[trigger] self.entry(kind)).kind == kind
                &&& self.entry(kind).is_entry()
                &&& self.entry(kind).text@ == self@.texts[kind]
            } by {
            lemma_ordinal_injective(self.codes@[kind.ordinal() as int].kind, kind);
        }
        vstd::seq_lib::seq_to_set_is_finite(self.activated@);
    }

    /// The catalog with fresh random secret codes, and nothing activated.
    pub fn new() -> (resource: Self)
        ensures
            resource.wf(),
            resource.holds_catalog(),
            resource@.wf(),
            resource@.activated == Set::<CheatCodeKind>::empty(),
    {
        let codes = catalog(None);
        let resource = Self { codes, activated: Vec::new() };
        proof {
            resource.lemma_wf();
        }
        resource
    }

    /// The catalog with the given secret codes, one per ability in canonical
    /// order, and nothing activated. `None` where the texts are not one per
    /// ability, or one of them has not the shape that its ability's rarity
    /// asks for.
    pub fn with_codes(texts: &Vec<String>) -> (made: Option<Self>)
        ensures
            match made {
                Some(resource) => {
                    &&& are_catalog_texts(texts@)
                    &&& resource.wf()
                    &&& resource.holds_catalog()
                    &&& resource@.wf()
                    &&& resource@.activated == Set::<CheatCodeKind>::empty()
                    &&& forall|kind: CheatCodeKind| #[trigger]
                        resource@.texts[kind] == texts@[kind.ordinal() as int]@
                },
                None => !are_catalog_texts(texts@),
            },
    {
        if texts.len() != KIND_COUNT {
            return None;
        }
        let codes = catalog(Some(texts));
        let mut i: usize = 0;
        while i < codes.len()
            invariant
                i <= codes@.len() == KIND_COUNT == texts@.len(),
                is_catalog_prefix(codes@, Some(texts)),
                forall|j: int| 0 <= j < i ==> (#[trigger] codes@[j]).is_entry(),
            decreases codes@.len() - i,
        {
            if !has_code_shape(codes[i].rarity, codes[i].text.as_str()) {
                return None;
            }
            i += 1;
        }
        let resource = Self { codes, activated: Vec::new() };
        proof {
            resource.lemma_wf();
            assert forall|kind: CheatCodeKind|
                is_code_of(kind.rarity(), (#[trigger] texts@[kind.ordinal() as int])@) by {
                assert(resource.entry(kind).is_entry());
            }
        }
        Some(resource)
    }

    /// The catalog entry of an ability: its rarity, secret code,
    /// prerequisites and icon.
    pub fn get_code(&self, kind: CheatCodeKind) -> (code: &CheatCode)
        ensures
            *code == self.entry(kind),
            code.kind == kind,
            code.is_entry(),
            code.text@ == self@.texts[kind],
    {
        proof {
            use_type_invariant(self);
            self.lemma_wf();
        }
        &self.codes[kind.index()]
    }

    /// Whether an ability is activated.
    pub fn is_code_activated(&self, kind: &CheatCodeKind) -> (activated: bool)
        ensures
            activated == self@.activated.contains(*kind),
    {
        let mut i: usize = 0;
        while i < self.activated.len()
            invariant
                i <= self.activated@.len(),
                forall|j: int| 0 <= j < i ==> self.activated@[j] != *kind,
            decreases self.activated@.len() - i,
        {
            if self.activated[i] == *kind {
                return true;
            }
            i += 1;
        }
        false
    }

    /// The number of activated abilities.
    pub fn activated_count(&self) -> (count: usize)
        ensures
            count == self@.activated.len(),
    {
        proof {
            use_type_invariant(self);
            self.activated@.unique_seq_to_set();
        }
        self.activated.len()
    }

    /// Whether every ability is activated, so that nothing is left to offer.
    pub fn is_exhausted(&self) -> (exhausted: bool)
        ensures
            exhausted == self@.is_exhausted(),
    {
        proof {
            use_type_invariant(self);
            self.lemma_wf();
        }
        let mut i: usize = 0;
        while i < self.codes.len()
            invariant
                self.wf(),
                i <= self.codes@.len(),
                forall|j: int|
                    0 <= j < i ==> self@.activated.contains((#[trigger] self.codes@[j]).kind),
            decreases self.codes@.len() - i,
        {
            if !self.is_code_activated(&self.codes[i].kind) {
                return false;
            }
            i += 1;
        }
        proof {
            assert forall|kind: CheatCodeKind| self@.activated.contains(kind) by {
                lemma_ordinal_injective(self.codes@[kind.ordinal() as int].kind, kind);
            }
        }
        true
    }

    /// Whether every one of `dependencies` is activated.
    fn all_activated(&self, dependencies: &Vec<CheatCodeKind>) -> (met: bool)
        ensures
            met == forall|dep: CheatCodeKind| #[trigger]
                dependencies@.contains(dep) ==> self@.activated.contains(dep),
    {
        let mut i: usize = 0;
        while i < dependencies.len()
            invariant
                i <= dependencies@.len(),
                forall|j: int|
                    0 <= j < i ==> self@.activated.contains(#[trigger] dependencies@[j]),
            decreases dependencies@.len() - i,
        {
            if !self.is_code_activated(&dependencies[i]) {
                assert(dependencies@.contains(dependencies@[i as int]));
                return false;
            }
            i += 1;
        }
        true
    }

    /// The mandatory abilities not yet activated, in canonical order.
    pub fn pending_mandatories(&self) -> (kinds: Vec<CheatCodeKind>)
        ensures
            in_canonical_order(kinds@),
            forall|kind: CheatCodeKind| #[trigger]
                kinds@.contains(kind) <==> self@.is_pending_mandatory(kind),
    {
        proof {
            use_type_invariant(self);
            self.lemma_wf();
        }
        let mut kinds: Vec<CheatCodeKind> = Vec::new();
        let mut i: usize = 0;
        while i < self.codes.len()
            invariant
                self.wf(),
                i <= self.codes@.len(),
                in_canonical_order(kinds@),
                forall|j: int| 0 <= j < kinds@.len() ==> (#[trigger] kinds@[j]).ordinal() < i,
                forall|kind: CheatCodeKind| #[trigger]
                    kinds@.contains(kind) <==> kind.ordinal() < i && self@.is_pending_mandatory(
                        kind,
                    ),
            decreases self.codes@.len() - i,
        {
            let code = &self.codes[i];
            let ghost before = kinds@;
            if code.rarity == CheatCodeRarity::Mandatory && !self.is_code_activated(&code.kind) {
                kinds.push(code.kind);
            }
            proof {
                assert forall|kind: CheatCodeKind| #[trigger]
                    kinds@.contains(kind) <==> kind.ordinal() < i + 1
                        && self@.is_pending_mandatory(kind) by {
                    if kind.ordinal() == i {
                        lemma_ordinal_injective(code.kind, kind);
                    }
                    if kinds@.len() > before.len() {
                        assert(kinds@.last() == code.kind);
                    }
                }
            }
            i += 1;
        }
        kinds
    }

    /// The entries of the abilities that are eligible: not yet activated,
    /// with every prerequisite activated. They come in canonical order.
    pub fn available_codes(&self) -> (codes: Vec<&CheatCode>)
        ensures
            codes@.len() <= KIND_COUNT,
            entries_in_canonical_order(codes@),
            forall|i: int|
                0 <= i < codes@.len() ==> *codes@[i] == self.entry((#[trigger] codes@[i]).kind),
            forall|kind: CheatCodeKind| #[trigger]
                lists_kind(codes@, kind) <==> self@.is_eligible(kind),
    {
        proof {
            use_type_invariant(self);
            self.lemma_wf();
        }
        let mut available: Vec<&CheatCode> = Vec::new();
        let mut i: usize = 0;
        while i < self.codes.len()
            invariant
                self.wf(),
                i <= self.codes@.len(),
                available@.len() <= i,
                entries_in_canonical_order(available@),
                forall|j: int|
                    0 <= j < available@.len() ==> (#[trigger] available@[j]).kind.ordinal() < i
                        && *available@[j] == self.entry(available@[j].kind),
                forall|kind: CheatCodeKind| #[trigger]
                    lists_kind(available@, kind) <==> kind.ordinal() < i && self@.is_eligible(
                        kind,
                    ),
            decreases self.codes@.len() - i,
        {
            let code = &self.codes[i];
            let ghost before = available@;
            // a code that is not activated and has no missing dependency
            // is a candidate
            if self.all_activated(&code.dependencies) && !self.is_code_activated(&code.kind) {
                available.push(code);
            }
            proof {
                assert forall|kind: CheatCodeKind| #[trigger]
                    lists_kind(available@, kind) <==> kind.ordinal() < i + 1
                        && self@.is_eligible(kind) by {
                    if kind.ordinal() == i {
                        lemma_ordinal_injective(code.kind, kind);
                    }
                    if available@.len() > before.len() {
                        assert(available@.last().kind == code.kind);
                        if lists_kind(before, kind) {
                            let j = choose|j: int|
                                0 <= j < before.len() && before[j].kind == kind;
                            assert(available@[j].kind == kind);
                        }
                    }
                }
            }
            i += 1;
        }
        available
    }

    /// The ability to offer next: a locked mandatory ability while there is
    /// one, else an eligible ability drawn with the weight of its rarity.
    /// Nothing is activated by the call.
    pub fn get_next_code(&self) -> (kind: CheatCodeKind)
        requires
            !self@.is_exhausted(),
        ensures
            self@.may_offer(kind),
            self@.is_eligible(kind),
            self@.mandatory_pending() ==> kind.rarity() == CheatCodeRarity::Mandatory,
    {
        proof {
            use_type_invariant(self);
            self.lemma_wf();
        }
        // first get a list of mandatory cheat codes
        let mandatories = self.pending_mandatories();
        // if there is a mandatory code to be chosen, then return it
        match choose_kind(&mandatories) {
            Some(kind) => {
                proof {
                    lemma_mandatory_has_no_dependencies(kind);
                }
                return kind;
            },
            None => {},
        }
        assert forall|kind: CheatCodeKind| !self@.is_pending_mandatory(kind) by {
            assert(!mandatories@.contains(kind));
        }

        // then we grab all the codes that haven't been activated yet,
        // dependencies checked
        let available_codes = self.available_codes();
        proof {
            lemma_total_weight_bound(available_codes@);
            lemma_some_eligible(self@);
            let eligible = choose|kind: CheatCodeKind| self@.is_eligible(kind);
            assert(lists_kind(available_codes@, eligible));
            assert(!self@.is_pending_mandatory(eligible));
        }

        // then return a random code based on their rarity (rarity is the weight)
        let kind = choose_weighted_code(&available_codes).unwrap();
        proof {
            assert(lists_kind(available_codes@, kind));
        }
        kind
    }

    /// Redeems a secret code: activates the first ability in canonical order
    /// whose code is `text`, unless it is activated already.
    pub fn activate_code(&mut self, text: &str) -> (outcome: CheatCodeActivationResult)
        ensures
            final(self).wf(),
            (final(self)@, outcome) == old(self)@.redeem(text@),
    {
        proof {
            use_type_invariant(&*self);
            self.lemma_wf();
            lemma_lookup(self@, text@);
        }
        let needle = text.to_string();
        // iteration over all the existing codes
        let mut i: usize = 0;
        while i < self.codes.len()
            invariant
                *self == *old(self),
                self.wf(),
                needle@ == text@,
                i <= self.codes@.len(),
                forall|j: int| 0 <= j < i ==> (#[trigger] self.codes@[j]).text@ != text@,
            decreases self.codes@.len() - i,
        {
            // if we found a code
            if self.codes[i].text == needle {
                let kind = self.codes[i].kind;
                proof {
                    self.lemma_wf();
                    assert forall|other: CheatCodeKind|
                        other.ordinal() < kind.ordinal() implies #[trigger] self@.texts[other]
                        != text@ by {
                        assert(self.codes@[other.ordinal() as int].text@ != text@);
                    }
                    assert(self@.is_first_match(text@, kind));
                    lemma_first_match_unique(self@, text@, kind, self@.lookup(text@).unwrap());
                }
                if self.is_code_activated(&kind) {
                    return CheatCodeActivationResult::AlreadyActivated(kind);
                }
                // if the code hasn't been activated do it

                // the list leaves the resource while it grows, so that the
                // resource is well formed at every step
                let mut activated: Vec<CheatCodeKind> = Vec::new();
                std::mem::swap(&mut self.activated, &mut activated);
                activated.push(kind);
                std::mem::swap(&mut self.activated, &mut activated);
                proof {
                    old(self).activated@.lemma_push_to_set_commute(kind);
                }
                return CheatCodeActivationResult::Activated(kind);
            }
            i += 1;
        }
        proof {
            self.lemma_wf();
            assert forall|kind: CheatCodeKind| #[trigger] self@.texts[kind] != text@ by {
                assert(self.codes@[kind.ordinal() as int].text@ != text@);
            }
        }
        CheatCodeActivationResult::NotFound
    }
}

} // verus!
