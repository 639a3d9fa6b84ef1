use cheat_codes::{CheatCodeActivationResult, CheatCodeKind, CheatCodeResource};

const ALL_KINDS: [CheatCodeKind; 18] = [
    CheatCodeKind::Jump,
    CheatCodeKind::Crouch,
    CheatCodeKind::Attack,
    CheatCodeKind::AttackDmgBoost,
    CheatCodeKind::AttackFireRateBoost,
    CheatCodeKind::MoveLeft,
    CheatCodeKind::SpeedBoost1,
    CheatCodeKind::SpeedBoost2,
    CheatCodeKind::SpeedBoost3,
    CheatCodeKind::Armor,
    CheatCodeKind::Dash,
    CheatCodeKind::DoubleJump,
    CheatCodeKind::SpeedBoost4,
    CheatCodeKind::SpeedBoost5,
    CheatCodeKind::Shield,
    CheatCodeKind::ExtraLife,
    CheatCodeKind::TempInvincibility,
    CheatCodeKind::Fly,
];

const TEXTS: [&str; 18] = [
    "jump", "crch", "attk", "admg", "afrb", "left", "spd1", "spd2", "spd3", "armr", "dash",
    "dbjump", "speed4", "speed5", "shield", "extralif", "tempinvi", "flyflyfl",
];

fn fixed_resource() -> CheatCodeResource {
    let texts: Vec<String> = TEXTS.iter().map(|text| text.to_string()).collect();
    CheatCodeResource::with_codes(&texts).unwrap()
}

#[test]
fn redeeming_a_code_activates_its_ability() {
    let mut resource = fixed_resource();
    assert!(!resource.is_code_activated(&CheatCodeKind::Dash));
    assert_eq!(
        resource.activate_code("dash"),
        CheatCodeActivationResult::Activated(CheatCodeKind::Dash)
    );
    assert!(resource.is_code_activated(&CheatCodeKind::Dash));
    assert_eq!(resource.activated_count(), 1);
    for kind in ALL_KINDS.iter() {
        assert_eq!(resource.is_code_activated(kind), *kind == CheatCodeKind::Dash);
    }
}

#[test]
fn every_code_activates_the_ability_it_belongs_to() {
    let mut resource = fixed_resource();
    for (position, kind) in ALL_KINDS.iter().enumerate() {
        assert_eq!(
            resource.activate_code(TEXTS[position]),
            CheatCodeActivationResult::Activated(*kind)
        );
        assert_eq!(resource.activated_count(), position + 1);
    }
    assert!(resource.is_exhausted());
}

#[test]
fn redeeming_twice_reports_already_activated() {
    let mut resource = fixed_resource();
    assert_eq!(
        resource.activate_code("shield"),
        CheatCodeActivationResult::Activated(CheatCodeKind::Shield)
    );
    let count = resource.activated_count();
    assert_eq!(
        resource.activate_code("shield"),
        CheatCodeActivationResult::AlreadyActivated(CheatCodeKind::Shield)
    );
    assert_eq!(resource.activated_count(), count);
    assert_eq!(count, 1);
    assert_eq!(
        resource.activate_code("shield"),
        CheatCodeActivationResult::AlreadyActivated(CheatCodeKind::Shield)
    );
    assert_eq!(resource.activated_count(), 1);
}

#[test]
fn redeeming_a_generated_code_twice_activates_once() {
    let mut resource = CheatCodeResource::new();
    let text = resource.get_code(CheatCodeKind::Fly).text.clone();
    // no shorter code can equal the eight characters of a legendary one, and
    // the two other legendary codes come before Fly
    let first = resource.activate_code(&text);
    let kind = match first {
        CheatCodeActivationResult::Activated(kind) => kind,
        other => panic!("expected an activation, got {:?}", other),
    };
    assert_eq!(resource.get_code(kind).text, text);
    assert_eq!(resource.activated_count(), 1);
    assert_eq!(resource.activate_code(&text), CheatCodeActivationResult::AlreadyActivated(kind));
    assert_eq!(resource.activated_count(), 1);
}

#[test]
fn the_empty_text_is_not_found() {
    let mut resource = fixed_resource();
    assert_eq!(resource.activate_code(""), CheatCodeActivationResult::NotFound);
    assert_eq!(resource.activated_count(), 0);
    let mut resource = CheatCodeResource::new();
    assert_eq!(resource.activate_code(""), CheatCodeActivationResult::NotFound);
    assert_eq!(resource.activated_count(), 0);
}

#[test]
fn a_text_of_the_wrong_length_is_not_found() {
    let mut resource = CheatCodeResource::new();
    for text in ["a", "ab", "abc", "abcde", "abcdefg", "abcdefghi", "abcdefghijklmnop"] {
        assert_eq!(resource.activate_code(text), CheatCodeActivationResult::NotFound);
    }
    assert_eq!(resource.activated_count(), 0);
    assert!(!resource.is_code_activated(&CheatCodeKind::Jump));
}

#[test]
fn a_text_with_other_characters_is_not_found() {
    let mut resource = CheatCodeResource::new();
    for text in ["ju-p", "    ", "dbj mp", "fly_flyf", "\u{e9}\u{e9}\u{e9}\u{e9}"] {
        assert_eq!(resource.activate_code(text), CheatCodeActivationResult::NotFound);
    }
    assert_eq!(resource.activated_count(), 0);
}

#[test]
fn an_unknown_text_leaves_the_state_as_it_was() {
    let mut resource = fixed_resource();
    resource.activate_code("jump");
    resource.activate_code("armr");
    assert_eq!(resource.activate_code("none"), CheatCodeActivationResult::NotFound);
    assert_eq!(resource.activate_code("nothing1"), CheatCodeActivationResult::NotFound);
    assert_eq!(resource.activated_count(), 2);
    for kind in ALL_KINDS.iter() {
        assert_eq!(
            resource.is_code_activated(kind),
            *kind == CheatCodeKind::Jump || *kind == CheatCodeKind::Armor
        );
    }
}

#[test]
fn redemption_is_case_sensitive() {
    let mut resource = fixed_resource();
    assert_eq!(resource.activate_code("JUMP"), CheatCodeActivationResult::NotFound);
    assert_eq!(resource.activate_code("Jump"), CheatCodeActivationResult::NotFound);
    assert_eq!(
        resource.activate_code("jump"),
        CheatCodeActivationResult::Activated(CheatCodeKind::Jump)
    );
}

#[test]
fn a_text_must_match_the_whole_code() {
    let mut resource = fixed_resource();
    assert_eq!(resource.activate_code("jum"), CheatCodeActivationResult::NotFound);
    assert_eq!(resource.activate_code("jump "), CheatCodeActivationResult::NotFound);
    assert_eq!(resource.activate_code("dbjum"), CheatCodeActivationResult::NotFound);
    assert_eq!(resource.activated_count(), 0);
}

#[test]
fn of_two_abilities_with_one_code_the_first_in_the_catalog_wins() {
    let mut texts: Vec<String> = TEXTS.iter().map(|text| text.to_string()).collect();
    // Crouch, Attack and Dash share a code
    texts[1] = "same".to_string();
    texts[2] = "same".to_string();
    texts[10] = "same".to_string();
    let mut resource = CheatCodeResource::with_codes(&texts).unwrap();
    assert_eq!(
        resource.activate_code("same"),
        CheatCodeActivationResult::Activated(CheatCodeKind::Crouch)
    );
    assert_eq!(
        resource.activate_code("same"),
        CheatCodeActivationResult::AlreadyActivated(CheatCodeKind::Crouch)
    );
    assert!(!resource.is_code_activated(&CheatCodeKind::Attack));
    assert!(!resource.is_code_activated(&CheatCodeKind::Dash));
    assert_eq!(resource.activated_count(), 1);
}

#[test]
fn redemption_does_not_ask_for_the_prerequisites() {
    let mut resource = fixed_resource();
    assert_eq!(
        resource.activate_code("flyflyfl"),
        CheatCodeActivationResult::Activated(CheatCodeKind::Fly)
    );
    assert!(resource.is_code_activated(&CheatCodeKind::Fly));
    assert!(!resource.is_code_activated(&CheatCodeKind::Jump));
}

#[test]
fn repr_of_each_outcome() {
    assert_eq!(
        CheatCodeActivationResult::Activated(CheatCodeKind::Jump).repr(),
        "[Jump] cheat code successfully activated"
    );
    assert_eq!(
        CheatCodeActivationResult::Activated(CheatCodeKind::SpeedBoost4).repr(),
        "[SpeedBoost4] cheat code successfully activated"
    );
    assert_eq!(
        CheatCodeActivationResult::AlreadyActivated(CheatCodeKind::DoubleJump).repr(),
        "[DoubleJump] already activated"
    );
    assert_eq!(
        CheatCodeActivationResult::NotFound.repr(),
        "cheat code not recognized by the system"
    );
}

#[test]
fn repr_names_every_kind_as_its_variant() {
    for kind in ALL_KINDS.iter() {
        assert_eq!(
            CheatCodeActivationResult::Activated(*kind).repr(),
            format!("[{:?}] cheat code successfully activated", kind)
        );
        assert_eq!(
            CheatCodeActivationResult::AlreadyActivated(*kind).repr(),
            format!("[{:?}] already activated", kind)
        );
    }
}
