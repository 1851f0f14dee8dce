use vikey::lookup_table::InputMethod;
use vikey::processor::Processor;
use vikey::types::{Action, Config};
use vikey::viet_types::{MarkType, TransformEffect};

fn create_telex_processor() -> Processor {
    Processor::new(InputMethod::Telex)
}

fn create_config() -> Config {
    Config::default()
}

#[test]
fn test_double_char_a() {
    let mut proc = create_telex_processor();
    let config = create_config();

    let action1 = proc.process('a', &config);
    assert_eq!(action1, Action::DoNothing);

    let action2 = proc.process('a', &config);
    assert_eq!(
        action2,
        Action::Replace {
            backspace_count: 1,
            text: "â".to_string()
        }
    );
    assert_eq!(proc.buffer_content(), "â");
}

#[test]
fn test_double_char_uppercase() {
    let mut proc = create_telex_processor();
    let config = create_config();

    proc.process('A', &config);
    let action = proc.process('a', &config);

    assert_eq!(
        action,
        Action::Replace {
            backspace_count: 1,
            text: "Â".to_string()
        }
    );
    assert_eq!(proc.buffer_content(), "Â");
}

#[test]
fn test_double_char_d() {
    let mut proc = create_telex_processor();
    let config = create_config();

    proc.process('d', &config);
    let action = proc.process('d', &config);

    assert_eq!(
        action,
        Action::Replace {
            backspace_count: 1,
            text: "đ".to_string()
        }
    );
    assert_eq!(proc.buffer_content(), "đ");
}

#[test]
fn test_breve_a() {
    let mut proc = create_telex_processor();
    let config = create_config();

    proc.process('a', &config);
    let action = proc.process('w', &config);

    assert_eq!(
        action,
        Action::Replace {
            backspace_count: 1,
            text: "ă".to_string()
        }
    );
    assert_eq!(proc.buffer_content(), "ă");
}

#[test]
fn test_breve_o() {
    let mut proc = create_telex_processor();
    let config = create_config();

    proc.process('o', &config);
    let action = proc.process('w', &config);

    assert_eq!(
        action,
        Action::Replace {
            backspace_count: 1,
            text: "ơ".to_string()
        }
    );
    assert_eq!(proc.buffer_content(), "ơ");
}

#[test]
fn test_breve_u() {
    let mut proc = create_telex_processor();
    let config = create_config();

    proc.process('u', &config);
    let action = proc.process('w', &config);

    assert_eq!(
        action,
        Action::Replace {
            backspace_count: 1,
            text: "ư".to_string()
        }
    );
    assert_eq!(proc.buffer_content(), "ư");
}

#[test]
fn test_backspace() {
    let mut proc = create_telex_processor();
    let config = create_config();

    proc.process('a', &config);
    proc.process('a', &config);

    let action = proc.process_backspace();
    assert_eq!(
        action,
        Action::Replace {
            backspace_count: 1,
            text: String::new()
        }
    );
    assert_eq!(proc.buffer_content(), "");
}

#[test]
fn test_separator_commits() {
    let mut proc = create_telex_processor();
    let config = create_config();

    proc.process('a', &config);
    proc.process('a', &config);

    let action = proc.process(' ', &config);
    assert_eq!(action, Action::Commit("â".to_string()));
    assert_eq!(proc.buffer_content(), "");
}

#[test]
fn test_transformation_tracking() {
    let mut proc = create_telex_processor();
    let config = create_config();

    proc.process('a', &config);
    assert_eq!(proc.transformations().len(), 1);

    proc.process('a', &config);
    assert_eq!(proc.transformations().len(), 2);
    assert_eq!(proc.transformations()[1].effect, TransformEffect::Mark);
    assert_eq!(proc.transformations()[1].mark, MarkType::Circumflex);
}

#[test]
fn test_tone_single_vowel() {
    let mut proc = create_telex_processor();
    let config = create_config();

    proc.process('a', &config);
    let action = proc.process('s', &config);

    assert_eq!(
        action,
        Action::Replace {
            backspace_count: 1,
            text: "á".to_string()
        }
    );
    assert_eq!(proc.buffer_content(), "á");
}

#[test]
fn test_tone_diphthong_oa_modern() {
    let mut proc = create_telex_processor();
    let config = create_config();

    proc.process('h', &config);
    proc.process('o', &config);
    proc.process('a', &config);
    let action = proc.process('s', &config);

    assert_eq!(
        action,
        Action::Replace {
            backspace_count: 2,
            text: "oá".to_string()
        }
    );
    assert_eq!(proc.buffer_content(), "hoá");
}

#[test]
fn test_tone_all_types() {
    let mut proc = create_telex_processor();
    let config = create_config();

    proc.process('a', &config);
    proc.process('s', &config);
    assert_eq!(proc.buffer_content(), "á");
    proc.reset();

    proc.process('a', &config);
    proc.process('f', &config);
    assert_eq!(proc.buffer_content(), "à");
    proc.reset();

    proc.process('a', &config);
    proc.process('r', &config);
    assert_eq!(proc.buffer_content(), "ả");
    proc.reset();

    proc.process('a', &config);
    proc.process('x', &config);
    assert_eq!(proc.buffer_content(), "ã");
    proc.reset();

    proc.process('a', &config);
    proc.process('j', &config);
    assert_eq!(proc.buffer_content(), "ạ");
}

#[test]
fn test_tone_with_circumflex() {
    let mut proc = create_telex_processor();
    let config = create_config();

    proc.process('a', &config);
    proc.process('a', &config);
    let action = proc.process('s', &config);

    assert_eq!(
        action,
        Action::Replace {
            backspace_count: 1,
            text: "ấ".to_string()
        }
    );
    assert_eq!(proc.buffer_content(), "ấ");
}

#[test]
fn test_tone_replacement() {
    let mut proc = create_telex_processor();
    let config = create_config();

    proc.process('a', &config);
    proc.process('s', &config);
    let action = proc.process('f', &config);

    assert_eq!(
        action,
        Action::Replace {
            backspace_count: 1,
            text: "à".to_string()
        }
    );
    assert_eq!(proc.buffer_content(), "à");
}

#[test]
fn classical_orthography_and_uppercase_tones() {
    let mut proc = create_telex_processor();
    let mut config = create_config();
    config.modern_orthography = false;
    for c in "hoa".chars() {
        proc.process(c, &config);
    }
    assert_eq!(
        proc.process('s', &config),
        Action::Replace { backspace_count: 2, text: "óa".to_string() }
    );
    proc.reset();
    proc.process('A', &config);
    proc.process('s', &config);
    proc.process('f', &config);
    assert_eq!(proc.buffer_content(), "À");
    assert_eq!(proc.process('é', &config), Action::DoNothing);
    assert_eq!(proc.process(' ', &config), Action::Commit("À".to_string()));
    assert_eq!(proc.process(' ', &config), Action::DoNothing);
    assert_eq!(proc.process_backspace(), Action::DoNothing);
}
