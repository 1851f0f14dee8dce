use vikey::engine::Engine;
use vikey::plugin::{LanguagePlugin, VietnamesePlugin};
use vikey::telex::TelexMethodV2;
use vikey::buffer::InputBuffer;
use vikey::viet_lookup::VietnameseLookup;
use vikey::types::Action;

fn fresh_engine() -> Engine {
    let mut engine = Engine::new();
    engine.register(LanguagePlugin::Vietnamese(VietnamesePlugin::new())).unwrap();
    engine.set_language("vietnamese").unwrap();
    engine.set_input_method("telex").unwrap();
    engine
}

fn is_separator(c: char) -> bool {
    " \n\t\r.,!?;:-_()[]{}\"'".contains(c)
}

/// Applies an action as a shim does; a separator is appended after its
/// replacement, and a key passes through on DoNothing.
fn apply(doc: &mut String, action: &Action, key: char) {
    match action {
        Action::DoNothing => doc.push(key),
        Action::Commit(text) => doc.push_str(text),
        Action::Replace { backspace_count, text } => {
            for _ in 0..*backspace_count {
                doc.pop();
            }
            doc.push_str(text);
            if is_separator(key) {
                doc.push(key);
            }
        }
    }
}

fn type_all(engine: &mut Engine, input: &str) -> (String, Vec<Action>) {
    let mut doc = String::new();
    let mut actions = Vec::new();
    for c in input.chars() {
        let a = engine.process(c);
        apply(&mut doc, &a, c);
        actions.push(a);
    }
    (doc, actions)
}

#[test]
fn scenario_hoas() {
    assert_eq!(type_all(&mut fresh_engine(), "hoas").0, "hoá");
}

#[test]
fn scenario_aa() {
    assert_eq!(type_all(&mut fresh_engine(), "aa").0, "â");
}

#[test]
fn scenario_duongwf() {
    assert_eq!(type_all(&mut fresh_engine(), "duongwf").0, "dường");
}

#[test]
fn scenario_tuowngs() {
    assert_eq!(type_all(&mut fresh_engine(), "tuowngs").0, "tướng");
}

#[test]
fn scenario_chuyeenr() {
    assert_eq!(type_all(&mut fresh_engine(), "chuyeenr").0, "chuyển");
}

#[test]
fn scenario_toanf_z_s() {
    let (doc, actions) = type_all(&mut fresh_engine(), "toanfzs");
    let renderings: Vec<String> = actions
        .iter()
        .map(|a| match a {
            Action::Replace { text, .. } => text.clone(),
            _ => panic!("unexpected action {:?}", a),
        })
        .collect();
    assert_eq!(renderings, vec!["t", "to", "toa", "toan", "toàn", "toan", "toán"]);
    assert_eq!(doc, "toán");
}

#[test]
fn boundary_aas() {
    assert_eq!(type_all(&mut fresh_engine(), "aas").0, "ấ");
}

#[test]
fn boundary_tone_key_without_vowel_passes_through() {
    let mut engine = fresh_engine();
    assert_eq!(engine.process('f'), Action::DoNothing);
    assert_eq!(engine.process('j'), Action::DoNothing);
}

#[test]
fn boundary_z_removes_tone() {
    assert_eq!(type_all(&mut fresh_engine(), "asz").0, "a");
}

#[test]
fn replay_equals_parse_of_history() {
    for input in ["nguyeenx", "ddaauf", "thuowngf", "hoaf", "quas", "khuyeenj"] {
        let mut engine = fresh_engine();
        let (doc, _) = type_all(&mut engine, input);
        let mut method = TelexMethodV2::new();
        let mut buffer = InputBuffer::new();
        let lookup = VietnameseLookup::new_telex();
        for c in input.chars() {
            method.process(c, &mut buffer, &lookup);
        }
        assert_eq!(doc, method.syllable().to_string(), "input {}", input);
        assert_eq!(engine.buffer_content(), doc);
    }
}

#[test]
fn backspace_inverts_type() {
    let mut engine = fresh_engine();
    let (doc, _) = type_all(&mut engine, "tuon");
    assert_eq!(doc, "tuon");
    let typed = engine.process('g');
    assert_eq!(typed, Action::Replace { backspace_count: 4, text: "tuong".to_string() });
    let back = engine.process_backspace();
    assert_eq!(back, Action::Replace { backspace_count: 5, text: "tuon".to_string() });
    let again = engine.process('g');
    assert_eq!(again, typed);
}

#[test]
fn separator_commits_word() {
    let (doc, actions) = type_all(&mut fresh_engine(), "vieetj ");
    assert_eq!(doc, "việt ");
    assert_eq!(
        actions.last().unwrap(),
        &Action::Replace { backspace_count: 4, text: "việt".to_string() }
    );
    let (doc, _) = type_all(&mut fresh_engine(), "hoa,");
    assert_eq!(doc, "hoa,");
}

#[test]
fn latest_tone_wins() {
    assert_eq!(type_all(&mut fresh_engine(), "asf").0, "à");
    assert_eq!(type_all(&mut fresh_engine(), "hoajx").0, "hoã");
}

#[test]
fn rejected_key_breaks_the_word() {
    let mut engine = fresh_engine();
    let (doc, actions) = type_all(&mut engine, "banb");
    assert_eq!(doc, "banb");
    assert_eq!(
        actions.last().unwrap(),
        &Action::Replace { backspace_count: 3, text: "banb".to_string() }
    );
    let (doc2, _) = type_all(&mut engine, "a");
    assert_eq!(doc2, "ba");
}

#[test]
fn backspace_on_empty_history_does_nothing() {
    let mut engine = fresh_engine();
    assert_eq!(engine.process_backspace(), Action::DoNothing);
}

#[test]
fn key_rejected_alone_passes_through_after_word() {
    let mut engine = fresh_engine();
    let (doc, actions) = type_all(&mut engine, "thuowngw");
    assert_eq!(doc, "thươngw");
    assert_eq!(actions.last().unwrap(), &Action::DoNothing);
    assert_eq!(engine.process_backspace(), Action::DoNothing);
}
