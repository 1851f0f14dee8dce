use vikey::engine::Engine;
use vikey::plugin::{LanguagePlugin, VietnamesePlugin};
use vikey::types::Action;

#[test]
fn debug_tone_simple() {
    let mut engine = Engine::new();
    engine.register(LanguagePlugin::Vietnamese(VietnamesePlugin::new())).unwrap();
    engine.set_language("vietnamese").unwrap();
    engine.set_input_method("telex_v2").unwrap();

    let a1 = engine.process('h');
    println!("After 'h': {:?}", a1);
    let a2 = engine.process('o');
    println!("After 'o': {:?}", a2);
    let a3 = engine.process('a');
    println!("After 'a': {:?}", a3);
    let a4 = engine.process('s');
    println!("After 's': {:?}", a4);

    let mut output = String::new();
    for action in [a1, a2, a3, a4] {
        match action {
            Action::Replace { backspace_count, ref text } => {
                for _ in 0..backspace_count {
                    output.pop();
                }
                output.push_str(text);
            }
            Action::Commit(ref text) => {
                output.push_str(text);
            }
            _ => {}
        }
    }

    println!("Final output: '{}'", output);
    println!("Expected: 'hoá'");

    assert_eq!(output, "hoá");
}
