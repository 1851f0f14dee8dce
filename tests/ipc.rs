use vikey::engine::Engine;
use vikey::ipc::{process_request, to_wire, Action, IpcClient, IpcRequest, IpcResponse, Transport};
use vikey::plugin::{LanguagePlugin, VietnamesePlugin};
use vikey::types::Action as EngineAction;
use vikey::viet_types::{MarkType, ToneType, TransformEffect, Transformation};

fn telex_engine() -> Engine {
    let mut engine = Engine::new();
    engine.register(LanguagePlugin::Vietnamese(VietnamesePlugin::new())).unwrap();
    engine.set_language("vietnamese").unwrap();
    engine.set_input_method("telex").unwrap();
    engine
}

#[test]
fn requests_are_answered_in_wire_form() {
    let mut engine = telex_engine();
    assert_eq!(process_request(IpcRequest::Ping, &mut engine), IpcResponse::Pong);
    assert_eq!(
        process_request(IpcRequest::ProcessKey('a'), &mut engine),
        IpcResponse::Action(Action::Replace { delete: 0, insert: "a".to_string() })
    );
    assert_eq!(
        process_request(IpcRequest::ProcessKey('s'), &mut engine),
        IpcResponse::Action(Action::Replace { delete: 1, insert: "á".to_string() })
    );
    assert_eq!(
        process_request(IpcRequest::ProcessBackspace, &mut engine),
        IpcResponse::Action(Action::Replace { delete: 1, insert: "a".to_string() })
    );
    assert_eq!(
        process_request(IpcRequest::Reset, &mut engine),
        IpcResponse::Action(Action::DoNothing)
    );
    assert_eq!(
        process_request(IpcRequest::ProcessBackspace, &mut engine),
        IpcResponse::Action(Action::DoNothing)
    );
}

#[test]
fn commit_becomes_replace_without_delete() {
    assert_eq!(
        to_wire(EngineAction::Commit("x".to_string())),
        Action::Replace { delete: 0, insert: "x".to_string() }
    );
    assert_eq!(to_wire(EngineAction::DoNothing), Action::DoNothing);
}

struct Canned(Result<IpcResponse, String>);

impl Transport for Canned {
    fn exchange(&mut self, _request: &IpcRequest) -> Result<IpcResponse, String> {
        self.0.clone()
    }
}

#[test]
fn client_interprets_responses() {
    let mut client = IpcClient::new();
    assert!(!client.is_connected());
    assert_eq!(client.pipe_path(), r"\\.\pipe\vikey-broker");
    let mut ok = Canned(Ok(IpcResponse::Action(Action::DoNothing)));
    assert_eq!(client.process_key(&mut ok, 'a'), Err("Not connected".to_string()));
    client.set_connected(true);
    assert_eq!(client.process_key(&mut ok, 'a'), Ok(Action::DoNothing));
    assert_eq!(client.reset(&mut ok), Ok(()));
    let mut pong = Canned(Ok(IpcResponse::Pong));
    assert_eq!(client.process_backspace(&mut pong), Err("Unexpected response".to_string()));
    let mut err = Canned(Ok(IpcResponse::Error("boom".to_string())));
    assert_eq!(client.reset(&mut err), Err("boom".to_string()));
    let mut broken = Canned(Err("Read error".to_string()));
    assert_eq!(client.process_backspace(&mut broken), Err("Read error".to_string()));
}

#[test]
fn transformation_records() {
    let a = Transformation::new_append('a');
    assert_eq!(a.effect, TransformEffect::Append);
    assert_eq!(a.target_pos, None);
    let t = Transformation::new_tone('s', ToneType::Acute, 2);
    assert_eq!((t.effect, t.tone, t.mark, t.target_pos), (TransformEffect::Tone, ToneType::Acute, MarkType::NoMark, Some(2)));
    let m = Transformation::new_mark('w', MarkType::Horn, 1);
    assert_eq!((m.effect, m.tone, m.mark, m.target_pos), (TransformEffect::Mark, ToneType::NoTone, MarkType::Horn, Some(1)));
}
