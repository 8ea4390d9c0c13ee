use cueplayer::command::{parse_command, parse_line, Command, Verb};
use cueplayer::cue::CueAction;
use cueplayer::invocation::{decimal_text, invocation_for, millis_arg, PLAYER};
use cueplayer::number::parse_u32;

fn words(s: &[&str]) -> Vec<String> {
    s.iter().map(|w| w.to_string()).collect()
}

#[test]
fn decimal_text_values() {
    assert_eq!(decimal_text(0), "0");
    assert_eq!(decimal_text(7), "7");
    assert_eq!(decimal_text(10), "10");
    assert_eq!(decimal_text(305), "305");
    assert_eq!(decimal_text(u32::MAX), "4294967295");
    assert_eq!(millis_arg(250), "250ms");
}

#[test]
fn play_invocation_with_fades() {
    let a = CueAction::Play { file: "a.wav".to_string(), fade_in: Some(500), fade_out: Some(1200) };
    let inv = invocation_for(3, &a).unwrap();
    assert_eq!(inv.cue_id, 3);
    assert_eq!(inv.program, PLAYER);
    assert_eq!(inv.args, words(&["a.wav", "--fade-in", "500ms", "--fade-out", "1200ms"]));
}

#[test]
fn play_invocation_fade_out_only() {
    let a = CueAction::Play { file: "b.wav".to_string(), fade_in: None, fade_out: Some(0) };
    let inv = invocation_for(1, &a).unwrap();
    assert_eq!(inv.args, words(&["b.wav", "--fade-out", "0ms"]));
}

#[test]
fn stop_action_has_no_invocation() {
    let a = CueAction::Stop { cue_id: 2, fade_out: Some(10) };
    assert!(invocation_for(1, &a).is_none());
}

#[test]
fn parse_u32_cases() {
    assert_eq!(parse_u32("0"), Some(0));
    assert_eq!(parse_u32("42"), Some(42));
    assert_eq!(parse_u32("+5"), Some(5));
    assert_eq!(parse_u32("007"), Some(7));
    assert_eq!(parse_u32("4294967295"), Some(u32::MAX));
    assert_eq!(parse_u32("4294967296"), None);
    assert_eq!(parse_u32("99999999999999999999"), None);
    assert_eq!(parse_u32(""), None);
    assert_eq!(parse_u32("+"), None);
    assert_eq!(parse_u32("-1"), None);
    assert_eq!(parse_u32("12a"), None);
    assert_eq!(parse_u32("++1"), None);
}

#[test]
fn parse_u32_agrees_with_std() {
    for s in ["1", "+0", "65536", "4294967295", "4294967296", "x", "", " 1", "1_0"] {
        assert_eq!(parse_u32(s), s.parse::<u32>().ok(), "on {:?}", s);
    }
}

#[test]
fn define_command() {
    assert_eq!(
        parse_command(&words(&["define", "cue", "1", "play", "a.wav"])),
        Command::Define { id: 1, file: "a.wav".to_string() }
    );
    assert_eq!(
        parse_command(&words(&["define", "play", "b.wav", "cue", "2"])),
        Command::Define { id: 2, file: "b.wav".to_string() }
    );
    assert_eq!(parse_command(&words(&["define", "cue", "x", "play", "a.wav"])), Command::InvalidDefine);
    assert_eq!(parse_command(&words(&["define", "cue", "1", "play"])), Command::InvalidDefine);
    assert_eq!(parse_command(&words(&["define"])), Command::InvalidDefine);
    assert_eq!(
        parse_command(&words(&["define", "cue", "1", "cue", "bad", "play", "a.wav"])),
        Command::InvalidDefine
    );
}

#[test]
fn id_commands() {
    assert_eq!(parse_command(&words(&["goto", "3"])), Command::Goto(3));
    assert_eq!(parse_command(&words(&["stop", "3"])), Command::Stop(3));
    assert_eq!(parse_command(&words(&["remove", "3"])), Command::Remove(3));
    assert_eq!(parse_command(&words(&["goto"])), Command::Usage(Verb::Goto));
    assert_eq!(parse_command(&words(&["stop"])), Command::Usage(Verb::Stop));
    assert_eq!(parse_command(&words(&["remove"])), Command::Usage(Verb::Remove));
    assert_eq!(parse_command(&words(&["stop", "one"])), Command::InvalidId);
    assert_eq!(parse_command(&words(&["8"])), Command::Goto(8));
}

#[test]
fn plain_commands() {
    assert_eq!(parse_command(&words(&[])), Command::Empty);
    assert_eq!(parse_command(&words(&["go"])), Command::Go);
    assert_eq!(parse_command(&words(&["show"])), Command::Show);
    assert_eq!(parse_command(&words(&["list"])), Command::Show);
    assert_eq!(parse_command(&words(&["exit"])), Command::Exit);
    assert_eq!(parse_command(&words(&["quit"])), Command::Exit);
    assert_eq!(parse_command(&words(&["dance"])), Command::Unknown("dance".to_string()));
}

#[test]
fn line_is_split_at_white_space() {
    assert_eq!(parse_line("  goto\t 7  "), Command::Goto(7));
    assert_eq!(parse_line(""), Command::Empty);
    assert_eq!(parse_line("   "), Command::Empty);
    assert_eq!(
        parse_line("define  cue 1   play a.wav"),
        Command::Define { id: 1, file: "a.wav".to_string() }
    );
}
