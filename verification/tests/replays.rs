use rnpm::command::Command;
use rnpm::event::{Event, Key};
use rnpm::select::Select;
use rnpm::session::{Input, Outcome, Resized, SelectError, Size};

fn down() -> Input {
    Input::Event(Event::key(Key::Down))
}

fn up() -> Input {
    Input::Event(Event::key(Key::Up))
}

fn enter() -> Input {
    Input::Event(Event::key(Key::Enter))
}

fn raw_after(commands: &[Command<&str>]) -> bool {
    let mut raw = false;
    for command in commands {
        match command {
            Command::EnableRawMode => raw = true,
            Command::DisableRawMode => raw = false,
            _ => {}
        }
    }
    raw
}

#[test]
fn two_downs_and_enter_return_lint() {
    let options = vec!["build", "test", "lint"];
    let mut select = Select::new(&options);
    let transcript = select.display(&vec![down(), down(), enter()]).unwrap();
    assert_eq!(transcript.outcome, Outcome::Committed("lint"));
    assert_eq!(select.highlighted_index(), 2);
}

#[test]
fn up_and_enter_return_lint() {
    let options = vec!["build", "test", "lint"];
    let mut select = Select::new(&options);
    let transcript = select.display(&vec![up(), enter()]).unwrap();
    assert_eq!(transcript.outcome, Outcome::Committed("lint"));
}

#[test]
fn enter_alone_returns_build() {
    let options = vec!["build", "test", "lint"];
    let mut select = Select::new(&options);
    let transcript = select.display(&vec![enter()]).unwrap();
    assert_eq!(transcript.outcome, Outcome::Committed("build"));
    assert_eq!(select.highlighted_index(), 0);
}

#[test]
fn downs_then_enter_return_the_option_at_the_remainder() {
    let options = vec!["a", "b", "c", "d", "e"];
    for count in 0..23usize {
        let mut inputs = vec![down(); count];
        inputs.push(enter());
        let mut select = Select::new(&options);
        let transcript = select.display(&inputs).unwrap();
        assert_eq!(transcript.outcome, Outcome::Committed(options[count % options.len()]));
        assert_eq!(select.highlighted_index(), count % options.len());
    }
}

#[test]
fn ups_then_enter_count_backwards_round_the_list() {
    let options = vec!["a", "b", "c", "d"];
    let mut select = Select::new(&options);
    let transcript = select.display(&vec![up(), up(), up(), up(), up(), enter()]).unwrap();
    assert_eq!(transcript.outcome, Outcome::Committed("d"));
}

#[test]
fn raw_mode_is_off_after_a_confirmation() {
    let options = vec!["build", "test", "lint"];
    let mut select = Select::new(&options);
    let transcript = select.display(&vec![down(), enter()]).unwrap();
    assert_eq!(transcript.commands.first(), Some(&Command::EnableRawMode));
    assert_eq!(transcript.commands.last(), Some(&Command::DisableRawMode));
    assert!(!raw_after(&transcript.commands));
}

#[test]
fn raw_mode_is_on_while_the_session_is_pending() {
    let options = vec!["build", "test", "lint"];
    let mut select = Select::new(&options);
    let transcript = select.display(&vec![down(), up(), down()]).unwrap();
    assert_eq!(transcript.outcome, Outcome::Pending);
    assert!(raw_after(&transcript.commands));
    assert_eq!(select.highlighted_index(), 1);
}

#[test]
fn raw_mode_is_off_after_an_interrupt_or_a_failure() {
    let options = vec!["build", "test", "lint"];
    let mut select = Select::new(&options);
    let interrupt = Input::Event(Event::control(Key::Char('c')));
    let transcript = select.display(&vec![down(), interrupt, enter()]).unwrap();
    assert_eq!(transcript.outcome, Outcome::Aborted);
    assert!(!raw_after(&transcript.commands));

    let transcript = select.display(&vec![Input::Failure]).unwrap();
    assert_eq!(transcript.outcome, Outcome::Failed);
    assert!(!raw_after(&transcript.commands));
}

#[test]
fn display_refuses_an_empty_list() {
    let options: Vec<&str> = Vec::new();
    let mut select = Select::new(&options);
    let shown = select.display(&vec![enter()]);
    assert_eq!(shown.err(), Some(SelectError::NoOptions));
    assert_eq!(select.highlighted_index(), 0);
}

#[test]
fn display_without_inputs_paints_once_and_waits() {
    let options = vec!["build", "test"];
    let mut select = Select::new(&options);
    let transcript = select.display(&Vec::new()).unwrap();
    assert_eq!(
        transcript.commands,
        vec![
            Command::EnableRawMode,
            Command::SetForegroundColor { r: 28, g: 234, b: 213 },
            Command::Print("> "),
            Command::ResetColor,
            Command::Print("build"),
            Command::Print("\r\n"),
            Command::Print("test"),
            Command::Print("\r\n"),
        ]
    );
    assert_eq!(transcript.resizes, Vec::new());
    assert_eq!(transcript.outcome, Outcome::Pending);
}

#[test]
fn display_gives_every_command_in_order() {
    let options = vec!["build", "test"];
    let mut select = Select::new(&options);
    let transcript = select.display(&vec![down(), enter()]).unwrap();
    assert_eq!(
        transcript.commands,
        vec![
            Command::EnableRawMode,
            Command::SetForegroundColor { r: 28, g: 234, b: 213 },
            Command::Print("> "),
            Command::ResetColor,
            Command::Print("build"),
            Command::Print("\r\n"),
            Command::Print("test"),
            Command::Print("\r\n"),
            Command::MoveUp(2),
            Command::ClearFromCursorDown,
            Command::Print("build"),
            Command::Print("\r\n"),
            Command::SetForegroundColor { r: 28, g: 234, b: 213 },
            Command::Print("> "),
            Command::ResetColor,
            Command::Print("test"),
            Command::Print("\r\n"),
            Command::MoveUp(2),
            Command::ClearFromCursorDown,
            Command::Print("build"),
            Command::Print("\r\n"),
            Command::SetForegroundColor { r: 28, g: 234, b: 213 },
            Command::Print("> "),
            Command::ResetColor,
            Command::Print("test"),
            Command::Print("\r\n"),
            Command::DisableRawMode,
        ]
    );
}

#[test]
fn display_starts_at_the_first_option_every_time() {
    let options = vec!["build", "test", "lint"];
    let mut select = Select::new(&options);
    select.next();
    select.next();
    let transcript = select.display(&vec![enter()]).unwrap();
    assert_eq!(transcript.outcome, Outcome::Committed("build"));
    assert_eq!(select.highlighted_index(), 0);

    let transcript = select.display(&vec![down(), enter()]).unwrap();
    assert_eq!(transcript.outcome, Outcome::Committed("test"));
    assert_eq!(select.highlighted_index(), 1);
    let again = select.display(&vec![down(), enter()]).unwrap();
    assert_eq!(again.outcome, Outcome::Committed("test"));
    assert_eq!(again.commands, transcript.commands);
    let plain = select.display(&vec![enter()]).unwrap();
    assert_eq!(plain.outcome, Outcome::Committed("build"));
}

#[test]
fn a_failure_after_the_confirmation_fails_the_session() {
    let options = vec!["build", "test", "lint"];
    let mut select = Select::new(&options);
    let transcript = select.display(&vec![down(), enter(), Input::Failure]).unwrap();
    assert_eq!(transcript.outcome, Outcome::Failed);
    assert_eq!(transcript.commands.last(), Some(&Command::DisableRawMode));
    assert!(!raw_after(&transcript.commands));
}

#[test]
fn display_reports_a_burst_once() {
    let options = vec!["build", "test", "lint"];
    let mut select = Select::new(&options);
    let inputs = vec![
        Input::Event(Event::Resize(80, 24)),
        Input::Event(Event::Resize(90, 24)),
        Input::Event(Event::Resize(100, 50)),
        Input::Quiet,
        down(),
        enter(),
    ];
    let transcript = select.display(&inputs).unwrap();
    assert_eq!(
        transcript.resizes,
        vec![Resized {
            first: Size { columns: 80, rows: 24 },
            last: Size { columns: 100, rows: 50 },
        }]
    );
    assert_eq!(transcript.outcome, Outcome::Committed("test"));
}
