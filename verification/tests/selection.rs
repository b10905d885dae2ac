use rnpm::command::Command;
use rnpm::select::Select;

fn line_ends(commands: &[Command<&str>]) -> usize {
    commands.iter().filter(|c| **c == Command::Print("\r\n")).count()
}

#[test]
fn new_highlights_the_first_option() {
    let options = vec!["build", "test", "lint"];
    let select = Select::new(&options);
    assert_eq!(select.highlighted_index(), 0);
    assert_eq!(select.len(), 3);
    assert_eq!(select.selected(), Some("build"));
}

#[test]
fn next_steps_forward_and_wraps_to_the_first() {
    let options = vec!["build", "test", "lint"];
    let mut select = Select::new(&options);
    select.next();
    assert_eq!(select.highlighted_index(), 1);
    select.next();
    assert_eq!(select.highlighted_index(), 2);
    assert_eq!(select.selected(), Some("lint"));
    select.next();
    assert_eq!(select.highlighted_index(), 0);
    assert_eq!(select.selected(), Some("build"));
}

#[test]
fn prev_wraps_to_the_last_and_steps_back() {
    let options = vec!["build", "test", "lint"];
    let mut select = Select::new(&options);
    select.prev();
    assert_eq!(select.highlighted_index(), 2);
    assert_eq!(select.selected(), Some("lint"));
    select.prev();
    assert_eq!(select.highlighted_index(), 1);
    select.prev();
    assert_eq!(select.highlighted_index(), 0);
}

#[test]
fn as_many_moves_as_options_come_full_circle() {
    let options = vec!["a", "b", "c", "d", "e"];
    for start in 0..options.len() {
        let mut select = Select::new(&options);
        for _ in 0..start {
            select.next();
        }
        assert_eq!(select.highlighted_index(), start);
        for _ in 0..options.len() {
            select.next();
        }
        assert_eq!(select.highlighted_index(), start);
        for _ in 0..options.len() {
            select.prev();
        }
        assert_eq!(select.highlighted_index(), start);
    }
}

#[test]
fn moves_never_leave_the_list() {
    let options = vec!["a", "b", "c", "d"];
    let mut select = Select::new(&options);
    let moves = [true, true, false, true, true, true, false, false, false, false, false, true];
    for forward in moves {
        if forward {
            select.next();
        } else {
            select.prev();
        }
        assert!(select.highlighted_index() < options.len());
    }
    assert_eq!(select.highlighted_index(), 0);
}

#[test]
fn a_single_option_stays_highlighted() {
    let options = vec!["only"];
    let mut select = Select::new(&options);
    select.next();
    assert_eq!(select.highlighted_index(), 0);
    select.prev();
    assert_eq!(select.highlighted_index(), 0);
    assert_eq!(select.selected(), Some("only"));
}

#[test]
fn an_empty_list_has_nothing_selected() {
    let options: Vec<&str> = Vec::new();
    let mut select = Select::new(&options);
    assert_eq!(select.selected(), None);
    select.next();
    assert_eq!(select.highlighted_index(), 0);
    select.prev();
    assert_eq!(select.highlighted_index(), 0);
    assert_eq!(select.len(), 0);
    assert_eq!(select.render(), Vec::<Command<&str>>::new());
    assert_eq!(select.erase(), vec![Command::ClearFromCursorDown]);
}

#[test]
fn render_paints_one_row_per_option_in_order() {
    let options = vec!["build", "test", "lint"];
    let select = Select::new(&options);
    assert_eq!(
        select.render(),
        vec![
            Command::SetForegroundColor { r: 28, g: 234, b: 213 },
            Command::Print("> "),
            Command::ResetColor,
            Command::Print("build"),
            Command::Print("\r\n"),
            Command::Print("test"),
            Command::Print("\r\n"),
            Command::Print("lint"),
            Command::Print("\r\n"),
        ]
    );
}

#[test]
fn render_marks_the_highlighted_row_only() {
    let options = vec!["build", "test", "lint"];
    let mut select = Select::new(&options);
    select.next();
    assert_eq!(
        select.render(),
        vec![
            Command::Print("build"),
            Command::Print("\r\n"),
            Command::SetForegroundColor { r: 28, g: 234, b: 213 },
            Command::Print("> "),
            Command::ResetColor,
            Command::Print("test"),
            Command::Print("\r\n"),
            Command::Print("lint"),
            Command::Print("\r\n"),
        ]
    );
}

#[test]
fn render_is_the_same_when_nothing_changed() {
    let options = vec!["build", "test", "lint", "fmt"];
    let mut select = Select::new(&options);
    select.prev();
    let first = select.render();
    let second = select.render();
    assert_eq!(first, second);
    assert_eq!(first.len(), 2 * options.len() + 3);
    assert_eq!(line_ends(&first), options.len());
    assert_eq!(select.highlighted_index(), 3);
}

#[test]
fn render_keeps_the_order_of_the_list() {
    let options = vec!["zeta", "alpha", "mid"];
    let select = Select::new(&options);
    let printed: Vec<&str> = select
        .render()
        .into_iter()
        .filter_map(|c| match c {
            Command::Print(text) if text != "\r\n" && text != "> " => Some(text),
            _ => None,
        })
        .collect();
    assert_eq!(printed, options);
}

#[test]
fn erase_moves_up_by_the_number_of_options() {
    let options = vec!["build", "test", "lint"];
    let select = Select::new(&options);
    assert_eq!(select.erase(), vec![Command::MoveUp(3), Command::ClearFromCursorDown]);
}

#[test]
fn erase_splits_movements_that_one_command_cannot_hold() {
    let options = vec!["x"; 70000];
    let select = Select::new(&options);
    assert_eq!(
        select.erase(),
        vec![Command::MoveUp(65535), Command::MoveUp(4465), Command::ClearFromCursorDown]
    );
    let exact = vec!["x"; 65535];
    assert_eq!(
        Select::new(&exact).erase(),
        vec![Command::MoveUp(65535), Command::ClearFromCursorDown]
    );
    let double = vec!["x"; 131070];
    assert_eq!(
        Select::new(&double).erase(),
        vec![Command::MoveUp(65535), Command::MoveUp(65535), Command::ClearFromCursorDown]
    );
}

#[test]
fn fresh_puts_the_highlight_back_on_the_first_option() {
    let options = vec!["build", "test", "lint"];
    let mut select = Select::new(&options);
    select.prev();
    let fresh = select.fresh();
    assert_eq!(fresh.highlighted_index(), 0);
    assert_eq!(fresh.selected(), Some("build"));
    assert_eq!(fresh.len(), 3);
    assert_eq!(select.highlighted_index(), 2);
}
