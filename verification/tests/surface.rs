use glerm::decode::decode_event;
use glerm::event::{FocusState, TerminalEvent};
use glerm::output::{clear_plan, draw_plan, DrawCommand, OutputOp};
use glerm::raw::RawEvent;
use glerm::surface::{Surface, BLANK};

fn command(column: u16, row: u16, text: &str) -> DrawCommand {
    DrawCommand { column, row, text: String::from(text) }
}

fn row_text(surface: &Surface, row: u16) -> String {
    surface.row(row).unwrap().into_iter().collect()
}

fn rows(surface: &Surface) -> Vec<String> {
    let (_, count) = surface.size();
    (0..count).map(|r| row_text(surface, r)).collect()
}

#[test]
fn a_blank_surface_is_all_blank() {
    let surface = Surface::blank(3, 2);
    assert_eq!(surface.size(), (3, 2));
    assert_eq!(surface.cursor(), (0, 0));
    assert_eq!(rows(&surface), vec!["   ", "   "]);
    assert_eq!(BLANK, ' ');
}

#[test]
fn a_surface_may_have_no_cells() {
    let mut surface = Surface::blank(0, 0);
    assert_eq!(surface.size(), (0, 0));
    assert_eq!(surface.row(0), None);
    assert_eq!(surface.cell(0, 0), None);
    surface.print("lost");
    assert_eq!(surface.size(), (0, 0));
    let mut flat = Surface::blank(0, 2);
    flat.print("lost");
    assert_eq!(rows(&flat), vec!["", ""]);
}

#[test]
fn draw_two_commands_on_a_blank_five_by_one_surface() {
    let mut surface = Surface::blank(5, 1);
    surface.draw(&vec![command(0, 0, "hi"), command(2, 0, "!!")]);
    assert_eq!(row_text(&surface, 0), "hi!! ");
    assert_eq!(surface.cell(4, 0), Some(' '));
}

#[test]
fn draw_equals_sequential_move_and_print() {
    let commands = vec![
        command(0, 0, "hello"),
        command(3, 1, "world"),
        command(2, 0, "XY"),
        command(9, 2, "clipped"),
        command(0, 5, "off the grid"),
        command(1, 2, ""),
    ];
    let mut batched = Surface::blank(12, 3);
    batched.draw(&commands);

    let mut sequential = Surface::blank(12, 3);
    for c in &commands {
        sequential.move_to(c.column, c.row);
        sequential.print(&c.text);
    }
    assert_eq!(rows(&batched), rows(&sequential));
    assert_eq!(batched.cursor(), sequential.cursor());
    assert_eq!(rows(&batched), vec!["heXYo       ", "   world    ", "         cli"]);
}

#[test]
fn draw_of_nothing_changes_nothing() {
    let mut surface = Surface::blank(4, 2);
    surface.move_to(1, 1);
    surface.print("ab");
    let before = (rows(&surface), surface.cursor());
    surface.draw(&Vec::new());
    assert_eq!((rows(&surface), surface.cursor()), before);
}

#[test]
fn the_later_of_two_overlapping_commands_wins() {
    let mut surface = Surface::blank(6, 1);
    surface.draw(&vec![command(0, 0, "aaaaaa"), command(2, 0, "bb")]);
    assert_eq!(row_text(&surface, 0), "aabbaa");
    let mut reversed = Surface::blank(6, 1);
    reversed.draw(&vec![command(2, 0, "bb"), command(0, 0, "aaaaaa")]);
    assert_eq!(row_text(&reversed, 0), "aaaaaa");
}

#[test]
fn print_advances_the_cursor() {
    let mut surface = Surface::blank(10, 2);
    surface.move_to(2, 1);
    surface.print("abc");
    assert_eq!(surface.cursor(), (5, 1));
    surface.print("de");
    assert_eq!(row_text(&surface, 1), "  abcde   ");
    assert_eq!(surface.cursor(), (7, 1));
}

#[test]
fn text_past_the_right_edge_is_clipped() {
    let mut surface = Surface::blank(4, 2);
    surface.move_to(2, 0);
    surface.print("abcdef");
    assert_eq!(rows(&surface), vec!["  ab", "    "]);
    assert_eq!(surface.cursor(), (4, 0));
    surface.print("more");
    assert_eq!(rows(&surface), vec!["  ab", "    "]);
}

#[test]
fn text_outside_the_grid_is_dropped() {
    let mut surface = Surface::blank(4, 2);
    surface.move_to(0, 2);
    surface.print("x");
    surface.move_to(4, 0);
    surface.print("y");
    surface.move_to(65535, 65535);
    surface.print("z");
    assert_eq!(rows(&surface), vec!["    ", "    "]);
    assert_eq!(surface.cursor(), (65535, 65535));
}

#[test]
fn every_character_takes_one_cell() {
    let mut surface = Surface::blank(5, 1);
    surface.print("é✓\n\t");
    assert_eq!(surface.row(0), Some(vec!['é', '✓', '\n', '\t', ' ']));
}

#[test]
fn put_writes_one_cell() {
    let mut surface = Surface::blank(2, 1);
    surface.put('a');
    assert_eq!(surface.cell(0, 0), Some('a'));
    assert_eq!(surface.cell(1, 0), Some(' '));
    assert_eq!(surface.cursor(), (1, 0));
    surface.put('b');
    surface.put('c');
    assert_eq!(row_text(&surface, 0), "ab");
    assert_eq!(surface.cursor(), (2, 0));
}

#[test]
fn cells_outside_the_grid_do_not_exist() {
    let surface = Surface::blank(3, 2);
    assert_eq!(surface.cell(2, 1), Some(' '));
    assert_eq!(surface.cell(3, 1), None);
    assert_eq!(surface.cell(2, 2), None);
    assert_eq!(surface.row(2), None);
}

#[test]
fn clear_blanks_every_cell_and_keeps_the_cursor() {
    let mut surface = Surface::blank(3, 2);
    surface.draw(&vec![command(0, 0, "abc"), command(0, 1, "de")]);
    surface.clear();
    assert_eq!(rows(&surface), vec!["   ", "   "]);
    assert_eq!(surface.cursor(), (2, 1));
    assert_eq!(surface.size(), (3, 2));
}

#[test]
fn run_carries_out_a_plan_in_order() {
    let mut surface = Surface::blank(4, 1);
    let mut plan = vec![OutputOp::Print(String::from("ab"))];
    plan.extend(clear_plan());
    plan.push(OutputOp::Print(String::from("cd")));
    plan.push(OutputOp::MoveTo(0, 0));
    plan.push(OutputOp::Print(String::from("e")));
    surface.run(&plan);
    assert_eq!(row_text(&surface, 0), "e cd");
}

#[test]
fn run_of_a_draw_plan_is_draw() {
    let commands = vec![command(1, 0, "ab"), command(0, 1, "cd")];
    let mut drawn = Surface::blank(3, 2);
    drawn.draw(&commands);
    let mut run = Surface::blank(3, 2);
    run.run(&draw_plan(&commands));
    assert_eq!(rows(&drawn), rows(&run));
    assert_eq!(rows(&drawn), vec![" ab", "cd "]);
}

#[test]
fn apply_carries_out_one_operation() {
    let mut surface = Surface::blank(3, 1);
    surface.apply(&OutputOp::MoveTo(1, 0));
    assert_eq!(surface.cursor(), (1, 0));
    surface.apply(&OutputOp::Print(String::from("x")));
    assert_eq!(row_text(&surface, 0), " x ");
    surface.apply(&OutputOp::Clear);
    assert_eq!(row_text(&surface, 0), "   ");
}

#[test]
fn size_matches_the_dimensions() {
    assert_eq!(Surface::blank(80, 24).size(), (80, 24));
    assert_eq!(Surface::blank(1, 300).size(), (1, 300));
}

#[test]
fn resize_gives_the_new_size_and_keeps_what_fits() {
    let mut surface = Surface::blank(3, 2);
    surface.draw(&vec![command(0, 0, "abc"), command(0, 1, "def")]);
    surface.resize(5, 3);
    assert_eq!(surface.size(), (5, 3));
    assert_eq!(rows(&surface), vec!["abc  ", "def  ", "     "]);
    surface.resize(2, 1);
    assert_eq!(surface.size(), (2, 1));
    assert_eq!(rows(&surface), vec!["ab"]);
    surface.resize(3, 2);
    assert_eq!(rows(&surface), vec!["ab ", "   "]);
    assert_eq!(surface.cursor(), (3, 1));
}

#[test]
fn after_a_resize_event_size_reflects_it() {
    let mut surface = Surface::blank(80, 24);
    surface.follow(&decode_event(RawEvent::Resize(100, 30)));
    assert_eq!(surface.size(), (100, 30));
    surface.follow(&TerminalEvent::Resize(0, 0));
    assert_eq!(surface.size(), (0, 0));
}

#[test]
fn other_events_leave_the_surface_alone() {
    let mut surface = Surface::blank(4, 1);
    surface.print("ab");
    surface.follow(&TerminalEvent::Focus(FocusState::Lost));
    surface.follow(&TerminalEvent::Paste(String::from("zz")));
    assert_eq!(surface.size(), (4, 1));
    assert_eq!(row_text(&surface, 0), "ab  ");
    assert_eq!(surface.cursor(), (2, 0));
}
