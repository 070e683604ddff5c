use glerm::batch::{Batch, BatchAction, BatchPhase};
use glerm::output::{
    clear_plan, draw_plan, move_to_plan, print_plan, text_plan, DrawCommand, Failure, OutputOp,
};

fn command(column: u16, row: u16, text: &str) -> DrawCommand {
    DrawCommand { column, row, text: String::from(text) }
}

/// Carries a batch out against scripted reports and returns the operations
/// that were queued, how often the output was flushed, and the result.
fn carry_out(plan: Vec<OutputOp>, reports: &[bool]) -> (Vec<OutputOp>, usize, Option<Result<(), Failure>>) {
    let mut batch = Batch::new(plan);
    let mut queued = Vec::new();
    let mut flushes = 0;
    let mut next = 0;
    loop {
        let ok = match batch.next_action() {
            BatchAction::Queue(op) => {
                if next == reports.len() {
                    return (queued, flushes, None);
                }
                if reports[next] {
                    queued.push(op.clone());
                }
                reports[next]
            }
            BatchAction::Flush => {
                if next == reports.len() {
                    return (queued, flushes, None);
                }
                if reports[next] {
                    flushes += 1;
                }
                reports[next]
            }
            BatchAction::Finish(result) => return (queued, flushes, Some(result)),
        };
        next += 1;
        batch.completed(ok);
    }
}

fn printed(bytes: &[u8]) -> String {
    match print_plan(bytes).pop() {
        Some(OutputOp::Print(text)) => text,
        other => panic!("not a print: {:?}", other),
    }
}

#[test]
fn printing_keeps_well_formed_text() {
    assert_eq!(printed("plain".as_bytes()), "plain");
    assert_eq!(printed("héllo ✓".as_bytes()), "héllo ✓");
    assert_eq!(printed(&[]), "");
}

#[test]
fn printing_replaces_malformed_bytes() {
    assert_eq!(printed(&[b'a', 0xFF, b'b']), "a\u{FFFD}b");
    assert_eq!(printed(&[0xC3]), "\u{FFFD}");
    assert_eq!(printed(&[0xE2, 0x9C]), "\u{FFFD}");
}

#[test]
fn single_operation_plans() {
    assert_eq!(clear_plan(), vec![OutputOp::Clear]);
    assert_eq!(move_to_plan(3, 9), vec![OutputOp::MoveTo(3, 9)]);
    assert_eq!(move_to_plan(65535, 65535), vec![OutputOp::MoveTo(65535, 65535)]);
    assert_eq!(print_plan("hi".as_bytes()), vec![OutputOp::Print(String::from("hi"))]);
    assert_eq!(text_plan(String::from("hi")), vec![OutputOp::Print(String::from("hi"))]);
    assert_eq!(text_plan(String::new()), vec![OutputOp::Print(String::new())]);
}

#[test]
fn printing_malformed_bytes_prints_the_replacement() {
    assert_eq!(
        print_plan(&[b'o', b'k', 0x80]),
        vec![OutputOp::Print(String::from("ok\u{FFFD}"))]
    );
}

#[test]
fn draw_plan_moves_then_prints_for_each_command_in_order() {
    let commands = vec![command(0, 0, "hi"), command(2, 0, "!!"), command(7, 5, "")];
    assert_eq!(
        draw_plan(&commands),
        vec![
            OutputOp::MoveTo(0, 0),
            OutputOp::Print(String::from("hi")),
            OutputOp::MoveTo(2, 0),
            OutputOp::Print(String::from("!!")),
            OutputOp::MoveTo(7, 5),
            OutputOp::Print(String::new()),
        ]
    );
}

#[test]
fn draw_plan_of_nothing_is_empty() {
    assert!(draw_plan(&Vec::new()).is_empty());
}

#[test]
fn draw_plan_keeps_repeated_commands() {
    let commands = vec![command(1, 1, "x"), command(1, 1, "x")];
    assert_eq!(draw_plan(&commands).len(), 4);
}

#[test]
fn a_batch_queues_everything_then_flushes_once() {
    let plan = draw_plan(&vec![command(0, 0, "hi"), command(2, 0, "!!")]);
    let (queued, flushes, result) = carry_out(plan, &[true, true, true, true, true]);
    assert_eq!(queued, draw_plan(&vec![command(0, 0, "hi"), command(2, 0, "!!")]));
    assert_eq!(flushes, 1);
    assert_eq!(result, Some(Ok(())));
}

#[test]
fn an_empty_batch_succeeds_without_a_flush() {
    let batch = Batch::new(Vec::new());
    assert_eq!(batch.phase(), BatchPhase::Succeeded);
    assert_eq!(batch.next_action(), BatchAction::Finish(Ok(())));
    assert_eq!(batch.queued(), 0);
}

#[test]
fn a_draw_of_nothing_succeeds_whatever_the_output_does() {
    let (queued, flushes, result) = carry_out(draw_plan(&Vec::new()), &[]);
    assert!(queued.is_empty());
    assert_eq!(flushes, 0);
    assert_eq!(result, Some(Ok(())));

    let (queued, flushes, result) = carry_out(draw_plan(&Vec::new()), &[false, false]);
    assert!(queued.is_empty());
    assert_eq!(flushes, 0);
    assert_eq!(result, Some(Ok(())));

    let mut batch = Batch::new(draw_plan(&Vec::new()));
    batch.completed(false);
    assert_eq!(batch.phase(), BatchPhase::Succeeded);
    assert_eq!(batch.next_action(), BatchAction::Finish(Ok(())));
}

#[test]
fn a_draw_of_one_empty_text_still_queues_and_flushes() {
    let plan = draw_plan(&vec![command(0, 0, "")]);
    let (queued, flushes, result) = carry_out(plan, &[true, true, true]);
    assert_eq!(queued, vec![OutputOp::MoveTo(0, 0), OutputOp::Print(String::new())]);
    assert_eq!(flushes, 1);
    assert_eq!(result, Some(Ok(())));
}

#[test]
fn a_failed_queue_step_ends_the_batch_without_a_flush() {
    let plan = draw_plan(&vec![command(0, 0, "a"), command(0, 1, "b"), command(0, 2, "c")]);
    let (queued, flushes, result) = carry_out(plan, &[true, true, false, true, true, true, true]);
    assert_eq!(queued, vec![OutputOp::MoveTo(0, 0), OutputOp::Print(String::from("a"))]);
    assert_eq!(flushes, 0);
    assert_eq!(result, Some(Err(Failure)));
}

#[test]
fn a_failure_on_the_first_step_queues_nothing() {
    let plan = draw_plan(&vec![command(0, 0, "a")]);
    let (queued, flushes, result) = carry_out(plan, &[false]);
    assert!(queued.is_empty());
    assert_eq!(flushes, 0);
    assert_eq!(result, Some(Err(Failure)));
}

#[test]
fn a_failed_flush_fails_the_batch() {
    let (queued, flushes, result) = carry_out(clear_plan(), &[true, false]);
    assert_eq!(queued, vec![OutputOp::Clear]);
    assert_eq!(flushes, 0);
    assert_eq!(result, Some(Err(Failure)));
}

#[test]
fn a_batch_walks_through_its_phases() {
    let mut batch = Batch::new(move_to_plan(1, 2));
    assert_eq!(batch.phase(), BatchPhase::Queueing);
    assert_eq!(batch.queued(), 0);
    assert_eq!(batch.next_action(), BatchAction::Queue(&OutputOp::MoveTo(1, 2)));
    batch.completed(true);
    assert_eq!(batch.phase(), BatchPhase::Flushing);
    assert_eq!(batch.queued(), 1);
    assert_eq!(batch.next_action(), BatchAction::Flush);
    batch.completed(true);
    assert_eq!(batch.phase(), BatchPhase::Succeeded);
    assert_eq!(batch.next_action(), BatchAction::Finish(Ok(())));
}

#[test]
fn a_finished_batch_ignores_further_reports() {
    let mut failed = Batch::new(clear_plan());
    failed.completed(false);
    assert_eq!(failed.phase(), BatchPhase::Failed);
    failed.completed(true);
    failed.completed(true);
    assert_eq!(failed.phase(), BatchPhase::Failed);
    assert_eq!(failed.queued(), 0);
    assert_eq!(failed.next_action(), BatchAction::Finish(Err(Failure)));

    let mut done = Batch::new(clear_plan());
    done.completed(true);
    done.completed(true);
    assert_eq!(done.phase(), BatchPhase::Succeeded);
    done.completed(false);
    done.completed(true);
    assert_eq!(done.phase(), BatchPhase::Succeeded);
    assert_eq!(done.queued(), 1);
    assert_eq!(done.next_action(), BatchAction::Finish(Ok(())));

    let mut nothing = Batch::new(Vec::new());
    nothing.completed(true);
    nothing.completed(false);
    assert_eq!(nothing.phase(), BatchPhase::Succeeded);
}

#[test]
fn operations_and_commands_clone_to_equal_values() {
    let op = OutputOp::Print(String::from("text"));
    assert_eq!(op.clone(), op);
    let draw = command(4, 5, "text");
    assert_eq!(draw.clone(), draw);
}
