//! Output: the primitive writes, and the plan of writes that each output
//! operation stands for.
//!
//! Writing to the terminal is the caller's business. This module says which
//! writes to make and in what order; [`crate::batch`] says how a plan is
//! carried out, and [`crate::surface`] what it does to a screen.

use vstd::prelude::*;
use vstd::utf8::{decode_utf8, valid_utf8};
use crate::text::{from_utf8_lossy, lossy_text};

verus! {

/// A failed terminal operation. It carries no detail.
#[derive(Clone, Copy, Debug, PartialEq, Eq, Structural)]
pub struct Failure;

/// One primitive write to the terminal.
#[derive(Debug, PartialEq, Eq)]
pub enum OutputOp {
    /// Erase the whole visible screen.
    Clear,
    /// Put the cursor at this column and row, whatever the terminal's size.
    MoveTo(u16, u16),
    /// Write this text at the cursor.
    Print(String),
}

/// The mathematical value of an [`OutputOp`].
pub enum OpModel {
    Clear,
    MoveTo(u16, u16),
    Print(Seq<char>),
}

impl View for OutputOp {
    type V = OpModel;

    open spec fn view(&self) -> OpModel {
        match *self {
            OutputOp::Clear => OpModel::Clear,
            OutputOp::MoveTo(column, row) => OpModel::MoveTo(column, row),
            OutputOp::Print(text) => OpModel::Print(text@),
        }
    }
}

impl Clone for OutputOp {
    fn clone(&self) -> (copy: Self)
        ensures
            copy == *self,
    {
        match self {
            OutputOp::Clear => OutputOp::Clear,
            OutputOp::MoveTo(column, row) => OutputOp::MoveTo(*column, *row),
            OutputOp::Print(text) => OutputOp::Print(text.clone()),
        }
    }
}

/// An instruction to place text at an absolute position.
#[derive(Debug, PartialEq, Eq)]
pub struct DrawCommand {
    pub column: u16,
    pub row: u16,
    pub text: String,
}

/// The mathematical value of a [`DrawCommand`].
pub struct CommandModel {
    pub column: u16,
    pub row: u16,
    pub text: Seq<char>,
}

impl View for DrawCommand {
    type V = CommandModel;

    open spec fn view(&self) -> CommandModel {
        CommandModel { column: self.column, row: self.row, text: self.text@ }
    }
}

impl Clone for DrawCommand {
    fn clone(&self) -> (copy: Self)
        ensures
            copy == *self,
    {
        DrawCommand { column: self.column, row: self.row, text: self.text.clone() }
    }
}

/// The values of a run of operations.
pub open spec fn ops_view(ops: Seq<OutputOp>) -> Seq<OpModel> {
    Seq::new(ops.len(), |i: int| ops[i]@)
}

/// The values of a run of draw commands.
pub open spec fn commands_view(commands: Seq<DrawCommand>) -> Seq<CommandModel> {
    Seq::new(commands.len(), |i: int| commands[i]@)
}

/// The operations a run of draw commands stands for: for each command, in
/// the order given, a move to its position and then a print of its text.
pub open spec fn draw_ops(commands: Seq<CommandModel>) -> Seq<OpModel>
    decreases commands.len(),
{
    if commands.len() == 0 {
        Seq::empty()
    } else {
        draw_ops(commands.drop_last()).push(
            OpModel::MoveTo(commands.last().column, commands.last().row),
        ).push(OpModel::Print(commands.last().text))
    }
}

/// The operations of clearing the screen.
pub fn clear_plan() -> (plan: Vec<OutputOp>)
    ensures
        ops_view(plan@) == seq![OpModel::Clear],
{
    let mut plan: Vec<OutputOp> = Vec::new();
    plan.push(OutputOp::Clear);
    assert(ops_view(plan@) =~= seq![OpModel::Clear]);
    plan
}

/// The operations of moving the cursor. The position is passed on as it is.
pub fn move_to_plan(column: u16, row: u16) -> (plan: Vec<OutputOp>)
    ensures
        ops_view(plan@) == seq![OpModel::MoveTo(column, row)],
{
    let mut plan: Vec<OutputOp> = Vec::new();
    plan.push(OutputOp::MoveTo(column, row));
    assert(ops_view(plan@) =~= seq![OpModel::MoveTo(column, row)]);
    plan
}

/// The operations of printing a text: one print of it.
pub fn text_plan(text: String) -> (plan: Vec<OutputOp>)
    ensures
        ops_view(plan@) == seq![OpModel::Print(text@)],
{
    let mut plan: Vec<OutputOp> = Vec::new();
    let ghost printed = text@;
    plan.push(OutputOp::Print(text));
    assert(ops_view(plan@) =~= seq![OpModel::Print(printed)]);
    plan
}

/// The operations of printing raw bytes: one print of their permissive
/// decoding. Bytes that are not well-formed UTF-8 are replaced, never
/// rejected; well-formed bytes print as the text they encode.
pub fn print_plan(bytes: &[u8]) -> (plan: Vec<OutputOp>)
    ensures
        ops_view(plan@) == seq![OpModel::Print(lossy_text(bytes@))],
        valid_utf8(bytes@) ==> ops_view(plan@) == seq![OpModel::Print(decode_utf8(bytes@))],
{
    text_plan(from_utf8_lossy(bytes))
}

/// The operations of a batched draw: [`draw_ops`] of the commands. No
/// command is dropped or reordered, and an empty run of commands gives an
/// empty plan.
pub fn draw_plan(commands: &Vec<DrawCommand>) -> (plan: Vec<OutputOp>)
    ensures
        ops_view(plan@) == draw_ops(commands_view(commands@)),
        plan.len() == 2 * commands.len(),
{
    let ghost all = commands_view(commands@);
    let mut plan: Vec<OutputOp> = Vec::new();
    let mut i: usize = 0;
    assert(all.take(0) =~= Seq::<CommandModel>::empty());
    assert(ops_view(plan@) =~= Seq::<OpModel>::empty());
    while i < commands.len()
        invariant
            i <= commands.len(),
            all == commands_view(commands@),
            plan.len() == 2 * i,
            ops_view(plan@) == draw_ops(all.take(i as int)),
        decreases commands.len() - i,
    {
        let ghost before = ops_view(plan@);
        let command = &commands[i];
        plan.push(OutputOp::MoveTo(command.column, command.row));
        plan.push(OutputOp::Print(command.text.clone()));
        proof {
            let prefix = all.take(i as int + 1);
            assert(prefix.drop_last() =~= all.take(i as int));
            assert(prefix.last() == commands[i as int]@);
            assert(ops_view(plan@) =~= before.push(
                OpModel::MoveTo(command.column, command.row),
            ).push(OpModel::Print(command.text@)));
        }
        i = i + 1;
    }
    assert(all.take(i as int) =~= all);
    plan
}

} // verus!
