use vstd::prelude::*;

use crate::states::GamePhase;
use crate::text::{concat_str, decimal_spec, decimal_string, owned};

verus! {

/// How a message to the player is shown.
#[derive(Debug, Clone, Copy, PartialEq, Eq, Structural)]
pub enum UiFeedbackSeverity {
    Info,
    Success,
    Warning,
}

/// A message to the player: a title, its lines, and the phase to return to.
#[derive(Debug, Clone)]
pub struct UiFeedback {
    pub title: String,
    pub lines: Vec<String>,
    pub severity: UiFeedbackSeverity,
    pub requires_ack: bool,
    pub return_phase: GamePhase,
}

/// "需要 {cost} 金币，当前只有 {current}。"
pub open spec fn gold_shortage_line(cost: u32, current: u32) -> Seq<char> {
    "需要 "@ + decimal_spec(cost as nat) + " 金币，当前只有 "@ + decimal_spec(current as nat) + "。"@
}

/// The line that tells the player how much gold is needed and how much is held.
pub fn gold_shortage_text(cost: u32, current: u32) -> (s: String)
    ensures
        s@ == gold_shortage_line(cost, current),
{
    let s = owned("需要 ");
    let s = concat_str(s, decimal_string(cost).as_str());
    let s = concat_str(s, " 金币，当前只有 ");
    let s = concat_str(s, decimal_string(current).as_str());
    concat_str(s, "。")
}

/// A warning that the player has `current` gold and needs `cost`, returning to `phase`
/// without asking for acknowledgement.
pub open spec fn gold_warning_spec(f: UiFeedback, cost: u32, current: u32, phase: GamePhase) -> bool {
    &&& f.title@ == "金币不足"@
    &&& f.lines@.len() == 1
    &&& f.lines@[0]@ == gold_shortage_line(cost, current)
    &&& f.severity == UiFeedbackSeverity::Warning
    &&& !f.requires_ack
    &&& f.return_phase == phase
}

/// The shop's warning that the player cannot afford something; the player stays in the shop.
pub fn shop_warning_feedback(cost: u32, current: u32) -> (f: UiFeedback)
    ensures
        gold_warning_spec(f, cost, current, GamePhase::Shop),
{
    let mut lines: Vec<String> = Vec::new();
    lines.push(gold_shortage_text(cost, current));
    UiFeedback {
        title: owned("金币不足"),
        lines,
        severity: UiFeedbackSeverity::Warning,
        requires_ack: false,
        return_phase: GamePhase::Shop,
    }
}

/// An event's warning that the player cannot afford a choice; the event stays open.
pub fn insufficient_gold_feedback(cost: u32, current: u32) -> (f: UiFeedback)
    ensures
        gold_warning_spec(f, cost, current, GamePhase::EventRoom),
{
    let mut lines: Vec<String> = Vec::new();
    lines.push(gold_shortage_text(cost, current));
    UiFeedback {
        title: owned("金币不足"),
        lines,
        severity: UiFeedbackSeverity::Warning,
        requires_ack: false,
        return_phase: GamePhase::EventRoom,
    }
}

/// "-{cost} 金币"
pub open spec fn gold_spent_line(cost: u32) -> Seq<char> {
    "-"@ + decimal_spec(cost as nat) + " 金币"@
}

/// The line that reports gold spent.
pub fn gold_spent_text(cost: u32) -> (s: String)
    ensures
        s@ == gold_spent_line(cost),
{
    let s = owned("-");
    let s = concat_str(s, decimal_string(cost).as_str());
    concat_str(s, " 金币")
}

} // verus!
