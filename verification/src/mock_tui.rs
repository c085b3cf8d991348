//! Terminal UI events over a multi-producer single-consumer channel.

use crate::event_base::error::EventBaseResult;
use crate::event_base::mpsc::{new_mpsc_bounded, MpscRx, MpscTx};
use crate::text::{decimal, u64_to_decimal};
use vstd::prelude::*;
use vstd::string::StringExecFns;

verus! {

/// Name of the terminal UI event channel.
pub const TUI_CHANNEL: &'static str = "mock-tui";

/// Capacity of the terminal UI event channel.
pub const TUI_CAPACITY: usize = 16;

/// An input event of the terminal UI.
#[derive(Debug)]
pub enum TuiEvent {
    Input(String),
    Resize { width: u16, height: u16 },
    Quit,
}

/// Sender of terminal UI events.
pub type TuiTx = MpscTx<TuiEvent>;

/// Receiver of terminal UI events.
pub type TuiRx = MpscRx<TuiEvent>;

/// Makes the terminal UI event channel: named [`TUI_CHANNEL`], of [`TUI_CAPACITY`]
/// events.
pub fn new_tui_channel() -> (r: EventBaseResult<(TuiTx, TuiRx)>)
    ensures
        r matches Ok((tx, rx)) && tx.spec_name() == TUI_CHANNEL && rx.spec_name() == TUI_CHANNEL
            && tx.spec_capacity() == TUI_CAPACITY && rx.spec_capacity() == TUI_CAPACITY,
{
    new_mpsc_bounded(TUI_CHANNEL, TUI_CAPACITY)
}

/// What the event loop does with one event: the line it prints, and whether it
/// stops afterwards.
pub struct TuiStep {
    pub line: String,
    pub quit: bool,
}

/// The line the event loop prints for `event`.
pub open spec fn tui_line(event: TuiEvent) -> Seq<char> {
    match event {
        TuiEvent::Input(value) => "[tui] input: "@ + value@,
        TuiEvent::Resize { width, height } => "[tui] resized to "@ + decimal(width as int) + "x"@ + decimal(
            height as int,
        ),
        TuiEvent::Quit => "[tui] quit"@,
    }
}

/// Handles one event of the loop: prints a line for it, and stops on `Quit`.
pub fn tui_step(event: &TuiEvent) -> (step: TuiStep)
    ensures
        step.line@ == tui_line(*event),
        step.quit == (*event is Quit),
{
    match event {
        TuiEvent::Input(value) => {
            let mut line = String::from_str("[tui] input: ");
            line.append(value.as_str());
            TuiStep { line, quit: false }
        },
        TuiEvent::Resize { width, height } => {
            let mut line = String::from_str("[tui] resized to ");
            let w = u64_to_decimal(*width as u64);
            line.append(w.as_str());
            line.append("x");
            let h = u64_to_decimal(*height as u64);
            line.append(h.as_str());
            TuiStep { line, quit: false }
        },
        TuiEvent::Quit => TuiStep { line: String::from_str("[tui] quit"), quit: true },
    }
}

} // verus!
