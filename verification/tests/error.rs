use event_ipc::error::Error;
use event_ipc::event_base::error::EventBaseError;
use event_ipc::mock_aijob::aijob_error::AijobError;
use event_ipc::mock_tui::{new_tui_channel, tui_step, TuiEvent};

#[test]
fn custom_errors_carry_their_message() {
	assert!(matches!(Error::custom(String::from("boom")), Error::Custom(m) if m == "boom"));
	assert!(matches!(Error::custom_from_error(String::from("io failed")), Error::Custom(m) if m == "io failed"));
	assert!(matches!(Error::from(String::from("x")), Error::Custom(m) if m == "x"));
	assert!(matches!(Error::from("y"), Error::Custom(m) if m == "y"));
	assert!(matches!(Error::from(&String::from("z")), Error::Custom(m) if m == "z"));
}

#[test]
fn part_errors_convert() {
	let e: Error = EventBaseError::TxDisconnected { name: "n" }.into();
	assert!(matches!(e, Error::EventBase(EventBaseError::TxDisconnected { name: "n" })));
	let e: Error = AijobError::QueueClosed.into();
	assert!(matches!(e, Error::Aijob(AijobError::QueueClosed)));
}

#[test]
fn tui_channel_carries_events() {
	let (tx, rx) = new_tui_channel().unwrap();
	assert_eq!(tx.name(), "mock-tui");
	assert_eq!(rx.name(), "mock-tui");
	assert!(tx.try_send(TuiEvent::Resize { width: 120, height: 40 }).unwrap().is_none());
	assert!(matches!(rx.try_recv().unwrap(), Some(TuiEvent::Resize { width: 120, height: 40 })));
}

#[test]
fn tui_steps_print_and_stop_on_quit() {
	let step = tui_step(&TuiEvent::Input(String::from("open settings")));
	assert_eq!((step.line.as_str(), step.quit), ("[tui] input: open settings", false));
	let step = tui_step(&TuiEvent::Resize { width: 120, height: 40 });
	assert_eq!((step.line.as_str(), step.quit), ("[tui] resized to 120x40", false));
	let step = tui_step(&TuiEvent::Quit);
	assert_eq!((step.line.as_str(), step.quit), ("[tui] quit", true));
}
