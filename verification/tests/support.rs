use event_ipc::event_base::channel::{TryRecvOutcome, TrySendOutcome};
use event_ipc::event_base::error::EventBaseError;
use event_ipc::event_base::support::{
	handle_recv_result, handle_send_result, handle_try_recv_result, handle_try_send_result,
};

#[test]
fn send_results() {
	assert!(matches!(handle_send_result::<u8>(Ok(()), "s"), Ok(())));
	assert!(matches!(handle_send_result(Err(3u8), "s"), Err(EventBaseError::TxDisconnected { name: "s" })));
}

#[test]
fn try_send_results() {
	assert!(matches!(handle_try_send_result::<u8>(TrySendOutcome::Sent, "s"), Ok(None)));
	assert!(matches!(handle_try_send_result(TrySendOutcome::Full(7u8), "s"), Ok(Some(7))));
	assert!(matches!(
		handle_try_send_result(TrySendOutcome::Disconnected(7u8), "s"),
		Err(EventBaseError::TxDisconnected { name: "s" })
	));
}

#[test]
fn recv_results() {
	assert!(matches!(handle_recv_result(Some(4u8), "r"), Ok(4)));
	assert!(matches!(handle_recv_result::<u8>(None, "r"), Err(EventBaseError::RxDisconnected { name: "r" })));
}

#[test]
fn try_recv_results() {
	assert!(matches!(handle_try_recv_result(TryRecvOutcome::Received(4u8), "r"), Ok(Some(4))));
	assert!(matches!(handle_try_recv_result::<u8>(TryRecvOutcome::Empty, "r"), Ok(None)));
	assert!(matches!(
		handle_try_recv_result::<u8>(TryRecvOutcome::Disconnected, "r"),
		Err(EventBaseError::RxDisconnected { name: "r" })
	));
}
