use event_ipc::event_base::error::EventBaseError;
use event_ipc::mock_aijob::ai_queue;
use event_ipc::mock_aijob::aijob_error::{AiJobError, AijobError};
use event_ipc::mock_aijob::aijob_queue::{map_event_base_error, new_ai_job_channel, AiJob};

type Result<T> = core::result::Result<T, Box<dyn std::error::Error>>;

#[test]
fn test_mock_aijob_map_event_base_error_disconnected() -> Result<()> {
	// -- Setup & Fixtures
	let tx_error = EventBaseError::TxDisconnected { name: "mock-ai-jobs" };
	let rx_error = EventBaseError::RxDisconnected { name: "mock-ai-jobs" };

	// -- Exec
	let tx_result = map_event_base_error(tx_error);
	let rx_result = map_event_base_error(rx_error);

	// -- Check
	assert!(matches!(tx_result, AiJobError::QueueClosed));
	assert!(matches!(rx_result, AiJobError::QueueClosed));

	Ok(())
}

#[test]
fn test_mock_aijob_map_event_base_error_configuration() -> Result<()> {
	// -- Setup & Fixtures
	let error = EventBaseError::InvalidCapacity {
		name: "mock-ai-jobs",
		capacity: 0,
	};

	// -- Exec
	let result = map_event_base_error(error);

	// -- Check
	assert!(matches!(result, AiJobError::QueueUnavailable));

	Ok(())
}

#[test]
fn ai_job_channels_are_named_and_usable() {
	let (tx, rx) = new_ai_job_channel().unwrap();
	assert_eq!(tx.inner().name(), "mock-ai-jobs");
	assert_eq!(rx.inner().name(), "mock-ai-jobs");
	let job = AiJob { id: 1, prompt: String::from("demo prompt 1") };
	assert!(tx.inner().try_send(job).unwrap().is_none());
	let got = rx.clone().inner().try_recv().unwrap().unwrap();
	assert_eq!(got.id, 1);
	assert_eq!(got.prompt, "demo prompt 1");

	let (tx, rx) = ai_queue::new_ai_job_channel().unwrap();
	assert_eq!(tx.clone().inner().name(), "mock-ai-jobs");
	assert_eq!(rx.inner().name(), "mock-ai-jobs");
}

#[test]
fn ai_job_error_messages() {
	assert_eq!(AijobError::QueueUnavailable.to_string(), "AI job queue is unavailable");
	assert_eq!(AijobError::QueueClosed.to_string(), "AI job queue is closed");
}
