use event_ipc::event_base::error::EventBaseError;
use event_ipc::event_base::DEFAULT_CAPACITY;
use event_ipc::event_base::mpmc::{new_mpmc_bounded, new_mpmc_bounded_default};
use event_ipc::event_base::mpsc::{new_mpsc_bounded, new_mpsc_bounded_default};
use event_ipc::event_base::spsc::{new_spsc_bounded, new_spsc_bounded_default};

type Result<T> = core::result::Result<T, Box<dyn std::error::Error>>;

fn boxed(e: EventBaseError) -> Box<dyn std::error::Error> {
	format!("{e:?}").into()
}

#[test]
fn test_event_base_spsc_sync_conversion() -> Result<()> {
	// -- Setup & Fixtures
	let (tx, rx) = new_spsc_bounded::<u32>("spsc-sync-test", 1).map_err(boxed)?;
	let sync_tx = tx.into_sync_tx();
	let sync_rx = rx.into_sync_rx();

	// -- Exec
	sync_tx.send_sync(9).map_err(boxed)?;
	let value = sync_rx.recv_sync().map_err(boxed)?;

	// -- Check
	assert_eq!(value, 9);
	assert_eq!(sync_tx.name(), "spsc-sync-test");
	assert_eq!(sync_rx.name(), "spsc-sync-test");
	Ok(())
}

#[test]
fn test_event_base_spsc_try_operations() -> Result<()> {
	// -- Setup & Fixtures
	let (tx, rx) = new_spsc_bounded::<u32>("spsc-try-test", 1).map_err(boxed)?;

	// -- Exec
	let first = tx.try_send(1).map_err(boxed)?;
	let second = tx.try_send(2).map_err(boxed)?;
	let received = rx.try_recv().map_err(boxed)?;

	// -- Check
	assert!(first.is_none());
	assert_eq!(second, Some(2));
	assert_eq!(received, Some(1));
	assert_eq!(rx.try_recv().map_err(boxed)?, None);
	Ok(())
}

#[test]
fn test_event_base_mpmc_try_operations() -> Result<()> {
	// -- Setup & Fixtures
	let (tx, rx) = new_mpmc_bounded::<u32>("mpmc-try-test", 1).map_err(boxed)?;

	// -- Exec
	let first = tx.try_send(1).map_err(boxed)?;
	let second = tx.try_send(2).map_err(boxed)?;
	let received = rx.try_recv().map_err(boxed)?;

	// -- Check
	assert!(first.is_none());
	assert_eq!(second, Some(2));
	assert_eq!(received, Some(1));
	assert_eq!(rx.try_recv().map_err(boxed)?, None);
	Ok(())
}

#[test]
fn zero_capacity_is_refused_by_every_factory() {
	assert!(matches!(
		new_spsc_bounded::<u32>("zero-spsc", 0),
		Err(EventBaseError::InvalidCapacity { name: "zero-spsc", capacity: 0 })
	));
	assert!(matches!(
		new_mpmc_bounded::<u32>("zero-mpmc", 0),
		Err(EventBaseError::InvalidCapacity { name: "zero-mpmc", capacity: 0 })
	));
	assert!(matches!(
		new_mpsc_bounded::<u32>("zero-mpsc", 0),
		Err(EventBaseError::InvalidCapacity { name: "zero-mpsc", capacity: 0 })
	));
}

#[test]
fn default_factories_name_both_endpoints() {
	let (tx, rx) = new_spsc_bounded_default::<u8>("d-spsc").unwrap();
	assert_eq!((tx.name(), rx.name()), ("d-spsc", "d-spsc"));
	assert_eq!((tx.capacity(), rx.capacity()), (DEFAULT_CAPACITY, DEFAULT_CAPACITY));
	let (tx, rx) = new_mpmc_bounded_default::<u8>("d-mpmc").unwrap();
	assert_eq!((tx.name(), rx.name()), ("d-mpmc", "d-mpmc"));
	let (tx, rx) = new_mpsc_bounded_default::<u8>("d-mpsc").unwrap();
	assert_eq!((tx.name(), rx.name()), ("d-mpsc", "d-mpsc"));
}

#[test]
fn spsc_receiver_reports_dropped_sender() {
	let (tx, rx) = new_spsc_bounded::<u32>("spsc-drop", 2).unwrap();
	assert_eq!(tx.try_send(5).unwrap(), None);
	drop(tx);
	// a queued message is still handed out, then the disconnection shows
	assert_eq!(rx.try_recv().unwrap(), Some(5));
	assert!(matches!(rx.try_recv(), Err(EventBaseError::RxDisconnected { name: "spsc-drop" })));
	assert!(rx.is_disconnected());
}

#[test]
fn spsc_sender_reports_dropped_receiver() {
	let (tx, rx) = new_spsc_bounded::<u32>("spsc-gone", 2).unwrap();
	drop(rx);
	assert!(tx.is_disconnected());
	assert!(matches!(tx.try_send(1), Err(EventBaseError::TxDisconnected { name: "spsc-gone" })));
	let sync_tx = tx.into_sync_tx();
	assert!(matches!(sync_tx.send_sync(2), Err(EventBaseError::TxDisconnected { name: "spsc-gone" })));
	assert!(matches!(sync_tx.try_send(3), Err(EventBaseError::TxDisconnected { name: "spsc-gone" })));
}

#[test]
fn sync_spsc_recv_after_sender_dropped() {
	let (tx, rx) = new_spsc_bounded::<u32>("sync-drop", 1).unwrap();
	let sync_tx = tx.into_sync_tx();
	let sync_rx = rx.into_sync_rx();
	assert_eq!(sync_tx.try_send(4).unwrap(), None);
	assert_eq!(sync_tx.try_send(5).unwrap(), Some(5));
	assert!(!sync_tx.is_disconnected());
	drop(sync_tx);
	assert_eq!(sync_rx.recv_sync().unwrap(), 4);
	assert!(matches!(sync_rx.recv_sync(), Err(EventBaseError::RxDisconnected { name: "sync-drop" })));
	assert!(matches!(sync_rx.try_recv(), Err(EventBaseError::RxDisconnected { name: "sync-drop" })));
	assert!(sync_rx.is_disconnected());
}

#[test]
fn mpmc_clones_share_the_channel() {
	let (tx, rx) = new_mpmc_bounded::<u32>("mpmc-clone", 2).unwrap();
	let second_tx = tx.clone();
	let second_rx = rx.clone();
	assert_eq!(second_tx.name(), "mpmc-clone");
	assert_eq!(second_rx.name(), "mpmc-clone");
	tx.send_sync(1).unwrap();
	second_tx.send_sync(2).unwrap();
	assert_eq!(rx.try_recv().unwrap(), Some(1));
	assert_eq!(second_rx.try_recv().unwrap(), Some(2));
	drop(tx);
	assert!(!second_rx.is_disconnected());
	drop(second_tx);
	assert!(matches!(rx.try_recv(), Err(EventBaseError::RxDisconnected { name: "mpmc-clone" })));
}

#[test]
fn mpmc_send_sync_uses_free_room() {
	let (tx, rx) = new_mpmc_bounded::<u32>("mpmc-room", 2).unwrap();
	tx.send_sync(1).unwrap();
	tx.send_sync(2).unwrap();
	assert_eq!(tx.try_send(3).unwrap(), Some(3));
	assert_eq!(rx.try_recv().unwrap(), Some(1));
	assert_eq!(rx.try_recv().unwrap(), Some(2));
	assert_eq!(rx.try_recv().unwrap(), None);
}

#[test]
fn mpmc_send_sync_reports_dropped_receivers() {
	let (tx, rx) = new_mpmc_bounded::<u32>("mpmc-gone", 1).unwrap();
	drop(rx);
	assert!(tx.is_disconnected());
	assert!(matches!(tx.send_sync(1), Err(EventBaseError::TxDisconnected { name: "mpmc-gone" })));
}

#[test]
fn mpsc_try_operations() {
	let (tx, rx) = new_mpsc_bounded::<u32>("mpsc-try", 1).unwrap();
	let other = tx.clone();
	assert_eq!(other.name(), "mpsc-try");
	assert_eq!(tx.try_send(1).unwrap(), None);
	assert_eq!(other.try_send(2).unwrap(), Some(2));
	assert_eq!(rx.try_recv().unwrap(), Some(1));
	assert_eq!(rx.try_recv().unwrap(), None);
	drop(tx);
	drop(other);
	assert!(rx.is_disconnected());
	assert!(matches!(rx.try_recv(), Err(EventBaseError::RxDisconnected { name: "mpsc-try" })));
}

#[test]
fn mpsc_sender_reports_dropped_receiver() {
	let (tx, rx) = new_mpsc_bounded::<u32>("mpsc-gone", 1).unwrap();
	drop(rx);
	assert!(tx.is_disconnected());
	assert!(matches!(tx.try_send(1), Err(EventBaseError::TxDisconnected { name: "mpsc-gone" })));
}

#[test]
fn error_classification_and_names() {
	let e = EventBaseError::InvalidCapacity { name: "c", capacity: 0 };
	assert!(!e.is_disconnected());
	assert_eq!(e.channel_name(), "c");
	assert!(EventBaseError::TxDisconnected { name: "t" }.is_disconnected());
	assert!(EventBaseError::RxDisconnected { name: "r" }.is_disconnected());
	assert_eq!(EventBaseError::RxDisconnected { name: "r" }.channel_name(), "r");
}

#[test]
fn endpoints_keep_the_capacity_they_were_made_with() {
	let (tx, rx) = new_spsc_bounded::<u8>("cap-spsc", 3).unwrap();
	assert_eq!((tx.capacity(), rx.capacity()), (3, 3));
	let (sync_tx, sync_rx) = (tx.into_sync_tx(), rx.into_sync_rx());
	assert_eq!((sync_tx.capacity(), sync_rx.capacity()), (3, 3));
	for v in 0..3u8 {
		assert_eq!(sync_tx.try_send(v).unwrap(), None);
	}
	assert_eq!(sync_tx.try_send(9).unwrap(), Some(9));

	let (tx, rx) = new_mpmc_bounded::<u8>("cap-mpmc", 2).unwrap();
	assert_eq!((tx.clone().capacity(), rx.clone().capacity()), (2, 2));
	assert_eq!(tx.try_send(1).unwrap(), None);
	assert_eq!(tx.try_send(2).unwrap(), None);
	assert_eq!(tx.try_send(3).unwrap(), Some(3));

	let (tx, rx) = new_mpsc_bounded::<u8>("cap-mpsc", 5).unwrap();
	assert_eq!((tx.clone().capacity(), rx.capacity()), (5, 5));
}
