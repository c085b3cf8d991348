use event_ipc::ipc::socket::envelope::{Request, RequestId, Response};
use event_ipc::ipc::socket::wire::{decode_frame, encode_frame, Decoded, FrameDecoder, WireError, MAX_FRAME_LEN};

type Result<T> = core::result::Result<T, Box<dyn std::error::Error + Send + Sync>>;

fn wire(e: WireError) -> Box<dyn std::error::Error + Send + Sync> {
	format!("{e:?}").into()
}

/// Reads one frame from `decoder`, treating the held bytes as everything the
/// stream will ever deliver.
fn read_frame_at_eof(decoder: &mut FrameDecoder) -> core::result::Result<Option<Vec<u8>>, WireError> {
	match decoder.next_frame()? {
		Some(payload) => Ok(Some(payload)),
		None => decoder.finish().map(|()| None),
	}
}

#[test]
fn test_ipc_socket_wire_read_clean_eof() -> Result<()> {
	// -- Setup & Fixtures
	let mut reader = FrameDecoder::new();

	// -- Exec
	let actual = read_frame_at_eof(&mut reader).map_err(wire)?;

	// -- Check
	assert!(actual.is_none());

	Ok(())
}

#[test]
fn test_ipc_socket_wire_read_partial_length_prefix() -> Result<()> {
	// -- Setup & Fixtures
	let mut reader = FrameDecoder::new();
	reader.extend(&[0x01, 0x02]);

	// -- Exec & Check
	assert!(read_frame_at_eof(&mut reader).is_err());

	Ok(())
}

#[test]
fn test_ipc_socket_wire_read_truncated_payload() -> Result<()> {
	// -- Setup & Fixtures
	let mut reader = FrameDecoder::new();
	reader.extend(&3u32.to_le_bytes());
	reader.extend(&[0x01, 0x02]);

	// -- Exec & Check
	assert!(read_frame_at_eof(&mut reader).is_err());

	Ok(())
}

#[test]
fn test_ipc_socket_wire_reject_oversized_frame() -> Result<()> {
	// -- Setup & Fixtures
	let mut reader = FrameDecoder::new();
	let oversized_len = (MAX_FRAME_LEN + 1).to_le_bytes();
	reader.extend(&oversized_len);

	// -- Exec & Check
	assert!(read_frame_at_eof(&mut reader).is_err());

	Ok(())
}

#[test]
fn test_ipc_socket_wire_max_frame_boundary() -> Result<()> {
	// -- Setup & Fixtures
	let payload = vec![0u8; MAX_FRAME_LEN as usize - 4];
	let serialized = postcard::to_stdvec(&payload)?;
	assert_eq!(serialized.len(), MAX_FRAME_LEN as usize);

	let mut reader = FrameDecoder::new();

	// -- Exec
	let frame = encode_frame(&serialized).map_err(wire)?;
	reader.extend(&frame);
	let bytes = read_frame_at_eof(&mut reader).map_err(wire)?.ok_or("missing maximum frame")?;
	let actual: Vec<u8> = postcard::from_bytes(&bytes)?;

	// -- Check
	assert_eq!(actual.len(), payload.len());

	Ok(())
}

#[test]
fn test_ipc_socket_wire_multiple_buffered_frames() -> Result<()> {
	// -- Setup & Fixtures
	let mut reader = FrameDecoder::new();
	reader.extend(&encode_frame(&postcard::to_stdvec(&11u32)?).map_err(wire)?);
	reader.extend(&encode_frame(&postcard::to_stdvec(&22u32)?).map_err(wire)?);

	// -- Exec
	let first_bytes = read_frame_at_eof(&mut reader).map_err(wire)?.ok_or("missing first frame")?;
	let second_bytes = read_frame_at_eof(&mut reader).map_err(wire)?.ok_or("missing second frame")?;
	let end = read_frame_at_eof(&mut reader).map_err(wire)?;
	let first: u32 = postcard::from_bytes(&first_bytes)?;
	let second: u32 = postcard::from_bytes(&second_bytes)?;

	// -- Check
	assert_eq!(first, 11);
	assert_eq!(second, 22);
	assert!(end.is_none());

	Ok(())
}

#[test]
fn test_ipc_socket_wire_little_endian_prefix() -> Result<()> {
	// -- Setup & Fixtures
	let value = 42u8;
	let payload = postcard::to_stdvec(&value)?;

	// -- Exec
	let frame = encode_frame(&payload).map_err(wire)?;
	let mut prefix = [0u8; 4];
	prefix.copy_from_slice(&frame[..4]);
	let actual_payload = frame[4..].to_vec();

	// -- Check
	assert_eq!(prefix, [1, 0, 0, 0]);
	assert_eq!(actual_payload, payload);

	Ok(())
}

#[test]
fn test_ipc_socket_wire_typed_request_response_round_trip() -> Result<()> {
	// -- Setup & Fixtures
	let request = Request {
		id: 7u64.into(),
		method: String::from("ping"),
	};
	let response = Response {
		id: 7u64.into(),
		reply: String::from("pong"),
	};
	let mut request_reader = FrameDecoder::new();
	let mut response_reader = FrameDecoder::new();

	// -- Exec
	let request_bytes = postcard::to_stdvec(&(request.id.value(), &request.method))?;
	request_reader.extend(&encode_frame(&request_bytes).map_err(wire)?);
	let bytes = read_frame_at_eof(&mut request_reader).map_err(wire)?.ok_or("missing request frame")?;
	let (id, method): (u64, String) = postcard::from_bytes(&bytes)?;
	let actual_request = Request { id: RequestId::from(id), method };

	let response_bytes = postcard::to_stdvec(&(response.id.value(), &response.reply))?;
	response_reader.extend(&encode_frame(&response_bytes).map_err(wire)?);
	let bytes = read_frame_at_eof(&mut response_reader).map_err(wire)?.ok_or("missing response frame")?;
	let (id, reply): (u64, String) = postcard::from_bytes(&bytes)?;
	let actual_response = Response { id: RequestId::from(id), reply };

	// -- Check
	assert_eq!(actual_request.id, request.id);
	assert_eq!(actual_request.method, request.method);
	assert_eq!(actual_response.id, response.id);
	assert_eq!(actual_response.reply, response.reply);

	Ok(())
}

#[test]
fn encode_refuses_payloads_over_the_maximum() {
	let payload = vec![7u8; MAX_FRAME_LEN as usize + 1];
	assert_eq!(encode_frame(&payload), Err(WireError::FrameTooLarge { len: MAX_FRAME_LEN + 1 }));
	let empty = encode_frame(&[]).unwrap();
	assert_eq!(empty, vec![0, 0, 0, 0]);
}

#[test]
fn decode_reports_incomplete_then_whole_frame() {
	let frame = encode_frame(&[9, 8, 7]).unwrap();
	assert_eq!(frame, vec![3, 0, 0, 0, 9, 8, 7]);
	for cut in 0..frame.len() {
		assert!(matches!(decode_frame(&frame[..cut]), Ok(Decoded::Incomplete)));
	}
	let mut with_rest = frame.clone();
	with_rest.extend_from_slice(&[1, 2]);
	match decode_frame(&with_rest) {
		Ok(Decoded::Frame { payload, consumed }) => {
			assert_eq!(payload, vec![9, 8, 7]);
			assert_eq!(consumed, 7);
		}
		other => panic!("unexpected {other:?}"),
	}
	let big = 0x0100_0000u32.to_le_bytes();
	assert_eq!(decode_frame(&big).unwrap_err(), WireError::FrameTooLarge { len: 0x0100_0000 });
}

#[test]
fn decoder_reads_a_frame_delivered_byte_by_byte() {
	let frame = encode_frame(b"hello").unwrap();
	let mut decoder = FrameDecoder::new();
	let mut got = None;
	let mut fed = 0;
	while got.is_none() {
		let n = decoder.needed();
		assert!(n > 0);
		decoder.extend(&frame[fed..fed + 1]);
		fed += 1;
		got = decoder.next_frame().unwrap();
	}
	assert_eq!(fed, frame.len());
	assert_eq!(got.unwrap(), b"hello".to_vec());
	assert_eq!(decoder.buffered_len(), 0);
	assert_eq!(decoder.needed(), 4);
	assert_eq!(decoder.finish(), Ok(()));
}

#[test]
fn decoder_needed_counts_prefix_then_payload() {
	let mut decoder = FrameDecoder::new();
	assert_eq!(decoder.needed(), 4);
	decoder.extend(&[2, 0]);
	assert_eq!(decoder.needed(), 2);
	decoder.extend(&[0, 0, 5]);
	assert_eq!(decoder.needed(), 1);
	assert_eq!(decoder.next_frame(), Ok(None));
	assert_eq!(decoder.finish(), Err(WireError::UnexpectedEof { buffered: 5 }));
	decoder.extend(&[6]);
	assert_eq!(decoder.needed(), 0);
	assert_eq!(decoder.next_frame(), Ok(Some(vec![5, 6])));
}

#[test]
fn decoder_keeps_an_oversized_prefix() {
	let mut decoder = FrameDecoder::new();
	decoder.extend(&u32::MAX.to_le_bytes());
	assert_eq!(decoder.next_frame(), Err(WireError::FrameTooLarge { len: u32::MAX }));
	assert_eq!(decoder.buffered_len(), 4);
	assert_eq!(decoder.needed(), 0);
}
