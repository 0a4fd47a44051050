use libheif_rs::context::{finish_write, top_level_count};
use libheif_rs::{
    CompressionFormat, ContextLifecycle, GrowStatus, HandleState, HeifError, HeifErrorCode,
    HeifErrorSubCode, ReadRequest, ReaderBridge, Release, VectorWriter,
};

#[test]
fn success_code_translates_to_ok() {
    assert!(HeifError::from_heif_error(0, 0, String::from("Success")).is_ok());
}

#[test]
fn failure_code_translates_to_error() {
    let e = HeifError::from_heif_error(2, 1000, String::from("Invalid input")).unwrap_err();
    assert_eq!(e.code, HeifErrorCode::InvalidInput);
    assert_eq!(e.sub_code, HeifErrorSubCode::Code(1000));
    assert_eq!(e.message, "Invalid input");
}

#[test]
fn every_named_code_translates() {
    let named = [
        (1, HeifErrorCode::InputDoesNotExist),
        (3, HeifErrorCode::UnsupportedFileType),
        (4, HeifErrorCode::UnsupportedFeature),
        (5, HeifErrorCode::UsageError),
        (6, HeifErrorCode::MemoryAllocationError),
        (7, HeifErrorCode::DecoderPluginError),
        (8, HeifErrorCode::EncoderPluginError),
        (9, HeifErrorCode::EncodingError),
        (10, HeifErrorCode::ColorProfileDoesNotExist),
        (11, HeifErrorCode::PluginLoadingError),
        (12, HeifErrorCode::Canceled),
        (13, HeifErrorCode::EndOfSequence),
    ];
    for (c, code) in named {
        let e = HeifError::from_heif_error(c, 0, String::new()).unwrap_err();
        assert_eq!(e.code, code);
        assert_eq!(e.sub_code, HeifErrorSubCode::Unspecified);
    }
}

#[test]
fn unknown_code_is_kept() {
    let e = HeifError::from_heif_error(77, 5, String::from("odd")).unwrap_err();
    assert_eq!(e.code, HeifErrorCode::Unknown(77));
    assert_eq!(e.sub_code, HeifErrorSubCode::Code(5));
}

#[test]
fn null_context_is_a_creation_failure() {
    let e = ContextLifecycle::after_alloc(true).unwrap_err();
    assert_eq!(e.code, HeifErrorCode::ContextCreateFailed);
    assert_eq!(e.sub_code, HeifErrorSubCode::Unspecified);
    assert_eq!(e.message, "");
}

#[test]
fn allocated_context_is_owned_without_reader() {
    let l = ContextLifecycle::after_alloc(false).unwrap();
    assert!(l.is_live());
    assert!(!l.holds_reader());
}

#[test]
fn release_frees_exactly_once() {
    let mut l = ContextLifecycle::after_alloc(false).unwrap();
    assert_eq!(l.release(), Release { free_handle: true, drop_reader: false });
    assert!(!l.is_live());
    assert_eq!(l.release(), Release { free_handle: false, drop_reader: false });
    assert_eq!(l.release(), Release { free_handle: false, drop_reader: false });
}

#[test]
fn release_drops_stored_reader_once() {
    let mut l = ContextLifecycle::after_alloc(false).unwrap();
    l.store_reader();
    assert!(l.holds_reader());
    assert!(l.is_live());
    assert_eq!(l.release(), Release { free_handle: true, drop_reader: true });
    assert!(!l.holds_reader());
    assert_eq!(l.release(), Release { free_handle: false, drop_reader: false });
    assert_ne!(HandleState::Live, HandleState::Released);
}

#[test]
fn writer_appends_each_chunk() {
    let mut w = VectorWriter::new();
    assert_eq!(w.len(), 0);
    assert_eq!(w.write(&[1, 2, 3]), 0);
    assert_eq!(w.write(&[]), 0);
    assert_eq!(w.write(&[4, 5]), 0);
    assert_eq!(w.len(), 5);
    assert_eq!(w.into_bytes(), vec![1, 2, 3, 4, 5]);
}

#[test]
fn finish_write_hands_over_bytes_on_success() {
    let mut w = VectorWriter::new();
    w.write(b"ftypheic");
    assert_eq!(finish_write(w, 0, 0, String::new()).unwrap(), b"ftypheic".to_vec());
}

#[test]
fn finish_write_reports_engine_failure() {
    let mut w = VectorWriter::new();
    w.write(&[9, 9]);
    let e = finish_write(w, 9, 3, String::from("cannot write")).unwrap_err();
    assert_eq!(e.code, HeifErrorCode::EncodingError);
    assert_eq!(e.sub_code, HeifErrorSubCode::Code(3));
    assert_eq!(e.message, "cannot write");
}

#[test]
fn bridge_forwards_reads_within_size() {
    let mut b = ReaderBridge::new(10);
    assert_eq!(b.size(), 10);
    assert!(b.handle_request(ReadRequest::Read(4)));
    assert_eq!(b.position(), 4);
    assert!(b.handle_request(ReadRequest::Read(6)));
    assert_eq!(b.position(), 10);
    assert!(b.handle_request(ReadRequest::Read(0)));
    assert_eq!(b.position(), 10);
}

#[test]
fn bridge_refuses_reads_past_size() {
    let mut b = ReaderBridge::new(10);
    assert!(b.handle_request(ReadRequest::Read(8)));
    assert!(!b.handle_request(ReadRequest::Read(3)));
    assert_eq!(b.position(), 8);
    assert!(!b.handle_request(ReadRequest::Read(usize::MAX)));
    assert_eq!(b.position(), 8);
}

#[test]
fn bridge_seeks_within_size_only() {
    let mut b = ReaderBridge::new(10);
    assert!(b.handle_request(ReadRequest::Seek(7)));
    assert_eq!(b.position(), 7);
    assert!(!b.handle_request(ReadRequest::Seek(11)));
    assert!(!b.handle_request(ReadRequest::Seek(-1)));
    assert_eq!(b.position(), 7);
    assert!(b.handle_request(ReadRequest::Seek(10)));
    assert!(!b.handle_request(ReadRequest::Read(1)));
    assert!(b.handle_request(ReadRequest::Seek(0)));
    assert!(b.handle_request(ReadRequest::Read(10)));
}

#[test]
fn empty_source_accepts_no_read() {
    let mut b = ReaderBridge::new(0);
    assert!(!b.handle_request(ReadRequest::Read(1)));
    assert!(b.handle_request(ReadRequest::Read(0)));
    assert_eq!(b.position(), 0);
}

#[test]
fn grow_status_against_size() {
    let b = ReaderBridge::new(100);
    assert_eq!(b.grow_status(100), GrowStatus::SizeReached);
    assert_eq!(b.grow_status(101), GrowStatus::SizeBeyondEof);
    assert_eq!(b.grow_status(-5), GrowStatus::SizeReached);
    assert_eq!(GrowStatus::SizeReached.native_code(), 0);
    assert_eq!(GrowStatus::SizeBeyondEof.native_code(), 2);
}

#[test]
fn top_level_count_clamps_negative() {
    assert_eq!(top_level_count(3), 3);
    assert_eq!(top_level_count(0), 0);
    assert_eq!(top_level_count(-1), 0);
    assert_eq!(top_level_count(i32::MAX), i32::MAX as usize);
}

#[test]
fn compression_format_codes() {
    assert_eq!(CompressionFormat::Undefined.native_code(), 0);
    assert_eq!(CompressionFormat::Hevc.native_code(), 1);
    assert_eq!(CompressionFormat::Avc.native_code(), 2);
    assert_eq!(CompressionFormat::Jpeg.native_code(), 3);
    assert_eq!(CompressionFormat::Av1.native_code(), 4);
    assert_eq!(CompressionFormat::Vvc.native_code(), 5);
    assert_eq!(CompressionFormat::Evc.native_code(), 6);
    assert_eq!(CompressionFormat::Jpeg2000.native_code(), 7);
    assert_eq!(CompressionFormat::Uncompressed.native_code(), 8);
    assert_eq!(CompressionFormat::Mask.native_code(), 9);
    assert_eq!(CompressionFormat::Htj2k.native_code(), 10);
}
