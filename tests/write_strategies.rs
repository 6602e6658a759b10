use blob_write::azblob::{AzblobStep, AzblobWriter, STATUS_CREATED, STATUS_NOT_FOUND, STATUS_OK};
use blob_write::buffer::{AtLeastBufWriter, ExactBufWriter};
use blob_write::error::ErrorKind;
use blob_write::header::{is_append_blob, parse_decimal_u64};
use blob_write::multipart::{MultipartStep, MultipartUploadWriter};
use blob_write::op::OpWrite;

fn append_writer() -> AzblobWriter {
    AzblobWriter::new(OpWrite::new().with_append(true), "dir/blob".to_string())
}

#[test]
fn append_to_absent_blob_tracks_offsets() {
    let mut w = append_writer();
    // first append of 10 bytes
    assert_eq!(w.write(10).unwrap(), AzblobStep::GetProperties);
    assert_eq!(w.on_properties(10, STATUS_NOT_FOUND, None).unwrap(), AzblobStep::CreateAppendBlob);
    assert_eq!(w.on_created(10, STATUS_CREATED), AzblobStep::AppendBlock { size: 10, position: Some(0) });
    assert_eq!(w.on_appended(10, STATUS_CREATED, Some(b"0")), AzblobStep::Done);
    assert_eq!(w.position(), Some(10));
    // second append of 5 bytes, no further lookup
    assert_eq!(w.write(5).unwrap(), AzblobStep::AppendBlock { size: 5, position: Some(10) });
    assert_eq!(w.on_appended(5, STATUS_CREATED, Some(b"10")), AzblobStep::Done);
    assert_eq!(w.position(), Some(15));
}

#[test]
fn one_shot_without_length_is_unsupported() {
    let w = AzblobWriter::new(OpWrite::new(), "a".to_string());
    let e = w.write(100).unwrap_err();
    assert_eq!(e.kind(), ErrorKind::Unsupported);
    assert_eq!(e.message, "write without content length is not supported");
    let e = w.sink(100).unwrap_err();
    assert_eq!(e.kind, ErrorKind::Unsupported);
    assert_eq!(w.position(), None);
}

#[test]
fn one_shot_with_length_puts_once() {
    let w = AzblobWriter::new(OpWrite::new().with_content_length(100), "a".to_string());
    assert_eq!(w.write(100).unwrap(), AzblobStep::PutBlob { size: 100 });
    assert_eq!(w.sink(7).unwrap(), AzblobStep::PutBlob { size: 7 });
    assert_eq!(w.on_put(STATUS_CREATED), AzblobStep::Done);
    assert_eq!(w.on_put(STATUS_OK), AzblobStep::Done);
    assert_eq!(w.on_put(500), AzblobStep::ReadError);
}

#[test]
fn append_to_existing_append_blob() {
    let mut w = append_writer();
    assert_eq!(
        w.on_properties(4, STATUS_OK, Some(b"AppendBlob")).unwrap(),
        AzblobStep::AppendBlock { size: 4, position: None }
    );
    assert_eq!(w.on_appended(4, STATUS_CREATED, Some(b"+96")), AzblobStep::Done);
    assert_eq!(w.position(), Some(100));
}

#[test]
fn append_to_block_blob_is_condition_not_match() {
    let w = append_writer();
    let e = w.on_properties(4, STATUS_OK, Some(b"BlockBlob")).unwrap_err();
    assert_eq!(e.kind, ErrorKind::ConditionNotMatch);
    let e = w.on_properties(4, STATUS_OK, None).unwrap_err();
    assert_eq!(e.kind, ErrorKind::ConditionNotMatch);
}

#[test]
fn failed_responses_read_the_error() {
    let mut w = append_writer();
    assert_eq!(w.on_properties(4, 403, None).unwrap(), AzblobStep::ReadError);
    assert_eq!(w.on_created(4, 409), AzblobStep::ReadError);
    assert_eq!(w.position(), None);
    w.on_created(4, STATUS_CREATED);
    assert_eq!(w.on_appended(4, 412, Some(b"0")), AzblobStep::ReadError);
    assert_eq!(w.position(), Some(0));
}

#[test]
fn append_without_offset_forgets_position() {
    let mut w = append_writer();
    w.on_created(3, STATUS_CREATED);
    assert_eq!(w.on_appended(3, STATUS_CREATED, None), AzblobStep::Done);
    assert_eq!(w.position(), None);
    assert_eq!(w.write(3).unwrap(), AzblobStep::GetProperties);
    w.on_created(3, STATUS_CREATED);
    assert_eq!(w.on_appended(3, STATUS_CREATED, Some(b"12x")), AzblobStep::Done);
    assert_eq!(w.position(), None);
    w.on_created(3, STATUS_CREATED);
    assert_eq!(w.on_appended(3, STATUS_CREATED, Some(b"18446744073709551614")), AzblobStep::Done);
    assert_eq!(w.position(), None);
}

#[test]
fn blob_writer_abort_and_close_are_no_ops() {
    let mut w = append_writer();
    w.on_created(3, STATUS_CREATED);
    assert!(w.abort().is_ok());
    assert!(w.close().is_ok());
    assert_eq!(w.position(), Some(0));
    assert_eq!(w.path(), "dir/blob");
    assert!(w.op().append());
}

#[test]
fn decimal_offsets() {
    assert_eq!(parse_decimal_u64(b"0"), Some(0));
    assert_eq!(parse_decimal_u64(b"1234"), Some(1234));
    assert_eq!(parse_decimal_u64(b"+7"), Some(7));
    assert_eq!(parse_decimal_u64(b"18446744073709551615"), Some(u64::MAX));
    assert_eq!(parse_decimal_u64(b"18446744073709551616"), None);
    assert_eq!(parse_decimal_u64(b""), None);
    assert_eq!(parse_decimal_u64(b"+"), None);
    assert_eq!(parse_decimal_u64(b"-1"), None);
    assert_eq!(parse_decimal_u64(b" 1"), None);
    assert_eq!(parse_decimal_u64(b"1a"), None);
}

#[test]
fn blob_type_header() {
    assert!(is_append_blob(Some(b"AppendBlob")));
    assert!(!is_append_blob(Some(b"appendblob")));
    assert!(!is_append_blob(Some(b"AppendBlob ")));
    assert!(!is_append_blob(None));
}

#[test]
fn op_builders_and_getters() {
    let op = OpWrite::new()
        .with_content_length(5)
        .with_content_type("text/plain")
        .with_cache_control("no-cache");
    assert!(!op.append());
    assert_eq!(op.content_length(), Some(5));
    assert_eq!(op.content_type(), Some("text/plain"));
    assert_eq!(op.cache_control(), Some("no-cache"));
    assert_eq!(OpWrite::new().content_type(), None);
}

fn run_exact(n: usize, writes: &[&[u8]]) -> Vec<Vec<u8>> {
    let mut w = ExactBufWriter::new(n);
    let mut out = Vec::new();
    for bs in writes {
        out.extend(w.write(bs));
    }
    out.extend(w.close());
    out
}

#[test]
fn exact_buffer_slices_into_fixed_chunks() {
    let out = run_exact(4, &[b"ab", b"cdefghi", b"", b"jk"]);
    assert_eq!(out, vec![b"abcd".to_vec(), b"efgh".to_vec(), b"ijk".to_vec()]);
    assert_eq!(out.concat(), b"abcdefghijk".to_vec());
}

#[test]
fn exact_buffer_keeps_remainder_until_close() {
    let mut w = ExactBufWriter::new(3);
    assert!(w.write(b"ab").is_empty());
    assert_eq!(w.buffered(), 2);
    assert_eq!(w.write(b"cdefg"), vec![b"abc".to_vec(), b"def".to_vec()]);
    assert_eq!(w.buffered(), 1);
    assert_eq!(w.close(), Some(b"g".to_vec()));
    assert_eq!(w.close(), None);
}

#[test]
fn exact_buffer_even_split_has_no_short_chunk() {
    let out = run_exact(2, &[b"abcd", b"ef"]);
    assert_eq!(out, vec![b"ab".to_vec(), b"cd".to_vec(), b"ef".to_vec()]);
    assert!(run_exact(2, &[]).is_empty());
}

#[test]
fn exact_buffer_abort_drops_bytes() {
    let mut w = ExactBufWriter::new(8);
    assert!(w.write(b"abc").is_empty());
    w.abort();
    assert_eq!(w.buffered(), 0);
    assert_eq!(w.close(), None);
}

#[test]
fn at_least_buffer_forwards_whole_buffer() {
    let mut w = AtLeastBufWriter::new(4);
    assert_eq!(w.write(b"ab"), None);
    assert_eq!(w.write(b"c"), None);
    assert_eq!(w.write(b"defgh"), Some(b"abcdefgh".to_vec()));
    assert_eq!(w.buffered(), 0);
    assert_eq!(w.write(b"wxyz"), Some(b"wxyz".to_vec()));
    assert_eq!(w.write(b"q"), None);
    assert_eq!(w.close(), Some(b"q".to_vec()));
    assert_eq!(w.close(), None);
}

#[test]
fn at_least_buffer_chunks_never_short_before_close() {
    let n = 5;
    let mut w = AtLeastBufWriter::new(n);
    let mut all = Vec::new();
    let mut forwarded = Vec::new();
    for i in 0..20u8 {
        let bs: Vec<u8> = (0..(i % 4)).map(|k| i * 4 + k).collect();
        all.extend_from_slice(&bs);
        if let Some(c) = w.write(&bs) {
            assert!(c.len() >= n);
            forwarded.push(c);
        }
    }
    if let Some(c) = w.close() {
        assert!(c.len() < n);
        forwarded.push(c);
    }
    assert_eq!(forwarded.concat(), all);
}

#[test]
fn at_least_buffer_abort_drops_bytes() {
    let mut w = AtLeastBufWriter::new(8);
    assert_eq!(w.write(b"abc"), None);
    w.abort();
    assert_eq!(w.close(), None);
}

#[test]
fn multipart_parts_complete_in_upload_order() {
    let mut w = MultipartUploadWriter::new();
    assert!(matches!(w.write(10), MultipartStep::Initiate));
    w.on_initiated("upload-1".to_string());
    assert_eq!(w.upload_id(), Some("upload-1"));
    for (i, tag) in ["e1", "e2", "e3"].iter().enumerate() {
        match w.write(10 + i as u64) {
            MultipartStep::UploadPart { upload_id, part_number, size } => {
                assert_eq!(upload_id, "upload-1");
                assert_eq!(part_number, i as u64 + 1);
                assert_eq!(size, 10 + i as u64);
            }
            other => panic!("unexpected step {:?}", other),
        }
        w.on_part_uploaded(10 + i as u64, tag.to_string()).unwrap();
    }
    match w.close() {
        MultipartStep::Complete { upload_id, parts } => {
            assert_eq!(upload_id, "upload-1");
            let numbers: Vec<u64> = parts.iter().map(|p| p.part_number).collect();
            assert_eq!(numbers, vec![1, 2, 3]);
            let tags: Vec<&str> = parts.iter().map(|p| p.etag.as_str()).collect();
            assert_eq!(tags, vec!["e1", "e2", "e3"]);
            assert_eq!(parts[2].size, 12);
        }
        other => panic!("unexpected step {:?}", other),
    }
}

#[test]
fn multipart_close_without_parts_is_left_to_backend() {
    let mut w = MultipartUploadWriter::new();
    assert!(matches!(w.close(), MultipartStep::Initiate));
    w.on_initiated("u".to_string());
    match w.close() {
        MultipartStep::Complete { upload_id, parts } => {
            assert_eq!(upload_id, "u");
            assert!(parts.is_empty());
        }
        other => panic!("unexpected step {:?}", other),
    }
}

#[test]
fn multipart_abort_before_initiation_is_no_op() {
    let w = MultipartUploadWriter::new();
    assert!(matches!(w.abort(), MultipartStep::Done));
    assert_eq!(w.upload_id(), None);
}

#[test]
fn multipart_abort_after_initiation() {
    let mut w = MultipartUploadWriter::new();
    w.on_initiated("u".to_string());
    w.on_part_uploaded(5, "t".to_string()).unwrap();
    match w.abort() {
        MultipartStep::AbortUpload { upload_id } => assert_eq!(upload_id, "u"),
        other => panic!("unexpected step {:?}", other),
    }
    w.on_aborted();
    assert_eq!(w.upload_id(), None);
    assert!(w.parts().is_empty());
    assert!(matches!(w.abort(), MultipartStep::Done));
}

#[test]
fn multipart_part_without_session_is_refused() {
    let mut w = MultipartUploadWriter::new();
    let e = w.on_part_uploaded(5, "t".to_string()).unwrap_err();
    assert_eq!(e.kind, ErrorKind::Unexpected);
    assert!(w.parts().is_empty());
}

#[test]
fn multipart_failed_part_keeps_count() {
    let mut w = MultipartUploadWriter::new();
    w.on_initiated("u".to_string());
    w.on_initiated("other".to_string());
    assert_eq!(w.upload_id(), Some("u"));
    // a part whose upload failed is never recorded, so it is retried under the same number
    assert!(matches!(w.write(3), MultipartStep::UploadPart { part_number: 1, .. }));
    assert!(matches!(w.sink(3), MultipartStep::UploadPart { part_number: 1, .. }));
}
