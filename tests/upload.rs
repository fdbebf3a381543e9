use appwrite::ids::UNIQUE_ID;
use appwrite::source::{path_name_and_type, read_len, InputFile};
use appwrite::upload::{
    build_chunk_form, range_end, range_header, resume_offset, should_probe, upload_mode,
    ChunkRequest, ChunkUpload, UploadMode, CONTENT_RANGE_HEADER, CONTINUATION_HEADER,
    DEFAULT_CHUNK_SIZE,
};

const SOURCE: &[u8] = b"0123456789ABCDEFGHIJKLMNO";

fn form_fields() -> Vec<(String, String)> {
    vec![
        ("read[]".to_string(), "read(\"any\")".to_string()),
        ("fileId".to_string(), UNIQUE_ID.to_string()),
    ]
}

/// Runs a chunked upload of `data` against a service that answers chunk `k` with the id
/// `ids[k]`, and returns each request with the bytes it carried.
fn run_upload(
    data: &[u8],
    chunk_size: usize,
    stored: Option<u64>,
    ids: &[&str],
) -> Vec<(ChunkRequest, Vec<u8>)> {
    let mut source = InputFile::from_bytes(data.to_vec(), None, None);
    let mut upload = ChunkUpload::new(source.size(), chunk_size, stored);
    source.seek(upload.offset());
    let fields = form_fields();
    let mut sent = Vec::new();
    loop {
        let mut buf = vec![0u8; upload.chunk_size()];
        let n = source.read_exact(&mut buf);
        buf.truncate(n);
        let request = match upload.next_request(n, &fields, "fileId") {
            Some(request) => request,
            None => break,
        };
        upload.record_sent(n, ids[sent.len()].to_string());
        sent.push((request, buf));
    }
    sent
}

#[test]
fn three_chunks_of_twenty_five_bytes() {
    assert_eq!(upload_mode(SOURCE.len(), 10), UploadMode::Chunked);
    let sent = run_upload(SOURCE, 10, None, &["f1", "f1", "f1"]);
    let ranges: Vec<String> = sent.iter().map(|(r, _)| r.content_range.clone()).collect();
    assert_eq!(ranges, vec!["bytes 0-9/25", "bytes 10-19/25", "bytes 20-24/25"]);
    assert_eq!(sent[0].1, b"0123456789".to_vec());
    assert_eq!(sent[1].1, b"ABCDEFGHIJ".to_vec());
    assert_eq!(sent[2].1, b"KLMNO".to_vec());
    assert_eq!(sent[2].1.len(), 5);
}

#[test]
fn resume_after_two_stored_chunks() {
    let sent = run_upload(SOURCE, 10, Some(2), &["f1"]);
    assert_eq!(sent.len(), 1);
    assert_eq!(sent[0].0.content_range, "bytes 20-24/25");
    assert_eq!(sent[0].1, b"KLMNO".to_vec());
}

#[test]
fn resume_past_the_end_sends_nothing() {
    let sent = run_upload(SOURCE, 10, Some(7), &[]);
    assert!(sent.is_empty());
    assert_eq!(resume_offset(7, 10, 25), 25);
    assert_eq!(resume_offset(0, 10, 25), 0);
    assert_eq!(resume_offset(u64::MAX, usize::MAX, 25), 25);
}

#[test]
fn small_source_is_single_shot() {
    assert_eq!(upload_mode(3, 10), UploadMode::SingleShot);
    assert_eq!(upload_mode(10, 10), UploadMode::Chunked);
    assert_eq!(upload_mode(0, 10), UploadMode::SingleShot);
    assert_eq!(upload_mode(3, DEFAULT_CHUNK_SIZE), UploadMode::SingleShot);
    assert_eq!(DEFAULT_CHUNK_SIZE, 5_242_880);
}

#[test]
fn second_chunk_carries_first_response_id() {
    let sent = run_upload(SOURCE, 10, None, &["abc123", "abc123", "abc123"]);
    let first = &sent[0].0;
    assert_eq!(first.continuation_id, None);
    assert!(first.form.contains(&("fileId".to_string(), UNIQUE_ID.to_string())));
    let second = &sent[1].0;
    assert_eq!(second.continuation_id, Some("abc123".to_string()));
    assert_eq!(
        second.form,
        vec![
            ("read[]".to_string(), "read(\"any\")".to_string()),
            ("fileId".to_string(), "abc123".to_string()),
        ]
    );
}

#[test]
fn chunks_sum_to_source_size() {
    for (size, chunk) in [(25usize, 10usize), (30, 10), (10, 10), (31, 7), (1, 1)] {
        let data: Vec<u8> = (0..size).map(|i| i as u8).collect();
        let ids = vec!["x"; size];
        let sent = run_upload(&data, chunk, None, &ids);
        let total: usize = sent.iter().map(|(_, b)| b.len()).sum();
        assert_eq!(total, size);
        let joined: Vec<u8> = sent.iter().flat_map(|(_, b)| b.clone()).collect();
        assert_eq!(joined, data);
    }
}

#[test]
fn range_ends_increase_and_stay_in_bounds() {
    let data = vec![7u8; 31];
    let ids = vec!["x"; 31];
    let sent = run_upload(&data, 7, None, &ids);
    let ends: Vec<usize> = sent
        .iter()
        .map(|(r, _)| {
            let range = r.content_range.trim_start_matches("bytes ");
            let (span, _) = range.split_once('/').unwrap();
            span.split_once('-').unwrap().1.parse().unwrap()
        })
        .collect();
    assert_eq!(ends, vec![6, 13, 20, 27, 30]);
}

#[test]
fn range_header_clamps_to_last_byte() {
    assert_eq!(range_header(0, 10, 25), "bytes 0-9/25");
    assert_eq!(range_header(20, 10, 25), "bytes 20-24/25");
    assert_eq!(range_header(24, 1, 25), "bytes 24-24/25");
    assert_eq!(range_end(0, 5_242_880, 12_000_000), 5_242_879);
    assert_eq!(range_end(10_485_760, 5_242_880, 12_000_000), 11_999_999);
    assert_eq!(range_end(40, 10, 25), 24);
}

#[test]
fn read_exact_stops_at_end_of_data() {
    let mut source = InputFile::from_bytes(b"abc".to_vec(), None, None);
    let mut buf = vec![9u8; 5];
    assert_eq!(source.read_exact(&mut buf), 3);
    assert_eq!(buf, vec![b'a', b'b', b'c', 9, 9]);
    assert_eq!(source.cursor(), 3);
    let mut buf = vec![9u8; 5];
    assert_eq!(source.read_exact(&mut buf), 0);
    assert_eq!(buf, vec![9u8; 5]);
    source.seek(1);
    let mut buf = vec![0u8; 1];
    assert_eq!(source.read_exact(&mut buf), 1);
    assert_eq!(buf, vec![b'b']);
    assert_eq!(read_len(3, 5, 10), 2);
    assert_eq!(read_len(5, 5, 10), 0);
    assert_eq!(read_len(0, 5, 2), 2);
}

#[test]
fn source_names_and_types() {
    let source = InputFile::from_bytes(vec![], None, None);
    assert_eq!(source.name(), "Unknown");
    assert_eq!(source.mime_type(), "application/octet-stream");
    let named = InputFile::from_bytes(vec![1], Some("a.txt".to_string()), Some("text/plain".to_string()));
    assert_eq!(named.name(), "a.txt");
    assert_eq!(named.mime_type(), "text/plain");
    assert_eq!(named.size(), 1);
    let (name, mime) = path_name_and_type("photos/cat.png");
    assert_eq!(name, "cat.png");
    assert_eq!(mime, "image/png");
    let (name, mime) = path_name_and_type("/");
    assert_eq!(name, "Unknown");
    assert_eq!(mime, "application/octet-stream");
    let (_, mime) = path_name_and_type("notes.unknownext");
    assert_eq!(mime, "application/octet-stream");
}

#[test]
fn probe_only_for_existing_ids() {
    assert!(!should_probe(&None));
    assert!(!should_probe(&Some(UNIQUE_ID.to_string())));
    assert!(should_probe(&Some("file-1".to_string())));
}

#[test]
fn form_keeps_caller_values_until_an_id_is_known() {
    let fields = form_fields();
    assert_eq!(build_chunk_form(&fields, "fileId", &None), fields);
    let form = build_chunk_form(&fields, "fileId", &Some("f9".to_string()));
    assert_eq!(form[0], fields[0]);
    assert_eq!(form[1], ("fileId".to_string(), "f9".to_string()));
    assert_eq!(build_chunk_form(&fields, "", &Some("f9".to_string())), fields);
    assert_eq!(CONTENT_RANGE_HEADER, "content-range");
    assert_eq!(CONTINUATION_HEADER, "x-appwrite-id");
}
