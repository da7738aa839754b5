use wiredesk_client::clipboard::clip_file::{
    pack_first_chunk, unpack_first_chunk, FileCaps, UnpackError,
};
use wiredesk_client::clipboard::incoming::{
    deliver_image, note_delivery, Delivery, IncomingClipboard,
};
use wiredesk_client::clipboard::png::{encode_rgba_to_png, ImageCodecError, RgbaImage};
use wiredesk_client::clipboard::{
    hash_bytes, hash_text, ClipboardState, CHUNK_SIZE, MAX_CLIPBOARD_BYTES, MAX_IMAGE_BYTES,
};
use wiredesk_client::protocol::{Message, FORMAT_FILE, FORMAT_PNG_IMAGE, FORMAT_TEXT_UTF8};

const CAPS: FileCaps = FileCaps { max_file_bytes: 20 * 1024 * 1024, max_filename_len: 255 };

/// A receiver whose clipboard takes everything.
struct Rig {
    inc: IncomingClipboard,
    state: ClipboardState,
    last: Option<Delivery>,
}

impl Rig {
    fn new() -> Rig {
        Rig {
            inc: IncomingClipboard::new(true, true, true, CAPS),
            state: ClipboardState::new(),
            last: None,
        }
    }

    fn chunk(&mut self, index: u16, data: Vec<u8>) {
        if let Some(d) = self.inc.on_chunk(index, data) {
            note_delivery(&mut self.state, &d, true);
            self.last = Some(d);
        }
    }

    fn feed_offer(&mut self, format: u8, payload: &[u8]) {
        self.inc.on_offer(format, payload.len() as u32);
        for (i, chunk) in payload.chunks(CHUNK_SIZE).enumerate() {
            self.chunk(i as u16, chunk.to_vec());
        }
    }

    fn nothing_seen(&self) -> bool {
        let s = self.state.get();
        s.text_history.is_empty() && s.image.is_none() && s.oversize_image.is_none()
    }
}

fn synthetic_rgba_4x4() -> RgbaImage {
    let mut bytes = Vec::with_capacity(4 * 4 * 4);
    for y in 0..4u8 {
        for x in 0..4u8 {
            bytes.push(x * 64);
            bytes.push(y * 64);
            bytes.push(0x80);
            bytes.push(0xFF);
        }
    }
    RgbaImage { width: 4, height: 4, bytes }
}

#[test]
fn incoming_image_reassembly() {
    let original = synthetic_rgba_4x4();
    let png = encode_rgba_to_png(&original).expect("encode");

    let mut rig = Rig::new();
    rig.feed_offer(FORMAT_PNG_IMAGE, &png);

    match rig.last.as_ref().expect("committed payload") {
        Delivery::Image { image, .. } => {
            assert_eq!(image.width, original.width);
            assert_eq!(image.height, original.height);
            assert_eq!(image.bytes, original.bytes);
        }
        other => panic!("expected image payload, got {other:?}"),
    }
    assert!(rig.state.get().image.is_some());
}

#[test]
fn incoming_text_reassembly_unchanged() {
    let text = "hello, мир";
    let mut rig = Rig::new();
    rig.feed_offer(FORMAT_TEXT_UTF8, text.as_bytes());

    match rig.last.as_ref().expect("committed payload") {
        Delivery::Text { text: s, .. } => assert_eq!(s, text),
        other => panic!("expected text, got {other:?}"),
    }
    assert!(!rig.state.get().text_history.is_empty());
}

#[test]
fn incoming_invalid_png_skipped() {
    let mut rig = Rig::new();
    let garbage = vec![0xDE, 0xAD, 0xBE, 0xEF, 0x00, 0x01, 0x02, 0x03];
    rig.feed_offer(FORMAT_PNG_IMAGE, &garbage);

    assert!(rig.last.is_none(), "no payload should commit");
    assert!(rig.nothing_seen());
    assert_eq!(rig.inc.expected_len, 0);
    assert_eq!(rig.inc.expected_format, 0);
}

#[test]
fn incoming_invalid_text_skipped() {
    let mut rig = Rig::new();
    rig.feed_offer(FORMAT_TEXT_UTF8, &[0xFF, 0xFE, 0xFD]);

    assert!(rig.last.is_none(), "no payload should commit");
    assert!(rig.nothing_seen());
    assert_eq!(rig.inc.expected_len, 0);
    assert_eq!(rig.inc.expected_format, 0);
}

#[test]
fn incoming_unknown_format_skipped() {
    let mut rig = Rig::new();
    rig.feed_offer(0xFE, b"opaque");
    assert!(rig.last.is_none());
    assert!(rig.nothing_seen());
}

#[test]
fn on_offer_unknown_format_rejected() {
    let mut rig = Rig::new();
    rig.inc.on_offer(0xFE, u32::MAX);

    assert_eq!(rig.inc.expected_len, 0, "unknown format must not arm reassembly");
    assert_eq!(rig.inc.expected_format, 0);
    assert_eq!(rig.inc.incoming_total, 0);
    assert_eq!(rig.inc.incoming_progress, 0);

    for i in 0..16u16 {
        rig.chunk(i, vec![0u8; 256]);
    }
    assert_eq!(rig.inc.received.len(), 0, "post-rejection chunks must not buffer");
    assert_eq!(rig.inc.received_total, 0);
}

#[test]
fn incoming_offer_during_reassembly_aborts_previous() {
    let mut rig = Rig::new();
    rig.inc.on_offer(FORMAT_TEXT_UTF8, 1024);
    rig.chunk(0, vec![b'a'; 256]);
    assert_eq!(rig.inc.received_total, 256);

    rig.inc.on_offer(FORMAT_PNG_IMAGE, 512);
    assert_eq!(rig.inc.expected_format, FORMAT_PNG_IMAGE);
    assert_eq!(rig.inc.expected_len, 512);
    assert_eq!(rig.inc.received_total, 0);
    assert!(rig.inc.received.is_empty(), "previous chunks must be dropped");
}

#[test]
fn incoming_reset_clears_state() {
    let mut rig = Rig::new();
    rig.inc.on_offer(FORMAT_PNG_IMAGE, 4096);
    rig.chunk(0, vec![0u8; 256]);
    rig.chunk(1, vec![0u8; 256]);
    rig.chunk(2, vec![0u8; 256]);
    assert!(rig.inc.received_total > 0);
    assert!(rig.inc.incoming_progress > 0);
    assert!(rig.inc.incoming_total > 0);

    rig.inc.reset();

    assert_eq!(rig.inc.expected_len, 0);
    assert_eq!(rig.inc.expected_format, 0);
    assert_eq!(rig.inc.received_total, 0);
    assert!(rig.inc.received.is_empty());
    assert_eq!(rig.inc.incoming_progress, 0);
    assert_eq!(rig.inc.incoming_total, 0);
}

#[test]
fn incoming_image_then_text_no_loop() {
    let original = synthetic_rgba_4x4();
    let png = encode_rgba_to_png(&original).expect("encode");

    let mut rig = Rig::new();
    rig.feed_offer(FORMAT_PNG_IMAGE, &png);

    let img_hash = hash_bytes(&original.bytes);
    assert_eq!(
        rig.state.get().image,
        Some(img_hash),
        "state must hold the image's RGBA hash for loop avoidance"
    );
    assert!(
        rig.state.get().matches_image_hash(img_hash),
        "next poll with same RGBA must short-circuit"
    );
}

#[test]
fn commit_clears_incoming_counters() {
    let mut rig = Rig::new();
    rig.feed_offer(FORMAT_TEXT_UTF8, "hello".as_bytes());
    assert!(rig.last.is_some());
    assert_eq!(rig.inc.incoming_progress, 0);
    assert_eq!(rig.inc.incoming_total, 0);
}

#[test]
fn on_offer_oversize_image_rejected() {
    let mut rig = Rig::new();
    rig.inc.on_offer(FORMAT_PNG_IMAGE, (MAX_IMAGE_BYTES as u32).saturating_add(1));
    assert_eq!(rig.inc.expected_len, 0, "oversize offer must not be stored");
    assert_eq!(rig.inc.expected_format, 0);
    assert_eq!(rig.inc.incoming_total, 0);
    assert_eq!(rig.inc.incoming_progress, 0);
}

#[test]
fn on_offer_oversize_text_rejected() {
    let mut rig = Rig::new();
    rig.inc.on_offer(FORMAT_TEXT_UTF8, (MAX_CLIPBOARD_BYTES as u32).saturating_add(1));
    assert_eq!(rig.inc.expected_len, 0);
    assert_eq!(rig.inc.expected_format, 0);
    assert_eq!(rig.inc.incoming_total, 0);
    assert_eq!(rig.inc.incoming_progress, 0);
    rig.inc.on_offer(FORMAT_TEXT_UTF8, MAX_CLIPBOARD_BYTES as u32);
    assert_eq!(rig.inc.expected_len, MAX_CLIPBOARD_BYTES as u32);
}

#[test]
fn on_chunk_non_contiguous_indices_drops_payload() {
    let mut rig = Rig::new();
    rig.inc.on_offer(FORMAT_TEXT_UTF8, 512);
    rig.chunk(5, vec![b'a'; 256]);
    rig.chunk(7, vec![b'b'; 256]);

    assert!(rig.last.is_none(), "non-contiguous indices must not commit a corrupt payload");
    assert_eq!(rig.inc.expected_len, 0);
    assert_eq!(rig.inc.expected_format, 0);
    assert_eq!(rig.inc.received_total, 0);
    assert_eq!(rig.inc.incoming_progress, 0);
    assert_eq!(rig.inc.incoming_total, 0);
}

#[test]
fn on_chunk_replaced_with_different_size_buffer_corruption_blocked() {
    let mut rig = Rig::new();
    rig.inc.on_offer(FORMAT_TEXT_UTF8, 768);
    rig.chunk(0, vec![b'a'; 200]);
    assert_eq!(rig.inc.received_total, 200);

    rig.chunk(0, vec![b'x'; 50]);
    assert_eq!(rig.inc.received_total, 200, "duplicate must not bump counter");

    rig.chunk(1, vec![b'b'; 256]);
    rig.chunk(2, vec![b'c'; 312]);
    assert!(
        rig.last.is_none(),
        "length mismatch must block commit (got 618 bytes vs expected 768)"
    );
    assert_eq!(rig.inc.expected_len, 0);
    assert_eq!(rig.inc.received_total, 0);
}

#[test]
fn on_chunk_duplicate_index_does_not_overcount() {
    let mut rig = Rig::new();
    rig.inc.on_offer(FORMAT_TEXT_UTF8, 1024);
    rig.chunk(0, vec![b'a'; 256]);
    assert_eq!(rig.inc.received_total, 256);
    assert_eq!(rig.inc.incoming_progress, 256);

    rig.chunk(0, vec![b'b'; 256]);
    assert_eq!(rig.inc.received_total, 256, "duplicate index must not bump received_total");
    assert_eq!(rig.inc.incoming_progress, 256);
}

#[test]
fn incoming_progress_counters_track_chunks() {
    let mut rig = Rig::new();
    rig.inc.on_offer(FORMAT_TEXT_UTF8, 800);
    assert_eq!(rig.inc.incoming_total, 800);
    assert_eq!(rig.inc.incoming_progress, 0);

    rig.chunk(0, vec![b'x'; 256]);
    assert_eq!(rig.inc.incoming_progress, 256);
    rig.chunk(1, vec![b'x'; 256]);
    assert_eq!(rig.inc.incoming_progress, 512);
}

#[test]
fn on_chunk_without_offer_drops_data() {
    let mut rig = Rig::new();
    rig.chunk(0, vec![0u8; 256]);
    rig.chunk(1, vec![0u8; 256]);
    rig.chunk(2, vec![0u8; 256]);
    assert_eq!(rig.inc.received.len(), 0, "chunks without offer must not buffer");
    assert_eq!(rig.inc.received_total, 0);
    assert_eq!(rig.inc.incoming_progress, 0);
}

#[test]
fn on_chunk_after_oversize_offer_drops_data() {
    let mut rig = Rig::new();
    rig.inc.on_offer(FORMAT_PNG_IMAGE, (MAX_IMAGE_BYTES as u32).saturating_add(1));
    assert_eq!(rig.inc.expected_len, 0);
    for i in 0..16u16 {
        rig.chunk(i, vec![0u8; 256]);
    }
    assert_eq!(rig.inc.received.len(), 0, "post-rejection chunks must not buffer");
    assert_eq!(rig.inc.received_total, 0);
    assert_eq!(rig.inc.incoming_progress, 0);
}

#[test]
fn mac_incoming_file_declined_when_flag_off() {
    let mut inc = IncomingClipboard::new(true, true, false, CAPS);

    match inc.on_offer(FORMAT_FILE, 4096) {
        Some(Message::ClipDecline { format }) => assert_eq!(format, FORMAT_FILE),
        other => panic!("expected ClipDecline {{ FORMAT_FILE }}, got {other:?}"),
    }
    assert_eq!(inc.expected_len, 0);
    assert_eq!(inc.expected_format, 0);
    assert_eq!(inc.incoming_total, 0);
    assert_eq!(inc.incoming_progress, 0);

    for i in 0..8u16 {
        inc.on_chunk(i, vec![0u8; 128]);
    }
    assert!(inc.received.is_empty(), "post-decline chunks must not buffer");
    assert_eq!(inc.received_total, 0);
}

#[test]
fn text_and_images_are_declined_when_not_wanted() {
    let mut inc = IncomingClipboard::new(false, false, true, CAPS);
    assert_eq!(
        inc.on_offer(FORMAT_TEXT_UTF8, 5),
        Some(Message::ClipDecline { format: FORMAT_TEXT_UTF8 })
    );
    assert_eq!(
        inc.on_offer(FORMAT_PNG_IMAGE, u32::MAX),
        Some(Message::ClipDecline { format: FORMAT_PNG_IMAGE })
    );
    assert_eq!(inc.expected_len, 0);
}

#[test]
fn mac_incoming_file_accepted_when_flag_on() {
    let mut inc = IncomingClipboard::new(true, true, true, CAPS);
    let reply = inc.on_offer(FORMAT_FILE, 4096);
    assert!(reply.is_none(), "accepted offer must not return ClipDecline");
    assert_eq!(inc.expected_len, 4096);
    assert_eq!(inc.expected_format, FORMAT_FILE);
    assert_eq!(inc.incoming_total, 4096);
    assert_eq!(inc.incoming_progress, 0);
}

#[test]
fn mac_incoming_file_oversize_offer_dropped_no_decline() {
    let mut inc = IncomingClipboard::new(true, true, true, CAPS);
    let huge = (CAPS.max_payload_bytes() + 1) as u32;
    let reply = inc.on_offer(FORMAT_FILE, huge);
    assert!(reply.is_none(), "oversize dropped without ClipDecline");
    assert_eq!(inc.expected_len, 0);
    assert_eq!(inc.expected_format, 0);
    inc.on_offer(FORMAT_FILE, huge - 1);
    assert_eq!(inc.expected_len, huge - 1);
}

#[test]
fn mac_incoming_file_commits_to_cache() {
    let mut rig = Rig::new();
    let name = "contract.pdf";
    let content: Vec<u8> = (0..2048).map(|i| (i & 0xFF) as u8).collect();
    let packed = pack_first_chunk(name, &content, CAPS.max_filename_len).expect("pack");

    rig.feed_offer(FORMAT_FILE, &packed);

    match rig.last.as_ref().expect("committed") {
        Delivery::File { name: n, content: c, hash } => {
            assert_eq!(n, name);
            assert_eq!(c, &content);
            assert_eq!(*hash, hash_bytes(&content));
        }
        other => panic!("expected File, got {other:?}"),
    }
    assert_eq!(rig.state.get().file, Some(hash_bytes(&content)));

    rig.inc.begin_file("/cache/contract.pdf".to_string());
    rig.inc.finish_file(true);
    assert!(
        rig.inc.in_flight_file_path.is_none(),
        "successful commit must clear in_flight_file_path"
    );
    rig.inc.reset();
    assert!(rig.inc.stale_files.is_empty(), "delivered file must survive reset()");
}

#[test]
fn mac_incoming_file_unicode_filename() {
    let mut rig = Rig::new();
    let name = "привет 🎉.pdf";
    let content = vec![0xAB_u8; 1024];
    let packed = pack_first_chunk(name, &content, CAPS.max_filename_len).expect("pack");
    rig.feed_offer(FORMAT_FILE, &packed);
    match rig.last {
        Some(Delivery::File { name: n, content: c, .. }) => {
            assert_eq!(n, name);
            assert_eq!(c, content);
        }
        other => panic!("expected File, got {other:?}"),
    }
}

#[test]
fn mac_incoming_file_oversize_declined() {
    let mut rig = Rig::new();
    let huge = (CAPS.max_payload_bytes() + 1) as u32;
    let reply = rig.inc.on_offer(FORMAT_FILE, huge);
    assert!(reply.is_none(), "silent drop, no ClipDecline");
    assert_eq!(rig.inc.expected_len, 0);
    assert_eq!(rig.inc.expected_format, 0);
    rig.chunk(0, vec![0u8; 256]);
    assert!(rig.last.is_none());
}

#[test]
fn mac_incoming_partial_file_cleaned_on_reset() {
    let mut rig = Rig::new();
    rig.inc.begin_file("/cache/partial.bin".to_string());
    rig.inc.reset();
    assert_eq!(rig.inc.stale_files, ["/cache/partial.bin"]);
    assert!(
        rig.inc.in_flight_file_path.is_none(),
        "reset must clear the in-flight path slot"
    );
}

#[test]
fn file_that_could_not_be_written_is_removed() {
    let mut rig = Rig::new();
    rig.inc.begin_file("/cache/full.bin".to_string());
    rig.inc.finish_file(false);
    assert_eq!(rig.inc.stale_files, ["/cache/full.bin"]);
    assert!(rig.inc.in_flight_file_path.is_none());
}

#[test]
fn oversize_offer_and_commit_clean_up_an_incomplete_file() {
    let mut rig = Rig::new();
    rig.inc.begin_file("/cache/a".to_string());
    rig.inc.on_offer(FORMAT_PNG_IMAGE, u32::MAX);
    assert_eq!(rig.inc.stale_files, ["/cache/a"]);
    rig.inc.begin_file("/cache/b".to_string());
    rig.feed_offer(FORMAT_TEXT_UTF8, b"x");
    assert_eq!(rig.inc.stale_files, ["/cache/a", "/cache/b"]);
}

#[test]
fn text_and_image_commit_still_work() {
    let mut rig = Rig::new();
    rig.feed_offer(FORMAT_TEXT_UTF8, b"hello, world");
    match rig.last.as_ref().expect("text committed") {
        Delivery::Text { text, .. } => assert_eq!(text, "hello, world"),
        other => panic!("expected Text, got {other:?}"),
    }

    let original = synthetic_rgba_4x4();
    let png = encode_rgba_to_png(&original).expect("encode");
    rig.feed_offer(FORMAT_PNG_IMAGE, &png);
    match rig.last.as_ref().expect("image committed") {
        Delivery::Image { image, .. } => assert_eq!(image, &original),
        other => panic!("expected Image, got {other:?}"),
    }
}

#[test]
fn mac_incoming_file_unpack_failure_leaves_state_clean() {
    let mut rig = Rig::new();
    let bogus = vec![99, 0, b'A', b'B'];
    rig.feed_offer(FORMAT_FILE, &bogus);

    assert!(rig.last.is_none(), "no commit on unpack failure");
    assert_eq!(rig.inc.expected_len, 0);
    assert_eq!(rig.inc.expected_format, 0);
    assert!(rig.state.get().file.is_none());

    let content = b"valid".to_vec();
    let packed = pack_first_chunk("good.txt", &content, CAPS.max_filename_len).expect("pack");
    rig.feed_offer(FORMAT_FILE, &packed);
    assert!(rig.last.is_some(), "next file must commit");
}

#[test]
fn payloads_that_are_no_file() {
    assert_eq!(unpack_first_chunk(&[]), Err(UnpackError::Truncated));
    assert_eq!(unpack_first_chunk(&[0]), Err(UnpackError::Truncated));
    assert_eq!(unpack_first_chunk(&[3, 0, b'a', b'b']), Err(UnpackError::Truncated));
    assert_eq!(unpack_first_chunk(&[1, 0, 0xFF]), Err(UnpackError::BadName));
    assert_eq!(unpack_first_chunk(&[0, 0]), Ok((String::new(), Vec::new())));
    assert_eq!(unpack_first_chunk(&[1, 0, b'a', 9]), Ok(("a".to_string(), vec![9])));
}

#[test]
fn long_name_does_not_pack() {
    let name = "n".repeat(256);
    assert_eq!(pack_first_chunk(&name, b"", 255), None);
    let packed = pack_first_chunk(&name, b"c", 256).expect("pack");
    assert_eq!(&packed[..2], &[0, 1]);
    assert_eq!(unpack_first_chunk(&packed), Ok((name, b"c".to_vec())));
}

#[test]
fn chunks_in_any_order_make_the_payload() {
    let text: String = (0..3000).map(|i| char::from(b'a' + (i % 26) as u8)).collect();
    let chunks: Vec<Vec<u8>> = text.as_bytes().chunks(CHUNK_SIZE).map(|c| c.to_vec()).collect();
    let mut rig = Rig::new();
    rig.inc.on_offer(FORMAT_TEXT_UTF8, text.len() as u32);
    for i in [2usize, 0, 1] {
        assert!(rig.last.is_none());
        rig.chunk(i as u16, chunks[i].clone());
    }
    match rig.last {
        Some(Delivery::Text { text: t, hash }) => {
            assert_eq!(hash, hash_text(&text));
            assert_eq!(t, text);
        }
        other => panic!("expected Text, got {other:?}"),
    }
}

#[test]
fn chunks_of_any_size_make_the_payload() {
    let text: String = (0..3000).map(|i| char::from(b'a' + (i % 26) as u8)).collect();
    let bytes = text.as_bytes();
    let cut: Vec<Vec<u8>> = vec![
        bytes[..1].to_vec(),
        bytes[1..2048].to_vec(),
        bytes[2048..2050].to_vec(),
        bytes[2050..].to_vec(),
    ];
    for order in [[0usize, 1, 2, 3], [3, 2, 1, 0], [1, 3, 0, 2]] {
        let mut rig = Rig::new();
        rig.inc.on_offer(FORMAT_TEXT_UTF8, text.len() as u32);
        for i in order {
            assert!(rig.last.is_none());
            rig.chunk(i as u16, cut[i].clone());
        }
        assert_eq!(
            rig.last,
            Some(Delivery::Text { text: text.clone(), hash: hash_text(&text) })
        );
        assert_eq!(rig.inc.expected_len, 0, "ready for the next offer");
    }
}

#[test]
fn delivery_is_remembered_only_where_the_clipboard_took_it() {
    let mut state = ClipboardState::new();
    let d = Delivery::Text { text: "t".to_string(), hash: 5 };
    note_delivery(&mut state, &d, false);
    assert!(!state.get().matches_text_hash(5));
    note_delivery(&mut state, &d, true);
    assert!(state.get().matches_text_hash(5));
    let f = Delivery::File { name: "n".to_string(), content: vec![], hash: 6 };
    note_delivery(&mut state, &f, true);
    assert_eq!(state.get().file, Some(6));
    assert_eq!(deliver_image(Err(ImageCodecError::OverBudget)), None);
}
