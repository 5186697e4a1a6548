use visuara::control::FileTransferMessage;
use visuara::file_transfer::{
    choose_destination, offer_file_name, send_file_messages, transfer_messages, unique_destination_path, FileReceiver,
    ReceiveAction, CHUNK_SIZE,
};

#[test]
fn sender_frames_offer_chunks_complete() {
    let data: Vec<u8> = (0..(2 * CHUNK_SIZE + 5)).map(|i| (i % 251) as u8).collect();
    let msgs = transfer_messages(&"t1".to_string(), &"big.bin".to_string(), &data);
    assert_eq!(msgs.len(), 5);
    assert!(matches!(&msgs[0], FileTransferMessage::Offer { transfer_id, file_name, size_bytes }
        if transfer_id == "t1" && file_name == "big.bin" && *size_bytes == data.len() as u64));
    let mut joined = Vec::new();
    for (k, m) in msgs[1..4].iter().enumerate() {
        match m {
            FileTransferMessage::Chunk { transfer_id, sequence, data } => {
                assert_eq!(transfer_id, "t1");
                assert_eq!(*sequence, k as u32);
                assert!(data.len() <= CHUNK_SIZE);
                joined.extend_from_slice(data);
            }
            other => panic!("expected a chunk, got {other:?}"),
        }
    }
    assert_eq!(joined, data);
    assert!(matches!(&msgs[4], FileTransferMessage::Complete { transfer_id } if transfer_id == "t1"));
}

#[test]
fn empty_file_is_offer_then_complete() {
    let msgs = transfer_messages(&"t0".to_string(), &"empty".to_string(), &[]);
    assert_eq!(msgs.len(), 2);
    assert!(matches!(&msgs[0], FileTransferMessage::Offer { size_bytes: 0, .. }));
    assert!(matches!(&msgs[1], FileTransferMessage::Complete { .. }));
    let exact = vec![7u8; CHUNK_SIZE];
    assert_eq!(transfer_messages(&"t".to_string(), &"f".to_string(), &exact).len(), 3);
}

#[test]
fn receiver_writes_chunks_in_order_and_finalizes_on_complete() {
    let mut receiver = FileReceiver::new("/nonexistent-visuara-dest".to_string());
    let transfer_id = "test-transfer".to_string();
    let a = receiver.handle(FileTransferMessage::Offer { transfer_id: transfer_id.clone(), file_name: "hello.txt".to_string(), size_bytes: 11 });
    match a {
        ReceiveAction::Create { transfer_id: t, path } => {
            assert_eq!(t, "test-transfer");
            assert_eq!(path, "/nonexistent-visuara-dest/hello.txt");
        }
        other => panic!("expected Create, got {other:?}"),
    }
    assert!(receiver.is_receiving("test-transfer"));
    let mut contents = Vec::new();
    for (seq, chunk) in [(0u32, b"hello ".to_vec()), (1, b"world".to_vec())] {
        match receiver.handle(FileTransferMessage::Chunk { transfer_id: transfer_id.clone(), sequence: seq, data: chunk }) {
            ReceiveAction::Write { data, .. } => contents.extend_from_slice(&data),
            other => panic!("expected Write, got {other:?}"),
        }
    }
    assert!(matches!(receiver.handle(FileTransferMessage::Complete { transfer_id: transfer_id.clone() }), ReceiveAction::Finish { .. }));
    assert_eq!(String::from_utf8(contents).unwrap(), "hello world");
    assert!(!receiver.is_receiving("test-transfer"));
    assert!(matches!(receiver.handle(FileTransferMessage::Chunk { transfer_id, sequence: 2, data: vec![1] }), ReceiveAction::Ignore));
}

#[test]
fn cancel_discards_and_unknown_transfers_are_ignored() {
    let mut receiver = FileReceiver::new("/nonexistent-visuara-dest".to_string());
    assert_eq!(receiver.dest_dir(), "/nonexistent-visuara-dest");
    receiver.handle(FileTransferMessage::Offer { transfer_id: "c".into(), file_name: "x.bin".into(), size_bytes: 1 });
    assert!(matches!(receiver.handle(FileTransferMessage::Cancel { transfer_id: "c".into() }), ReceiveAction::Discard { transfer_id } if transfer_id == "c"));
    assert!(matches!(receiver.handle(FileTransferMessage::Cancel { transfer_id: "c".into() }), ReceiveAction::Ignore));
    assert!(matches!(receiver.handle(FileTransferMessage::Complete { transfer_id: "zz".into() }), ReceiveAction::Ignore));
    assert!(matches!(receiver.handle(FileTransferMessage::Accept { transfer_id: "c".into() }), ReceiveAction::Ignore));
    assert!(matches!(receiver.handle(FileTransferMessage::Reject { transfer_id: "c".into() }), ReceiveAction::Ignore));
}

#[test]
fn unique_destination_path_numbers_a_taken_name() {
    // `/tmp` and `/etc` exist on any Linux machine the tests run on.
    assert_eq!(unique_destination_path("/", "tmp"), "/tmp (1)");
    assert_eq!(unique_destination_path("/", "etc"), "/etc (1)");
    assert_eq!(unique_destination_path("/nonexistent-visuara-dest", "a.txt"), "/nonexistent-visuara-dest/a.txt");
    // A taken name with an extension keeps it after the number; the stem
    // ends at the last dot.
    assert_eq!(unique_destination_path("/etc", "ld.so.conf"), "/etc/ld.so (1).conf");
}

fn taken_upto(n: usize) -> Vec<bool> {
    (0..10_000).map(|i| i < n).collect()
}

#[test]
fn unique_destination_path_avoids_clobbering() {
    // `a.txt` exists in the directory: the first alternative is chosen.
    assert_eq!(choose_destination("/data/in", "a.txt", &taken_upto(1)), "/data/in/a (1).txt");
}

#[test]
fn destination_is_the_name_itself_when_free() {
    assert_eq!(choose_destination("/data/in", "hello.txt", &taken_upto(0)), "/data/in/hello.txt");
    // Later entries do not matter once the name itself is free.
    let mut t = vec![true; 10_000];
    t[0] = false;
    assert_eq!(choose_destination("/data/in", "hello.txt", &t), "/data/in/hello.txt");
}

#[test]
fn destination_is_the_least_free_alternative() {
    assert_eq!(choose_destination("/d", "a.txt", &taken_upto(3)), "/d/a (3).txt");
    let mut t = vec![true; 10_000];
    t[7] = false;
    t[9] = false;
    assert_eq!(choose_destination("/d", "notes", &t), "/d/notes (7)");
    assert_eq!(choose_destination("/d", "archive.tar.gz", &taken_upto(2)), "/d/archive.tar (2).gz");
}

#[test]
fn destination_falls_back_to_the_name_when_all_are_taken() {
    assert_eq!(choose_destination("/d", "a.txt", &vec![true; 10_000]), "/d/a.txt");
    assert_eq!(choose_destination("/d", "a.txt", &taken_upto(9_999)), "/d/a (9999).txt");
}

#[test]
fn offered_name_is_the_final_component_or_file() {
    assert_eq!(offer_file_name("/home/u/report.pdf"), "report.pdf");
    assert_eq!(offer_file_name("notes.txt"), "notes.txt");
    assert_eq!(offer_file_name("/"), "file");
    assert_eq!(offer_file_name("/home/u/.."), "file");
}

#[test]
fn send_file_messages_offers_the_file_under_its_name() {
    let data: Vec<u8> = (0..(CHUNK_SIZE + 3)).map(|i| (i % 7) as u8).collect();
    let (id, msgs) = send_file_messages("/tmp/photos/cat.png", &data);
    assert_eq!(id.len(), 36);
    assert_eq!(msgs.len(), 4);
    assert!(matches!(&msgs[0], FileTransferMessage::Offer { transfer_id, file_name, size_bytes }
        if *transfer_id == id && file_name == "cat.png" && *size_bytes == data.len() as u64));
    assert!(matches!(&msgs[3], FileTransferMessage::Complete { transfer_id } if *transfer_id == id));
    let (id2, _) = send_file_messages("/tmp/photos/cat.png", &data);
    assert_ne!(id, id2);
}
