use fswatch::event::ObjectType::{File, Folder};
use fswatch::event::OperationType::{Added, Created, Modified, Removed, Renamed};
use fswatch::event::{Event, ObjectType, OperationType, ProtocolError};
use fswatch::frame::{decode_frame, Decoded};

fn frame(op: u8, kind: u8, paths: &[&[u8]]) -> Vec<u8> {
    let mut bytes = vec![op, kind];
    for path in paths {
        bytes.push((path.len() / 256) as u8);
        bytes.push((path.len() % 256) as u8);
        bytes.extend_from_slice(path);
    }
    bytes
}

fn complete(event: Event, len: usize) -> Decoded {
    Decoded::Complete { event, len }
}

#[test]
fn file_added_frame_decodes() {
    let bytes = [0x03, 0x01, 0x00, 0x03, b'f', b'o', b'o'];
    assert_eq!(decode_frame(&bytes), complete(Event::FileAdded("foo".to_string()), 7));
}

#[test]
fn rename_frame_decodes_both_paths_in_order() {
    let bytes = [0x06, 0x00, 0x00, 0x03, b'f', b'o', b'o', 0x00, 0x03, b'b', b'a', b'r'];
    assert_eq!(
        decode_frame(&bytes),
        complete(Event::Renamed { from: "foo".to_string(), to: "bar".to_string() }, 12)
    );
}

#[test]
fn unknown_operation_is_rejected() {
    assert_eq!(
        decode_frame(&[0x09, 0x01, 0x00, 0x03, b'f', b'o', b'o']),
        Decoded::Invalid(ProtocolError::UnknownOperation)
    );
    assert_eq!(decode_frame(&[0x09, 0x01]), Decoded::Invalid(ProtocolError::UnknownOperation));
    assert_eq!(decode_frame(&[0x02, 0x01]), Decoded::Invalid(ProtocolError::UnknownOperation));
    assert_eq!(decode_frame(&[0x08, 0x01]), Decoded::Invalid(ProtocolError::UnknownOperation));
    assert_eq!(decode_frame(&[0x00, 0x09]), Decoded::Invalid(ProtocolError::UnknownOperation));
}

#[test]
fn unknown_object_kind_is_rejected() {
    for op in [3u8, 4, 5, 7] {
        for kind in [0u8, 3, 9, 255] {
            assert_eq!(
                decode_frame(&frame(op, kind, &[b"a"])),
                Decoded::Invalid(ProtocolError::UnknownObjectKind)
            );
            assert_eq!(
                decode_frame(&[op, kind]),
                Decoded::Invalid(ProtocolError::UnknownObjectKind)
            );
        }
    }
}

#[test]
fn modified_folder_is_an_impossible_combination() {
    assert_eq!(
        decode_frame(&frame(4, 2, &[b"dir"])),
        Decoded::Invalid(ProtocolError::ImpossibleCombination)
    );
}

#[test]
fn modified_folder_is_judged_once_its_path_is_there() {
    assert_eq!(decode_frame(&[4, 2]), Decoded::Incomplete { missing: 2 });
    assert_eq!(decode_frame(&[4, 2, 0, 3, b'd']), Decoded::Incomplete { missing: 2 });
    assert_eq!(
        decode_frame(&[4, 2, 0, 3, b'd', b'i', b'r']),
        Decoded::Invalid(ProtocolError::ImpossibleCombination)
    );
}

#[test]
fn every_pair_of_the_table_decodes_to_its_event() {
    let p = "a/b".to_string();
    let cases = [
        (3u8, 1u8, Event::FileAdded(p.clone())),
        (3, 2, Event::FolderAdded(p.clone())),
        (4, 1, Event::FileModified(p.clone())),
        (5, 1, Event::FileCreated(p.clone())),
        (5, 2, Event::FolderCreated(p.clone())),
        (7, 1, Event::FileRemoved(p.clone())),
        (7, 2, Event::FolderRemoved(p.clone())),
    ];
    for (op, kind, event) in cases {
        assert_eq!(decode_frame(&frame(op, kind, &[b"a/b"])), complete(event, 7));
    }
}

#[test]
fn rename_takes_any_object_byte() {
    for kind in [0u8, 1, 2, 3, 127, 255] {
        assert_eq!(
            decode_frame(&frame(6, kind, &[b"old", b"newer"])),
            complete(Event::Renamed { from: "old".to_string(), to: "newer".to_string() }, 14)
        );
    }
}

#[test]
fn zero_length_path_is_the_empty_string() {
    assert_eq!(decode_frame(&[3, 1, 0, 0]), complete(Event::FileAdded(String::new()), 4));
    assert_eq!(
        decode_frame(&[6, 0, 0, 0, 0, 0]),
        complete(Event::Renamed { from: String::new(), to: String::new() }, 6)
    );
    assert_eq!(
        decode_frame(&[6, 0, 0, 0, 0, 1, b'x']),
        complete(Event::Renamed { from: String::new(), to: "x".to_string() }, 7)
    );
}

#[test]
fn empty_input_is_a_frame_boundary() {
    assert_eq!(decode_frame(&[]), Decoded::Empty);
}

#[test]
fn cut_frames_are_incomplete() {
    assert_eq!(decode_frame(&[3]), Decoded::Incomplete { missing: 1 });
    assert_eq!(decode_frame(&[9]), Decoded::Incomplete { missing: 1 });
    assert_eq!(decode_frame(&[3, 1]), Decoded::Incomplete { missing: 2 });
    assert_eq!(decode_frame(&[3, 1, 0]), Decoded::Incomplete { missing: 1 });
    assert_eq!(decode_frame(&[3, 1, 0, 3]), Decoded::Incomplete { missing: 3 });
    assert_eq!(decode_frame(&[3, 1, 0, 3, b'f']), Decoded::Incomplete { missing: 2 });
    assert_eq!(decode_frame(&[3, 1, 0, 3, b'f', b'o']), Decoded::Incomplete { missing: 1 });
    assert_eq!(decode_frame(&[3, 1, 1, 0]), Decoded::Incomplete { missing: 256 });
    assert_eq!(decode_frame(&[3, 1, 0xff, 0xff]), Decoded::Incomplete { missing: 65535 });
}

#[test]
fn cut_rename_frames_are_incomplete() {
    let whole = frame(6, 0, &[b"foo", b"bar"]);
    let missing = [usize::MAX, 1, 2, 1, 3, 2, 1, 2, 1, 3, 2, 1];
    for k in 1..whole.len() {
        assert_eq!(decode_frame(&whole[..k]), Decoded::Incomplete { missing: missing[k] });
    }
}

#[test]
fn bytes_behind_a_frame_are_left_alone() {
    let mut bytes = frame(7, 2, &[b"gone"]);
    let len = bytes.len();
    bytes.extend_from_slice(&[9, 9, 9]);
    assert_eq!(decode_frame(&bytes), complete(Event::FolderRemoved("gone".to_string()), len));
    assert_eq!(len, 8);
}

#[test]
fn length_prefix_is_big_endian() {
    let path = vec![b'a'; 0x0102];
    let mut bytes = vec![3u8, 1, 0x01, 0x02];
    bytes.extend_from_slice(&path);
    assert_eq!(
        decode_frame(&bytes),
        complete(Event::FileAdded("a".repeat(258)), 4 + 258)
    );
    bytes.pop();
    assert_eq!(decode_frame(&bytes), Decoded::Incomplete { missing: 1 });
}

#[test]
fn longest_path_decodes() {
    let path = vec![b'z'; 65535];
    assert_eq!(
        decode_frame(&frame(5, 1, &[&path])),
        complete(Event::FileCreated("z".repeat(65535)), 65539)
    );
}

#[test]
fn path_bytes_that_are_utf8_are_kept() {
    let name = "тестова/файл.txt";
    assert_eq!(
        decode_frame(&frame(4, 1, &[name.as_bytes()])),
        complete(Event::FileModified(name.to_string()), 4 + name.len())
    );
}

#[test]
fn path_bytes_that_are_not_utf8_are_replaced() {
    assert_eq!(
        decode_frame(&frame(3, 1, &[&[b'a', 0xff, b'b']])),
        complete(Event::FileAdded("a\u{fffd}b".to_string()), 7)
    );
    assert_eq!(
        decode_frame(&frame(7, 1, &[&[0xe2, 0x82]])),
        complete(Event::FileRemoved("\u{fffd}".to_string()), 6)
    );
    assert_eq!(
        decode_frame(&frame(6, 0, &[&[0xc0], &[0x80, b'x']])),
        complete(
            Event::Renamed { from: "\u{fffd}".to_string(), to: "\u{fffd}x".to_string() },
            9
        )
    );
}

#[test]
fn operation_bytes_map_to_operations() {
    assert_eq!(OperationType::try_from(3u8), Ok(OperationType::Added));
    assert_eq!(OperationType::try_from(4u8), Ok(OperationType::Modified));
    assert_eq!(OperationType::try_from(5u8), Ok(OperationType::Created));
    assert_eq!(OperationType::try_from(6u8), Ok(OperationType::Renamed));
    assert_eq!(OperationType::try_from(7u8), Ok(OperationType::Removed));
    for code in (0u8..=2).chain(8..=255) {
        assert_eq!(OperationType::try_from(code), Err(ProtocolError::UnknownOperation));
    }
}

#[test]
fn object_bytes_map_to_object_kinds() {
    assert_eq!(ObjectType::try_from(1u8), Ok(ObjectType::File));
    assert_eq!(ObjectType::try_from(2u8), Ok(ObjectType::Folder));
    for code in (3u8..=255).chain(0..=0) {
        assert_eq!(ObjectType::try_from(code), Err(ProtocolError::UnknownObjectKind));
    }
}

#[test]
fn assemble_follows_the_table() {
    let p = || "p".to_string();
    assert_eq!(Event::assemble(Added, File, p()), Ok(Event::FileAdded(p())));
    assert_eq!(Event::assemble(Added, Folder, p()), Ok(Event::FolderAdded(p())));
    assert_eq!(Event::assemble(Modified, File, p()), Ok(Event::FileModified(p())));
    assert_eq!(Event::assemble(Created, File, p()), Ok(Event::FileCreated(p())));
    assert_eq!(Event::assemble(Created, Folder, p()), Ok(Event::FolderCreated(p())));
    assert_eq!(Event::assemble(Removed, File, p()), Ok(Event::FileRemoved(p())));
    assert_eq!(Event::assemble(Removed, Folder, p()), Ok(Event::FolderRemoved(p())));
    assert_eq!(
        Event::assemble(Modified, Folder, p()),
        Err(ProtocolError::ImpossibleCombination)
    );
    assert_eq!(Event::assemble(Renamed, File, p()), Err(ProtocolError::ImpossibleCombination));
    assert_eq!(Event::assemble(Renamed, Folder, p()), Err(ProtocolError::ImpossibleCombination));
}

#[test]
fn events_describe_themselves() {
    let p = || "a.txt".to_string();
    assert_eq!(Event::FileRemoved(p()).to_string(), "file removed: a.txt");
    assert_eq!(Event::FolderRemoved(p()).to_string(), "folder removed: a.txt");
    assert_eq!(Event::FolderAdded(p()).to_string(), "folder added: a.txt");
    assert_eq!(Event::FileAdded(p()).to_string(), "file added: a.txt");
    assert_eq!(Event::FileModified(p()).to_string(), "file modified: a.txt");
    assert_eq!(Event::FileCreated(p()).to_string(), "file created: a.txt");
    assert_eq!(Event::FolderCreated(p()).to_string(), "folder created: a.txt");
    assert_eq!(
        Event::Renamed { from: p(), to: "b.txt".to_string() }.to_string(),
        "renamed: a.txt -> b.txt"
    );
    assert_eq!(Event::FileAdded(String::new()).to_string(), "file added: ");
}
