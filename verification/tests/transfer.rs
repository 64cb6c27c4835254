use hermes::file_io::{DirectoryContent, DirectoryInfo, FileInfo, FileType};
use hermes::http_codes::HttpCodes;
use hermes::text::{decimal, owned_text, same_text, wrap_text};
use hermes::transfer::{split_binary_for_network, Receiver, BUFF_SIZE};

fn sample(len: usize) -> Vec<u8> {
    (0..len).map(|i| (i * 31 + 7) as u8).collect()
}

fn round_trip(data: &[u8]) -> Receiver {
    let frames = split_binary_for_network(data.to_vec());
    let mut receiver = Receiver::begin(frames.len() as u32).unwrap();
    for frame in &frames {
        receiver.accept(frame);
    }
    assert_eq!(receiver.received().as_slice(), data);
    receiver
}

#[test]
fn frames_are_full_but_for_the_last() {
    assert_eq!(BUFF_SIZE, 4096);
    let frames = split_binary_for_network(sample(10_000));
    let lengths: Vec<usize> = frames.iter().map(|f| f.len()).collect();
    assert_eq!(lengths, vec![4096, 4096, 1808]);
    assert_eq!(frames.concat(), sample(10_000));
    assert_eq!(frames[1][0], sample(10_000)[4096]);
}

#[test]
fn short_data_is_one_frame() {
    assert_eq!(split_binary_for_network(Vec::new()), vec![Vec::<u8>::new()]);
    assert_eq!(split_binary_for_network(vec![1, 2, 3]), vec![vec![1, 2, 3]]);
    assert_eq!(split_binary_for_network(sample(4095)), vec![sample(4095)]);
    assert_eq!(split_binary_for_network(sample(4096)), vec![sample(4096)]);
    let frames = split_binary_for_network(sample(4097));
    assert_eq!(frames.len(), 2);
    assert_eq!(frames[1], vec![sample(4097)[4096]]);
    // Ten bytes are one frame, not ten, and eleven are not two.
    assert_eq!(split_binary_for_network(sample(11)).len(), 1);
}

#[test]
fn split_and_reassemble_give_the_bytes_back() {
    for len in [1, 2, 10, 11, 100, 4095, 4096, 4097, 8191, 8192, 8193, 12288, 20000] {
        let data = sample(len);
        let receiver = round_trip(&data);
        let full = len % 4096 == 0;
        assert_eq!(receiver.wants_more(), !full, "{}", len);
        assert_eq!(receiver.finish().is_some(), full, "{}", len);
    }
}

#[test]
fn whole_frames_complete_the_transfer() {
    let data = sample(3 * 4096);
    let receiver = round_trip(&data);
    assert!(!receiver.wants_more());
    assert_eq!(receiver.finish(), Some(data));
}

#[test]
fn a_declaration_of_no_frame_fails_at_once() {
    assert!(Receiver::begin(0).is_none());
    assert!(Receiver::begin(1).is_some());
    assert!(Receiver::begin(u32::MAX).is_some());
}

#[test]
fn receiver_counts_what_arrives() {
    let mut receiver = Receiver::begin(2).unwrap();
    assert!(receiver.wants_more());
    receiver.accept(&sample(5000));
    assert!(receiver.wants_more());
    receiver.accept(&[]);
    assert!(receiver.wants_more());
    receiver.skip(3191);
    assert!(receiver.wants_more());
    receiver.skip(1);
    assert!(!receiver.wants_more());
    assert_eq!(receiver.received(), &sample(5000));
    // What arrives beyond the declaration is kept and the count stays at none.
    receiver.accept(&[9, 9]);
    assert!(!receiver.wants_more());
    let mut all = sample(5000);
    all.extend_from_slice(&[9, 9]);
    assert_eq!(receiver.finish(), Some(all));
}

#[test]
fn a_transfer_cut_short_gives_nothing() {
    let mut receiver = Receiver::begin(1).unwrap();
    receiver.accept(&sample(4095));
    assert!(receiver.wants_more());
    assert_eq!(receiver.received().len(), 4095);
    assert_eq!(receiver.finish(), None);
    let mut over = Receiver::begin(1).unwrap();
    over.accept(&sample(10_000));
    assert!(!over.wants_more());
    assert_eq!(over.finish(), Some(sample(10_000)));
}

#[test]
fn text_helpers() {
    assert!(same_text("abc", "abc"));
    assert!(!same_text("abc", "abd"));
    assert!(!same_text("abc", "ab"));
    assert!(same_text("", ""));
    assert_eq!(wrap_text("<", "x", ">"), "<x>");
    assert_eq!(owned_text("héllo"), "héllo");
    assert_eq!(decimal(0), "0");
    assert_eq!(decimal(7), "7");
    assert_eq!(decimal(10), "10");
    assert_eq!(decimal(409), "409");
    assert_eq!(decimal(1234567890), "1234567890");
    assert_eq!(decimal(u32::MAX), "4294967295");
}

#[test]
fn http_codes_have_numbers_and_phrases() {
    let all = [
        (HttpCodes::Okay, 200, "OK", "Ok"),
        (HttpCodes::Unauthorized, 401, "Unauthorized", "Unauthorized"),
        (HttpCodes::Forbidden, 403, "Forbidden", "Forbidden"),
        (HttpCodes::NotFound, 404, "Not Found", "NotFound"),
        (HttpCodes::Conflict, 409, "Conflict", "Conflict"),
        (HttpCodes::ImNotATeapot, 418, "I'm not a Teapot", "ImNotATeapot"),
    ];
    for (code, number, phrase, name) in all {
        assert_eq!(code.code(), number);
        assert_eq!(HttpCodes::from_code(number), Some(code));
        assert_eq!(code.to_string(), phrase);
        assert_eq!(code.wire_name(), name);
        assert_eq!(HttpCodes::from_wire_name(name), Some(code));
    }
    assert_eq!(HttpCodes::from_wire_name("ok"), None);
    assert_eq!(HttpCodes::from_wire_name("Not Found"), None);
    assert_eq!(HttpCodes::from_code(0), None);
    assert_eq!(HttpCodes::from_code(201), None);
    assert_eq!(HttpCodes::from_code(500), None);
}

#[test]
fn file_types_have_lowercase_words() {
    let all = [
        (FileType::Text, "text"),
        (FileType::Audio, "audio"),
        (FileType::Video, "video"),
        (FileType::Binary, "binary"),
        (FileType::Archive, "archive"),
    ];
    for (kind, word) in all {
        assert_eq!(kind.to_string(), word);
        assert_eq!(FileType::from_str(word), Ok(kind));
    }
    assert_eq!(
        FileType::from_str("Text"),
        Err(String::from("could not deduce file type from 'Text'"))
    );
    assert_eq!(FileType::from_str(""), Err(String::from("could not deduce file type from ''")));
}

fn file(name: &str) -> DirectoryContent {
    DirectoryContent::File(FileInfo::new(
        String::from(name),
        String::from("alice"),
        FileType::Text,
        12,
    ))
}

fn dir(name: &str) -> DirectoryContent {
    DirectoryContent::Dir(DirectoryInfo::new(String::from(name), Vec::new()))
}

#[test]
fn file_info_keeps_its_fields() {
    let info = FileInfo::new(String::from("a.txt"), String::from("alice"), FileType::Text, 12);
    assert_eq!(info.name(), "a.txt");
    assert_eq!(info.owner(), "alice");
    assert_eq!(info.kind(), FileType::Text);
    assert_eq!(info.size(), 12);
    let copy = info.clone();
    assert_eq!(copy.name(), "a.txt");
    assert_eq!(copy.owner(), "alice");
}

#[test]
fn directory_content_is_a_file_or_a_directory() {
    let f = file("a.txt");
    let d = dir("sub");
    assert!(f.is_file() && !f.is_directory());
    assert!(d.is_directory() && !d.is_file());
    assert_eq!(f.as_file_ref().map(|i| i.name()), Some("a.txt"));
    assert!(f.as_directory_ref().is_none());
    assert_eq!(d.as_directory_ref().map(|i| i.name()), Some("sub"));
    assert!(d.as_file_ref().is_none());
    assert!(file("x").as_directory().is_none());
    assert!(dir("x").as_file().is_none());
    assert_eq!(f.as_file().map(|i| i.size()), Some(12));
    assert_eq!(d.as_directory().map(|i| i.contents().len()), Some(0));
}

#[test]
fn directory_info_parts_files_from_directories_in_order() {
    let mut info = DirectoryInfo::new(String::from("root"), vec![file("a"), dir("x")]);
    info.append_content(file("b"));
    let mut more = vec![dir("y"), file("c")];
    info.append_many_content(&mut more);
    assert!(more.is_empty());
    assert_eq!(info.name(), "root");
    assert_eq!(info.contents().len(), 5);
    let files: Vec<&str> = info.get_files().iter().map(|f| f.name()).collect();
    assert_eq!(files, vec!["a", "b", "c"]);
    let dirs: Vec<&str> = info.get_directories().iter().map(|d| d.name()).collect();
    assert_eq!(dirs, vec!["x", "y"]);
    let (file_refs, dir_refs) = info.spill_ref();
    assert_eq!(file_refs.len(), 3);
    assert_eq!(dir_refs.len(), 2);
    let (files, dirs) = info.spill();
    assert_eq!(files.iter().map(|f| f.name()).collect::<Vec<_>>(), vec!["a", "b", "c"]);
    assert_eq!(dirs.iter().map(|d| d.name()).collect::<Vec<_>>(), vec!["x", "y"]);
    let mut other = DirectoryInfo::new(String::from("o"), vec![file("a")]);
    other.set_content(vec![dir("only")]);
    assert!(other.get_files().is_empty());
    assert_eq!(other.get_directories().len(), 1);
    let nested = DirectoryInfo::new(
        String::from("top"),
        vec![DirectoryContent::Dir(DirectoryInfo::new(String::from("mid"), vec![file("deep")]))],
    );
    assert!(nested.get_files().is_empty());
    assert_eq!(nested.get_directories()[0].get_files()[0].name(), "deep");
}

#[test]
fn listings_are_copied_and_compared_in_depth() {
    let deep = |name: &str| {
        DirectoryInfo::new(
            String::from("top"),
            vec![
                file("a"),
                DirectoryContent::Dir(DirectoryInfo::new(String::from("mid"), vec![file(name)])),
            ],
        )
    };
    let one = deep("x");
    let copy = one.clone();
    assert!(copy == one);
    assert!(one.same_as(&copy));
    assert_eq!(copy.get_directories()[0].get_files()[0].name(), "x");
    assert!(one != deep("y"));
    assert!(one == deep("x"));
    assert!(one != DirectoryInfo::new(String::from("top"), vec![file("a")]));
    assert!(one != DirectoryInfo::new(String::from("top"), vec![file("a"), file("mid")]));
    assert!(DirectoryInfo::new(String::from("a"), Vec::new())
        != DirectoryInfo::new(String::from("b"), Vec::new()));
    assert!(file("a") == file("a").clone());
    assert!(file("a") != file("b"));
    assert!(file("a") != dir("a"));
    assert!(dir("a") == dir("a").duplicate());
    let info = FileInfo::new(String::from("a"), String::from("o"), FileType::Text, 1);
    assert!(info == info.clone());
    assert!(info != FileInfo::new(String::from("a"), String::from("o"), FileType::Text, 2));
    assert!(info != FileInfo::new(String::from("a"), String::from("p"), FileType::Text, 1));
    assert!(info != FileInfo::new(String::from("a"), String::from("o"), FileType::Audio, 1));
}
