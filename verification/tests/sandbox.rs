use hermes::file_io::{file_type_of_extension, get_file_type, FileType};
use hermes::io_loc::{
    file_owner_db_path, host_directory, locate_host_directory, network_analyzer_path,
    root_directory, user_database_path,
};
use hermes::io_tools::{
    admit_resolved, begins_with, confine, is_path_valid, make_relative, move_relative,
    resolve_path,
};
use std::path::PathBuf;

#[test]
pub fn test_move_relative() {
    let curr_dir = root_directory("/Users/exdisj");
    println!("{:?}", &curr_dir);

    assert_eq!(
        PathBuf::from(move_relative("thing", &curr_dir).unwrap()),
        PathBuf::from("/Users/exdisj/cnt/data/thing")
    );

    assert_eq!(
        PathBuf::from(move_relative("", &curr_dir).unwrap()),
        PathBuf::from("/Users/exdisj/cnt/data")
    );

    assert_eq!(
        PathBuf::from(move_relative(".", &curr_dir).unwrap()),
        PathBuf::from("/Users/exdisj/cnt/data")
    );

    assert_eq!(
        PathBuf::from(move_relative("..", &curr_dir).unwrap()),
        PathBuf::from("/Users/exdisj/cnt/data/..")
    );
}

#[test]
pub fn test_make_relative() {
    // An absolute path inside the root comes back as it is.
    assert_eq!(
        make_relative("/srv/cnt/data/a/b.txt", "/srv/cnt/data"),
        Some(String::from("/srv/cnt/data/a/b.txt"))
    );
    // A path outside the root gives nothing.
    assert_eq!(make_relative("/srv/cnt/other/b.txt", "/srv/cnt/data"), None);
    assert_eq!(make_relative("/etc/passwd", "/srv/cnt/data"), None);
    // With a relative root, the root is taken off the front.
    assert_eq!(make_relative("data/a/b.txt", "data"), Some(String::from("a/b.txt")));
    assert_eq!(make_relative("data", "data"), Some(String::from("")));
    assert_eq!(make_relative("other/a", "data"), None);
}

#[test]
pub fn test_is_valid() {
    let root = "/srv/cnt/data";
    assert!(is_path_valid("/srv/cnt/data", root));
    assert!(is_path_valid("/srv/cnt/data/", root));
    assert!(is_path_valid("/srv/cnt/data/a", root));
    assert!(is_path_valid("/srv/cnt/data/a/b/c.txt", root));
    // Fewer components than the root.
    assert!(!is_path_valid("/srv/cnt", root));
    assert!(!is_path_valid("/", root));
    // Same text at the front, but another component.
    assert!(!is_path_valid("/srv/cnt/database", root));
    assert!(!is_path_valid("/srv/cnt/datax/a", root));
    // A relative path never lies below an absolute root.
    assert!(!is_path_valid("srv/cnt/data/a", root));
    assert!(!is_path_valid("", root));
}

#[test]
fn begins_with_compares_item_by_item() {
    let parts = vec![String::from("/"), String::from("srv"), String::from("data")];
    let same = vec![String::from("/"), String::from("srv"), String::from("data")];
    let shorter = vec![String::from("/"), String::from("srv")];
    let other = vec![String::from("/"), String::from("var")];
    let longer = vec![
        String::from("/"),
        String::from("srv"),
        String::from("data"),
        String::from("x"),
    ];
    let empty: Vec<String> = Vec::new();
    assert!(begins_with(&parts, &same));
    assert!(begins_with(&parts, &shorter));
    assert!(begins_with(&parts, &empty));
    assert!(!begins_with(&parts, &other));
    assert!(!begins_with(&parts, &longer));
    assert!(begins_with(&empty, &empty));
}

#[test]
fn absolute_input_is_rejected_whatever_the_current_directory() {
    for curr_dir in ["/srv/cnt/data", "/srv/cnt/data/deep/down", "", "relative/dir", "/"] {
        assert_eq!(move_relative("/etc/passwd", curr_dir), None);
        assert_eq!(confine("/etc/passwd", curr_dir, "/srv/cnt/data"), None);
    }
    assert_eq!(move_relative("/", "/srv/cnt/data"), None);
}

#[test]
fn relative_input_is_joined_onto_the_current_directory() {
    assert_eq!(move_relative("a/b", "/srv/data"), Some(String::from("/srv/data/a/b")));
    assert_eq!(move_relative("a", "/srv/data/"), Some(String::from("/srv/data/a")));
    assert_eq!(
        move_relative("../../etc/passwd", "/srv/data"),
        Some(String::from("/srv/data/../../etc/passwd"))
    );
}

#[test]
fn escaping_path_fails_containment_once_resolved() {
    // The file system resolves `..`; what it answers lies outside the root.
    let joined = move_relative("../../etc/passwd", "/usr/lib").unwrap();
    match resolve_path(&joined) {
        Some(resolved) => {
            assert_eq!(resolved, "/etc/passwd");
            assert!(!is_path_valid(&resolved, "/usr/lib"));
            assert_eq!(make_relative(&resolved, "/usr/lib"), None);
        }
        None => {}
    }
    assert_eq!(confine("../../etc/passwd", "/usr/lib", "/usr/lib"), None);
    // Whatever the spelling was, the resolved form decides.
    assert!(!is_path_valid("/etc/passwd", "/usr/lib"));
    assert!(!is_path_valid("/etc/passwd", "/srv/cnt/data"));
}

#[test]
fn resolve_path_asks_the_file_system() {
    assert_eq!(resolve_path("/"), Some(String::from("/")));
    assert_eq!(resolve_path("/usr/.."), Some(String::from("/")));
    assert_eq!(resolve_path("/usr/./lib/.."), Some(String::from("/usr")));
    assert_eq!(resolve_path("/no/such/directory/anywhere"), None);
}

#[test]
fn admit_resolved_lets_through_what_lies_below_the_root() {
    assert_eq!(admit_resolved(None, "/srv"), None);
    assert_eq!(
        admit_resolved(Some(String::from("/srv/a")), "/srv"),
        Some(String::from("/srv/a"))
    );
    assert_eq!(admit_resolved(Some(String::from("/etc/passwd")), "/srv"), None);
}

#[test]
fn confine_keeps_requests_inside_the_root() {
    // `/usr` exists on this machine; its `lib` lies below it.
    assert_eq!(confine("lib", "/usr", "/usr"), Some(String::from("/usr/lib")));
    assert_eq!(confine("lib/..", "/usr", "/usr"), Some(String::from("/usr")));
    assert_eq!(confine("..", "/usr", "/usr"), None);
    assert_eq!(confine("no-such-entry-here", "/usr", "/usr"), None);
}

#[test]
fn locations_lie_below_the_host_directory() {
    assert_eq!(PathBuf::from(host_directory("/home/u")), PathBuf::from("/home/u/cnt"));
    assert_eq!(PathBuf::from(root_directory("/home/u")), PathBuf::from("/home/u/cnt/data"));
    assert_eq!(
        PathBuf::from(user_database_path("/home/u")),
        PathBuf::from("/home/u/cnt/users.json")
    );
    assert_eq!(
        PathBuf::from(file_owner_db_path("/home/u")),
        PathBuf::from("/home/u/cnt/files.json")
    );
    assert_eq!(
        PathBuf::from(network_analyzer_path("/home/u")),
        PathBuf::from("/home/u/cnt/stats.json")
    );
    assert_eq!(host_directory("/home/u"), "/home/u/cnt");
}

#[test]
fn host_directory_of_this_user_ends_in_cnt() {
    if let Some(host) = locate_host_directory() {
        assert!(PathBuf::from(&host).ends_with("cnt"));
        assert_ne!(host, "cnt");
    }
}

#[test]
fn file_type_follows_the_extension() {
    assert_eq!(get_file_type("/a/b/film.mp4"), Some(FileType::Video));
    assert_eq!(get_file_type("film.mov"), Some(FileType::Video));
    assert_eq!(get_file_type("film.avi"), Some(FileType::Video));
    assert_eq!(get_file_type("film.wvm"), Some(FileType::Video));
    assert_eq!(get_file_type("song.mp3"), Some(FileType::Audio));
    assert_eq!(get_file_type("song.wav"), Some(FileType::Audio));
    assert_eq!(get_file_type("song.aac"), Some(FileType::Audio));
    assert_eq!(get_file_type("song.flac"), Some(FileType::Audio));
    assert_eq!(get_file_type("song.aiff"), Some(FileType::Audio));
    assert_eq!(get_file_type("doc.pdf"), Some(FileType::Binary));
    assert_eq!(get_file_type("doc.docx"), Some(FileType::Binary));
    assert_eq!(get_file_type("doc.pptx"), Some(FileType::Binary));
    assert_eq!(get_file_type("doc.xlsx"), Some(FileType::Binary));
    assert_eq!(get_file_type("pack.tar"), Some(FileType::Archive));
    assert_eq!(get_file_type("pack.tar.gz"), Some(FileType::Archive));
    assert_eq!(get_file_type("pack.zip"), Some(FileType::Archive));
    assert_eq!(get_file_type("notes.txt"), Some(FileType::Text));
    assert_eq!(get_file_type("notes.rtf"), Some(FileType::Text));
    assert_eq!(get_file_type("notes.md"), Some(FileType::Text));
    // Unknown or missing extensions have no kind.
    assert_eq!(get_file_type("program.exe"), None);
    assert_eq!(get_file_type("notes.TXT"), None);
    assert_eq!(get_file_type("mp3"), None);
    assert_eq!(get_file_type(".mp3"), None);
    assert_eq!(get_file_type("dir.mp3/"), Some(FileType::Audio));
    assert_eq!(get_file_type(""), None);
    assert_eq!(file_type_of_extension("mp3"), Some(FileType::Audio));
    assert_eq!(file_type_of_extension("song.mp3"), None);
}
