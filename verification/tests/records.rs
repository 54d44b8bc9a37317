use bomscan::bom::Boms;
use bomscan::file::{File, FileContent};
use bomscan::filesystem;
use bomscan::filetype::FileType;
use bomscan::opt::Opt;
use bomscan::plugin::Plugin;
use bomscan::stats::Stats;

fn standard_boms() -> Boms {
    let mut boms = Boms::new();
    File::init_boms(&mut boms);
    boms
}

#[test]
fn a_fresh_table_is_empty() {
    assert!(Boms::new().list.is_empty());
}

#[test]
fn new_record_starts_unclassified() {
    let file = File::new("src/lib.rs".to_string());
    assert_eq!(file.path, "src/lib.rs");
    assert_eq!(file.matching_glob, "");
    assert_eq!(file.matching_bom, "");
    assert_eq!(file.file_type, FileType::Absent);
}

#[test]
fn get_file_type_records_the_matched_name() {
    let mut file = File::new("a.txt".to_string());
    let boms = standard_boms();
    let content = FileContent::Bytes(vec![0xEF, 0xBB, 0xBF, b'o', b'k']);
    let t = file.get_file_type(&content, &boms);
    assert_eq!(t, FileType::EncodedText);
    assert_eq!(file.file_type, FileType::EncodedText);
    assert_eq!(file.matching_bom, "UTF-8");
    assert_eq!(file.matching_glob, "<none>");
}

#[test]
fn get_file_type_leaves_no_name_without_a_match() {
    let mut file = File::new("a.bin".to_string());
    let boms = standard_boms();
    let t = file.get_file_type(&FileContent::Bytes(vec![b'x', 0x00]), &boms);
    assert_eq!(t, FileType::Binary);
    assert_eq!(file.matching_bom, "");
}

#[test]
fn tallies_grow_one_counter_at_a_time() {
    let boms = standard_boms();
    let mut stats = Stats::new();
    let mut file = File::new("p".to_string());

    file.get_file_type(&FileContent::Missing, &boms);
    assert_eq!(file.get_updated_file_type(&file, &mut stats), "none");

    file.get_file_type(&FileContent::Bytes(vec![b'h', b'i']), &boms);
    assert_eq!(file.get_updated_file_type(&file, &mut stats), "text");

    file.get_file_type(&FileContent::Bytes(vec![0xFF, 0xFE]), &boms);
    assert_eq!(file.get_updated_file_type(&file, &mut stats), "encoded text");

    file.get_file_type(&FileContent::Bytes(vec![0x00]), &boms);
    assert_eq!(file.get_updated_file_type(&file, &mut stats), "binary");
    file.get_file_type(&FileContent::Bytes(vec![b'a', 0x00]), &boms);
    assert_eq!(file.get_updated_file_type(&file, &mut stats), "binary");

    assert_eq!(stats.none_files, 1);
    assert_eq!(stats.text_files, 1);
    assert_eq!(stats.encoded_text_files, 1);
    assert_eq!(stats.binary_files, 2);
    assert_eq!(stats.total(), 5);
}

#[test]
fn glob_matching_goes_through_the_glob_rules() {
    let file = File::new("main.rs".to_string());
    assert!(file.is_match(&"*.rs".to_string()));
    assert!(!file.is_match(&"*.txt".to_string()));
    // An invalid pattern matches nothing.
    assert!(!file.is_match(&"[".to_string()));
    // With the default match options, `*` crosses `/` as well.
    let nested = File::new("src/main.rs".to_string());
    assert!(nested.is_match(&"*.rs".to_string()));
    assert!(nested.is_match(&"**/*.rs".to_string()));
    assert!(!nested.is_match(&"src/*.txt".to_string()));
}

#[test]
fn the_placeholder_glob_is_fixed() {
    assert_eq!(File::get_matching_glob(), "<none>");
}

#[test]
fn nonexistent_paths_are_not_regular_files() {
    assert!(!filesystem::is_file(&"/no/such/file".to_string()));
    let file = File::new("/no/such/file".to_string());
    assert!(!file.is_file());
}

#[test]
fn git_metadata_segments_are_recognized() {
    assert!(filesystem::contains_git_segment(b"/repo/.git/config"));
    assert!(filesystem::contains_git_segment(b"a/.git/b"));
    assert!(!filesystem::contains_git_segment(b"/repo/git/config"));
    assert!(!filesystem::contains_git_segment(b"/repo/.gitignore"));
    assert!(!filesystem::contains_git_segment(b".git"));
    assert!(!filesystem::contains_git_segment(b""));
    assert!(filesystem::contains_git_segment(b"/.git/"));
}

#[test]
fn options_and_plugin_state_hold_their_fields() {
    let opt = Opt { directory: ".".to_string(), track: false, verbose: true };
    assert_eq!(opt.directory, ".");
    assert!(!opt.track);
    assert!(opt.verbose);
    let plugin = Plugin { path: ".gitignore".to_string(), globs: vec![] };
    assert_eq!(plugin.path, ".gitignore");
    assert!(plugin.globs.is_empty());
}
