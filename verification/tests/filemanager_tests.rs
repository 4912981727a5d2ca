use nt_player::filemanager::FileManager;
use nt_player::config::Filters;

#[test]
fn test_parse_filter_size() {
    assert_eq!(None, FileManager::parse_filter_size("xxx"));
    assert_eq!(1, FileManager::parse_filter_size("1b").unwrap());
    assert_eq!(1024, FileManager::parse_filter_size("1k").unwrap());
    assert_eq!(
        5 * 1024 * 1024,
        FileManager::parse_filter_size("5M").unwrap()
    );
    assert_eq!(
        8 * 1024 * 1024 * 1024,
        FileManager::parse_filter_size("8G").unwrap()
    );
    assert_eq!(
        21 * 1024 * 1024 * 1024 * 1024,
        FileManager::parse_filter_size("21T").unwrap()
    );
}

#[test]
fn test_filter_formats() {
    let formats = vec!["txt".to_string(), "vsix".to_string()];
    let path_txt = r"C:\Users\刘东\Downloads\test.txt";
    let path_vsix = r"C:\Users\刘东\Downloads\codelldb-x86_64-windows.vsix";
    let path_zip = r"C:\Users\刘东\Downloads\HBuilderX.3.6.14.20221215.zip";
    let path_dir = r"C:\Users\刘东\Downloads";

    assert_eq!(true, FileManager::filter_formats(path_txt, &formats));
    assert_eq!(true, FileManager::filter_formats(path_vsix, &formats));

    assert_eq!(false, FileManager::filter_formats(path_zip, &formats));
    assert_eq!(false, FileManager::filter_formats(path_dir, &formats));
}

#[test]
fn test_filter_size() {
    // A 3-byte text file and an archive of about 37 megabytes.
    let size_3b: u64 = 3;
    let size_37m: u64 = 37 * 1024 * 1024;

    // Correct format test
    assert_eq!(true, FileManager::filter_size(size_3b, "< 1K"));
    assert_eq!(true, FileManager::filter_size(size_3b, "<= 1K"));
    assert_eq!(true, FileManager::filter_size(size_3b, "== 3B"));
    assert_eq!(true, FileManager::filter_size(size_37m, ">= 10m"));
    assert_eq!(true, FileManager::filter_size(size_37m, "< 1G"));

    // Wrong format test
    assert_eq!(false, FileManager::filter_size(size_37m, "== 1G"));
    assert_eq!(false, FileManager::filter_size(size_37m, "= 1G"));
    assert_eq!(false, FileManager::filter_size(size_37m, "> 2P"));
    assert_eq!(false, FileManager::filter_size(size_37m, ">2M"));
}

#[test]
fn parse_filter_size_rejects_malformed() {
    // Unit letter alone, and digits alone, are not a size.
    assert_eq!(None, FileManager::parse_filter_size("K"));
    assert_eq!(None, FileManager::parse_filter_size("10"));
    // A digit that is not one.
    assert_eq!(None, FileManager::parse_filter_size("1x2K"));
    // Lower-case units count as their upper-case letter.
    assert_eq!(
        FileManager::parse_filter_size("7g"),
        FileManager::parse_filter_size("7G")
    );
    // A value too large for the machine word is no size.
    assert_eq!(None, FileManager::parse_filter_size("99999999999999999999B"));
}

#[test]
fn filter_formats_edge_cases() {
    let formats = vec!["txt".to_string()];
    // A hidden file's whole name is no extension.
    assert_eq!(false, FileManager::filter_formats(".txt", &formats));
    // The extension is read from the file name, not the directories.
    assert_eq!(true, FileManager::filter_formats("a.dir/b.txt", &formats));
    assert_eq!(false, FileManager::filter_formats("a.txt/b", &formats));
    // No formats configured means nothing matches.
    assert_eq!(false, FileManager::filter_formats("a.txt", &vec![]));
}

#[test]
fn filter_combines_both_conditions() {
    let filters = Filters {
        formats: Some(vec!["txt".to_string()]),
        size: Some("< 1K".to_string()),
    };
    assert_eq!(true, FileManager::filter("notes.txt", 3, &filters));
    assert_eq!(false, FileManager::filter("notes.txt", 2048, &filters));
    assert_eq!(false, FileManager::filter("notes.zip", 3, &filters));

    let no_filters = Filters { formats: None, size: None };
    assert_eq!(true, FileManager::filter("anything", 12345, &no_filters));
}

#[test]
fn iterable_path_is_a_work_stack() {
    let mut it = nt_player::filemanager::IterablePath::new("root".to_string());
    assert_eq!(it.take_next(), Some("root".to_string()));
    it.push_path("root/a".to_string());
    it.push_path("root/b".to_string());
    assert_eq!(it.take_next(), Some("root/b".to_string()));
    assert_eq!(it.take_next(), Some("root/a".to_string()));
    assert_eq!(it.take_next(), None);
}

#[test]
fn test_iterable_path() {
    let mut path_iter = nt_player::filemanager::IterablePath::new(r"d:\mv".to_string());
    while let Some(path) = path_iter.take_next() {
        println!("{:?}", path);
    }
}
