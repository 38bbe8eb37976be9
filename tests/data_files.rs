use std::path::Path;
use timekeep::DataFiles;

#[test]
fn data_files_lie_in_the_data_folder() {
    let files = DataFiles::new(Path::new("/base"));
    assert_eq!(files.data_folder().as_path(), Path::new("/base/timekeep"));
    assert_eq!(files.current_file().as_path(), Path::new("/base/timekeep/current.json"));
    assert_eq!(files.database_file().as_path(), Path::new("/base/timekeep/timekeep.db"));
}

#[test]
fn data_files_with_custom_names() {
    let files = DataFiles::custom(Path::new("/b"), "d", "c.json", "t.db");
    assert_eq!(files.data_folder().as_path(), Path::new("/b/d"));
    assert_eq!(files.current_file().as_path(), Path::new("/b/d/c.json"));
    assert_eq!(files.database_file().as_path(), Path::new("/b/d/t.db"));
}
