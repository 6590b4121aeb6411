use stackvm::files::{File, FileMode, Files, FilesError};

#[test]
fn files_open() {
    let mut files: Files<Vec<u8>> = Files::new();
    assert_eq!(files.open(Vec::new()), Ok(0));
    assert_eq!(files.open(Vec::new()), Ok(1));

    files.set_current(0).unwrap();
    assert_eq!(files.current(), Ok(0));
    assert_eq!(files.open(Vec::new()), Ok(2));

    let _ = files.close(0).unwrap();
    assert_eq!(files.current(), Err(FilesError::CurrentIsNotSet));
    assert_eq!(files.open(Vec::new()), Ok(0));
}

#[test]
fn files_write_through_current() {
    let mut files: Files<Vec<u8>> = Files::new();
    assert_eq!(files.open(Vec::new()), Ok(0));
    assert_eq!(files.write(7), Err(FilesError::CurrentIsNotSet));
    files.set_current(0).unwrap();
    files.write(7).unwrap();
    files.write(9).unwrap();
    files.flush().unwrap();
    let sink = files.close(0).unwrap();
    assert_eq!(sink, vec![7, 9]);
}

#[test]
fn files_not_found() {
    let mut files: Files<Vec<u8>> = Files::new();
    assert_eq!(files.set_current(3), Err(FilesError::NotFound));
    assert_eq!(files.close(0), Err(FilesError::NotFound));
}

#[test]
fn files_switch_current() {
    let mut files: Files<Vec<u8>> = Files::new();
    assert_eq!(files.open(vec![1]), Ok(0));
    assert_eq!(files.open(vec![2]), Ok(1));

    files.set_current(0).unwrap();
    files.set_current(1).unwrap();
    assert_eq!(files.current(), Ok(1));
    // re-selecting the already current file also succeeds
    files.set_current(1).unwrap();
    assert_eq!(files.current(), Ok(1));

    // switching selection loses no file
    assert_eq!(files.close(0), Ok(vec![1]));
    assert_eq!(files.close(1), Ok(vec![2]));
    assert_eq!(files.current(), Err(FilesError::CurrentIsNotSet));
}

#[test]
fn files_capability_mode() {
    let sink: Vec<u8> = Vec::new();
    assert_eq!(sink.get_mode(), FileMode::Write);
}
