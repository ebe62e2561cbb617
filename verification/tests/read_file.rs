use agent1::tools::read_file;
use agent1::tools::ToolExecutionError;

#[test]
fn text_of_a_file_is_returned_in_full() {
    let bytes = "first line\nsecond line\n".as_bytes().to_vec();
    assert_eq!(read_file(Some(bytes)).unwrap(), "first line\nsecond line\n");
    assert_eq!(read_file(Some(Vec::new())).unwrap(), "");
    assert_eq!(
        read_file(Some("héllo 世界".as_bytes().to_vec())).unwrap(),
        "héllo 世界"
    );
}

#[test]
fn file_that_could_not_be_read_is_an_error() {
    let error = read_file(None).unwrap_err();
    assert_eq!(error, ToolExecutionError::ReadContents);
    assert_eq!(error.message(), "couldn't read file contents");
}

#[test]
fn file_that_is_no_text_is_an_error() {
    for bytes in [vec![0xff], vec![b'a', 0xc3], vec![0xed, 0xa0, 0x80], vec![0xc0, 0x80]] {
        assert_eq!(read_file(Some(bytes)), Err(ToolExecutionError::ReadContents));
    }
}
