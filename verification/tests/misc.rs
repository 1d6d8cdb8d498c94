use rsix::dec_int::DecInt;
use rsix::error::Error;
use rsix::file_type::FileType;

#[test]
fn dec_int_formats_decimal_digits() {
    assert_eq!(DecInt::new(9876).as_bytes(), b"9876");
}

#[test]
fn dec_int_zero() {
    assert_eq!(DecInt::new(0).as_bytes(), b"0");
}

#[test]
fn dec_int_max() {
    assert_eq!(DecInt::new(u64::MAX).as_bytes(), b"18446744073709551615");
}

#[test]
fn error_round_trips_raw_code() {
    let e = Error::from_raw_os_error(5);
    assert_eq!(e.raw_os_error(), 5);
    assert_eq!(e, Error::from_raw_os_error(5));
    assert_ne!(e, Error::from_raw_os_error(6));
}

#[test]
fn error_from_io_error_with_os_code() {
    let io_err = std::io::Error::from_raw_os_error(7);
    let e = Error::from_io_error(&io_err);
    assert!(e.is_some());
    assert_eq!(e.unwrap().raw_os_error(), 7);
}

#[test]
fn error_from_io_error_without_os_code() {
    let io_err = std::io::Error::new(std::io::ErrorKind::Other, "no os code");
    assert!(Error::from_io_error(&io_err).is_none());
}

#[test]
fn file_type_tags_decode() {
    assert_eq!(FileType::from_dirent_d_type(0), FileType::Unknown);
    assert_eq!(FileType::from_dirent_d_type(1), FileType::Fifo);
    assert_eq!(FileType::from_dirent_d_type(2), FileType::CharacterDevice);
    assert_eq!(FileType::from_dirent_d_type(4), FileType::Directory);
    assert_eq!(FileType::from_dirent_d_type(6), FileType::BlockDevice);
    assert_eq!(FileType::from_dirent_d_type(8), FileType::RegularFile);
    assert_eq!(FileType::from_dirent_d_type(10), FileType::Symlink);
    assert_eq!(FileType::from_dirent_d_type(12), FileType::Socket);
    assert_eq!(FileType::from_dirent_d_type(3), FileType::Unknown);
    assert_eq!(FileType::from_dirent_d_type(255), FileType::Unknown);
}
