use ex::fs;
use ex::io::Error;
use ex::io::Result;
use ex::Wrapper;
use std::io::ErrorKind;
use std::path::PathBuf;

fn failure(code: i32) -> std::io::Error {
    std::io::Error::from_raw_os_error(code)
}

fn assert_single<T>(reported: Result<T>, path: &str, action: &str, code: i32) {
    match reported {
        Err(Error::Filesystem(at, label, err)) => {
            assert_eq!(at, PathBuf::from(path));
            assert_eq!(label, action);
            assert_eq!(err.raw_os_error(), Some(code));
        }
        Err(Error::Filesystem2(..)) => panic!("a single-path operation named two paths"),
        Ok(_) => panic!("a failure was reported as a success"),
    }
}

fn assert_dual<T>(reported: Result<T>, src: &str, dst: &str, action: &str, code: i32) {
    match reported {
        Err(Error::Filesystem2(from, to, label, err)) => {
            assert_eq!(from, PathBuf::from(src));
            assert_eq!(to, PathBuf::from(dst));
            assert_eq!(label, action);
            assert_eq!(err.raw_os_error(), Some(code));
        }
        Err(Error::Filesystem(..)) => panic!("a dual-path operation named one path"),
        Ok(_) => panic!("a failure was reported as a success"),
    }
}

#[test]
fn canonicalize_hands_the_resolved_path_through() {
    let reported = fs::canonicalize(PathBuf::from("a/../b"), Ok(PathBuf::from("/root/b")));
    assert_eq!(reported.unwrap(), PathBuf::from("/root/b"));
}

#[test]
fn canonicalize_failure_is_labelled() {
    let reported = fs::canonicalize(PathBuf::from("a/../b"), Err(failure(2)));
    assert_single(reported, "a/../b", "canonicalizing", 2);
}

#[test]
fn copy_hands_the_byte_count_through() {
    let reported = fs::copy(PathBuf::from("a"), PathBuf::from("b"), Ok(4096));
    assert_eq!(reported.unwrap(), 4096);
}

#[test]
fn copy_failure_names_source_and_destination() {
    let reported = fs::copy(PathBuf::from("a"), PathBuf::from("b"), Err(failure(13)));
    assert_dual(reported, "a", "b", "copying file", 13);
}

#[test]
fn copy_failure_keeps_the_order_of_equal_looking_paths() {
    let reported = fs::copy(PathBuf::from("x/1"), PathBuf::from("x/2"), Err(failure(28)));
    assert_dual(reported, "x/1", "x/2", "copying file", 28);
    let reported = fs::copy(PathBuf::from("x/2"), PathBuf::from("x/1"), Err(failure(28)));
    assert_dual(reported, "x/2", "x/1", "copying file", 28);
}

#[test]
fn create_dir_success_and_failure() {
    assert!(fs::create_dir(PathBuf::from("d"), Ok(())).is_ok());
    assert_single(fs::create_dir(PathBuf::from("d"), Err(failure(17))), "d", "creating directory", 17);
}

#[test]
fn create_dir_all_success_and_failure() {
    assert!(fs::create_dir_all(PathBuf::from("d/e"), Ok(())).is_ok());
    assert_single(
        fs::create_dir_all(PathBuf::from("d/e"), Err(failure(13))),
        "d/e",
        "recursively creating directory",
        13,
    );
}

#[test]
fn hard_link_success_and_failure() {
    assert!(fs::hard_link(PathBuf::from("s"), PathBuf::from("t"), Ok(())).is_ok());
    assert_dual(
        fs::hard_link(PathBuf::from("s"), PathBuf::from("t"), Err(failure(18))),
        "s",
        "t",
        "hard linking",
        18,
    );
}

#[test]
fn metadata_wraps_what_the_platform_returned() {
    let reported = fs::metadata(PathBuf::from("f"), Ok(77u32));
    let metadata = reported.unwrap();
    assert_eq!(*metadata, 77);
    assert_eq!(metadata.into_inner(), 77);
}

#[test]
fn metadata_failure_is_labelled() {
    let reported = fs::metadata::<u32>(PathBuf::from("f"), Err(failure(2)));
    assert_single(reported, "f", "getting metadata from", 2);
}

#[test]
fn metadata_remembers_the_path_it_was_read_from() {
    let metadata = fs::metadata(PathBuf::from("some/file"), Ok(())).unwrap();
    let reported = metadata.modified(Err(failure(95)));
    assert_single(reported, "some/file", "getting the modification time of", 95);
}

#[test]
fn read_hands_the_bytes_through() {
    let reported = fs::read(PathBuf::from("f"), Ok(vec![0u8, 255, 7]));
    assert_eq!(reported.unwrap(), vec![0u8, 255, 7]);
}

#[test]
fn read_failure_is_labelled() {
    assert_single(fs::read(PathBuf::from("f"), Err(failure(21))), "f", "reading", 21);
}

#[test]
fn read_dir_wraps_the_listing_and_remembers_the_directory() {
    let listing = fs::read_dir(PathBuf::from("dir"), Ok("handle")).unwrap();
    assert_eq!(*listing, "handle");
    let entry = listing.next::<u8>(Some(Err(failure(5))));
    match entry {
        Some(reported) => assert_single(reported, "dir", "iterating through directory", 5),
        None => panic!("a step was reported as the end"),
    }
    assert_eq!(listing.into_inner(), "handle");
}

#[test]
fn read_dir_failure_is_labelled() {
    let reported = fs::read_dir::<u8>(PathBuf::from("dir"), Err(failure(20)));
    assert_single(reported, "dir", "reading directory", 20);
}

#[test]
fn read_link_success_and_failure() {
    let reported = fs::read_link(PathBuf::from("l"), Ok(PathBuf::from("target")));
    assert_eq!(reported.unwrap(), PathBuf::from("target"));
    assert_single(fs::read_link(PathBuf::from("l"), Err(failure(22))), "l", "reading link", 22);
}

#[test]
fn read_to_string_success_and_failure() {
    let reported = fs::read_to_string(PathBuf::from("f"), Ok("text\n".to_string()));
    assert_eq!(reported.unwrap(), "text\n");
    assert_single(fs::read_to_string(PathBuf::from("f"), Err(failure(2))), "f", "reading", 2);
}

#[test]
fn remove_dir_success_and_failure() {
    assert!(fs::remove_dir(PathBuf::from("d"), Ok(())).is_ok());
    assert_single(fs::remove_dir(PathBuf::from("d"), Err(failure(39))), "d", "removing directory", 39);
}

#[test]
fn remove_dir_all_success_and_failure() {
    assert!(fs::remove_dir_all(PathBuf::from("d"), Ok(())).is_ok());
    assert_single(
        fs::remove_dir_all(PathBuf::from("d"), Err(failure(13))),
        "d",
        "recursively removing directory",
        13,
    );
}

#[test]
fn remove_file_success_and_failure() {
    assert!(fs::remove_file(PathBuf::from("f"), Ok(())).is_ok());
    assert_single(fs::remove_file(PathBuf::from("f"), Err(failure(2))), "f", "removing file", 2);
}

#[test]
fn rename_success_and_failure() {
    assert!(fs::rename(PathBuf::from("a"), PathBuf::from("b"), Ok(())).is_ok());
    assert_dual(
        fs::rename(PathBuf::from("a"), PathBuf::from("b"), Err(failure(2))),
        "a",
        "b",
        "renaming",
        2,
    );
}

#[test]
fn set_permissions_success_and_failure() {
    assert!(fs::set_permissions(PathBuf::from("f"), Ok(())).is_ok());
    assert_single(
        fs::set_permissions(PathBuf::from("f"), Err(failure(1))),
        "f",
        "setting permissions for",
        1,
    );
}

#[test]
fn soft_link_success_and_failure() {
    assert!(fs::soft_link(PathBuf::from("s"), PathBuf::from("t"), Ok(())).is_ok());
    assert_dual(
        fs::soft_link(PathBuf::from("s"), PathBuf::from("t"), Err(failure(17))),
        "s",
        "t",
        "soft linking",
        17,
    );
}

#[test]
fn symlink_metadata_wraps_and_labels() {
    let metadata = fs::symlink_metadata(PathBuf::from("l"), Ok(3u8)).unwrap();
    assert_eq!(metadata.into_inner(), 3);
    let reported = fs::symlink_metadata::<u8>(PathBuf::from("l"), Err(failure(2)));
    assert_single(reported, "l", "getting symlink metadata from", 2);
}

#[test]
fn write_success_and_failure() {
    assert!(fs::write(PathBuf::from("f"), Ok(())).is_ok());
    assert_single(fs::write(PathBuf::from("f"), Err(failure(30))), "f", "writing", 30);
}

#[test]
fn the_cause_is_the_platform_error_itself() {
    let payload = std::io::Error::new(ErrorKind::Other, "a payload only this error has");
    let reported = fs::remove_file(PathBuf::from("f"), Err(payload));
    let cause = reported.unwrap_err().into_inner();
    assert_eq!(cause.kind(), ErrorKind::Other);
    assert_eq!(
        cause.into_inner().map(|inner| inner.to_string()),
        Some("a payload only this error has".to_string())
    );
}

#[test]
fn paths_are_kept_as_given_not_normalised() {
    let reported = fs::create_dir(PathBuf::from("./a//b/../c/"), Err(failure(2)));
    match reported {
        Err(Error::Filesystem(at, _, _)) => {
            assert_eq!(at.as_os_str(), PathBuf::from("./a//b/../c/").as_os_str());
        }
        _ => panic!("expected a single-path failure"),
    }
}

#[test]
fn adapter_failures_render_with_their_label() {
    let cause = std::io::Error::new(ErrorKind::NotFound, "no such entry");
    let error = fs::copy(PathBuf::from("in.txt"), PathBuf::from("out.txt"), Err(cause)).unwrap_err();
    assert_eq!(
        error.to_string(),
        "error copying file \"in.txt\" to \"out.txt\": no such entry"
    );
    let cause = std::io::Error::new(ErrorKind::NotFound, "no such entry");
    let error = fs::create_dir_all(PathBuf::from("a/b"), Err(cause)).unwrap_err();
    assert_eq!(
        error.to_string(),
        "error recursively creating directory \"a/b\": no such entry"
    );
}
