use ex::fs;
use ex::io::Error;
use std::io::ErrorKind;
use std::path::PathBuf;

#[test]
fn creating_a_directory_below_a_missing_parent() {
    let requested = PathBuf::from("missing-parent/child");

    let plain = fs::create_dir(requested.clone(), Err(std::io::Error::from(ErrorKind::NotFound)));
    match plain {
        Err(Error::Filesystem(path, action, err)) => {
            assert_eq!(action, "creating directory");
            assert_eq!(path, requested);
            assert_eq!(err.kind(), ErrorKind::NotFound);
        }
        _ => panic!("expected a single-path failure"),
    }

    let recursive = fs::create_dir_all(requested.clone(), Ok(()));
    assert!(recursive.is_ok());
}

#[test]
fn creating_a_directory_below_a_missing_parent_with_a_builder() {
    let requested = PathBuf::from("missing-parent/child");
    let mut builder = fs::DirBuilder::new();

    let plain = builder.create(requested.clone(), Err(std::io::Error::from(ErrorKind::NotFound)));
    match plain {
        Err(Error::Filesystem(path, action, _)) => {
            assert_eq!(action, "creating directory");
            assert_eq!(path, requested);
        }
        _ => panic!("expected a single-path failure"),
    }

    builder.recursive(true);
    assert!(builder.recursive);
    assert!(builder.create(requested, Ok(())).is_ok());
}

#[test]
fn opening_a_file_that_does_not_exist() {
    let requested = PathBuf::from("no/such/file.txt");
    let opened = fs::File::<u32>::open(
        requested.clone(),
        Err(std::io::Error::from(ErrorKind::NotFound)),
    );
    match opened {
        Err(Error::Filesystem(path, action, err)) => {
            assert_eq!(action, "opening file");
            assert_eq!(path, requested);
            assert_eq!(err.kind(), ErrorKind::NotFound);
        }
        _ => panic!("expected a single-path failure"),
    }
}

#[test]
fn opening_a_file_that_does_not_exist_with_options() {
    let requested = PathBuf::from("no/such/file.txt");
    let mut options = fs::OpenOptions::new();
    options.read(true);
    let opened = options.open::<u32>(
        requested.clone(),
        Err(std::io::Error::from(ErrorKind::NotFound)),
    );
    match opened {
        Err(Error::Filesystem(path, action, _)) => {
            assert_eq!(action, "opening file");
            assert_eq!(path, requested);
        }
        _ => panic!("expected a single-path failure"),
    }
}

#[test]
fn renaming_a_path_that_does_not_exist() {
    let source = PathBuf::from("not-there");
    let destination = PathBuf::from("somewhere/else");
    let renamed = fs::rename(
        source.clone(),
        destination.clone(),
        Err(std::io::Error::from(ErrorKind::NotFound)),
    );
    match renamed {
        Err(Error::Filesystem2(src, dst, action, err)) => {
            assert_eq!(src, source);
            assert_eq!(dst, destination);
            assert_eq!(action, "renaming");
            assert_eq!(err.kind(), ErrorKind::NotFound);
        }
        _ => panic!("expected a dual-path failure"),
    }
}

#[test]
fn a_user_can_tell_two_failures_apart_by_their_message() {
    let create = fs::create_dir(
        PathBuf::from("data"),
        Err(std::io::Error::new(ErrorKind::PermissionDenied, "permission denied")),
    )
    .unwrap_err();
    let read = fs::read(
        PathBuf::from("data"),
        Err(std::io::Error::new(ErrorKind::PermissionDenied, "permission denied")),
    )
    .unwrap_err();
    assert_eq!(create.to_string(), "error creating directory \"data\": permission denied");
    assert_eq!(read.to_string(), "error reading \"data\": permission denied");
    assert_ne!(create.to_string(), read.to_string());
}
