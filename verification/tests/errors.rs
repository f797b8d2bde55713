use iced_video_player::Error;

#[test]
fn messages_of_the_plain_kinds() {
    assert_eq!(Error::Uri.message(), "invalid URI");
    assert_eq!(Error::Concurrency.message(), "mutex poisoned");
    assert_eq!(Error::Unknown.message(), "unknown error occured");
    assert_eq!(
        Error::Conversion.message(),
        "out of range integral type conversion attempted"
    );
}

#[test]
fn messages_of_the_wrapping_kinds_are_the_detail() {
    assert_eq!(Error::Io("file not found".to_string()).message(), "file not found");
    assert_eq!(
        Error::GenericVideo("stream exhausted".to_string()).message(),
        "stream exhausted"
    );
}

#[test]
fn a_clone_is_the_same_error() {
    let first = Error::GenericVideo("codec parameters missing".to_string());
    let copy = first.clone();
    assert!(matches!(copy, Error::GenericVideo(ref detail) if detail == "codec parameters missing"));
    assert_eq!(copy.message(), first.message());
    assert!(matches!(Error::Uri.clone(), Error::Uri));
    assert!(matches!(Error::Conversion.clone(), Error::Conversion));
    assert!(matches!(Error::Concurrency.clone(), Error::Concurrency));
    assert!(matches!(Error::Unknown.clone(), Error::Unknown));
    assert!(matches!(Error::Io("x".to_string()).clone(), Error::Io(ref detail) if detail == "x"));
}
