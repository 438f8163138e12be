use ssg_parent::driver::EprintlnDriver;
use ssg_parent::graphic_file_specs::{get, FileSource, FileSpec};

#[test]
fn eprintln_driver_new() {
    let (driver, output) = EprintlnDriver::new(());
    assert_eq!(driver, EprintlnDriver);
    assert_eq!(output, ());
}

#[test]
fn file_spec_new() {
    let spec = FileSpec::new("/a.svg", FileSource::Http("https://example.com/a.svg".to_string()));
    assert_eq!(spec.target, "/a.svg");
    assert!(matches!(&spec.source, FileSource::Http(u) if u == "https://example.com/a.svg"));
}

#[test]
fn graphics() {
    let specs = get();
    assert_eq!(specs[0].target, "/favicon.ico");
    assert!(matches!(&specs[0].source, FileSource::Static(b) if b.is_empty()));
    let expected = [
        ("/twitter_logo.svg", "https://upload.wikimedia.org/wikipedia/commons/4/4f/Twitter-logo.svg"),
        ("/zulip_logo.svg", "https://raw.githubusercontent.com/zulip/zulip/main/static/images/logo/zulip-icon-square.svg"),
        ("/inverticat.svg", "https://upload.wikimedia.org/wikipedia/commons/9/91/Octicons-mark-github.svg"),
        ("/youtube_logo.svg", "https://upload.wikimedia.org/wikipedia/commons/0/09/YouTube_full-color_icon_%282017%29.svg"),
    ];
    for (i, (target, url)) in expected.iter().enumerate() {
        assert_eq!(specs[i + 1].target, *target);
        assert!(matches!(&specs[i + 1].source, FileSource::Http(u) if u == url));
    }
}
