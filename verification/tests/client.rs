use bytes::Bytes;
use golem_unlimited::client::{
    read_body, Driver, Error, Peer, PeerSession, PeerSessionImage, PeerSessionInfoBuilder,
    SessionInfoBuilder,
};
use std::path::Path;

#[test]
fn driver_url_ends_in_slash() {
    let driver = Driver::from_addr("127.0.0.1:61621");
    assert_eq!(driver.url().as_str(), "http://127.0.0.1:61621/");
    assert_eq!(driver.list_peers(), "http://127.0.0.1:61621/peer");
    driver.auth_app("app", Some("token"));
}

#[test]
fn new_session_needs_every_field() {
    let driver = Driver::from_addr("hub:1");
    let builder = SessionInfoBuilder::default().name("job");
    assert_eq!(driver.new_session(builder).unwrap_err(), Error::InvalidHubSessionParameters);
    let builder = SessionInfoBuilder::default().environment("docker");
    assert_eq!(builder.build().unwrap_err(), "name");
    let builder = SessionInfoBuilder::default().name("job");
    assert_eq!(builder.build().unwrap_err(), "environment");
    let builder = SessionInfoBuilder::default().name("job").environment("docker");
    let request = driver.new_session(builder).unwrap();
    assert_eq!(request.url, "http://hub:1/sessions");
    assert_eq!(request.body.name(), "job");
    assert_eq!(request.body.environment(), "docker");
}

#[test]
fn session_id_is_the_text_of_the_body() {
    let driver = Driver::from_addr("hub:1");
    let session = driver.session_opened(&Bytes::from_static(b"42")).unwrap();
    assert_eq!(session.session_id, "42");
    assert_eq!(session.session_id(), "42");
    assert_eq!(session.new_blob(), "http://hub:1/sessions/42/blob");
    let request = session.add_peers(&vec!["n1".to_string(), "n2".to_string()]);
    assert_eq!(request.url, "http://hub:1/sessions/42/peer");
    assert_eq!(request.body, vec!["n1".to_string(), "n2".to_string()]);
    session.peer("n1");
    let blob = session.blob_created(&Bytes::from_static(b"b-7")).unwrap();
    assert_eq!(blob.blob_id(), "b-7");
    assert_eq!(blob.hub_session().session_id(), "42");
    assert_eq!(blob.hub_session().driver().url(), "http://hub:1/");
    assert_eq!(session.driver().url(), "http://hub:1/");
    blob.upload(Path::new("/tmp/data"));
    assert_eq!(
        session.blob_created(&Bytes::from_static(b"\xff")).unwrap_err(),
        Error::CannotGetResponseBody
    );
}

#[test]
fn body_that_is_not_utf8_is_refused() {
    let driver = Driver::from_addr("hub:1");
    let answer = driver.session_opened(&Bytes::from_static(b"\xc3\x28"));
    assert_eq!(answer.unwrap_err(), Error::CannotGetResponseBody);
    assert_eq!(read_body(&Bytes::from_static(b"\xe2\x82\xac")).unwrap(), "\u{20ac}");
    assert_eq!(read_body(&Bytes::new()).unwrap(), "");
}

#[test]
fn peer_session_info_needs_every_field() {
    let image = PeerSessionImage::new("http://images/a.tar", "sha1:0");
    assert_eq!(image.url(), "http://images/a.tar");
    assert_eq!(image.hash(), "sha1:0");
    assert_eq!(PeerSessionInfoBuilder::default().environment("hd").build().unwrap_err(), "image");
    assert_eq!(PeerSessionInfoBuilder::default().image(image).build().unwrap_err(), "environment");
    let info = PeerSessionInfoBuilder::default()
        .image(PeerSessionImage::default())
        .environment("hd")
        .build()
        .unwrap();
    assert_eq!(info.environment(), "hd");
    assert_eq!(info.image().url(), "");
    assert_eq!(Peer {}.new_session(PeerSessionInfoBuilder::default()), PeerSession {});
}

#[test]
fn blob_keeps_the_session_and_not_only_its_address() {
    let driver = Driver::from_addr("a");
    let session = driver.session_opened(&Bytes::from_static(b"b/sessions/c")).unwrap();
    let blob = session.blob_created(&Bytes::from_static(b"1")).unwrap();
    assert_eq!(blob.hub_session().session_id(), "b/sessions/c");
    assert_eq!(blob.hub_session().driver().url(), "http://a/");
}
