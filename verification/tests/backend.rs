use emulated_camera::backend::{
    device_config, start_backend, Backend, BackendAction, BackendEvent, CmdLineArgs, Config, Error,
    LensFacing, DEFAULT_FFMPEG_PATH, DEFAULT_LENS_FACING, DEFAULT_PROBE_TIMEOUT_SECS,
};
use emulated_camera::checks::Timeout;
use emulated_camera::path::HostPath;

fn host(path: &str) -> HostPath {
    HostPath::new(path.as_bytes().to_vec())
}

fn args(lens_facing: &str, media_file: Option<&str>, require_media: bool) -> CmdLineArgs {
    CmdLineArgs {
        socket_path: host("/tmp/media.sock"),
        lens_facing: lens_facing.to_owned(),
        media_file: media_file.map(host),
        ffmpeg_path: host("ffmpeg"),
        require_media,
        media_probe_timeout: 7,
    }
}

fn backend(media_file: Option<&str>, require_media: bool) -> Backend {
    match Config::try_from(args("FRONT", media_file, require_media)) {
        Ok(config) => start_backend(config),
        Err(_) => panic!("no configuration"),
    }
}

fn served(backend: &Backend) -> Option<&[u8]> {
    backend.media_file().as_ref().map(|path| path.as_bytes())
}

fn failure(action: BackendAction) -> Error {
    match action {
        BackendAction::Fail(error) => error,
        _ => panic!("no failure"),
    }
}

#[test]
fn lens_facings() {
    assert_eq!(LensFacing::from_name(&"FRONT".to_owned()), Some(LensFacing::Front));
    assert_eq!(LensFacing::from_name(&"BACK".to_owned()), Some(LensFacing::Back));
    assert_eq!(LensFacing::from_name(&"EXTERNAL".to_owned()), Some(LensFacing::External));
    assert_eq!(LensFacing::from_name(&"SIDE".to_owned()), None);
    assert_eq!(LensFacing::from_name(&String::new()), None);
}

#[test]
fn defaults() {
    assert_eq!(LensFacing::from_name(&DEFAULT_LENS_FACING.to_owned()), Some(LensFacing::Back));
    assert_eq!(DEFAULT_FFMPEG_PATH, "ffmpeg");
    assert_eq!(DEFAULT_PROBE_TIMEOUT_SECS, 5);
}

#[test]
fn a_configuration_from_the_command_line() {
    let Ok(config) = Config::try_from(args("EXTERNAL", Some("clip.mp4"), true)) else {
        panic!("no configuration");
    };
    assert_eq!(config.socket_path.as_bytes(), b"/tmp/media.sock");
    assert_eq!(config.lens_facing, LensFacing::External);
    assert_eq!(config.media_file.as_ref().unwrap().as_bytes(), b"clip.mp4");
    assert_eq!(config.ffmpeg_path.as_bytes(), b"ffmpeg");
    assert!(config.require_media);
    assert_eq!(config.media_probe_timeout, 7);
    assert_eq!(config.probe_timeout(), Timeout { secs: 7, nanos: 0 });
    let error = Config::try_from(args("SIDE", None, false)).err().unwrap();
    assert_eq!(error, Error::InvalidArgument("SIDE".to_owned()));
}

#[test]
fn messages() {
    let reason = || "reason".to_owned();
    assert_eq!(Error::InvalidArgument(reason()).message(), "Invalid argument: reason");
    assert_eq!(Error::CouldNotCreateDaemon(reason()).message(), "Could not create daemon: reason");
    assert_eq!(Error::ServeFailed(reason()).message(), "Fatal error: reason");
    assert_eq!(
        Error::MediaUnavailable(reason()).message(),
        "Media file is unavailable: reason"
    );
}

#[test]
fn the_card() {
    let config = device_config(0x0400_1000);
    assert_eq!(config.device_caps, 0x0400_1000);
    assert_eq!(config.device_type, 0);
    let mut card = [0u8; 32];
    card[..15].copy_from_slice(b"emulated_camera");
    assert_eq!(config.card, card);
}

#[test]
fn without_a_media_file_nothing_is_checked() {
    for require_media in [false, true] {
        let mut backend = backend(None, require_media);
        assert!(matches!(
            backend.next(BackendEvent::Requested),
            BackendAction::CreateDaemon
        ));
        assert_eq!(served(&backend), None);
    }
}

#[test]
fn an_optional_file_that_passes_is_served() {
    let mut backend = backend(Some("clip.mp4"), false);
    assert!(matches!(
        backend.next(BackendEvent::Requested),
        BackendAction::CheckMedia
    ));
    assert!(matches!(
        backend.next(BackendEvent::Checked(Ok(()))),
        BackendAction::CreateDaemon
    ));
    assert_eq!(served(&backend), Some(&b"clip.mp4"[..]));
}

#[test]
fn an_optional_file_that_fails_is_dropped() {
    let mut backend = backend(Some("clip.mp4"), false);
    backend.next(BackendEvent::Requested);
    assert!(matches!(
        backend.next(BackendEvent::Checked(Err("gone".to_owned()))),
        BackendAction::CreateDaemon
    ));
    assert_eq!(served(&backend), None);
}

#[test]
fn a_required_file_is_probed_too() {
    let mut backend = backend(Some("clip.mp4"), true);
    backend.next(BackendEvent::Requested);
    assert!(matches!(
        backend.next(BackendEvent::Checked(Ok(()))),
        BackendAction::ProbeMedia(Timeout { secs: 7, nanos: 0 })
    ));
    assert_eq!(served(&backend), None);
    assert!(matches!(
        backend.next(BackendEvent::Probed(Ok(()))),
        BackendAction::CreateDaemon
    ));
    assert_eq!(served(&backend), Some(&b"clip.mp4"[..]));
}

#[test]
fn a_required_file_that_fails_ends_startup() {
    let mut unchecked = backend(Some("clip.mp4"), true);
    unchecked.next(BackendEvent::Requested);
    assert_eq!(
        failure(unchecked.next(BackendEvent::Checked(Err("gone".to_owned())))),
        Error::MediaUnavailable("gone".to_owned())
    );
    let mut undecodable = backend(Some("clip.mp4"), true);
    undecodable.next(BackendEvent::Requested);
    undecodable.next(BackendEvent::Checked(Ok(())));
    assert_eq!(
        failure(undecodable.next(BackendEvent::Probed(Err("garbage".to_owned())))),
        Error::MediaUnavailable("garbage".to_owned())
    );
}

#[test]
fn daemons_serve_one_after_the_other() {
    let mut backend = backend(Some("clip.mp4"), false);
    backend.next(BackendEvent::Requested);
    backend.next(BackendEvent::Checked(Ok(())));
    for _ in 0..3 {
        assert!(matches!(
            backend.next(BackendEvent::DaemonCreated(Ok(()))),
            BackendAction::Serve
        ));
        assert!(matches!(
            backend.next(BackendEvent::Served(Ok(()))),
            BackendAction::CreateDaemon
        ));
        assert_eq!(served(&backend), Some(&b"clip.mp4"[..]));
    }
    assert_eq!(backend.config().media_probe_timeout, 7);
    assert_eq!(
        failure(backend.next(BackendEvent::DaemonCreated(Err("busy".to_owned())))),
        Error::CouldNotCreateDaemon("busy".to_owned())
    );
    assert_eq!(
        failure(backend.next(BackendEvent::Served(Err("broken".to_owned())))),
        Error::ServeFailed("broken".to_owned())
    );
}
