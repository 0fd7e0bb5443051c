use surface_dial_daemon::controller::controls::{Media, Volume, Zoom};

#[test]
fn media_meta() {
    let meta = Media::new().meta();
    assert_eq!(meta.name, "Media");
    assert!(meta.haptics);
    assert_eq!(meta.steps, 36);
}

#[test]
fn volume_meta() {
    let meta = Volume::new().meta();
    assert_eq!(meta.name, "Volume");
    assert!(meta.haptics);
    assert_eq!(meta.steps, 72);
}

#[test]
fn zoom_meta() {
    let meta = Zoom::new().meta();
    assert_eq!(meta.name, "Zoom");
    assert!(meta.haptics);
    assert_eq!(meta.steps, 36);
}
