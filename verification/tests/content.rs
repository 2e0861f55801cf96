use mutter::actor::ActorId;
use mutter::content::ContentAttachment;

#[test]
fn attach_detach_track_set() {
    let mut att = ContentAttachment::new();
    let a = ActorId::new(0, 0);
    let b = ActorId::new(1, 0);
    assert!(att.attach(a));
    assert!(!att.attach(a));
    assert!(att.attach(b));
    assert_eq!(att.n_attached(), 2);
    assert!(att.is_attached(a));
    assert!(att.detach(a));
    assert!(!att.is_attached(a));
    assert!(!att.detach(a));
    assert_eq!(att.n_attached(), 1);
}

#[test]
fn attach_is_idempotent_and_detach_reports_presence() {
    let a = ActorId::new(1, 0);
    let b = ActorId::new(2, 0);
    let mut c = ContentAttachment::new();
    assert!(c.attach(a));
    assert!(!c.attach(a));
    assert!(c.attach(b));
    assert_eq!(c.n_attached(), 2);
    assert_eq!(c.attached_actors(), &[a, b]);
    assert!(c.is_attached(a));
    assert!(c.detach(a));
    assert!(!c.detach(a));
    assert!(!c.is_attached(a));
    assert_eq!(c.attached_actors(), &[b]);
}

#[test]
fn attach_then_detach_restores() {
    let a = ActorId::new(1, 0);
    let b = ActorId::new(1, 1);
    let mut c = ContentAttachment::default();
    c.attach(a);
    let before = c.attached_actors().to_vec();
    c.attach(b);
    c.detach(b);
    assert_eq!(c.attached_actors(), before.as_slice());
}
