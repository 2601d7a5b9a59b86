use encrypted_ptr::EncryptedPtr;
use std::cell::Cell;
use std::rc::Rc;

/// Example player struct.
struct Player {
    health: u32,
}

#[test]
fn decrypt_ptr_box() {
    // turn box into encrypted pointer.
    let player: EncryptedPtr<Player> = EncryptedPtr::new(Box::new(Player { health: 100 }));

    assert_eq!(player.access().health, 100);
}

#[test]
fn from_owned_value_is_transparent() {
    let wrapped = EncryptedPtr::from_owned_value(Player { health: 100 });
    assert_eq!(wrapped.access().health, 100);
}

#[test]
fn access_mut_updates_pointee() {
    let mut wrapped = EncryptedPtr::from_owned_value(Player { health: 100 });
    wrapped.access_mut().health = 42;
    assert_eq!(wrapped.access().health, 42);
}

#[test]
fn repeated_access_decodes_each_time() {
    let wrapped = EncryptedPtr::from_owned_value(7u64);
    assert_eq!(*wrapped.access(), 7);
    assert_eq!(*wrapped.access(), 7);
    assert_eq!(wrapped.decrypt_ptr(), wrapped.decrypt_ptr());
}

#[test]
fn destroy_releases_pointee() {
    let token = Rc::new(Cell::new(0u32));

    let wrapped = EncryptedPtr::from_owned_value(Rc::clone(&token));
    assert_eq!(Rc::strong_count(&token), 2);

    wrapped.destroy();
    assert_eq!(Rc::strong_count(&token), 1);
}

#[test]
fn scope_end_releases_pointee() {
    let token = Rc::new(Cell::new(0u32));
    {
        let _wrapped = EncryptedPtr::from_owned_value(Rc::clone(&token));
        assert_eq!(Rc::strong_count(&token), 2);
    }
    assert_eq!(Rc::strong_count(&token), 1);
}

#[test]
fn repeated_cycles_are_balanced() {
    let token = Rc::new(Cell::new(0u32));
    let mut i: usize = 0;
    while i < 100 {
        let wrapped = EncryptedPtr::from_owned_value(Rc::clone(&token));
        assert_eq!(Rc::strong_count(&token), 2);
        wrapped.destroy();
        assert_eq!(Rc::strong_count(&token), 1);
        i += 1;
    }
}

#[test]
fn generate_key_feeds_round_trip() {
    let key = EncryptedPtr::<u32>::generate_key();
    let data: u64 = 0xFEDCBA0987654321;
    let t = encrypted_ptr::Transform::MethodA;
    assert_eq!(t.decrypt(t.encrypt(data, key), key), data);
}

#[test]
fn debug_representation_renders_both_parts() {
    let wrapped = EncryptedPtr::from_owned_value(12345u32);
    let text = wrapped.debug_representation();
    assert!(text.starts_with("EncryptedPtr { encrypted_value: 0x"));
    let digits = format!("{:016x}", wrapped.encrypted_value());
    assert_eq!(&text[34..50], digits);
    assert!(text.contains("pointed_value"));
    assert!(text.contains("12345"));
}
