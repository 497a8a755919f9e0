use webrender_backend::texture::{FramebufferSize, TexelRect, TextureTable};

#[test]
fn lock_plain_texture() {
    let mut t = TextureTable::new();
    t.insert(5, FramebufferSize { width: 640, height: 480 }, false);
    let l = t.lock(5);
    assert_eq!(l.texture_id, 5);
    assert_eq!(l.uv, TexelRect { u0: 0, v0: 0, u1: 640, v1: 480 });
}

#[test]
fn lock_flipped_texture() {
    let mut t = TextureTable::new();
    t.insert(9, FramebufferSize { width: 100, height: 50 }, true);
    assert_eq!(t.lock(9).uv, TexelRect { u0: 0, v0: 50, u1: 100, v1: 0 });
}

#[test]
fn lock_uses_low_bits_of_key() {
    let mut t = TextureTable::new();
    t.insert(3, FramebufferSize { width: 1, height: 2 }, false);
    assert_eq!(t.lock((1u64 << 32) | 3).texture_id, 3);
}

#[test]
fn unregistered_id_is_never_defaulted() {
    let mut t = TextureTable::new();
    assert!(!t.contains(1));
    assert_eq!(t.get(1), None);
    t.insert(2, FramebufferSize { width: 4, height: 4 }, false);
    assert!(!t.contains(1));
    assert_eq!(t.get(1), None);
    assert_eq!(t.get(2), Some((FramebufferSize { width: 4, height: 4 }, false)));
}

#[test]
fn reinsert_replaces_entry() {
    let mut t = TextureTable::new();
    t.insert(2, FramebufferSize { width: 4, height: 4 }, false);
    t.insert(2, FramebufferSize { width: 8, height: 6 }, true);
    assert_eq!(t.get(2), Some((FramebufferSize { width: 8, height: 6 }, true)));
}
