use plants_vs_zombies::functionality::my_image::{pack_rgba, Image};
use plants_vs_zombies::threads::audio_thread::{audio_step, AudioAction, AudioEvent};
use plants_vs_zombies::tools::update_texture_path;

#[test]
fn texture_path_of_a_frame() {
    let mut path = String::from("stale text");
    update_texture_path(&mut path, "/images/zm/common/", 12, ".png");
    assert_eq!(path, "/images/zm/common/12.png");
    update_texture_path(&mut path, "a", 0, "b");
    assert_eq!(path, "a0b");
    update_texture_path(&mut path, "", u32::MAX, "");
    assert_eq!(path, "4294967295");
    update_texture_path(&mut path, "x", 100, "");
    assert_eq!(path, "x100");
}

#[test]
fn pixels_are_packed_argb() {
    assert_eq!(pack_rgba(&vec![1, 2, 3, 4]), vec![0x0401_0203]);
    assert_eq!(pack_rgba(&vec![255, 0, 0, 255, 0, 0, 0, 0]), vec![0xFFFF_0000, 0]);
    assert!(pack_rgba(&vec![]).is_empty());
}

#[test]
fn image_is_resized_to_its_size() {
    let red = vec![255u8, 0, 0, 255];
    let img = Image::new(red, 1, 1, 7, 9, 2, 3);
    assert_eq!((img.x, img.y, img.width, img.height), (7, 9, 2, 3));
    assert_eq!(img.image_data.len(), 6);
    assert!(img.image_data.iter().all(|p| *p == 0xFFFF_0000));
}

#[test]
fn image_moves() {
    let mut img = Image { x: 0, y: 0, image_data: vec![1], width: 1, height: 1 };
    img.change(4, 5);
    assert_eq!((img.x, img.y), (4, 5));
    assert_eq!(img.image_data, vec![1]);
}

#[test]
fn drawing_skips_transparent_pixels_and_edges() {
    // 2 x 2 image: opaque, transparent / opaque, opaque.
    let img = Image {
        x: 2,
        y: 1,
        image_data: vec![0xFF00_0001, 0x00FF_FFFF, 0x8000_0003, 0x0100_0004],
        width: 2,
        height: 2,
    };
    let mut buffer = vec![7u32; 3 * 3];
    img.draw(&mut buffer, 3, 3);
    // Only the image's left column fits in the 3 x 3 buffer.
    assert_eq!(buffer, vec![7, 7, 7, 7, 7, 0xFF00_0001, 7, 7, 0x8000_0003]);
    let once = buffer.clone();
    img.draw(&mut buffer, 3, 3);
    assert_eq!(buffer, once);
    let far = Image { x: 3, y: 0, image_data: vec![0xFFFF_FFFF], width: 1, height: 1 };
    far.draw(&mut buffer, 3, 3);
    assert_eq!(buffer, once);
    let empty = Image { x: 0, y: 0, image_data: vec![], width: 0, height: 0 };
    empty.draw(&mut buffer, 3, 3);
    assert_eq!(buffer, once);
}

#[test]
fn audio_requests() {
    match audio_step(AudioEvent::PlayBGM(String::from("/audio/play_bg.mp3"), true), true) {
        AudioAction::PlayBgm(file, looped) => {
            assert_eq!(file, "/audio/play_bg.mp3");
            assert!(looped);
        },
        _ => panic!("expected music"),
    }
    match audio_step(AudioEvent::PlaySFX(String::from("/audio/win.mp3")), false) {
        AudioAction::Missing(file) => assert_eq!(file, "/audio/win.mp3"),
        _ => panic!("expected a missing file"),
    }
    match audio_step(AudioEvent::PlaySFX(String::from("/audio/win.mp3")), true) {
        AudioAction::PlaySfx(file) => assert_eq!(file, "/audio/win.mp3"),
        _ => panic!("expected an effect"),
    }
    assert!(matches!(audio_step(AudioEvent::StopBGM, false), AudioAction::StopBgm));
}

#[test]
fn frames_get_different_paths() {
    let mut a = String::new();
    let mut b = String::new();
    update_texture_path(&mut a, "/f/", 1, ".png");
    update_texture_path(&mut b, "/f/", 10, ".png");
    assert_ne!(a, b);
    assert_eq!(b, "/f/10.png");
}

#[test]
fn drawing_ignores_extra_pixel_data() {
    let img = Image { x: 0, y: 0, image_data: vec![0xFF00_0009, 0xFF00_0001], width: 1, height: 1 };
    let mut buffer = vec![0u32; 2];
    img.draw(&mut buffer, 2, 1);
    assert_eq!(buffer, vec![0xFF00_0009, 0]);
}
