use wme_core::texture::{
    check_uniform_name, signed_size, PixelLayout, Texture, TextureSet, TextureUpload, RED, RG, RGB,
    RGBA,
};

#[test]
fn formats_are_those_of_the_graphics_interface() {
    assert_eq!(RED, gl::RED);
    assert_eq!(RG, gl::RG);
    assert_eq!(RGB, gl::RGB);
    assert_eq!(RGBA, gl::RGBA);
}

#[test]
fn upload_format_follows_the_layout() {
    assert_eq!(TextureUpload::new(PixelLayout::Luma8, 1, 1).format, gl::RED);
    assert_eq!(TextureUpload::new(PixelLayout::LumaA8, 1, 1).format, gl::RG);
    assert_eq!(TextureUpload::new(PixelLayout::Rgb8, 1, 1).format, gl::RGB);
    assert_eq!(TextureUpload::new(PixelLayout::Rgba8, 1, 1).format, gl::RGBA);
    assert_eq!(TextureUpload::new(PixelLayout::Other, 1, 1).format, 0);
}

#[test]
fn upload_of_an_rgb_image() {
    assert_eq!(
        TextureUpload::new(PixelLayout::Rgb8, 512, 256),
        TextureUpload { internal_format: 0x1907, width: 512, height: 256, format: 0x1907 }
    );
}

#[test]
fn upload_of_an_unknown_layout() {
    assert_eq!(
        TextureUpload::new(PixelLayout::Other, 3, 2),
        TextureUpload { internal_format: 0, width: 3, height: 2, format: 0 }
    );
}

#[test]
fn signed_size_reads_the_bit_pattern() {
    for size in [0u32, 1, 800, 0x7fff_ffff, 0x8000_0000, 0x8000_0001, 0xffff_fffe, 0xffff_ffff] {
        assert_eq!(signed_size(size), size as i32);
    }
    assert_eq!(signed_size(0x7fff_ffff), i32::MAX);
    assert_eq!(signed_size(0x8000_0000), i32::MIN);
    assert_eq!(signed_size(0xffff_ffff), -1);
}

#[test]
fn uniform_names_hold_no_nul() {
    assert!(check_uniform_name("diffuse_texture"));
    assert!(check_uniform_name(""));
    assert!(check_uniform_name("größe"));
    assert!(!check_uniform_name("\0"));
    assert!(!check_uniform_name("diffuse\0texture"));
    assert!(!check_uniform_name("texture\0"));
}

#[test]
fn uniform_names_are_those_without_a_zero_byte() {
    for name in ["model", "", "view\0", "\0projection", "light\0Pos", "größe"] {
        assert_eq!(check_uniform_name(name), !name.bytes().any(|byte| byte == 0));
    }
}

#[test]
fn new_texture_records_what_it_is_given() {
    assert!(check_uniform_name("diffuse_texture"));
    assert_eq!(
        Texture::new(7, 640, 480, "diffuse_texture"),
        Texture { id: 7, width: 640, height: 480, nr_channels: 0, name: "diffuse_texture".to_string() }
    );
}

#[test]
fn same_as_compares_every_field() {
    let texture = Texture::new(1, 2, 3, "a");
    assert!(texture.same_as(&texture.clone()));
    assert!(!texture.same_as(&Texture::new(9, 2, 3, "a")));
    assert!(!texture.same_as(&Texture::new(1, 9, 3, "a")));
    assert!(!texture.same_as(&Texture::new(1, 2, 9, "a")));
    assert!(!texture.same_as(&Texture::new(1, 2, 3, "b")));
    let mut other = texture.clone();
    other.nr_channels = 4;
    assert!(!texture.same_as(&other));
}

#[test]
fn same_as_agrees_with_equality() {
    let textures = [
        Texture::new(1, 2, 3, "a"),
        Texture::new(1, 2, 3, "a"),
        Texture::new(1, 2, 3, "b"),
        Texture::new(2, 2, 3, "a"),
    ];
    for left in &textures {
        for right in &textures {
            assert_eq!(left.same_as(right), left == right);
        }
    }
}

#[test]
fn a_new_set_is_empty() {
    let set = TextureSet::new();
    assert_eq!(set.len(), 0);
    assert!(!set.contains(&Texture::new(1, 2, 3, "a")));
}

#[test]
fn insert_keeps_the_order_of_first_insertion() {
    let mut set = TextureSet::new();
    let a = Texture::new(1, 8, 8, "a");
    let b = Texture::new(2, 8, 8, "b");
    let c = Texture::new(3, 8, 8, "c");
    assert!(set.insert(b.clone()));
    assert!(set.insert(a.clone()));
    assert!(!set.insert(b.clone()));
    assert!(set.insert(c.clone()));
    assert!(!set.insert(a.clone()));
    assert_eq!(set.len(), 3);
    assert_eq!(set.get(0), &b);
    assert_eq!(set.get(1), &a);
    assert_eq!(set.get(2), &c);
    assert!(set.contains(&a) && set.contains(&b) && set.contains(&c));
}

#[test]
fn insert_behaves_as_a_hash_set() {
    let inserted = [(1u32, "a"), (2, "b"), (1, "a"), (1, "b"), (2, "b"), (3, "a")];
    let mut set = TextureSet::new();
    let mut reference = std::collections::HashSet::new();
    for (id, name) in inserted {
        let texture = Texture::new(id, 4, 4, name);
        assert_eq!(set.insert(texture.clone()), reference.insert(texture));
        assert_eq!(set.len(), reference.len());
    }
    for index in 0..set.len() {
        assert!(reference.contains(set.get(index)));
    }
}
