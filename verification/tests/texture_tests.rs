use render_loop::render::{Material, MaterialArena, MaterialError, MaterialId};
use render_loop::texture::{load_texture, RgbaImage, Texture, TextureError, MAX_TEXTURE_SIDE};

const SHININESS: f32 = 32.0;

fn image(width: u32, height: u32, pixels: Vec<u8>) -> RgbaImage {
    RgbaImage { width, height, pixels }
}

fn pixel() -> Texture {
    load_texture(image(1, 1, vec![1, 2, 3, 4])).unwrap()
}

fn expect_error(result: Result<Texture, TextureError>) -> TextureError {
    match result {
        Ok(_) => panic!("a texture was made"),
        Err(error) => error,
    }
}

fn expect_material_error(result: Result<Material, MaterialError>) -> MaterialError {
    match result {
        Ok(_) => panic!("a material was made"),
        Err(error) => error,
    }
}

#[test]
fn load_texture_keeps_sides_and_pixels() {
    let texture = load_texture(image(2, 1, vec![255, 0, 0, 255, 0, 128, 64, 32])).unwrap();
    assert_eq!((texture.width(), texture.height()), (2, 1));
    assert_eq!(texture.pixels(), &vec![255, 0, 0, 255, 0, 128, 64, 32]);
    let tall = load_texture(image(1, 2, vec![10, 20, 30, 255, 40, 50, 60, 255])).unwrap();
    assert_eq!((tall.width(), tall.height()), (1, 2));
    assert_eq!(tall.pixels(), &vec![10, 20, 30, 255, 40, 50, 60, 255]);
}

#[test]
fn load_texture_takes_four_bytes_per_pixel() {
    let texture = load_texture(image(2, 3, vec![9; 24])).unwrap();
    assert_eq!((texture.width(), texture.height()), (2, 3));
    assert_eq!(texture.pixels().len(), 24);
    let empty = load_texture(image(0, 7, Vec::new())).unwrap();
    assert_eq!((empty.width(), empty.height()), (0, 7));
    let widest = load_texture(image(MAX_TEXTURE_SIDE, 1, vec![0; 4 * 65_535])).unwrap();
    assert_eq!((widest.width(), widest.height()), (65_535, 1));
}

#[test]
fn load_texture_refuses_a_wrong_number_of_bytes() {
    assert_eq!(expect_error(load_texture(image(2, 3, vec![9; 23]))), TextureError::Malformed);
    assert_eq!(expect_error(load_texture(image(2, 3, vec![9; 25]))), TextureError::Malformed);
    assert_eq!(expect_error(load_texture(image(1, 1, Vec::new()))), TextureError::Malformed);
    assert_eq!(expect_error(load_texture(image(0, 0, vec![1]))), TextureError::Malformed);
}

#[test]
fn load_texture_refuses_a_side_the_gpu_does_not_take() {
    assert_eq!(expect_error(load_texture(image(65_536, 1, Vec::new()))), TextureError::TooLarge);
    assert_eq!(expect_error(load_texture(image(1, 65_536, vec![0; 4]))), TextureError::TooLarge);
    assert_eq!(
        expect_error(load_texture(image(u32::MAX, u32::MAX, vec![0; 4]))),
        TextureError::TooLarge
    );
    assert_eq!(expect_error(load_texture(image(65_536, 2, vec![0; 3]))), TextureError::TooLarge);
}

#[test]
fn material_is_made_of_two_images_unexchanged() {
    let material = Material::new(
        image(2, 1, vec![255, 0, 0, 255, 0, 128, 64, 32]),
        image(1, 2, vec![10, 20, 30, 255, 40, 50, 60, 255]),
        SHININESS.to_bits(),
    )
    .unwrap();
    assert_eq!(material.diffuse().pixels(), &vec![255, 0, 0, 255, 0, 128, 64, 32]);
    assert_eq!((material.diffuse().width(), material.diffuse().height()), (2, 1));
    assert_eq!(material.specular().pixels(), &vec![10, 20, 30, 255, 40, 50, 60, 255]);
    assert_eq!((material.specular().width(), material.specular().height()), (1, 2));
    assert_eq!(material.shininess(), SHININESS.to_bits());
    assert_eq!(f32::from_bits(material.shininess()), 32.0);
}

#[test]
fn material_names_the_texture_that_failed() {
    let bits = SHININESS.to_bits();
    let good = || image(1, 1, vec![1, 2, 3, 4]);
    let short = || image(1, 1, vec![1, 2, 3]);
    let wide = || image(70_000, 1, Vec::new());
    assert_eq!(
        expect_material_error(Material::new(short(), good(), bits)),
        MaterialError::Diffuse(TextureError::Malformed)
    );
    assert_eq!(
        expect_material_error(Material::new(good(), wide(), bits)),
        MaterialError::Specular(TextureError::TooLarge)
    );
    assert_eq!(
        expect_material_error(Material::new(wide(), short(), 0)),
        MaterialError::Diffuse(TextureError::TooLarge)
    );
    assert_eq!(
        expect_material_error(Material::new(good(), short(), 0)),
        MaterialError::Specular(TextureError::Malformed)
    );
    assert_eq!(
        expect_material_error(Material::new(good(), good(), 0)),
        MaterialError::Shininess
    );
}

#[test]
fn material_shininess_must_read_above_zero() {
    for bad in [0.0f32, -0.0, -1.0, -f32::MIN_POSITIVE, f32::NEG_INFINITY, f32::NAN, -f32::NAN] {
        assert_eq!(
            expect_material_error(Material::from_textures(pixel(), pixel(), bad.to_bits())),
            MaterialError::Shininess
        );
    }
    assert_eq!(
        expect_material_error(Material::from_textures(pixel(), pixel(), 0x7F80_0001)),
        MaterialError::Shininess
    );
    assert_eq!(
        expect_material_error(Material::new(
            image(1, 1, vec![1, 2, 3, 4]),
            image(1, 1, vec![1, 2, 3, 4]),
            (-32.0f32).to_bits()
        )),
        MaterialError::Shininess
    );
    for good in [f32::MIN_POSITIVE, 1.0e-40, 1.0, 32.0, f32::MAX, f32::INFINITY] {
        let material = Material::from_textures(pixel(), pixel(), good.to_bits()).unwrap();
        assert_eq!(material.shininess(), good.to_bits());
    }
    let smallest = Material::from_textures(pixel(), pixel(), 1).unwrap();
    assert_eq!(smallest.shininess(), 1);
}

#[test]
fn arena_names_materials_by_their_place() {
    let mut arena = MaterialArena::new();
    assert_eq!(arena.len(), 0);
    assert!(arena.get(MaterialId(0)).is_none());
    let dull = Material::from_textures(pixel(), pixel(), 2.0f32.to_bits()).unwrap();
    let shiny = Material::from_textures(pixel(), pixel(), 64.0f32.to_bits()).unwrap();
    let first = arena.add(dull);
    let second = arena.add(shiny);
    assert_eq!((first, second), (MaterialId(0), MaterialId(1)));
    assert_eq!(arena.len(), 2);
    assert_eq!(arena.get(first).unwrap().shininess(), 2.0f32.to_bits());
    assert_eq!(arena.get(second).unwrap().shininess(), 64.0f32.to_bits());
    assert!(arena.get(MaterialId(2)).is_none());
    assert!(arena.get(MaterialId(usize::MAX)).is_none());
}
