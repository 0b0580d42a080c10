use gpu_quad::texture_manager::{texture_binding_plan, BindingKind, TextureManager};

fn png_of_one_pixel(r: u8, g: u8, b: u8, a: u8) -> Vec<u8> {
    let img = image::RgbaImage::from_pixel(1, 1, image::Rgba([r, g, b, a]));
    let mut bytes: Vec<u8> = Vec::new();
    img.write_to(&mut std::io::Cursor::new(&mut bytes), image::ImageFormat::Png)
        .unwrap();
    bytes
}

fn png_of_size(width: u32, height: u32) -> Vec<u8> {
    let img = image::RgbaImage::from_pixel(width, height, image::Rgba([1, 2, 3, 4]));
    let mut bytes: Vec<u8> = Vec::new();
    img.write_to(&mut std::io::Cursor::new(&mut bytes), image::ImageFormat::Png)
        .unwrap();
    bytes
}

#[test]
fn no_textures_loads_empty() {
    let tm = TextureManager::new(&Vec::new()).unwrap();
    assert_eq!(tm.textures.len(), 0);
}

#[test]
fn valid_images_all_load() {
    let inputs = vec![png_of_size(2, 3), png_of_size(4, 1), png_of_size(1, 1)];
    let tm = TextureManager::new(&inputs).unwrap();
    assert_eq!(tm.textures.len(), 3);
    assert_eq!((tm.textures[0].width, tm.textures[0].height), (2, 3));
    assert_eq!((tm.textures[1].width, tm.textures[1].height), (4, 1));
    assert_eq!((tm.textures[2].width, tm.textures[2].height), (1, 1));
    for t in &tm.textures {
        assert_eq!(t.rgba.len(), 4 * (t.width as usize) * (t.height as usize));
    }
}

#[test]
fn decoded_pixels_come_from_the_bytes() {
    let inputs = vec![png_of_one_pixel(9, 8, 7, 255)];
    let tm = TextureManager::new(&inputs).unwrap();
    assert_eq!(tm.textures[0].rgba, vec![9, 8, 7, 255]);
}

#[test]
fn one_bad_image_fails_the_batch() {
    let inputs = vec![png_of_size(2, 2), b"not an image".to_vec(), png_of_size(1, 1)];
    let err = TextureManager::new(&inputs).unwrap_err();
    assert_eq!(err.index, 1);
    assert!(!err.message.is_empty());
}

#[test]
fn bad_first_image_reports_index_zero() {
    let inputs = vec![Vec::new(), png_of_size(1, 1)];
    let err = TextureManager::new(&inputs).unwrap_err();
    assert_eq!(err.index, 0);
}

#[test]
fn plan_for_zero_textures_is_empty() {
    let plan = texture_binding_plan(0);
    assert!(plan.is_empty());
}

#[test]
fn plan_reserves_binding_zero_for_the_sampler() {
    let plan = texture_binding_plan(3);
    assert_eq!(plan.len(), 4);
    assert_eq!(plan[0].binding, 0);
    assert!(matches!(plan[0].kind, BindingKind::Sampler));
    for (i, entry) in plan.iter().enumerate().skip(1) {
        assert_eq!(entry.binding, i as u32);
        assert!(matches!(entry.kind, BindingKind::Texture2d));
    }
    let samplers = plan
        .iter()
        .filter(|e| matches!(e.kind, BindingKind::Sampler))
        .count();
    assert_eq!(samplers, 1);
}

#[test]
fn plan_for_one_texture() {
    let plan = texture_binding_plan(1);
    assert_eq!(plan.len(), 2);
    assert!(matches!(plan[0].kind, BindingKind::Sampler));
    assert!(matches!(plan[1].kind, BindingKind::Texture2d));
    assert_eq!(plan[1].binding, 1);
}
