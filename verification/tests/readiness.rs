use cubemap_strip::image::{Image, ImageStore};
use cubemap_strip::material::{CubemapMaterial, Direction};
use cubemap_strip::readiness::{convert_to_cube, readiness_step, ReadinessOutcome};
use cubemap_strip::registry::ConvertedTextures;

fn direction_of(x: f32, y: f32, z: f32, w: f32) -> Direction {
    Direction { x: x.to_bits(), y: y.to_bits(), z: z.to_bits(), w: w.to_bits() }
}

#[test]
fn accepts_strip_height_multiple_of_six() {
    let mut images = ImageStore::new();
    images.insert(1, Image::new_2d(1024, 6144));
    let mut converted = ConvertedTextures::new();
    let mut m = CubemapMaterial::new(direction_of(-1.0, -1.0, -1.0, 0.0), 1);

    let outcome = readiness_step(&mut m, &mut images, &mut converted);

    assert_eq!(outcome, ReadinessOutcome::Converted);
    assert!(m.ready);
    assert!(converted.contains(1));
    assert_eq!(images.get(1), Some(Image { width: 1024, height: 1024, layers: 6 }));
}

#[test]
fn accepts_non_square_faces_when_height_divides() {
    // 6000 is a multiple of six, so the strip is accepted even though its
    // faces are not square: only the height check gates the reinterpretation.
    let mut images = ImageStore::new();
    images.insert(4, Image::new_2d(1024, 6000));
    let mut converted = ConvertedTextures::new();
    let mut m = CubemapMaterial::new(direction_of(1.0, 1.0, 1.0, 1.0), 4);

    let outcome = readiness_step(&mut m, &mut images, &mut converted);

    assert_eq!(outcome, ReadinessOutcome::Converted);
    assert!(m.ready);
    assert_eq!(images.get(4), Some(Image { width: 1024, height: 1000, layers: 6 }));
}

#[test]
fn rejects_strip_height_not_multiple_of_six() {
    let mut images = ImageStore::new();
    images.insert(2, Image::new_2d(1024, 6001));
    let mut converted = ConvertedTextures::new();
    let mut m = CubemapMaterial::new(direction_of(1.0, 1.0, 1.0, 1.0), 2);

    let outcome = readiness_step(&mut m, &mut images, &mut converted);

    assert_eq!(outcome, ReadinessOutcome::Malformed);
    assert!(!m.ready);
    assert!(!converted.contains(2));
    // untouched: same flat layout as before
    assert_eq!(images.get(2), Some(Image { width: 1024, height: 6001, layers: 1 }));
}

#[test]
fn malformed_source_stays_unready_and_diagnosed_every_tick() {
    let mut images = ImageStore::new();
    images.insert(2, Image::new_2d(1024, 6001));
    let mut converted = ConvertedTextures::new();
    let mut mats = vec![CubemapMaterial::new(direction_of(1.0, 1.0, 1.0, 1.0), 2)];

    // one diagnostic per tick attempted, and ready stays false indefinitely
    for _ in 0..5 {
        let diagnostics = convert_to_cube(&mut mats, &mut images, &mut converted);
        assert_eq!(diagnostics, 1);
        assert!(!mats[0].ready);
    }
    assert!(!converted.contains(2));
}

#[test]
fn pending_image_is_retried_not_failed() {
    let mut images = ImageStore::new();
    let mut converted = ConvertedTextures::new();
    let mut m = CubemapMaterial::new(direction_of(1.0, 1.0, 1.0, 1.0), 3);

    // load still pending: no diagnostic, no state change
    let outcome = readiness_step(&mut m, &mut images, &mut converted);
    assert_eq!(outcome, ReadinessOutcome::Pending);
    assert!(!m.ready);

    // the load completes; the next tick converts
    images.insert(3, Image::new_2d(512, 3072));
    let outcome = readiness_step(&mut m, &mut images, &mut converted);
    assert_eq!(outcome, ReadinessOutcome::Converted);
    assert!(m.ready);
    assert_eq!(images.get(3), Some(Image { width: 512, height: 512, layers: 6 }));
}

#[test]
fn shared_source_becomes_ready_for_all_descriptors() {
    let mut images = ImageStore::new();
    images.insert(7, Image::new_2d(1024, 6144));
    let mut converted = ConvertedTextures::new();
    let mut mats = vec![
        CubemapMaterial::new(direction_of(-1.0, -1.0, -1.0, 0.0), 7),
        CubemapMaterial::new(direction_of(1.0, 1.0, 1.0, 1.0), 7),
        CubemapMaterial::new(direction_of(1.0, 1.0, 1.0, 1.0), 7),
    ];

    // one pass: the first descriptor converts, the others hit the registry
    let diagnostics = convert_to_cube(&mut mats, &mut images, &mut converted);
    assert_eq!(diagnostics, 0);
    assert!(mats.iter().all(|m| m.ready));

    // a descriptor created after the shared texture was converted becomes
    // ready on its next readiness step, without touching the image again
    let mut late = CubemapMaterial::new(direction_of(1.0, 1.0, 1.0, 1.0), 7);
    let outcome = readiness_step(&mut late, &mut images, &mut converted);
    assert_eq!(outcome, ReadinessOutcome::AlreadyConverted);
    assert!(late.ready);
    assert_eq!(images.get(7), Some(Image { width: 1024, height: 1024, layers: 6 }));
}

#[test]
fn conversion_is_done_once_per_image() {
    let mut images = ImageStore::new();
    images.insert(8, Image::new_2d(256, 1536));
    let mut converted = ConvertedTextures::new();
    let mut mats = vec![CubemapMaterial::new(direction_of(1.0, 1.0, 1.0, 1.0), 8)];

    convert_to_cube(&mut mats, &mut images, &mut converted);
    let after_first = images.get(8);
    assert_eq!(after_first, Some(Image { width: 256, height: 256, layers: 6 }));

    // further ticks short-circuit on the registry: the layout is not divided again
    convert_to_cube(&mut mats, &mut images, &mut converted);
    convert_to_cube(&mut mats, &mut images, &mut converted);
    assert_eq!(images.get(8), after_first);
}

#[test]
fn registry_membership_is_monotonic() {
    let mut converted = ConvertedTextures::new();
    converted.insert(1);
    converted.insert(2);
    converted.insert(3);
    assert!(converted.contains(1));
    assert!(converted.contains(2));

    // more activity never removes a member
    converted.insert(2);
    converted.insert(9);
    assert!(converted.contains(1));
    assert!(converted.contains(2));
    assert!(converted.contains(3));
    assert!(converted.contains(9));
    assert!(!converted.contains(4));
}
