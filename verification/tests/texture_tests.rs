use papercut::texture::{modulate_channel, Texture, TextureError};
use papercut::units::{Ratio, MICRO};

#[test]
fn from_bytes_accepts_exact_length() {
    let bytes = vec![255u8, 255, 255, 255];
    let texture = Texture::from_bytes(1, 1, &bytes).unwrap();
    assert_eq!(texture.width, 1);
    assert_eq!(texture.height, 1);
    assert_eq!(texture.texels.len(), 1);
    let texel = texture.texel_at(0, 0);
    assert_eq!((texel.r, texel.g, texel.b, texel.a), (255, 255, 255, 255));
}

#[test]
fn from_bytes_unpacks_rows_in_order() {
    let bytes = vec![
        1u8, 2, 3, 4, //
        5, 6, 7, 8, //
        9, 10, 11, 12, //
        13, 14, 15, 16,
    ];
    let texture = Texture::from_bytes(2, 2, &bytes).unwrap();
    assert_eq!(texture.texel_at(0, 0).r, 1);
    assert_eq!(texture.texel_at(1, 0).r, 5);
    assert_eq!(texture.texel_at(0, 1).r, 9);
    assert_eq!(texture.texel_at(1, 1).g, 14);
}

#[test]
fn from_bytes_rejects_zero_dimension() {
    let bytes = vec![0u8; 4];
    assert!(matches!(Texture::from_bytes(0, 1, &bytes), Err(TextureError::BadDimensions)));
    assert!(matches!(Texture::from_bytes(1, 0, &bytes), Err(TextureError::BadDimensions)));
}

#[test]
fn from_bytes_rejects_oversized_dimension() {
    let bytes = vec![0u8; 4];
    assert!(matches!(Texture::from_bytes(0x4001, 1, &bytes), Err(TextureError::BadDimensions)));
}

#[test]
fn from_bytes_rejects_wrong_length() {
    let bytes = vec![0u8; 7];
    assert!(matches!(Texture::from_bytes(1, 1, &bytes), Err(TextureError::WrongLength)));
    let bytes = vec![0u8; 8];
    assert!(matches!(Texture::from_bytes(1, 1, &bytes), Err(TextureError::WrongLength)));
}

#[test]
fn sampling_a_white_pixel_yields_white_everywhere() {
    let bytes = vec![255u8, 255, 255, 255];
    let texture = Texture::from_bytes(1, 1, &bytes).unwrap();
    let corners = [
        (Ratio::new(0, 1), Ratio::new(0, 1)),
        (Ratio::new(1, 1), Ratio::new(1, 1)),
        (Ratio::new(1, 3), Ratio::new(2, 7)),
        (Ratio::new(1, 2), Ratio::new(1, 2)),
    ];
    for (u, v) in corners {
        let sample = texture.sample_bilinear(u, v);
        assert!(sample.r.equals_int(255));
        assert!(sample.g.equals_int(255));
        assert!(sample.b.equals_int(255));
        assert!(sample.a.equals_int(255));
    }
}

#[test]
fn white_vertex_color_leaves_sample_unchanged() {
    let bytes = vec![17u8, 34, 51, 255];
    let texture = Texture::from_bytes(1, 1, &bytes).unwrap();
    let sample = texture.sample_bilinear(Ratio::new(1, 4), Ratio::new(3, 4));
    // modulating by full-intensity white (one, in micro units) keeps the
    // sampled value
    let modulated = modulate_channel(MICRO, sample.r);
    assert!(modulated.same_value_as(&sample.r));
    assert!(modulated.equals_int(17));
}

#[test]
fn half_intensity_vertex_color_halves_the_sample() {
    let bytes = vec![100u8, 0, 0, 255];
    let texture = Texture::from_bytes(1, 1, &bytes).unwrap();
    let sample = texture.sample_bilinear(Ratio::new(0, 1), Ratio::new(0, 1));
    let modulated = modulate_channel(MICRO / 2, sample.r);
    assert!(modulated.equals_int(50));
}

#[test]
fn bilinear_sample_blends_two_texels() {
    // two texels side by side: red 0 and red 200
    let bytes = vec![0u8, 0, 0, 255, 200, 0, 0, 255];
    let texture = Texture::from_bytes(2, 1, &bytes).unwrap();
    // halfway between the two texel centers
    let sample = texture.sample_bilinear(Ratio::new(1, 2), Ratio::new(0, 1));
    assert!(sample.r.equals_int(100));
    // at the left edge the left texel is returned
    let left = texture.sample_bilinear(Ratio::new(0, 1), Ratio::new(0, 1));
    assert!(left.r.equals_int(0));
    // at the right edge the right texel is returned
    let right = texture.sample_bilinear(Ratio::new(1, 1), Ratio::new(0, 1));
    assert!(right.r.equals_int(200));
}
