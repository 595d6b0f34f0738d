use removebg::pipeline::{channel_first, composite, finalize, native_mask, prepare, run, MODEL_SIZE};
use removebg::raster::{AlphaMask, RasterImage};
use removebg::scalar::{normalize, ONE};
use removebg::tensor::Tensor;

fn gradient(width: u32, height: u32, alpha: bool) -> RasterImage {
    let channels = if alpha { 4 } else { 3 };
    let mut data = Vec::new();
    for y in 0..height {
        for x in 0..width {
            for c in 0..channels {
                data.push(((x * 7 + y * 13 + c * 29) % 256) as u8);
            }
        }
    }
    RasterImage::new(width, height, alpha, data).unwrap()
}

fn constant_output(bits: u32) -> Tensor {
    Tensor::new(1, 1, 320, 320, vec![bits; 320 * 320]).unwrap()
}

#[test]
fn prepare_shape_is_fixed() {
    for (w, h) in [(1u32, 1u32), (500, 300), (320, 320), (17, 640)] {
        let t = prepare(&gradient(w, h, false));
        assert_eq!((t.batch, t.channels, t.height, t.width), (1, 3, 320, 320));
        assert_eq!(t.data.len(), 3 * 320 * 320);
        for bits in &t.data {
            let v = f32::from_bits(*bits);
            assert!(v >= 0.0 && v <= 1.0);
            assert!(*bits <= ONE);
        }
    }
}

#[test]
fn prepare_single_pixel_is_spread_over_the_grid() {
    let img = RasterImage::new(1, 1, false, vec![255, 0, 51]).unwrap();
    let t = prepare(&img);
    assert_eq!(MODEL_SIZE, 320);
    for y in [0usize, 100, 319] {
        for x in [0usize, 7, 319] {
            assert_eq!(f32::from_bits(t.get(0, 0, y, x)), 1.0);
            assert_eq!(f32::from_bits(t.get(0, 1, y, x)), 0.0);
            assert_eq!(f32::from_bits(t.get(0, 2, y, x)), 51.0 / 255.0);
        }
    }
}

#[test]
fn prepare_at_model_size_keeps_samples() {
    let img = gradient(320, 320, false);
    let t = prepare(&img);
    for (x, y) in [(0u32, 0u32), (5, 9), (319, 0), (0, 319), (319, 319), (160, 200)] {
        for c in 0..3usize {
            let expected = img.get(x, y, c) as f32 / 255.0;
            assert_eq!(f32::from_bits(t.get(0, c, y as usize, x as usize)), expected);
        }
    }
}

#[test]
fn prepare_drops_alpha() {
    let img = gradient(320, 320, true);
    let t = prepare(&img);
    assert_eq!(t.channels, 3);
    for (x, y) in [(0u32, 0u32), (31, 77), (319, 319)] {
        for c in 0..3usize {
            assert_eq!(t.get(0, c, y as usize, x as usize), normalize(img.get(x, y, c)));
        }
    }
}

#[test]
fn channel_first_layout() {
    let img = RasterImage::new(2, 1, true, vec![10, 20, 30, 99, 40, 50, 60, 98]).unwrap();
    let t = channel_first(&img);
    assert_eq!((t.batch, t.channels, t.height, t.width), (1, 3, 1, 2));
    let expected: Vec<u32> = [10u8, 40, 20, 50, 30, 60].iter().map(|s| normalize(*s)).collect();
    assert_eq!(t.data, expected);
}

#[test]
fn native_mask_quantises_first_channel() {
    let scores = [0.0f32, 0.5, 1.0, 2.0, -1.0, 0.25, 0.9, 0.1, 0.3, 0.7, 0.6, 0.2];
    let data: Vec<u32> = scores.iter().map(|s| s.to_bits()).collect();
    let t = Tensor::new(1, 2, 2, 3, data).unwrap();
    let m = native_mask(&t);
    assert_eq!((m.width, m.height), (3, 2));
    assert_eq!(m.data, vec![0, 127, 255, 255, 0, 63]);
}

#[test]
fn finalize_has_requested_size() {
    let raw = constant_output(0.3f32.to_bits());
    for (w, h) in [(1u32, 1u32), (500, 300), (320, 320), (33, 700)] {
        let m = finalize(&raw, w, h);
        assert_eq!((m.width, m.height), (w, h));
        assert_eq!(m.data.len(), (w * h) as usize);
    }
}

#[test]
fn finalize_at_native_size_is_the_quantised_output() {
    let scores: Vec<u32> = (0..12).map(|i| (i as f32 / 11.0).to_bits()).collect();
    let raw = Tensor::new(1, 1, 3, 4, scores).unwrap();
    let m = finalize(&raw, 4, 3);
    let expected: Vec<u8> = (0..12).map(|i| ((i as f32 / 11.0) * 255.0) as u8).collect();
    assert_eq!(m.data, expected);
}

#[test]
fn finalize_reads_the_output_resolution_from_the_tensor() {
    let raw = Tensor::new(1, 1, 2, 5, vec![1.0f32.to_bits(); 10]).unwrap();
    let m = finalize(&raw, 40, 30);
    assert_eq!((m.width, m.height), (40, 30));
    assert!(m.data.iter().all(|v| *v == 255));
}

#[test]
fn composite_is_pointwise() {
    let img = gradient(5, 4, false);
    let mask = AlphaMask::new(5, 4, (0..20).map(|i| (i * 11) as u8).collect()).unwrap();
    let out = composite(&img, &mask);
    assert!(out.alpha);
    assert_eq!((out.width, out.height), (5, 4));
    for y in 0..4 {
        for x in 0..5 {
            for c in 0..3 {
                assert_eq!(out.get(x, y, c), img.get(x, y, c));
            }
            assert_eq!(out.get(x, y, 3), mask.get(x, y));
        }
    }
}

#[test]
fn composite_replaces_source_alpha() {
    let img = gradient(3, 3, true);
    let mask = AlphaMask::new(3, 3, vec![200; 9]).unwrap();
    let out = composite(&img, &mask);
    for y in 0..3 {
        for x in 0..3 {
            for c in 0..3 {
                assert_eq!(out.get(x, y, c), img.get(x, y, c));
            }
            assert_eq!(out.get(x, y, 3), 200);
        }
    }
}

#[test]
fn constant_half_output_gives_uniform_127() {
    let img = gradient(500, 300, false);
    let input = prepare(&img);
    assert_eq!((input.batch, input.channels, input.height, input.width), (1, 3, 320, 320));
    let raw = constant_output(0.5f32.to_bits());
    let mask = finalize(&raw, img.width, img.height);
    assert_eq!((mask.width, mask.height), (500, 300));
    assert!(mask.data.iter().all(|v| *v == 127));
    let out = composite(&img, &mask);
    assert_eq!((out.width, out.height), (500, 300));
    for y in 0..300 {
        for x in 0..500 {
            assert_eq!(out.get(x, y, 3), 127);
            assert_eq!(out.get(x, y, 0), img.get(x, y, 0));
        }
    }
}

#[test]
fn run_composites_the_mask_of_the_output() {
    let img = gradient(64, 48, true);
    let raw = constant_output(0.5f32.to_bits());
    let out = run(&img, &raw);
    assert!(out.alpha);
    assert_eq!((out.width, out.height), (64, 48));
    assert_eq!(out.data.len(), 64 * 48 * 4);
    for y in 0..48 {
        for x in 0..64 {
            assert_eq!(out.get(x, y, 1), img.get(x, y, 1));
            assert_eq!(out.get(x, y, 3), 127);
        }
    }
}

#[test]
fn prepare_of_flat_colour_is_flat() {
    let mut data = Vec::new();
    for _ in 0..(40 * 25) {
        data.extend_from_slice(&[200u8, 100, 0, 7]);
    }
    let img = RasterImage::new(40, 25, true, data).unwrap();
    let t = prepare(&img);
    for y in [0usize, 160, 319] {
        for x in [0usize, 160, 319] {
            assert_eq!(t.get(0, 0, y, x), normalize(200));
            assert_eq!(t.get(0, 1, y, x), normalize(100));
            assert_eq!(t.get(0, 2, y, x), normalize(0));
        }
    }
}
