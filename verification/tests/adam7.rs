use fractalwonder_ui::adam7::{expected_adam7_pass, Adam7Accumulator, Adam7Pass, SENTINEL_NOT_COMPUTED};
use fractalwonder_ui::pixel::{ComputeData, MandelbrotData};

type Extra = [f32; 5];
type Data = ComputeData<Extra, ()>;

fn make_data(iterations: u32) -> Data {
    ComputeData::Mandelbrot(MandelbrotData {
        iterations,
        max_iterations: 1000,
        escaped: iterations < 1000,
        glitched: false,
        extra: [0.0; 5],
    })
}

fn make_sentinel() -> Data {
    ComputeData::Mandelbrot(MandelbrotData {
        iterations: SENTINEL_NOT_COMPUTED,
        max_iterations: 1000,
        escaped: false,
        glitched: false,
        extra: [0.0; 5],
    })
}

fn get_iterations(data: &Data) -> u32 {
    match data {
        ComputeData::Mandelbrot(m) => m.iterations,
        _ => panic!("Expected Mandelbrot"),
    }
}

/// Accumulator with exactly the given pixels computed.
fn acc_with(width: u32, height: u32, pixels: &[Option<u32>]) -> Adam7Accumulator<Extra, ()> {
    let mut acc = Adam7Accumulator::new(width, height);
    let pass: Vec<Data> = pixels
        .iter()
        .map(|p| match p {
            Some(i) => make_data(*i),
            None => make_sentinel(),
        })
        .collect();
    acc.merge(&pass);
    acc
}

#[test]
fn test_all_passes() {
    let passes = Adam7Pass::all();
    assert_eq!(passes.len(), 7);
    assert_eq!(passes[0].step(), 1);
    assert_eq!(passes[6].step(), 7);
}

#[test]
fn test_is_final() {
    assert!(!Adam7Pass::new(1).is_final());
    assert!(!Adam7Pass::new(6).is_final());
    assert!(Adam7Pass::new(7).is_final());
}

#[test]
fn test_cumulative_percent() {
    let percent = |p: Adam7Pass| p.cumulative_sixty_fourths() as f32 * 100.0 / 64.0;
    assert!((percent(Adam7Pass::new(1)) - 1.5625).abs() < 0.001);
    assert!((percent(Adam7Pass::new(7)) - 100.0).abs() < 0.001);
}

#[test]
fn test_fractions_sum_to_one() {
    let total: f32 = Adam7Pass::all()
        .iter()
        .map(|p| p.pass_sixty_fourths() as f32 / 64.0)
        .sum();
    assert!((total - 1.0).abs() < 0.001);
}

#[test]
fn test_step_zero_computes_all() {
    let pass = Adam7Pass::new(0);
    assert_eq!(pass.step(), 0);
    assert!(!pass.is_final());
}

#[test]
fn test_all_pixels_helper() {
    let pass = Adam7Pass::all_pixels();
    assert_eq!(pass.step(), 0);
}

#[test]
fn test_new_accumulator() {
    let acc: Adam7Accumulator<Extra, ()> = Adam7Accumulator::new(10, 10);
    assert_eq!(acc.len(), 100);
    assert!((0..acc.len()).all(|i| acc.pixel(i).is_none()));
}

#[test]
fn test_merge_skips_sentinel() {
    let mut acc: Adam7Accumulator<Extra, ()> = Adam7Accumulator::new(2, 2);
    let gpu_result = vec![make_data(100), make_sentinel(), make_sentinel(), make_data(200)];
    acc.merge(&gpu_result);
    assert!(acc.pixel(0).is_some());
    assert!(acc.pixel(1).is_none());
    assert!(acc.pixel(2).is_none());
    assert!(acc.pixel(3).is_some());
}

#[test]
fn test_to_display_buffer_fills_gaps() {
    let acc = acc_with(4, 1, &[Some(100), None, None, Some(200)]);
    let display = acc.to_display_buffer();
    assert_eq!(get_iterations(&display[0]), 100);
    assert_eq!(get_iterations(&display[1]), 100);
    assert_eq!(get_iterations(&display[2]), 100);
    assert_eq!(get_iterations(&display[3]), 200);
}

#[test]
fn test_to_display_buffer_uses_top_at_edge() {
    let acc = acc_with(2, 2, &[Some(100), Some(200), None, Some(300)]);
    let display = acc.to_display_buffer();
    assert_eq!(get_iterations(&display[2]), 100);
}

#[test]
fn test_is_complete() {
    let acc: Adam7Accumulator<Extra, ()> = Adam7Accumulator::new(2, 2);
    assert!(!acc.is_complete());
    let acc = acc_with(2, 2, &[Some(1), Some(2), Some(3), None]);
    assert!(!acc.is_complete());
    let acc = acc_with(2, 2, &[Some(1), Some(2), Some(3), Some(4)]);
    assert!(acc.is_complete());
}

#[test]
fn test_to_final_buffer() {
    let acc = acc_with(2, 2, &[Some(1), Some(2), Some(3), Some(4)]);
    let final_buf = acc.to_final_buffer();
    assert_eq!(final_buf.len(), 4);
    assert_eq!(get_iterations(&final_buf[0]), 1);
    assert_eq!(get_iterations(&final_buf[3]), 4);
}

#[test]
fn display_buffer_first_pixel_defaults_to_black() {
    let acc = acc_with(2, 1, &[None, None]);
    let display = acc.to_display_buffer();
    for d in &display {
        match d {
            ComputeData::Mandelbrot(m) => {
                assert_eq!(m.iterations, 0);
                assert_eq!(m.max_iterations, 1);
                assert!(!m.escaped);
                assert!(!m.glitched);
            }
            _ => panic!("Expected Mandelbrot"),
        }
    }
}

#[test]
fn merge_ignores_test_image_data() {
    let mut acc: Adam7Accumulator<Extra, ()> = Adam7Accumulator::new(1, 1);
    acc.merge(&[ComputeData::TestImage(())]);
    assert!(acc.pixel(0).is_none());
}

#[test]
fn later_pass_overwrites_earlier_value() {
    let mut acc = acc_with(1, 1, &[Some(5)]);
    acc.merge(&[make_data(9)]);
    assert_eq!(get_iterations(&acc.pixel(0).unwrap()), 9);
    acc.merge(&[make_sentinel()]);
    assert_eq!(get_iterations(&acc.pixel(0).unwrap()), 9);
}

#[test]
fn every_pixel_of_a_block_has_a_pass_with_its_share() {
    let mut counts = [0u32; 8];
    for y in 0..8 {
        for x in 0..8 {
            let p = expected_adam7_pass(x, y);
            assert!((1..=7).contains(&p));
            counts[p as usize] += 1;
        }
    }
    for step in 1..=7u8 {
        assert_eq!(counts[step as usize], Adam7Pass::new(step).pass_sixty_fourths() as u32);
    }
    assert_eq!(expected_adam7_pass(0, 0), 1);
    assert_eq!(expected_adam7_pass(4, 0), 2);
    assert_eq!(expected_adam7_pass(0, 4), 3);
    assert_eq!(expected_adam7_pass(2, 0), 4);
    assert_eq!(expected_adam7_pass(0, 2), 5);
    assert_eq!(expected_adam7_pass(1, 0), 6);
    assert_eq!(expected_adam7_pass(0, 1), 7);
    assert_eq!(expected_adam7_pass(13, 9), expected_adam7_pass(5, 1));
}

#[test]
fn cumulative_shares_double_each_pass() {
    let passes = Adam7Pass::all();
    let mut sum = 0u32;
    for p in passes.iter() {
        sum += p.pass_sixty_fourths() as u32;
        assert_eq!(sum, p.cumulative_sixty_fourths() as u32);
    }
    assert_eq!(sum, 64);
    assert_eq!(Adam7Pass::all_pixels().cumulative_sixty_fourths(), 0);
}

#[test]
fn merge_accepts_uncomputed_pixels_past_the_image() {
    let mut acc: Adam7Accumulator<Extra, ()> = Adam7Accumulator::new(1, 1);
    acc.merge(&[make_data(3), make_sentinel(), ComputeData::TestImage(())]);
    assert_eq!(acc.len(), 1);
    assert_eq!(get_iterations(&acc.pixel(0).unwrap()), 3);
    assert!(acc.is_complete());
}

#[test]
fn all_pixels_is_step_zero() {
    assert_eq!(Adam7Pass::all_pixels(), Adam7Pass::new(0));
    assert_eq!(Adam7Pass::all_pixels().step(), 0);
    assert!(!Adam7Pass::all_pixels().is_final());
}
