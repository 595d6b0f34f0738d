use removebg::resample::{grid_fits_exec, resample_fits_exec};

#[test]
fn small_grids_fit() {
    assert!(grid_fits_exec(1, 1));
    assert!(grid_fits_exec(320, 320));
    assert!(grid_fits_exec(0, u32::MAX));
    assert!(resample_fits_exec(500, 300, 320, 320));
    assert!(resample_fits_exec(320, 320, 500, 300));
}

#[test]
fn grid_limit_is_exact() {
    let limit = (usize::MAX as u128) / 32;
    let side = u32::MAX;
    let cells = (side as u128) * (side as u128);
    assert_eq!(grid_fits_exec(side, side), cells <= limit);
    assert_eq!(grid_fits_exec(side, 1), (side as u128) <= limit);
}

#[test]
fn resampling_needs_all_three_grids() {
    let side = u32::MAX;
    let huge = grid_fits_exec(side, side);
    assert_eq!(resample_fits_exec(side, side, 1, 1), huge && grid_fits_exec(side, 1));
    assert_eq!(
        resample_fits_exec(side, 1, 1, side),
        grid_fits_exec(side, 1) && huge && grid_fits_exec(1, side)
    );
    assert_eq!(resample_fits_exec(1, 1, side, side), grid_fits_exec(1, side) && huge);
}
