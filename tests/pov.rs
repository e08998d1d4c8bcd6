use astar_primitives::{fits_pov_budget, MAX_POV_SIZE};

#[test]
fn pov_budget_is_ten_mebibytes() {
    assert_eq!(MAX_POV_SIZE, 10_485_760);
}

#[test]
fn pov_budget_boundary() {
    assert!(fits_pov_budget(10_485_760));
    assert!(!fits_pov_budget(10_485_761));
    assert!(fits_pov_budget(0));
    assert!(!fits_pov_budget(u64::MAX));
}
