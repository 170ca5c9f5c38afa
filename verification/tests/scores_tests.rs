use tetris_keys::scores::rank_offset;

#[test]
fn ranks_are_counted_from_one() {
    assert_eq!(rank_offset(1), Some(0));
    assert_eq!(rank_offset(2), Some(1));
    assert_eq!(rank_offset(5), Some(4));
}

#[test]
fn rank_zero_is_no_rank() {
    assert_eq!(rank_offset(0), None);
}

#[test]
fn ranks_beyond_the_store_are_refused() {
    assert_eq!(rank_offset(4_294_967_296), Some(4_294_967_295));
    assert_eq!(rank_offset(4_294_967_297), None);
    assert_eq!(rank_offset(usize::MAX), None);
}
