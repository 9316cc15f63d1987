use gpu_scene::buffer::{copy_size, next_power_of_two, plan_append, reallocation_size, PADDING_HALFWORD};

#[test]
fn plan_from_aligned_end_with_even_data() {
    let plan = plan_append(8, 0, &[10, 11]);
    assert_eq!(plan.offset, 8);
    assert_eq!(plan.halfwords, vec![10, 11]);
    assert_eq!(plan.target_size, 12);
    assert_eq!(plan.last_index, 0);
}

#[test]
fn plan_from_aligned_end_with_odd_data_pads() {
    let plan = plan_append(4, 5, &[10, 11, 12]);
    assert_eq!(plan.offset, 4);
    assert_eq!(plan.halfwords, vec![10, 11, 12, PADDING_HALFWORD]);
    assert_eq!(plan.target_size, 12);
    assert_eq!(plan.last_index, 12);
}

#[test]
fn plan_from_half_filled_word_resends_last() {
    let plan = plan_append(6, 3, &[4]);
    assert_eq!(plan.offset, 4);
    assert_eq!(plan.halfwords, vec![3, 4]);
    assert_eq!(plan.target_size, 10);
    assert_eq!(plan.last_index, 3);
}

#[test]
fn plan_writes_are_aligned() {
    for used in [0u64, 2, 4, 6, 100, 102] {
        for n in 1usize..9 {
            if used % 4 == 2 && n % 2 == 0 {
                continue;
            }
            let data: Vec<u16> = (0..n as u16).collect();
            let plan = plan_append(used, 99, &data);
            assert_eq!(plan.offset % 4, 0);
            assert_eq!((2 * plan.halfwords.len()) % 4, 0);
        }
    }
}

#[test]
fn padding_is_the_bytes_67_67() {
    assert_eq!(PADDING_HALFWORD.to_ne_bytes(), [67, 67]);
}

#[test]
fn next_power_of_two_matches_std() {
    for x in [0u64, 1, 2, 3, 4, 5, 255, 256, 257, 1000, 1 << 40, (1 << 40) + 1, 1 << 63] {
        assert_eq!(next_power_of_two(x), x.next_power_of_two());
    }
}

#[test]
fn reallocation_size_doubles_or_takes_target() {
    assert_eq!(reallocation_size(8, 256), 512);
    assert_eq!(reallocation_size(600, 256), 600);
    assert_eq!(reallocation_size(512, 256), 512);
    assert_eq!(reallocation_size(4, 512), 1024);
}

#[test]
fn copy_size_rounds_up_to_four() {
    assert_eq!(copy_size(0), 0);
    assert_eq!(copy_size(2), 4);
    assert_eq!(copy_size(4), 4);
    assert_eq!(copy_size(6), 8);
    assert_eq!(copy_size(7), 8);
}
