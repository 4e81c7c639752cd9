use ds2s_heap_x::config::Config;
use ds2s_heap_x::image::{read_u32, write_u32, ImageLayout};
use ds2s_heap_x::patches::{PatchError, PatchHelper};
use ds2s_heap_x::scaling::{clamp_scale, saturating_product, saturating_sum};
use std::cell::Cell;

const BASE: usize = 0x1_4000_0000;

fn always(_addr: usize, _len: usize) -> bool {
    true
}

fn never(_addr: usize, _len: usize) -> bool {
    false
}

fn helper() -> PatchHelper {
    PatchHelper::new(&Config::default(), Some(BASE)).unwrap()
}

fn image_with(at: usize, word: u32) -> Vec<u8> {
    let mut image = vec![0xAAu8; 64];
    write_u32(&mut image, at, word);
    image
}

#[test]
fn words_are_little_endian_and_unaligned() {
    let mut image = vec![0u8; 9];
    write_u32(&mut image, 3, 0x1234_5678);
    assert_eq!(image, vec![0, 0, 0, 0x78, 0x56, 0x34, 0x12, 0, 0]);
    assert_eq!(read_u32(&image, 3), 0x1234_5678);
    assert_eq!(read_u32(&image, 2), 0x3456_7800);
    assert_eq!(read_u32(&image, 5), 0x0000_1234);
    write_u32(&mut image, 5, u32::MAX);
    assert_eq!(image, vec![0, 0, 0, 0x78, 0x56, 0xFF, 0xFF, 0xFF, 0xFF]);
}

#[test]
fn layout_resolves_offsets_inside_the_image_only() {
    let layout = ImageLayout::locate(Some(0x1000), 16).unwrap();
    assert_eq!(layout.base_address(), 0x1000);
    assert_eq!(layout.len(), 16);
    assert_eq!(layout.resolve(0), Some(0x1000));
    assert_eq!(layout.resolve(12), Some(0x100C));
    assert_eq!(layout.resolve(13), None);
    assert_eq!(layout.resolve(usize::MAX), None);
    let tiny = ImageLayout::locate(Some(0x1000), 3).unwrap();
    assert_eq!(tiny.resolve(0), None);
}

#[test]
fn layout_needs_a_base_and_room_in_the_address_space() {
    assert!(ImageLayout::locate(None, 16).is_none());
    assert!(ImageLayout::locate(Some(usize::MAX), 1).is_none());
    assert!(ImageLayout::locate(Some(usize::MAX - 16), 17).is_none());
    assert!(ImageLayout::locate(Some(usize::MAX - 16), 16).is_some());
}

#[test]
fn saturating_arithmetic_clamps() {
    assert_eq!(clamp_scale(0), 1);
    assert_eq!(clamp_scale(1), 1);
    assert_eq!(clamp_scale(9), 9);
    assert_eq!(saturating_product(6, 7), 42);
    assert_eq!(saturating_product(0x1_0000, 0x1_0000), u32::MAX);
    assert_eq!(saturating_product(u32::MAX, 1), u32::MAX);
    assert_eq!(saturating_product(u32::MAX, 0), 0);
    assert_eq!(saturating_sum(40, 2), 42);
    assert_eq!(saturating_sum(u32::MAX, 1), u32::MAX);
    assert_eq!(saturating_sum(u32::MAX - 1, 1), u32::MAX);
}

#[test]
fn helper_starts_with_nothing_gathered() {
    let helper = helper();
    assert_eq!(helper.global_heap_bonus(), 0);
    assert_eq!(helper.base_address(), BASE);
}

#[test]
fn helper_needs_a_base() {
    assert_eq!(
        PatchHelper::new(&Config::default(), None).err(),
        Some(PatchError::ImageLayoutUnresolvable)
    );
}

#[test]
fn set_rwe_memory_asks_for_four_bytes_at_the_address() {
    let asked = Cell::new((0usize, 0usize));
    let spy = |addr: usize, len: usize| {
        asked.set((addr, len));
        true
    };
    assert_eq!(PatchHelper::set_rwe_memory_u32(&spy, 0xDEAD_BEEC), Ok(()));
    assert_eq!(asked.get(), (0xDEAD_BEEC, 4));
    assert_eq!(PatchHelper::set_rwe_memory_u32(&never, 0x10), Err(PatchError::ProtectionDenied));
}

#[test]
fn set_u32_overwrites_the_word_and_nothing_else() {
    let mut helper = helper();
    let mut image = image_with(5, 0x1111_1111);
    let mut expected = image.clone();
    assert_eq!(helper.set_u32(&mut image, &always, 5, 0xF990_9090), Ok(()));
    expected[5..9].copy_from_slice(&[0x90, 0x90, 0x90, 0xF9]);
    assert_eq!(image, expected);
    assert_eq!(helper.global_heap_bonus(), 0);
}

#[test]
fn set_u32_unlocks_the_absolute_address_first() {
    let asked = Cell::new(Vec::new());
    let spy = |addr: usize, len: usize| {
        let mut seen = asked.take();
        seen.push((addr, len));
        asked.set(seen);
        true
    };
    let mut helper = helper();
    let mut image = vec![0u8; 64];
    helper.set_u32(&mut image, &spy, 0x21, 7).unwrap();
    assert_eq!(asked.take(), vec![(BASE + 0x21, 4)]);
}

#[test]
fn mul_u32_multiplies_saturating() {
    let cases: [(u32, u32, u32); 8] = [
        (0x1000, 1, 0x1000),
        (0x1000, 8, 0x8000),
        (0, 5, 0),
        (7, 0, 7),
        (u32::MAX, 1, u32::MAX),
        (u32::MAX, 2, u32::MAX),
        (0x8000_0000, 2, u32::MAX),
        (0x7FFF_FFFF, 2, 0xFFFF_FFFE),
    ];
    for (existing, scale, expected) in cases {
        let mut helper = helper();
        let mut image = image_with(10, existing);
        assert_eq!(helper.mul_u32(&mut image, &always, 10, scale, false), Ok(()));
        assert_eq!(read_u32(&image, 10), expected);
        assert_eq!(read_u32(&image, 10), existing.saturating_mul(scale.max(1)));
        assert!(read_u32(&image, 10) >= existing);
        assert_eq!(helper.global_heap_bonus(), 0);
    }
}

#[test]
fn mul_u32_adds_its_growth_to_the_aggregate() {
    let mut helper = helper();
    let mut image = vec![0u8; 64];
    write_u32(&mut image, 0, 100);
    write_u32(&mut image, 4, 200);
    write_u32(&mut image, 8, 300);
    write_u32(&mut image, 12, 50);
    helper.mul_u32(&mut image, &always, 0, 3, true).unwrap();
    assert_eq!(helper.global_heap_bonus(), 200);
    helper.mul_u32(&mut image, &always, 4, 1, true).unwrap();
    assert_eq!(helper.global_heap_bonus(), 200);
    helper.mul_u32(&mut image, &always, 8, 5, false).unwrap();
    assert_eq!(helper.global_heap_bonus(), 200);
    helper.mul_u32(&mut image, &always, 12, 0, true).unwrap();
    assert_eq!(helper.global_heap_bonus(), 200);
    assert_eq!(read_u32(&image, 0), 300);
    assert_eq!(read_u32(&image, 4), 200);
    assert_eq!(read_u32(&image, 8), 1500);
    assert_eq!(read_u32(&image, 12), 50);
}

#[test]
fn aggregate_saturates() {
    let mut helper = helper();
    let mut image = vec![0u8; 64];
    write_u32(&mut image, 0, 0xC000_0000);
    write_u32(&mut image, 4, 0xC000_0000);
    helper.mul_u32(&mut image, &always, 0, 2, true).unwrap();
    assert_eq!(helper.global_heap_bonus(), 0xC000_0000);
    helper.mul_u32(&mut image, &always, 4, 2, true).unwrap();
    assert_eq!(helper.global_heap_bonus(), u32::MAX);
    assert_eq!(read_u32(&image, 0), u32::MAX);
}

#[test]
fn aggregate_does_not_depend_on_the_order_of_contributors() {
    let contributors: [(u32, u32); 4] = [(100, 3), (0xF000_0000, 2), (7, 9), (0x2000_0000, 4)];
    let orders: [[usize; 4]; 4] = [[0, 1, 2, 3], [3, 2, 1, 0], [1, 3, 0, 2], [2, 0, 3, 1]];
    let mut totals = Vec::new();
    for order in orders {
        let mut helper = helper();
        let mut image = vec![0u8; 64];
        for (slot, &(existing, _)) in contributors.iter().enumerate() {
            write_u32(&mut image, slot * 4, existing);
        }
        for slot in order {
            helper.mul_u32(&mut image, &always, slot * 4, contributors[slot].1, true).unwrap();
        }
        totals.push(helper.global_heap_bonus());
    }
    assert_eq!(totals, vec![u32::MAX; 4]);

    let small: [(u32, u32); 3] = [(100, 3), (7, 9), (50, 2)];
    for order in [[0usize, 1, 2], [2, 1, 0], [1, 0, 2]] {
        let mut helper = helper();
        let mut image = vec![0u8; 64];
        for (slot, &(existing, _)) in small.iter().enumerate() {
            write_u32(&mut image, slot * 4, existing);
        }
        for slot in order {
            helper.mul_u32(&mut image, &always, slot * 4, small[slot].1, true).unwrap();
        }
        assert_eq!(helper.global_heap_bonus(), 200 + 56 + 50);
    }
}

#[test]
fn apply_aggregate_takes_the_larger_of_both_demands() {
    // (existing, scale, contributor existing, contributor scale, expected)
    let cases: [(u32, u32, u32, u32, u32); 6] = [
        (1000, 2, 500, 2, 2000),
        (1000, 1, 500, 2, 1500),
        (1000, 0, 0, 1, 1000),
        (1000, 2, 1000, 2, 2000),
        (0xF000_0000, 1, 0x2000_0000, 2, u32::MAX),
        (0x9000_0000, 2, 1, 2, u32::MAX),
    ];
    for (existing, scale, other, other_scale, expected) in cases {
        let mut helper = helper();
        let mut image = vec![0u8; 64];
        write_u32(&mut image, 0, existing);
        write_u32(&mut image, 8, other);
        helper.mul_u32(&mut image, &always, 8, other_scale, true).unwrap();
        let bonus = helper.global_heap_bonus();
        assert_eq!(helper.apply_aggregate(&mut image, &always, 0, scale), Ok(()));
        let got = read_u32(&image, 0);
        assert_eq!(got, expected);
        assert_eq!(
            got,
            existing.saturating_mul(scale.max(1)).max(existing.saturating_add(bonus))
        );
        assert!(got >= existing.saturating_mul(scale.max(1)));
        assert!(got >= existing.saturating_add(bonus));
        assert_eq!(helper.global_heap_bonus(), bonus);
    }
}

#[test]
fn set_global_heap_uses_the_global_factor() {
    let mut config = Config::default();
    config.heap_sizes.global = 3;
    let mut helper = PatchHelper::new(&config, Some(BASE)).unwrap();
    let mut image = image_with(20, 1000);
    assert_eq!(helper.set_global_heap_u32(&mut image, &always, 20), Ok(()));
    assert_eq!(read_u32(&image, 20), 3000);
}

#[test]
fn a_refused_site_is_left_alone() {
    let mut helper = helper();
    let mut image = image_with(4, 77);
    let before = image.clone();
    assert_eq!(helper.set_u32(&mut image, &never, 4, 1), Err(PatchError::ProtectionDenied));
    assert_eq!(
        helper.mul_u32(&mut image, &never, 4, 3, true),
        Err(PatchError::ProtectionDenied)
    );
    assert_eq!(
        helper.apply_aggregate(&mut image, &never, 4, 3),
        Err(PatchError::ProtectionDenied)
    );
    assert_eq!(image, before);
    assert_eq!(helper.global_heap_bonus(), 0);
}

#[test]
fn a_site_outside_the_image_is_unresolvable_and_never_unlocked() {
    let calls = Cell::new(0u32);
    let spy = |_addr: usize, _len: usize| {
        calls.set(calls.get() + 1);
        true
    };
    let mut helper = helper();
    let mut image = vec![0u8; 64];
    for offset in [61usize, 64, 1000, usize::MAX] {
        assert_eq!(
            helper.set_u32(&mut image, &spy, offset, 1),
            Err(PatchError::ImageLayoutUnresolvable)
        );
        assert_eq!(
            helper.mul_u32(&mut image, &spy, offset, 2, true),
            Err(PatchError::ImageLayoutUnresolvable)
        );
    }
    assert_eq!(helper.set_u32(&mut image, &spy, 60, 1), Ok(()));
    assert_eq!(calls.get(), 1);
    assert_eq!(image[..60], vec![0u8; 60][..]);
}

#[test]
fn an_image_that_runs_past_the_address_space_is_unresolvable() {
    let mut helper = PatchHelper::new(&Config::default(), Some(usize::MAX - 8)).unwrap();
    let mut image = vec![0u8; 64];
    assert_eq!(
        helper.set_u32(&mut image, &always, 0, 1),
        Err(PatchError::ImageLayoutUnresolvable)
    );
    assert_eq!(image, vec![0u8; 64]);
}
