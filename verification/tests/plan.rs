use ds2s_heap_x::catalogue::standard_plan;
use ds2s_heap_x::config::{Category, Config};
use ds2s_heap_x::image::{read_u32, write_u32};
use ds2s_heap_x::patches::{PatchError, PatchHelper};
use ds2s_heap_x::plan::{Operation, PatchPlan, PatchSite};
use std::cell::Cell;

const BASE: usize = 0x40_0000;

fn always(_addr: usize, _len: usize) -> bool {
    true
}

fn site(offset: usize, operation: Operation) -> PatchSite {
    PatchSite { offset, operation }
}

fn sample_sites() -> Vec<PatchSite> {
    vec![
        site(0, Operation::ScaledMultiply(Category::Havok, true)),
        site(4, Operation::ScaledMultiply(Category::Sound, false)),
        site(8, Operation::ScaledMultiply(Category::Sfx, true)),
        site(12, Operation::AggregateApply(Category::Global)),
        site(16, Operation::SetLiteral(0xF990_9090)),
    ]
}

fn sample_image() -> Vec<u8> {
    let mut image = vec![0u8; 24];
    write_u32(&mut image, 0, 100);
    write_u32(&mut image, 4, 200);
    write_u32(&mut image, 8, 300);
    write_u32(&mut image, 12, 1000);
    write_u32(&mut image, 16, 7);
    write_u32(&mut image, 20, 0xABCD_EF01);
    image
}

fn words(image: &[u8]) -> Vec<u32> {
    (0..image.len() / 4).map(|i| read_u32(image, i * 4)).collect()
}

#[test]
fn a_plan_keeps_the_order_it_was_given() {
    let plan = PatchPlan::new(sample_sites()).unwrap();
    assert_eq!(plan.sites(), &sample_sites());
    assert_eq!(plan.len(), 5);
    assert_eq!(PatchPlan::new(Vec::new()).unwrap().len(), 0);
}

#[test]
fn a_contributor_after_the_aggregate_site_is_refused() {
    let mut sites = sample_sites();
    sites.swap(2, 3);
    assert!(PatchPlan::new(sites).is_none());
    let mut late = sample_sites();
    late.push(site(20, Operation::ScaledMultiply(Category::Temp, true)));
    assert!(PatchPlan::new(late).is_none());
}

#[test]
fn nothing_but_literal_writes_may_follow_the_aggregate_site() {
    let mut scaled_after = sample_sites();
    scaled_after.push(site(20, Operation::ScaledMultiply(Category::Temp, false)));
    assert!(PatchPlan::new(scaled_after).is_none());
    let mut second_aggregate = sample_sites();
    second_aggregate.push(site(20, Operation::AggregateApply(Category::Global)));
    assert!(PatchPlan::new(second_aggregate).is_none());
    let mut literal_after = sample_sites();
    literal_after.push(site(20, Operation::SetLiteral(1)));
    assert!(PatchPlan::new(literal_after).is_some());
    let literals_first =
        vec![site(16, Operation::SetLiteral(1)), site(0, Operation::ScaledMultiply(Category::Havok, true))];
    assert!(PatchPlan::new(literals_first).is_some());
}

#[test]
fn a_pass_patches_every_site_in_order() {
    // Default factors: havok 4, sound 3, sfx 4, global 1.
    let mut helper = PatchHelper::new(&Config::default(), Some(BASE)).unwrap();
    let mut image = sample_image();
    let plan = PatchPlan::new(sample_sites()).unwrap();
    assert_eq!(helper.run(&mut image, &always, &plan), Ok(()));
    assert_eq!(words(&image), vec![400, 600, 1200, 1000 + 300 + 900, 0xF990_9090, 0xABCD_EF01]);
    assert_eq!(helper.global_heap_bonus(), 300 + 900);
}

#[test]
fn the_aggregate_site_sees_every_contributor_in_any_order() {
    let mut first = sample_sites();
    first.swap(0, 2);
    let mut second = sample_sites();
    second.swap(0, 1);
    for sites in [sample_sites(), first, second] {
        let mut helper = PatchHelper::new(&Config::default(), Some(BASE)).unwrap();
        let mut image = sample_image();
        let plan = PatchPlan::new(sites).unwrap();
        assert_eq!(helper.run(&mut image, &always, &plan), Ok(()));
        assert_eq!(words(&image), vec![400, 600, 1200, 2200, 0xF990_9090, 0xABCD_EF01]);
        assert_eq!(helper.global_heap_bonus(), 1200);
    }
}

#[test]
fn a_pass_unlocks_each_site_once_at_its_absolute_address() {
    let asked = Cell::new(Vec::new());
    let spy = |addr: usize, len: usize| {
        let mut seen = asked.take();
        seen.push((addr, len));
        asked.set(seen);
        true
    };
    let mut helper = PatchHelper::new(&Config::default(), Some(BASE)).unwrap();
    let mut image = sample_image();
    let plan = PatchPlan::new(sample_sites()).unwrap();
    helper.run(&mut image, &spy, &plan).unwrap();
    assert_eq!(
        asked.take(),
        vec![(BASE, 4), (BASE + 4, 4), (BASE + 8, 4), (BASE + 12, 4), (BASE + 16, 4)]
    );
}

#[test]
fn a_refusal_stops_the_pass_where_it_is() {
    for refused_at in 0..5usize {
        let calls = Cell::new(0usize);
        let toggler = |_addr: usize, _len: usize| {
            let n = calls.get();
            calls.set(n + 1);
            n != refused_at
        };
        let mut helper = PatchHelper::new(&Config::default(), Some(BASE)).unwrap();
        let mut image = sample_image();
        let plan = PatchPlan::new(sample_sites()).unwrap();
        assert_eq!(helper.run(&mut image, &toggler, &plan), Err(PatchError::ProtectionDenied));
        assert_eq!(calls.get(), refused_at + 1);

        let mut expected_helper = PatchHelper::new(&Config::default(), Some(BASE)).unwrap();
        let mut expected = sample_image();
        let prefix = PatchPlan::new(sample_sites()[..refused_at].to_vec()).unwrap();
        assert_eq!(expected_helper.run(&mut expected, &always, &prefix), Ok(()));
        assert_eq!(image, expected);
        assert_eq!(helper.global_heap_bonus(), expected_helper.global_heap_bonus());
    }
}

#[test]
fn a_site_outside_the_image_stops_the_pass_before_any_write() {
    let calls = Cell::new(0usize);
    let spy = |_addr: usize, _len: usize| {
        calls.set(calls.get() + 1);
        true
    };
    let mut sites = sample_sites();
    sites.push(site(21, Operation::SetLiteral(1)));
    let mut helper = PatchHelper::new(&Config::default(), Some(BASE)).unwrap();
    let mut image = sample_image();
    let plan = PatchPlan::new(sites).unwrap();
    assert_eq!(helper.run(&mut image, &spy, &plan), Err(PatchError::ImageLayoutUnresolvable));
    assert_eq!(image, sample_image());
    assert_eq!(calls.get(), 0);
    assert_eq!(helper.global_heap_bonus(), 0);
}

#[test]
fn overlapping_sites_see_what_earlier_sites_wrote() {
    let sites = vec![site(0, Operation::SetLiteral(0x0403_0201)), site(2, Operation::ScaledMultiply(Category::Havok, true))];
    let mut helper = PatchHelper::new(&Config::default(), Some(BASE)).unwrap();
    let mut image = vec![0u8; 8];
    let plan = PatchPlan::new(sites).unwrap();
    assert!(!plan.is_disjoint());
    assert_eq!(helper.run(&mut image, &always, &plan), Ok(()));
    // The word at 2 was 0x0000_0403 after the first write; times 4 it is 0x0000_100C.
    assert_eq!(image, vec![0x01, 0x02, 0x0C, 0x10, 0, 0, 0, 0]);
    assert_eq!(helper.global_heap_bonus(), 0x0403 * 3);
}

#[test]
fn apply_dispatches_on_the_operation() {
    let mut config = Config::default();
    config.heap_sizes.global = 3;
    let mut helper = PatchHelper::new(&config, Some(BASE)).unwrap();
    let mut image = sample_image();
    helper.apply(&mut image, &always, &site(0, Operation::ScaledMultiply(Category::Regulation, true))).unwrap();
    assert_eq!(read_u32(&image, 0), 200);
    assert_eq!(helper.global_heap_bonus(), 100);
    helper.apply(&mut image, &always, &site(12, Operation::AggregateApply(Category::Global))).unwrap();
    assert_eq!(read_u32(&image, 12), 3000);
    helper.apply(&mut image, &always, &site(12, Operation::AggregateApply(Category::Debug))).unwrap();
    assert_eq!(read_u32(&image, 12), 3100);
    helper.apply(&mut image, &always, &site(16, Operation::SetLiteral(9))).unwrap();
    assert_eq!(read_u32(&image, 16), 9);
}

#[test]
fn the_standard_plan_is_well_ordered() {
    let plan = standard_plan(&Config::default());
    let sites = plan.sites();
    let aggregate = sites
        .iter()
        .position(|site| matches!(site.operation, Operation::AggregateApply(_)))
        .unwrap();
    assert_eq!(aggregate, 25);
    assert!(sites[aggregate + 1..].iter().all(|site| matches!(site.operation, Operation::SetLiteral(_))));
    assert!(PatchPlan::new(sites.clone()).is_some());
    let mut reordered = sites.clone();
    reordered.swap(0, aggregate);
    assert!(PatchPlan::new(reordered).is_none());
}
