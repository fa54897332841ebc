//! The per-category update rules, one scenario per test.

use gildedrose::inventory::GildedRose;
use gildedrose::item::Item;

const ORDINARY: &str = "Ordinary";
const AGED_BRIE: &str = "Aged Brie";
const SULFURAS: &str = "Sulfuras, Hand of Ragnaros";
const BACKSTAGE_PASS: &str = "Backstage passes to a TAFKAL80ETC concert";

#[test]
fn gildedrose_before_sell_date() {
    assert_eq!(Item::ticked_once(ORDINARY, 10, 5), Item::new(ORDINARY, 9, 4));
}

#[test]
fn gildedrose_on_sell_date() {
    assert_eq!(Item::ticked_once(ORDINARY, 0, 5), Item::new(ORDINARY, -1, 3));
}

#[test]
fn gildedrose_after_sell_date() {
    assert_eq!(Item::ticked_once(ORDINARY, -10, 5), Item::new(ORDINARY, -11, 3));
}

#[test]
fn zero_quality() {
    assert_eq!(Item::ticked_once(ORDINARY, 10, 0), Item::new(ORDINARY, 9, 0));
}

#[test]
fn gildedrose_not_with_max_quality() {
    assert_eq!(Item::ticked_once(AGED_BRIE, 10, 5), Item::new(AGED_BRIE, 9, 6));
}

#[test]
fn gildedrose_with_max_quality() {
    assert_eq!(Item::ticked_once(AGED_BRIE, 10, 50), Item::new(AGED_BRIE, 9, 50));
}

#[test]
fn not_near_max_quality() {
    assert_eq!(Item::ticked_once(AGED_BRIE, 0, 5), Item::new(AGED_BRIE, -1, 7));
}

#[test]
fn near_max_quality() {
    assert_eq!(Item::ticked_once(AGED_BRIE, 0, 49), Item::new(AGED_BRIE, -1, 50));
}

#[test]
fn with_max_quality() {
    assert_eq!(Item::ticked_once(AGED_BRIE, 0, 50), Item::new(AGED_BRIE, -1, 50));
}

#[test]
fn not_with_max_quality() {
    assert_eq!(Item::ticked_once(AGED_BRIE, -10, 5), Item::new(AGED_BRIE, -11, 7));
}

#[test]
fn brie_after_sell_date_with_max_quality() {
    assert_eq!(Item::ticked_once(AGED_BRIE, -10, 50), Item::new(AGED_BRIE, -11, 50));
}

#[test]
fn before_sell_date() {
    assert_eq!(Item::ticked_once(SULFURAS, 10, 5), Item::new(SULFURAS, 10, 5));
}

#[test]
fn on_sell_date() {
    assert_eq!(Item::ticked_once(SULFURAS, 0, 5), Item::new(SULFURAS, 0, 5));
}

#[test]
fn after_sell_date() {
    assert_eq!(Item::ticked_once(SULFURAS, -10, 5), Item::new(SULFURAS, -10, 5));
}

#[test]
fn long_before_sell_date() {
    assert_eq!(
        Item::ticked_once(BACKSTAGE_PASS, 11, 5),
        Item::new(BACKSTAGE_PASS, 10, 6)
    );
}

#[test]
fn gildedrose_upper_bound() {
    assert_eq!(
        Item::ticked_once(BACKSTAGE_PASS, 10, 5),
        Item::new(BACKSTAGE_PASS, 9, 7)
    );
}

#[test]
fn gildedrose_upper_bound_at_max_quality() {
    assert_eq!(
        Item::ticked_once(BACKSTAGE_PASS, 10, 50),
        Item::new(BACKSTAGE_PASS, 9, 50)
    );
}

#[test]
fn gildedrose_lower_bound() {
    assert_eq!(
        Item::ticked_once(BACKSTAGE_PASS, 6, 5),
        Item::new(BACKSTAGE_PASS, 5, 7)
    );
}

#[test]
fn gildedrose_lower_bound_at_max_quality() {
    assert_eq!(
        Item::ticked_once(BACKSTAGE_PASS, 6, 50),
        Item::new(BACKSTAGE_PASS, 5, 50)
    );
}

#[test]
fn upper_bound() {
    assert_eq!(
        Item::ticked_once(BACKSTAGE_PASS, 5, 5),
        Item::new(BACKSTAGE_PASS, 4, 8)
    );
}

#[test]
fn upper_bound_at_max_quality() {
    assert_eq!(
        Item::ticked_once(BACKSTAGE_PASS, 5, 50),
        Item::new(BACKSTAGE_PASS, 4, 50)
    );
}

#[test]
fn lower_bound() {
    assert_eq!(
        Item::ticked_once(BACKSTAGE_PASS, 1, 5),
        Item::new(BACKSTAGE_PASS, 0, 8)
    );
}

#[test]
fn lower_bound_at_max_quality() {
    assert_eq!(
        Item::ticked_once(BACKSTAGE_PASS, 1, 50),
        Item::new(BACKSTAGE_PASS, 0, 50)
    );
}

#[test]
fn backstage_on_sell_date() {
    assert_eq!(
        Item::ticked_once(BACKSTAGE_PASS, 0, 5),
        Item::new(BACKSTAGE_PASS, -1, 0)
    );
}

#[test]
fn backstage_after_sell_date() {
    assert_eq!(
        Item::ticked_once(BACKSTAGE_PASS, -10, 50),
        Item::new(BACKSTAGE_PASS, -11, 0)
    );
}

#[test]
fn several_items() {
    let mut rose = GildedRose::new(vec![
        Item::new("a ordinary item", 5, 10),
        Item::new("Aged Brie", 3, 10),
    ]);
    rose.tick();

    assert_eq!(
        rose.items,
        vec![
            Item::new("a ordinary item", 4, 9),
            Item::new("Aged Brie", 2, 11)
        ]
    );
}

#[test]
fn classification_is_exact_and_case_sensitive() {
    // A near-miss spelling of a special name stays ordinary.
    assert_eq!(Item::ticked_once("aged brie", 10, 5), Item::new("aged brie", 9, 4));
    assert_eq!(Item::ticked_once("Aged Brie ", 10, 5), Item::new("Aged Brie ", 9, 4));
}

#[test]
fn quality_stays_within_bounds_over_many_days() {
    // Quality starts within [0, 50] and must be observed there after every tick.
    let mut rose = GildedRose::new(vec![
        Item::new(ORDINARY, 3, 50),
        Item::new(AGED_BRIE, 3, 0),
        Item::new(BACKSTAGE_PASS, 12, 0),
        Item::new("another ordinary item", -2, 1),
    ]);
    for _ in 0..100 {
        rose.tick();
        for item in &rose.items {
            assert!(item.quality() <= 50);
        }
    }
}

#[test]
fn legendary_item_never_changes_over_many_days() {
    let mut rose = GildedRose::new(vec![Item::new(SULFURAS, 10, 80)]);
    for _ in 0..100 {
        rose.tick();
        assert_eq!(rose.items[0], Item::new(SULFURAS, 10, 80));
    }
}

#[test]
fn ticking_is_deterministic() {
    let build = || {
        GildedRose::new(vec![
            Item::new(ORDINARY, 10, 20),
            Item::new(AGED_BRIE, 2, 0),
            Item::new(BACKSTAGE_PASS, 5, 49),
            Item::new(SULFURAS, 0, 80),
        ])
    };
    let mut first = build();
    let mut second = build();
    for _ in 0..30 {
        first.tick();
        second.tick();
        assert_eq!(first, second);
    }
}

#[test]
fn ticking_is_not_a_no_op() {
    let mut item = Item::new(ORDINARY, 10, 5);
    let before = Item::new(ORDINARY, 10, 5);
    item.tick();
    assert_ne!(item, before);
}
