//! Items and the per-category daily update rule.
//!
//! An item is classified once, from its name, into one of four fixed
//! categories; each category owns a pure transition on the pair
//! `(days_remaining, quality)` that is applied once per simulated day.

use vstd::prelude::*;
use vstd::string::*;

use crate::text::str_eq;

verus! {

/// The fixed behavioural class of an item, decided once from its name when
/// the item is built and never changed afterwards.
pub enum Category {
    /// Any name that matches no special case: quality decays.
    Ordinary,
    /// Quality appreciates with age.
    AgedCheese,
    /// Quality appreciates faster as the event nears, then collapses.
    EventPass,
    /// Neither counter ever changes.
    LegendaryArtifact,
}

/// The mathematical state of one item, the value every contract speaks of.
pub struct ItemModel {
    pub category: Category,
    pub name: Seq<char>,
    pub days_remaining: int,
    pub quality: int,
}

/// The name that classifies an item as aged cheese.
pub open spec fn aged_cheese_name() -> Seq<char> {
    "Aged Brie"@
}

/// The name that classifies an item as an event pass.
pub open spec fn event_pass_name() -> Seq<char> {
    "Backstage passes to a TAFKAL80ETC concert"@
}

/// The name that classifies an item as a legendary artifact.
pub open spec fn legendary_name() -> Seq<char> {
    "Sulfuras, Hand of Ragnaros"@
}

/// Classification is exact, case-sensitive string equality against the three
/// special names; every other name is ordinary.
pub open spec fn spec_classify(name: Seq<char>) -> Category {
    if name == aged_cheese_name() {
        Category::AgedCheese
    } else if name == event_pass_name() {
        Category::EventPass
    } else if name == legendary_name() {
        Category::LegendaryArtifact
    } else {
        Category::Ordinary
    }
}

/// The state an item is built from: the category its name classifies it
/// into, and the two counters verbatim.
pub open spec fn item_model(name: Seq<char>, days_remaining: int, quality: int) -> ItemModel {
    ItemModel { category: spec_classify(name), name, days_remaining, quality }
}

/// One day of an ordinary item: the counter falls by one, quality falls by
/// one, and by one more once the sell date lies behind, never below zero.
pub open spec fn ordinary_ticked(days_remaining: int, quality: int) -> (int, int) {
    let days = days_remaining - 1;
    let lowered = if quality >= 1 {
        quality - 1
    } else {
        0
    };
    if days < 0 {
        (
            days,
            if lowered >= 1 {
                lowered - 1
            } else {
                0
            },
        )
    } else {
        (days, lowered)
    }
}

/// One day of aged cheese: the counter falls by one; a quality at the cap of
/// 50 stays put, any other rises by one, and by one more past the sell date
/// while still under the cap.
pub open spec fn aged_cheese_ticked(days_remaining: int, quality: int) -> (int, int) {
    let days = days_remaining - 1;
    if quality == 50 {
        (days, quality)
    } else {
        let raised = quality + 1;
        if days < 0 && raised < 50 {
            (days, raised + 1)
        } else {
            (days, raised)
        }
    }
}

/// One day of an event pass: the counter falls by one; past the sell date
/// quality collapses to zero, before it quality rises by one, again under
/// ten days left, and again under five, each rise gated by the cap of 50.
pub open spec fn event_pass_ticked(days_remaining: int, quality: int) -> (int, int) {
    let days = days_remaining - 1;
    if days < 0 {
        (days, 0)
    } else {
        let once = if quality < 50 {
            quality + 1
        } else {
            quality
        };
        let twice = if days < 10 && once < 50 {
            once + 1
        } else {
            once
        };
        let thrice = if days < 5 && twice < 50 {
            twice + 1
        } else {
            twice
        };
        (days, thrice)
    }
}

/// The model with its two counters replaced.
pub open spec fn with_counters(m: ItemModel, counters: (int, int)) -> ItemModel {
    ItemModel { category: m.category, name: m.name, days_remaining: counters.0, quality: counters.1 }
}

/// One day of any item: the transition its category owns, applied to its
/// counters; a legendary artifact is left untouched.
pub open spec fn model_ticked(m: ItemModel) -> ItemModel {
    match m.category {
        Category::Ordinary => with_counters(m, ordinary_ticked(m.days_remaining, m.quality)),
        Category::AgedCheese => with_counters(m, aged_cheese_ticked(m.days_remaining, m.quality)),
        Category::EventPass => with_counters(m, event_pass_ticked(m.days_remaining, m.quality)),
        Category::LegendaryArtifact => m,
    }
}

/// `n` days of an item.
pub open spec fn model_ticked_n(m: ItemModel, n: nat) -> ItemModel
    decreases n,
{
    if n == 0 {
        m
    } else {
        model_ticked(model_ticked_n(m, (n - 1) as nat))
    }
}

/// The machine limits under which a tick cannot overflow its counters: the
/// day counter has room to fall, and an aged cheese's quality has room to
/// rise. Any quality within its meaningful bound of [0, 50] is far inside.
pub open spec fn can_tick(m: ItemModel) -> bool {
    match m.category {
        Category::LegendaryArtifact => true,
        Category::AgedCheese => m.days_remaining > i32::MIN && m.quality < u32::MAX,
        _ => m.days_remaining > i32::MIN,
    }
}

/// Aged cheese: quality appreciates with age.
#[derive(Debug, PartialEq, Eq)]
pub struct Brie {
    pub days_remaining: i32,
    pub quality: u32,
}

impl Brie {
    /// One day passes, following the aged-cheese rule.
    pub fn tick(&mut self)
        requires
            old(self).days_remaining > i32::MIN,
            old(self).quality < u32::MAX,
        ensures
            final(self).days_remaining as int == aged_cheese_ticked(
                old(self).days_remaining as int,
                old(self).quality as int,
            ).0,
            final(self).quality as int == aged_cheese_ticked(
                old(self).days_remaining as int,
                old(self).quality as int,
            ).1,
    {
        self.days_remaining = self.days_remaining - 1;
        if self.quality == 50 {
            return;
        }
        self.quality = self.quality + 1;
        if self.days_remaining < 0 && self.quality < 50 {
            self.quality = self.quality + 1;
        }
    }

    /// The one name that classifies as aged cheese.
    pub fn name(&self) -> (r: String)
        ensures
            r@ == aged_cheese_name(),
    {
        String::from_str("Aged Brie")
    }

    /// Days left until the sell date; negative once it has passed.
    pub fn days_remaining(&self) -> (r: i32)
        ensures
            r == self.days_remaining,
    {
        self.days_remaining
    }

    /// The item's value score.
    pub fn quality(&self) -> (r: u32)
        ensures
            r == self.quality,
    {
        self.quality
    }
}

/// An event pass: quality appreciates faster as the event nears, then
/// collapses to zero once it has passed.
#[derive(Debug, PartialEq, Eq)]
pub struct Backstage {
    pub days_remaining: i32,
    pub quality: u32,
}

impl Backstage {
    /// One day passes, following the event-pass rule.
    pub fn tick(&mut self)
        requires
            old(self).days_remaining > i32::MIN,
        ensures
            final(self).days_remaining as int == event_pass_ticked(
                old(self).days_remaining as int,
                old(self).quality as int,
            ).0,
            final(self).quality as int == event_pass_ticked(
                old(self).days_remaining as int,
                old(self).quality as int,
            ).1,
    {
        self.days_remaining = self.days_remaining - 1;
        if self.days_remaining < 0 {
            self.quality = 0;
            return;
        }
        if self.quality < 50 {
            self.quality = self.quality + 1;
        }
        if self.days_remaining < 10 && self.quality < 50 {
            self.quality = self.quality + 1;
        }
        if self.days_remaining < 5 && self.quality < 50 {
            self.quality = self.quality + 1;
        }
    }

    /// The one name that classifies as an event pass.
    pub fn name(&self) -> (r: String)
        ensures
            r@ == event_pass_name(),
    {
        String::from_str("Backstage passes to a TAFKAL80ETC concert")
    }

    /// Days left until the event; negative once it has passed.
    pub fn days_remaining(&self) -> (r: i32)
        ensures
            r == self.days_remaining,
    {
        self.days_remaining
    }

    /// The item's value score.
    pub fn quality(&self) -> (r: u32)
        ensures
            r == self.quality,
    {
        self.quality
    }
}

/// The legendary artifact: neither counter ever changes.
#[derive(Debug, PartialEq, Eq)]
pub struct Sulfuras {
    pub days_remaining: i32,
    pub quality: u32,
}

impl Sulfuras {
    /// One day passes and nothing happens.
    pub fn tick(&mut self)
        ensures
            *final(self) == *old(self),
    {
    }

    /// The one legendary name.
    pub fn name(&self) -> (r: String)
        ensures
            r@ == legendary_name(),
    {
        String::from_str("Sulfuras, Hand of Ragnaros")
    }

    /// Days left; never changes for this category.
    pub fn days_remaining(&self) -> (r: i32)
        ensures
            r == self.days_remaining,
    {
        self.days_remaining
    }

    /// The item's value score; fixed at creation.
    pub fn quality(&self) -> (r: u32)
        ensures
            r == self.quality,
    {
        self.quality
    }
}

/// Any item whose name matches no special case: quality decays.
#[derive(Debug, PartialEq, Eq)]
pub struct Ordinary {
    pub name: String,
    pub days_remaining: i32,
    pub quality: u32,
}

impl Ordinary {
    /// One day passes, following the ordinary rule.
    pub fn tick(&mut self)
        requires
            old(self).days_remaining > i32::MIN,
        ensures
            final(self).name == old(self).name,
            final(self).days_remaining as int == ordinary_ticked(
                old(self).days_remaining as int,
                old(self).quality as int,
            ).0,
            final(self).quality as int == ordinary_ticked(
                old(self).days_remaining as int,
                old(self).quality as int,
            ).1,
    {
        self.days_remaining = self.days_remaining - 1;
        if self.quality >= 1 {
            self.quality = self.quality - 1;
        } else {
            self.quality = 0;
        }
        if self.days_remaining < 0 {
            if self.quality >= 1 {
                self.quality = self.quality - 1;
            } else {
                self.quality = 0;
            }
        }
    }

    /// The name the item was built with.
    pub fn name(&self) -> (r: String)
        ensures
            r@ == self.name@,
    {
        self.name.clone()
    }

    /// Days left until the sell date; negative once it has passed.
    pub fn days_remaining(&self) -> (r: i32)
        ensures
            r == self.days_remaining,
    {
        self.days_remaining
    }

    /// The item's value score.
    pub fn quality(&self) -> (r: u32)
        ensures
            r == self.quality,
    {
        self.quality
    }
}

/// One item of the inventory: a closed set of categories, each variant
/// carrying the state its rule works on.
#[derive(Debug, PartialEq, Eq)]
pub enum Item {
    Brie(Brie),
    Backstage(Backstage),
    Sulfuras(Sulfuras),
    Ordinary(Ordinary),
}

impl View for Item {
    type V = ItemModel;

    open spec fn view(&self) -> ItemModel {
        match self {
            Item::Brie(it) => ItemModel {
                category: Category::AgedCheese,
                name: aged_cheese_name(),
                days_remaining: it.days_remaining as int,
                quality: it.quality as int,
            },
            Item::Backstage(it) => ItemModel {
                category: Category::EventPass,
                name: event_pass_name(),
                days_remaining: it.days_remaining as int,
                quality: it.quality as int,
            },
            Item::Sulfuras(it) => ItemModel {
                category: Category::LegendaryArtifact,
                name: legendary_name(),
                days_remaining: it.days_remaining as int,
                quality: it.quality as int,
            },
            Item::Ordinary(it) => ItemModel {
                category: Category::Ordinary,
                name: it.name@,
                days_remaining: it.days_remaining as int,
                quality: it.quality as int,
            },
        }
    }
}

impl Item {
    /// Builds an item: the name decides the category, by exact string
    /// equality against the three special names, and both counters are
    /// stored verbatim.
    pub fn new(name: &str, days_remaining: i32, quality: u32) -> (r: Item)
        ensures
            r@ == item_model(name@, days_remaining as int, quality as int),
    {
        if str_eq(name, "Aged Brie") {
            Item::Brie(Brie { days_remaining, quality })
        } else if str_eq(name, "Backstage passes to a TAFKAL80ETC concert") {
            Item::Backstage(Backstage { days_remaining, quality })
        } else if str_eq(name, "Sulfuras, Hand of Ragnaros") {
            Item::Sulfuras(Sulfuras { days_remaining, quality })
        } else {
            Item::Ordinary(Ordinary { name: String::from_str(name), days_remaining, quality })
        }
    }

    /// One day passes: the transition of the item's category, applied once
    /// to its counters, in place.
    pub fn tick(&mut self)
        requires
            can_tick(old(self)@),
        ensures
            final(self)@ == model_ticked(old(self)@),
    {
        match self {
            Item::Brie(it) => it.tick(),
            Item::Backstage(it) => it.tick(),
            Item::Sulfuras(_) => {},
            Item::Ordinary(it) => it.tick(),
        }
    }

    /// Builds an item and advances it one day.
    pub fn ticked_once(name: &str, days_remaining: i32, quality: u32) -> (r: Item)
        requires
            can_tick(item_model(name@, days_remaining as int, quality as int)),
        ensures
            r@ == model_ticked(item_model(name@, days_remaining as int, quality as int)),
    {
        let mut item = Item::new(name, days_remaining, quality);
        item.tick();
        item
    }

    /// The item's name.
    pub fn name(&self) -> (r: String)
        ensures
            r@ == self@.name,
    {
        match self {
            Item::Brie(it) => it.name(),
            Item::Backstage(it) => it.name(),
            Item::Sulfuras(it) => it.name(),
            Item::Ordinary(it) => it.name(),
        }
    }

    /// Days left until the sell date; negative once it has passed.
    pub fn days_remaining(&self) -> (r: i32)
        ensures
            r as int == self@.days_remaining,
    {
        match self {
            Item::Brie(it) => it.days_remaining(),
            Item::Backstage(it) => it.days_remaining(),
            Item::Sulfuras(it) => it.days_remaining(),
            Item::Ordinary(it) => it.days_remaining(),
        }
    }

    /// The item's value score.
    pub fn quality(&self) -> (r: u32)
        ensures
            r as int == self@.quality,
    {
        match self {
            Item::Brie(it) => it.quality(),
            Item::Backstage(it) => it.quality(),
            Item::Sulfuras(it) => it.quality(),
            Item::Ordinary(it) => it.quality(),
        }
    }
}

/// One tick of a non-legendary item keeps its category and name, moves its
/// day counter down by exactly one, and keeps a quality that stood within
/// [0, 50] within [0, 50].
pub proof fn lemma_tick_step(m: ItemModel)
    requires
        m.category != Category::LegendaryArtifact,
    ensures
        model_ticked(m).category == m.category,
        model_ticked(m).name == m.name,
        model_ticked(m).days_remaining == m.days_remaining - 1,
        0 <= m.quality <= 50 ==> 0 <= model_ticked(m).quality <= 50,
{
}

/// Quality stays within [0, 50]: an item of any non-legendary category whose
/// quality starts within [0, 50] still has a quality within [0, 50] after
/// any number of ticks.
pub proof fn lemma_quality_stays_bounded(m: ItemModel, n: nat)
    requires
        m.category != Category::LegendaryArtifact,
        0 <= m.quality <= 50,
    ensures
        0 <= model_ticked_n(m, n).quality <= 50,
        model_ticked_n(m, n).category == m.category,
    decreases n,
{
    if n > 0 {
        lemma_quality_stays_bounded(m, (n - 1) as nat);
        lemma_tick_step(model_ticked_n(m, (n - 1) as nat));
    }
}

/// A legendary artifact is invariant: both counters, and with them the whole
/// item state, are unchanged by any number of ticks.
pub proof fn lemma_legendary_never_changes(m: ItemModel, n: nat)
    requires
        m.category == Category::LegendaryArtifact,
    ensures
        model_ticked_n(m, n) == m,
    decreases n,
{
    if n > 0 {
        lemma_legendary_never_changes(m, (n - 1) as nat);
    }
}

/// Ticking a non-legendary item is never a no-op: the day counter always
/// moves, so the item never equals its previous state.
pub proof fn lemma_tick_is_no_identity(m: ItemModel)
    requires
        m.category != Category::LegendaryArtifact,
    ensures
        model_ticked(m) != m,
{
    lemma_tick_step(m);
}

} // verus!
