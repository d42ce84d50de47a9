//! Label-to-color mappings for the detection reactors.
//!
//! Each reactor variant (bird species, object class, plant health, sound
//! event) keys the same RGB-triple shape by its own label domain. A lookup
//! on a label that is not in the table falls back to the documented
//! default: mid-gray (128, 128, 128).

use vstd::prelude::*;

verus! {

/// RGB color value for LED output.
#[derive(Clone, Copy, Debug, PartialEq, Eq, Structural)]
pub struct RgbColor {
    pub r: u8,
    pub g: u8,
    pub b: u8,
}

/// The documented fallback color for labels with no configured mapping.
pub open spec fn spec_default_color() -> RgbColor {
    RgbColor { r: 128, g: 128, b: 128 }
}

/// Mid-gray, returned whenever a label lookup misses.
pub fn default_color() -> (c: RgbColor)
    ensures
        c == spec_default_color(),
{
    RgbColor { r: 128, g: 128, b: 128 }
}

/// One label-to-color association.
pub struct ColorEntry {
    pub label: String,
    pub color: RgbColor,
}

/// The color of the first entry whose label matches, or the default gray
/// when none does.
pub open spec fn spec_lookup(entries: Seq<ColorEntry>, label: Seq<char>) -> RgbColor
    decreases entries.len(),
{
    if entries.len() == 0 {
        spec_default_color()
    } else if entries[0].label@ == label {
        entries[0].color
    } else {
        spec_lookup(entries.drop_first(), label)
    }
}

/// Lookup default: when no entry carries the label, the lookup returns the
/// documented gray, never an error.
pub proof fn lemma_lookup_miss(entries: Seq<ColorEntry>, label: Seq<char>)
    requires
        forall|j: int| 0 <= j < entries.len() ==> #[trigger] entries[j].label@ != label,
    ensures
        spec_lookup(entries, label) == spec_default_color(),
    decreases entries.len(),
{
    if entries.len() > 0 {
        assert(entries[0].label@ != label);
        assert forall|j: int| 0 <= j < entries.drop_first().len() implies #[trigger] entries
            .drop_first()[j].label@ != label by {
            assert(entries.drop_first()[j] == entries[j + 1]);
        }
        lemma_lookup_miss(entries.drop_first(), label);
    }
}

/// Lookup hit: the first entry carrying the label decides the color.
pub proof fn lemma_lookup_hit(entries: Seq<ColorEntry>, label: Seq<char>, i: int)
    requires
        0 <= i < entries.len(),
        entries[i].label@ == label,
        forall|j: int| 0 <= j < i ==> #[trigger] entries[j].label@ != label,
    ensures
        spec_lookup(entries, label) == entries[i].color,
    decreases i,
{
    if i > 0 {
        assert forall|j: int| 0 <= j < i - 1 implies #[trigger] entries.drop_first()[j].label@
            != label by {
            assert(entries.drop_first()[j] == entries[j + 1]);
        }
        assert(entries.drop_first()[i - 1] == entries[i]);
        lemma_lookup_hit(entries.drop_first(), label, i - 1);
    }
}

/// A label-keyed color table, loaded by whichever reactor owns the label
/// domain.
pub struct ColorTable {
    entries: Vec<ColorEntry>,
}

impl ColorTable {
    pub closed spec fn entries(&self) -> Seq<ColorEntry> {
        self.entries@
    }

    /// An empty table: every lookup returns the default.
    pub fn new() -> (t: ColorTable)
        ensures
            t.entries() == Seq::<ColorEntry>::empty(),
    {
        ColorTable { entries: Vec::new() }
    }

    /// Add one association at the end of the table.
    pub fn add(&mut self, label: &str, r: u8, g: u8, b: u8)
        ensures
            final(self).entries().len() == old(self).entries().len() + 1,
            final(self).entries().last().label@ == label@,
            final(self).entries().last().color == (RgbColor { r, g, b }),
            forall|i: int| 0 <= i < old(self).entries().len() ==> final(self).entries()[i]
                == old(self).entries()[i],
    {
        self.entries.push(ColorEntry { label: label.to_owned(), color: RgbColor { r, g, b } });
    }

    pub fn len(&self) -> (n: usize)
        ensures
            n == self.entries().len(),
    {
        self.entries.len()
    }

    pub fn entry(&self, i: usize) -> (e: &ColorEntry)
        requires
            i < self.entries().len(),
        ensures
            *e == self.entries()[i as int],
    {
        &self.entries[i]
    }

    /// Resolve a label to its color: the first matching entry wins, and a
    /// miss falls back to the default gray.
    pub fn lookup_color(&self, label: &str) -> (c: RgbColor)
        ensures
            c == spec_lookup(self.entries(), label@),
    {
        let wanted = label.to_owned();
        let n = self.entries.len();
        let mut i: usize = 0;
        proof {
            assert(self.entries@.skip(0) =~= self.entries@);
        }
        while i < n
            invariant
                n == self.entries@.len(),
                i <= n,
                wanted@ == label@,
                spec_lookup(self.entries@, label@) == spec_lookup(
                    self.entries@.skip(i as int),
                    label@,
                ),
            decreases n - i,
        {
            let e = &self.entries[i];
            proof {
                assert(self.entries@.skip(i as int)[0] == self.entries@[i as int]);
                assert(self.entries@.skip(i as int).drop_first() =~= self.entries@.skip(
                    i as int + 1,
                ));
            }
            if e.label == wanted {
                return e.color;
            }
            i = i + 1;
        }
        default_color()
    }
}

/// The default bird-species color table.
pub open spec fn spec_bird_table(s: Seq<ColorEntry>) -> bool {
    &&& s.len() == 11
    &&& s[0].label@ == "European Robin"@ && s[0].color == (RgbColor { r: 255, g: 69, b: 0 })
    &&& s[1].label@ == "Blue Tit"@ && s[1].color == (RgbColor { r: 0, g: 120, b: 255 })
    &&& s[2].label@ == "Great Tit"@ && s[2].color == (RgbColor { r: 255, g: 215, b: 0 })
    &&& s[3].label@ == "House Sparrow"@ && s[3].color == (RgbColor { r: 139, g: 90, b: 43 })
    &&& s[4].label@ == "Blackbird"@ && s[4].color == (RgbColor { r: 30, g: 30, b: 30 })
    &&& s[5].label@ == "Goldfinch"@ && s[5].color == (RgbColor { r: 255, g: 200, b: 0 })
    &&& s[6].label@ == "Woodpecker"@ && s[6].color == (RgbColor { r: 200, g: 0, b: 0 })
    &&& s[7].label@ == "Magpie"@ && s[7].color == (RgbColor { r: 0, g: 0, b: 0 })
    &&& s[8].label@ == "Jay"@ && s[8].color == (RgbColor { r: 180, g: 130, b: 200 })
    &&& s[9].label@ == "Starling"@ && s[9].color == (RgbColor { r: 50, g: 180, b: 100 })
    &&& s[10].label@ == "Unknown"@ && s[10].color == spec_default_color()
}

/// Species-to-color mapping for the bird detection reactor.
pub fn bird_colors() -> (t: ColorTable)
    ensures
        spec_bird_table(t.entries()),
{
    let mut t = ColorTable::new();
    t.add("European Robin", 255, 69, 0);
    t.add("Blue Tit", 0, 120, 255);
    t.add("Great Tit", 255, 215, 0);
    t.add("House Sparrow", 139, 90, 43);
    t.add("Blackbird", 30, 30, 30);
    t.add("Goldfinch", 255, 200, 0);
    t.add("Woodpecker", 200, 0, 0);
    t.add("Magpie", 0, 0, 0);
    t.add("Jay", 180, 130, 200);
    t.add("Starling", 50, 180, 100);
    t.add("Unknown", 128, 128, 128);
    t
}

/// The default object-class color table (threat-level colors).
pub open spec fn spec_object_table(s: Seq<ColorEntry>) -> bool {
    &&& s.len() == 5
    &&& s[0].label@ == "Person"@ && s[0].color == (RgbColor { r: 255, g: 234, b: 0 })
    &&& s[1].label@ == "Vehicle"@ && s[1].color == (RgbColor { r: 0, g: 229, b: 255 })
    &&& s[2].label@ == "Animal"@ && s[2].color == (RgbColor { r: 213, g: 0, b: 249 })
    &&& s[3].label@ == "Bicycle"@ && s[3].color == (RgbColor { r: 0, g: 230, b: 118 })
    &&& s[4].label@ == "Unknown"@ && s[4].color == spec_default_color()
}

/// Class-to-color mapping for the object detection reactor.
pub fn object_colors() -> (t: ColorTable)
    ensures
        spec_object_table(t.entries()),
{
    let mut t = ColorTable::new();
    t.add("Person", 255, 234, 0);
    t.add("Vehicle", 0, 229, 255);
    t.add("Animal", 213, 0, 249);
    t.add("Bicycle", 0, 230, 118);
    t.add("Unknown", 128, 128, 128);
    t
}

/// The default sound-event color table (alert-level colors).
pub open spec fn spec_sound_table(s: Seq<ColorEntry>) -> bool {
    &&& s.len() == 6
    &&& s[0].label@ == "GlassBreak"@ && s[0].color == (RgbColor { r: 255, g: 23, b: 68 })
    &&& s[1].label@ == "Doorbell"@ && s[1].color == (RgbColor { r: 255, g: 255, b: 255 })
    &&& s[2].label@ == "DogBark"@ && s[2].color == (RgbColor { r: 255, g: 145, b: 0 })
    &&& s[3].label@ == "Alarm"@ && s[3].color == (RgbColor { r: 255, g: 0, b: 0 })
    &&& s[4].label@ == "Speech"@ && s[4].color == (RgbColor { r: 0, g: 176, b: 255 })
    &&& s[5].label@ == "Unknown"@ && s[5].color == spec_default_color()
}

/// Event-to-color mapping for the sound classification reactor.
pub fn sound_colors() -> (t: ColorTable)
    ensures
        spec_sound_table(t.entries()),
{
    let mut t = ColorTable::new();
    t.add("GlassBreak", 255, 23, 68);
    t.add("Doorbell", 255, 255, 255);
    t.add("DogBark", 255, 145, 0);
    t.add("Alarm", 255, 0, 0);
    t.add("Speech", 0, 176, 255);
    t.add("Unknown", 128, 128, 128);
    t
}

/// The default plant-health color table.
pub open spec fn spec_health_table(s: Seq<ColorEntry>) -> bool {
    &&& s.len() == 5
    &&& s[0].label@ == "Healthy"@ && s[0].color == (RgbColor { r: 0, g: 230, b: 118 })
    &&& s[1].label@ == "Stressed"@ && s[1].color == (RgbColor { r: 255, g: 234, b: 0 })
    &&& s[2].label@ == "NutrientDeficient"@ && s[2].color == (RgbColor { r: 255, g: 152, b: 0 })
    &&& s[3].label@ == "Diseased"@ && s[3].color == (RgbColor { r: 255, g: 23, b: 68 })
    &&& s[4].label@ == "Unknown"@ && s[4].color == spec_default_color()
}

/// Status-to-color mapping for the plant health reactor.
pub fn health_colors() -> (t: ColorTable)
    ensures
        spec_health_table(t.entries()),
{
    let mut t = ColorTable::new();
    t.add("Healthy", 0, 230, 118);
    t.add("Stressed", 255, 234, 0);
    t.add("NutrientDeficient", 255, 152, 0);
    t.add("Diseased", 255, 23, 68);
    t.add("Unknown", 128, 128, 128);
    t
}

} // verus!
