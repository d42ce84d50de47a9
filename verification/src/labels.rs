//! Label domains of the non-bird reactor variants.
//!
//! The object, sound and plant-health reactors classify into small fixed
//! label sets; each label is the key into that reactor's color table.

use vstd::prelude::*;

verus! {

/// Object classification categories.
pub enum ObjectClass {
    Person,
    Vehicle,
    Animal,
    Bicycle,
    Unknown,
}

pub open spec fn spec_object_label(c: ObjectClass) -> Seq<char> {
    match c {
        ObjectClass::Person => "Person"@,
        ObjectClass::Vehicle => "Vehicle"@,
        ObjectClass::Animal => "Animal"@,
        ObjectClass::Bicycle => "Bicycle"@,
        ObjectClass::Unknown => "Unknown"@,
    }
}

impl ObjectClass {
    /// The key this class is looked up by in the colors table.
    pub fn label(&self) -> (l: &'static str)
        ensures
            l@ == spec_object_label(*self),
    {
        match self {
            ObjectClass::Person => "Person",
            ObjectClass::Vehicle => "Vehicle",
            ObjectClass::Animal => "Animal",
            ObjectClass::Bicycle => "Bicycle",
            ObjectClass::Unknown => "Unknown",
        }
    }
}

/// Sound event categories.
pub enum SoundClass {
    GlassBreak,
    Doorbell,
    DogBark,
    Alarm,
    Speech,
    Unknown,
}

pub open spec fn spec_sound_label(c: SoundClass) -> Seq<char> {
    match c {
        SoundClass::GlassBreak => "GlassBreak"@,
        SoundClass::Doorbell => "Doorbell"@,
        SoundClass::DogBark => "DogBark"@,
        SoundClass::Alarm => "Alarm"@,
        SoundClass::Speech => "Speech"@,
        SoundClass::Unknown => "Unknown"@,
    }
}

impl SoundClass {
    /// The key this event is looked up by in the colors table.
    pub fn label(&self) -> (l: &'static str)
        ensures
            l@ == spec_sound_label(*self),
    {
        match self {
            SoundClass::GlassBreak => "GlassBreak",
            SoundClass::Doorbell => "Doorbell",
            SoundClass::DogBark => "DogBark",
            SoundClass::Alarm => "Alarm",
            SoundClass::Speech => "Speech",
            SoundClass::Unknown => "Unknown",
        }
    }
}

/// Plant health categories.
pub enum HealthStatus {
    Healthy,
    Stressed,
    NutrientDeficient,
    Diseased,
    Unknown,
}

pub open spec fn spec_health_label(s: HealthStatus) -> Seq<char> {
    match s {
        HealthStatus::Healthy => "Healthy"@,
        HealthStatus::Stressed => "Stressed"@,
        HealthStatus::NutrientDeficient => "NutrientDeficient"@,
        HealthStatus::Diseased => "Diseased"@,
        HealthStatus::Unknown => "Unknown"@,
    }
}

impl HealthStatus {
    /// The key this status is looked up by in the colors table.
    pub fn label(&self) -> (l: &'static str)
        ensures
            l@ == spec_health_label(*self),
    {
        match self {
            HealthStatus::Healthy => "Healthy",
            HealthStatus::Stressed => "Stressed",
            HealthStatus::NutrientDeficient => "NutrientDeficient",
            HealthStatus::Diseased => "Diseased",
            HealthStatus::Unknown => "Unknown",
        }
    }
}

} // verus!
