use vstd::prelude::*;

use crate::emotion::Emotion;

verus! {

/// Weather types for the voxel world, driven by emotional state.
#[derive(Debug, Clone, Copy, PartialEq, Eq, Structural)]
pub enum Weather {
    Sunny,
    Rainy,
    Stormy,
    Snowy,
    Aurora,
    Foggy,
    MeteorShower,
}

/// Converts emotions to voxel-world properties: materials, scales, and weather.
pub struct EmotionToVoxel;

/// The name of the voxel material that an emotion is built from.
pub open spec fn material_of(e: Emotion) -> Seq<char> {
    match e {
        Emotion::Joy => "glow"@,
        Emotion::Trust => "stone"@,
        Emotion::Fear => "shadow"@,
        Emotion::Surprise => "crystal"@,
        Emotion::Sadness => "water"@,
        Emotion::Disgust => "slime"@,
        Emotion::Anger => "lava"@,
        Emotion::Anticipation => "cloud"@,
    }
}

/// The weather that a dominant emotion brings to the voxel world.
pub open spec fn weather_of(e: Emotion) -> Weather {
    match e {
        Emotion::Joy => Weather::Sunny,
        Emotion::Trust => Weather::Aurora,
        Emotion::Fear => Weather::Foggy,
        Emotion::Surprise => Weather::MeteorShower,
        Emotion::Sadness => Weather::Rainy,
        Emotion::Disgust => Weather::Foggy,
        Emotion::Anger => Weather::Stormy,
        Emotion::Anticipation => Weather::Snowy,
    }
}

impl EmotionToVoxel {
    /// Map an emotion to a voxel material type.
    pub fn emotion_to_material(e: &Emotion) -> (material: String)
        ensures
            material@ == material_of(*e),
    {
        match e {
            Emotion::Joy => "glow".to_owned(),
            Emotion::Trust => "stone".to_owned(),
            Emotion::Fear => "shadow".to_owned(),
            Emotion::Surprise => "crystal".to_owned(),
            Emotion::Sadness => "water".to_owned(),
            Emotion::Disgust => "slime".to_owned(),
            Emotion::Anger => "lava".to_owned(),
            Emotion::Anticipation => "cloud".to_owned(),
        }
    }

    /// The weather of the voxel world when `e` is the dominant emotion of a
    /// spectrum.
    pub fn emotion_to_weather(e: Emotion) -> (w: Weather)
        ensures
            w == weather_of(e),
    {
        match e {
            Emotion::Joy => Weather::Sunny,
            Emotion::Trust => Weather::Aurora,
            Emotion::Fear => Weather::Foggy,
            Emotion::Surprise => Weather::MeteorShower,
            Emotion::Sadness => Weather::Rainy,
            Emotion::Disgust => Weather::Foggy,
            Emotion::Anger => Weather::Stormy,
            Emotion::Anticipation => Weather::Snowy,
        }
    }
}

/// Distinct emotions are built from distinct voxel materials.
pub proof fn lemma_materials_distinct(a: Emotion, b: Emotion)
    ensures
        a != b ==> material_of(a) != material_of(b),
{
    reveal_strlit("glow");
    reveal_strlit("stone");
    reveal_strlit("shadow");
    reveal_strlit("crystal");
    reveal_strlit("water");
    reveal_strlit("slime");
    reveal_strlit("lava");
    reveal_strlit("cloud");
    if a != b && material_of(a) == material_of(b) {
        // the first two letters already tell the materials apart
        assert(material_of(a)[0] == material_of(b)[0]);
        assert(material_of(a)[1] == material_of(b)[1]);
    }
}

} // verus!
