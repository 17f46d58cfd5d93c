use vstd::prelude::*;

verus! {

/// Plutchik's eight primary emotions, each with a metaphorical spectral frequency.
#[derive(Debug, Clone, Copy, PartialEq, Eq, Hash, Structural)]
pub enum Emotion {
    Joy,
    Trust,
    Fear,
    Surprise,
    Sadness,
    Disgust,
    Anger,
    Anticipation,
}

/// The eight emotions in declaration order.
pub open spec fn all_emotions() -> Seq<Emotion> {
    seq![
        Emotion::Joy,
        Emotion::Trust,
        Emotion::Fear,
        Emotion::Surprise,
        Emotion::Sadness,
        Emotion::Disgust,
        Emotion::Anger,
        Emotion::Anticipation,
    ]
}

impl Emotion {
    /// Position of the emotion in declaration order (its discriminant).
    pub open spec fn position(self) -> int {
        match self {
            Emotion::Joy => 0,
            Emotion::Trust => 1,
            Emotion::Fear => 2,
            Emotion::Surprise => 3,
            Emotion::Sadness => 4,
            Emotion::Disgust => 5,
            Emotion::Anger => 6,
            Emotion::Anticipation => 7,
        }
    }

    /// The frequency of the emotion, in whole hertz.
    pub open spec fn spec_frequency(self) -> int {
        self.position() + 1
    }

    /// Metaphorical spectral frequency (Hz-like) of this emotion: the emotions
    /// are spread over the "emotional spectrum" from 1 Hz (Joy) to 8 Hz
    /// (Anticipation), one whole hertz apart, in declaration order.
    pub fn frequency(self) -> (hz: u32)
        ensures
            hz == self.spec_frequency(),
    {
        match self {
            Emotion::Joy => 1,
            Emotion::Trust => 2,
            Emotion::Fear => 3,
            Emotion::Surprise => 4,
            Emotion::Sadness => 5,
            Emotion::Disgust => 6,
            Emotion::Anger => 7,
            Emotion::Anticipation => 8,
        }
    }

    /// All eight primary emotions in order.
    pub fn all() -> (res: &'static [Emotion; 8])
        ensures
            res@ == all_emotions(),
    {
        &[
            Emotion::Joy,
            Emotion::Trust,
            Emotion::Fear,
            Emotion::Surprise,
            Emotion::Sadness,
            Emotion::Disgust,
            Emotion::Anger,
            Emotion::Anticipation,
        ]
    }
}

/// Every emotion stands in `Emotion::all()` exactly once, at its own position.
pub proof fn lemma_all_lists_each_emotion_once(e: Emotion)
    ensures
        0 <= e.position() < 8,
        all_emotions()[e.position()] == e,
        forall|i: int| 0 <= i < 8 && all_emotions()[i] == e ==> i == e.position(),
{
}

/// The frequency of an emotion is one more than its position in `Emotion::all()`.
pub proof fn lemma_frequency_follows_order(i: int)
    requires
        0 <= i < 8,
    ensures
        all_emotions()[i].spec_frequency() == i + 1,
{
}

/// The frequencies of the eight emotions are pairwise distinct.
pub proof fn lemma_frequencies_distinct(a: Emotion, b: Emotion)
    ensures
        a != b ==> a.spec_frequency() != b.spec_frequency(),
{
}

/// Every frequency lies in the range 1 to 8 Hz.
pub proof fn lemma_frequency_range(e: Emotion)
    ensures
        1 <= e.spec_frequency() <= 8,
{
}

} // verus!
