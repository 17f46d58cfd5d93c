use spectral_emotions::Emotion;

#[test]
fn emotion_frequencies_are_distinct() {
    let freqs: Vec<f64> = Emotion::all().iter().map(|e| e.frequency() as f64).collect();
    for i in 0..freqs.len() {
        for j in (i + 1)..freqs.len() {
            assert_ne!(freqs[i], freqs[j]);
        }
    }
}

#[test]
fn emotion_frequencies_range_1_to_8() {
    for e in Emotion::all() {
        let f = e.frequency() as f64;
        assert!((1.0..=8.0).contains(&f));
    }
}

#[test]
fn all_lists_the_eight_emotions_in_order() {
    assert_eq!(
        Emotion::all(),
        &[
            Emotion::Joy,
            Emotion::Trust,
            Emotion::Fear,
            Emotion::Surprise,
            Emotion::Sadness,
            Emotion::Disgust,
            Emotion::Anger,
            Emotion::Anticipation,
        ]
    );
}

#[test]
fn frequency_exact_values() {
    assert_eq!(Emotion::Joy.frequency(), 1);
    assert_eq!(Emotion::Trust.frequency(), 2);
    assert_eq!(Emotion::Fear.frequency(), 3);
    assert_eq!(Emotion::Surprise.frequency(), 4);
    assert_eq!(Emotion::Sadness.frequency(), 5);
    assert_eq!(Emotion::Disgust.frequency(), 6);
    assert_eq!(Emotion::Anger.frequency(), 7);
    assert_eq!(Emotion::Anticipation.frequency(), 8);
}

#[test]
fn frequency_is_one_more_than_position_in_all() {
    for (i, e) in Emotion::all().iter().enumerate() {
        assert_eq!(e.frequency() as usize, i + 1);
    }
}

#[test]
fn each_emotion_listed_once() {
    let all = Emotion::all();
    for i in 0..all.len() {
        for j in (i + 1)..all.len() {
            assert_ne!(all[i], all[j]);
        }
    }
}
