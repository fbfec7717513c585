use chicken_coop::ai::{classify_scores, disabled_engine, resolve_label, AiVision, InferenceError};
use chicken_coop::bitmap::Image;
use chicken_coop::labels::{load_labels, parse_labels};
use chicken_coop::levels::normalize;
use chicken_coop::preprocess::{can_resize, preprocess, preprocess_imagenet_224};
use chicken_coop::score::{top_class, Score};
use chicken_coop::tagger::{is_chicken_label, is_predator_label};
use chicken_coop::tensor::{normalize_pixels, Tensor};

fn score(value: f32) -> Score {
    Score::from_bits(value.to_bits())
}

fn scores(values: &[f32]) -> Vec<Score> {
    values.iter().map(|v| score(*v)).collect()
}

fn labels(names: &[&str]) -> Vec<String> {
    names.iter().map(|n| n.to_string()).collect()
}

fn gradient(width: u32, height: u32) -> Image {
    let mut pixels = Vec::new();
    for y in 0..height {
        for x in 0..width {
            pixels.push((x * 37 + y * 11) as u8);
            pixels.push((x * 5 + y * 91 + 3) as u8);
            pixels.push((255 - x * 13 - y * 7) as u8);
        }
    }
    Image::new(width, height, pixels).expect("a picture with three samples per pixel")
}

fn expected_normalized(channel: usize, level: u8) -> f32 {
    let mean = [0.485_f32, 0.456_f32, 0.406_f32];
    let std = [0.229_f32, 0.224_f32, 0.225_f32];
    (level as f32 / 255.0 - mean[channel]) / std[channel]
}

#[test]
fn chicken_labels_are_detected() {
    assert!(is_chicken_label("hen"));
    assert!(is_chicken_label("rooster"));
}

#[test]
fn predator_labels_are_detected() {
    assert!(is_predator_label("red fox"));
    assert!(is_predator_label("hawk"));
}

#[test]
fn semantic_tagging_examples() {
    assert!(is_chicken_label("Rhode Island Rooster"));
    assert!(is_predator_label("Red Fox"));
    assert!(!is_chicken_label("toaster"));
    assert!(!is_predator_label(""));
    assert!(!is_chicken_label(""));
}

#[test]
fn tagging_ignores_case() {
    assert!(is_predator_label("HAWK"));
    assert!(is_chicken_label("ChIcKeN"));
    assert_eq!(is_predator_label("Great Horned OWL"), is_predator_label("great horned owl"));
}

#[test]
fn every_keyword_is_recognised() {
    for word in ["hen", "cock", "chicken", "rooster"] {
        assert!(is_chicken_label(word), "{}", word);
        assert!(!is_predator_label(word), "{}", word);
    }
    for word in ["fox", "wolf", "coyote", "dog", "hawk", "eagle", "owl", "snake"] {
        assert!(is_predator_label(word), "{}", word);
        assert!(!is_chicken_label(word), "{}", word);
    }
}

#[test]
fn a_label_can_carry_both_tags() {
    assert!(is_chicken_label("hen and dog"));
    assert!(is_predator_label("hen and dog"));
}

#[test]
fn keywords_match_inside_words() {
    assert!(is_chicken_label("kitchen"));
    assert!(is_predator_label("bowl"));
    assert!(!is_predator_label("ow l"));
    assert!(!is_chicken_label("he"));
}

#[test]
fn only_ascii_letters_are_folded() {
    assert!(!is_predator_label("F\u{d6}X"));
    assert!(is_predator_label("\u{c9}agle et EAGLE"));
}

#[test]
fn first_maximum_wins() {
    let s = scores(&[0.2, 0.9, 0.9, 0.1]);
    let (idx, best) = top_class(&s).expect("a winner");
    assert_eq!(idx, 1);
    assert_eq!(f32::from_bits(best.to_bits()), 0.9);
}

#[test]
fn top_class_of_nothing_is_none() {
    assert!(top_class(&[]).is_none());
}

#[test]
fn top_class_orders_like_binary32() {
    let s = scores(&[-3.5, -0.25, -7.0]);
    assert_eq!(top_class(&s).map(|w| w.0), Some(1));
    let s = scores(&[-0.0, 0.0]);
    assert_eq!(top_class(&s).map(|w| w.0), Some(0));
    let s = scores(&[1.0e-40, 0.0, -1.0e-40]);
    assert_eq!(top_class(&s).map(|w| w.0), Some(0));
    let s = scores(&[3.0, f32::INFINITY, f32::MAX]);
    assert_eq!(top_class(&s).map(|w| w.0), Some(1));
    let s = scores(&[f32::NEG_INFINITY]);
    assert_eq!(top_class(&s).map(|w| w.0), Some(0));
    let s = scores(&[f32::MIN, f32::NEG_INFINITY]);
    assert_eq!(top_class(&s).map(|w| w.0), Some(0));
}

#[test]
fn top_class_skips_what_is_not_a_number() {
    let s = scores(&[f32::NAN, 0.5, f32::NAN, 0.75]);
    assert_eq!(top_class(&s).map(|w| w.0), Some(3));
    let s = scores(&[f32::NAN, -f32::NAN]);
    assert!(top_class(&s).is_none());
}

#[test]
fn score_comparisons_agree_with_binary32() {
    let values = [
        0.0_f32,
        -0.0,
        1.0,
        -1.0,
        0.3,
        0.30000001,
        f32::MIN_POSITIVE,
        -f32::MIN_POSITIVE,
        1.0e-40,
        f32::MAX,
        f32::MIN,
        f32::INFINITY,
        f32::NEG_INFINITY,
        f32::NAN,
    ];
    for a in values {
        for b in values {
            assert_eq!(score(a).exceeds(score(b)), a > b, "{} > {}", a, b);
            assert_eq!(score(a).at_least(score(b)), a >= b, "{} >= {}", a, b);
        }
        assert_eq!(score(a).is_nan(), a.is_nan());
        assert_eq!(score(a).is_finite(), a.is_finite());
    }
}

#[test]
fn label_beyond_the_table_is_synthesized() {
    let empty: Vec<String> = Vec::new();
    let s = scores(&[0.0, 0.1, 0.2, 0.3, 0.4, 0.9]);
    let result = classify_scores(&empty, &s).expect("a detection");
    assert_eq!(result.label, "class_5");
    assert!(!result.chicken_detected);
    assert!(!result.predator_detected);
}

#[test]
fn resolve_label_examples() {
    let table = labels(&["hen", "fox"]);
    assert_eq!(resolve_label(&table, 0), "hen");
    assert_eq!(resolve_label(&table, 1), "fox");
    assert_eq!(resolve_label(&table, 2), "class_2");
    assert_eq!(resolve_label(&table, 1000), "class_1000");
    assert_eq!(resolve_label(&Vec::new(), 0), "class_0");
    assert_eq!(resolve_label(&Vec::new(), usize::MAX), format!("class_{}", usize::MAX));
}

#[test]
fn end_to_end_scores_to_detection() {
    let table = labels(&["hen", "fox", "toaster"]);
    let s = scores(&[0.1, 0.95, 0.05]);
    let result = classify_scores(&table, &s).expect("a detection");
    assert_eq!(result.label, "fox");
    assert_eq!(f32::from_bits(result.confidence.to_bits()), 0.95);
    assert!(!result.chicken_detected);
    assert!(result.predator_detected);
}

#[test]
fn empty_scores_are_an_error() {
    let table = labels(&["hen", "fox", "toaster"]);
    let result = classify_scores(&table, &[]);
    assert!(matches!(result, Err(InferenceError::EmptyOutput)));
    assert_eq!(InferenceError::EmptyOutput.message(), "model returned empty output");
}

#[test]
fn labels_are_trimmed_and_blank_lines_dropped() {
    assert_eq!(parse_labels(" hen \n\n fox \n"), vec!["hen".to_string(), "fox".to_string()]);
}

#[test]
fn label_lines_may_end_in_carriage_returns() {
    assert_eq!(
        parse_labels("hen\r\nred fox\r\n\r\n\ttoaster"),
        vec!["hen".to_string(), "red fox".to_string(), "toaster".to_string()]
    );
}

#[test]
fn parse_labels_agrees_with_lines_and_trim() {
    let texts = [
        "",
        "\n",
        "a",
        "a\n",
        "\na",
        " a b \n\u{a0}c\u{3000}\n\n\n d",
        "x\r\n\r\ny\rz\r\n",
        "\u{2028}p\u{2029}\n\u{85}q\u{1680}\n\u{200b}r",
        "   \n\t\n \r\n",
    ];
    for text in texts {
        let expected: Vec<String> = text
            .lines()
            .map(str::trim)
            .filter(|line| !line.is_empty())
            .map(ToString::to_string)
            .collect();
        assert_eq!(parse_labels(text), expected, "{:?}", text);
    }
}

#[test]
fn missing_or_blank_label_source_gives_an_empty_table() {
    assert!(load_labels(None).is_empty());
    assert!(load_labels(Some("")).is_empty());
    assert!(load_labels(Some(" \n\n\t\n")).is_empty());
    assert_eq!(load_labels(Some("hen\nfox")), labels(&["hen", "fox"]));
}

#[test]
fn normalization_table_matches_binary32_arithmetic() {
    for channel in 0..3 {
        for level in 0..=255u8 {
            let expected = expected_normalized(channel, level);
            assert_eq!(
                normalize(channel, level),
                expected.to_bits(),
                "channel {} level {}",
                channel,
                level
            );
        }
    }
}

#[test]
fn normalization_exact_values() {
    assert_eq!(f32::from_bits(normalize(0, 0)), (0.0_f32 - 0.485) / 0.229);
    assert_eq!(f32::from_bits(normalize(1, 255)), (1.0_f32 - 0.456) / 0.224);
    assert_eq!(normalize(0, 0), 0xc0078bbd);
    assert_eq!(normalize(2, 255), 0x4028f5c3);
}

#[test]
fn normalization_round_trips_within_one_level() {
    let mean = [0.485_f32, 0.456_f32, 0.406_f32];
    let std = [0.229_f32, 0.224_f32, 0.225_f32];
    for channel in 0..3 {
        for level in 0..=255u8 {
            let stored = f32::from_bits(normalize(channel, level));
            let back = (stored * std[channel] + mean[channel]) * 255.0;
            assert!((back - level as f32).abs() <= 1.0, "channel {} level {}", channel, level);
            assert_eq!(back.round() as i32, level as i32);
        }
    }
}

#[test]
fn normalize_pixels_lays_out_channel_first() {
    let pixels: Vec<u8> = vec![10, 20, 30, 40, 50, 60, 70, 80, 90, 100, 110, 120];
    let tensor = normalize_pixels(&pixels, 2).expect("four pixels");
    assert_eq!(tensor.shape(), (1, 3, 2, 2));
    assert_eq!(tensor.data.len(), 12);
    let expected: Vec<u32> = [
        (0, 10), (0, 40), (0, 70), (0, 100),
        (1, 20), (1, 50), (1, 80), (1, 110),
        (2, 30), (2, 60), (2, 90), (2, 120),
    ]
    .iter()
    .map(|(c, v)| expected_normalized(*c, *v).to_bits())
    .collect();
    assert_eq!(tensor.data, expected);
    assert_eq!(tensor.get(1, 1, 0), expected_normalized(1, 80).to_bits());
    assert_eq!(tensor.get(2, 0, 1), expected_normalized(2, 60).to_bits());
}

#[test]
fn normalize_pixels_wants_three_samples_per_pixel() {
    assert!(normalize_pixels(&[1, 2, 3], 2).is_none());
    assert!(normalize_pixels(&[1, 2, 3, 4], 1).is_none());
    assert!(normalize_pixels(&[], 1).is_none());
    assert!(normalize_pixels(&[1, 2, 3], 1).is_some());
    let empty = normalize_pixels(&[], 0).expect("an empty tensor");
    assert_eq!(empty.shape(), (1, 3, 0, 0));
    assert!(empty.data.is_empty());
}

#[test]
fn image_needs_pixels_and_three_samples_each() {
    assert!(Image::new(0, 1, vec![]).is_none());
    assert!(Image::new(1, 0, vec![]).is_none());
    assert!(Image::new(1, 1, vec![1, 2]).is_none());
    assert!(Image::new(1, 1, vec![1, 2, 3, 4]).is_none());
    assert!(Image::new(u32::MAX, u32::MAX, vec![1, 2, 3]).is_none());
    let image = Image::new(2, 1, vec![1, 2, 3, 4, 5, 6]).expect("two pixels");
    assert_eq!(image.width(), 2);
    assert_eq!(image.height(), 1);
    assert_eq!(image.pixels(), &vec![1, 2, 3, 4, 5, 6]);
}

#[test]
fn preprocess_gives_the_model_shape_and_finite_values() {
    let image = gradient(13, 7);
    let tensor = preprocess_imagenet_224(&image).expect("a small picture");
    assert_eq!(tensor.shape(), (1, 3, 224, 224));
    assert_eq!(tensor.data.len(), 3 * 224 * 224);
    assert!(tensor.data.iter().all(|bits| f32::from_bits(*bits).is_finite()));
}

#[test]
fn preprocess_is_repeatable() {
    let image = gradient(31, 17);
    assert!(can_resize(image.width(), 64));
    let first: Tensor = preprocess(&image, 64);
    let second: Tensor = preprocess(&image, 64);
    assert_eq!(first.size, second.size);
    assert_eq!(first.data, second.data);
}

#[test]
fn preprocess_resamples_with_the_triangle_filter() {
    let image = gradient(9, 5);
    let tensor = preprocess(&image, 4);
    let source = image::RgbImage::from_raw(9, 5, image.pixels().clone()).expect("a picture");
    let resized = image::imageops::resize(&source, 4, 4, image::imageops::FilterType::Triangle);
    for c in 0..3usize {
        for y in 0..4usize {
            for x in 0..4usize {
                let level = resized.get_pixel(x as u32, y as u32).0[c];
                assert_eq!(tensor.get(c, y, x), expected_normalized(c, level).to_bits());
            }
        }
    }
    assert_ne!(resized.into_raw(), image.pixels().clone());
}

#[test]
fn preprocess_at_the_same_size_keeps_the_pixels() {
    let image = gradient(3, 3);
    let tensor = preprocess(&image, 3);
    let direct = normalize_pixels(image.pixels(), 3).expect("nine pixels");
    assert_eq!(tensor.data, direct.data);
}

#[test]
fn preprocess_round_trips_to_the_resampled_pixels() {
    let mean = [0.485_f32, 0.456_f32, 0.406_f32];
    let std = [0.229_f32, 0.224_f32, 0.225_f32];
    let image = gradient(40, 30);
    let tensor = preprocess(&image, 8);
    let source = image::RgbImage::from_raw(40, 30, image.pixels().clone()).expect("a picture");
    let resized = image::imageops::resize(&source, 8, 8, image::imageops::FilterType::Triangle);
    for c in 0..3usize {
        for y in 0..8usize {
            for x in 0..8usize {
                let stored = f32::from_bits(tensor.get(c, y, x));
                let back = (stored * std[c] + mean[c]) * 255.0;
                let level = resized.get_pixel(x as u32, y as u32).0[c] as f32;
                assert!((back - level).abs() <= 1.0);
            }
        }
    }
}

#[test]
fn classify_runs_the_engine_on_the_tensor() {
    let vision = AiVision::load_model("models/m.onnx", "KEY", Some("hen\nfox\ntoaster\n"));
    assert_eq!(vision.model_path, "models/m.onnx");
    assert_eq!(vision.api_key, "KEY");
    assert_eq!(vision.labels, labels(&["hen", "fox", "toaster"]));
    let image = gradient(6, 4);
    let result = vision
        .classify_dynamic_image(&image, |tensor: &Tensor| {
            assert_eq!(tensor.shape(), (1, 3, 224, 224));
            Ok(scores(&[0.1, 0.95, 0.05]))
        })
        .expect("a detection");
    assert_eq!(result.label, "fox");
    assert_eq!(f32::from_bits(result.confidence.to_bits()), 0.95);
    assert!(result.predator_detected);
    assert!(!result.chicken_detected);
}

#[test]
fn classify_with_an_empty_table_names_the_class_by_its_index() {
    let vision = AiVision::load_model("m", "k", None);
    let image = gradient(2, 2);
    let result = vision
        .classify_dynamic_image(&image, |_: &Tensor| Ok(scores(&[0.0, 0.1, 0.2, 0.3, 0.4, 0.5])))
        .expect("a detection");
    assert_eq!(result.label, "class_5");
}

#[test]
fn classify_fails_when_the_engine_gives_nothing() {
    let vision = AiVision::load_model("m", "k", Some("hen\nfox"));
    let image = gradient(2, 2);
    let result = vision.classify_dynamic_image(&image, |_: &Tensor| Ok(Vec::new()));
    assert!(matches!(result, Err(InferenceError::EmptyOutput)));
}

#[test]
fn classify_hands_on_the_failure_of_the_engine() {
    let vision = AiVision::load_model("m", "k", Some("hen\nfox"));
    let image = gradient(2, 2);
    let result = vision.classify_dynamic_image(&image, |_: &Tensor| {
        Err("model inference failed: bad shape".to_string())
    });
    match result {
        Err(InferenceError::Engine(cause)) => {
            assert_eq!(cause, "model inference failed: bad shape")
        }
        _ => panic!("the failure of the engine was not handed on"),
    }
    let result = vision.classify_dynamic_image(&image, disabled_engine);
    match result {
        Err(error) => assert_eq!(error.message(), "local vision is disabled"),
        Ok(_) => panic!("a disabled engine gave a detection"),
    }
}

#[test]
fn classify_output_examples() {
    let vision = AiVision::load_model("m", "k", Some("hen\nfox"));
    let result = vision.classify_output(&Ok(scores(&[0.7, 0.2])));
    let detection = result.expect("a detection");
    assert_eq!(detection.label, "hen");
    assert!(detection.chicken_detected);
    assert!(!detection.predator_detected);
    assert_eq!(f32::from_bits(detection.confidence.to_bits()), 0.7);
    let result = vision.classify_output(&Err("unexpected model output format".to_string()));
    assert!(matches!(result, Err(InferenceError::Engine(_))));
}

#[test]
fn preprocess_of_a_single_pixel_fills_the_planes() {
    let image = Image::new(1, 1, vec![200, 100, 0]).expect("one pixel");
    let tensor = preprocess(&image, 5);
    assert_eq!(tensor.shape(), (1, 3, 5, 5));
    for y in 0..5usize {
        for x in 0..5usize {
            assert_eq!(tensor.get(0, y, x), expected_normalized(0, 200).to_bits());
            assert_eq!(tensor.get(1, y, x), expected_normalized(1, 100).to_bits());
            assert_eq!(tensor.get(2, y, x), expected_normalized(2, 0).to_bits());
        }
    }
}

#[test]
fn preprocess_to_no_pixels_gives_an_empty_tensor() {
    let image = gradient(4, 3);
    let tensor = preprocess(&image, 0);
    assert_eq!(tensor.shape(), (1, 3, 0, 0));
    assert!(tensor.data.is_empty());
}

#[test]
fn preprocess_handles_long_and_tall_pictures() {
    let wide = gradient(300, 1);
    let tall = gradient(1, 300);
    for image in [&wide, &tall] {
        let tensor = preprocess(image, 7);
        assert_eq!(tensor.data.len(), 3 * 7 * 7);
        assert!(tensor.data.iter().all(|bits| f32::from_bits(*bits).is_finite()));
    }
}

#[test]
fn resampling_limits_are_checked() {
    assert!(can_resize(640, 224));
    assert!(can_resize(1, 0));
    assert!(!can_resize(u32::MAX, u32::MAX));
    assert!(!can_resize(1, u32::MAX));
    let cause = "image is too wide to resample on this machine".to_string();
    assert_eq!(InferenceError::Preprocess(cause.clone()).message(), cause);
    assert_eq!(InferenceError::Engine("boom".to_string()).message(), "boom");
}

#[test]
fn normalization_keeps_the_order_of_levels() {
    for channel in 0..3 {
        for level in 0..255u8 {
            let darker = Score::from_bits(normalize(channel, level));
            let brighter = Score::from_bits(normalize(channel, level + 1));
            assert!(brighter.exceeds(darker));
            assert!(darker.order_key() < brighter.order_key());
        }
    }
}
