use fashion_mnist::data::{FashionMnistDataset, HEIGHT, WIDTH};
use fashion_mnist::predict::{
    class_name, no_model_message, pixel_level, prediction_summary, render_image, render_row,
    sample_prediction_line, test_item, RAMP,
};

#[test]
fn class_names_in_label_order() {
    let names: Vec<&str> = (0..10).map(class_name).collect();
    assert_eq!(
        names,
        vec![
            "T-shirt/top", "Trouser", "Pullover", "Dress", "Coat", "Sandal", "Shirt", "Sneaker",
            "Bag", "Ankle boot"
        ]
    );
}

#[test]
fn pixel_level_rounds_like_the_float_formula() {
    for p in 0..=255u8 {
        let expected = (p as f32 / 255.0 * (RAMP.len() - 1) as f32).round() as usize;
        assert_eq!(pixel_level(p), expected, "{p}");
    }
    assert_eq!(pixel_level(0), 0);
    assert_eq!(pixel_level(128), 5);
    assert_eq!(pixel_level(255), 9);
}

#[test]
fn pixel_level_is_monotone() {
    for p in 0..255u8 {
        assert!(pixel_level(p) <= pixel_level(p + 1));
    }
}

#[test]
fn render_row_doubles_each_pixel() {
    let mut row = [0u8; WIDTH];
    row[0] = 255;
    row[1] = 128;
    let line = render_row(&row);
    assert_eq!(line.chars().count(), 2 * WIDTH);
    assert!(line.starts_with("@@++  "));
    assert!(line.ends_with("  "));
}

#[test]
fn render_image_has_one_line_per_row() {
    let mut image = [[0u8; WIDTH]; HEIGHT];
    image[27] = [255u8; WIDTH];
    let lines = render_image(&image);
    assert_eq!(lines.len(), HEIGHT);
    assert_eq!(lines[0], " ".repeat(2 * WIDTH));
    assert_eq!(lines[27], "@".repeat(2 * WIDTH));
}

fn two_item_dataset() -> FashionMnistDataset {
    let mut images = vec![0, 0, 8, 3, 0, 0, 0, 2, 0, 0, 0, 28, 0, 0, 0, 28];
    images.extend(std::iter::repeat(9u8).take(2 * 784));
    FashionMnistDataset::new("t", &images, &[0, 0, 8, 1, 0, 0, 0, 2, 5, 6]).unwrap()
}

#[test]
fn test_item_in_range() {
    let dataset = two_item_dataset();
    let item = test_item(&dataset, 1).unwrap();
    assert_eq!(item.label, 6);
}

#[test]
fn test_item_out_of_range() {
    let dataset = two_item_dataset();
    assert_eq!(
        test_item(&dataset, 10).unwrap_err(),
        "Index 10 is out of range (test set has 2 images)."
    );
    assert!(test_item(&dataset, 2).is_err());
}

#[test]
fn no_model_message_names_the_directory() {
    assert_eq!(
        no_model_message("artifacts"),
        "No trained model found in 'artifacts/'. Run option 1 to train first."
    );
}

#[test]
fn prediction_summary_lines() {
    assert_eq!(
        prediction_summary(0, 9),
        vec!["Prediction: T-shirt/top", "Truth:      Ankle boot", "Result:     wrong"]
    );
    assert_eq!(
        prediction_summary(7, 7),
        vec!["Prediction: Sneaker", "Truth:      Sneaker", "Result:     correct"]
    );
}

#[test]
fn sample_prediction_line_layout() {
    assert_eq!(
        sample_prediction_line(7, 7),
        "  OK  Pred: Sneaker      | Truth: Sneaker"
    );
    for pred in 0..10i64 {
        for truth in 0..10u8 {
            let pred_name = class_name(pred as usize);
            let truth_name = class_name(truth as usize);
            let mark = if pred as u8 == truth { "OK " } else { "XX " };
            assert_eq!(
                sample_prediction_line(pred, truth),
                format!("  {mark} Pred: {pred_name:<12} | Truth: {truth_name}")
            );
        }
    }
}
