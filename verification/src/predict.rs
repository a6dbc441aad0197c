//! What the program shows about one prediction: the image as ASCII art, the
//! predicted and true classes, and the errors on the way there.

use crate::data::{FashionMnistDataset, FashionMnistItem, Image, HEIGHT, NUM_CLASSES, WIDTH};
use crate::text::{decimal, decimal_string, pad_right, padded};
use vstd::prelude::*;

verus! {

/// The name of class `index`, in the order of the dataset's labels.
pub open spec fn spec_class_name(index: int) -> Seq<char> {
    if index == 0 {
        "T-shirt/top"@
    } else if index == 1 {
        "Trouser"@
    } else if index == 2 {
        "Pullover"@
    } else if index == 3 {
        "Dress"@
    } else if index == 4 {
        "Coat"@
    } else if index == 5 {
        "Sandal"@
    } else if index == 6 {
        "Shirt"@
    } else if index == 7 {
        "Sneaker"@
    } else if index == 8 {
        "Bag"@
    } else {
        "Ankle boot"@
    }
}

/// The human-readable name of class `index`.
pub fn class_name(index: usize) -> (name: &'static str)
    requires
        index < NUM_CLASSES,
    ensures
        name@ == spec_class_name(index as int),
{
    match index {
        0 => "T-shirt/top",
        1 => "Trouser",
        2 => "Pullover",
        3 => "Dress",
        4 => "Coat",
        5 => "Sandal",
        6 => "Shirt",
        7 => "Sneaker",
        8 => "Bag",
        _ => "Ankle boot",
    }
}

/// The characters of the ASCII-art ramp, darkest first.
pub const RAMP: &'static str = " .:-=+*#%@";

/// The number of characters in the ramp.
pub const RAMP_LEN: usize = 10;

/// The ramp level of a pixel: the integer nearest to `pixel / 255 * 9`.
pub open spec fn spec_pixel_level(pixel: u8) -> int {
    (6 * pixel + 85) / 170
}

/// Maps a pixel in `0..=255` to a ramp level in `0..=9`: its value scaled to
/// the ramp and rounded to the nearest level.
pub fn pixel_level(pixel: u8) -> (level: usize)
    ensures
        level == spec_pixel_level(pixel),
        level < RAMP_LEN,
        -255 < 2 * (255 * level - 9 * pixel) < 255,
{
    let p = pixel as usize;
    let level = (6 * p + 85) / 170;
    assert(-255 < 2 * (255 * level - 9 * p) < 255) by (nonlinear_arith)
        requires
            level == (6 * p + 85) / 170,
            p <= 255,
    ;
    level
}

/// A lighter pixel never gets a darker ramp level.
pub proof fn lemma_pixel_level_monotone(a: u8, b: u8)
    requires
        a <= b,
    ensures
        spec_pixel_level(a) <= spec_pixel_level(b),
{
    assert((6 * a + 85) / 170 <= (6 * b + 85) / 170) by (nonlinear_arith)
        requires
            a <= b,
    ;
}

/// The ramp level of a pixel is the level nearest to its brightness scaled
/// to the ramp: `pixel / 255 * 9` rounded, always a valid ramp index.
pub proof fn lemma_pixel_level_nearest(pixel: u8)
    ensures
        0 <= spec_pixel_level(pixel) < RAMP_LEN,
        -255 < 2 * (255 * spec_pixel_level(pixel) - 9 * pixel) < 255,
{
    let l = spec_pixel_level(pixel);
    assert(0 <= l < 10 && -255 < 2 * (255 * l - 9 * pixel) < 255) by (nonlinear_arith)
        requires
            l == (6 * pixel + 85) / 170,
            pixel <= 255,
    ;
}

/// The two characters of a pixel depend on that pixel alone: rows that agree
/// on pixel `c` agree on characters `2c` and `2c + 1`, which are the ramp
/// character of its level.
pub proof fn lemma_render_row_local(a: [u8; WIDTH], b: [u8; WIDTH], c: int)
    requires
        0 <= c < WIDTH,
        a[c] == b[c],
    ensures
        spec_render_row(a)[2 * c] == spec_render_row(b)[2 * c],
        spec_render_row(a)[2 * c + 1] == spec_render_row(b)[2 * c + 1],
        spec_render_row(a)[2 * c] == RAMP@[spec_pixel_level(a[c])],
        spec_render_row(a)[2 * c + 1] == RAMP@[spec_pixel_level(a[c])],
        spec_render_row(a).len() == 2 * WIDTH,
{
    assert((2 * c) / 2 == c);
    assert((2 * c + 1) / 2 == c);
}

/// A prediction is reported correct exactly when it names the true class.
pub proof fn lemma_verdict_correct(predicted: int, truth: int)
    ensures
        (spec_verdict(predicted, truth) == "correct"@) <==> predicted == truth,
        (spec_verdict(predicted, truth) == "wrong"@) <==> predicted != truth,
{
    reveal_strlit("correct");
    reveal_strlit("wrong");
    assert("correct"@.len() != "wrong"@.len());
}

/// A sample is marked `OK ` exactly when its prediction is right.
pub proof fn lemma_mark_ok(predicted: int, truth: int)
    ensures
        (spec_mark(predicted, truth) == "OK "@) <==> predicted == truth,
        (spec_mark(predicted, truth) == "XX "@) <==> predicted != truth,
{
    reveal_strlit("OK ");
    reveal_strlit("XX ");
    assert("OK "@[0] != "XX "@[0]);
}

/// The black background maps to the first ramp character and full white to
/// the last.
pub proof fn lemma_pixel_level_ends()
    ensures
        spec_pixel_level(0) == 0,
        spec_pixel_level(255) == RAMP_LEN - 1,
{
}

/// The ramp character of a level.
pub open spec fn ramp_char(level: int) -> char {
    RAMP@[level]
}

/// The two characters that stand for one pixel.
pub open spec fn pixel_cell(pixel: u8) -> Seq<char> {
    seq![ramp_char(spec_pixel_level(pixel)), ramp_char(spec_pixel_level(pixel))]
}

/// One image row as ASCII art: each pixel as two characters, so that the
/// picture is not squished by the terminal's cell ratio.
pub open spec fn spec_render_row(row: [u8; WIDTH]) -> Seq<char> {
    Seq::new(2 * WIDTH as nat, |k: int| ramp_char(spec_pixel_level(row[k / 2])))
}

/// Renders one image row.
pub fn render_row(row: &[u8; WIDTH]) -> (line: String)
    ensures
        line@ == spec_render_row(*row),
        line@.len() == 2 * WIDTH,
        forall|c: int|
            0 <= c < WIDTH ==> line@[2 * c] == RAMP@[spec_pixel_level(#[trigger] row[c])]
                && line@[2 * c + 1] == RAMP@[spec_pixel_level(row[c])],
{
    let mut line = String::new();
    let mut col: usize = 0;
    proof {
        reveal_strlit(" .:-=+*#%@");
    }
    while col < WIDTH
        invariant
            col <= WIDTH,
            RAMP@.len() == RAMP_LEN,
            line@.len() == 2 * col,
            forall|k: int|
                0 <= k < 2 * col ==> #[trigger] line@[k] == ramp_char(spec_pixel_level(row[k / 2])),
        decreases WIDTH - col,
    {
        let level = pixel_level(row[col]);
        let cell = RAMP.substring_char(level, level + 1);
        let ghost before = line@;
        line.append(cell);
        line.append(cell);
        assert forall|k: int|
            0 <= k < 2 * (col + 1) implies #[trigger] line@[k] == ramp_char(
            spec_pixel_level(row[k / 2]),
        ) by {
            if k >= 2 * col {
                assert(k / 2 == col);
            } else {
                assert(line@[k] == before[k]);
            }
        }
        col = col + 1;
    }
    assert(line@ =~= spec_render_row(*row));
    assert forall|c: int| 0 <= c < WIDTH implies line@[2 * c] == RAMP@[spec_pixel_level(
        #[trigger] row[c],
    )] && line@[2 * c + 1] == RAMP@[spec_pixel_level(row[c])] by {
        assert((2 * c) / 2 == c);
        assert((2 * c + 1) / 2 == c);
    }
    line
}

/// Renders a 28 x 28 grayscale image as ASCII art, one line per row.
pub fn render_image(image: &Image) -> (lines: Vec<String>)
    ensures
        lines@.len() == HEIGHT,
        forall|r: int| 0 <= r < HEIGHT ==> (#[trigger] lines@[r])@ == spec_render_row(image[r]),
        forall|r: int, c: int|
            0 <= r < HEIGHT && 0 <= c < WIDTH ==> (#[trigger] lines@[r])@[2 * c] == RAMP@[
                spec_pixel_level(#[trigger] image[r][c])]
                && lines@[r]@[2 * c + 1] == RAMP@[spec_pixel_level(image[r][c])],
{
    let mut lines: Vec<String> = Vec::with_capacity(HEIGHT);
    let mut row: usize = 0;
    while row < HEIGHT
        invariant
            row <= HEIGHT,
            lines@.len() == row,
            forall|r: int| 0 <= r < row ==> (#[trigger] lines@[r])@ == spec_render_row(image[r]),
        decreases HEIGHT - row,
    {
        let line = render_row(&image[row]);
        lines.push(line);
        row = row + 1;
    }
    assert forall|r: int, c: int|
        0 <= r < HEIGHT && 0 <= c < WIDTH implies (#[trigger] lines@[r])@[2 * c] == RAMP@[
        spec_pixel_level(#[trigger] image[r][c])] && lines@[r]@[2 * c + 1] == RAMP@[
        spec_pixel_level(image[r][c])] by {
        assert((2 * c) / 2 == c);
        assert((2 * c + 1) / 2 == c);
    }
    lines
}

/// The text of the error for an index past the end of the test set.
pub open spec fn spec_out_of_range_message(index: nat, len: nat) -> Seq<char> {
    "Index "@ + decimal(index) + " is out of range (test set has "@ + decimal(len)
        + " images)."@
}

/// The test item at `index`, or the error that names the index and the size
/// of the test set.
pub fn test_item(dataset: &FashionMnistDataset, index: usize) -> (res: Result<
    FashionMnistItem,
    String,
>)
    ensures
        res is Ok <==> index < dataset@.len(),
        res matches Ok(item) ==> item == dataset@[index as int],
        res matches Err(message) ==> message@ == spec_out_of_range_message(
            index as nat,
            dataset@.len(),
        ),
        res matches Err(message) ==> message@ == "Index "@ + decimal(index as nat)
            + " is out of range (test set has "@ + decimal(dataset@.len()) + " images)."@,
{
    match dataset.get(index) {
        Some(item) => Ok(item),
        None => {
            let mut message = String::from_str("Index ");
            message.append(decimal_string(index).as_str());
            message.append(" is out of range (test set has ");
            message.append(decimal_string(dataset.len()).as_str());
            message.append(" images).");
            Err(message)
        },
    }
}

/// The text of the error for a missing trained model.
pub open spec fn spec_no_model_message(artifact_dir: Seq<char>) -> Seq<char> {
    "No trained model found in '"@ + artifact_dir + "/'. Run option 1 to train first."@
}

/// The error shown when no trained model is found in `artifact_dir`.
pub fn no_model_message(artifact_dir: &str) -> (message: String)
    ensures
        message@ == spec_no_model_message(artifact_dir@),
        message@ == "No trained model found in '"@ + artifact_dir@
            + "/'. Run option 1 to train first."@,
{
    let mut message = String::from_str("No trained model found in '");
    message.append(artifact_dir);
    message.append("/'. Run option 1 to train first.");
    message
}

/// The verdict on a prediction.
pub open spec fn spec_verdict(predicted: int, truth: int) -> Seq<char> {
    if predicted == truth {
        "correct"@
    } else {
        "wrong"@
    }
}

/// The three lines that report a prediction: the predicted class, the true
/// class and whether they agree.
pub fn prediction_summary(predicted: usize, truth: u8) -> (lines: Vec<String>)
    requires
        predicted < NUM_CLASSES,
        truth < NUM_CLASSES,
    ensures
        lines@.len() == 3,
        lines@[0]@ == "Prediction: "@ + spec_class_name(predicted as int),
        lines@[1]@ == "Truth:      "@ + spec_class_name(truth as int),
        lines@[2]@ == "Result:     "@ + spec_verdict(predicted as int, truth as int),
        lines@[2]@ == "Result:     "@ + (if predicted == truth as usize {
            "correct"@
        } else {
            "wrong"@
        }),
{
    let mut first = String::from_str("Prediction: ");
    first.append(class_name(predicted));
    let mut second = String::from_str("Truth:      ");
    second.append(class_name(truth as usize));
    let mut third = String::from_str("Result:     ");
    if predicted == truth as usize {
        third.append("correct");
    } else {
        third.append("wrong");
    }
    let mut lines: Vec<String> = Vec::new();
    lines.push(first);
    lines.push(second);
    lines.push(third);
    lines
}

/// The number of test images whose predictions are shown after training.
pub const SAMPLE_COUNT: usize = 9;

/// The mark of a sample prediction.
pub open spec fn spec_mark(predicted: int, truth: int) -> Seq<char> {
    if predicted == truth {
        "OK "@
    } else {
        "XX "@
    }
}

/// The line that reports one sample prediction.
pub open spec fn spec_sample_line(predicted: int, truth: int) -> Seq<char> {
    "  "@ + spec_mark(predicted, truth) + " Pred: "@ + padded(spec_class_name(predicted), 12)
        + " | Truth: "@ + spec_class_name(truth)
}

/// One line of the sample predictions: a mark (`OK ` or `XX `), the
/// predicted class left-aligned in 12 columns, and the true class.
pub fn sample_prediction_line(predicted: i64, truth: u8) -> (line: String)
    requires
        0 <= predicted < NUM_CLASSES,
        truth < NUM_CLASSES,
    ensures
        line@ == spec_sample_line(predicted as int, truth as int),
        line@ == "  "@ + (if predicted == truth as i64 {
            "OK "@
        } else {
            "XX "@
        }) + " Pred: "@ + padded(spec_class_name(predicted as int), 12) + " | Truth: "@
            + spec_class_name(truth as int),
{
    let predicted_index = predicted as usize;
    let mut line = String::from_str("  ");
    if predicted as u8 == truth {
        line.append("OK ");
    } else {
        line.append("XX ");
    }
    line.append(" Pred: ");
    let name = pad_right(class_name(predicted_index), 12);
    line.append(name.as_str());
    line.append(" | Truth: ");
    line.append(class_name(truth as usize));
    line
}

} // verus!
