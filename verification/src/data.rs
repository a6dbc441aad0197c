//! The FashionMNIST dataset: IDX decoding, the item list and its batches.

use vstd::prelude::*;

verus! {

/// Number of pixel columns in an image.
pub const WIDTH: usize = 28;

/// Number of pixel rows in an image.
pub const HEIGHT: usize = 28;

/// Number of clothing classes.
pub const NUM_CLASSES: usize = 10;

/// Number of pixels in an image.
pub const IMAGE_PIXELS: usize = 784;

/// Length of the header of an IDX3 image file (magic, count, rows, cols).
pub const IMAGE_HEADER_LEN: usize = 16;

/// Length of the header of an IDX1 label file (magic, count).
pub const LABEL_HEADER_LEN: usize = 8;

/// A grayscale image, row by row; each pixel is its raw value in `0..=255`.
pub type Image = [[u8; WIDTH]; HEIGHT];

/// The big-endian unsigned integer held by four bytes.
pub open spec fn be_u32(b0: u8, b1: u8, b2: u8, b3: u8) -> int {
    b0 * 16777216 + b1 * 65536 + b2 * 256 + b3
}

/// The image count that an IDX3 header states (bytes 4..8, big-endian).
pub open spec fn idx_image_count(data: Seq<u8>) -> int {
    be_u32(data[4], data[5], data[6], data[7])
}

/// The bytes that `parse_images` reads: a full header, then `count` images.
pub open spec fn idx_images_readable(data: Seq<u8>) -> bool {
    &&& data.len() >= 8
    &&& idx_image_count(data) > 0 ==> data.len() >= IMAGE_HEADER_LEN + IMAGE_PIXELS
        * idx_image_count(data)
}

/// Pixel (`row`, `col`) of image `i` of an IDX3 file.
pub open spec fn idx_pixel(data: Seq<u8>, i: int, row: int, col: int) -> u8 {
    data[IMAGE_HEADER_LEN + IMAGE_PIXELS * i + WIDTH * row + col]
}

/// `image` holds image `i` of the IDX3 file `data`.
pub open spec fn is_idx_image(data: Seq<u8>, i: int, image: Image) -> bool {
    forall|row: int, col: int|
        0 <= row < HEIGHT && 0 <= col < WIDTH ==> #[trigger] image[row][col] == idx_pixel(
            data,
            i,
            row,
            col,
        )
}

/// Reads the image count of an IDX3 header.
pub fn image_count(data: &[u8]) -> (count: usize)
    requires
        data@.len() >= 8,
    ensures
        count == idx_image_count(data@),
        count == data@[4] * 16777216 + data@[5] * 65536 + data@[6] * 256 + data@[7],
{
    let b0 = data[4] as usize;
    let b1 = data[5] as usize;
    let b2 = data[6] as usize;
    let b3 = data[7] as usize;
    b0 * 16777216 + b1 * 65536 + b2 * 256 + b3
}

/// Copies one image out of an IDX3 file, starting at byte `offset`.
fn read_image(data: &[u8], offset: usize) -> (image: Image)
    requires
        offset + IMAGE_PIXELS <= data@.len(),
    ensures
        forall|row: int, col: int|
            0 <= row < HEIGHT && 0 <= col < WIDTH ==> #[trigger] image[row][col] == data@[offset
                + WIDTH * row + col],
{
    let len = data.len();
    let mut image: Image = [[0u8; WIDTH]; HEIGHT];
    let mut row: usize = 0;
    while row < HEIGHT
        invariant
            row <= HEIGHT,
            len == data@.len(),
            offset + IMAGE_PIXELS <= data@.len(),
            forall|r: int, c: int|
                0 <= r < row && 0 <= c < WIDTH ==> #[trigger] image[r][c] == data@[offset + WIDTH
                    * r + c],
        decreases HEIGHT - row,
    {
        let mut line = [0u8; WIDTH];
        let mut col: usize = 0;
        while col < WIDTH
            invariant
                row < HEIGHT,
                col <= WIDTH,
                len == data@.len(),
                offset + IMAGE_PIXELS <= data@.len(),
                forall|c: int| 0 <= c < col ==> #[trigger] line[c] == data@[offset + WIDTH * row + c],
            decreases WIDTH - col,
        {
            assert(WIDTH * row + col < IMAGE_PIXELS) by (nonlinear_arith)
                requires
                    row < HEIGHT,
                    col < WIDTH,
            ;
            line[col] = data[offset + WIDTH * row + col];
            col = col + 1;
        }
        image[row] = line;
        row = row + 1;
    }
    image
}

/// Decodes an IDX3 image file: a 16-byte header (magic, count, rows, cols),
/// then `count` images of 28 x 28 bytes, row by row.
pub fn parse_images(data: &[u8]) -> (images: Vec<Image>)
    requires
        idx_images_readable(data@),
    ensures
        images@.len() == idx_image_count(data@),
        forall|i: int| 0 <= i < images@.len() ==> is_idx_image(data@, i, #[trigger] images@[i]),
{
    let count = image_count(data);
    let len = data.len();
    let mut images: Vec<Image> = Vec::with_capacity(count);
    let mut offset: usize = IMAGE_HEADER_LEN;
    let mut k: usize = 0;
    while k < count
        invariant
            count == idx_image_count(data@),
            idx_images_readable(data@),
            k <= count,
            len == data@.len(),
            offset == IMAGE_HEADER_LEN + IMAGE_PIXELS * k,
            images@.len() == k,
            forall|i: int| 0 <= i < k ==> is_idx_image(data@, i, #[trigger] images@[i]),
        decreases count - k,
    {
        assert(offset + IMAGE_PIXELS <= data@.len()) by (nonlinear_arith)
            requires
                offset == IMAGE_HEADER_LEN + IMAGE_PIXELS * k,
                k < count,
                data@.len() >= IMAGE_HEADER_LEN + IMAGE_PIXELS * count,
        ;
        let image = read_image(data, offset);
        images.push(image);
        offset = offset + IMAGE_PIXELS;
        k = k + 1;
    }
    images
}

/// Decodes an IDX1 label file: an 8-byte header (magic, count), then one byte
/// per label, up to the end of the file.
pub fn parse_labels(data: &[u8]) -> (labels: Vec<u8>)
    requires
        data@.len() >= LABEL_HEADER_LEN,
    ensures
        labels@ == data@.subrange(LABEL_HEADER_LEN as int, data@.len() as int),
{
    let mut labels: Vec<u8> = Vec::new();
    let mut k: usize = LABEL_HEADER_LEN;
    while k < data.len()
        invariant
            LABEL_HEADER_LEN <= k <= data@.len(),
            labels@ == data@.subrange(LABEL_HEADER_LEN as int, k as int),
        decreases data@.len() - k,
    {
        labels.push(data[k]);
        k = k + 1;
    }
    labels
}

} // verus!

verus! {

/// One labelled image.
#[derive(Clone, Copy, Debug)]
pub struct FashionMnistItem {
    /// Raw pixel values in the `0..=255` range; batches keep them raw.
    pub image: Image,
    /// The class of the image, an index into the class names.
    pub label: u8,
}

/// The text of the error for image and label files of different lengths.
pub open spec fn count_mismatch_message(images_file: Seq<char>) -> Seq<char> {
    "image/label count mismatch for "@ + images_file
}

/// A list of labelled images, in file order.
pub struct FashionMnistDataset {
    items: Vec<FashionMnistItem>,
}

impl View for FashionMnistDataset {
    type V = Seq<FashionMnistItem>;

    closed spec fn view(&self) -> Seq<FashionMnistItem> {
        self.items@
    }
}

impl FashionMnistDataset {
    /// Builds the dataset from the contents of an IDX3 image file and an IDX1
    /// label file: image `i` is paired with label `i`. Fails when the two
    /// files hold different numbers of entries; `images_file` names the image
    /// file in the error.
    pub fn new(images_file: &str, image_data: &[u8], label_data: &[u8]) -> (res: Result<
        Self,
        String,
    >)
        requires
            idx_images_readable(image_data@),
            label_data@.len() >= LABEL_HEADER_LEN,
        ensures
            res is Ok <==> idx_image_count(image_data@) == label_data@.len() - LABEL_HEADER_LEN,
            res matches Ok(dataset) ==> {
                &&& dataset@.len() == idx_image_count(image_data@)
                &&& forall|i: int|
                    0 <= i < dataset@.len() ==> is_idx_image(image_data@, i, #[trigger] dataset@[i].image)
                        && dataset@[i].label == label_data@[LABEL_HEADER_LEN + i]
            },
            res matches Err(message) ==> message@ == count_mismatch_message(images_file@),
            res matches Err(message) ==> message@ == "image/label count mismatch for "@
                + images_file@,
    {
        let images = parse_images(image_data);
        let labels = parse_labels(label_data);
        if images.len() != labels.len() {
            let mut message = String::from_str("image/label count mismatch for ");
            message.append(images_file);
            return Err(message);
        }
        let mut items: Vec<FashionMnistItem> = Vec::with_capacity(images.len());
        let mut k: usize = 0;
        while k < images.len()
            invariant
                images@.len() == labels@.len(),
                k <= images@.len(),
                items@.len() == k,
                forall|i: int|
                    0 <= i < k ==> (#[trigger] items@[i]).image == images@[i] && items@[i].label
                        == labels@[i],
            decreases images@.len() - k,
        {
            items.push(FashionMnistItem { image: images[k], label: labels[k] });
            k = k + 1;
        }
        Ok(FashionMnistDataset { items })
    }

    /// The item at `index`, if there is one.
    pub fn get(&self, index: usize) -> (item: Option<FashionMnistItem>)
        ensures
            item == (if index < self@.len() {
                Some(self@[index as int])
            } else {
                None::<FashionMnistItem>
            }),
    {
        if index < self.items.len() {
            Some(self.items[index])
        } else {
            None
        }
    }

    /// The number of items.
    pub fn len(&self) -> (n: usize)
        ensures
            n == self@.len(),
    {
        self.items.len()
    }

    /// The first `count` items, or all of them where there are fewer.
    pub fn first_items(&self, count: usize) -> (items: Vec<FashionMnistItem>)
        ensures
            items@ == self@.take(if count < self@.len() { count as int } else { self@.len() as int }),
    {
        let mut items: Vec<FashionMnistItem> = Vec::new();
        let mut k: usize = 0;
        while k < count && k < self.items.len()
            invariant
                k <= self@.len(),
                k <= count,
                items@ == self@.take(k as int),
            decreases self@.len() - k,
        {
            items.push(self.items[k]);
            k = k + 1;
        }
        items
    }
}

/// Groups items into batches.
#[derive(Clone, Copy, Debug, Default)]
pub struct FashionMnistBatcher;

/// A batch: the images, one channel each, in item order, and their classes.
pub struct FashionMnistBatch {
    /// The images of the batch, shape `[n, 1, HEIGHT, WIDTH]` once the
    /// channel is added; pixels stay raw.
    pub images: Vec<Image>,
    /// The class of each image, in the same order.
    pub targets: Vec<i64>,
}

impl FashionMnistBatcher {
    /// Stacks the items of a batch: images in order, and each label widened to
    /// an `i64` target at the same position.
    pub fn batch(&self, items: &Vec<FashionMnistItem>) -> (batch: FashionMnistBatch)
        ensures
            batch.images@.len() == items@.len(),
            batch.targets@.len() == items@.len(),
            forall|i: int|
                0 <= i < items@.len() ==> #[trigger] batch.images@[i] == items@[i].image
                    && batch.targets@[i] == items@[i].label as i64,
    {
        let mut images: Vec<Image> = Vec::with_capacity(items.len());
        let mut targets: Vec<i64> = Vec::with_capacity(items.len());
        let mut k: usize = 0;
        while k < items.len()
            invariant
                k <= items@.len(),
                images@.len() == k,
                targets@.len() == k,
                forall|i: int|
                    0 <= i < k ==> #[trigger] images@[i] == items@[i].image && targets@[i]
                        == items@[i].label as i64,
            decreases items@.len() - k,
        {
            images.push(items[k].image);
            targets.push(items[k].label as i64);
            k = k + 1;
        }
        FashionMnistBatch { images, targets }
    }
}

} // verus!
