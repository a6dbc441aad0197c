use fashion_mnist::data::{
    image_count, parse_images, parse_labels, FashionMnistBatcher, FashionMnistDataset,
    FashionMnistItem, HEIGHT, IMAGE_PIXELS, WIDTH,
};

fn idx3(count: u32, pixels: &[u8]) -> Vec<u8> {
    let mut data = vec![0x00, 0x00, 0x08, 0x03];
    data.extend_from_slice(&count.to_be_bytes());
    data.extend_from_slice(&28u32.to_be_bytes());
    data.extend_from_slice(&28u32.to_be_bytes());
    data.extend_from_slice(pixels);
    data
}

fn idx1(labels: &[u8]) -> Vec<u8> {
    let mut data = vec![0x00, 0x00, 0x08, 0x01];
    data.extend_from_slice(&(labels.len() as u32).to_be_bytes());
    data.extend_from_slice(labels);
    data
}

fn pattern(n: usize) -> Vec<u8> {
    (0..n).map(|k| (k * 7 % 256) as u8).collect()
}

#[test]
fn image_count_reads_big_endian() {
    assert_eq!(image_count(&[0, 0, 8, 3, 0x01, 0x02, 0x03, 0x04]), 0x0102_0304);
    assert_eq!(image_count(&[0, 0, 8, 3, 0, 0, 0x27, 0x10]), 10_000);
    assert_eq!(image_count(&[0, 0, 8, 3, 0xff, 0xff, 0xff, 0xff]), 0xffff_ffff);
}

#[test]
fn parse_images_reads_each_block_row_by_row() {
    let pixels = pattern(2 * IMAGE_PIXELS);
    let data = idx3(2, &pixels);
    let images = parse_images(&data);
    assert_eq!(images.len(), 2);
    for i in 0..2 {
        for row in 0..HEIGHT {
            for col in 0..WIDTH {
                assert_eq!(images[i][row][col], pixels[IMAGE_PIXELS * i + WIDTH * row + col]);
            }
        }
    }
    assert_eq!(images[1][2][3], data[16 + 784 + 56 + 3]);
}

#[test]
fn parse_images_with_no_images() {
    assert!(parse_images(&[0, 0, 8, 3, 0, 0, 0, 0]).is_empty());
}

#[test]
fn parse_images_ignores_trailing_bytes() {
    let mut pixels = pattern(IMAGE_PIXELS);
    pixels.extend_from_slice(&[1, 2, 3]);
    assert_eq!(parse_images(&idx3(1, &pixels)).len(), 1);
}

#[test]
fn parse_labels_takes_everything_after_the_header() {
    assert_eq!(parse_labels(&idx1(&[3, 7, 0, 9])), vec![3, 7, 0, 9]);
    assert_eq!(parse_labels(&[0, 0, 8, 1, 0, 0, 0, 0]), Vec::<u8>::new());
}

#[test]
fn dataset_pairs_images_with_labels() {
    let pixels = pattern(3 * IMAGE_PIXELS);
    let dataset = FashionMnistDataset::new("imgs", &idx3(3, &pixels), &idx1(&[4, 1, 8])).unwrap();
    assert_eq!(dataset.len(), 3);
    let item = dataset.get(2).unwrap();
    assert_eq!(item.label, 8);
    assert_eq!(item.image[27][27], pixels[3 * IMAGE_PIXELS - 1]);
    assert!(dataset.get(3).is_none());
    assert!(dataset.get(usize::MAX).is_none());
}

#[test]
fn dataset_count_mismatch_is_an_error() {
    let pixels = pattern(2 * IMAGE_PIXELS);
    match FashionMnistDataset::new("train-images-idx3-ubyte", &idx3(2, &pixels), &idx1(&[1])) {
        Err(message) => {
            assert_eq!(message, "image/label count mismatch for train-images-idx3-ubyte")
        }
        Ok(_) => panic!("a count mismatch must fail"),
    }
}

#[test]
fn first_items_stops_at_the_end() {
    let pixels = pattern(3 * IMAGE_PIXELS);
    let dataset = FashionMnistDataset::new("imgs", &idx3(3, &pixels), &idx1(&[4, 1, 8])).unwrap();
    let all = dataset.first_items(9);
    assert_eq!(all.iter().map(|item| item.label).collect::<Vec<_>>(), vec![4, 1, 8]);
    let two = dataset.first_items(2);
    assert_eq!(two.iter().map(|item| item.label).collect::<Vec<_>>(), vec![4, 1]);
    assert!(dataset.first_items(0).is_empty());
}

#[test]
fn batch_keeps_item_order() {
    let mut first = [[0u8; WIDTH]; HEIGHT];
    first[0][0] = 200;
    let second = [[17u8; WIDTH]; HEIGHT];
    let items = vec![
        FashionMnistItem { image: first, label: 9 },
        FashionMnistItem { image: second, label: 0 },
    ];
    let batch = FashionMnistBatcher.batch(&items);
    assert_eq!(batch.targets, vec![9i64, 0]);
    assert_eq!(batch.images.len(), 2);
    assert_eq!(batch.images[0][0][0], 200);
    assert_eq!(batch.images[1][5][5], 17);
    assert!(FashionMnistBatcher.batch(&Vec::new()).targets.is_empty());
}
