use fashion_mnist::model::{ConvShape, ModelConfig};

#[test]
fn default_layout() {
    let config = ModelConfig::new();
    assert_eq!(config.hidden_units(), 10);
    assert_eq!(config.num_classes(), 10);
    let layout = config.layout();
    assert_eq!(layout.convs[0], ConvShape { in_channels: 1, out_channels: 10 });
    for conv in &layout.convs[1..] {
        assert_eq!(*conv, ConvShape { in_channels: 10, out_channels: 10 });
    }
    assert_eq!(layout.pool_size, 2);
    assert_eq!(layout.pool_stride, 2);
    assert_eq!((layout.conv_kernel, layout.conv_stride, layout.conv_padding), (3, 1, 1));
    assert_eq!(layout.feature_side, 7);
    assert_eq!(layout.linear_in, 490);
    assert_eq!(layout.linear_out, 10);
}

#[test]
fn custom_layout() {
    let config = ModelConfig::new().with_hidden_units(32).with_num_classes(3);
    let layout = config.layout();
    assert_eq!(layout.convs[3].out_channels, 32);
    assert_eq!(layout.linear_in, 32 * 7 * 7);
    assert_eq!(layout.linear_out, 3);
}
