//! The shape of the TinyVGG-style classifier: two convolution blocks (each:
//! conv, ReLU, conv, ReLU, max-pool) and a linear layer.

use crate::data::{HEIGHT, NUM_CLASSES, WIDTH};
use vstd::prelude::*;

verus! {

/// The hyper-parameters of the classifier.
pub struct ModelConfig {
    hidden_units: usize,
    num_classes: usize,
}

/// The input and output channels of one convolution.
#[derive(Clone, Copy, Debug, PartialEq, Eq)]
pub struct ConvShape {
    pub in_channels: usize,
    pub out_channels: usize,
}

/// The layer sizes of the classifier.
#[derive(Clone, Copy, Debug)]
pub struct ModelLayout {
    /// The four convolutions, in forward order.
    pub convs: [ConvShape; 4],
    /// The side of the square kernel of every convolution.
    pub conv_kernel: usize,
    /// The stride of every convolution, in both directions.
    pub conv_stride: usize,
    /// The zero padding of every convolution, on each side.
    pub conv_padding: usize,
    /// The side of the square max-pool window.
    pub pool_size: usize,
    /// The stride of the max-pool, in both directions.
    pub pool_stride: usize,
    /// The side of the square feature maps that are flattened into the
    /// linear layer.
    pub feature_side: usize,
    /// The input and output features of the final linear layer.
    pub linear_in: usize,
    pub linear_out: usize,
}

/// The side of the output of a convolution with a `kernel` x `kernel`
/// window, the given stride and `padding` zeros on each side.
pub open spec fn conv_side(side: int, kernel: int, stride: int, padding: int) -> int {
    (side + 2 * padding - kernel) / stride + 1
}

/// The side of the output of a max-pool with a `size` x `size` window and the
/// given stride.
pub open spec fn pool_side(side: int, size: int, stride: int) -> int {
    (side - size) / stride + 1
}

/// The side after one block of the layout: two convolutions, then a pool.
pub open spec fn block_side(layout: ModelLayout, side: int) -> int {
    let k = layout.conv_kernel as int;
    let s = layout.conv_stride as int;
    let p = layout.conv_padding as int;
    pool_side(
        conv_side(conv_side(side, k, s, p), k, s, p),
        layout.pool_size as int,
        layout.pool_stride as int,
    )
}

impl ModelConfig {
    /// The default configuration: 10 hidden units and one output per class.
    pub fn new() -> (config: Self)
        ensures
            config.spec_hidden_units() == 10,
            config.spec_num_classes() == NUM_CLASSES,
    {
        ModelConfig { hidden_units: 10, num_classes: NUM_CLASSES }
    }

    pub closed spec fn spec_hidden_units(&self) -> usize {
        self.hidden_units
    }

    pub closed spec fn spec_num_classes(&self) -> usize {
        self.num_classes
    }

    /// The number of channels of the hidden convolutions.
    pub fn hidden_units(&self) -> (n: usize)
        ensures
            n == self.spec_hidden_units(),
    {
        self.hidden_units
    }

    /// The number of outputs of the classifier.
    pub fn num_classes(&self) -> (n: usize)
        ensures
            n == self.spec_num_classes(),
    {
        self.num_classes
    }

    /// The configuration with `hidden_units` hidden channels.
    pub fn with_hidden_units(self, hidden_units: usize) -> (config: Self)
        ensures
            config.spec_hidden_units() == hidden_units,
            config.spec_num_classes() == self.spec_num_classes(),
    {
        ModelConfig { hidden_units, num_classes: self.num_classes }
    }

    /// The configuration with `num_classes` outputs.
    pub fn with_num_classes(self, num_classes: usize) -> (config: Self)
        ensures
            config.spec_hidden_units() == self.spec_hidden_units(),
            config.spec_num_classes() == num_classes,
    {
        ModelConfig { hidden_units: self.hidden_units, num_classes }
    }

    /// The layer sizes: a one-channel input, four 3 x 3 convolutions with
    /// stride 1 and padding 1 (which keep the spatial size) of `hidden_units`
    /// channels, 2 x 2 pooling with stride 2 after each pair (which halves
    /// it, 28 to 14 to 7), and a linear layer from the flattened 7 x 7
    /// feature maps to `num_classes` outputs.
    pub fn layout(&self) -> (layout: ModelLayout)
        requires
            self.spec_hidden_units() * 49 <= usize::MAX,
        ensures
            layout.convs[0] == (ConvShape { in_channels: 1, out_channels: self.spec_hidden_units() }),
            forall|i: int|
                1 <= i < 4 ==> #[trigger] layout.convs[i] == (ConvShape {
                    in_channels: self.spec_hidden_units(),
                    out_channels: self.spec_hidden_units(),
                }),
            forall|i: int|
                1 <= i < 4 ==> #[trigger] layout.convs[i].in_channels == layout.convs[i
                    - 1].out_channels,
            layout.conv_kernel == 3,
            layout.conv_stride == 1,
            layout.conv_padding == 1,
            layout.pool_size == 2,
            layout.pool_stride == 2,
            conv_side(HEIGHT as int, 3, 1, 1) == HEIGHT,
            conv_side(HEIGHT as int / 2, 3, 1, 1) == HEIGHT / 2,
            block_side(layout, HEIGHT as int) == HEIGHT / 2,
            block_side(layout, WIDTH as int) == WIDTH / 2,
            layout.feature_side == block_side(layout, block_side(layout, HEIGHT as int)),
            layout.feature_side == block_side(layout, block_side(layout, WIDTH as int)),
            layout.feature_side == 7,
            layout.linear_in == layout.convs[3].out_channels * layout.feature_side
                * layout.feature_side,
            layout.linear_in == self.spec_hidden_units() * 7 * 7,
            layout.linear_out == self.spec_num_classes(),
    {
        let h = self.hidden_units;
        let hidden = ConvShape { in_channels: h, out_channels: h };
        ModelLayout {
            convs: [ConvShape { in_channels: 1, out_channels: h }, hidden, hidden, hidden],
            conv_kernel: 3,
            conv_stride: 1,
            conv_padding: 1,
            pool_size: 2,
            pool_stride: 2,
            feature_side: 7,
            linear_in: h * 7 * 7,
            linear_out: self.num_classes,
        }
    }
}

} // verus!
