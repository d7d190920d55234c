pub use crate::plugins::text_converter::letter::vocal::{
    vocal_decoration, vocal_decoration_lines, vocal_of, vocal_placement, Vocal, VocalDecoration,
    VocalPlacement,
};
