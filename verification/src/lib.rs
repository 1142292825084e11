//! A strongly typed color-management library.
//!
//! Colors are four-component values (three color channels plus alpha), tagged
//! with a color space and an alpha-compositing state. The tags are either
//! compile-time markers (on [`color_alpha::ColorAlpha`]) or runtime data (on
//! [`dynamic::DynamicColorAlpha`]), and every conversion between them is
//! checked. Channel values are IEEE-754 single-precision numbers, carried
//! everywhere as their bit patterns; the floating-point arithmetic itself is
//! delegated to `glam` and `kolor`.

pub mod blend;
pub mod color;
pub mod color_alpha;
pub mod dynamic;
pub mod half_encoding;
pub mod pipeline;
pub mod raw;
pub mod tags;

pub use blend::ColorBlender;
pub use blend::LinearBlender;
pub use blend::NoParams;
pub use color::Color;
pub use color::Display;
pub use color_alpha::ColorAlpha;
pub use color_alpha::ColorAlphaConversionQuery;
pub use color_alpha::linear_srgba;
pub use color_alpha::srgba;
pub use color_alpha::srgba_u8;
pub use dynamic::DowncastError;
pub use dynamic::DynamicColor;
pub use dynamic::DynamicColorAlpha;
pub use half_encoding::SrgbQuasiRadianceF16;
pub use tags::AlphaState;
pub use tags::ColorSpace;
pub use tags::DynamicAlphaState;
pub use tags::DynamicColorSpace;
pub use tags::DynamicState;
pub use tags::EncodedSrgb;
pub use tags::LinearSrgb;
pub use tags::Premultiplied;
pub use tags::Separate;
