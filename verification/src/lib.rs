pub mod color;
pub mod components;
pub mod flex;
pub mod render;
pub mod styles;
pub mod text;
pub mod units;

pub use color::{PuppetColor, Transparency};
pub use components::{Component, ComponentType, ComponentV};
pub use render::{ops_view, ColumnV, PuppetColumn, PuppetRow, RenderOp, RenderOpV, RenderSession, RowV};
pub use styles::{PuppetAlignment, PuppetStyle};
pub use flex::{AlignContent, AlignItems, AlignSelf, FlexDirection, FlexGap, FlexWrap, JustifyContent};
pub use units::{PuppetLength, PuppetUnit};
