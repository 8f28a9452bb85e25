use vstd::prelude::*;
use crate::color::PuppetColor;
use crate::flex::{AlignContent, AlignItems, AlignSelf, FlexDirection, FlexGap, FlexWrap, JustifyContent};
use crate::units::{PuppetLength, PuppetUnit};

verus! {

/// How children are laid out inside their container: a flex description
/// with its seven sub-choices, or the reserved grid placeholder.
#[derive(Debug, PartialEq, Eq, PartialOrd, Ord, Clone, Copy)]
pub enum PuppetAlignment {
    Flex {
        flex_direction: FlexDirection,
        flex_wrap: FlexWrap,
        justify_content: JustifyContent,
        align_self: AlignSelf,
        align_items: AlignItems,
        align_content: AlignContent,
        gap: FlexGap,
    },
    Grid,
}

impl PuppetAlignment {
    /// The default alignment: flex, with every sub-choice defaulted.
    pub open spec fn spec_default() -> PuppetAlignment {
        PuppetAlignment::Flex {
            flex_direction: FlexDirection::Row,
            flex_wrap: FlexWrap::Wrap,
            justify_content: JustifyContent::Center,
            align_self: AlignSelf::Center,
            align_items: AlignItems::Center,
            align_content: AlignContent::Center,
            gap: FlexGap::Row(PuppetUnit::Pixels(2)),
        }
    }
}

impl Default for PuppetAlignment {
    fn default() -> (r: Self)
        ensures
            r == PuppetAlignment::spec_default(),
    {
        PuppetAlignment::Flex {
            flex_direction: FlexDirection::default(),
            flex_wrap: FlexWrap::default(),
            justify_content: JustifyContent::default(),
            align_self: AlignSelf::default(),
            align_items: AlignItems::default(),
            align_content: AlignContent::default(),
            gap: FlexGap::default(),
        }
    }
}

/// The full style bundle of one node: a plain value, copied into the node
/// that owns it.
#[derive(Debug, PartialEq, Eq, PartialOrd, Ord, Clone, Copy)]
pub struct PuppetStyle {
    pub padding: PuppetUnit,
    pub margin: PuppetUnit,
    pub width: PuppetLength,
    pub height: PuppetLength,
    /// Based on screen pixels
    pub min_width: PuppetUnit,
    /// Based on screen pixels
    pub max_width: PuppetUnit,
    /// Based on screen pixels
    pub min_height: PuppetUnit,
    /// Based on screen pixels
    pub max_height: PuppetUnit,
    /// How children will be aligned inside the container
    pub alignment: PuppetAlignment,
    pub background_color: PuppetColor,
}

impl PuppetStyle {
    /// The default style: padding two percent, margin zero pixels (the
    /// "auto" sentinel), full width, normal height, every minimum and
    /// maximum at zero pixels, defaulted alignment, white background.
    pub open spec fn spec_default() -> PuppetStyle {
        PuppetStyle {
            padding: PuppetUnit::Percentage(2),
            margin: PuppetUnit::Pixels(0),
            width: PuppetLength::Full,
            height: PuppetLength::Normal,
            min_width: PuppetUnit::Pixels(0),
            min_height: PuppetUnit::Pixels(0),
            max_width: PuppetUnit::Pixels(0),
            max_height: PuppetUnit::Pixels(0),
            alignment: PuppetAlignment::spec_default(),
            background_color: PuppetColor::Hex("FFFFFF"),
        }
    }

    pub open spec fn spec_padding(self, u: PuppetUnit) -> PuppetStyle {
        PuppetStyle { padding: u, ..self }
    }

    pub open spec fn spec_margin(self, u: PuppetUnit) -> PuppetStyle {
        PuppetStyle { margin: u, ..self }
    }

    pub open spec fn spec_width(self, l: PuppetLength) -> PuppetStyle {
        PuppetStyle { width: l, ..self }
    }

    pub open spec fn spec_height(self, l: PuppetLength) -> PuppetStyle {
        PuppetStyle { height: l, ..self }
    }

    pub open spec fn spec_min_width(self, u: PuppetUnit) -> PuppetStyle {
        PuppetStyle { min_width: u, ..self }
    }

    pub open spec fn spec_min_height(self, u: PuppetUnit) -> PuppetStyle {
        PuppetStyle { min_height: u, ..self }
    }

    pub open spec fn spec_max_width(self, u: PuppetUnit) -> PuppetStyle {
        PuppetStyle { max_width: u, ..self }
    }

    pub open spec fn spec_max_height(self, u: PuppetUnit) -> PuppetStyle {
        PuppetStyle { max_height: u, ..self }
    }

    pub open spec fn spec_align_items(self, a: PuppetAlignment) -> PuppetStyle {
        PuppetStyle { alignment: a, ..self }
    }

    pub open spec fn spec_background_color(self, c: PuppetColor) -> PuppetStyle {
        PuppetStyle { background_color: c, ..self }
    }

    pub fn padding(&mut self, puppet_unit: PuppetUnit)
        ensures
            *final(self) == old(self).spec_padding(puppet_unit),
    {
        self.padding = puppet_unit;
    }

    pub fn margin(&mut self, puppet_unit: PuppetUnit)
        ensures
            *final(self) == old(self).spec_margin(puppet_unit),
    {
        self.margin = puppet_unit;
    }

    pub fn width(&mut self, puppet_length: PuppetLength)
        ensures
            *final(self) == old(self).spec_width(puppet_length),
    {
        self.width = puppet_length;
    }

    pub fn height(&mut self, puppet_length: PuppetLength)
        ensures
            *final(self) == old(self).spec_height(puppet_length),
    {
        self.height = puppet_length;
    }

    pub fn min_width(&mut self, puppet_unit: PuppetUnit)
        ensures
            *final(self) == old(self).spec_min_width(puppet_unit),
    {
        self.min_width = puppet_unit;
    }

    pub fn min_height(&mut self, puppet_unit: PuppetUnit)
        ensures
            *final(self) == old(self).spec_min_height(puppet_unit),
    {
        self.min_height = puppet_unit;
    }

    pub fn max_width(&mut self, puppet_unit: PuppetUnit)
        ensures
            *final(self) == old(self).spec_max_width(puppet_unit),
    {
        self.max_width = puppet_unit;
    }

    pub fn max_height(&mut self, puppet_unit: PuppetUnit)
        ensures
            *final(self) == old(self).spec_max_height(puppet_unit),
    {
        self.max_height = puppet_unit;
    }

    pub fn align_items(&mut self, alignment: PuppetAlignment)
        ensures
            *final(self) == old(self).spec_align_items(alignment),
    {
        self.alignment = alignment;
    }

    pub fn background_color(&mut self, background_color: PuppetColor)
        ensures
            *final(self) == old(self).spec_background_color(background_color),
    {
        self.background_color = background_color;
    }
}

impl Default for PuppetStyle {
    fn default() -> (r: Self)
        ensures
            r == PuppetStyle::spec_default(),
    {
        PuppetStyle {
            padding: PuppetUnit::Percentage(2),
            margin: PuppetUnit::Pixels(0),
            width: PuppetLength::Full,
            height: PuppetLength::Normal,
            min_width: PuppetUnit::Pixels(0),
            min_height: PuppetUnit::Pixels(0),
            max_width: PuppetUnit::Pixels(0),
            max_height: PuppetUnit::Pixels(0),
            alignment: PuppetAlignment::default(),
            background_color: PuppetColor::Hex("FFFFFF"),
        }
    }
}

/// Setting every field gives back exactly the set values, and setters of
/// distinct fields do not disturb one another: applying the ten setters in
/// either of two opposite orders ends in the same style.
pub proof fn lemma_style_setters_round_trip(
    s: PuppetStyle,
    p: PuppetUnit,
    m: PuppetUnit,
    w: PuppetLength,
    h: PuppetLength,
    miw: PuppetUnit,
    mih: PuppetUnit,
    maw: PuppetUnit,
    mah: PuppetUnit,
    al: PuppetAlignment,
    bg: PuppetColor,
)
    ensures
        s.spec_padding(p).spec_margin(m).spec_width(w).spec_height(h).spec_min_width(
            miw,
        ).spec_min_height(mih).spec_max_width(maw).spec_max_height(mah).spec_align_items(
            al,
        ).spec_background_color(bg) == (PuppetStyle {
            padding: p,
            margin: m,
            width: w,
            height: h,
            min_width: miw,
            min_height: mih,
            max_width: maw,
            max_height: mah,
            alignment: al,
            background_color: bg,
        }),
        s.spec_background_color(bg).spec_align_items(al).spec_max_height(mah).spec_max_width(
            maw,
        ).spec_min_height(mih).spec_min_width(miw).spec_height(h).spec_width(w).spec_margin(
            m,
        ).spec_padding(p) == (PuppetStyle {
            padding: p,
            margin: m,
            width: w,
            height: h,
            min_width: miw,
            min_height: mih,
            max_width: maw,
            max_height: mah,
            alignment: al,
            background_color: bg,
        }),
{
}

/// The default style's CSS values: padding renders as "2%"; the margin and
/// every minimum and maximum, being zero units, render as the sentinel
/// "auto"; the full width renders as "100%" and the normal height as
/// "auto".
pub proof fn lemma_default_style_css()
    ensures
        PuppetStyle::spec_default().padding.spec_to_html_units() == "2%"@,
        PuppetStyle::spec_default().margin.spec_to_html_units() == "auto"@,
        PuppetStyle::spec_default().width.spec_to_html_units() == "100%"@,
        PuppetStyle::spec_default().height.spec_to_html_units() == "auto"@,
        PuppetStyle::spec_default().min_width.spec_to_html_units() == "auto"@,
        PuppetStyle::spec_default().min_height.spec_to_html_units() == "auto"@,
        PuppetStyle::spec_default().max_width.spec_to_html_units() == "auto"@,
        PuppetStyle::spec_default().max_height.spec_to_html_units() == "auto"@,
{
    reveal_strlit("2");
    reveal_strlit("%");
    reveal_strlit("2%");
    assert(PuppetStyle::spec_default().padding.spec_to_html_units() =~= "2%"@);
}

} // verus!
