use vstd::prelude::*;
use vstd::string::*;
use crate::units::PuppetUnit;

verus! {

/// The main axis along which flex children are laid out.
#[derive(Debug, PartialEq, Eq, PartialOrd, Ord, Clone, Copy)]
pub enum FlexDirection {
    Row,
    RowReverse,
    Column,
    ColumnReverse,
}

impl Default for FlexDirection {
    fn default() -> (r: Self)
        ensures
            r == FlexDirection::Row,
    {
        FlexDirection::Row
    }
}

impl FlexDirection {
    /// The qualified, debug-style name of the variant.
    pub open spec fn spec_qualified_name(self) -> Seq<char> {
        match self {
            FlexDirection::Row => "FlexDirection::Row"@,
            FlexDirection::RowReverse => "FlexDirection::RowReverse"@,
            FlexDirection::Column => "FlexDirection::Column"@,
            FlexDirection::ColumnReverse => "FlexDirection::ColumnReverse"@,
        }
    }

    pub fn qualified_name(&self) -> (r: &'static str)
        ensures
            r@ == self.spec_qualified_name(),
    {
        match self {
            FlexDirection::Row => "FlexDirection::Row",
            FlexDirection::RowReverse => "FlexDirection::RowReverse",
            FlexDirection::Column => "FlexDirection::Column",
            FlexDirection::ColumnReverse => "FlexDirection::ColumnReverse",
        }
    }

    /// The bare, display-style name of the variant.
    pub open spec fn spec_display_name(self) -> Seq<char> {
        match self {
            FlexDirection::Row => "Row"@,
            FlexDirection::RowReverse => "RowReverse"@,
            FlexDirection::Column => "Column"@,
            FlexDirection::ColumnReverse => "ColumnReverse"@,
        }
    }

    pub fn display_name(&self) -> (r: &'static str)
        ensures
            r@ == self.spec_display_name(),
    {
        match self {
            FlexDirection::Row => "Row",
            FlexDirection::RowReverse => "RowReverse",
            FlexDirection::Column => "Column",
            FlexDirection::ColumnReverse => "ColumnReverse",
        }
    }
}

/// Whether flex children wrap onto further lines.
#[derive(Debug, PartialEq, Eq, PartialOrd, Ord, Clone, Copy)]
pub enum FlexWrap {
    Wrap,
    NoWrap,
    WrapReverse,
}

impl Default for FlexWrap {
    fn default() -> (r: Self)
        ensures
            r == FlexWrap::Wrap,
    {
        FlexWrap::Wrap
    }
}

impl FlexWrap {
    /// The qualified, debug-style name of the variant.
    pub open spec fn spec_qualified_name(self) -> Seq<char> {
        match self {
            FlexWrap::Wrap => "FlexWrap::Wrap"@,
            FlexWrap::NoWrap => "FlexWrap::NoWrap"@,
            FlexWrap::WrapReverse => "FlexWrap::WrapReverse"@,
        }
    }

    pub fn qualified_name(&self) -> (r: &'static str)
        ensures
            r@ == self.spec_qualified_name(),
    {
        match self {
            FlexWrap::Wrap => "FlexWrap::Wrap",
            FlexWrap::NoWrap => "FlexWrap::NoWrap",
            FlexWrap::WrapReverse => "FlexWrap::WrapReverse",
        }
    }

    /// The bare, display-style name of the variant.
    pub open spec fn spec_display_name(self) -> Seq<char> {
        match self {
            FlexWrap::Wrap => "Wrap"@,
            FlexWrap::NoWrap => "NoWrap"@,
            FlexWrap::WrapReverse => "WrapReverse"@,
        }
    }

    pub fn display_name(&self) -> (r: &'static str)
        ensures
            r@ == self.spec_display_name(),
    {
        match self {
            FlexWrap::Wrap => "Wrap",
            FlexWrap::NoWrap => "NoWrap",
            FlexWrap::WrapReverse => "WrapReverse",
        }
    }
}

/// How children are distributed along the main axis.
#[derive(Debug, PartialEq, Eq, PartialOrd, Ord, Clone, Copy)]
pub enum JustifyContent {
    FlexStart,
    FlexEnd,
    Center,
    SpaceBetween,
    SpaceAround,
    SpaceEvenly,
}

impl Default for JustifyContent {
    fn default() -> (r: Self)
        ensures
            r == JustifyContent::Center,
    {
        JustifyContent::Center
    }
}

impl JustifyContent {
    /// The qualified, debug-style name of the variant.
    pub open spec fn spec_qualified_name(self) -> Seq<char> {
        match self {
            JustifyContent::FlexStart => "JustifyContent::FlexStart"@,
            JustifyContent::FlexEnd => "JustifyContent::FlexEnd"@,
            JustifyContent::Center => "JustifyContent::Center"@,
            JustifyContent::SpaceBetween => "JustifyContent::SpaceBetween"@,
            JustifyContent::SpaceAround => "JustifyContent::SpaceAround"@,
            JustifyContent::SpaceEvenly => "JustifyContent::SpaceEvenly"@,
        }
    }

    pub fn qualified_name(&self) -> (r: &'static str)
        ensures
            r@ == self.spec_qualified_name(),
    {
        match self {
            JustifyContent::FlexStart => "JustifyContent::FlexStart",
            JustifyContent::FlexEnd => "JustifyContent::FlexEnd",
            JustifyContent::Center => "JustifyContent::Center",
            JustifyContent::SpaceBetween => "JustifyContent::SpaceBetween",
            JustifyContent::SpaceAround => "JustifyContent::SpaceAround",
            JustifyContent::SpaceEvenly => "JustifyContent::SpaceEvenly",
        }
    }

    /// The bare, display-style name of the variant.
    pub open spec fn spec_display_name(self) -> Seq<char> {
        match self {
            JustifyContent::FlexStart => "FlexStart"@,
            JustifyContent::FlexEnd => "FlexEnd"@,
            JustifyContent::Center => "Center"@,
            JustifyContent::SpaceBetween => "SpaceBetween"@,
            JustifyContent::SpaceAround => "SpaceAround"@,
            JustifyContent::SpaceEvenly => "SpaceEvenly"@,
        }
    }

    pub fn display_name(&self) -> (r: &'static str)
        ensures
            r@ == self.spec_display_name(),
    {
        match self {
            JustifyContent::FlexStart => "FlexStart",
            JustifyContent::FlexEnd => "FlexEnd",
            JustifyContent::Center => "Center",
            JustifyContent::SpaceBetween => "SpaceBetween",
            JustifyContent::SpaceAround => "SpaceAround",
            JustifyContent::SpaceEvenly => "SpaceEvenly",
        }
    }
}

/// How one child overrides the container's cross-axis alignment.
#[derive(Debug, PartialEq, Eq, PartialOrd, Ord, Clone, Copy)]
pub enum AlignSelf {
    Auto,
    FlexStart,
    FlexEnd,
    Center,
    Baseline,
    Stretch,
}

impl Default for AlignSelf {
    fn default() -> (r: Self)
        ensures
            r == AlignSelf::Center,
    {
        AlignSelf::Center
    }
}

impl AlignSelf {
    /// The qualified, debug-style name of the variant.
    pub open spec fn spec_qualified_name(self) -> Seq<char> {
        match self {
            AlignSelf::Auto => "AlignSelf::Auto"@,
            AlignSelf::FlexStart => "AlignSelf::FlexStart"@,
            AlignSelf::FlexEnd => "AlignSelf::FlexEnd"@,
            AlignSelf::Center => "AlignSelf::Center"@,
            AlignSelf::Baseline => "AlignSelf::Baseline"@,
            AlignSelf::Stretch => "AlignSelf::Stretch"@,
        }
    }

    pub fn qualified_name(&self) -> (r: &'static str)
        ensures
            r@ == self.spec_qualified_name(),
    {
        match self {
            AlignSelf::Auto => "AlignSelf::Auto",
            AlignSelf::FlexStart => "AlignSelf::FlexStart",
            AlignSelf::FlexEnd => "AlignSelf::FlexEnd",
            AlignSelf::Center => "AlignSelf::Center",
            AlignSelf::Baseline => "AlignSelf::Baseline",
            AlignSelf::Stretch => "AlignSelf::Stretch",
        }
    }

    /// The bare, display-style name of the variant.
    pub open spec fn spec_display_name(self) -> Seq<char> {
        match self {
            AlignSelf::Auto => "Auto"@,
            AlignSelf::FlexStart => "FlexStart"@,
            AlignSelf::FlexEnd => "FlexEnd"@,
            AlignSelf::Center => "Center"@,
            AlignSelf::Baseline => "Baseline"@,
            AlignSelf::Stretch => "Stretch"@,
        }
    }

    pub fn display_name(&self) -> (r: &'static str)
        ensures
            r@ == self.spec_display_name(),
    {
        match self {
            AlignSelf::Auto => "Auto",
            AlignSelf::FlexStart => "FlexStart",
            AlignSelf::FlexEnd => "FlexEnd",
            AlignSelf::Center => "Center",
            AlignSelf::Baseline => "Baseline",
            AlignSelf::Stretch => "Stretch",
        }
    }
}

/// How children are aligned on the cross axis.
#[derive(Debug, PartialEq, Eq, PartialOrd, Ord, Clone, Copy)]
pub enum AlignItems {
    FlexStart,
    FlexEnd,
    Center,
    Baseline,
    Stretch,
}

impl Default for AlignItems {
    fn default() -> (r: Self)
        ensures
            r == AlignItems::Center,
    {
        AlignItems::Center
    }
}

impl AlignItems {
    /// The qualified, debug-style name of the variant.
    pub open spec fn spec_qualified_name(self) -> Seq<char> {
        match self {
            AlignItems::FlexStart => "AlignItems::FlexStart"@,
            AlignItems::FlexEnd => "AlignItems::FlexEnd"@,
            AlignItems::Center => "AlignItems::Center"@,
            AlignItems::Baseline => "AlignItems::Baseline"@,
            AlignItems::Stretch => "AlignItems::Stretch"@,
        }
    }

    pub fn qualified_name(&self) -> (r: &'static str)
        ensures
            r@ == self.spec_qualified_name(),
    {
        match self {
            AlignItems::FlexStart => "AlignItems::FlexStart",
            AlignItems::FlexEnd => "AlignItems::FlexEnd",
            AlignItems::Center => "AlignItems::Center",
            AlignItems::Baseline => "AlignItems::Baseline",
            AlignItems::Stretch => "AlignItems::Stretch",
        }
    }

    /// The bare, display-style name of the variant.
    pub open spec fn spec_display_name(self) -> Seq<char> {
        match self {
            AlignItems::FlexStart => "FlexStart"@,
            AlignItems::FlexEnd => "FlexEnd"@,
            AlignItems::Center => "Center"@,
            AlignItems::Baseline => "Baseline"@,
            AlignItems::Stretch => "Stretch"@,
        }
    }

    pub fn display_name(&self) -> (r: &'static str)
        ensures
            r@ == self.spec_display_name(),
    {
        match self {
            AlignItems::FlexStart => "FlexStart",
            AlignItems::FlexEnd => "FlexEnd",
            AlignItems::Center => "Center",
            AlignItems::Baseline => "Baseline",
            AlignItems::Stretch => "Stretch",
        }
    }
}

/// How the lines of a wrapped container are spaced on the cross axis.
#[derive(Debug, PartialEq, Eq, PartialOrd, Ord, Clone, Copy)]
pub enum AlignContent {
    FlexStart,
    FlexEnd,
    Center,
    Stretch,
    SpaceBetween,
    SpaceAround,
}

impl Default for AlignContent {
    fn default() -> (r: Self)
        ensures
            r == AlignContent::Center,
    {
        AlignContent::Center
    }
}

impl AlignContent {
    /// The qualified, debug-style name of the variant.
    pub open spec fn spec_qualified_name(self) -> Seq<char> {
        match self {
            AlignContent::FlexStart => "AlignContent::FlexStart"@,
            AlignContent::FlexEnd => "AlignContent::FlexEnd"@,
            AlignContent::Center => "AlignContent::Center"@,
            AlignContent::Stretch => "AlignContent::Stretch"@,
            AlignContent::SpaceBetween => "AlignContent::SpaceBetween"@,
            AlignContent::SpaceAround => "AlignContent::SpaceAround"@,
        }
    }

    pub fn qualified_name(&self) -> (r: &'static str)
        ensures
            r@ == self.spec_qualified_name(),
    {
        match self {
            AlignContent::FlexStart => "AlignContent::FlexStart",
            AlignContent::FlexEnd => "AlignContent::FlexEnd",
            AlignContent::Center => "AlignContent::Center",
            AlignContent::Stretch => "AlignContent::Stretch",
            AlignContent::SpaceBetween => "AlignContent::SpaceBetween",
            AlignContent::SpaceAround => "AlignContent::SpaceAround",
        }
    }

    /// The bare, display-style name of the variant.
    pub open spec fn spec_display_name(self) -> Seq<char> {
        match self {
            AlignContent::FlexStart => "FlexStart"@,
            AlignContent::FlexEnd => "FlexEnd"@,
            AlignContent::Center => "Center"@,
            AlignContent::Stretch => "Stretch"@,
            AlignContent::SpaceBetween => "SpaceBetween"@,
            AlignContent::SpaceAround => "SpaceAround"@,
        }
    }

    pub fn display_name(&self) -> (r: &'static str)
        ensures
            r@ == self.spec_display_name(),
    {
        match self {
            AlignContent::FlexStart => "FlexStart",
            AlignContent::FlexEnd => "FlexEnd",
            AlignContent::Center => "Center",
            AlignContent::Stretch => "Stretch",
            AlignContent::SpaceBetween => "SpaceBetween",
            AlignContent::SpaceAround => "SpaceAround",
        }
    }
}

/// The spacing between flex children, on one of the two axes.
#[derive(Debug, PartialEq, Eq, PartialOrd, Ord, Clone, Copy)]
pub enum FlexGap {
    Column(PuppetUnit),
    Row(PuppetUnit),
}

impl Default for FlexGap {
    fn default() -> (r: Self)
        ensures
            r == FlexGap::Row(PuppetUnit::Pixels(2)),
    {
        FlexGap::Row(PuppetUnit::Pixels(2u16))
    }
}

impl FlexGap {
    /// The qualified, debug-style text of the gap, such as
    /// "FlexGap::Row(PuppetUnit::Pixels(2))".
    pub open spec fn spec_qualified_name(self) -> Seq<char> {
        match self {
            FlexGap::Column(gap) => "FlexGap::Column("@ + gap.spec_qualified_name() + ")"@,
            FlexGap::Row(gap) => "FlexGap::Row("@ + gap.spec_qualified_name() + ")"@,
        }
    }

    pub fn qualified_name(&self) -> (r: String)
        ensures
            r@ == self.spec_qualified_name(),
    {
        let mut s: String;
        match self {
            FlexGap::Column(gap) => {
                s = String::from_str("FlexGap::Column(");
                let inner = gap.qualified_name();
                s.append(inner.as_str());
            },
            FlexGap::Row(gap) => {
                s = String::from_str("FlexGap::Row(");
                let inner = gap.qualified_name();
                s.append(inner.as_str());
            },
        }
        s.append(")");
        proof {
            assert(s@ =~= self.spec_qualified_name());
        }
        s
    }

    /// The bare, display-style text of the gap, such as
    /// "Row(PuppetUnit::Pixels(2))".
    pub open spec fn spec_display_name(self) -> Seq<char> {
        match self {
            FlexGap::Column(gap) => "Column("@ + gap.spec_qualified_name() + ")"@,
            FlexGap::Row(gap) => "Row("@ + gap.spec_qualified_name() + ")"@,
        }
    }

    pub fn display_name(&self) -> (r: String)
        ensures
            r@ == self.spec_display_name(),
    {
        let mut s: String;
        match self {
            FlexGap::Column(gap) => {
                s = String::from_str("Column(");
                let inner = gap.qualified_name();
                s.append(inner.as_str());
            },
            FlexGap::Row(gap) => {
                s = String::from_str("Row(");
                let inner = gap.qualified_name();
                s.append(inner.as_str());
            },
        }
        s.append(")");
        proof {
            assert(s@ =~= self.spec_display_name());
        }
        s
    }
}

/// The two textual forms of a direction never coincide: a qualified,
/// debug-style name is never a bare, display-style name.
pub proof fn lemma_flex_direction_names_distinct(a: FlexDirection, b: FlexDirection)
    ensures
        a.spec_qualified_name() != b.spec_display_name(),
{
    reveal_strlit("FlexDirection::Row");
    reveal_strlit("FlexDirection::RowReverse");
    reveal_strlit("FlexDirection::Column");
    reveal_strlit("FlexDirection::ColumnReverse");
    reveal_strlit("Row");
    reveal_strlit("RowReverse");
    reveal_strlit("Column");
    reveal_strlit("ColumnReverse");
    assert(a.spec_qualified_name().len() >= 18);
    assert(b.spec_display_name().len() <= 13);
}

/// The two textual forms of a wrap choice never coincide.
pub proof fn lemma_flex_wrap_names_distinct(a: FlexWrap, b: FlexWrap)
    ensures
        a.spec_qualified_name() != b.spec_display_name(),
{
    reveal_strlit("FlexWrap::Wrap");
    reveal_strlit("FlexWrap::NoWrap");
    reveal_strlit("FlexWrap::WrapReverse");
    reveal_strlit("Wrap");
    reveal_strlit("NoWrap");
    reveal_strlit("WrapReverse");
    assert(a.spec_qualified_name().len() >= 14);
    assert(b.spec_display_name().len() <= 11);
}

/// The two textual forms of a justify-content choice never coincide.
pub proof fn lemma_justify_content_names_distinct(a: JustifyContent, b: JustifyContent)
    ensures
        a.spec_qualified_name() != b.spec_display_name(),
{
    reveal_strlit("JustifyContent::FlexStart");
    reveal_strlit("JustifyContent::FlexEnd");
    reveal_strlit("JustifyContent::Center");
    reveal_strlit("JustifyContent::SpaceBetween");
    reveal_strlit("JustifyContent::SpaceAround");
    reveal_strlit("JustifyContent::SpaceEvenly");
    reveal_strlit("FlexStart");
    reveal_strlit("FlexEnd");
    reveal_strlit("Center");
    reveal_strlit("SpaceBetween");
    reveal_strlit("SpaceAround");
    reveal_strlit("SpaceEvenly");
    assert(a.spec_qualified_name().len() >= 22);
    assert(b.spec_display_name().len() <= 12);
}

/// The two textual forms of an align-self choice never coincide.
pub proof fn lemma_align_self_names_distinct(a: AlignSelf, b: AlignSelf)
    ensures
        a.spec_qualified_name() != b.spec_display_name(),
{
    reveal_strlit("AlignSelf::Auto");
    reveal_strlit("AlignSelf::FlexStart");
    reveal_strlit("AlignSelf::FlexEnd");
    reveal_strlit("AlignSelf::Center");
    reveal_strlit("AlignSelf::Baseline");
    reveal_strlit("AlignSelf::Stretch");
    reveal_strlit("Auto");
    reveal_strlit("FlexStart");
    reveal_strlit("FlexEnd");
    reveal_strlit("Center");
    reveal_strlit("Baseline");
    reveal_strlit("Stretch");
    assert(a.spec_qualified_name().len() >= 15);
    assert(b.spec_display_name().len() <= 9);
}

/// The two textual forms of an align-items choice never coincide.
pub proof fn lemma_align_items_names_distinct(a: AlignItems, b: AlignItems)
    ensures
        a.spec_qualified_name() != b.spec_display_name(),
{
    reveal_strlit("AlignItems::FlexStart");
    reveal_strlit("AlignItems::FlexEnd");
    reveal_strlit("AlignItems::Center");
    reveal_strlit("AlignItems::Baseline");
    reveal_strlit("AlignItems::Stretch");
    reveal_strlit("FlexStart");
    reveal_strlit("FlexEnd");
    reveal_strlit("Center");
    reveal_strlit("Baseline");
    reveal_strlit("Stretch");
    assert(a.spec_qualified_name().len() >= 18);
    assert(b.spec_display_name().len() <= 9);
}

/// The two textual forms of an align-content choice never coincide.
pub proof fn lemma_align_content_names_distinct(a: AlignContent, b: AlignContent)
    ensures
        a.spec_qualified_name() != b.spec_display_name(),
{
    reveal_strlit("AlignContent::FlexStart");
    reveal_strlit("AlignContent::FlexEnd");
    reveal_strlit("AlignContent::Center");
    reveal_strlit("AlignContent::Stretch");
    reveal_strlit("AlignContent::SpaceBetween");
    reveal_strlit("AlignContent::SpaceAround");
    reveal_strlit("FlexStart");
    reveal_strlit("FlexEnd");
    reveal_strlit("Center");
    reveal_strlit("Stretch");
    reveal_strlit("SpaceBetween");
    reveal_strlit("SpaceAround");
    assert(a.spec_qualified_name().len() >= 20);
    assert(b.spec_display_name().len() <= 12);
}

/// The two textual forms of a gap never coincide: a qualified name opens
/// with the type's own name, a bare one with the axis alone.
pub proof fn lemma_flex_gap_names_distinct(a: FlexGap, b: FlexGap)
    ensures
        a.spec_qualified_name() != b.spec_display_name(),
{
    reveal_strlit("FlexGap::Column(");
    reveal_strlit("FlexGap::Row(");
    reveal_strlit("Column(");
    reveal_strlit("Row(");
    assert(a.spec_qualified_name()[0] == 'F');
    assert(b.spec_display_name()[0] == 'C' || b.spec_display_name()[0] == 'R');
}

} // verus!
