use vstd::prelude::*;
use vstd::string::*;
use crate::text::{spec_dec, u16_to_dec};

verus! {

/// A CSS length in pixels or percentage. A magnitude of zero stands for the
/// sentinel keyword "auto", never for "0px" or "0%".
#[derive(Debug, PartialEq, Eq, PartialOrd, Ord, Clone, Copy)]
pub enum PuppetUnit {
    Pixels(u16),
    Percentage(u8),
}

impl PuppetUnit {
    /// The magnitude, without its axis.
    pub open spec fn spec_magnitude(self) -> nat {
        match self {
            PuppetUnit::Pixels(n) => n as nat,
            PuppetUnit::Percentage(n) => n as nat,
        }
    }

    /// The CSS suffix of the axis: "px" for pixels, "%" for percentages.
    pub open spec fn spec_suffix(self) -> Seq<char> {
        match self {
            PuppetUnit::Pixels(n) => "px"@,
            PuppetUnit::Percentage(n) => "%"@,
        }
    }

    /// The CSS text of the unit: "auto" for magnitude zero, otherwise the
    /// decimal magnitude followed by the axis suffix.
    pub open spec fn spec_to_html_units(self) -> Seq<char> {
        if self.spec_magnitude() == 0 {
            "auto"@
        } else {
            spec_dec(self.spec_magnitude()) + self.spec_suffix()
        }
    }

    pub fn to_html_units(&self) -> (r: String)
        ensures
            r@ == self.spec_to_html_units(),
    {
        match self {
            PuppetUnit::Pixels(units) => {
                if *units == 0u16 {
                    String::from_str("auto")
                } else {
                    let mut s = u16_to_dec(*units);
                    s.append("px");
                    s
                }
            },
            PuppetUnit::Percentage(units) => {
                if *units == 0u8 {
                    String::from_str("auto")
                } else {
                    let mut s = u16_to_dec(*units as u16);
                    s.append("%");
                    s
                }
            },
        }
    }

    /// The qualified, debug-style text of the unit, such as
    /// "PuppetUnit::Pixels(5)".
    pub open spec fn spec_qualified_name(self) -> Seq<char> {
        match self {
            PuppetUnit::Pixels(n) => "PuppetUnit::Pixels("@ + spec_dec(n as nat) + ")"@,
            PuppetUnit::Percentage(n) => "PuppetUnit::Percentage("@ + spec_dec(n as nat) + ")"@,
        }
    }

    pub fn qualified_name(&self) -> (r: String)
        ensures
            r@ == self.spec_qualified_name(),
    {
        let mut s: String;
        match self {
            PuppetUnit::Pixels(units) => {
                s = String::from_str("PuppetUnit::Pixels(");
                let d = u16_to_dec(*units);
                s.append(d.as_str());
            },
            PuppetUnit::Percentage(units) => {
                s = String::from_str("PuppetUnit::Percentage(");
                let d = u16_to_dec(*units as u16);
                s.append(d.as_str());
            },
        }
        s.append(")");
        proof {
            assert(s@ =~= self.spec_qualified_name());
        }
        s
    }

    /// The bare, display-style text of the unit: the magnitude followed by
    /// its suffix, with no sentinel for zero, such as "0px" or "5%".
    pub open spec fn spec_display_name(self) -> Seq<char> {
        spec_dec(self.spec_magnitude()) + self.spec_suffix()
    }

    pub fn display_name(&self) -> (r: String)
        ensures
            r@ == self.spec_display_name(),
    {
        match self {
            PuppetUnit::Pixels(units) => {
                let mut s = u16_to_dec(*units);
                s.append("px");
                s
            },
            PuppetUnit::Percentage(units) => {
                let mut s = u16_to_dec(*units as u16);
                s.append("%");
                s
            },
        }
    }
}

/// A unit of magnitude zero always renders as the sentinel "auto",
/// whichever axis it carries.
pub proof fn lemma_zero_unit_is_auto(u: PuppetUnit)
    requires
        u.spec_magnitude() == 0,
    ensures
        u.spec_to_html_units() == "auto"@,
{
}

/// A unit of positive magnitude renders as its decimal magnitude followed
/// by the axis suffix: "px" for pixels, "%" for percentages.
pub proof fn lemma_positive_unit_keeps_magnitude(u: PuppetUnit)
    requires
        u.spec_magnitude() > 0,
    ensures
        u.spec_to_html_units() == spec_dec(u.spec_magnitude()) + u.spec_suffix(),
{
}

/// A predefined sizing keyword; "Normal" leaves the size to the content.
#[derive(Debug, PartialEq, Eq, PartialOrd, Ord, Clone, Copy)]
pub enum PuppetLength {
    ViewPortWidth,
    ViewPortHeight,
    Full,
    ThreeQuarter,
    Half,
    Quarter,
    Eighth,
    /// Fill the width depending on the width of the elements
    Normal,
}

impl PuppetLength {
    /// The fixed CSS string of each keyword.
    pub open spec fn spec_to_html_units(self) -> Seq<char> {
        match self {
            PuppetLength::ViewPortWidth => "100vw"@,
            PuppetLength::ViewPortHeight => "100vh"@,
            PuppetLength::Full => "100%"@,
            PuppetLength::ThreeQuarter => "75%"@,
            PuppetLength::Half => "50%"@,
            PuppetLength::Quarter => "25%"@,
            PuppetLength::Eighth => "12.5%"@,
            PuppetLength::Normal => "auto"@,
        }
    }

    pub fn to_html_units(&self) -> (r: &'static str)
        ensures
            r@ == self.spec_to_html_units(),
    {
        match self {
            PuppetLength::ViewPortWidth => "100vw",
            PuppetLength::ViewPortHeight => "100vh",
            PuppetLength::Full => "100%",
            PuppetLength::ThreeQuarter => "75%",
            PuppetLength::Half => "50%",
            PuppetLength::Quarter => "25%",
            PuppetLength::Eighth => "12.5%",
            PuppetLength::Normal => "auto",
        }
    }

    /// The qualified, debug-style name of the variant.
    pub open spec fn spec_qualified_name(self) -> Seq<char> {
        match self {
            PuppetLength::ViewPortWidth => "PuppetLength::ViewPortWidth"@,
            PuppetLength::ViewPortHeight => "PuppetLength::ViewPortHeight"@,
            PuppetLength::Full => "PuppetLength::Full"@,
            PuppetLength::ThreeQuarter => "PuppetLength::ThreeQuarter"@,
            PuppetLength::Half => "PuppetLength::Half"@,
            PuppetLength::Quarter => "PuppetLength::Quarter"@,
            PuppetLength::Eighth => "PuppetLength::Eighth"@,
            PuppetLength::Normal => "PuppetLength::Normal"@,
        }
    }

    pub fn qualified_name(&self) -> (r: &'static str)
        ensures
            r@ == self.spec_qualified_name(),
    {
        match self {
            PuppetLength::ViewPortWidth => "PuppetLength::ViewPortWidth",
            PuppetLength::ViewPortHeight => "PuppetLength::ViewPortHeight",
            PuppetLength::Full => "PuppetLength::Full",
            PuppetLength::ThreeQuarter => "PuppetLength::ThreeQuarter",
            PuppetLength::Half => "PuppetLength::Half",
            PuppetLength::Quarter => "PuppetLength::Quarter",
            PuppetLength::Eighth => "PuppetLength::Eighth",
            PuppetLength::Normal => "PuppetLength::Normal",
        }
    }

    /// The bare, display-style name of the variant.
    pub open spec fn spec_display_name(self) -> Seq<char> {
        match self {
            PuppetLength::ViewPortWidth => "ViewPortWidth"@,
            PuppetLength::ViewPortHeight => "ViewPortHeight"@,
            PuppetLength::Full => "Full"@,
            PuppetLength::ThreeQuarter => "ThreeQuarter"@,
            PuppetLength::Half => "Half"@,
            PuppetLength::Quarter => "Quarter"@,
            PuppetLength::Eighth => "Eighth"@,
            PuppetLength::Normal => "Normal"@,
        }
    }

    pub fn display_name(&self) -> (r: &'static str)
        ensures
            r@ == self.spec_display_name(),
    {
        match self {
            PuppetLength::ViewPortWidth => "ViewPortWidth",
            PuppetLength::ViewPortHeight => "ViewPortHeight",
            PuppetLength::Full => "Full",
            PuppetLength::ThreeQuarter => "ThreeQuarter",
            PuppetLength::Half => "Half",
            PuppetLength::Quarter => "Quarter",
            PuppetLength::Eighth => "Eighth",
            PuppetLength::Normal => "Normal",
        }
    }
}

/// No two length keywords share a CSS string: the table of the eight fixed
/// strings is injective.
pub proof fn lemma_length_css_distinct(a: PuppetLength, b: PuppetLength)
    requires
        a.spec_to_html_units() == b.spec_to_html_units(),
    ensures
        a == b,
{
    reveal_strlit("100vw");
    reveal_strlit("100vh");
    reveal_strlit("100%");
    reveal_strlit("75%");
    reveal_strlit("50%");
    reveal_strlit("25%");
    reveal_strlit("12.5%");
    reveal_strlit("auto");
    assert("100vw"@.len() == 5);
    assert("100vh"@.len() == 5);
    assert("100%"@.len() == 4);
    assert("75%"@.len() == 3);
    assert("50%"@.len() == 3);
    assert("25%"@.len() == 3);
    assert("12.5%"@.len() == 5);
    assert("auto"@.len() == 4);
    assert("100vw"@[4] != "100vh"@[4]);
    assert("100vw"@[1] != "12.5%"@[1]);
    assert("100vh"@[1] != "12.5%"@[1]);
    assert("100%"@[0] != "auto"@[0]);
    assert("75%"@[0] != "50%"@[0]);
    assert("75%"@[0] != "25%"@[0]);
    assert("50%"@[0] != "25%"@[0]);
}

/// The two textual forms of a unit never coincide: a qualified name opens
/// with the type's own name, a bare one with a digit.
pub proof fn lemma_unit_names_distinct(a: PuppetUnit, b: PuppetUnit)
    ensures
        a.spec_qualified_name() != b.spec_display_name(),
{
    reveal_strlit("PuppetUnit::Pixels(");
    reveal_strlit("PuppetUnit::Percentage(");
    crate::text::lemma_dec_first_is_digit(b.spec_magnitude());
    assert(a.spec_qualified_name()[0] == 'P');
    assert(48 <= b.spec_display_name()[0] as u32 <= 57);
}

/// The two textual forms of a length keyword never coincide.
pub proof fn lemma_length_names_distinct(a: PuppetLength, b: PuppetLength)
    ensures
        a.spec_qualified_name() != b.spec_display_name(),
{
    reveal_strlit("PuppetLength::ViewPortWidth");
    reveal_strlit("PuppetLength::ViewPortHeight");
    reveal_strlit("PuppetLength::Full");
    reveal_strlit("PuppetLength::ThreeQuarter");
    reveal_strlit("PuppetLength::Half");
    reveal_strlit("PuppetLength::Quarter");
    reveal_strlit("PuppetLength::Eighth");
    reveal_strlit("PuppetLength::Normal");
    reveal_strlit("ViewPortWidth");
    reveal_strlit("ViewPortHeight");
    reveal_strlit("Full");
    reveal_strlit("ThreeQuarter");
    reveal_strlit("Half");
    reveal_strlit("Quarter");
    reveal_strlit("Eighth");
    reveal_strlit("Normal");
    assert(a.spec_qualified_name().len() >= 18);
    assert(b.spec_display_name().len() <= 14);
}

} // verus!
