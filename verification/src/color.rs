use vstd::prelude::*;
use vstd::string::*;
use crate::text::{spec_dec, u8_to_dec};

verus! {

/// A discrete alpha level, from fully transparent to opaque.
#[derive(Debug, PartialEq, Eq, PartialOrd, Ord, Clone, Copy)]
pub enum Transparency {
    /// Zero on the alpha channel
    Full,
    Ten,
    Twenty,
    Thirty,
    Forty,
    Fifty,
    Sixty,
    Seventy,
    Eighty,
    Ninety,
    /// Color is opaque on the alpha channel
    Opaque,
}

impl Default for Transparency {
    fn default() -> (r: Self)
        ensures
            r == Transparency::Opaque,
    {
        Transparency::Opaque
    }
}

impl Transparency {
    /// The fixed decimal CSS string of each alpha step.
    pub open spec fn spec_to_html_alpha(self) -> Seq<char> {
        match self {
            Transparency::Full => "0"@,
            Transparency::Ten => "0.1"@,
            Transparency::Twenty => "0.2"@,
            Transparency::Thirty => "0.3"@,
            Transparency::Forty => "0.4"@,
            Transparency::Fifty => "0.5"@,
            Transparency::Sixty => "0.6"@,
            Transparency::Seventy => "0.7"@,
            Transparency::Eighty => "0.8"@,
            Transparency::Ninety => "0.9"@,
            Transparency::Opaque => "1"@,
        }
    }

    pub fn to_html_alpha(&self) -> (r: &'static str)
        ensures
            r@ == self.spec_to_html_alpha(),
    {
        match self {
            Transparency::Full => "0",
            Transparency::Ten => "0.1",
            Transparency::Twenty => "0.2",
            Transparency::Thirty => "0.3",
            Transparency::Forty => "0.4",
            Transparency::Fifty => "0.5",
            Transparency::Sixty => "0.6",
            Transparency::Seventy => "0.7",
            Transparency::Eighty => "0.8",
            Transparency::Ninety => "0.9",
            Transparency::Opaque => "1",
        }
    }

    /// The qualified, debug-style name of the variant.
    pub open spec fn spec_qualified_name(self) -> Seq<char> {
        match self {
            Transparency::Full => "Transparency::Full"@,
            Transparency::Ten => "Transparency::Ten"@,
            Transparency::Twenty => "Transparency::Twenty"@,
            Transparency::Thirty => "Transparency::Thirty"@,
            Transparency::Forty => "Transparency::Forty"@,
            Transparency::Fifty => "Transparency::Fifty"@,
            Transparency::Sixty => "Transparency::Sixty"@,
            Transparency::Seventy => "Transparency::Seventy"@,
            Transparency::Eighty => "Transparency::Eighty"@,
            Transparency::Ninety => "Transparency::Ninety"@,
            Transparency::Opaque => "Transparency::Opaque"@,
        }
    }

    pub fn qualified_name(&self) -> (r: &'static str)
        ensures
            r@ == self.spec_qualified_name(),
    {
        match self {
            Transparency::Full => "Transparency::Full",
            Transparency::Ten => "Transparency::Ten",
            Transparency::Twenty => "Transparency::Twenty",
            Transparency::Thirty => "Transparency::Thirty",
            Transparency::Forty => "Transparency::Forty",
            Transparency::Fifty => "Transparency::Fifty",
            Transparency::Sixty => "Transparency::Sixty",
            Transparency::Seventy => "Transparency::Seventy",
            Transparency::Eighty => "Transparency::Eighty",
            Transparency::Ninety => "Transparency::Ninety",
            Transparency::Opaque => "Transparency::Opaque",
        }
    }

    /// The bare, display-style name of the variant.
    pub open spec fn spec_display_name(self) -> Seq<char> {
        match self {
            Transparency::Full => "Full"@,
            Transparency::Ten => "Ten"@,
            Transparency::Twenty => "Twenty"@,
            Transparency::Thirty => "Thirty"@,
            Transparency::Forty => "Forty"@,
            Transparency::Fifty => "Fifty"@,
            Transparency::Sixty => "Sixty"@,
            Transparency::Seventy => "Seventy"@,
            Transparency::Eighty => "Eighty"@,
            Transparency::Ninety => "Ninety"@,
            Transparency::Opaque => "Opaque"@,
        }
    }

    pub fn display_name(&self) -> (r: &'static str)
        ensures
            r@ == self.spec_display_name(),
    {
        match self {
            Transparency::Full => "Full",
            Transparency::Ten => "Ten",
            Transparency::Twenty => "Twenty",
            Transparency::Thirty => "Thirty",
            Transparency::Forty => "Forty",
            Transparency::Fifty => "Fifty",
            Transparency::Sixty => "Sixty",
            Transparency::Seventy => "Seventy",
            Transparency::Eighty => "Eighty",
            Transparency::Ninety => "Ninety",
            Transparency::Opaque => "Opaque",
        }
    }
}

/// The characters that case folding gives back for a string; a pure
/// function of the characters alone.
pub uninterp spec fn lower_of(s: Seq<char>) -> Seq<char>;

/// Relies on str::to_lowercase: the returned String is the lowercase
/// equivalent of the input, a function of the input's characters alone.
#[verifier::external_body]
fn lowercase(s: &str) -> (r: String)
    ensures
        r@ == lower_of(s@),
{
    s.to_lowercase()
}

/// The acceptance rule for an already case-folded hex color: exactly six
/// characters, each with a codepoint no greater than 'f'. The rule goes
/// by codepoint alone, not by hex-digit membership, so a handful of
/// punctuation characters below 'f' pass it; that looseness is kept
/// deliberately, since an unaccepted color only degrades to a sentinel.
pub open spec fn spec_hex_valid(s: Seq<char>) -> bool {
    s.len() == 6 && forall|i: int| 0 <= i < s.len() ==> (#[trigger] s[i]) as u32 <= 'f' as u32
}

/// A background color: a six-character hex string, an RGB triple, or an
/// RGB triple with a discrete alpha level.
#[derive(Debug, PartialEq, Eq, PartialOrd, Ord, Clone, Copy)]
pub enum PuppetColor {
    Hex(&'static str),
    Rgb(u8, u8, u8),
    Rgba(u8, u8, u8, Transparency),
}

impl Default for PuppetColor {
    fn default() -> (r: Self)
        ensures
            (r matches PuppetColor::Hex(h) && h@ == "FFFFFF"@),
    {
        PuppetColor::Hex("FFFFFF")
    }
}

impl PuppetColor {
    /// Decides whether a hex color is accepted: it must hold exactly six
    /// characters, each with a codepoint no greater than 'f'.
    pub fn hex_color_constraints(hex_color: &str) -> (r: bool)
        ensures
            r == spec_hex_valid(hex_color@),
    {
        if hex_color.unicode_len() != 6 {
            return false;
        }
        let mut check = true;
        let mut i: usize = 0;
        while i < 6
            invariant
                hex_color@.len() == 6,
                i <= 6,
                check == (forall|j: int|
                    0 <= j < i ==> (#[trigger] hex_color@[j]) as u32 <= 'f' as u32),
            decreases 6 - i,
        {
            let hex_char = hex_color.get_char(i);
            if (hex_char as u32) > ('f' as u32) {
                check = false;
            }
            i += 1;
        }
        check
    }

    /// The CSS text of the color. A hex color is case-folded and held to
    /// the acceptance rule: on success the original characters follow a
    /// "#", on failure the sentinel "INVALID_COLOR" stands in. RGB and
    /// RGBA triples render positionally inside an "rgb(...)" form: the
    /// alpha level, when present, is a fourth positional value, and the
    /// prefix deliberately stays "rgb(", without a trailing "a".
    pub open spec fn spec_to_html_color(self) -> Seq<char> {
        match self {
            PuppetColor::Hex(hex) => if spec_hex_valid(lower_of(hex@)) {
                "#"@ + hex@
            } else {
                "INVALID_COLOR"@
            },
            PuppetColor::Rgb(r, g, b) => "rgb("@ + spec_dec(r as nat) + ","@ + spec_dec(g as nat)
                + ","@ + spec_dec(b as nat) + ")"@,
            PuppetColor::Rgba(r, g, b, a) => "rgb("@ + spec_dec(r as nat) + ","@ + spec_dec(
                g as nat,
            ) + ","@ + spec_dec(b as nat) + ","@ + a.spec_to_html_alpha() + ")"@,
        }
    }

    pub fn to_html_color(&self) -> (res: String)
        ensures
            res@ == self.spec_to_html_color(),
    {
        match self {
            PuppetColor::Hex(hex_color) => {
                let folded = lowercase(hex_color);
                if PuppetColor::hex_color_constraints(folded.as_str()) {
                    let mut formatted_hex_color = String::from_str("#");
                    formatted_hex_color.append(hex_color);
                    formatted_hex_color
                } else {
                    String::from_str("INVALID_COLOR")
                }
            },
            PuppetColor::Rgb(r, g, b) => {
                let mut s = String::from_str("rgb(");
                let dr = u8_to_dec(*r);
                s.append(dr.as_str());
                s.append(",");
                let dg = u8_to_dec(*g);
                s.append(dg.as_str());
                s.append(",");
                let db = u8_to_dec(*b);
                s.append(db.as_str());
                s.append(")");
                proof {
                    assert(s@ =~= self.spec_to_html_color());
                }
                s
            },
            PuppetColor::Rgba(r, g, b, a) => {
                let mut s = String::from_str("rgb(");
                let dr = u8_to_dec(*r);
                s.append(dr.as_str());
                s.append(",");
                let dg = u8_to_dec(*g);
                s.append(dg.as_str());
                s.append(",");
                let db = u8_to_dec(*b);
                s.append(db.as_str());
                s.append(",");
                let da = a.to_html_alpha();
                s.append(da);
                s.append(")");
                proof {
                    assert(s@ =~= self.spec_to_html_color());
                }
                s
            },
        }
    }

    /// The qualified, debug-style text of the color.
    pub open spec fn spec_qualified_name(self) -> Seq<char> {
        match self {
            PuppetColor::Hex(hex) => if spec_hex_valid(lower_of(hex@)) {
                "PuppetColor::Hex(#"@ + hex@ + ")"@
            } else {
                "PuppetColor::Hex(INVALID_COLOR)"@
            },
            PuppetColor::Rgb(r, g, b) => "PuppetColor::Rgb(rgb("@ + spec_dec(r as nat) + ","@
                + spec_dec(g as nat) + ","@ + spec_dec(b as nat) + "))"@,
            PuppetColor::Rgba(r, g, b, a) => "PuppetColor::Rgba(rgba("@ + spec_dec(r as nat) + ","@
                + spec_dec(g as nat) + ","@ + spec_dec(b as nat) + ","@ + a.spec_display_name()
                + "))"@,
        }
    }

    pub fn qualified_name(&self) -> (res: String)
        ensures
            res@ == self.spec_qualified_name(),
    {
        match self {
            PuppetColor::Hex(hex_color) => {
                let folded = lowercase(hex_color);
                if PuppetColor::hex_color_constraints(folded.as_str()) {
                    let mut s = String::from_str("PuppetColor::Hex(#");
                    s.append(hex_color);
                    s.append(")");
                    proof {
                        assert(s@ =~= self.spec_qualified_name());
                    }
                    s
                } else {
                    String::from_str("PuppetColor::Hex(INVALID_COLOR)")
                }
            },
            PuppetColor::Rgb(r, g, b) => {
                let mut s = String::from_str("PuppetColor::Rgb(rgb(");
                let dr = u8_to_dec(*r);
                s.append(dr.as_str());
                s.append(",");
                let dg = u8_to_dec(*g);
                s.append(dg.as_str());
                s.append(",");
                let db = u8_to_dec(*b);
                s.append(db.as_str());
                s.append("))");
                proof {
                    assert(s@ =~= self.spec_qualified_name());
                }
                s
            },
            PuppetColor::Rgba(r, g, b, a) => {
                let mut s = String::from_str("PuppetColor::Rgba(rgba(");
                let dr = u8_to_dec(*r);
                s.append(dr.as_str());
                s.append(",");
                let dg = u8_to_dec(*g);
                s.append(dg.as_str());
                s.append(",");
                let db = u8_to_dec(*b);
                s.append(db.as_str());
                s.append(",");
                let da = a.display_name();
                s.append(da);
                s.append("))");
                proof {
                    assert(s@ =~= self.spec_qualified_name());
                }
                s
            },
        }
    }

    /// The bare, display-style text of the color: the CSS form, with the
    /// alpha level of an RGBA color written as its qualified name.
    pub open spec fn spec_display_name(self) -> Seq<char> {
        match self {
            PuppetColor::Hex(hex) => if spec_hex_valid(lower_of(hex@)) {
                "#"@ + hex@
            } else {
                "INVALID_COLOR"@
            },
            PuppetColor::Rgb(r, g, b) => "rgb("@ + spec_dec(r as nat) + ","@ + spec_dec(g as nat)
                + ","@ + spec_dec(b as nat) + ")"@,
            PuppetColor::Rgba(r, g, b, a) => "rgb("@ + spec_dec(r as nat) + ","@ + spec_dec(
                g as nat,
            ) + ","@ + spec_dec(b as nat) + ","@ + a.spec_qualified_name() + ")"@,
        }
    }

    pub fn display_name(&self) -> (res: String)
        ensures
            res@ == self.spec_display_name(),
    {
        match self {
            PuppetColor::Hex(hex_color) => {
                let folded = lowercase(hex_color);
                if PuppetColor::hex_color_constraints(folded.as_str()) {
                    let mut s = String::from_str("#");
                    s.append(hex_color);
                    s
                } else {
                    String::from_str("INVALID_COLOR")
                }
            },
            PuppetColor::Rgb(r, g, b) => {
                let mut s = String::from_str("rgb(");
                let dr = u8_to_dec(*r);
                s.append(dr.as_str());
                s.append(",");
                let dg = u8_to_dec(*g);
                s.append(dg.as_str());
                s.append(",");
                let db = u8_to_dec(*b);
                s.append(db.as_str());
                s.append(")");
                proof {
                    assert(s@ =~= self.spec_display_name());
                }
                s
            },
            PuppetColor::Rgba(r, g, b, a) => {
                let mut s = String::from_str("rgb(");
                let dr = u8_to_dec(*r);
                s.append(dr.as_str());
                s.append(",");
                let dg = u8_to_dec(*g);
                s.append(dg.as_str());
                s.append(",");
                let db = u8_to_dec(*b);
                s.append(db.as_str());
                s.append(",");
                let da = a.qualified_name();
                s.append(da);
                s.append(")");
                proof {
                    assert(s@ =~= self.spec_display_name());
                }
                s
            },
        }
    }
}

/// The two textual forms of an alpha level never coincide.
pub proof fn lemma_transparency_names_distinct(a: Transparency, b: Transparency)
    ensures
        a.spec_qualified_name() != b.spec_display_name(),
{
    reveal_strlit("Transparency::Full");
    reveal_strlit("Transparency::Ten");
    reveal_strlit("Transparency::Twenty");
    reveal_strlit("Transparency::Thirty");
    reveal_strlit("Transparency::Forty");
    reveal_strlit("Transparency::Fifty");
    reveal_strlit("Transparency::Sixty");
    reveal_strlit("Transparency::Seventy");
    reveal_strlit("Transparency::Eighty");
    reveal_strlit("Transparency::Ninety");
    reveal_strlit("Transparency::Opaque");
    reveal_strlit("Full");
    reveal_strlit("Ten");
    reveal_strlit("Twenty");
    reveal_strlit("Thirty");
    reveal_strlit("Forty");
    reveal_strlit("Fifty");
    reveal_strlit("Sixty");
    reveal_strlit("Seventy");
    reveal_strlit("Eighty");
    reveal_strlit("Ninety");
    reveal_strlit("Opaque");
    assert(a.spec_qualified_name().len() >= 17);
    assert(b.spec_display_name().len() <= 7);
}

/// The two textual forms of a color never coincide: a qualified name
/// opens with the type's own name, a bare one with a hash, the sentinel,
/// or the "rgb(" form.
pub proof fn lemma_color_names_distinct(a: PuppetColor, b: PuppetColor)
    ensures
        a.spec_qualified_name() != b.spec_display_name(),
{
    reveal_strlit("PuppetColor::Hex(#");
    reveal_strlit("PuppetColor::Hex(INVALID_COLOR)");
    reveal_strlit("PuppetColor::Rgb(rgb(");
    reveal_strlit("PuppetColor::Rgba(rgba(");
    reveal_strlit("#");
    reveal_strlit("INVALID_COLOR");
    reveal_strlit("rgb(");
    assert(a.spec_qualified_name()[0] == 'P');
    assert(b.spec_display_name()[0] == '#' || b.spec_display_name()[0] == 'I'
        || b.spec_display_name()[0] == 'r');
}

} // verus!
