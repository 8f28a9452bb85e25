use puppet::{
    AlignContent, AlignItems, AlignSelf, FlexDirection, FlexGap, FlexWrap, JustifyContent,
    PuppetColor, PuppetLength, PuppetUnit, Transparency,
};

#[test]
fn zero_units_are_auto() {
    assert_eq!(PuppetUnit::Pixels(0).to_html_units(), "auto");
    assert_eq!(PuppetUnit::Percentage(0).to_html_units(), "auto");
}

#[test]
fn positive_units_carry_their_suffix() {
    assert_eq!(PuppetUnit::Pixels(1).to_html_units(), "1px");
    assert_eq!(PuppetUnit::Pixels(50).to_html_units(), "50px");
    assert_eq!(PuppetUnit::Pixels(65535).to_html_units(), "65535px");
    assert_eq!(PuppetUnit::Percentage(2).to_html_units(), "2%");
    assert_eq!(PuppetUnit::Percentage(100).to_html_units(), "100%");
    assert_eq!(PuppetUnit::Percentage(255).to_html_units(), "255%");
}

#[test]
fn length_table_is_fixed() {
    assert_eq!(PuppetLength::ViewPortWidth.to_html_units(), "100vw");
    assert_eq!(PuppetLength::ViewPortHeight.to_html_units(), "100vh");
    assert_eq!(PuppetLength::Full.to_html_units(), "100%");
    assert_eq!(PuppetLength::ThreeQuarter.to_html_units(), "75%");
    assert_eq!(PuppetLength::Half.to_html_units(), "50%");
    assert_eq!(PuppetLength::Quarter.to_html_units(), "25%");
    assert_eq!(PuppetLength::Eighth.to_html_units(), "12.5%");
    assert_eq!(PuppetLength::Normal.to_html_units(), "auto");
}

#[test]
fn length_table_has_no_duplicates() {
    let all = [
        PuppetLength::ViewPortWidth,
        PuppetLength::ViewPortHeight,
        PuppetLength::Full,
        PuppetLength::ThreeQuarter,
        PuppetLength::Half,
        PuppetLength::Quarter,
        PuppetLength::Eighth,
        PuppetLength::Normal,
    ];
    for a in all.iter() {
        for b in all.iter() {
            if a != b {
                assert_ne!(a.to_html_units(), b.to_html_units());
            }
        }
    }
}

#[test]
fn hex_constraints_accept_six_low_codepoints() {
    assert!(PuppetColor::hex_color_constraints("ffffff"));
    assert!(PuppetColor::hex_color_constraints("abcdef"));
    assert!(PuppetColor::hex_color_constraints("012345"));
    assert!(PuppetColor::hex_color_constraints("ABCDEF"));
}

#[test]
fn hex_constraints_reject_wrong_length_or_high_codepoints() {
    assert!(!PuppetColor::hex_color_constraints("12345"));
    assert!(!PuppetColor::hex_color_constraints("1234567"));
    assert!(!PuppetColor::hex_color_constraints(""));
    assert!(!PuppetColor::hex_color_constraints("zzzzzz"));
    assert!(!PuppetColor::hex_color_constraints("gggggg"));
    assert!(!PuppetColor::hex_color_constraints("fffffz"));
}

#[test]
fn hex_colors_fold_before_the_check() {
    assert_eq!(PuppetColor::Hex("ffffff").to_html_color(), "#ffffff");
    assert_eq!(PuppetColor::Hex("AAAAAA").to_html_color(), "#AAAAAA");
    assert_eq!(PuppetColor::Hex("FFFFFF").to_html_color(), "#FFFFFF");
}

#[test]
fn invalid_hex_colors_degrade_to_the_sentinel() {
    assert_eq!(PuppetColor::Hex("12345").to_html_color(), "INVALID_COLOR");
    assert_eq!(PuppetColor::Hex("zzzzzz").to_html_color(), "INVALID_COLOR");
    // 'Z' itself sits below 'f', so this rejection shows that case folding
    // really ran before the check.
    assert_eq!(PuppetColor::Hex("ZZZZZZ").to_html_color(), "INVALID_COLOR");
}

#[test]
fn rgb_serializes_positionally() {
    assert_eq!(PuppetColor::Rgb(10, 20, 30).to_html_color(), "rgb(10,20,30)");
    assert_eq!(PuppetColor::Rgb(0, 0, 0).to_html_color(), "rgb(0,0,0)");
    assert_eq!(
        PuppetColor::Rgb(255, 255, 255).to_html_color(),
        "rgb(255,255,255)"
    );
}

#[test]
fn rgba_keeps_the_rgb_prefix_and_adds_the_alpha() {
    assert_eq!(
        PuppetColor::Rgba(1, 2, 3, Transparency::Fifty).to_html_color(),
        "rgb(1,2,3,0.5)"
    );
    assert_eq!(
        PuppetColor::Rgba(255, 0, 9, Transparency::Opaque).to_html_color(),
        "rgb(255,0,9,1)"
    );
}

#[test]
fn transparency_steps_are_fixed_decimals() {
    assert_eq!(Transparency::Full.to_html_alpha(), "0");
    assert_eq!(Transparency::Ten.to_html_alpha(), "0.1");
    assert_eq!(Transparency::Twenty.to_html_alpha(), "0.2");
    assert_eq!(Transparency::Thirty.to_html_alpha(), "0.3");
    assert_eq!(Transparency::Forty.to_html_alpha(), "0.4");
    assert_eq!(Transparency::Fifty.to_html_alpha(), "0.5");
    assert_eq!(Transparency::Sixty.to_html_alpha(), "0.6");
    assert_eq!(Transparency::Seventy.to_html_alpha(), "0.7");
    assert_eq!(Transparency::Eighty.to_html_alpha(), "0.8");
    assert_eq!(Transparency::Ninety.to_html_alpha(), "0.9");
    assert_eq!(Transparency::Opaque.to_html_alpha(), "1");
}

#[test]
fn defaults_of_the_alignment_enums() {
    assert_eq!(FlexDirection::default(), FlexDirection::Row);
    assert_eq!(FlexWrap::default(), FlexWrap::Wrap);
    assert_eq!(JustifyContent::default(), JustifyContent::Center);
    assert_eq!(AlignSelf::default(), AlignSelf::Center);
    assert_eq!(AlignItems::default(), AlignItems::Center);
    assert_eq!(AlignContent::default(), AlignContent::Center);
    assert_eq!(FlexGap::default(), FlexGap::Row(PuppetUnit::Pixels(2)));
    assert_eq!(Transparency::default(), Transparency::Opaque);
    assert_eq!(PuppetColor::default(), PuppetColor::Hex("FFFFFF"));
}

#[test]
fn qualified_and_display_names_stay_distinct() {
    assert_eq!(FlexDirection::Row.qualified_name(), "FlexDirection::Row");
    assert_eq!(FlexDirection::Row.display_name(), "Row");
    assert_eq!(FlexWrap::NoWrap.qualified_name(), "FlexWrap::NoWrap");
    assert_eq!(FlexWrap::NoWrap.display_name(), "NoWrap");
    assert_eq!(
        JustifyContent::SpaceBetween.qualified_name(),
        "JustifyContent::SpaceBetween"
    );
    assert_eq!(JustifyContent::SpaceBetween.display_name(), "SpaceBetween");
    assert_eq!(AlignSelf::Baseline.qualified_name(), "AlignSelf::Baseline");
    assert_eq!(AlignSelf::Baseline.display_name(), "Baseline");
    assert_eq!(AlignItems::Stretch.qualified_name(), "AlignItems::Stretch");
    assert_eq!(AlignItems::Stretch.display_name(), "Stretch");
    assert_eq!(
        AlignContent::SpaceAround.qualified_name(),
        "AlignContent::SpaceAround"
    );
    assert_eq!(AlignContent::SpaceAround.display_name(), "SpaceAround");
    assert_eq!(
        Transparency::Ninety.qualified_name(),
        "Transparency::Ninety"
    );
    assert_eq!(Transparency::Ninety.display_name(), "Ninety");
    assert_eq!(
        PuppetLength::Half.qualified_name(),
        "PuppetLength::Half"
    );
    assert_eq!(PuppetLength::Half.display_name(), "Half");
}

#[test]
fn names_of_the_payload_types() {
    assert_eq!(
        PuppetUnit::Pixels(5).qualified_name(),
        "PuppetUnit::Pixels(5)"
    );
    assert_eq!(
        PuppetUnit::Percentage(0).qualified_name(),
        "PuppetUnit::Percentage(0)"
    );
    assert_eq!(PuppetUnit::Pixels(0).display_name(), "0px");
    assert_eq!(PuppetUnit::Percentage(12).display_name(), "12%");
    assert_eq!(
        FlexGap::Row(PuppetUnit::Pixels(2)).qualified_name(),
        "FlexGap::Row(PuppetUnit::Pixels(2))"
    );
    assert_eq!(
        FlexGap::Column(PuppetUnit::Percentage(3)).display_name(),
        "Column(PuppetUnit::Percentage(3))"
    );
    assert_eq!(
        PuppetColor::Hex("AAAAAA").qualified_name(),
        "PuppetColor::Hex(#AAAAAA)"
    );
    assert_eq!(
        PuppetColor::Hex("no").qualified_name(),
        "PuppetColor::Hex(INVALID_COLOR)"
    );
    assert_eq!(
        PuppetColor::Rgb(1, 2, 3).qualified_name(),
        "PuppetColor::Rgb(rgb(1,2,3))"
    );
    assert_eq!(
        PuppetColor::Rgba(1, 2, 3, Transparency::Ten).qualified_name(),
        "PuppetColor::Rgba(rgba(1,2,3,Ten))"
    );
    assert_eq!(PuppetColor::Hex("ffffff").display_name(), "#ffffff");
    assert_eq!(PuppetColor::Rgb(9, 8, 7).display_name(), "rgb(9,8,7)");
    assert_eq!(
        PuppetColor::Rgba(4, 5, 6, Transparency::Opaque).display_name(),
        "rgb(4,5,6,Transparency::Opaque)"
    );
}
