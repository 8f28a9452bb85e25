use vstd::prelude::*;
use crate::styles::PuppetStyle;

verus! {

/// The kind of a leaf visual element.
#[derive(Debug, PartialEq, Eq, PartialOrd, Ord, Clone, Copy)]
pub enum ComponentType {
    Button,
    Paragraph,
    Heading,
    Image,
    Link,
}

/// A leaf visual unit: an opaque element the tree composes but does not
/// further decompose.
#[derive(Debug, PartialEq, Eq, Clone, Copy)]
pub struct Component {
    pub component_type: ComponentType,
    pub style: PuppetStyle,
    /// For images, text is used for information
    pub text: &'static str,
}

/// The spec-level value of a component.
pub struct ComponentV {
    pub component_type: ComponentType,
    pub style: PuppetStyle,
    pub text: Seq<char>,
}

impl View for Component {
    type V = ComponentV;

    open spec fn view(&self) -> ComponentV {
        ComponentV {
            component_type: self.component_type,
            style: self.style,
            text: self.text@,
        }
    }
}

impl Component {
    /// A component of the given kind and text, under the default style.
    pub fn new(component_type: ComponentType, text: &'static str) -> (c: Self)
        ensures
            c@.component_type == component_type,
            c@.style == PuppetStyle::spec_default(),
            c@.text == text@,
    {
        Component { component_type, style: PuppetStyle::default(), text }
    }

    /// Replaces the component's style.
    pub fn set_style(&mut self, style: &PuppetStyle)
        ensures
            final(self)@.style == *style,
            final(self)@.component_type == old(self)@.component_type,
            final(self)@.text == old(self)@.text,
    {
        self.style = *style;
    }
}

} // verus!
