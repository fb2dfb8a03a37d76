//! The order in which fonts are tried for each family of text.

use vstd::prelude::*;

verus! {

/// The font names of the two families, each in the order in which a glyph is
/// looked up: the first font that has the glyph draws it.
#[derive(Debug)]
pub struct FontStacks {
    pub proportional: Vec<String>,
    pub monospace: Vec<String>,
}

/// The names in `stack`, each as its sequence of characters.
pub open spec fn names(stack: Seq<String>) -> Seq<Seq<char>> {
    stack.map_values(|name: String| name@)
}

impl FontStacks {
    /// Makes the font `name` the first choice for proportional text and the
    /// last resort for monospace text. The fonts already listed keep their
    /// order.
    pub fn load_custom_font(&mut self, name: &str)
        ensures
            names(final(self).proportional@) == seq![name@] + names(old(self).proportional@),
            names(final(self).monospace@) == names(old(self).monospace@).push(name@),
    {
        self.proportional.insert(0, name.to_owned());
        self.monospace.push(name.to_owned());
    }
}

} // verus!
