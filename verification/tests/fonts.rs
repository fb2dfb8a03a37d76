use scene_demos::fonts::FontStacks;

fn strings(names: &[&str]) -> Vec<String> {
    names.iter().map(|name| name.to_string()).collect()
}

#[test]
fn custom_font_leads_proportional_and_ends_monospace() {
    let mut stacks = FontStacks {
        proportional: strings(&["Ubuntu-Light", "NotoEmoji-Regular", "emoji-icon-font"]),
        monospace: strings(&["Hack", "Ubuntu-Light", "NotoEmoji-Regular", "emoji-icon-font"]),
    };
    stacks.load_custom_font("apple");
    assert_eq!(
        stacks.proportional,
        strings(&["apple", "Ubuntu-Light", "NotoEmoji-Regular", "emoji-icon-font"])
    );
    assert_eq!(
        stacks.monospace,
        strings(&["Hack", "Ubuntu-Light", "NotoEmoji-Regular", "emoji-icon-font", "apple"])
    );
}

#[test]
fn custom_font_in_empty_stacks() {
    let mut stacks = FontStacks { proportional: Vec::new(), monospace: Vec::new() };
    stacks.load_custom_font("apple");
    assert_eq!(stacks.proportional, strings(&["apple"]));
    assert_eq!(stacks.monospace, strings(&["apple"]));
}

#[test]
fn loading_twice_lists_the_font_twice() {
    let mut stacks = FontStacks { proportional: strings(&["a"]), monospace: strings(&["b"]) };
    stacks.load_custom_font("x");
    stacks.load_custom_font("y");
    assert_eq!(stacks.proportional, strings(&["y", "x", "a"]));
    assert_eq!(stacks.monospace, strings(&["b", "x", "y"]));
}

#[test]
fn font_names_outside_ascii_are_kept() {
    let mut stacks = FontStacks { proportional: strings(&["a"]), monospace: Vec::new() };
    stacks.load_custom_font("苹方");
    assert_eq!(stacks.proportional, strings(&["苹方", "a"]));
    assert_eq!(stacks.monospace, strings(&["苹方"]));
}
