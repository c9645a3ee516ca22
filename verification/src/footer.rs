//! The keys that the footer of the file transfer screen names, each with what it does.

use vstd::prelude::*;
use vstd::string::*;
use crate::keybinding::{binding_text, KeyBinding};
use crate::keybindings::KeyBindings;
use crate::text::{to_uppercase, uppercased};

verus! {

/// A key as the footer shows it: in capitals.
pub open spec fn key_caption(binding: KeyBinding) -> Seq<char> {
    uppercased(binding_text(binding))
}

/// A key as the footer names it: in capitals, between angle brackets.
pub open spec fn key_label(binding: KeyBinding) -> Seq<char> {
    "<"@ + key_caption(binding) + ">"@
}

/// What the footer shows: each key with what it does, in the order shown. With key
/// bindings, the keys are those bound; without, the keys of the default bindings
/// together with the function keys that do the same.
pub open spec fn footer_items(keybindings: Option<KeyBindings>) -> Seq<(Seq<char>, Seq<char>)> {
    match keybindings {
        Some(kb) => seq![
            (key_label(kb.global.help), " Help "@),
            (key_label(kb.explorer.change_panel), " Tab "@),
            (key_label(kb.explorer.transfer_file), " Transfer "@),
            (key_label(kb.explorer.enter_dir), " Enter "@),
            (key_label(kb.explorer.save_as), " Save "@),
            (key_label(kb.explorer.open_file), " Open "@),
            (key_label(kb.explorer.edit_file), " Edit "@),
            (key_label(kb.explorer.copy_file), " Copy "@),
            (key_label(kb.explorer.rename_file), " Rename "@),
            (key_label(kb.explorer.mkdir), " Mkdir "@),
            (key_label(kb.explorer.delete_file), " Del "@),
            (key_label(kb.global.quit), " Quit "@),
        ],
        None => seq![
            ("<F1|H>"@, " Help "@),
            ("<TAB>"@, " Change tab "@),
            ("<SPACE>"@, " Transfer "@),
            ("<ENTER>"@, " Enter dir "@),
            ("<F2|S>"@, " Save as "@),
            ("<F3|V>"@, " View "@),
            ("<F4|O>"@, " Edit "@),
            ("<F5|C>"@, " Copy "@),
            ("<F6|R>"@, " Rename "@),
            ("<F7|D>"@, " Make dir "@),
            ("<F8|DEL>"@, " Delete "@),
            ("<F10|Q>"@, " Quit "@),
        ],
    }
}

/// Format a keybinding for display
pub fn format_key(binding: &KeyBinding) -> (r: String)
    ensures
        r@ == key_caption(*binding),
{
    to_uppercase(binding.to_string().as_str())
}

/// `binding` as the footer names it, with what it does.
fn bound_item(binding: &KeyBinding, does: &str) -> (r: (String, String))
    ensures
        r.deep_view() == (key_label(*binding), does@),
{
    let mut label = "<".to_string();
    label.append(format_key(binding).as_str());
    label.append(">");
    (label, does.to_string())
}

/// The key `label` with what it does.
fn fixed_item(label: &str, does: &str) -> (r: (String, String))
    ensures
        r.deep_view() == (label@, does@),
{
    (label.to_string(), does.to_string())
}

/// What the footer shows: each key with what it does, in the order shown.
pub fn footer(keybindings: Option<&KeyBindings>) -> (r: Vec<(String, String)>)
    ensures
        r.deep_view() == footer_items(
            match keybindings {
                Some(kb) => Some(*kb),
                None => None,
            },
        ),
{
    let mut items: Vec<(String, String)> = Vec::new();
    match keybindings {
        Some(kb) => {
            let global = &kb.global;
            let explorer = &kb.explorer;
            items.push(bound_item(&global.help, " Help "));
            items.push(bound_item(&explorer.change_panel, " Tab "));
            items.push(bound_item(&explorer.transfer_file, " Transfer "));
            items.push(bound_item(&explorer.enter_dir, " Enter "));
            items.push(bound_item(&explorer.save_as, " Save "));
            items.push(bound_item(&explorer.open_file, " Open "));
            items.push(bound_item(&explorer.edit_file, " Edit "));
            items.push(bound_item(&explorer.copy_file, " Copy "));
            items.push(bound_item(&explorer.rename_file, " Rename "));
            items.push(bound_item(&explorer.mkdir, " Mkdir "));
            items.push(bound_item(&explorer.delete_file, " Del "));
            items.push(bound_item(&global.quit, " Quit "));
            assert(items.deep_view() =~= footer_items(Some(*kb)));
        },
        None => {
            items.push(fixed_item("<F1|H>", " Help "));
            items.push(fixed_item("<TAB>", " Change tab "));
            items.push(fixed_item("<SPACE>", " Transfer "));
            items.push(fixed_item("<ENTER>", " Enter dir "));
            items.push(fixed_item("<F2|S>", " Save as "));
            items.push(fixed_item("<F3|V>", " View "));
            items.push(fixed_item("<F4|O>", " Edit "));
            items.push(fixed_item("<F5|C>", " Copy "));
            items.push(fixed_item("<F6|R>", " Rename "));
            items.push(fixed_item("<F7|D>", " Make dir "));
            items.push(fixed_item("<F8|DEL>", " Delete "));
            items.push(fixed_item("<F10|Q>", " Quit "));
            assert(items.deep_view() =~= footer_items(None));
        },
    }
    items
}

} // verus!
