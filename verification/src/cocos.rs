//! The Cocos Studio `.csd` emitter.

use std::collections::hash_map::DefaultHasher;
use std::hash::{Hash, Hasher};
use vstd::prelude::*;
use vstd::std_specs::hash::DefaultHasherAdditionalSpecFns;
use crate::text::{nat_text, int_text, text_eq, i64_text};
use crate::node::{WidgetKind, UiNode};

verus! {

// ───────────────────────────── widget kinds ─────────────────────────────

/// The Cocos Studio `ctype` of a widget named by the page author.
pub open spec fn unknown_ctype_name(name: Seq<char>) -> Seq<char> {
    if name == "PageView"@ {
        "PageViewObjectData"@
    } else if name == "Sprite"@ {
        "SpriteObjectData"@
    } else if name == "TabControl"@ {
        "TabControlObjectData"@
    } else if name == "ProjectNode"@ {
        "ProjectNodeObjectData"@
    } else if name == "Node"@ {
        "SingleNodeObjectData"@
    } else if name == "TextBMFont"@ {
        "TextBMFontObjectData"@
    } else if name == "TextAtlas"@ {
        "TextAtlasObjectData"@
    } else {
        "SingleNodeObjectData"@
    }
}

/// The Cocos Studio `ctype` of a widget kind.
pub open spec fn ctype_name(w: WidgetKind) -> Seq<char> {
    match w {
        WidgetKind::Layout(_) => "PanelObjectData"@,
        WidgetKind::Button => "ButtonObjectData"@,
        WidgetKind::Text => "TextObjectData"@,
        WidgetKind::Image => "ImageViewObjectData"@,
        WidgetKind::ScrollView => "ScrollViewObjectData"@,
        WidgetKind::ListView => "ListViewObjectData"@,
        WidgetKind::TextField => "TextFieldObjectData"@,
        WidgetKind::CheckBox => "CheckBoxObjectData"@,
        WidgetKind::Slider => "SliderObjectData"@,
        WidgetKind::ProgressBar => "LoadingBarObjectData"@,
        WidgetKind::Unknown(name) => unknown_ctype_name(name@),
    }
}

/// Map a widget kind to its Cocos Studio ctype string.
pub fn ctype_for(widget: &WidgetKind) -> (c: &'static str)
    ensures
        c@ == ctype_name(*widget),
{
    match widget {
        WidgetKind::Layout(_) => "PanelObjectData",
        WidgetKind::Button => "ButtonObjectData",
        WidgetKind::Text => "TextObjectData",
        WidgetKind::Image => "ImageViewObjectData",
        WidgetKind::ScrollView => "ScrollViewObjectData",
        WidgetKind::ListView => "ListViewObjectData",
        WidgetKind::TextField => "TextFieldObjectData",
        WidgetKind::CheckBox => "CheckBoxObjectData",
        WidgetKind::Slider => "SliderObjectData",
        WidgetKind::ProgressBar => "LoadingBarObjectData",
        WidgetKind::Unknown(name) => {
            let n = name.as_str();
            if text_eq(n, "PageView") {
                "PageViewObjectData"
            } else if text_eq(n, "Sprite") {
                "SpriteObjectData"
            } else if text_eq(n, "TabControl") {
                "TabControlObjectData"
            } else if text_eq(n, "ProjectNode") {
                "ProjectNodeObjectData"
            } else if text_eq(n, "Node") {
                "SingleNodeObjectData"
            } else if text_eq(n, "TextBMFont") {
                "TextBMFontObjectData"
            } else if text_eq(n, "TextAtlas") {
                "TextAtlasObjectData"
            } else {
                "SingleNodeObjectData"
            }
        },
    }
}

/// Interactive widgets: those that receive touches.
pub open spec fn interactive_kind(w: WidgetKind) -> bool {
    match w {
        WidgetKind::Button | WidgetKind::TextField | WidgetKind::CheckBox | WidgetKind::Slider => true,
        _ => false,
    }
}

/// Returns true for interactive widgets that need TouchEnable="True".
pub fn is_interactive(widget: &WidgetKind) -> (r: bool)
    ensures
        r == interactive_kind(*widget),
        r <==> (*widget is Button || *widget is TextField || *widget is CheckBox || *widget is Slider),
{
    match widget {
        WidgetKind::Button | WidgetKind::TextField | WidgetKind::CheckBox | WidgetKind::Slider => true,
        _ => false,
    }
}

/// Exactly buttons, text fields, check boxes and sliders receive touches; every
/// other widget, images and panels among them, does not.
pub proof fn interactive_widgets_are_the_touch_controls(w: WidgetKind)
    ensures
        interactive_kind(w) <==> (w is Button || w is TextField || w is CheckBox || w is Slider),
        !interactive_kind(WidgetKind::Image),
        !interactive_kind(WidgetKind::Text),
{
}

/// Each widget kind's Cocos Studio type, and the widgets named by the page author:
/// names other than the known ones become a plain node.
pub proof fn ctype_table(w: WidgetKind, name: Seq<char>)
    ensures
        w is Layout ==> ctype_name(w) == "PanelObjectData"@,
        w is Button ==> ctype_name(w) == "ButtonObjectData"@,
        w is Text ==> ctype_name(w) == "TextObjectData"@,
        w is Image ==> ctype_name(w) == "ImageViewObjectData"@,
        w is ScrollView ==> ctype_name(w) == "ScrollViewObjectData"@,
        w is ListView ==> ctype_name(w) == "ListViewObjectData"@,
        w is TextField ==> ctype_name(w) == "TextFieldObjectData"@,
        w is CheckBox ==> ctype_name(w) == "CheckBoxObjectData"@,
        w is Slider ==> ctype_name(w) == "SliderObjectData"@,
        w is ProgressBar ==> ctype_name(w) == "LoadingBarObjectData"@,
        (w matches WidgetKind::Unknown(s) && s@ == name) ==> ctype_name(w) == unknown_ctype_name(name),
        name == "PageView"@ ==> unknown_ctype_name(name) == "PageViewObjectData"@,
        name == "Sprite"@ ==> unknown_ctype_name(name) == "SpriteObjectData"@,
        name == "TabControl"@ ==> unknown_ctype_name(name) == "TabControlObjectData"@,
        name == "ProjectNode"@ ==> unknown_ctype_name(name) == "ProjectNodeObjectData"@,
        name == "Node"@ ==> unknown_ctype_name(name) == "SingleNodeObjectData"@,
        name == "TextBMFont"@ ==> unknown_ctype_name(name) == "TextBMFontObjectData"@,
        name == "TextAtlas"@ ==> unknown_ctype_name(name) == "TextAtlasObjectData"@,
        (name != "PageView"@ && name != "Sprite"@ && name != "TabControl"@ && name != "ProjectNode"@
            && name != "TextBMFont"@ && name != "TextAtlas"@) ==> unknown_ctype_name(name) == "SingleNodeObjectData"@,
{
    reveal_strlit("PageView");
    reveal_strlit("Sprite");
    reveal_strlit("TabControl");
    reveal_strlit("ProjectNode");
    reveal_strlit("Node");
    reveal_strlit("TextBMFont");
    reveal_strlit("TextAtlas");
    assert("PageView"@.len() == 8);
    assert("Sprite"@.len() == 6);
    assert("TabControl"@.len() == 10);
    assert("ProjectNode"@.len() == 11);
    assert("Node"@.len() == 4);
    assert("TextBMFont"@.len() == 10);
    assert("TextAtlas"@.len() == 9);
    assert("TabControl"@[0] != "TextBMFont"@[0] || "TabControl"@[1] != "TextBMFont"@[1]);
}

// ───────────────────────────── progress ─────────────────────────────

/// A percentage limited to 0..=100.
pub open spec fn clamp_percent(p: int) -> int {
    if p < 0 {
        0
    } else if p > 100 {
        100
    } else {
        p
    }
}

/// The `ProgressInfo` text of a progress bar: the rounded percentage, clamped to 0..=100.
pub fn compute_progress_percent(raw: i32) -> (s: String)
    ensures
        s@ == int_text(clamp_percent(raw as int)),
        0 <= clamp_percent(raw as int) <= 100,
        0 <= raw <= 100 ==> s@ == int_text(raw as int),
        raw < 0 ==> s@ == int_text(0),
        raw > 100 ==> s@ == int_text(100),
{
    let p: i32 = if raw < 0 {
        0
    } else if raw > 100 {
        100
    } else {
        raw
    };
    i64_text(p as i64)
}

/// A progress value already within 0..=100 is shown as it is; below 0 it shows
/// as 0 and above 100 as 100.
pub proof fn progress_is_shown_as_given_within_bounds(p: int)
    ensures
        0 <= p <= 100 ==> clamp_percent(p) == p,
        p < 0 ==> clamp_percent(p) == 0,
        p > 100 ==> clamp_percent(p) == 100,
{
}

// ───────────────────────────── action tags ─────────────────────────────

/// The writes that `<str as Hash>::hash` makes into a hasher, for a given text.
pub uninterp spec fn str_hash_writes(s: Seq<char>) -> Seq<Seq<u8>>;

/// Feeds `name` into `hasher` with `<str as Hash>::hash`.
///
/// The contract claims that what the call appends to the hasher's record of
/// writes depends on the characters of `name` alone (it is named
/// `str_hash_writes`); which bytes those are is left unsaid.
#[verifier::external_body]
fn hash_str(name: &str, hasher: &mut DefaultHasher)
    ensures
        final(hasher)@ == old(hasher)@ + str_hash_writes(name@),
{
    name.hash(hasher)
}

/// The hash of a name, as a fresh `DefaultHasher` gives it after the name was fed in.
pub open spec fn name_hash(name: Seq<char>) -> u64 {
    DefaultHasher::spec_finish(str_hash_writes(name))
}

/// The ActionTag that a hash value gives: its low 31 bits, negated.
pub open spec fn action_tag_of_hash(h: u64) -> int {
    -((h % 0x8000_0000) as int)
}

/// The ActionTag of a node name.
pub open spec fn action_tag_of_name(name: Seq<char>) -> int {
    action_tag_of_hash(name_hash(name))
}

/// ActionTag from a hash value: the low 31 bits, negated.
pub fn action_tag_from_hash(h: u64) -> (tag: i32)
    ensures
        tag == action_tag_of_hash(h),
        -0x7FFF_FFFF <= tag <= 0,
{
    let low = h & 0x7FFF_FFFF;
    assert(low == h % 0x8000_0000) by (bit_vector)
        requires
            low == h & 0x7FFF_FFFF,
    ;
    let l: i32 = low as i32;
    -l
}

/// Deterministic ActionTag from node name using hash.
pub fn action_tag_from_name(name: &str) -> (tag: i32)
    ensures
        tag == action_tag_of_name(name@),
        -0x7FFF_FFFF <= tag <= 0,
{
    let mut hasher = DefaultHasher::new();
    hash_str(name, &mut hasher);
    assert(hasher@ =~= str_hash_writes(name@));
    let h = hasher.finish();
    action_tag_from_hash(h)
}

/// Equal names get equal ActionTags, and every ActionTag lies in `-(2^31 - 1)..=0`.
pub proof fn action_tag_is_deterministic(a: Seq<char>, b: Seq<char>)
    requires
        a == b,
    ensures
        action_tag_of_name(a) == action_tag_of_name(b),
        -0x7FFF_FFFF <= action_tag_of_name(a) <= 0,
        action_tag_of_name(a) == -((name_hash(a) % 0x8000_0000) as int),
{
}

// ───────────────────────────── project id ─────────────────────────────

/// A lower-case hexadecimal digit.
pub open spec fn is_lower_hex(c: char) -> bool {
    (48 <= (c as u32) <= 57) || (97 <= (c as u32) <= 102)
}

/// Text of a random (version 4) UUID in hyphenated lower-case form,
/// `xxxxxxxx-xxxx-4xxx-Nxxx-xxxxxxxxxxxx` with `N` one of `8`, `9`, `a`, `b`.
pub open spec fn is_uuid_v4_text(s: Seq<char>) -> bool {
    &&& s.len() == 36
    &&& forall|i: int| 0 <= i < 36 ==> (if i == 8 || i == 13 || i == 18 || i == 23 {
        #[trigger] s[i] == '-'
    } else {
        is_lower_hex(s[i])
    })
    &&& s[14] == '4'
    &&& (s[19] == '8' || s[19] == '9' || s[19] == 'a' || s[19] == 'b')
}

/// A fresh project ID: `uuid::Uuid::new_v4()` rendered with `to_string`.
///
/// `new_v4` takes 128 random bits and sets the version nibble to 4 and the
/// variant bits to `10`; `Display` renders the hyphenated lower-case form.
/// The contract states that shape; which digits come out is left unsaid, as
/// they are random. (`new_v4` panics only when the system offers no random bytes.)
#[verifier::external_body]
pub(crate) fn new_project_id() -> (id: String)
    ensures
        is_uuid_v4_text(id@),
{
    uuid::Uuid::new_v4().to_string()
}

} // verus!
