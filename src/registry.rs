//! The catalog of known options: for each `(category, key)`, the kind of
//! value it takes.

use vstd::prelude::*;
use crate::text::{contains_seq, contains_str, same_text};

verus! {

/// The kind of value an option takes.
#[derive(Clone, Copy, PartialEq, Eq, Structural, Debug)]
pub enum OptionKind {
    Bool,
    Int,
    Float,
    Color,
    Text,
    Choice,
}

/// One known option, with the label the settings pages show for it.
/// `choices` lists the values of a `Choice` option and is empty for the other
/// kinds.
pub struct OptionDescriptor {
    pub category: &'static str,
    pub key: &'static str,
    pub label: &'static str,
    pub kind: OptionKind,
    pub choices: Vec<&'static str>,
}

/// Whether `d` is the option `key` of `category`.
pub open spec fn describes(d: OptionDescriptor, category: Seq<char>, key: Seq<char>) -> bool {
    d.category@ == category && d.key@ == key
}

/// The kind that the catalog gives `(category, key)`: that of its first entry
/// for it, and free text for a key it does not know.
pub open spec fn kind_in(catalog: Seq<OptionDescriptor>, category: Seq<char>, key: Seq<char>) -> OptionKind
    decreases catalog.len(),
{
    if catalog.len() == 0 {
        OptionKind::Text
    } else if describes(catalog[0], category, key) {
        catalog[0].kind
    } else {
        kind_in(catalog.drop_first(), category, key)
    }
}

/// The positions among the first `n` entries that belong to `category`.
pub open spec fn page_positions(catalog: Seq<OptionDescriptor>, category: Seq<char>, n: int) -> Seq<usize>
    decreases n,
{
    if n <= 0 {
        Seq::empty()
    } else if catalog[n - 1].category@ == category {
        page_positions(catalog, category, n - 1).push((n - 1) as usize)
    } else {
        page_positions(catalog, category, n - 1)
    }
}

/// The positions of the options that the settings page of `category`
/// shows, in catalog order; none for a category the catalog does not know.
pub fn page_options(catalog: &Vec<OptionDescriptor>, category: &str) -> (r: Vec<usize>)
    ensures
        r@ == page_positions(catalog@, category@, catalog@.len() as int),
{
    let mut out: Vec<usize> = Vec::new();
    let mut i: usize = 0;
    while i < catalog.len()
        invariant
            0 <= i <= catalog@.len(),
            out@ == page_positions(catalog@, category@, i as int),
        decreases catalog@.len() - i,
    {
        if same_text(catalog[i].category, category) {
            out.push(i);
        }
        i = i + 1;
    }
    out
}

/// The position of the first entry of `catalog` for `(category, key)`, if any.
pub fn describe(catalog: &Vec<OptionDescriptor>, category: &str, key: &str) -> (r: Option<usize>)
    ensures
        match r {
            Some(i) => i < catalog@.len() && describes(catalog@[i as int], category@, key@)
                && forall|j: int| 0 <= j < i ==> !describes(#[trigger] catalog@[j], category@, key@),
            None => forall|j: int|
                0 <= j < catalog@.len() ==> !describes(#[trigger] catalog@[j], category@, key@),
        },
{
    let mut i: usize = 0;
    while i < catalog.len()
        invariant
            0 <= i <= catalog@.len(),
            forall|j: int| 0 <= j < i ==> !describes(#[trigger] catalog@[j], category@, key@),
        decreases catalog@.len() - i,
    {
        if same_text(catalog[i].category, category) && same_text(catalog[i].key, key) {
            return Some(i);
        }
        i = i + 1;
    }
    None
}

/// Looking up the first entry gives the kind that `kind_in` names.
proof fn lemma_kind_in(catalog: Seq<OptionDescriptor>, category: Seq<char>, key: Seq<char>, i: int)
    requires
        0 <= i <= catalog.len(),
        forall|j: int| 0 <= j < i ==> !describes(#[trigger] catalog[j], category, key),
    ensures
        kind_in(catalog, category, key) == kind_in(catalog.subrange(i, catalog.len() as int), category, key),
    decreases i,
{
    if i > 0 {
        lemma_kind_in(catalog, category, key, i - 1);
        let t = catalog.subrange(i - 1, catalog.len() as int);
        assert(t[0] == catalog[i - 1]);
        assert(t.drop_first() == catalog.subrange(i, catalog.len() as int));
    } else {
        assert(catalog.subrange(0, catalog.len() as int) == catalog);
    }
}

/// The kind of value that `(category, key)` takes; free text when the catalog
/// does not know it.
pub fn kind_of(catalog: &Vec<OptionDescriptor>, category: &str, key: &str) -> (r: OptionKind)
    ensures
        r == kind_in(catalog@, category@, key@),
{
    let found = describe(catalog, category, key);
    match found {
        Some(i) => {
            proof {
                lemma_kind_in(catalog@, category@, key@, i as int);
                let t = catalog@.subrange(i as int, catalog@.len() as int);
                assert(t[0] == catalog@[i as int]);
            }
            catalog[i].kind
        },
        None => {
            proof {
                lemma_kind_in(catalog@, category@, key@, catalog@.len() as int);
            }
            OptionKind::Text
        },
    }
}

/// The text of `s` in lower case, as `str::to_lowercase` gives it.
pub uninterp spec fn lower_of(s: Seq<char>) -> Seq<char>;

/// Relies on `str::to_lowercase`: the result depends on the characters
/// alone, and the empty string stays empty.
#[verifier::external_body]
fn lowercase(s: &str) -> (r: String)
    ensures
        r@ == lower_of(s@),
        s@.len() == 0 ==> r@.len() == 0,
{
    s.to_lowercase()
}

/// Whether a search for `query` shows `d`: its label holds the query,
/// ignoring case. An empty query shows every option.
pub open spec fn shown_by(d: OptionDescriptor, query: Seq<char>) -> bool {
    contains_seq(lower_of(d.label@), lower_of(query))
}

/// A search for a query that folds to nothing shows every option.
pub proof fn lemma_empty_query_shows_all(d: OptionDescriptor, query: Seq<char>)
    requires
        lower_of(query).len() == 0,
    ensures
        shown_by(d, query),
{
    let l = lower_of(d.label@);
    assert(l.subrange(0, 0 + lower_of(query).len() as int) =~= lower_of(query));
}

/// The positions among the first `n` entries that a search for `query` shows.
pub open spec fn search_hits(catalog: Seq<OptionDescriptor>, query: Seq<char>, n: int) -> Seq<usize>
    decreases n,
{
    if n <= 0 {
        Seq::empty()
    } else if shown_by(catalog[n - 1], query) {
        search_hits(catalog, query, n - 1).push((n - 1) as usize)
    } else {
        search_hits(catalog, query, n - 1)
    }
}

/// The positions of the options that a search for `query` shows, in
/// catalog order.
pub fn search(catalog: &Vec<OptionDescriptor>, query: &str) -> (r: Vec<usize>)
    ensures
        r@ == search_hits(catalog@, query@, catalog@.len() as int),
{
    let q = lowercase(query);
    proof {
        if query@.len() == 0 {
            assert forall|d: OptionDescriptor| shown_by(d, query@) by {
                lemma_empty_query_shows_all(d, query@);
            }
        }
    }
    let mut out: Vec<usize> = Vec::new();
    let mut i: usize = 0;
    while i < catalog.len()
        invariant
            0 <= i <= catalog@.len(),
            q@ == lower_of(query@),
            out@ == search_hits(catalog@, query@, i as int),
        decreases catalog@.len() - i,
    {
        let label = lowercase(catalog[i].label);
        if contains_str(label.as_str(), q.as_str()) {
            out.push(i);
        }
        i = i + 1;
    }
    out
}

/// A catalog entry over characters: category, key, label, kind, choices.
pub type DescriptorView = (Seq<char>, Seq<char>, Seq<char>, OptionKind, Seq<Seq<char>>);

pub open spec fn descriptor_view(d: OptionDescriptor) -> DescriptorView {
    (d.category@, d.key@, d.label@, d.kind, d.choices@.map_values(|c: &str| c@))
}

pub open spec fn descriptor_views(s: Seq<OptionDescriptor>) -> Seq<DescriptorView> {
    s.map_values(|d: OptionDescriptor| descriptor_view(d))
}

/// Every option that the settings pages offer, page by page.
pub open spec fn catalog_table() -> Seq<DescriptorView> {
    seq![
        ("general"@, "layout"@, "Layout"@, OptionKind::Choice, seq!["dwindle"@, "master"@]),
        ("general"@, "gaps_in"@, "Gaps In"@, OptionKind::Int, seq![]),
        ("general"@, "gaps_out"@, "Gaps Out"@, OptionKind::Int, seq![]),
        ("general"@, "gaps_workspaces"@, "Workspace Gaps"@, OptionKind::Int, seq![]),
        ("general"@, "border_size"@, "Border Size"@, OptionKind::Int, seq![]),
        ("general"@, "resize_corner"@, "Resize Corner"@, OptionKind::Int, seq![]),
        ("general"@, "no_border_on_floating"@, "No Border on Floating"@, OptionKind::Bool, seq![]),
        ("general"@, "resize_on_border"@, "Resize on Border"@, OptionKind::Bool, seq![]),
        ("general"@, "extend_border_grab_area"@, "Extend Border Grab Area"@, OptionKind::Int, seq![]),
        ("general"@, "hover_icon_on_border"@, "Hover Icon on Border"@, OptionKind::Bool, seq![]),
        ("general"@, "col.inactive_border"@, "Inactive Border Color"@, OptionKind::Color, seq![]),
        ("general"@, "col.active_border"@, "Active Border Color"@, OptionKind::Color, seq![]),
        ("general"@, "col.nogroup_border"@, "No Group Border Color"@, OptionKind::Color, seq![]),
        ("general"@, "col.nogroup_border_active"@, "No Group Active Border Color"@, OptionKind::Color, seq![]),
        ("decoration"@, "rounding"@, "Rounding"@, OptionKind::Int, seq![]),
        ("decoration"@, "active_opacity"@, "Active Opacity"@, OptionKind::Float, seq![]),
        ("decoration"@, "inactive_opacity"@, "Inactive Opacity"@, OptionKind::Float, seq![]),
        ("decoration"@, "fullscreen_opacity"@, "Fullscreen Opacity"@, OptionKind::Float, seq![]),
        ("decoration"@, "drop_shadow"@, "Drop Shadow"@, OptionKind::Bool, seq![]),
        ("decoration"@, "shadow_range"@, "Shadow Range"@, OptionKind::Int, seq![]),
        ("decoration"@, "shadow_render_power"@, "Shadow Render Power"@, OptionKind::Int, seq![]),
        ("decoration"@, "shadow_ignore_window"@, "Shadow Ignore Window"@, OptionKind::Bool, seq![]),
        ("decoration"@, "col.shadow"@, "Shadow Color"@, OptionKind::Color, seq![]),
        ("decoration"@, "col.shadow_inactive"@, "Inactive Shadow Color"@, OptionKind::Color, seq![]),
        ("decoration"@, "shadow_offset"@, "Shadow Offset"@, OptionKind::Text, seq![]),
        ("decoration"@, "shadow_scale"@, "Shadow Scale"@, OptionKind::Float, seq![]),
        ("decoration"@, "dim_inactive"@, "Dim Inactive"@, OptionKind::Bool, seq![]),
        ("decoration"@, "dim_strength"@, "Dim Strength"@, OptionKind::Float, seq![]),
        ("decoration"@, "dim_special"@, "Dim Special"@, OptionKind::Float, seq![]),
        ("decoration"@, "dim_around"@, "Dim Around"@, OptionKind::Float, seq![]),
        ("decoration"@, "screen_shader"@, "Screen Shader"@, OptionKind::Text, seq![]),
        ("decoration"@, "blur:enabled"@, "Blur Enabled"@, OptionKind::Bool, seq![]),
        ("decoration"@, "blur:size"@, "Blur Size"@, OptionKind::Int, seq![]),
        ("decoration"@, "blur:passes"@, "Blur Passes"@, OptionKind::Int, seq![]),
        ("decoration"@, "blur:ignore_opacity"@, "Blur Ignore Opacity"@, OptionKind::Bool, seq![]),
        ("decoration"@, "blur:new_optimizations"@, "Blur New Optimizations"@, OptionKind::Bool, seq![]),
        ("decoration"@, "blur:xray"@, "Blur X-Ray"@, OptionKind::Bool, seq![]),
        ("decoration"@, "blur:noise"@, "Blur Noise"@, OptionKind::Float, seq![]),
        ("decoration"@, "blur:contrast"@, "Blur Contrast"@, OptionKind::Float, seq![]),
        ("decoration"@, "blur:brightness"@, "Blur Brightness"@, OptionKind::Float, seq![]),
        ("decoration"@, "blur:vibrancy"@, "Blur Vibrancy"@, OptionKind::Float, seq![]),
        ("decoration"@, "blur:vibrancy_darkness"@, "Blur Vibrancy Darkness"@, OptionKind::Float, seq![]),
        ("decoration"@, "blur:special"@, "Blur Special"@, OptionKind::Bool, seq![]),
        ("decoration"@, "blur:popups"@, "Blur Popups"@, OptionKind::Bool, seq![]),
        ("decoration"@, "blur:popups_ignorealpha"@, "Blur Popups Ignore Alpha"@, OptionKind::Float, seq![]),
        ("animations"@, "enabled"@, "Enable Animations"@, OptionKind::Bool, seq![]),
        ("animations"@, "first_launch_animation"@, "First Launch Animation"@, OptionKind::Bool, seq![]),
        ("input"@, "kb_model"@, "Keyboard Model"@, OptionKind::Text, seq![]),
        ("input"@, "kb_layout"@, "Keyboard Layout"@, OptionKind::Text, seq![]),
        ("input"@, "kb_variant"@, "Keyboard Variant"@, OptionKind::Text, seq![]),
        ("input"@, "kb_options"@, "Keyboard Options"@, OptionKind::Text, seq![]),
        ("input"@, "kb_rules"@, "Keyboard Rules"@, OptionKind::Text, seq![]),
        ("input"@, "kb_file"@, "Keyboard File"@, OptionKind::Text, seq![]),
        ("input"@, "numlock_by_default"@, "Numlock by Default"@, OptionKind::Bool, seq![]),
        ("input"@, "resolve_binds_by_sym"@, "Resolve Binds by Symbol"@, OptionKind::Bool, seq![]),
        ("input"@, "repeat_rate"@, "Repeat Rate"@, OptionKind::Int, seq![]),
        ("input"@, "repeat_delay"@, "Repeat Delay"@, OptionKind::Int, seq![]),
        ("input"@, "sensitivity"@, "Sensitivity"@, OptionKind::Float, seq![]),
        ("input"@, "accel_profile"@, "Acceleration Profile"@, OptionKind::Text, seq![]),
        ("input"@, "force_no_accel"@, "Force No Acceleration"@, OptionKind::Bool, seq![]),
        ("input"@, "left_handed"@, "Left Handed"@, OptionKind::Bool, seq![]),
        ("input"@, "scroll_method"@, "Scroll Method"@, OptionKind::Text, seq![]),
        ("input"@, "scroll_button"@, "Scroll Button"@, OptionKind::Int, seq![]),
        ("input"@, "scroll_button_lock"@, "Scroll Button Lock"@, OptionKind::Bool, seq![]),
        ("input"@, "scroll_factor"@, "Scroll Factor"@, OptionKind::Float, seq![]),
        ("input"@, "natural_scroll"@, "Natural Scroll"@, OptionKind::Bool, seq![]),
        ("input"@, "follow_mouse"@, "Follow Mouse"@, OptionKind::Int, seq![]),
        ("input"@, "mouse_refocus"@, "Mouse Refocus"@, OptionKind::Bool, seq![]),
        ("input"@, "scroll_points"@, "Scroll Points"@, OptionKind::Text, seq![]),
        ("input"@, "focus_on_close"@, "Focus on Close"@, OptionKind::Int, seq![]),
        ("input"@, "float_switch_override_focus"@, "Float Switch Override Focus"@, OptionKind::Int, seq![]),
        ("input"@, "special_fallthrough"@, "Special Fallthrough"@, OptionKind::Bool, seq![]),
        ("input"@, "touchpad:disable_while_typing"@, "Disable While Typing"@, OptionKind::Bool, seq![]),
        ("input"@, "touchpad:natural_scroll"@, "Natural Scroll"@, OptionKind::Bool, seq![]),
        ("input"@, "touchpad:scroll_factor"@, "Scroll Factor"@, OptionKind::Float, seq![]),
        ("input"@, "touchpad:middle_button_emulation"@, "Middle Button Emulation"@, OptionKind::Bool, seq![]),
        ("input"@, "touchpad:tap_button_map"@, "Tap Button Map"@, OptionKind::Text, seq![]),
        ("input"@, "touchpad:clickfinger_behavior"@, "Clickfinger Behavior"@, OptionKind::Bool, seq![]),
        ("input"@, "touchpad:tap-to-click"@, "Tap to Click"@, OptionKind::Bool, seq![]),
        ("input"@, "touchpad:drag_lock"@, "Drag Lock"@, OptionKind::Bool, seq![]),
        ("input"@, "touchpad:tap-and-drag"@, "Tap and Drag"@, OptionKind::Bool, seq![]),
        ("input"@, "touchdevice:transform"@, "Transform"@, OptionKind::Int, seq![]),
        ("input"@, "touchdevice:output"@, "Output"@, OptionKind::Text, seq![]),
        ("input"@, "touchdevice:enabled"@, "Enabled"@, OptionKind::Bool, seq![]),
        ("input"@, "tablet:transform"@, "Transform"@, OptionKind::Int, seq![]),
        ("input"@, "tablet:output"@, "Output"@, OptionKind::Text, seq![]),
        ("input"@, "tablet:region_position"@, "Region Position"@, OptionKind::Text, seq![]),
        ("input"@, "tablet:region_size"@, "Region Size"@, OptionKind::Text, seq![]),
        ("input"@, "tablet:relative_input"@, "Relative Input"@, OptionKind::Bool, seq![]),
        ("input"@, "tablet:left_handed"@, "Left Handed"@, OptionKind::Bool, seq![]),
        ("input"@, "tablet:active_area_size"@, "Active Area Size"@, OptionKind::Text, seq![]),
        ("input"@, "tablet:active_area_position"@, "Active Area Position"@, OptionKind::Text, seq![]),
        ("input"@, "off_window_axis_events"@, "Off Window Axis Events"@, OptionKind::Int, seq![]),
        ("input"@, "emulate_discrete_scroll"@, "Emulate Discrete Scroll"@, OptionKind::Int, seq![]),
        ("gestures"@, "workspace_swipe"@, "Workspace Swipe"@, OptionKind::Bool, seq![]),
        ("gestures"@, "workspace_swipe_fingers"@, "Workspace Swipe Fingers"@, OptionKind::Int, seq![]),
        ("gestures"@, "workspace_swipe_min_fingers"@, "Workspace Swipe Min Fingers"@, OptionKind::Bool, seq![]),
        ("gestures"@, "workspace_swipe_distance"@, "Workspace Swipe Distance"@, OptionKind::Int, seq![]),
        ("gestures"@, "workspace_swipe_touch"@, "Workspace Swipe Touch"@, OptionKind::Bool, seq![]),
        ("gestures"@, "workspace_swipe_invert"@, "Workspace Swipe Invert"@, OptionKind::Bool, seq![]),
        ("gestures"@, "workspace_swipe_touch_invert"@, "Workspace Swipe Touch Invert"@, OptionKind::Bool, seq![]),
        ("gestures"@, "workspace_swipe_min_speed_to_force"@, "Workspace Swipe Min Speed to Force"@, OptionKind::Int, seq![]),
        ("gestures"@, "workspace_swipe_cancel_ratio"@, "Workspace Swipe Cancel Ratio"@, OptionKind::Float, seq![]),
        ("gestures"@, "workspace_swipe_create_new"@, "Workspace Swipe Create New"@, OptionKind::Bool, seq![]),
        ("gestures"@, "workspace_swipe_direction_lock"@, "Workspace Swipe Direction Lock"@, OptionKind::Bool, seq![]),
        ("gestures"@, "workspace_swipe_direction_lock_threshold"@, "Workspace Swipe Direction Lock Threshold"@, OptionKind::Int, seq![]),
        ("gestures"@, "workspace_swipe_forever"@, "Workspace Swipe Forever"@, OptionKind::Bool, seq![]),
        ("gestures"@, "workspace_swipe_use_r"@, "Workspace Swipe Use R"@, OptionKind::Bool, seq![]),
        ("group"@, "auto_group"@, "Auto Group"@, OptionKind::Bool, seq![]),
        ("group"@, "insert_after_current"@, "Insert After Current"@, OptionKind::Bool, seq![]),
        ("group"@, "focus_removed_window"@, "Focus Removed Window"@, OptionKind::Bool, seq![]),
        ("group"@, "drag_into_group"@, "Drag Into Group"@, OptionKind::Int, seq![]),
        ("group"@, "merge_groups_on_drag"@, "Merge Groups on Drag"@, OptionKind::Bool, seq![]),
        ("group"@, "merge_floated_into_tiled_on_groupbar"@, "Merge Floated Into Tiled on Groupbar"@, OptionKind::Bool, seq![]),
        ("group"@, "col.border_active"@, "Active Border Color"@, OptionKind::Color, seq![]),
        ("group"@, "col.border_inactive"@, "Inactive Border Color"@, OptionKind::Color, seq![]),
        ("group"@, "col.border_locked_active"@, "Locked Active Border Color"@, OptionKind::Color, seq![]),
        ("group"@, "col.border_locked_inactive"@, "Locked Inactive Border Color"@, OptionKind::Color, seq![]),
        ("group"@, "groupbar:enabled"@, "Enabled"@, OptionKind::Bool, seq![]),
        ("group"@, "groupbar:font_family"@, "Font Family"@, OptionKind::Text, seq![]),
        ("group"@, "groupbar:font_size"@, "Font Size"@, OptionKind::Int, seq![]),
        ("group"@, "groupbar:gradients"@, "Gradients"@, OptionKind::Bool, seq![]),
        ("group"@, "groupbar:height"@, "Height"@, OptionKind::Int, seq![]),
        ("group"@, "groupbar:stacked"@, "Stacked"@, OptionKind::Bool, seq![]),
        ("group"@, "groupbar:priority"@, "Priority"@, OptionKind::Int, seq![]),
        ("group"@, "groupbar:render_titles"@, "Render Titles"@, OptionKind::Bool, seq![]),
        ("group"@, "groupbar:scrolling"@, "Scrolling"@, OptionKind::Bool, seq![]),
        ("group"@, "groupbar:text_color"@, "Text Color"@, OptionKind::Color, seq![]),
        ("group"@, "groupbar:col.active"@, "Active Color"@, OptionKind::Color, seq![]),
        ("group"@, "groupbar:col.inactive"@, "Inactive Color"@, OptionKind::Color, seq![]),
        ("group"@, "groupbar:col.locked_active"@, "Locked Active Color"@, OptionKind::Color, seq![]),
        ("group"@, "groupbar:col.locked_inactive"@, "Locked Inactive Color"@, OptionKind::Color, seq![]),
        ("misc"@, "disable_hyprland_logo"@, "Disable Hyprland Logo"@, OptionKind::Bool, seq![]),
        ("misc"@, "disable_splash_rendering"@, "Disable Splash Rendering"@, OptionKind::Bool, seq![]),
        ("misc"@, "col.splash"@, "Splash Color"@, OptionKind::Color, seq![]),
        ("misc"@, "font_family"@, "Font Family"@, OptionKind::Text, seq![]),
        ("misc"@, "splash_font_family"@, "Splash Font Family"@, OptionKind::Text, seq![]),
        ("misc"@, "force_default_wallpaper"@, "Force Default Wallpaper"@, OptionKind::Int, seq![]),
        ("misc"@, "vfr"@, "VFR"@, OptionKind::Bool, seq![]),
        ("misc"@, "vrr"@, "VRR"@, OptionKind::Int, seq![]),
        ("misc"@, "mouse_move_enables_dpms"@, "Mouse Move Enables DPMS"@, OptionKind::Bool, seq![]),
        ("misc"@, "key_press_enables_dpms"@, "Key Press Enables DPMS"@, OptionKind::Bool, seq![]),
        ("misc"@, "always_follow_on_dnd"@, "Always Follow on DnD"@, OptionKind::Bool, seq![]),
        ("misc"@, "layers_hog_keyboard_focus"@, "Layers Hog Keyboard Focus"@, OptionKind::Bool, seq![]),
        ("misc"@, "animate_manual_resizes"@, "Animate Manual Resizes"@, OptionKind::Bool, seq![]),
        ("misc"@, "animate_mouse_windowdragging"@, "Animate Mouse Window Dragging"@, OptionKind::Bool, seq![]),
        ("misc"@, "disable_autoreload"@, "Disable Autoreload"@, OptionKind::Bool, seq![]),
        ("misc"@, "enable_swallow"@, "Enable Swallow"@, OptionKind::Bool, seq![]),
        ("misc"@, "swallow_regex"@, "Swallow Regex"@, OptionKind::Text, seq![]),
        ("misc"@, "swallow_exception_regex"@, "Swallow Exception Regex"@, OptionKind::Text, seq![]),
        ("misc"@, "focus_on_activate"@, "Focus on Activate"@, OptionKind::Bool, seq![]),
        ("misc"@, "mouse_move_focuses_monitor"@, "Mouse Move Focuses Monitor"@, OptionKind::Bool, seq![]),
        ("misc"@, "render_ahead_of_time"@, "Render Ahead of Time"@, OptionKind::Bool, seq![]),
        ("misc"@, "render_ahead_safezone"@, "Render Ahead Safezone"@, OptionKind::Int, seq![]),
        ("misc"@, "allow_session_lock_restore"@, "Allow Session Lock Restore"@, OptionKind::Bool, seq![]),
        ("misc"@, "background_color"@, "Background Color"@, OptionKind::Color, seq![]),
        ("misc"@, "close_special_on_empty"@, "Close Special on Empty"@, OptionKind::Bool, seq![]),
        ("misc"@, "new_window_takes_over_fullscreen"@, "New Window Takes Over Fullscreen"@, OptionKind::Int, seq![]),
        ("misc"@, "exit_window_retains_fullscreen"@, "Exit Window Retains Fullscreen"@, OptionKind::Bool, seq![]),
        ("misc"@, "initial_workspace_tracking"@, "Initial Workspace Tracking"@, OptionKind::Int, seq![]),
        ("misc"@, "middle_click_paste"@, "Middle Click Paste"@, OptionKind::Bool, seq![]),
        ("misc"@, "render_unfocused_fps"@, "Render Unfocused FPS"@, OptionKind::Int, seq![]),
        ("misc"@, "disable_xdg_env_checks"@, "Disable XDG Environment Checks"@, OptionKind::Bool, seq![]),
        ("binds"@, "pass_mouse_when_bound"@, "Pass Mouse When Bound"@, OptionKind::Bool, seq![]),
        ("binds"@, "scroll_event_delay"@, "Scroll Event Delay"@, OptionKind::Int, seq![]),
        ("binds"@, "workspace_back_and_forth"@, "Workspace Back and Forth"@, OptionKind::Bool, seq![]),
        ("binds"@, "allow_workspace_cycles"@, "Allow Workspace Cycles"@, OptionKind::Bool, seq![]),
        ("binds"@, "workspace_center_on"@, "Workspace Center On"@, OptionKind::Int, seq![]),
        ("binds"@, "focus_preferred_method"@, "Focus Preferred Method"@, OptionKind::Int, seq![]),
        ("binds"@, "ignore_group_lock"@, "Ignore Group Lock"@, OptionKind::Bool, seq![]),
        ("binds"@, "movefocus_cycles_fullscreen"@, "Movefocus Cycles Fullscreen"@, OptionKind::Bool, seq![]),
        ("binds"@, "disable_keybind_grabbing"@, "Disable Keybind Grabbing"@, OptionKind::Bool, seq![]),
        ("binds"@, "window_direction_monitor_fallback"@, "Window Direction Monitor Fallback"@, OptionKind::Bool, seq![]),
        ("xwayland"@, "enabled"@, "Enabled"@, OptionKind::Bool, seq![]),
        ("xwayland"@, "use_nearest_neighbor"@, "Use Nearest Neighbor"@, OptionKind::Bool, seq![]),
        ("xwayland"@, "force_zero_scaling"@, "Force Zero Scaling"@, OptionKind::Bool, seq![]),
        ("opengl"@, "nvidia_anti_flicker"@, "Nvidia Anti Flicker"@, OptionKind::Bool, seq![]),
        ("opengl"@, "force_introspection"@, "Force Introspection"@, OptionKind::Int, seq![]),
        ("render"@, "explicit_sync"@, "Explicit Sync"@, OptionKind::Int, seq![]),
        ("render"@, "explicit_sync_kms"@, "Explicit Sync KMS"@, OptionKind::Int, seq![]),
        ("render"@, "direct_scanout"@, "Direct Scanout"@, OptionKind::Bool, seq![]),
        ("cursor"@, "sync_gsettings_theme"@, "Sync GSettings Theme"@, OptionKind::Bool, seq![]),
        ("cursor"@, "no_hardware_cursors"@, "No Hardware Cursors"@, OptionKind::Bool, seq![]),
        ("cursor"@, "no_break_fs_vrr"@, "No Break FS VRR"@, OptionKind::Bool, seq![]),
        ("cursor"@, "min_refresh_rate"@, "Min Refresh Rate"@, OptionKind::Int, seq![]),
        ("cursor"@, "hotspot_padding"@, "Hotspot Padding"@, OptionKind::Int, seq![]),
        ("cursor"@, "inactive_timeout"@, "Inactive Timeout"@, OptionKind::Float, seq![]),
        ("cursor"@, "no_warps"@, "No Warps"@, OptionKind::Bool, seq![]),
        ("cursor"@, "persistent_warps"@, "Persistent Warps"@, OptionKind::Bool, seq![]),
        ("cursor"@, "warp_on_change_workspace"@, "Warp on Change Workspace"@, OptionKind::Bool, seq![]),
        ("cursor"@, "default_monitor"@, "Default Monitor"@, OptionKind::Text, seq![]),
        ("cursor"@, "zoom_factor"@, "Zoom Factor"@, OptionKind::Float, seq![]),
        ("cursor"@, "zoom_rigid"@, "Zoom Rigid"@, OptionKind::Bool, seq![]),
        ("cursor"@, "enable_hyprcursor"@, "Enable Hyprcursor"@, OptionKind::Bool, seq![]),
        ("cursor"@, "hide_on_key_press"@, "Hide on Key Press"@, OptionKind::Bool, seq![]),
        ("cursor"@, "hide_on_touch"@, "Hide on Touch"@, OptionKind::Bool, seq![]),
        ("cursor"@, "allow_dumb_copy"@, "Allow Dumb Copy"@, OptionKind::Bool, seq![]),
        ("debug"@, "overlay"@, "Overlay"@, OptionKind::Bool, seq![]),
        ("debug"@, "damage_blink"@, "Damage Blink"@, OptionKind::Bool, seq![]),
        ("debug"@, "disable_logs"@, "Disable Logs"@, OptionKind::Bool, seq![]),
        ("debug"@, "disable_time"@, "Disable Time"@, OptionKind::Bool, seq![]),
        ("debug"@, "damage_tracking"@, "Damage Tracking"@, OptionKind::Int, seq![]),
        ("debug"@, "enable_stdout_logs"@, "Enable Stdout Logs"@, OptionKind::Bool, seq![]),
        ("debug"@, "manual_crash"@, "Manual Crash"@, OptionKind::Int, seq![]),
        ("debug"@, "suppress_errors"@, "Suppress Errors"@, OptionKind::Bool, seq![]),
        ("debug"@, "watchdog_timeout"@, "Watchdog Timeout"@, OptionKind::Int, seq![]),
        ("debug"@, "disable_scale_checks"@, "Disable Scale Checks"@, OptionKind::Bool, seq![]),
        ("debug"@, "error_limit"@, "Error Limit"@, OptionKind::Int, seq![]),
        ("debug"@, "error_position"@, "Error Position"@, OptionKind::Int, seq![]),
        ("debug"@, "colored_stdout_logs"@, "Colored Stdout Logs"@, OptionKind::Bool, seq![]),
        ("layouts"@, "dwindle:pseudotile"@, "Pseudotile"@, OptionKind::Bool, seq![]),
        ("layouts"@, "dwindle:force_split"@, "Force Split"@, OptionKind::Int, seq![]),
        ("layouts"@, "dwindle:preserve_split"@, "Preserve Split"@, OptionKind::Bool, seq![]),
        ("layouts"@, "dwindle:smart_split"@, "Smart Split"@, OptionKind::Bool, seq![]),
        ("layouts"@, "dwindle:smart_resizing"@, "Smart Resizing"@, OptionKind::Bool, seq![]),
        ("layouts"@, "dwindle:permanent_direction_override"@, "Permanent Direction Override"@, OptionKind::Bool, seq![]),
        ("layouts"@, "dwindle:special_scale_factor"@, "Special Scale Factor"@, OptionKind::Float, seq![]),
        ("layouts"@, "dwindle:split_width_multiplier"@, "Split Width Multiplier"@, OptionKind::Float, seq![]),
        ("layouts"@, "dwindle:use_active_for_splits"@, "Use Active for Splits"@, OptionKind::Bool, seq![]),
        ("layouts"@, "dwindle:default_split_ratio"@, "Default Split Ratio"@, OptionKind::Float, seq![]),
        ("layouts"@, "dwindle:split_bias"@, "Split Bias"@, OptionKind::Int, seq![]),
        ("layouts"@, "master:allow_small_split"@, "Allow Small Split"@, OptionKind::Bool, seq![]),
        ("layouts"@, "master:special_scale_factor"@, "Special Scale Factor"@, OptionKind::Float, seq![]),
        ("layouts"@, "master:mfact"@, "Master Factor"@, OptionKind::Float, seq![]),
        ("layouts"@, "master:new_status"@, "New Status"@, OptionKind::Choice, seq!["master"@, "slave"@, "inherit"@]),
        ("layouts"@, "master:new_on_top"@, "New on Top"@, OptionKind::Bool, seq![]),
        ("layouts"@, "master:new_on_active"@, "New on Active"@, OptionKind::Choice, seq!["before"@, "after"@, "none"@]),
        ("layouts"@, "master:orientation"@, "Orientation"@, OptionKind::Choice, seq!["left"@, "right"@, "top"@, "bottom"@, "center"@]),
        ("layouts"@, "master:inherit_fullscreen"@, "Inherit Fullscreen"@, OptionKind::Bool, seq![]),
        ("layouts"@, "master:always_center_master"@, "Always Center Master"@, OptionKind::Bool, seq![]),
        ("layouts"@, "master:smart_resizing"@, "Smart Resizing"@, OptionKind::Bool, seq![]),
        ("layouts"@, "master:drop_at_cursor"@, "Drop at Cursor"@, OptionKind::Bool, seq![]),
    ]
}

/// Every option that the settings pages offer, as `catalog_table` lists
/// them. Exactly the `Choice` options list their choices.
#[verifier::rlimit(100)]
pub fn catalog() -> (r: Vec<OptionDescriptor>)
    ensures
        descriptor_views(r@) == catalog_table(),
        r@.len() > 0,
        forall|i: int|
            0 <= i < r@.len() ==> ((#[trigger] r@[i]).kind == OptionKind::Choice) == (r@[i].choices@.len()
                > 0),
{
    let r = vec![
        OptionDescriptor {
            category: "general",
            key: "layout",
            label: "Layout",
            kind: OptionKind::Choice,
            choices: vec!["dwindle", "master"],
        },
        OptionDescriptor {
            category: "general",
            key: "gaps_in",
            label: "Gaps In",
            kind: OptionKind::Int,
            choices: vec![],
        },
        OptionDescriptor {
            category: "general",
            key: "gaps_out",
            label: "Gaps Out",
            kind: OptionKind::Int,
            choices: vec![],
        },
        OptionDescriptor {
            category: "general",
            key: "gaps_workspaces",
            label: "Workspace Gaps",
            kind: OptionKind::Int,
            choices: vec![],
        },
        OptionDescriptor {
            category: "general",
            key: "border_size",
            label: "Border Size",
            kind: OptionKind::Int,
            choices: vec![],
        },
        OptionDescriptor {
            category: "general",
            key: "resize_corner",
            label: "Resize Corner",
            kind: OptionKind::Int,
            choices: vec![],
        },
        OptionDescriptor {
            category: "general",
            key: "no_border_on_floating",
            label: "No Border on Floating",
            kind: OptionKind::Bool,
            choices: vec![],
        },
        OptionDescriptor {
            category: "general",
            key: "resize_on_border",
            label: "Resize on Border",
            kind: OptionKind::Bool,
            choices: vec![],
        },
        OptionDescriptor {
            category: "general",
            key: "extend_border_grab_area",
            label: "Extend Border Grab Area",
            kind: OptionKind::Int,
            choices: vec![],
        },
        OptionDescriptor {
            category: "general",
            key: "hover_icon_on_border",
            label: "Hover Icon on Border",
            kind: OptionKind::Bool,
            choices: vec![],
        },
        OptionDescriptor {
            category: "general",
            key: "col.inactive_border",
            label: "Inactive Border Color",
            kind: OptionKind::Color,
            choices: vec![],
        },
        OptionDescriptor {
            category: "general",
            key: "col.active_border",
            label: "Active Border Color",
            kind: OptionKind::Color,
            choices: vec![],
        },
        OptionDescriptor {
            category: "general",
            key: "col.nogroup_border",
            label: "No Group Border Color",
            kind: OptionKind::Color,
            choices: vec![],
        },
        OptionDescriptor {
            category: "general",
            key: "col.nogroup_border_active",
            label: "No Group Active Border Color",
            kind: OptionKind::Color,
            choices: vec![],
        },
        OptionDescriptor {
            category: "decoration",
            key: "rounding",
            label: "Rounding",
            kind: OptionKind::Int,
            choices: vec![],
        },
        OptionDescriptor {
            category: "decoration",
            key: "active_opacity",
            label: "Active Opacity",
            kind: OptionKind::Float,
            choices: vec![],
        },
        OptionDescriptor {
            category: "decoration",
            key: "inactive_opacity",
            label: "Inactive Opacity",
            kind: OptionKind::Float,
            choices: vec![],
        },
        OptionDescriptor {
            category: "decoration",
            key: "fullscreen_opacity",
            label: "Fullscreen Opacity",
            kind: OptionKind::Float,
            choices: vec![],
        },
        OptionDescriptor {
            category: "decoration",
            key: "drop_shadow",
            label: "Drop Shadow",
            kind: OptionKind::Bool,
            choices: vec![],
        },
        OptionDescriptor {
            category: "decoration",
            key: "shadow_range",
            label: "Shadow Range",
            kind: OptionKind::Int,
            choices: vec![],
        },
        OptionDescriptor {
            category: "decoration",
            key: "shadow_render_power",
            label: "Shadow Render Power",
            kind: OptionKind::Int,
            choices: vec![],
        },
        OptionDescriptor {
            category: "decoration",
            key: "shadow_ignore_window",
            label: "Shadow Ignore Window",
            kind: OptionKind::Bool,
            choices: vec![],
        },
        OptionDescriptor {
            category: "decoration",
            key: "col.shadow",
            label: "Shadow Color",
            kind: OptionKind::Color,
            choices: vec![],
        },
        OptionDescriptor {
            category: "decoration",
            key: "col.shadow_inactive",
            label: "Inactive Shadow Color",
            kind: OptionKind::Color,
            choices: vec![],
        },
        OptionDescriptor {
            category: "decoration",
            key: "shadow_offset",
            label: "Shadow Offset",
            kind: OptionKind::Text,
            choices: vec![],
        },
        OptionDescriptor {
            category: "decoration",
            key: "shadow_scale",
            label: "Shadow Scale",
            kind: OptionKind::Float,
            choices: vec![],
        },
        OptionDescriptor {
            category: "decoration",
            key: "dim_inactive",
            label: "Dim Inactive",
            kind: OptionKind::Bool,
            choices: vec![],
        },
        OptionDescriptor {
            category: "decoration",
            key: "dim_strength",
            label: "Dim Strength",
            kind: OptionKind::Float,
            choices: vec![],
        },
        OptionDescriptor {
            category: "decoration",
            key: "dim_special",
            label: "Dim Special",
            kind: OptionKind::Float,
            choices: vec![],
        },
        OptionDescriptor {
            category: "decoration",
            key: "dim_around",
            label: "Dim Around",
            kind: OptionKind::Float,
            choices: vec![],
        },
        OptionDescriptor {
            category: "decoration",
            key: "screen_shader",
            label: "Screen Shader",
            kind: OptionKind::Text,
            choices: vec![],
        },
        OptionDescriptor {
            category: "decoration",
            key: "blur:enabled",
            label: "Blur Enabled",
            kind: OptionKind::Bool,
            choices: vec![],
        },
        OptionDescriptor {
            category: "decoration",
            key: "blur:size",
            label: "Blur Size",
            kind: OptionKind::Int,
            choices: vec![],
        },
        OptionDescriptor {
            category: "decoration",
            key: "blur:passes",
            label: "Blur Passes",
            kind: OptionKind::Int,
            choices: vec![],
        },
        OptionDescriptor {
            category: "decoration",
            key: "blur:ignore_opacity",
            label: "Blur Ignore Opacity",
            kind: OptionKind::Bool,
            choices: vec![],
        },
        OptionDescriptor {
            category: "decoration",
            key: "blur:new_optimizations",
            label: "Blur New Optimizations",
            kind: OptionKind::Bool,
            choices: vec![],
        },
        OptionDescriptor {
            category: "decoration",
            key: "blur:xray",
            label: "Blur X-Ray",
            kind: OptionKind::Bool,
            choices: vec![],
        },
        OptionDescriptor {
            category: "decoration",
            key: "blur:noise",
            label: "Blur Noise",
            kind: OptionKind::Float,
            choices: vec![],
        },
        OptionDescriptor {
            category: "decoration",
            key: "blur:contrast",
            label: "Blur Contrast",
            kind: OptionKind::Float,
            choices: vec![],
        },
        OptionDescriptor {
            category: "decoration",
            key: "blur:brightness",
            label: "Blur Brightness",
            kind: OptionKind::Float,
            choices: vec![],
        },
        OptionDescriptor {
            category: "decoration",
            key: "blur:vibrancy",
            label: "Blur Vibrancy",
            kind: OptionKind::Float,
            choices: vec![],
        },
        OptionDescriptor {
            category: "decoration",
            key: "blur:vibrancy_darkness",
            label: "Blur Vibrancy Darkness",
            kind: OptionKind::Float,
            choices: vec![],
        },
        OptionDescriptor {
            category: "decoration",
            key: "blur:special",
            label: "Blur Special",
            kind: OptionKind::Bool,
            choices: vec![],
        },
        OptionDescriptor {
            category: "decoration",
            key: "blur:popups",
            label: "Blur Popups",
            kind: OptionKind::Bool,
            choices: vec![],
        },
        OptionDescriptor {
            category: "decoration",
            key: "blur:popups_ignorealpha",
            label: "Blur Popups Ignore Alpha",
            kind: OptionKind::Float,
            choices: vec![],
        },
        OptionDescriptor {
            category: "animations",
            key: "enabled",
            label: "Enable Animations",
            kind: OptionKind::Bool,
            choices: vec![],
        },
        OptionDescriptor {
            category: "animations",
            key: "first_launch_animation",
            label: "First Launch Animation",
            kind: OptionKind::Bool,
            choices: vec![],
        },
        OptionDescriptor {
            category: "input",
            key: "kb_model",
            label: "Keyboard Model",
            kind: OptionKind::Text,
            choices: vec![],
        },
        OptionDescriptor {
            category: "input",
            key: "kb_layout",
            label: "Keyboard Layout",
            kind: OptionKind::Text,
            choices: vec![],
        },
        OptionDescriptor {
            category: "input",
            key: "kb_variant",
            label: "Keyboard Variant",
            kind: OptionKind::Text,
            choices: vec![],
        },
        OptionDescriptor {
            category: "input",
            key: "kb_options",
            label: "Keyboard Options",
            kind: OptionKind::Text,
            choices: vec![],
        },
        OptionDescriptor {
            category: "input",
            key: "kb_rules",
            label: "Keyboard Rules",
            kind: OptionKind::Text,
            choices: vec![],
        },
        OptionDescriptor {
            category: "input",
            key: "kb_file",
            label: "Keyboard File",
            kind: OptionKind::Text,
            choices: vec![],
        },
        OptionDescriptor {
            category: "input",
            key: "numlock_by_default",
            label: "Numlock by Default",
            kind: OptionKind::Bool,
            choices: vec![],
        },
        OptionDescriptor {
            category: "input",
            key: "resolve_binds_by_sym",
            label: "Resolve Binds by Symbol",
            kind: OptionKind::Bool,
            choices: vec![],
        },
        OptionDescriptor {
            category: "input",
            key: "repeat_rate",
            label: "Repeat Rate",
            kind: OptionKind::Int,
            choices: vec![],
        },
        OptionDescriptor {
            category: "input",
            key: "repeat_delay",
            label: "Repeat Delay",
            kind: OptionKind::Int,
            choices: vec![],
        },
        OptionDescriptor {
            category: "input",
            key: "sensitivity",
            label: "Sensitivity",
            kind: OptionKind::Float,
            choices: vec![],
        },
        OptionDescriptor {
            category: "input",
            key: "accel_profile",
            label: "Acceleration Profile",
            kind: OptionKind::Text,
            choices: vec![],
        },
        OptionDescriptor {
            category: "input",
            key: "force_no_accel",
            label: "Force No Acceleration",
            kind: OptionKind::Bool,
            choices: vec![],
        },
        OptionDescriptor {
            category: "input",
            key: "left_handed",
            label: "Left Handed",
            kind: OptionKind::Bool,
            choices: vec![],
        },
        OptionDescriptor {
            category: "input",
            key: "scroll_method",
            label: "Scroll Method",
            kind: OptionKind::Text,
            choices: vec![],
        },
        OptionDescriptor {
            category: "input",
            key: "scroll_button",
            label: "Scroll Button",
            kind: OptionKind::Int,
            choices: vec![],
        },
        OptionDescriptor {
            category: "input",
            key: "scroll_button_lock",
            label: "Scroll Button Lock",
            kind: OptionKind::Bool,
            choices: vec![],
        },
        OptionDescriptor {
            category: "input",
            key: "scroll_factor",
            label: "Scroll Factor",
            kind: OptionKind::Float,
            choices: vec![],
        },
        OptionDescriptor {
            category: "input",
            key: "natural_scroll",
            label: "Natural Scroll",
            kind: OptionKind::Bool,
            choices: vec![],
        },
        OptionDescriptor {
            category: "input",
            key: "follow_mouse",
            label: "Follow Mouse",
            kind: OptionKind::Int,
            choices: vec![],
        },
        OptionDescriptor {
            category: "input",
            key: "mouse_refocus",
            label: "Mouse Refocus",
            kind: OptionKind::Bool,
            choices: vec![],
        },
        OptionDescriptor {
            category: "input",
            key: "scroll_points",
            label: "Scroll Points",
            kind: OptionKind::Text,
            choices: vec![],
        },
        OptionDescriptor {
            category: "input",
            key: "focus_on_close",
            label: "Focus on Close",
            kind: OptionKind::Int,
            choices: vec![],
        },
        OptionDescriptor {
            category: "input",
            key: "float_switch_override_focus",
            label: "Float Switch Override Focus",
            kind: OptionKind::Int,
            choices: vec![],
        },
        OptionDescriptor {
            category: "input",
            key: "special_fallthrough",
            label: "Special Fallthrough",
            kind: OptionKind::Bool,
            choices: vec![],
        },
        OptionDescriptor {
            category: "input",
            key: "touchpad:disable_while_typing",
            label: "Disable While Typing",
            kind: OptionKind::Bool,
            choices: vec![],
        },
        OptionDescriptor {
            category: "input",
            key: "touchpad:natural_scroll",
            label: "Natural Scroll",
            kind: OptionKind::Bool,
            choices: vec![],
        },
        OptionDescriptor {
            category: "input",
            key: "touchpad:scroll_factor",
            label: "Scroll Factor",
            kind: OptionKind::Float,
            choices: vec![],
        },
        OptionDescriptor {
            category: "input",
            key: "touchpad:middle_button_emulation",
            label: "Middle Button Emulation",
            kind: OptionKind::Bool,
            choices: vec![],
        },
        OptionDescriptor {
            category: "input",
            key: "touchpad:tap_button_map",
            label: "Tap Button Map",
            kind: OptionKind::Text,
            choices: vec![],
        },
        OptionDescriptor {
            category: "input",
            key: "touchpad:clickfinger_behavior",
            label: "Clickfinger Behavior",
            kind: OptionKind::Bool,
            choices: vec![],
        },
        OptionDescriptor {
            category: "input",
            key: "touchpad:tap-to-click",
            label: "Tap to Click",
            kind: OptionKind::Bool,
            choices: vec![],
        },
        OptionDescriptor {
            category: "input",
            key: "touchpad:drag_lock",
            label: "Drag Lock",
            kind: OptionKind::Bool,
            choices: vec![],
        },
        OptionDescriptor {
            category: "input",
            key: "touchpad:tap-and-drag",
            label: "Tap and Drag",
            kind: OptionKind::Bool,
            choices: vec![],
        },
        OptionDescriptor {
            category: "input",
            key: "touchdevice:transform",
            label: "Transform",
            kind: OptionKind::Int,
            choices: vec![],
        },
        OptionDescriptor {
            category: "input",
            key: "touchdevice:output",
            label: "Output",
            kind: OptionKind::Text,
            choices: vec![],
        },
        OptionDescriptor {
            category: "input",
            key: "touchdevice:enabled",
            label: "Enabled",
            kind: OptionKind::Bool,
            choices: vec![],
        },
        OptionDescriptor {
            category: "input",
            key: "tablet:transform",
            label: "Transform",
            kind: OptionKind::Int,
            choices: vec![],
        },
        OptionDescriptor {
            category: "input",
            key: "tablet:output",
            label: "Output",
            kind: OptionKind::Text,
            choices: vec![],
        },
        OptionDescriptor {
            category: "input",
            key: "tablet:region_position",
            label: "Region Position",
            kind: OptionKind::Text,
            choices: vec![],
        },
        OptionDescriptor {
            category: "input",
            key: "tablet:region_size",
            label: "Region Size",
            kind: OptionKind::Text,
            choices: vec![],
        },
        OptionDescriptor {
            category: "input",
            key: "tablet:relative_input",
            label: "Relative Input",
            kind: OptionKind::Bool,
            choices: vec![],
        },
        OptionDescriptor {
            category: "input",
            key: "tablet:left_handed",
            label: "Left Handed",
            kind: OptionKind::Bool,
            choices: vec![],
        },
        OptionDescriptor {
            category: "input",
            key: "tablet:active_area_size",
            label: "Active Area Size",
            kind: OptionKind::Text,
            choices: vec![],
        },
        OptionDescriptor {
            category: "input",
            key: "tablet:active_area_position",
            label: "Active Area Position",
            kind: OptionKind::Text,
            choices: vec![],
        },
        OptionDescriptor {
            category: "input",
            key: "off_window_axis_events",
            label: "Off Window Axis Events",
            kind: OptionKind::Int,
            choices: vec![],
        },
        OptionDescriptor {
            category: "input",
            key: "emulate_discrete_scroll",
            label: "Emulate Discrete Scroll",
            kind: OptionKind::Int,
            choices: vec![],
        },
        OptionDescriptor {
            category: "gestures",
            key: "workspace_swipe",
            label: "Workspace Swipe",
            kind: OptionKind::Bool,
            choices: vec![],
        },
        OptionDescriptor {
            category: "gestures",
            key: "workspace_swipe_fingers",
            label: "Workspace Swipe Fingers",
            kind: OptionKind::Int,
            choices: vec![],
        },
        OptionDescriptor {
            category: "gestures",
            key: "workspace_swipe_min_fingers",
            label: "Workspace Swipe Min Fingers",
            kind: OptionKind::Bool,
            choices: vec![],
        },
        OptionDescriptor {
            category: "gestures",
            key: "workspace_swipe_distance",
            label: "Workspace Swipe Distance",
            kind: OptionKind::Int,
            choices: vec![],
        },
        OptionDescriptor {
            category: "gestures",
            key: "workspace_swipe_touch",
            label: "Workspace Swipe Touch",
            kind: OptionKind::Bool,
            choices: vec![],
        },
        OptionDescriptor {
            category: "gestures",
            key: "workspace_swipe_invert",
            label: "Workspace Swipe Invert",
            kind: OptionKind::Bool,
            choices: vec![],
        },
        OptionDescriptor {
            category: "gestures",
            key: "workspace_swipe_touch_invert",
            label: "Workspace Swipe Touch Invert",
            kind: OptionKind::Bool,
            choices: vec![],
        },
        OptionDescriptor {
            category: "gestures",
            key: "workspace_swipe_min_speed_to_force",
            label: "Workspace Swipe Min Speed to Force",
            kind: OptionKind::Int,
            choices: vec![],
        },
        OptionDescriptor {
            category: "gestures",
            key: "workspace_swipe_cancel_ratio",
            label: "Workspace Swipe Cancel Ratio",
            kind: OptionKind::Float,
            choices: vec![],
        },
        OptionDescriptor {
            category: "gestures",
            key: "workspace_swipe_create_new",
            label: "Workspace Swipe Create New",
            kind: OptionKind::Bool,
            choices: vec![],
        },
        OptionDescriptor {
            category: "gestures",
            key: "workspace_swipe_direction_lock",
            label: "Workspace Swipe Direction Lock",
            kind: OptionKind::Bool,
            choices: vec![],
        },
        OptionDescriptor {
            category: "gestures",
            key: "workspace_swipe_direction_lock_threshold",
            label: "Workspace Swipe Direction Lock Threshold",
            kind: OptionKind::Int,
            choices: vec![],
        },
        OptionDescriptor {
            category: "gestures",
            key: "workspace_swipe_forever",
            label: "Workspace Swipe Forever",
            kind: OptionKind::Bool,
            choices: vec![],
        },
        OptionDescriptor {
            category: "gestures",
            key: "workspace_swipe_use_r",
            label: "Workspace Swipe Use R",
            kind: OptionKind::Bool,
            choices: vec![],
        },
        OptionDescriptor {
            category: "group",
            key: "auto_group",
            label: "Auto Group",
            kind: OptionKind::Bool,
            choices: vec![],
        },
        OptionDescriptor {
            category: "group",
            key: "insert_after_current",
            label: "Insert After Current",
            kind: OptionKind::Bool,
            choices: vec![],
        },
        OptionDescriptor {
            category: "group",
            key: "focus_removed_window",
            label: "Focus Removed Window",
            kind: OptionKind::Bool,
            choices: vec![],
        },
        OptionDescriptor {
            category: "group",
            key: "drag_into_group",
            label: "Drag Into Group",
            kind: OptionKind::Int,
            choices: vec![],
        },
        OptionDescriptor {
            category: "group",
            key: "merge_groups_on_drag",
            label: "Merge Groups on Drag",
            kind: OptionKind::Bool,
            choices: vec![],
        },
        OptionDescriptor {
            category: "group",
            key: "merge_floated_into_tiled_on_groupbar",
            label: "Merge Floated Into Tiled on Groupbar",
            kind: OptionKind::Bool,
            choices: vec![],
        },
        OptionDescriptor {
            category: "group",
            key: "col.border_active",
            label: "Active Border Color",
            kind: OptionKind::Color,
            choices: vec![],
        },
        OptionDescriptor {
            category: "group",
            key: "col.border_inactive",
            label: "Inactive Border Color",
            kind: OptionKind::Color,
            choices: vec![],
        },
        OptionDescriptor {
            category: "group",
            key: "col.border_locked_active",
            label: "Locked Active Border Color",
            kind: OptionKind::Color,
            choices: vec![],
        },
        OptionDescriptor {
            category: "group",
            key: "col.border_locked_inactive",
            label: "Locked Inactive Border Color",
            kind: OptionKind::Color,
            choices: vec![],
        },
        OptionDescriptor {
            category: "group",
            key: "groupbar:enabled",
            label: "Enabled",
            kind: OptionKind::Bool,
            choices: vec![],
        },
        OptionDescriptor {
            category: "group",
            key: "groupbar:font_family",
            label: "Font Family",
            kind: OptionKind::Text,
            choices: vec![],
        },
        OptionDescriptor {
            category: "group",
            key: "groupbar:font_size",
            label: "Font Size",
            kind: OptionKind::Int,
            choices: vec![],
        },
        OptionDescriptor {
            category: "group",
            key: "groupbar:gradients",
            label: "Gradients",
            kind: OptionKind::Bool,
            choices: vec![],
        },
        OptionDescriptor {
            category: "group",
            key: "groupbar:height",
            label: "Height",
            kind: OptionKind::Int,
            choices: vec![],
        },
        OptionDescriptor {
            category: "group",
            key: "groupbar:stacked",
            label: "Stacked",
            kind: OptionKind::Bool,
            choices: vec![],
        },
        OptionDescriptor {
            category: "group",
            key: "groupbar:priority",
            label: "Priority",
            kind: OptionKind::Int,
            choices: vec![],
        },
        OptionDescriptor {
            category: "group",
            key: "groupbar:render_titles",
            label: "Render Titles",
            kind: OptionKind::Bool,
            choices: vec![],
        },
        OptionDescriptor {
            category: "group",
            key: "groupbar:scrolling",
            label: "Scrolling",
            kind: OptionKind::Bool,
            choices: vec![],
        },
        OptionDescriptor {
            category: "group",
            key: "groupbar:text_color",
            label: "Text Color",
            kind: OptionKind::Color,
            choices: vec![],
        },
        OptionDescriptor {
            category: "group",
            key: "groupbar:col.active",
            label: "Active Color",
            kind: OptionKind::Color,
            choices: vec![],
        },
        OptionDescriptor {
            category: "group",
            key: "groupbar:col.inactive",
            label: "Inactive Color",
            kind: OptionKind::Color,
            choices: vec![],
        },
        OptionDescriptor {
            category: "group",
            key: "groupbar:col.locked_active",
            label: "Locked Active Color",
            kind: OptionKind::Color,
            choices: vec![],
        },
        OptionDescriptor {
            category: "group",
            key: "groupbar:col.locked_inactive",
            label: "Locked Inactive Color",
            kind: OptionKind::Color,
            choices: vec![],
        },
        OptionDescriptor {
            category: "misc",
            key: "disable_hyprland_logo",
            label: "Disable Hyprland Logo",
            kind: OptionKind::Bool,
            choices: vec![],
        },
        OptionDescriptor {
            category: "misc",
            key: "disable_splash_rendering",
            label: "Disable Splash Rendering",
            kind: OptionKind::Bool,
            choices: vec![],
        },
        OptionDescriptor {
            category: "misc",
            key: "col.splash",
            label: "Splash Color",
            kind: OptionKind::Color,
            choices: vec![],
        },
        OptionDescriptor {
            category: "misc",
            key: "font_family",
            label: "Font Family",
            kind: OptionKind::Text,
            choices: vec![],
        },
        OptionDescriptor {
            category: "misc",
            key: "splash_font_family",
            label: "Splash Font Family",
            kind: OptionKind::Text,
            choices: vec![],
        },
        OptionDescriptor {
            category: "misc",
            key: "force_default_wallpaper",
            label: "Force Default Wallpaper",
            kind: OptionKind::Int,
            choices: vec![],
        },
        OptionDescriptor {
            category: "misc",
            key: "vfr",
            label: "VFR",
            kind: OptionKind::Bool,
            choices: vec![],
        },
        OptionDescriptor {
            category: "misc",
            key: "vrr",
            label: "VRR",
            kind: OptionKind::Int,
            choices: vec![],
        },
        OptionDescriptor {
            category: "misc",
            key: "mouse_move_enables_dpms",
            label: "Mouse Move Enables DPMS",
            kind: OptionKind::Bool,
            choices: vec![],
        },
        OptionDescriptor {
            category: "misc",
            key: "key_press_enables_dpms",
            label: "Key Press Enables DPMS",
            kind: OptionKind::Bool,
            choices: vec![],
        },
        OptionDescriptor {
            category: "misc",
            key: "always_follow_on_dnd",
            label: "Always Follow on DnD",
            kind: OptionKind::Bool,
            choices: vec![],
        },
        OptionDescriptor {
            category: "misc",
            key: "layers_hog_keyboard_focus",
            label: "Layers Hog Keyboard Focus",
            kind: OptionKind::Bool,
            choices: vec![],
        },
        OptionDescriptor {
            category: "misc",
            key: "animate_manual_resizes",
            label: "Animate Manual Resizes",
            kind: OptionKind::Bool,
            choices: vec![],
        },
        OptionDescriptor {
            category: "misc",
            key: "animate_mouse_windowdragging",
            label: "Animate Mouse Window Dragging",
            kind: OptionKind::Bool,
            choices: vec![],
        },
        OptionDescriptor {
            category: "misc",
            key: "disable_autoreload",
            label: "Disable Autoreload",
            kind: OptionKind::Bool,
            choices: vec![],
        },
        OptionDescriptor {
            category: "misc",
            key: "enable_swallow",
            label: "Enable Swallow",
            kind: OptionKind::Bool,
            choices: vec![],
        },
        OptionDescriptor {
            category: "misc",
            key: "swallow_regex",
            label: "Swallow Regex",
            kind: OptionKind::Text,
            choices: vec![],
        },
        OptionDescriptor {
            category: "misc",
            key: "swallow_exception_regex",
            label: "Swallow Exception Regex",
            kind: OptionKind::Text,
            choices: vec![],
        },
        OptionDescriptor {
            category: "misc",
            key: "focus_on_activate",
            label: "Focus on Activate",
            kind: OptionKind::Bool,
            choices: vec![],
        },
        OptionDescriptor {
            category: "misc",
            key: "mouse_move_focuses_monitor",
            label: "Mouse Move Focuses Monitor",
            kind: OptionKind::Bool,
            choices: vec![],
        },
        OptionDescriptor {
            category: "misc",
            key: "render_ahead_of_time",
            label: "Render Ahead of Time",
            kind: OptionKind::Bool,
            choices: vec![],
        },
        OptionDescriptor {
            category: "misc",
            key: "render_ahead_safezone",
            label: "Render Ahead Safezone",
            kind: OptionKind::Int,
            choices: vec![],
        },
        OptionDescriptor {
            category: "misc",
            key: "allow_session_lock_restore",
            label: "Allow Session Lock Restore",
            kind: OptionKind::Bool,
            choices: vec![],
        },
        OptionDescriptor {
            category: "misc",
            key: "background_color",
            label: "Background Color",
            kind: OptionKind::Color,
            choices: vec![],
        },
        OptionDescriptor {
            category: "misc",
            key: "close_special_on_empty",
            label: "Close Special on Empty",
            kind: OptionKind::Bool,
            choices: vec![],
        },
        OptionDescriptor {
            category: "misc",
            key: "new_window_takes_over_fullscreen",
            label: "New Window Takes Over Fullscreen",
            kind: OptionKind::Int,
            choices: vec![],
        },
        OptionDescriptor {
            category: "misc",
            key: "exit_window_retains_fullscreen",
            label: "Exit Window Retains Fullscreen",
            kind: OptionKind::Bool,
            choices: vec![],
        },
        OptionDescriptor {
            category: "misc",
            key: "initial_workspace_tracking",
            label: "Initial Workspace Tracking",
            kind: OptionKind::Int,
            choices: vec![],
        },
        OptionDescriptor {
            category: "misc",
            key: "middle_click_paste",
            label: "Middle Click Paste",
            kind: OptionKind::Bool,
            choices: vec![],
        },
        OptionDescriptor {
            category: "misc",
            key: "render_unfocused_fps",
            label: "Render Unfocused FPS",
            kind: OptionKind::Int,
            choices: vec![],
        },
        OptionDescriptor {
            category: "misc",
            key: "disable_xdg_env_checks",
            label: "Disable XDG Environment Checks",
            kind: OptionKind::Bool,
            choices: vec![],
        },
        OptionDescriptor {
            category: "binds",
            key: "pass_mouse_when_bound",
            label: "Pass Mouse When Bound",
            kind: OptionKind::Bool,
            choices: vec![],
        },
        OptionDescriptor {
            category: "binds",
            key: "scroll_event_delay",
            label: "Scroll Event Delay",
            kind: OptionKind::Int,
            choices: vec![],
        },
        OptionDescriptor {
            category: "binds",
            key: "workspace_back_and_forth",
            label: "Workspace Back and Forth",
            kind: OptionKind::Bool,
            choices: vec![],
        },
        OptionDescriptor {
            category: "binds",
            key: "allow_workspace_cycles",
            label: "Allow Workspace Cycles",
            kind: OptionKind::Bool,
            choices: vec![],
        },
        OptionDescriptor {
            category: "binds",
            key: "workspace_center_on",
            label: "Workspace Center On",
            kind: OptionKind::Int,
            choices: vec![],
        },
        OptionDescriptor {
            category: "binds",
            key: "focus_preferred_method",
            label: "Focus Preferred Method",
            kind: OptionKind::Int,
            choices: vec![],
        },
        OptionDescriptor {
            category: "binds",
            key: "ignore_group_lock",
            label: "Ignore Group Lock",
            kind: OptionKind::Bool,
            choices: vec![],
        },
        OptionDescriptor {
            category: "binds",
            key: "movefocus_cycles_fullscreen",
            label: "Movefocus Cycles Fullscreen",
            kind: OptionKind::Bool,
            choices: vec![],
        },
        OptionDescriptor {
            category: "binds",
            key: "disable_keybind_grabbing",
            label: "Disable Keybind Grabbing",
            kind: OptionKind::Bool,
            choices: vec![],
        },
        OptionDescriptor {
            category: "binds",
            key: "window_direction_monitor_fallback",
            label: "Window Direction Monitor Fallback",
            kind: OptionKind::Bool,
            choices: vec![],
        },
        OptionDescriptor {
            category: "xwayland",
            key: "enabled",
            label: "Enabled",
            kind: OptionKind::Bool,
            choices: vec![],
        },
        OptionDescriptor {
            category: "xwayland",
            key: "use_nearest_neighbor",
            label: "Use Nearest Neighbor",
            kind: OptionKind::Bool,
            choices: vec![],
        },
        OptionDescriptor {
            category: "xwayland",
            key: "force_zero_scaling",
            label: "Force Zero Scaling",
            kind: OptionKind::Bool,
            choices: vec![],
        },
        OptionDescriptor {
            category: "opengl",
            key: "nvidia_anti_flicker",
            label: "Nvidia Anti Flicker",
            kind: OptionKind::Bool,
            choices: vec![],
        },
        OptionDescriptor {
            category: "opengl",
            key: "force_introspection",
            label: "Force Introspection",
            kind: OptionKind::Int,
            choices: vec![],
        },
        OptionDescriptor {
            category: "render",
            key: "explicit_sync",
            label: "Explicit Sync",
            kind: OptionKind::Int,
            choices: vec![],
        },
        OptionDescriptor {
            category: "render",
            key: "explicit_sync_kms",
            label: "Explicit Sync KMS",
            kind: OptionKind::Int,
            choices: vec![],
        },
        OptionDescriptor {
            category: "render",
            key: "direct_scanout",
            label: "Direct Scanout",
            kind: OptionKind::Bool,
            choices: vec![],
        },
        OptionDescriptor {
            category: "cursor",
            key: "sync_gsettings_theme",
            label: "Sync GSettings Theme",
            kind: OptionKind::Bool,
            choices: vec![],
        },
        OptionDescriptor {
            category: "cursor",
            key: "no_hardware_cursors",
            label: "No Hardware Cursors",
            kind: OptionKind::Bool,
            choices: vec![],
        },
        OptionDescriptor {
            category: "cursor",
            key: "no_break_fs_vrr",
            label: "No Break FS VRR",
            kind: OptionKind::Bool,
            choices: vec![],
        },
        OptionDescriptor {
            category: "cursor",
            key: "min_refresh_rate",
            label: "Min Refresh Rate",
            kind: OptionKind::Int,
            choices: vec![],
        },
        OptionDescriptor {
            category: "cursor",
            key: "hotspot_padding",
            label: "Hotspot Padding",
            kind: OptionKind::Int,
            choices: vec![],
        },
        OptionDescriptor {
            category: "cursor",
            key: "inactive_timeout",
            label: "Inactive Timeout",
            kind: OptionKind::Float,
            choices: vec![],
        },
        OptionDescriptor {
            category: "cursor",
            key: "no_warps",
            label: "No Warps",
            kind: OptionKind::Bool,
            choices: vec![],
        },
        OptionDescriptor {
            category: "cursor",
            key: "persistent_warps",
            label: "Persistent Warps",
            kind: OptionKind::Bool,
            choices: vec![],
        },
        OptionDescriptor {
            category: "cursor",
            key: "warp_on_change_workspace",
            label: "Warp on Change Workspace",
            kind: OptionKind::Bool,
            choices: vec![],
        },
        OptionDescriptor {
            category: "cursor",
            key: "default_monitor",
            label: "Default Monitor",
            kind: OptionKind::Text,
            choices: vec![],
        },
        OptionDescriptor {
            category: "cursor",
            key: "zoom_factor",
            label: "Zoom Factor",
            kind: OptionKind::Float,
            choices: vec![],
        },
        OptionDescriptor {
            category: "cursor",
            key: "zoom_rigid",
            label: "Zoom Rigid",
            kind: OptionKind::Bool,
            choices: vec![],
        },
        OptionDescriptor {
            category: "cursor",
            key: "enable_hyprcursor",
            label: "Enable Hyprcursor",
            kind: OptionKind::Bool,
            choices: vec![],
        },
        OptionDescriptor {
            category: "cursor",
            key: "hide_on_key_press",
            label: "Hide on Key Press",
            kind: OptionKind::Bool,
            choices: vec![],
        },
        OptionDescriptor {
            category: "cursor",
            key: "hide_on_touch",
            label: "Hide on Touch",
            kind: OptionKind::Bool,
            choices: vec![],
        },
        OptionDescriptor {
            category: "cursor",
            key: "allow_dumb_copy",
            label: "Allow Dumb Copy",
            kind: OptionKind::Bool,
            choices: vec![],
        },
        OptionDescriptor {
            category: "debug",
            key: "overlay",
            label: "Overlay",
            kind: OptionKind::Bool,
            choices: vec![],
        },
        OptionDescriptor {
            category: "debug",
            key: "damage_blink",
            label: "Damage Blink",
            kind: OptionKind::Bool,
            choices: vec![],
        },
        OptionDescriptor {
            category: "debug",
            key: "disable_logs",
            label: "Disable Logs",
            kind: OptionKind::Bool,
            choices: vec![],
        },
        OptionDescriptor {
            category: "debug",
            key: "disable_time",
            label: "Disable Time",
            kind: OptionKind::Bool,
            choices: vec![],
        },
        OptionDescriptor {
            category: "debug",
            key: "damage_tracking",
            label: "Damage Tracking",
            kind: OptionKind::Int,
            choices: vec![],
        },
        OptionDescriptor {
            category: "debug",
            key: "enable_stdout_logs",
            label: "Enable Stdout Logs",
            kind: OptionKind::Bool,
            choices: vec![],
        },
        OptionDescriptor {
            category: "debug",
            key: "manual_crash",
            label: "Manual Crash",
            kind: OptionKind::Int,
            choices: vec![],
        },
        OptionDescriptor {
            category: "debug",
            key: "suppress_errors",
            label: "Suppress Errors",
            kind: OptionKind::Bool,
            choices: vec![],
        },
        OptionDescriptor {
            category: "debug",
            key: "watchdog_timeout",
            label: "Watchdog Timeout",
            kind: OptionKind::Int,
            choices: vec![],
        },
        OptionDescriptor {
            category: "debug",
            key: "disable_scale_checks",
            label: "Disable Scale Checks",
            kind: OptionKind::Bool,
            choices: vec![],
        },
        OptionDescriptor {
            category: "debug",
            key: "error_limit",
            label: "Error Limit",
            kind: OptionKind::Int,
            choices: vec![],
        },
        OptionDescriptor {
            category: "debug",
            key: "error_position",
            label: "Error Position",
            kind: OptionKind::Int,
            choices: vec![],
        },
        OptionDescriptor {
            category: "debug",
            key: "colored_stdout_logs",
            label: "Colored Stdout Logs",
            kind: OptionKind::Bool,
            choices: vec![],
        },
        OptionDescriptor {
            category: "layouts",
            key: "dwindle:pseudotile",
            label: "Pseudotile",
            kind: OptionKind::Bool,
            choices: vec![],
        },
        OptionDescriptor {
            category: "layouts",
            key: "dwindle:force_split",
            label: "Force Split",
            kind: OptionKind::Int,
            choices: vec![],
        },
        OptionDescriptor {
            category: "layouts",
            key: "dwindle:preserve_split",
            label: "Preserve Split",
            kind: OptionKind::Bool,
            choices: vec![],
        },
        OptionDescriptor {
            category: "layouts",
            key: "dwindle:smart_split",
            label: "Smart Split",
            kind: OptionKind::Bool,
            choices: vec![],
        },
        OptionDescriptor {
            category: "layouts",
            key: "dwindle:smart_resizing",
            label: "Smart Resizing",
            kind: OptionKind::Bool,
            choices: vec![],
        },
        OptionDescriptor {
            category: "layouts",
            key: "dwindle:permanent_direction_override",
            label: "Permanent Direction Override",
            kind: OptionKind::Bool,
            choices: vec![],
        },
        OptionDescriptor {
            category: "layouts",
            key: "dwindle:special_scale_factor",
            label: "Special Scale Factor",
            kind: OptionKind::Float,
            choices: vec![],
        },
        OptionDescriptor {
            category: "layouts",
            key: "dwindle:split_width_multiplier",
            label: "Split Width Multiplier",
            kind: OptionKind::Float,
            choices: vec![],
        },
        OptionDescriptor {
            category: "layouts",
            key: "dwindle:use_active_for_splits",
            label: "Use Active for Splits",
            kind: OptionKind::Bool,
            choices: vec![],
        },
        OptionDescriptor {
            category: "layouts",
            key: "dwindle:default_split_ratio",
            label: "Default Split Ratio",
            kind: OptionKind::Float,
            choices: vec![],
        },
        OptionDescriptor {
            category: "layouts",
            key: "dwindle:split_bias",
            label: "Split Bias",
            kind: OptionKind::Int,
            choices: vec![],
        },
        OptionDescriptor {
            category: "layouts",
            key: "master:allow_small_split",
            label: "Allow Small Split",
            kind: OptionKind::Bool,
            choices: vec![],
        },
        OptionDescriptor {
            category: "layouts",
            key: "master:special_scale_factor",
            label: "Special Scale Factor",
            kind: OptionKind::Float,
            choices: vec![],
        },
        OptionDescriptor {
            category: "layouts",
            key: "master:mfact",
            label: "Master Factor",
            kind: OptionKind::Float,
            choices: vec![],
        },
        OptionDescriptor {
            category: "layouts",
            key: "master:new_status",
            label: "New Status",
            kind: OptionKind::Choice,
            choices: vec!["master", "slave", "inherit"],
        },
        OptionDescriptor {
            category: "layouts",
            key: "master:new_on_top",
            label: "New on Top",
            kind: OptionKind::Bool,
            choices: vec![],
        },
        OptionDescriptor {
            category: "layouts",
            key: "master:new_on_active",
            label: "New on Active",
            kind: OptionKind::Choice,
            choices: vec!["before", "after", "none"],
        },
        OptionDescriptor {
            category: "layouts",
            key: "master:orientation",
            label: "Orientation",
            kind: OptionKind::Choice,
            choices: vec!["left", "right", "top", "bottom", "center"],
        },
        OptionDescriptor {
            category: "layouts",
            key: "master:inherit_fullscreen",
            label: "Inherit Fullscreen",
            kind: OptionKind::Bool,
            choices: vec![],
        },
        OptionDescriptor {
            category: "layouts",
            key: "master:always_center_master",
            label: "Always Center Master",
            kind: OptionKind::Bool,
            choices: vec![],
        },
        OptionDescriptor {
            category: "layouts",
            key: "master:smart_resizing",
            label: "Smart Resizing",
            kind: OptionKind::Bool,
            choices: vec![],
        },
        OptionDescriptor {
            category: "layouts",
            key: "master:drop_at_cursor",
            label: "Drop at Cursor",
            kind: OptionKind::Bool,
            choices: vec![],
        },
    ];
    assert(descriptor_views(r@) =~~= catalog_table());
    r
}

} // verus!
