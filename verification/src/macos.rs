//! The preferences of the system's programs, and the runs that write them.
//!
//! Each group of preferences becomes a [`SettingsRun`] over the preferences
//! that the configuration names, in a fixed order. A preference that the
//! configuration leaves out is neither read nor written.

use crate::defaults::{distinct_keys, restart_command, restart_command_of, DockOrientation, MouseButtonMode, Setting, SettingValue, SettingView, SettingsRun, SettingsRunView};
use crate::model::views;
use crate::system_utils::Command;
use vstd::prelude::*;

verus! {

/// The wanted preferences of the Dock.
#[derive(Debug, Clone, Copy, PartialEq, Eq)]
pub struct Dock {
    pub orientation: Option<DockOrientation>,
    pub autohide: Option<bool>,
    pub icon_size: Option<i32>,
    pub transparent_hidden_app_icons: Option<bool>,
}

/// The wanted preferences of Mission Control.
#[derive(Debug, Clone, Copy, PartialEq, Eq)]
pub struct MissionControl {
    pub automatically_rearrange_spaces: Option<bool>,
    pub group_apps: Option<bool>,
}

/// The wanted preferences of Safari.
#[derive(Debug, Clone, Copy, PartialEq, Eq)]
pub struct Safari {
    pub show_full_url: Option<bool>,
}

/// The wanted preferences of the system as a whole.
#[derive(Debug, Clone, Copy, PartialEq, Eq)]
pub struct SystemSettings {
    pub show_file_extensions: Option<bool>,
    /// The direction in which content moves under a scrolling gesture.
    pub natural_scrolling: Option<bool>,
    /// Whether a key held down offers accented characters in place of
    /// repeating.
    pub key_press_and_hold: Option<bool>,
    /// The delay before a key held down starts to repeat; lower is shorter.
    pub initial_key_repeat_wait: Option<i32>,
    /// The rate at which a key held down repeats; lower is faster.
    pub key_repeat_rate: Option<i32>,
    /// Whether the first letter of a sentence is capitalized while typing.
    pub automatic_capitalization: Option<bool>,
}

/// The wanted preferences of the Magic Mouse.
#[derive(Debug, Clone, Copy, PartialEq, Eq)]
pub struct MagicMouse {
    pub mouse_button_mode: Option<MouseButtonMode>,
}

/// The wanted preferences of the Finder.
#[derive(Debug, Clone, Copy, PartialEq, Eq)]
pub struct Finder {
    /// Whether the path of the directory is shown at the bottom of a window.
    pub show_pathbar: Option<bool>,
    pub show_full_posix_path_in_title_bar: Option<bool>,
}

/// What can go wrong with a preference.
#[derive(Debug, Clone, PartialEq, Eq)]
pub enum MacOSError {
    /// The preference could not be read; the text is the system's message.
    ReadError(String),
    /// The stored text is no value of the expected kind.
    ParseError,
    /// The preference could not be written.
    WriteError,
}

/// A wanted truth value as a preference value.
pub open spec fn of_bool(v: Option<bool>) -> Option<SettingValue> {
    match v {
        Some(b) => Some(SettingValue::Bool(b)),
        None => None,
    }
}

/// A wanted number as a preference value.
pub open spec fn of_int(v: Option<i32>) -> Option<SettingValue> {
    match v {
        Some(n) => Some(SettingValue::Int(n)),
        None => None,
    }
}

/// A wanted Dock orientation as a preference value.
pub open spec fn of_orientation(v: Option<DockOrientation>) -> Option<SettingValue> {
    match v {
        Some(o) => Some(SettingValue::Orientation(o)),
        None => None,
    }
}

/// A wanted mouse button mode as a preference value.
pub open spec fn of_mouse(v: Option<MouseButtonMode>) -> Option<SettingValue> {
    match v {
        Some(m) => Some(SettingValue::Mouse(m)),
        None => None,
    }
}

/// The preference to handle for a value of the configuration: one where the
/// value is given, none where it is left out.
pub open spec fn wanted(
    domain: Seq<char>,
    key: Seq<char>,
    value: Option<SettingValue>,
    restarts: bool,
) -> Seq<SettingView> {
    match value {
        Some(v) => seq![SettingView { domain, key, value: v, restarts }],
        None => Seq::empty(),
    }
}

fn bool_value(v: Option<bool>) -> (r: Option<SettingValue>)
    ensures
        r == of_bool(v),
{
    match v {
        Some(b) => Some(SettingValue::Bool(b)),
        None => None,
    }
}

fn int_value(v: Option<i32>) -> (r: Option<SettingValue>)
    ensures
        r == of_int(v),
{
    match v {
        Some(n) => Some(SettingValue::Int(n)),
        None => None,
    }
}

fn want(
    settings: &mut Vec<Setting>,
    domain: &str,
    key: &str,
    value: Option<SettingValue>,
    restarts: bool,
)
    ensures
        views(final(settings)@) == views(old(settings)@) + wanted(domain@, key@, value, restarts),
{
    match value {
        Some(v) => {
            settings.push(
                Setting { domain: domain.to_owned(), key: key.to_owned(), value: v, restarts },
            );
            assert(views(settings@) =~= views(old(settings)@) + wanted(
                domain@,
                key@,
                value,
                restarts,
            ));
        },
        None => {
            assert(views(settings@) =~= views(old(settings)@) + wanted(
                domain@,
                key@,
                value,
                restarts,
            ));
        },
    }
}

/// The preferences to handle for the Dock: orientation, hiding, icon size
/// and the look of hidden programs, as far as each is given.
pub open spec fn dock_plan(dock: Dock) -> Seq<SettingView> {
    wanted("com.apple.dock"@, "orientation"@, of_orientation(dock.orientation), true) + wanted(
        "com.apple.dock"@,
        "autohide"@,
        of_bool(dock.autohide),
        true,
    ) + wanted("com.apple.dock"@, "tilesize"@, of_int(dock.icon_size), true) + wanted(
        "com.apple.dock"@,
        "showhidden"@,
        of_bool(dock.transparent_hidden_app_icons),
        true,
    )
}

/// The preferences to handle for Mission Control.
pub open spec fn mission_control_plan(mission_control: MissionControl) -> Seq<SettingView> {
    wanted(
        "com.apple.dock"@,
        "mru-spaces"@,
        of_bool(mission_control.automatically_rearrange_spaces),
        true,
    ) + wanted("com.apple.dock"@, "expose-group-apps"@, of_bool(mission_control.group_apps), true)
}

/// The preferences to handle for Safari.
pub open spec fn safari_plan(safari: Safari) -> Seq<SettingView> {
    wanted(
        "com.apple.Safari"@,
        "ShowFullURLInSmartSearchField"@,
        of_bool(safari.show_full_url),
        true,
    )
}

/// The preferences to handle for the system as a whole. Only a change of the
/// first one calls for a restart of the Finder.
pub open spec fn system_plan(system: SystemSettings) -> Seq<SettingView> {
    wanted("NSGlobalDomain"@, "AppleShowAllExtensions"@, of_bool(system.show_file_extensions), true)
        + wanted(
        "NSGlobalDomain"@,
        "com.apple.swipescrolldirection"@,
        of_bool(system.natural_scrolling),
        false,
    ) + wanted(
        "NSGlobalDomain"@,
        "ApplePressAndHoldEnabled"@,
        of_bool(system.key_press_and_hold),
        false,
    ) + wanted("NSGlobalDomain"@, "InitialKeyRepeat"@, of_int(system.initial_key_repeat_wait), false)
        + wanted("NSGlobalDomain"@, "KeyRepeat"@, of_int(system.key_repeat_rate), false) + wanted(
        "NSGlobalDomain"@,
        "NSAutomaticCapitalizationEnabled"@,
        of_bool(system.automatic_capitalization),
        false,
    )
}

/// The preferences to handle for the Magic Mouse.
pub open spec fn magic_mouse_plan(magic_mouse: MagicMouse) -> Seq<SettingView> {
    wanted(
        "com.apple.AppleMultitouchMouse"@,
        "MouseButtonMode"@,
        of_mouse(magic_mouse.mouse_button_mode),
        false,
    )
}

/// The preferences to handle for the Finder.
pub open spec fn finder_plan(finder: Finder) -> Seq<SettingView> {
    wanted("com.apple.finder"@, "ShowPathbar"@, of_bool(finder.show_pathbar), true) + wanted(
        "com.apple.finder"@,
        "_FXShowPosixPathInTitle"@,
        of_bool(finder.show_full_posix_path_in_title_bar),
        true,
    )
}

fn want_dock(settings: &mut Vec<Setting>, dock: &Dock)
    ensures
        views(final(settings)@) == views(old(settings)@) + dock_plan(*dock),
{
    let orientation = match dock.orientation {
        Some(o) => Some(SettingValue::Orientation(o)),
        None => None,
    };
    want(settings, "com.apple.dock", "orientation", orientation, true);
    want(settings, "com.apple.dock", "autohide", bool_value(dock.autohide), true);
    want(settings, "com.apple.dock", "tilesize", int_value(dock.icon_size), true);
    want(
        settings,
        "com.apple.dock",
        "showhidden",
        bool_value(dock.transparent_hidden_app_icons),
        true,
    );
    assert(views(settings@) =~= views(old(settings)@) + dock_plan(*dock));
}

fn want_mission_control(settings: &mut Vec<Setting>, mission_control: &MissionControl)
    ensures
        views(final(settings)@) == views(old(settings)@) + mission_control_plan(*mission_control),
{
    want(
        settings,
        "com.apple.dock",
        "mru-spaces",
        bool_value(mission_control.automatically_rearrange_spaces),
        true,
    );
    want(
        settings,
        "com.apple.dock",
        "expose-group-apps",
        bool_value(mission_control.group_apps),
        true,
    );
    assert(views(settings@) =~= views(old(settings)@) + mission_control_plan(*mission_control));
}

/// Begins the writing of the Dock's preferences. The run restarts nothing:
/// it ends with the word whether anything was written, and the caller
/// restarts the Dock once for this run and that of Mission Control.
pub fn apply_dock_settings(dock: &Dock) -> (run: SettingsRun)
    ensures
        run@ == SettingsRunView::initial(dock_plan(*dock), None),
        run@.wf(),
{
    let mut settings: Vec<Setting> = Vec::new();
    assert(views(settings@) =~= Seq::<SettingView>::empty());
    want_dock(&mut settings, dock);
    assert(views(settings@) =~= dock_plan(*dock));
    SettingsRun::new(settings, None)
}

/// Begins the writing of Mission Control's preferences. The run restarts
/// nothing: it ends with the word whether anything was written.
pub fn apply_mission_control_settings(mission_control: &MissionControl) -> (run: SettingsRun)
    ensures
        run@ == SettingsRunView::initial(mission_control_plan(*mission_control), None),
        run@.wf(),
{
    let mut settings: Vec<Setting> = Vec::new();
    assert(views(settings@) =~= Seq::<SettingView>::empty());
    want_mission_control(&mut settings, mission_control);
    assert(views(settings@) =~= mission_control_plan(*mission_control));
    SettingsRun::new(settings, None)
}

/// The preferences that the Dock reads: its own, then those of Mission
/// Control, as far as each group is configured.
pub open spec fn dock_group_plan(
    dock: Option<Dock>,
    mission_control: Option<MissionControl>,
) -> Seq<SettingView> {
    (match dock {
        Some(d) => dock_plan(d),
        None => Seq::empty(),
    }) + (match mission_control {
        Some(m) => mission_control_plan(m),
        None => Seq::empty(),
    })
}

/// Begins the writing of everything that the Dock reads: its own
/// preferences, then those of Mission Control. The Dock is restarted once,
/// at the end, if anything of either group was written.
pub fn apply_dock_group_settings(dock: Option<Dock>, mission_control: Option<MissionControl>) -> (run:
    SettingsRun)
    ensures
        run@ == SettingsRunView::initial(
            dock_group_plan(dock, mission_control),
            Some("Dock"@),
        ),
        run@.wf(),
{
    let mut settings: Vec<Setting> = Vec::new();
    assert(views(settings@) =~= Seq::<SettingView>::empty());
    if let Some(d) = dock {
        want_dock(&mut settings, &d);
    }
    if let Some(m) = mission_control {
        want_mission_control(&mut settings, &m);
    }
    assert(views(settings@) =~= dock_group_plan(dock, mission_control));
    SettingsRun::new(settings, Some("Dock".to_owned()))
}

/// The command that restarts the Dock.
pub fn restart_dock() -> (r: Command)
    ensures
        r@ == restart_command_of("Dock"@),
{
    restart_command("Dock")
}

/// Begins the writing of Safari's preferences. Safari is restarted at the
/// end if anything was written.
pub fn apply_safari_settings(safari: &Safari) -> (run: SettingsRun)
    ensures
        run@ == SettingsRunView::initial(safari_plan(*safari), Some("Safari"@)),
        run@.wf(),
{
    let mut settings: Vec<Setting> = Vec::new();
    assert(views(settings@) =~= Seq::<SettingView>::empty());
    want(
        &mut settings,
        "com.apple.Safari",
        "ShowFullURLInSmartSearchField",
        bool_value(safari.show_full_url),
        true,
    );
    assert(views(settings@) =~= safari_plan(*safari));
    SettingsRun::new(settings, Some("Safari".to_owned()))
}

/// Begins the writing of the system's preferences. The Finder is restarted
/// at the end if the display of file extensions was written.
pub fn apply_system_settings(system: &SystemSettings) -> (run: SettingsRun)
    ensures
        run@ == SettingsRunView::initial(system_plan(*system), Some("Finder"@)),
        run@.wf(),
{
    let mut settings: Vec<Setting> = Vec::new();
    assert(views(settings@) =~= Seq::<SettingView>::empty());
    want(
        &mut settings,
        "NSGlobalDomain",
        "AppleShowAllExtensions",
        bool_value(system.show_file_extensions),
        true,
    );
    want(
        &mut settings,
        "NSGlobalDomain",
        "com.apple.swipescrolldirection",
        bool_value(system.natural_scrolling),
        false,
    );
    want(
        &mut settings,
        "NSGlobalDomain",
        "ApplePressAndHoldEnabled",
        bool_value(system.key_press_and_hold),
        false,
    );
    want(
        &mut settings,
        "NSGlobalDomain",
        "InitialKeyRepeat",
        int_value(system.initial_key_repeat_wait),
        false,
    );
    want(&mut settings, "NSGlobalDomain", "KeyRepeat", int_value(system.key_repeat_rate), false);
    want(
        &mut settings,
        "NSGlobalDomain",
        "NSAutomaticCapitalizationEnabled",
        bool_value(system.automatic_capitalization),
        false,
    );
    assert(views(settings@) =~= system_plan(*system));
    SettingsRun::new(settings, Some("Finder".to_owned()))
}

/// Begins the writing of the Magic Mouse's preferences. Nothing is
/// restarted.
pub fn apply_magic_mouse_settings(magic_mouse: &MagicMouse) -> (run: SettingsRun)
    ensures
        run@ == SettingsRunView::initial(magic_mouse_plan(*magic_mouse), None),
        run@.wf(),
{
    let mut settings: Vec<Setting> = Vec::new();
    let mode = match magic_mouse.mouse_button_mode {
        Some(m) => Some(SettingValue::Mouse(m)),
        None => None,
    };
    assert(views(settings@) =~= Seq::<SettingView>::empty());
    want(&mut settings, "com.apple.AppleMultitouchMouse", "MouseButtonMode", mode, false);
    assert(views(settings@) =~= magic_mouse_plan(*magic_mouse));
    SettingsRun::new(settings, None)
}

/// Begins the writing of the Finder's preferences. The Finder is restarted
/// at the end if anything was written.
pub fn apply_finder_settings(finder: &Finder) -> (run: SettingsRun)
    ensures
        run@ == SettingsRunView::initial(finder_plan(*finder), Some("Finder"@)),
        run@.wf(),
{
    let mut settings: Vec<Setting> = Vec::new();
    assert(views(settings@) =~= Seq::<SettingView>::empty());
    want(&mut settings, "com.apple.finder", "ShowPathbar", bool_value(finder.show_pathbar), true);
    want(
        &mut settings,
        "com.apple.finder",
        "_FXShowPosixPathInTitle",
        bool_value(finder.show_full_posix_path_in_title_bar),
        true,
    );
    assert(views(settings@) =~= finder_plan(*finder));
    SettingsRun::new(settings, Some("Finder".to_owned()))
}

/// One more wanted preference under a key that none of the others has
/// keeps the keys different.
proof fn lemma_wanted_under_new_key(
    front: Seq<SettingView>,
    domain: Seq<char>,
    key: Seq<char>,
    value: Option<SettingValue>,
    restarts: bool,
)
    requires
        distinct_keys(front),
        forall|i: int| 0 <= i < front.len() ==> (#[trigger] front[i]).key != key,
    ensures
        distinct_keys(front + wanted(domain, key, value, restarts)),
        forall|i: int|
            0 <= i < (front + wanted(domain, key, value, restarts)).len() ==> (#[trigger] (front
                + wanted(domain, key, value, restarts))[i]).key == key || (i < front.len() && (
            front + wanted(domain, key, value, restarts))[i] == front[i]),
{
    let all = front + wanted(domain, key, value, restarts);
    assert forall|i: int, j: int|
        #![trigger all[i], all[j]]
        0 <= i < j < all.len() implies !(all[i].domain == all[j].domain && all[i].key
        == all[j].key) by {
        if j < front.len() {
            assert(all[i] == front[i] && all[j] == front[j]);
        } else {
            assert(all[i] == front[i]);
        }
    }
}

/// The preferences that the Dock reads have keys that all differ, whatever
/// the configuration leaves out.
pub proof fn lemma_dock_group_keys_differ(dock: Option<Dock>, mission_control: Option<MissionControl>)
    ensures
        distinct_keys(dock_group_plan(dock, mission_control)),
{
    reveal_strlit("orientation");
    reveal_strlit("autohide");
    reveal_strlit("tilesize");
    reveal_strlit("showhidden");
    reveal_strlit("mru-spaces");
    reveal_strlit("expose-group-apps");
    assert("orientation"@.len() == 11 && "autohide"@.len() == 8 && "tilesize"@.len() == 8
        && "showhidden"@.len() == 10 && "mru-spaces"@.len() == 10 && "expose-group-apps"@.len()
        == 17);
    assert("autohide"@[0] == 'a' && "tilesize"@[0] == 't' && "showhidden"@[0] == 's'
        && "mru-spaces"@[0] == 'm');
    let d = "com.apple.dock"@;
    let none = Seq::<SettingView>::empty();
    let s1 = match dock {
        Some(x) => none + wanted(d, "orientation"@, of_orientation(x.orientation), true),
        None => none,
    };
    let s2 = match dock {
        Some(x) => s1 + wanted(d, "autohide"@, of_bool(x.autohide), true),
        None => s1,
    };
    let s3 = match dock {
        Some(x) => s2 + wanted(d, "tilesize"@, of_int(x.icon_size), true),
        None => s2,
    };
    let s4 = match dock {
        Some(x) => s3 + wanted(d, "showhidden"@, of_bool(x.transparent_hidden_app_icons), true),
        None => s3,
    };
    let s5 = match mission_control {
        Some(m) => s4 + wanted(d, "mru-spaces"@, of_bool(m.automatically_rearrange_spaces), true),
        None => s4,
    };
    let s6 = match mission_control {
        Some(m) => s5 + wanted(d, "expose-group-apps"@, of_bool(m.group_apps), true),
        None => s5,
    };
    if let Some(x) = dock {
        lemma_wanted_under_new_key(none, d, "orientation"@, of_orientation(x.orientation), true);
        lemma_wanted_under_new_key(s1, d, "autohide"@, of_bool(x.autohide), true);
        lemma_wanted_under_new_key(s2, d, "tilesize"@, of_int(x.icon_size), true);
        lemma_wanted_under_new_key(
            s3,
            d,
            "showhidden"@,
            of_bool(x.transparent_hidden_app_icons),
            true,
        );
    }
    if let Some(m) = mission_control {
        lemma_wanted_under_new_key(
            s4,
            d,
            "mru-spaces"@,
            of_bool(m.automatically_rearrange_spaces),
            true,
        );
        lemma_wanted_under_new_key(s5, d, "expose-group-apps"@, of_bool(m.group_apps), true);
    }
    assert(s6 =~= dock_group_plan(dock, mission_control));
}

/// The preferences of the system as a whole have keys that all differ.
pub proof fn lemma_system_keys_differ(system: SystemSettings)
    ensures
        distinct_keys(system_plan(system)),
{
    reveal_strlit("AppleShowAllExtensions");
    reveal_strlit("com.apple.swipescrolldirection");
    reveal_strlit("ApplePressAndHoldEnabled");
    reveal_strlit("InitialKeyRepeat");
    reveal_strlit("KeyRepeat");
    reveal_strlit("NSAutomaticCapitalizationEnabled");
    assert("AppleShowAllExtensions"@.len() == 22 && "com.apple.swipescrolldirection"@.len() == 30
        && "ApplePressAndHoldEnabled"@.len() == 24 && "InitialKeyRepeat"@.len() == 16
        && "KeyRepeat"@.len() == 9 && "NSAutomaticCapitalizationEnabled"@.len() == 32);
    let d = "NSGlobalDomain"@;
    let none = Seq::<SettingView>::empty();
    let s1 = none + wanted(d, "AppleShowAllExtensions"@, of_bool(system.show_file_extensions), true);
    let s2 = s1 + wanted(
        d,
        "com.apple.swipescrolldirection"@,
        of_bool(system.natural_scrolling),
        false,
    );
    let s3 = s2 + wanted(d, "ApplePressAndHoldEnabled"@, of_bool(system.key_press_and_hold), false);
    let s4 = s3 + wanted(d, "InitialKeyRepeat"@, of_int(system.initial_key_repeat_wait), false);
    let s5 = s4 + wanted(d, "KeyRepeat"@, of_int(system.key_repeat_rate), false);
    lemma_wanted_under_new_key(
        none,
        d,
        "AppleShowAllExtensions"@,
        of_bool(system.show_file_extensions),
        true,
    );
    lemma_wanted_under_new_key(
        s1,
        d,
        "com.apple.swipescrolldirection"@,
        of_bool(system.natural_scrolling),
        false,
    );
    lemma_wanted_under_new_key(
        s2,
        d,
        "ApplePressAndHoldEnabled"@,
        of_bool(system.key_press_and_hold),
        false,
    );
    lemma_wanted_under_new_key(
        s3,
        d,
        "InitialKeyRepeat"@,
        of_int(system.initial_key_repeat_wait),
        false,
    );
    lemma_wanted_under_new_key(s4, d, "KeyRepeat"@, of_int(system.key_repeat_rate), false);
    lemma_wanted_under_new_key(
        s5,
        d,
        "NSAutomaticCapitalizationEnabled"@,
        of_bool(system.automatic_capitalization),
        false,
    );
    assert(s1 =~= wanted(
        d,
        "AppleShowAllExtensions"@,
        of_bool(system.show_file_extensions),
        true,
    ));
}

/// The preferences of the Finder, of Safari and of the Magic Mouse have keys
/// that all differ.
pub proof fn lemma_small_plans_keys_differ(finder: Finder, safari: Safari, magic_mouse: MagicMouse)
    ensures
        distinct_keys(finder_plan(finder)),
        distinct_keys(safari_plan(safari)),
        distinct_keys(magic_mouse_plan(magic_mouse)),
{
    reveal_strlit("ShowPathbar");
    reveal_strlit("_FXShowPosixPathInTitle");
    assert("ShowPathbar"@.len() == 11 && "_FXShowPosixPathInTitle"@.len() == 23);
    let d = "com.apple.finder"@;
    let none = Seq::<SettingView>::empty();
    let s1 = none + wanted(d, "ShowPathbar"@, of_bool(finder.show_pathbar), true);
    lemma_wanted_under_new_key(none, d, "ShowPathbar"@, of_bool(finder.show_pathbar), true);
    lemma_wanted_under_new_key(
        s1,
        d,
        "_FXShowPosixPathInTitle"@,
        of_bool(finder.show_full_posix_path_in_title_bar),
        true,
    );
    assert(s1 =~= wanted(d, "ShowPathbar"@, of_bool(finder.show_pathbar), true));
}

} // verus!
