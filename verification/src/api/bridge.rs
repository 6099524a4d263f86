//! The values the C bridge hands across: plain colors, the fixed orders the bridge reads indices
//! against, and the names it gives them. The `extern "C"` surface itself lives outside the
//! library; everything it decides is here.

use vstd::prelude::*;
use vstd::string::*;

use crate::color::{Deposit, Role, State};
use crate::modes::{Treatment, treated_mode};
use crate::theme::{Family, Mode, Rgb, Shades, Theme, ThemeColors};
use crate::theme::colors::shades_of;

use super::palette::Palette;

verus! {

/// An RGB color, one byte per channel — the same precision `colors.toml` declares.
#[derive(Debug, Clone, Copy, PartialEq, Eq, Structural)]
pub struct OmarchyLibThemeColor {
    pub r: u8,
    pub g: u8,
    pub b: u8,
}

/// One role: its own color, and the three weights of content that read on it.
#[derive(Debug, Clone, Copy, PartialEq, Eq, Structural)]
pub struct OmarchyLibThemeRole {
    pub color: OmarchyLibThemeColor,
    pub content_main: OmarchyLibThemeColor,
    pub content_secondary: OmarchyLibThemeColor,
    pub content_disabled: OmarchyLibThemeColor,
}

/// How many roles a snapshot carries.
pub const OMARCHY_LIB_THEME_ROLE_COUNT: usize = 10;

/// One shade of a color: the shade itself and the content that reads on it.
#[derive(Debug, Clone, Copy, PartialEq, Eq, Structural)]
pub struct OmarchyLibThemeShade {
    pub color: OmarchyLibThemeColor,
    pub content: OmarchyLibThemeColor,
}

/// One color of the theme, as the family of three it reads as: the color itself, its dark shade and
/// its bright one, in that order.
#[derive(Debug, Clone, Copy, PartialEq, Eq, Structural)]
pub struct OmarchyLibThemeColorFamily {
    pub original: OmarchyLibThemeShade,
    pub dark: OmarchyLibThemeShade,
    pub bright: OmarchyLibThemeShade,
    pub declared: bool,
}

/// How many colors a snapshot carries, each as a family of three shades.
pub const OMARCHY_LIB_THEME_COLOR_COUNT: usize = 6;

/// Every role resolved against the theme in force, in the fixed order [`role_name`] names, and
/// every color the theme declares, in the order [`color_name`] names.
#[derive(Debug, Clone, Copy, PartialEq, Eq)]
pub struct OmarchyLibThemeSnapshot {
    pub roles: [OmarchyLibThemeRole; 10],
    pub colors: [OmarchyLibThemeColorFamily; 6],
    pub dark: bool,
}

/// How many treatments [`treatment_name`] can name.
pub const OMARCHY_LIB_THEME_TREATMENT_COUNT: usize = 6;

/// How many deposits [`deposit_name`] can name.
pub const OMARCHY_LIB_THEME_DEPOSIT_COUNT: usize = 5;

/// How many states [`state_name`] can name.
pub const OMARCHY_LIB_THEME_STATE_COUNT: usize = 5;

/// The roles a snapshot carries, in the fixed order [`OmarchyLibThemeSnapshot::roles`] uses. Kept
/// apart from [`Role::ALL`] so that a role added later cannot silently change the C layout.
pub const SNAPSHOT_ROLES: [Role; 10] = [
    Role::Background,
    Role::Elevated,
    Role::Recessed,
    Role::Border,
    Role::Primary,
    Role::Selection,
    Role::Muted,
    Role::Error,
    Role::Focus,
    Role::Disabled,
];

/// The bridge's form of a color.
pub open spec fn bridged(rgb: Rgb) -> OmarchyLibThemeColor {
    OmarchyLibThemeColor { r: rgb.red, g: rgb.green, b: rgb.blue }
}

/// The bridge keeps each channel in its own place: red as `r`, green as `g`, blue as `b`.
pub proof fn bridged_keeps_each_channel(rgb: Rgb)
    ensures
        bridged(rgb).r == rgb.red,
        bridged(rgb).g == rgb.green,
        bridged(rgb).b == rgb.blue,
{
}

/// The bridge's form of a color: the same three bytes.
pub fn to_color(rgb: Rgb) -> (color: OmarchyLibThemeColor)
    ensures
        color == bridged(rgb),
{
    OmarchyLibThemeColor { r: rgb.red, g: rgb.green, b: rgb.blue }
}

/// The treatment an index reads as: its place in [`Treatment::ALL`], or `Original` past the end.
pub open spec fn treatment_index(index: usize) -> Treatment {
    if index < 6 {
        Treatment::ALL[index as int]
    } else {
        Treatment::Original
    }
}

/// The deposit an index reads as: its place in [`Deposit::ALL`], or `Fill` past the end.
pub open spec fn deposit_index(index: usize) -> Deposit {
    if index < 5 {
        Deposit::ALL[index as int]
    } else {
        Deposit::Fill
    }
}

/// The state an index reads as: its place in [`State::ALL`], or `Rest` past the end.
pub open spec fn state_index(index: usize) -> State {
    if index < 5 {
        State::ALL[index as int]
    } else {
        State::Rest
    }
}

/// The role an index reads as: its place in [`SNAPSHOT_ROLES`], or `Background` past the end.
pub open spec fn role_index(index: usize) -> Role {
    if index < 10 {
        SNAPSHOT_ROLES[index as int]
    } else {
        Role::Background
    }
}

/// The treatment at `index`. An out-of-range index is not a caller error worth failing over — it
/// falls back to `Original`.
pub fn treatment_at(index: usize) -> (treatment: Treatment)
    ensures
        treatment == treatment_index(index),
{
    if index < Treatment::ALL.len() {
        Treatment::ALL[index]
    } else {
        Treatment::Original
    }
}

/// The deposit at `index`, falling back to `Fill`.
pub fn deposit_at(index: usize) -> (deposit: Deposit)
    ensures
        deposit == deposit_index(index),
{
    if index < Deposit::ALL.len() {
        Deposit::ALL[index]
    } else {
        Deposit::Fill
    }
}

/// The state at `index`, falling back to `Rest`, the neutral situation.
pub fn state_at(index: usize) -> (state: State)
    ensures
        state == state_index(index),
{
    if index < State::ALL.len() {
        State::ALL[index]
    } else {
        State::Rest
    }
}

/// The role at `index`, read against [`SNAPSHOT_ROLES`], falling back to `Background`.
pub fn role_at(index: usize) -> (role: Role)
    ensures
        role == role_index(index),
{
    if index < SNAPSHOT_ROLES.len() {
        SNAPSHOT_ROLES[index]
    } else {
        Role::Background
    }
}

/// The display name of a role: its name in the source, as written.
pub open spec fn role_label(role: Role) -> Seq<char> {
    match role {
        Role::Background => "Background"@,
        Role::Elevated => "Elevated"@,
        Role::Recessed => "Recessed"@,
        Role::Border => "Border"@,
        Role::Primary => "Primary"@,
        Role::Selection => "Selection"@,
        Role::Muted => "Muted"@,
        Role::Error => "Error"@,
        Role::Focus => "Focus"@,
        Role::Disabled => "Disabled"@,
    }
}

/// The display name of a treatment.
pub open spec fn treatment_label(treatment: Treatment) -> Seq<char> {
    match treatment {
        Treatment::Original => "Original"@,
        Treatment::Inverted => "Inverted"@,
        Treatment::HighContrast => "HighContrast"@,
        Treatment::Mono => "Mono"@,
        Treatment::Print => "Print"@,
        Treatment::Sepia => "Sepia"@,
    }
}

/// The display name of a deposit.
pub open spec fn deposit_label(deposit: Deposit) -> Seq<char> {
    match deposit {
        Deposit::Fill => "Fill"@,
        Deposit::Outline => "Outline"@,
        Deposit::Underline => "Underline"@,
        Deposit::Highlight => "Highlight"@,
        Deposit::Track => "Track"@,
    }
}

/// The display name of a state.
pub open spec fn state_label(state: State) -> Seq<char> {
    match state {
        State::Rest => "Rest"@,
        State::Hover => "Hover"@,
        State::Pressed => "Pressed"@,
        State::Disabled => "Disabled"@,
        State::Focused => "Focused"@,
    }
}

/// The display name of a color family: its name in the source, as written.
pub open spec fn family_label(family: Family) -> Seq<char> {
    match family {
        Family::Red => "Red"@,
        Family::Green => "Green"@,
        Family::Yellow => "Yellow"@,
        Family::Blue => "Blue"@,
        Family::Cyan => "Cyan"@,
        Family::Magenta => "Magenta"@,
    }
}

/// The display name of the color family at `index`, in the order the snapshot carries them.
pub open spec fn color_label(index: usize) -> Seq<char> {
    if index == 0 {
        "Red"@
    } else if index == 1 {
        "Green"@
    } else if index == 2 {
        "Yellow"@
    } else if index == 3 {
        "Blue"@
    } else if index == 4 {
        "Cyan"@
    } else {
        "Magenta"@
    }
}

/// The display name of the color at `index`, in the same order [`OmarchyLibThemeSnapshot::colors`]
/// uses; `None` at or past [`OMARCHY_LIB_THEME_COLOR_COUNT`].
pub fn color_name(index: usize) -> (name: Option<&'static str>)
    ensures
        name is Some <==> index < OMARCHY_LIB_THEME_COLOR_COUNT,
        name matches Some(n) ==> n@ == color_label(index),
        name matches Some(n) ==> n@ == family_label(Family::ALL[index as int]),
{
    match index {
        0 => Some("Red"),
        1 => Some("Green"),
        2 => Some("Yellow"),
        3 => Some("Blue"),
        4 => Some("Cyan"),
        5 => Some("Magenta"),
        _ => None,
    }
}

/// The display name of the role at `index`, in the order [`Role::ALL`] lists them; `None` past
/// [`OMARCHY_LIB_THEME_ROLE_COUNT`].
pub fn role_name(index: usize) -> (name: Option<&'static str>)
    ensures
        name is Some <==> index < OMARCHY_LIB_THEME_ROLE_COUNT,
        name matches Some(n) ==> n@ == role_label(Role::ALL[index as int]),
{
    if index >= Role::ALL.len() {
        return None;
    }
    let name = match Role::ALL[index] {
        Role::Background => "Background",
        Role::Elevated => "Elevated",
        Role::Recessed => "Recessed",
        Role::Border => "Border",
        Role::Primary => "Primary",
        Role::Selection => "Selection",
        Role::Muted => "Muted",
        Role::Error => "Error",
        Role::Focus => "Focus",
        Role::Disabled => "Disabled",
    };
    Some(name)
}

/// The display name of the treatment at `index`, in the order [`treatment_at`] reads; `None` at
/// or past [`OMARCHY_LIB_THEME_TREATMENT_COUNT`].
pub fn treatment_name(index: usize) -> (name: Option<&'static str>)
    ensures
        name is Some <==> index < OMARCHY_LIB_THEME_TREATMENT_COUNT,
        name matches Some(n) ==> n@ == treatment_label(Treatment::ALL[index as int]),
{
    if index >= Treatment::ALL.len() {
        return None;
    }
    let name = match Treatment::ALL[index] {
        Treatment::Original => "Original",
        Treatment::Inverted => "Inverted",
        Treatment::HighContrast => "HighContrast",
        Treatment::Mono => "Mono",
        Treatment::Print => "Print",
        Treatment::Sepia => "Sepia",
    };
    Some(name)
}

/// The display name of the deposit at `index`, in the order [`deposit_at`] reads; `None` at or
/// past [`OMARCHY_LIB_THEME_DEPOSIT_COUNT`].
pub fn deposit_name(index: usize) -> (name: Option<&'static str>)
    ensures
        name is Some <==> index < OMARCHY_LIB_THEME_DEPOSIT_COUNT,
        name matches Some(n) ==> n@ == deposit_label(Deposit::ALL[index as int]),
{
    if index >= Deposit::ALL.len() {
        return None;
    }
    let name = match Deposit::ALL[index] {
        Deposit::Fill => "Fill",
        Deposit::Outline => "Outline",
        Deposit::Underline => "Underline",
        Deposit::Highlight => "Highlight",
        Deposit::Track => "Track",
    };
    Some(name)
}

/// The display name of the state at `index`, in the order [`state_at`] reads; `None` at or past
/// [`OMARCHY_LIB_THEME_STATE_COUNT`].
pub fn state_name(index: usize) -> (name: Option<&'static str>)
    ensures
        name is Some <==> index < OMARCHY_LIB_THEME_STATE_COUNT,
        name matches Some(n) ==> n@ == state_label(State::ALL[index as int]),
{
    if index >= State::ALL.len() {
        return None;
    }
    let name = match State::ALL[index] {
        State::Rest => "Rest",
        State::Hover => "Hover",
        State::Pressed => "Pressed",
        State::Disabled => "Disabled",
        State::Focused => "Focused",
    };
    Some(name)
}

/// A role index names the role the snapshot carries at that index, and the index reader reads
/// the same role back: the name, the snapshot slot and the index reader agree.
pub proof fn role_names_follow_the_snapshot(index: usize)
    requires
        index < OMARCHY_LIB_THEME_ROLE_COUNT,
    ensures
        role_label(Role::ALL[index as int]) == role_label(role_index(index)),
        Role::ALL[index as int] == role_index(index),
{
}

/// A color index names the family the snapshot carries at that index: the name of
/// [`Family::ALL`] at the same place, so `Green` names the second family and `Yellow` the third.
pub proof fn color_names_follow_the_snapshot_families(index: usize)
    requires
        index < OMARCHY_LIB_THEME_COLOR_COUNT,
    ensures
        color_label(index) == family_label(Family::ALL[index as int]),
{
}

/// The names of the treatments, deposits and states are read against the same order their index
/// readers use.
pub proof fn names_follow_the_index_readers(index: usize)
    ensures
        index < OMARCHY_LIB_THEME_TREATMENT_COUNT ==> Treatment::ALL[index as int]
            == treatment_index(index),
        index < OMARCHY_LIB_THEME_DEPOSIT_COUNT ==> Deposit::ALL[index as int] == deposit_index(
            index,
        ),
        index < OMARCHY_LIB_THEME_STATE_COUNT ==> State::ALL[index as int] == state_index(index),
{
}

/// What the palette resolved for one role: its color and the content of each weight on it.
#[derive(Debug, Clone, Copy, PartialEq, Eq, Structural)]
pub struct ResolvedRole {
    pub color: Rgb,
    pub main: Rgb,
    pub secondary: Rgb,
    pub disabled: Rgb,
}

/// The bridge's form of one resolved role.
pub open spec fn bridged_role(role: ResolvedRole) -> OmarchyLibThemeRole {
    OmarchyLibThemeRole {
        color: bridged(role.color),
        content_main: bridged(role.main),
        content_secondary: bridged(role.secondary),
        content_disabled: bridged(role.disabled),
    }
}

/// A bridged role carries each weight of content in its own slot: the main content as main, the
/// secondary as secondary, the disabled as disabled, and the role's color as its color.
pub proof fn bridged_role_keeps_each_weight(role: ResolvedRole)
    ensures
        bridged_role(role).color == bridged(role.color),
        bridged_role(role).content_main == bridged(role.main),
        bridged_role(role).content_secondary == bridged(role.secondary),
        bridged_role(role).content_disabled == bridged(role.disabled),
{
}

/// The bridge's form of one shade and the content that reads on it.
pub open spec fn bridged_shade(color: Rgb, content: Rgb) -> OmarchyLibThemeShade {
    OmarchyLibThemeShade { color: bridged(color), content: bridged(content) }
}

/// The bridge's form of one hue family: its color, dark and bright shades, each with the content
/// that reads on it (`contents` in that order), as declared.
pub open spec fn bridged_family(shades: Shades, contents: [Rgb; 3]) -> OmarchyLibThemeColorFamily {
    OmarchyLibThemeColorFamily {
        original: bridged_shade(shades.color, contents[0]),
        dark: bridged_shade(shades.dark, contents[1]),
        bright: bridged_shade(shades.bright, contents[2]),
        declared: true,
    }
}

/// A bridged family carries each shade in its own slot, with the content handed for it: the color
/// with the first content as `original`, the dark shade with the second as `dark`, the bright
/// shade with the third as `bright`.
pub proof fn bridged_family_keeps_each_shade(shades: Shades, contents: [Rgb; 3])
    ensures
        bridged_family(shades, contents).original.color == bridged(shades.color),
        bridged_family(shades, contents).original.content == bridged(contents[0]),
        bridged_family(shades, contents).dark.color == bridged(shades.dark),
        bridged_family(shades, contents).dark.content == bridged(contents[1]),
        bridged_family(shades, contents).bright.color == bridged(shades.bright),
        bridged_family(shades, contents).bright.content == bridged(contents[2]),
        bridged_family(shades, contents).declared,
{
}

fn role_entry(role: ResolvedRole) -> (entry: OmarchyLibThemeRole)
    ensures
        entry == bridged_role(role),
        entry.color == bridged(role.color),
        entry.content_main == bridged(role.main),
        entry.content_secondary == bridged(role.secondary),
        entry.content_disabled == bridged(role.disabled),
{
    OmarchyLibThemeRole {
        color: to_color(role.color),
        content_main: to_color(role.main),
        content_secondary: to_color(role.secondary),
        content_disabled: to_color(role.disabled),
    }
}

fn shade_entry(color: Rgb, content: Rgb) -> (entry: OmarchyLibThemeShade)
    ensures
        entry == bridged_shade(color, content),
{
    OmarchyLibThemeShade { color: to_color(color), content: to_color(content) }
}

fn family_entry(colors: &ThemeColors, family: Family, contents: &[Rgb; 3]) -> (entry:
    OmarchyLibThemeColorFamily)
    ensures
        entry == bridged_family(shades_of(*colors, family), *contents),
{
    let shades = colors.family(family);
    OmarchyLibThemeColorFamily {
        original: shade_entry(shades.color, contents[0]),
        dark: shade_entry(shades.dark, contents[1]),
        bright: shade_entry(shades.bright, contents[2]),
        declared: true,
    }
}

/// Builds the snapshot of `palette`. `resolved` is the theme the palette reads — its source taken
/// through its treatment, as [`represent`](crate::modes::represent) gives it — and supplies every hue family, in the order of [`Family::ALL`];
/// `contents` holds, for each family, the content that reads on its color, dark and bright shade.
/// `roles` holds what the palette resolved for each role of [`SNAPSHOT_ROLES`], in that order.
/// Pure marshalling: every color comes across unchanged, and the mode is the palette's own.
pub fn snapshot(
    palette: &Palette,
    resolved: &Theme,
    roles: &[ResolvedRole; 10],
    contents: &[[Rgb; 3]; 6],
) -> (built: OmarchyLibThemeSnapshot)
    requires
        resolved.mode == treated_mode(palette.treatment(), palette.source().mode),
        palette.treatment() == Treatment::Original ==> *resolved == palette.source(),
    ensures
        forall|i: int| 0 <= i < 10 ==> #[trigger] built.roles[i] == bridged_role(roles[i]),
        forall|i: int|
            0 <= i < 10 ==> {
                &&& (#[trigger] built.roles[i]).color == bridged(roles[i].color)
                &&& built.roles[i].content_main == bridged(roles[i].main)
                &&& built.roles[i].content_secondary == bridged(roles[i].secondary)
                &&& built.roles[i].content_disabled == bridged(roles[i].disabled)
            },
        forall|i: int|
            0 <= i < 6 ==> #[trigger] built.colors[i] == bridged_family(
                shades_of(resolved.colors, Family::ALL[i]),
                contents[i],
            ),
        built.dark == (treated_mode(palette.treatment(), palette.source().mode) == Mode::Dark),
{
    let built_roles = [
        role_entry(roles[0]),
        role_entry(roles[1]),
        role_entry(roles[2]),
        role_entry(roles[3]),
        role_entry(roles[4]),
        role_entry(roles[5]),
        role_entry(roles[6]),
        role_entry(roles[7]),
        role_entry(roles[8]),
        role_entry(roles[9]),
    ];
    let colors = &resolved.colors;
    let built_colors = [
        family_entry(colors, Family::Red, &contents[0]),
        family_entry(colors, Family::Green, &contents[1]),
        family_entry(colors, Family::Yellow, &contents[2]),
        family_entry(colors, Family::Blue, &contents[3]),
        family_entry(colors, Family::Cyan, &contents[4]),
        family_entry(colors, Family::Magenta, &contents[5]),
    ];
    OmarchyLibThemeSnapshot { roles: built_roles, colors: built_colors, dark: palette.dark() }
}

/// How much of a message fits a buffer of `buffer_len` bytes with its terminator: everything, or
/// the first `buffer_len - 1` bytes.
pub open spec fn kept_length(message_len: nat, buffer_len: nat) -> nat {
    if message_len < buffer_len {
        message_len
    } else {
        (buffer_len - 1) as nat
    }
}

/// The bytes an error message leaves in a buffer of `buffer_len` bytes: the message's UTF-8 bytes,
/// truncated to fit, and a terminating zero. Nothing at all when the buffer has no room, not even
/// for the terminator.
pub fn error_bytes(message: &str, buffer_len: usize) -> (written: Option<Vec<u8>>)
    ensures
        written is None <==> buffer_len == 0,
        written matches Some(bytes) ==> {
            &&& bytes.len() <= buffer_len
            &&& bytes@ == message.spec_bytes().take(
                kept_length(message.spec_bytes().len(), buffer_len as nat) as int,
            ).push(0u8)
        },
{
    if buffer_len == 0 {
        return None;
    }
    let source = message.as_bytes();
    let capacity = buffer_len - 1;
    let kept = if source.len() <= capacity {
        source.len()
    } else {
        capacity
    };
    let mut bytes: Vec<u8> = Vec::new();
    let mut i: usize = 0;
    while i < kept
        invariant
            kept <= source@.len(),
            kept == kept_length(source@.len(), buffer_len as nat),
            source@ == message.spec_bytes(),
            i <= kept,
            bytes@ == source@.take(i as int),
        decreases kept - i,
    {
        bytes.push(source[i]);
        i = i + 1;
        assert(bytes@ =~= source@.take(i as int));
    }
    bytes.push(0u8);
    Some(bytes)
}

} // verus!
