//! The theme command: plans the one native operation a theme request
//! asks for on the current build target, and turns the native call's
//! outcome into the command's result.

use vstd::prelude::*;

verus! {

/// Build target the shell was compiled for. Chosen once at startup;
/// selects the theme strategy.
#[derive(Clone, Copy, Debug)]
pub enum Target {
    Android,
    MacOs,
    Windows,
    Linux,
}

/// A caller-supplied theme request. `title_bar_color` and `text_color`
/// are carried but consumed by no adapter yet.
#[derive(Debug)]
pub struct ThemeRequest {
    pub theme: String,
    pub title_bar_color: String,
    pub text_color: String,
}

/// Payload of the status-bar notification sent to the front-end on
/// mobile targets.
#[derive(Debug)]
pub struct StatusBarPayload {
    pub theme: String,
    pub is_dark: bool,
    pub status_bar_color: String,
    pub light_status_bar: bool,
}

/// The single native operation a theme request plans: one notification,
/// one chrome mutation, or nothing.
#[derive(Debug)]
pub enum ThemeAction {
    EmitStatusBarTheme(StatusBarPayload),
    SetTitleBarTransparent,
    NoOp,
}

/// A theme counts as dark exactly when it is the string `dark`; every
/// other value degrades to the light variant.
pub open spec fn is_dark_spec(theme: Seq<char>) -> bool {
    theme == "dark"@
}

/// The status-bar background derived from darkness: black for dark,
/// white for light.
pub open spec fn status_bar_color_spec(dark: bool) -> Seq<char> {
    if dark {
        "#000000"@
    } else {
        "#ffffff"@
    }
}

/// What the status-bar payload for `theme` holds: the theme itself, its
/// darkness, the derived background, and the negated darkness as the
/// light-status-bar flag.
pub open spec fn payload_for(p: StatusBarPayload, theme: Seq<char>) -> bool {
    &&& p.theme@ == theme
    &&& p.is_dark == is_dark_spec(theme)
    &&& p.status_bar_color@ == status_bar_color_spec(is_dark_spec(theme))
    &&& p.light_status_bar == !is_dark_spec(theme)
}

/// Which native operation each target owes a request for `theme`: a
/// status-bar notification on Android, the fixed transparent title-bar
/// style on macOS whatever the theme, and nothing on Windows or Linux.
pub open spec fn action_for(a: ThemeAction, target: Target, theme: Seq<char>) -> bool {
    match target {
        Target::Android => a matches ThemeAction::EmitStatusBarTheme(p) && payload_for(p, theme),
        Target::MacOs => a is SetTitleBarTransparent,
        Target::Windows => a is NoOp,
        Target::Linux => a is NoOp,
    }
}

/// String equality by view.
fn str_eq(a: &str, b: &str) -> (r: bool)
    ensures
        r == (a@ == b@),
{
    let sa = String::from_str(a);
    let sb = String::from_str(b);
    sa == sb
}

/// Plans the one native operation that `req` asks for on `target`. Reads
/// only the request's theme: the two color fields feed no adapter yet.
pub fn plan_theme(target: Target, req: &ThemeRequest) -> (a: ThemeAction)
    ensures
        action_for(a, target, req.theme@),
{
    match target {
        Target::Android => {
            let dark = str_eq(req.theme.as_str(), "dark");
            let color = if dark {
                "#000000"
            } else {
                "#ffffff"
            };
            ThemeAction::EmitStatusBarTheme(StatusBarPayload {
                theme: String::from_str(req.theme.as_str()),
                is_dark: dark,
                status_bar_color: String::from_str(color),
                light_status_bar: !dark,
            })
        },
        Target::MacOs => ThemeAction::SetTitleBarTransparent,
        Target::Windows => ThemeAction::NoOp,
        Target::Linux => ThemeAction::NoOp,
    }
}

/// The error reported when the status-bar notification could not be
/// published: a fixed prefix followed by the native failure's
/// description.
pub open spec fn emit_failure_of(cause: Seq<char>) -> Seq<char> {
    "Failed to emit status bar theme: "@ + cause
}

/// The error reported when the title-bar style could not be set: a
/// fixed prefix followed by the native failure's description.
pub open spec fn style_failure_of(cause: Seq<char>) -> Seq<char> {
    "Failed to set title bar style: "@ + cause
}

/// Turns the planned action and the native call's outcome into the
/// command's result. A plan of nothing always succeeds; a native
/// success succeeds; a native failure is reported once, wrapped in the
/// message owed for that action, and never swallowed.
pub fn set_theme_outcome(action: &ThemeAction, native: Result<(), String>) -> (r: Result<
    (),
    String,
>)
    ensures
        action is NoOp ==> r is Ok,
        native is Ok ==> r is Ok,
        native matches Err(cause) ==> (action matches ThemeAction::EmitStatusBarTheme(_) ==> (
        r matches Err(m) && m@ == emit_failure_of(cause@))),
        native matches Err(cause) ==> (action matches ThemeAction::SetTitleBarTransparent ==> (
        r matches Err(m) && m@ == style_failure_of(cause@))),
{
    match native {
        Ok(u) => Ok(u),
        Err(cause) => match action {
            ThemeAction::EmitStatusBarTheme(_) => {
                let mut m = String::from_str("Failed to emit status bar theme: ");
                m.append(cause.as_str());
                Err(m)
            },
            ThemeAction::SetTitleBarTransparent => {
                let mut m = String::from_str("Failed to set title bar style: ");
                m.append(cause.as_str());
                Err(m)
            },
            ThemeAction::NoOp => Ok(()),
        },
    }
}

/// A failure report keeps its cause: the native failure's description
/// stands unchanged at the tail of either error message, after the
/// fixed prefix.
pub proof fn lemma_failure_keeps_cause(cause: Seq<char>)
    ensures
        emit_failure_of(cause).skip("Failed to emit status bar theme: "@.len() as int) == cause,
        style_failure_of(cause).skip("Failed to set title bar style: "@.len() as int) == cause,
{
    assert(emit_failure_of(cause).skip("Failed to emit status bar theme: "@.len() as int)
        =~= cause);
    assert(style_failure_of(cause).skip("Failed to set title bar style: "@.len() as int)
        =~= cause);
}

} // verus!
