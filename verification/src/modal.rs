//! Overlay panels and completion menus.
use vstd::prelude::*;

verus! {

/// The overlay that owns the surface.
#[derive(Debug, Clone, Copy, PartialEq, Eq, Structural)]
pub enum Modal {
    /// No overlay is open.
    Closed,
    Provider,
    ModelEditor,
    ProviderTemplate,
    CustomProvider,
    AddModel,
    HistorySearch,
    Sessions,
    Permission,
    Question,
    InputInjection,
    Help,
    Tools,
    Mcp,
    Skills,
    Permissions,
    Config,
    ConfigNudge,
    ConfigLayout,
    Activity,
    TokenReport,
    Debug,
}

impl Default for Modal {
    fn default() -> (modal: Self)
        ensures
            modal == Modal::Closed,
    {
        Modal::Closed
    }
}

/// The completion menu that is open.
#[derive(Debug, Clone, Copy, PartialEq, Eq, Structural)]
pub enum CompletionKind {
    /// No menu is open.
    Closed,
    /// Slash commands.
    Slash,
    /// `@path` mentions.
    Path,
}

impl Default for CompletionKind {
    fn default() -> (kind: Self)
        ensures
            kind == CompletionKind::Closed,
    {
        CompletionKind::Closed
    }
}

/// Section shown by the activity panel.
#[derive(Debug, Clone, Copy, PartialEq, Eq, Structural)]
pub enum ActivityTab {
    Activity,
    Todos,
}

} // verus!
