//! The navigation tree: top-level routes, their typed sub-routes, and the
//! stable identifier and localized label attached to each.

use vstd::prelude::*;

verus! {

/// Secondary selector inside the settings screen.
#[derive(PartialEq, Eq, Clone, Copy, Structural, Debug)]
pub enum SettingsSubRoute {
    General,
    Advanced,
    About,
}

/// Secondary selector inside the tools screen.
#[derive(PartialEq, Eq, Clone, Copy, Structural, Debug)]
pub enum ToolsSubRoute {
    Copilot,
    Recruit,
    Gacha,
}

/// Identifier of the currently displayed top-level screen.
#[derive(PartialEq, Eq, Clone, Copy, Structural, Debug)]
pub enum Route {
    Home,
    Tools(ToolsSubRoute),
    Tasks,
    Dashboard,
    Settings(SettingsSubRoute),
}

/// The title of a tools sub-route's tab, as a character sequence.
pub open spec fn tools_tab_title(sub_route: ToolsSubRoute) -> Seq<char> {
    match sub_route {
        ToolsSubRoute::Copilot => "自动战斗"@,
        ToolsSubRoute::Recruit => "公招识别"@,
        ToolsSubRoute::Gacha => "牛牛抽卡"@,
    }
}

/// The title of a settings sub-route's tab, as a character sequence.
pub open spec fn settings_tab_title(sub_route: SettingsSubRoute) -> Seq<char> {
    match sub_route {
        SettingsSubRoute::General => "基础设置"@,
        SettingsSubRoute::Advanced => "高级设置"@,
        SettingsSubRoute::About => "关于"@,
    }
}

impl ToolsSubRoute {
    /// The localized title under which this sub-route appears as a tab.
    pub fn tab_title(&self) -> (r: &'static str)
        ensures
            r@ == tools_tab_title(*self),
    {
        match self {
            ToolsSubRoute::Copilot => "自动战斗",
            ToolsSubRoute::Recruit => "公招识别",
            ToolsSubRoute::Gacha => "牛牛抽卡",
        }
    }
}

impl SettingsSubRoute {
    /// The localized title under which this sub-route appears as a tab.
    pub fn tab_title(&self) -> (r: &'static str)
        ensures
            r@ == settings_tab_title(*self),
    {
        match self {
            SettingsSubRoute::General => "基础设置",
            SettingsSubRoute::Advanced => "高级设置",
            SettingsSubRoute::About => "关于",
        }
    }
}

/// The stable machine-readable identifier of a route, as a character sequence.
pub open spec fn route_id(r: Route) -> Seq<char> {
    match r {
        Route::Home => "home"@,
        Route::Tools(sub_route) => match sub_route {
            ToolsSubRoute::Copilot => "tools-copliot"@,
            ToolsSubRoute::Recruit => "tools-recruit"@,
            ToolsSubRoute::Gacha => "tools-gacha"@,
        },
        Route::Tasks => "tasks"@,
        Route::Dashboard => "dashboard"@,
        Route::Settings(sub_route) => match sub_route {
            SettingsSubRoute::General => "settings-general"@,
            SettingsSubRoute::Advanced => "settings-advanced"@,
            SettingsSubRoute::About => "settings-about"@,
        },
    }
}

/// The human-readable localized label of a route, as a character sequence.
/// A route with sub-routes keeps one label for all of them.
pub open spec fn route_label(r: Route) -> Seq<char> {
    match r {
        Route::Home => "主页"@,
        Route::Tools(_) => "工具"@,
        Route::Tasks => "任务列表"@,
        Route::Dashboard => "仪表盘"@,
        Route::Settings(_) => "设置"@,
    }
}

impl Route {
    /// The stable machine-readable identifier of this route.
    pub fn id(&self) -> (r: &'static str)
        ensures
            r@ == route_id(*self),
    {
        match self {
            Route::Home => "home",
            Route::Tools(sub_route) => match sub_route {
                ToolsSubRoute::Copilot => "tools-copliot",
                ToolsSubRoute::Recruit => "tools-recruit",
                ToolsSubRoute::Gacha => "tools-gacha",
            },
            Route::Tasks => "tasks",
            Route::Dashboard => "dashboard",
            Route::Settings(sub_route) => match sub_route {
                SettingsSubRoute::General => "settings-general",
                SettingsSubRoute::Advanced => "settings-advanced",
                SettingsSubRoute::About => "settings-about",
            },
        }
    }

    /// The localized display label of this route.
    pub fn label(&self) -> (r: &'static str)
        ensures
            r@ == route_label(*self),
    {
        match self {
            Route::Home => "主页",
            Route::Tools(_) => "工具",
            Route::Tasks => "任务列表",
            Route::Dashboard => "仪表盘",
            Route::Settings(_) => "设置",
        }
    }
}

/// Law: every route's identifier is non-empty, and no two distinct routes
/// share an identifier. Together with `Route::id` returning exactly
/// `route_id`, the identifier is a stable pure function of the route.
pub proof fn lemma_route_id_unique(a: Route, b: Route)
    ensures
        route_id(a).len() > 0,
        route_id(a) == route_id(b) ==> a == b,
{
    reveal_strlit("home");
    reveal_strlit("tools-copliot");
    reveal_strlit("tools-recruit");
    reveal_strlit("tools-gacha");
    reveal_strlit("tasks");
    reveal_strlit("dashboard");
    reveal_strlit("settings-general");
    reveal_strlit("settings-advanced");
    reveal_strlit("settings-about");
    if route_id(a) == route_id(b) && a != b {
        assert(route_id(a).len() == route_id(b).len());
        assert(route_id(a)[6] == route_id(b)[6]);
        assert(false);
    }
}

/// Law: a route's label does not depend on which of its sub-routes is
/// selected — all tools routes share one label, and all settings routes
/// share one label.
pub proof fn lemma_label_ignores_sub_route(
    a: ToolsSubRoute,
    b: ToolsSubRoute,
    c: SettingsSubRoute,
    d: SettingsSubRoute,
)
    ensures
        route_label(Route::Tools(a)) == route_label(Route::Tools(b)),
        route_label(Route::Settings(c)) == route_label(Route::Settings(d)),
{
}

} // verus!
