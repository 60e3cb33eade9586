use zoot::route::{Route, SettingsSubRoute, ToolsSubRoute};
use zoot::state::AppRoute;

fn all_routes() -> Vec<Route> {
    vec![
        Route::Home,
        Route::Tools(ToolsSubRoute::Copilot),
        Route::Tools(ToolsSubRoute::Recruit),
        Route::Tools(ToolsSubRoute::Gacha),
        Route::Tasks,
        Route::Dashboard,
        Route::Settings(SettingsSubRoute::General),
        Route::Settings(SettingsSubRoute::Advanced),
        Route::Settings(SettingsSubRoute::About),
    ]
}

#[test]
fn route_ids_are_nonempty_and_unique() {
    let routes = all_routes();
    for r in &routes {
        assert!(!r.id().is_empty());
    }
    for i in 0..routes.len() {
        for j in 0..routes.len() {
            if i != j {
                assert_ne!(routes[i].id(), routes[j].id());
            }
        }
    }
}

#[test]
fn route_id_is_stable_across_calls() {
    for r in all_routes() {
        assert_eq!(r.id(), r.id());
        assert_eq!(r.label(), r.label());
    }
}

#[test]
fn route_id_exact_values() {
    assert_eq!(Route::Home.id(), "home");
    assert_eq!(Route::Tools(ToolsSubRoute::Copilot).id(), "tools-copliot");
    assert_eq!(Route::Tools(ToolsSubRoute::Recruit).id(), "tools-recruit");
    assert_eq!(Route::Tools(ToolsSubRoute::Gacha).id(), "tools-gacha");
    assert_eq!(Route::Tasks.id(), "tasks");
    assert_eq!(Route::Dashboard.id(), "dashboard");
    assert_eq!(Route::Settings(SettingsSubRoute::General).id(), "settings-general");
    assert_eq!(Route::Settings(SettingsSubRoute::Advanced).id(), "settings-advanced");
    assert_eq!(Route::Settings(SettingsSubRoute::About).id(), "settings-about");
}

#[test]
fn route_label_exact_values() {
    assert_eq!(Route::Home.label(), "主页");
    assert_eq!(Route::Tools(ToolsSubRoute::Recruit).label(), "工具");
    assert_eq!(Route::Tasks.label(), "任务列表");
    assert_eq!(Route::Dashboard.label(), "仪表盘");
    assert_eq!(Route::Settings(SettingsSubRoute::About).label(), "设置");
}

#[test]
fn label_is_invariant_to_sub_route() {
    assert_eq!(
        Route::Tools(ToolsSubRoute::Copilot).label(),
        Route::Tools(ToolsSubRoute::Gacha).label()
    );
    assert_eq!(
        Route::Tools(ToolsSubRoute::Copilot).label(),
        Route::Tools(ToolsSubRoute::Recruit).label()
    );
    assert_eq!(
        Route::Settings(SettingsSubRoute::General).label(),
        Route::Settings(SettingsSubRoute::Advanced).label()
    );
    assert_eq!(
        Route::Settings(SettingsSubRoute::General).label(),
        Route::Settings(SettingsSubRoute::About).label()
    );
}

#[test]
fn tab_titles_exact_values() {
    assert_eq!(ToolsSubRoute::Copilot.tab_title(), "自动战斗");
    assert_eq!(ToolsSubRoute::Recruit.tab_title(), "公招识别");
    assert_eq!(ToolsSubRoute::Gacha.tab_title(), "牛牛抽卡");
    assert_eq!(SettingsSubRoute::General.tab_title(), "基础设置");
    assert_eq!(SettingsSubRoute::Advanced.tab_title(), "高级设置");
    assert_eq!(SettingsSubRoute::About.tab_title(), "关于");
}

#[test]
fn initial_route_is_home() {
    let state = AppRoute::new();
    assert_eq!(state.route, Route::Home);
    assert_eq!(state.current(), Route::Home);
}

#[test]
fn set_route_round_trip() {
    let mut state = AppRoute::new();
    for r in all_routes() {
        state.set_route(r);
        assert_eq!(state.current(), r);
        assert_eq!(state.route, r);
    }
}

#[test]
fn startup_scenario() {
    let mut state = AppRoute::new();
    assert_eq!(state.current(), Route::Home);
    assert_eq!(state.current().id(), "home");
    assert_eq!(state.current().label(), "主页");
    state.set_route(Route::Settings(SettingsSubRoute::Advanced));
    assert_eq!(state.current().id(), "settings-advanced");
    assert_eq!(state.current().label(), "设置");
}

#[test]
fn subscribers_are_notified_in_registration_order() {
    let mut state = AppRoute::new();
    let first = state.subscribe();
    let second = state.subscribe();
    assert_eq!(first, 1);
    assert_eq!(second, 2);
    let notified = state.set_route(Route::Tasks);
    assert_eq!(notified, vec![0, 1, 2]);
    let notified_again = state.set_route(Route::Home);
    assert_eq!(notified_again, vec![0, 1, 2]);
}
