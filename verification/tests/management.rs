use server_launcher::app::{App, ServerConfig, StoreError};
use server_launcher::events::Action;
use server_launcher::status::ServerStatus;

fn record(name: &str, host: &str, port: u16, status: ServerStatus) -> ServerConfig {
    ServerConfig { name: name.to_string(), host: host.to_string(), port, status }
}

fn three() -> App {
    App::new(Ok(vec![
        record("game", "10.0.0.1", 25565, ServerStatus::Running),
        record("web", "10.0.0.2", 80, ServerStatus::Stopped),
        record("db", "10.0.0.3", 5432, ServerStatus::Error),
    ]))
}

fn names(app: &App) -> Vec<String> {
    app.servers.iter().map(|s| s.name.clone()).collect()
}

#[test]
fn add_appends_and_asks_for_a_write() {
    let mut app = App::new(Err(StoreError::NotFound));
    let action = app.add_server(record("api", "localhost", 65535, ServerStatus::Starting));
    assert_eq!(action, Action::Persist);
    assert_eq!(app.servers.len(), 1);
    assert_eq!(app.servers[0].name, "api");
    assert_eq!(app.servers[0].host, "localhost");
    assert_eq!(app.servers[0].port, 65535);
    assert_eq!(app.servers[0].status, ServerStatus::Starting);
    assert_eq!(app.selected_server, 0);
    let action = app.add_server(record("cache", "localhost", 0, ServerStatus::Stopped));
    assert_eq!(action, Action::Persist);
    assert_eq!(names(&app), vec!["api", "cache"]);
    assert_eq!(app.selected_server, 0);
}

#[test]
fn remove_takes_the_row_out_and_keeps_the_order() {
    let mut app = three();
    assert_eq!(app.remove_server(1), Action::Persist);
    assert_eq!(names(&app), vec!["game", "db"]);
    assert_eq!(app.selected_server, 0);
}

#[test]
fn removing_the_highlighted_last_row_moves_the_highlight_up() {
    let mut app = three();
    app.selected_server = 2;
    assert_eq!(app.remove_server(2), Action::Persist);
    assert_eq!(app.selected_server, 1);
    assert_eq!(names(&app), vec!["game", "web"]);
}

#[test]
fn removing_a_row_above_the_highlighted_last_row_clamps() {
    let mut app = three();
    app.selected_server = 2;
    assert_eq!(app.remove_server(0), Action::Persist);
    assert_eq!(app.selected_server, 1);
    assert_eq!(names(&app), vec!["web", "db"]);
}

#[test]
fn removing_a_row_keeps_a_highlight_that_is_still_valid() {
    let mut app = three();
    app.selected_server = 1;
    assert_eq!(app.remove_server(0), Action::Persist);
    assert_eq!(app.selected_server, 1);
    assert_eq!(app.servers[app.selected_server].name, "db");
}

#[test]
fn removing_the_only_row_leaves_an_empty_list() {
    let mut app = App::new(Ok(vec![record("solo", "h", 1, ServerStatus::Running)]));
    assert_eq!(app.remove_server(0), Action::Persist);
    assert!(app.servers.is_empty());
    assert_eq!(app.selected_server, 0);
    app.next();
    app.previous();
    assert_eq!(app.selected_server, 0);
    assert_eq!(app.add_server(record("again", "h", 2, ServerStatus::Stopped)), Action::Persist);
    assert_eq!(app.servers[app.selected_server].name, "again");
}

#[test]
fn remove_past_the_end_is_ignored() {
    let mut app = three();
    app.selected_server = 2;
    assert_eq!(app.remove_server(3), Action::Continue);
    assert_eq!(app.remove_server(usize::MAX), Action::Continue);
    assert_eq!(names(&app), vec!["game", "web", "db"]);
    assert_eq!(app.selected_server, 2);
    let mut empty = App::new(Err(StoreError::Decode));
    assert_eq!(empty.remove_server(0), Action::Continue);
    assert!(empty.servers.is_empty());
}

#[test]
fn update_replaces_one_row() {
    let mut app = three();
    app.selected_server = 1;
    let action = app.update_server(1, record("proxy", "10.0.0.9", 8080, ServerStatus::Starting));
    assert_eq!(action, Action::Persist);
    assert_eq!(names(&app), vec!["game", "proxy", "db"]);
    assert_eq!(app.servers[1].host, "10.0.0.9");
    assert_eq!(app.servers[1].port, 8080);
    assert_eq!(app.servers[1].status, ServerStatus::Starting);
    assert_eq!(app.servers[0].port, 25565);
    assert_eq!(app.selected_server, 1);
}

#[test]
fn update_past_the_end_is_ignored() {
    let mut app = three();
    let action = app.update_server(3, record("ghost", "nowhere", 1, ServerStatus::Error));
    assert_eq!(action, Action::Continue);
    assert_eq!(names(&app), vec!["game", "web", "db"]);
}

#[test]
fn select_toggles_the_highlighted_service() {
    let mut app = three();
    assert_eq!(app.select_item(), Action::Persist);
    assert_eq!(app.servers[0].status, ServerStatus::Stopped);
    assert_eq!(app.select_item(), Action::Persist);
    assert_eq!(app.servers[0].status, ServerStatus::Starting);
    assert_eq!(app.select_item(), Action::Persist);
    assert_eq!(app.servers[0].status, ServerStatus::Starting);
    assert_eq!(app.servers[0].name, "game");
    assert_eq!(app.servers[0].host, "10.0.0.1");
    assert_eq!(app.servers[0].port, 25565);
    assert_eq!(app.servers[1].status, ServerStatus::Stopped);
    assert_eq!(app.servers[2].status, ServerStatus::Error);
}

#[test]
fn select_leaves_a_failed_service_as_it_is() {
    let mut app = three();
    app.selected_server = 2;
    assert_eq!(app.select_item(), Action::Persist);
    assert_eq!(app.servers[2].status, ServerStatus::Error);
    assert_eq!(app.servers[0].status, ServerStatus::Running);
}

#[test]
fn select_does_nothing_off_the_servers_tab() {
    let mut app = three();
    app.next_tab();
    assert_eq!(app.select_item(), Action::Continue);
    assert_eq!(app.servers[0].status, ServerStatus::Running);
}

#[test]
fn select_does_nothing_on_an_empty_list() {
    let mut app = App::new(Err(StoreError::NotFound));
    assert_eq!(app.select_item(), Action::Continue);
    assert!(app.servers.is_empty());
}
