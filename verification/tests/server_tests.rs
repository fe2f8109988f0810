use yawsf::openapi::{replace_all_in, scalar_page};
use yawsf::server::{
    health, interrupt_plan, mutation_status, queued_status, quit_plan, quit_response,
    InterruptPlan, ShellClient, ShutdownLatch,
};
use yawsf::surfaces::{
    find_monitor, layer_shell_readiness, present_on_load, visibility_on_update,
    LayerShellUnavailable, VisibilityChange,
};
use yawsf::Cli;

#[test]
fn only_the_first_quit_notifies() {
    let mut latch = ShutdownLatch::new();
    assert!(latch.begin_shutdown());
    assert!(!latch.begin_shutdown());
    assert!(!latch.begin_shutdown());
}

#[test]
fn quit_plan_depends_on_supervision() {
    let external = quit_plan(true, false);
    assert!(external.notify_shell && external.shut_down_server);
    let supervised = quit_plan(true, true);
    assert!(!supervised.notify_shell && supervised.shut_down_server);
    let repeated = quit_plan(false, false);
    assert!(!repeated.notify_shell && !repeated.shut_down_server);
    assert_eq!(quit_response().status, "shutting down");
    assert_eq!(health().status, "ok");
}

#[test]
fn interrupt_plan_depends_on_supervision() {
    assert_eq!(interrupt_plan(true), InterruptPlan::Cancel);
    assert_eq!(interrupt_plan(false), InterruptPlan::NotifyShellAndQuit);
}

#[test]
fn statuses() {
    assert_eq!(mutation_status(true, true), 204);
    assert_eq!(mutation_status(false, false), 503);
    assert_eq!(mutation_status(true, false), 503);
    assert_eq!(queued_status(true), 202);
    assert_eq!(queued_status(false), 503);
}

#[test]
fn shell_client_callbacks_and_payload() {
    let args = Cli {
        base_url: "http://127.0.0.1:12551/".to_string(),
        bind: "127.0.0.1:12550".to_string(),
        token: "tok".to_string(),
        webapp_command: None,
    };
    let client = ShellClient::new(&args, "http://127.0.0.1:12550/".to_string());
    assert_eq!(client.start_url().unwrap(), "http://127.0.0.1:12551/_start");
    assert_eq!(client.quit_url().unwrap(), "http://127.0.0.1:12551/_quit");
    let payload = client.start_payload();
    assert_eq!(payload.protocol, "yawsf-v1");
    assert_eq!(payload.host_api, "http://127.0.0.1:12550/");
    assert_eq!(payload.token, "tok");
}

#[test]
fn scalar_page_embeds_the_token_as_json() {
    let page = scalar_page("<script>const t = $token; use($token)</script>", "a\"b");
    assert_eq!(page, "<script>const t = \"a\\\"b\"; use(\"a\\\"b\")</script>");
    assert_eq!(scalar_page("no placeholder", "x"), "no placeholder");
}

#[test]
fn replacement_scans_left_to_right_without_overlap() {
    assert_eq!(replace_all_in("aaa", "aa", "b"), "aaa".replace("aa", "b"));
    assert_eq!(replace_all_in("héllo wörld", "ö", "o"), "héllo world");
    assert_eq!(replace_all_in("", "x", "y"), "");
    assert_eq!(replace_all_in("$to$token", "$token", "T"), "$toT");
}

#[test]
fn monitor_is_found_by_connector() {
    let connectors = vec![None, Some("DP-1".to_string()), Some("HDMI-A-1".to_string()), Some("DP-1".to_string())];
    assert_eq!(find_monitor(&connectors, Some("DP-1")), Some(1));
    assert_eq!(find_monitor(&connectors, Some("HDMI-A-1")), Some(2));
    assert_eq!(find_monitor(&connectors, Some("eDP-1")), None);
    assert_eq!(find_monitor(&connectors, None), None);
}

#[test]
fn visibility_decisions() {
    assert_eq!(visibility_on_update(true, false), VisibilityChange::Present);
    assert_eq!(visibility_on_update(false, true), VisibilityChange::Hide);
    assert_eq!(visibility_on_update(false, false), VisibilityChange::Keep);
    assert!(present_on_load(true, true, true));
    assert!(!present_on_load(true, false, true));
    assert!(!present_on_load(false, true, true));
    assert!(!present_on_load(true, true, false));
}

#[test]
fn layer_shell_needs_a_wayland_display_with_the_protocol() {
    assert_eq!(layer_shell_readiness(true, true, true), Ok(()));
    let no_display = layer_shell_readiness(false, false, false).unwrap_err();
    assert_eq!(no_display, LayerShellUnavailable::NoDisplay);
    assert_eq!(no_display.message(), "GTK display unavailable");
    let unsupported = layer_shell_readiness(true, false, true).unwrap_err();
    assert_eq!(unsupported, LayerShellUnavailable::Unsupported);
    assert!(unsupported.message().starts_with("layer-shell unavailable"));
    assert_eq!(layer_shell_readiness(true, true, false), Err(LayerShellUnavailable::Unsupported));
}

#[test]
fn token_json_escapes_controls() {
    assert_eq!(scalar_page("$token", "\n\u{1}\té\\/"), "\"\\n\\u0001\\té\\\\/\"");
    assert_eq!(scalar_page("$token", "\u{8}\u{c}\r\u{1f}"), "\"\\b\\f\\r\\u001f\"");
}

#[test]
fn empty_pattern_is_replaced_like_str_replace() {
    assert_eq!(replace_all_in("abc", "", "-"), "abc".replace("", "-"));
    assert_eq!(replace_all_in("", "", "-"), "".replace("", "-"));
    assert_eq!(replace_all_in("é", "", "+"), "+é+");
}
