use oobe::engine::{core_event_reaction, core_plugins, plugin_api_path, ConnectRetry, EventReaction, RetryStep, RouterManager};
use oobe::macro_args::{MacroArgInput, MacroArgs, MetaItem, MetaValue};
use oobe::pubsub::{
    delivered_topic, parse_client_command, publish_command, ClientCommand, Connection, ConnectionAction, Subscribers,
};

fn publish(conn: &mut Connection, subs: &mut Subscribers, json: &str) -> ConnectionAction {
    conn.handle_text(subs, &format!("publish-json:{}", json))
}

#[test]
fn client_commands_are_parsed_and_trimmed() {
    assert!(matches!(parse_client_command("register-name:  ui  "), ClientCommand::RegisterName(n) if n == "ui"));
    assert!(matches!(parse_client_command("subscribe: topic "), ClientCommand::Subscribe(t) if t == "topic"));
    assert!(matches!(parse_client_command("unsubscribe:topic"), ClientCommand::Unsubscribe(t) if t == "topic"));
    assert!(matches!(parse_client_command("publish-json: {}"), ClientCommand::PublishJson(j) if j == " {}"));
    assert!(matches!(parse_client_command("hello"), ClientCommand::Unrecognized));
}

#[test]
fn subscribers_receive_publications_in_order() {
    let mut subs = Subscribers::new();
    let mut a = Connection::new(1);
    let mut b = Connection::new(2);
    let mut c = Connection::new(3);
    a.handle_text(&mut subs, "register-name:alpha");
    assert_eq!(a.client_name, "alpha");
    a.handle_text(&mut subs, "subscribe:news");
    b.handle_text(&mut subs, "subscribe:news");
    b.handle_text(&mut subs, "subscribe:other");
    let r = publish(&mut c, &mut subs, r#"{"topic":"news","payload":"hi","publisher_name":"c","timestamp":"t1"}"#);
    match r {
        ConnectionAction::Publish { topic, message, recipients } => {
            assert_eq!(topic, "news");
            assert_eq!(recipients, vec![1, 2]);
            assert_eq!(message, r#"{"payload":"hi","publisher_name":"c","timestamp":"t1","topic":"news"}"#);
        },
        _ => panic!("expected a publication"),
    }
}

#[test]
fn publication_defaults_and_bad_json() {
    let mut subs = Subscribers::new();
    let mut c = Connection::new(9);
    match publish(&mut c, &mut subs, r#"{"payload": 5}"#) {
        ConnectionAction::Publish { topic, message, recipients } => {
            assert_eq!(topic, "<none>");
            assert!(recipients.is_empty());
            assert_eq!(message, r#"{"payload":"","publisher_name":"<unknown>","timestamp":"","topic":"<none>"}"#);
        },
        _ => panic!("expected a publication"),
    }
    assert!(matches!(publish(&mut c, &mut subs, "not json"), ConnectionAction::BadJson));
    assert!(matches!(c.handle_text(&mut subs, "noise"), ConnectionAction::Nothing));
}

#[test]
fn unsubscribe_and_close_stop_delivery() {
    let mut subs = Subscribers::new();
    let mut a = Connection::new(1);
    let mut b = Connection::new(2);
    a.handle_text(&mut subs, "subscribe:x");
    a.handle_text(&mut subs, "subscribe:y");
    b.handle_text(&mut subs, "subscribe:x");
    a.handle_text(&mut subs, "unsubscribe:x");
    assert_eq!(subs.subscribers_of("x"), vec![2]);
    assert_eq!(a.topics, vec!["y".to_string()]);
    b.handle_text(&mut subs, "subscribe:y");
    a.close(&mut subs);
    assert_eq!(subs.subscribers_of("y"), vec![2]);
    assert_eq!(subs.subscribers_of("x"), vec![2]);
}

#[test]
fn undelivered_subscribers_are_dropped() {
    let mut subs = Subscribers::new();
    subs.subscribe("t", 1);
    subs.subscribe("t", 2);
    subs.subscribe("t", 3);
    subs.retain_delivered("t", &vec![true, false, true]);
    assert_eq!(subs.subscribers_of("t"), vec![1, 3]);
    assert!(subs.subscribers_of("unknown").is_empty());
}

#[test]
fn router_paths() {
    assert_eq!(RouterManager::plugin_web_path("wifi"), "/wifi/web");
    assert_eq!(RouterManager::plugin_web_path("/wifi"), "/wifi/web");
    assert_eq!(RouterManager::static_route_path("webapp"), "/webapp");
    assert_eq!(RouterManager::static_route_path("/webapp"), "/webapp");
    assert_eq!(plugin_api_path("plugin_wifi"), "/plugin_wifi/api/*path");
}

#[test]
fn core_plugins_and_reactions() {
    let names: Vec<(String, String)> = core_plugins().into_iter().map(|p| (p.name, p.params)).collect();
    assert_eq!(names.len(), 7);
    assert_eq!(names[0], ("plugin_welcome".to_string(), "continue=false".to_string()));
    assert_eq!(names[6], ("plugin_finish".to_string(), "done=true".to_string()));
    assert!(matches!(core_event_reaction("WelcomeCompleted"), EventReaction::SwitchTo(p) if p == "/mwifi/web"));
    assert!(matches!(core_event_reaction("WifiCompleted"), EventReaction::LoadPlanThenSwitchTo(p) if p == "/execution/web"));
    assert!(matches!(core_event_reaction("ExecutionPlanCompleted"), EventReaction::SwitchTo(p) if p == "/login/web"));
    assert!(matches!(core_event_reaction("ProvisionCompleted"), EventReaction::SwitchTo(p) if p == "/status/web"));
    assert!(matches!(core_event_reaction("Other"), EventReaction::LogOnly));
}

#[test]
fn hub_connection_gives_up_after_five_failures() {
    let mut r = ConnectRetry::new();
    for _ in 0..4 {
        assert!(r.after_failure() == RetryStep::WaitAndRetry);
    }
    assert!(r.after_failure() == RetryStep::GiveUp);
    assert_eq!(r.failures, 5);
}

#[test]
fn macro_arguments_forms() {
    let a = MacroArgs::from_input(&MacroArgInput::Empty);
    assert!(a.max_attempts.is_none() && a.category.is_none());
    let a = MacroArgs::from_input(&MacroArgInput::Literal {
        first: Some("checkout".to_string()),
        second: Some(Some("error".to_string())),
    });
    assert_eq!(a.category.as_deref(), Some("checkout"));
    assert_eq!(a.flag_name.as_deref(), Some("checkout"));
    assert_eq!(a.success_level.as_deref(), Some("checkout"));
    assert_eq!(a.error_level.as_deref(), Some("error"));
    let a = MacroArgs::from_input(&MacroArgInput::Items(vec![
        MetaItem::NameValue { name: "max_attempts".to_string(), value: MetaValue::Int(Some(5)) },
        MetaItem::NameValue { name: "rate".to_string(), value: MetaValue::Int(Some(10)) },
        MetaItem::NameValue { name: "unknown".to_string(), value: MetaValue::Int(Some(1)) },
        MetaItem::Path(Some("first".to_string())),
        MetaItem::List(Some("second".to_string())),
        MetaItem::NameValue { name: "failure_threshold".to_string(), value: MetaValue::Other },
    ]));
    assert_eq!(a.max_attempts, Some(5));
    assert_eq!(a.rate, Some(10));
    assert_eq!(a.failure_threshold, None);
    assert_eq!(a.category.as_deref(), Some("first"));
}

#[test]
fn subscribe_then_unsubscribe_restores_the_list() {
    let mut subs = Subscribers::new();
    subs.subscribe("t", 1);
    subs.subscribe("t", 3);
    let mut c = Connection::new(2);
    c.handle_text(&mut subs, "subscribe:t");
    assert_eq!(subs.subscribers_of("t"), vec![1, 3, 2]);
    c.handle_text(&mut subs, "unsubscribe:t");
    assert_eq!(subs.subscribers_of("t"), vec![1, 3]);
    let mut d = Connection::new(4);
    d.handle_text(&mut subs, "subscribe:t");
    subs.subscribe("t", 5);
    d.handle_text(&mut subs, "subscribe:u");
    d.close(&mut subs);
    assert_eq!(subs.subscribers_of("t"), vec![1, 3, 5]);
    assert!(subs.subscribers_of("u").is_empty());
}

#[test]
fn published_message_text_escapes_strings() {
    let mut subs = Subscribers::new();
    let mut listener = Connection::new(1);
    listener.handle_text(&mut subs, "subscribe:t");
    let mut sender = Connection::new(2);
    let json = "{\"topic\":\"t\",\"payload\":\"a\\\"b\\n\\u0001/\u{e9}\",\"publisher_name\":\"p\\\\q\"}";
    match publish(&mut sender, &mut subs, json) {
        ConnectionAction::Publish { topic, message, recipients } => {
            assert_eq!(topic, "t");
            assert_eq!(recipients, vec![1]);
            assert_eq!(
                message,
                "{\"payload\":\"a\\\"b\\n\\u0001/\u{e9}\",\"publisher_name\":\"p\\\\q\",\"timestamp\":\"\",\"topic\":\"t\"}"
            );
        },
        _ => panic!("expected a publication"),
    }
}

#[test]
fn publish_command_and_delivered_topic() {
    let cmd = publish_command("engine", "Core:Ready", "go\t!", "2024-01-01T00:00:00Z");
    assert_eq!(
        cmd,
        "publish-json:{\"payload\":\"go\\t!\",\"publisher_name\":\"engine\",\"timestamp\":\"2024-01-01T00:00:00Z\",\"topic\":\"Core:Ready\"}"
    );
    let body = &cmd["publish-json:".len()..];
    assert_eq!(delivered_topic(body), Some("Core:Ready".to_string()));
    assert_eq!(delivered_topic("{\"topic\":7}"), None);
    assert_eq!(delivered_topic("not json"), None);
    let mut subs = Subscribers::new();
    let mut listener = Connection::new(3);
    listener.handle_text(&mut subs, "subscribe:Core:Ready");
    let mut engine = Connection::new(4);
    match engine.handle_text(&mut subs, &cmd) {
        ConnectionAction::Publish { message, recipients, .. } => {
            assert_eq!(message, body);
            assert_eq!(recipients, vec![3]);
        },
        _ => panic!("expected a publication"),
    }
}
