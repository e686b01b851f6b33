use mycelial::config::{
    ClientConfig, CommonAttrs, Destination, HelloWorldSourceConfig, Node, Server, Source, SqliteDestinationConfig,
};

#[test]
fn defaults_are_empty() {
    let c = SqliteDestinationConfig::default();
    assert_eq!(c.common_attrs.display_name, "");
    assert_eq!(c.path, "");
    assert!(!c.truncate);
    let h = HelloWorldSourceConfig::default();
    assert_eq!(h.interval_milis, 0);
}

#[test]
fn client_config_holds_sections() {
    let c = ClientConfig {
        node: Node {
            display_name: "n".into(),
            unique_id: "u".into(),
            storage_path: "/s".into(),
            auth_token: "t".into(),
        },
        server: Server { endpoint: "http://localhost:8080".into() },
        sources: vec![Source::Hello_World(HelloWorldSourceConfig {
            common_attrs: CommonAttrs { display_name: "hello".into() },
            message: "hi".into(),
            interval_milis: 100,
        })],
        destinations: vec![Destination::Sqlite_Connector(SqliteDestinationConfig::default())],
    };
    let copy = c.clone();
    assert_eq!(copy.sources.len(), 1);
    match &copy.sources[0] {
        Source::Hello_World(h) => assert_eq!(h.interval_milis, 100),
        _ => panic!("wrong source"),
    }
    assert_eq!(copy.server.endpoint, "http://localhost:8080");
}
