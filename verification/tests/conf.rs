use eloran::conf::{init_conf, Conf};

#[test]
fn test_conf() {
    let conf = init_conf(Vec::new());
    assert_eq!(conf.bind, "0.0.0.0:3200");
    assert_eq!(conf.library_path, Some(Vec::new()));
    let conf = init_conf(vec!["eloran".to_string(), "127.0.0.1:8080".to_string()]);
    assert_eq!(conf.bind, "127.0.0.1:8080");
    assert_eq!(conf.library_path, Some(Vec::new()));
}

#[test]
fn default_conf_listens_everywhere_on_3200() {
    let conf = Conf::default();
    assert_eq!(conf.bind, "0.0.0.0:3200");
    assert_eq!(conf.library_path, Some(Vec::new()));
}

#[test]
fn extra_arguments_keep_the_default_address() {
    let conf = init_conf(vec![
        "eloran".to_string(),
        "127.0.0.1:8080".to_string(),
        "more".to_string(),
    ]);
    assert_eq!(conf.bind, "0.0.0.0:3200");
    let conf = init_conf(vec!["eloran".to_string()]);
    assert_eq!(conf.bind, "0.0.0.0:3200");
}
