use gm_cli::account::AccountConfig;
use gm_cli::args::ArgMap;
use gm_cli::config::{
    convert_hashmap_to_string, convert_value_to_string, extend_map, path, settle_load, to_map,
    ConfigContext, ConfigTriat, Scalar,
};
use gm_cli::error::CliError;

fn s(x: &str) -> String {
    String::from(x)
}

#[test]
fn scalars_flatten_to_text() {
    assert_eq!(convert_value_to_string(&Scalar::Null), "");
    assert_eq!(convert_value_to_string(&Scalar::Bool(true)), "true");
    assert_eq!(convert_value_to_string(&Scalar::Bool(false)), "false");
    assert_eq!(convert_value_to_string(&Scalar::Number(s("12"))), "12");
    assert_eq!(convert_value_to_string(&Scalar::Text(s("hi"))), "hi");
}

#[test]
fn fields_flatten_to_map() {
    let m = convert_hashmap_to_string(vec![(s("a"), Scalar::Null), (s("b"), Scalar::Bool(true))]);
    assert_eq!(m.get("a"), Some(&s("")));
    assert_eq!(m.get("b"), Some(&s("true")));
}

#[test]
fn config_path_is_derived() {
    let ctx = ConfigContext { config_dir: s("/home/u/.config"), app_name: s("gm-cli") };
    assert_eq!(path::<AccountConfig>(&ctx), "/home/u/.config/gm-cli/account.yml");
}

#[test]
fn absent_config_gives_defaults() {
    let c = settle_load::<AccountConfig>(None).unwrap();
    assert_eq!(c, AccountConfig::new());
    let m = to_map(&c);
    assert_eq!(m.get("instance"), Some(&s("")));
    assert_eq!(m.get("id"), Some(&s("")));
    assert_eq!(m.get("token"), Some(&s("")));
}

#[test]
fn load_failures_pass_through() {
    let r = settle_load::<AccountConfig>(Some(Err(CliError::ConfigParse(s("bad")))));
    assert_eq!(r, Err(CliError::ConfigParse(s("bad"))));
}

#[test]
fn account_flattens_and_reads_back() {
    let c = AccountConfig { instance: Some(s("https://x")), id: None, token: Some(s("T")) };
    let m = to_map(&c);
    assert_eq!(m.get("id"), Some(&s("")));
    assert_eq!(AccountConfig::from_map(&m), c);
    assert!(AccountConfig::is_loggedin_map(&m));
    assert!(!AccountConfig::is_loggedin_map(&to_map(&AccountConfig::default_config())));
}

#[test]
fn extend_map_lets_record_win() {
    let mut m = ArgMap::new();
    m.insert(s("token"), s("old"));
    m.insert(s("from"), s("a"));
    let c = AccountConfig { instance: Some(s("https://x")), id: Some(s("3")), token: Some(s("new")) };
    extend_map(&c, &mut m);
    assert_eq!(m.get("token"), Some(&s("new")));
    assert_eq!(m.get("from"), Some(&s("a")));
    assert_eq!(m.get("id"), Some(&s("3")));
}

#[test]
fn record_name() {
    assert_eq!(AccountConfig::name(), "account");
    let f = AccountConfig::new().fields();
    assert_eq!(f.len(), 3);
}
