use javy_plugin_kubewarden::config::RuntimeConfiguration;
use javy_plugin_kubewarden::config::config;

#[test]
fn config_enables_text_encoding_and_stream_io() {
    let c = config();
    assert!(c.text_encoding);
    assert!(c.javy_stream_io);
}

#[test]
fn default_configuration_has_all_features_off() {
    let c = RuntimeConfiguration::default();
    assert!(!c.text_encoding);
    assert!(!c.javy_stream_io);
}

#[test]
fn builders_set_one_flag_and_keep_the_other() {
    let c = RuntimeConfiguration::default().text_encoding(true);
    assert!(c.text_encoding);
    assert!(!c.javy_stream_io);
    let c = RuntimeConfiguration::default().javy_stream_io(true);
    assert!(!c.text_encoding);
    assert!(c.javy_stream_io);
}
