use javy_plugin_kubewarden::action::policy_action;
use javy_plugin_kubewarden::error::BridgeError;

#[test]
fn policy_action_no_arguments_fails() {
    let args: Vec<String> = vec![];
    assert_eq!(policy_action(&args), Err(BridgeError::MalformedInvocation));
}

#[test]
fn policy_action_one_argument_fails() {
    let args = vec![String::from("program")];
    assert_eq!(policy_action(&args), Err(BridgeError::MalformedInvocation));
}

#[test]
fn policy_action_three_arguments_fails() {
    let args = vec![
        String::from("program"),
        String::from("validate"),
        String::from("extra"),
    ];
    assert_eq!(policy_action(&args), Err(BridgeError::MalformedInvocation));
}

#[test]
fn policy_action_two_arguments_returns_second_verbatim() {
    let args = vec![String::from("program"), String::from("validate")];
    assert_eq!(policy_action(&args), Ok(String::from("validate")));
}

#[test]
fn policy_action_returns_empty_string_verbatim() {
    let args = vec![String::from("program"), String::new()];
    assert_eq!(policy_action(&args), Ok(String::new()));
}

#[test]
fn policy_action_returns_non_ascii_verbatim() {
    let action = String::from("v\u{00e9}rifier-\u{65e5}\u{672c}\u{8a9e}");
    let args = vec![String::from("program"), action.clone()];
    assert_eq!(policy_action(&args), Ok(action));
}
