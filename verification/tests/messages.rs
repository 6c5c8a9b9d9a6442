use vulkan_tutorial_rs::init::{
    check_validation_layer_support, choose_validation_layers, has_layer, validation_layers,
    ValidationLayers,
};
use vulkan_tutorial_rs::vulkano_ext::{
    format_message, message_severity_to_string, message_type_to_string, MessageSeverity,
    MessageType,
};

fn severity(error: bool, warning: bool, information: bool, verbose: bool) -> MessageSeverity {
    MessageSeverity { error, warning, information, verbose }
}

fn kind(general: bool, validation: bool, performance: bool) -> MessageType {
    MessageType { general, validation, performance }
}

#[test]
fn each_single_severity_has_its_name() {
    assert_eq!(message_severity_to_string(severity(false, false, false, true)), "Verbose");
    assert_eq!(message_severity_to_string(severity(false, false, true, false)), "Info");
    assert_eq!(message_severity_to_string(severity(false, true, false, false)), "Warning");
    assert_eq!(message_severity_to_string(severity(true, false, false, false)), "Error");
}

#[test]
fn each_single_kind_has_its_name() {
    assert_eq!(message_type_to_string(kind(true, false, false)), "General");
    assert_eq!(message_type_to_string(kind(false, true, false)), "Validation");
    assert_eq!(message_type_to_string(kind(false, false, true)), "Performance");
}

#[test]
fn a_severity_is_single_with_exactly_one_flag() {
    assert!(severity(true, false, false, false).is_single());
    assert!(severity(false, false, false, true).is_single());
    assert!(!severity(false, false, false, false).is_single());
    assert!(!severity(true, true, false, false).is_single());
    assert!(!severity(true, true, true, true).is_single());
}

#[test]
fn a_kind_is_single_with_exactly_one_flag() {
    assert!(kind(true, false, false).is_single());
    assert!(kind(false, false, true).is_single());
    assert!(!kind(false, false, false).is_single());
    assert!(!kind(true, false, true).is_single());
    assert!(!kind(true, true, true).is_single());
}

#[test]
fn a_message_is_reported_on_one_line() {
    let line = format_message(
        severity(false, true, false, false),
        kind(false, true, false),
        "Validation",
        "vkCreateDevice: bad argument",
    );
    assert_eq!(line, "VK-Validation-Warning: Validation: vkCreateDevice: bad argument");
    let line = format_message(severity(true, false, false, false), kind(true, false, false), "", "");
    assert_eq!(line, "VK-General-Error: : ");
}

#[test]
fn the_standard_validation_layer_is_asked_for() {
    assert_eq!(validation_layers(), vec!["VK_LAYER_LUNARG_standard_validation"]);
}

#[test]
fn a_layer_is_found_by_its_whole_name() {
    let layers = vec![String::from("VK_LAYER_A"), String::from("VK_LAYER_B")];
    assert!(has_layer(&layers, &String::from("VK_LAYER_B")));
    assert!(!has_layer(&layers, &String::from("VK_LAYER")));
    assert!(!has_layer(&Vec::new(), &String::from("VK_LAYER_A")));
}

#[test]
fn validation_is_supported_where_the_layer_is_offered() {
    let offered = vec![
        String::from("VK_LAYER_KHRONOS_validation"),
        String::from("VK_LAYER_LUNARG_standard_validation"),
    ];
    assert!(check_validation_layer_support(&offered));
}

#[test]
fn validation_is_not_supported_where_the_layer_is_missing() {
    assert!(!check_validation_layer_support(&Vec::new()));
    let offered = vec![
        String::from("VK_LAYER_KHRONOS_validation"),
        String::from("VK_LAYER_LUNARG_standard_validation "),
    ];
    assert!(!check_validation_layer_support(&offered));
}

#[test]
fn layers_are_used_where_they_are_asked_for_and_offered() {
    let offered = vec![String::from("VK_LAYER_LUNARG_standard_validation")];
    assert_eq!(choose_validation_layers(true, &offered), ValidationLayers::Used);
}

#[test]
fn missing_layers_are_told_apart_from_layers_not_asked_for() {
    let offered = vec![String::from("VK_LAYER_LUNARG_standard_validation")];
    assert_eq!(choose_validation_layers(true, &Vec::new()), ValidationLayers::Missing);
    assert_eq!(choose_validation_layers(false, &Vec::new()), ValidationLayers::NotRequested);
    assert_eq!(choose_validation_layers(false, &offered), ValidationLayers::NotRequested);
}
