use relaxed_ik::file_utils::{default_settings_path, get_path_to_src, urdf_path};
use relaxed_ik::layout::LayoutError;
use relaxed_ik::settings::SettingsError;
use relaxed_ik::vars::{ConfigError, InputError};

#[test]
fn paths_are_put_together() {
    assert_eq!(get_path_to_src("/opt/solver"), "/opt/solver/");
    assert_eq!(get_path_to_src(""), "/");
    assert_eq!(default_settings_path("/opt/solver/"), "/opt/solver/configs/settings.yaml");
    assert_eq!(urdf_path("/opt/solver/", "ur5.urdf"), "/opt/solver/configs/urdfs/ur5.urdf");
    assert_eq!(urdf_path("", ""), "configs/urdfs/");
}

#[test]
fn settings_errors_say_what_is_wrong() {
    assert_eq!(
        SettingsError::Syntax("mapping values are not allowed".to_string()).message(),
        "the settings are not well-formed YAML: mapping values are not allowed"
    );
    assert_eq!(SettingsError::TooLong.message(), "the settings file is too long");
    assert_eq!(
        SettingsError::TooNested.message(),
        "the settings file has too many list and mapping marks"
    );
    assert_eq!(SettingsError::NoDocument.message(), "the settings file holds no document");
    assert_eq!(SettingsError::BadUrdf.message(), "`urdf` must name the robot description");
    assert_eq!(
        SettingsError::BadBaseLinks.message(),
        "`base_links` must be a list of link names"
    );
    assert_eq!(SettingsError::BadEeLinks.message(), "`ee_links` must be a list of link names");
    assert_eq!(
        SettingsError::ChainCountMismatch.message(),
        "`base_links` and `ee_links` must name one link each per chain"
    );
    assert_eq!(
        SettingsError::BadStartingConfig.message(),
        "`starting_config` must be a list of real numbers"
    );
    assert_eq!(SettingsError::BadEeOnly.message(), "`ee_only` must be true or false");
}

#[test]
fn other_errors_say_what_is_wrong() {
    assert_eq!(
        ConfigError::ChainCountMismatch.message(),
        "there must be as many end-effector links as base links"
    );
    assert_eq!(
        ConfigError::PoseCountMismatch.message(),
        "there must be one end-effector pose per chain"
    );
    assert_eq!(
        ConfigError::StartingConfigLength.message(),
        "the starting configuration must have one entry per degree of freedom"
    );
    assert_eq!(ConfigError::GoalPoseCount.message(), "there must be one pose per goal");
    assert_eq!(InputError::PositionLength.message(), "positions must be three numbers per goal");
    assert_eq!(
        InputError::RotationLength.message(),
        "rotations must be four numbers per goal, rotation rates three"
    );
    assert_eq!(InputError::ToleranceLength.message(), "tolerances must be six numbers per goal");
    assert_eq!(
        InputError::GoalCount.message(),
        "there must be as many goals as the solver holds"
    );
    assert_eq!(
        LayoutError::ChainCountMismatch.message(),
        "joint indices and joint kinds must be given for the same chains"
    );
    assert_eq!(
        LayoutError::JointCountMismatch.message(),
        "a chain must list one index for each of its actuated joints"
    );
    assert_eq!(
        LayoutError::IndexOutOfRange.message(),
        "a chain names a degree of freedom that the robot does not have"
    );
    assert_eq!(
        LayoutError::UnknownJoint.message(),
        "a chain holds a joint that the joint ordering does not name"
    );
}
