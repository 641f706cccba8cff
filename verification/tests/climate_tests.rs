use interra_client::climate::{plan_ac_update, target_temp_in_range, AcCommand, AC_ROOM_ID};
use interra_client::models::{ACData, FanSpeed};

fn ac(
    room_temp: Option<&str>,
    set_temp: Option<u8>,
    fan_speed: Option<FanSpeed>,
    active: Option<bool>,
) -> ACData {
    ACData { room_temp: room_temp.map(|s| s.to_string()), set_temp, fan_speed, active }
}

#[test]
fn ramp_up_two_degrees() {
    let baseline = ac(Some("23.40"), Some(22), Some(FanSpeed::Slow), Some(true));
    let target = ac(None, Some(24), None, None);
    let (cmds, result) = plan_ac_update(&target, &baseline);
    assert_eq!(cmds, vec![AcCommand::StepUp, AcCommand::StepUp]);
    assert_eq!(result.set_temp, Some(24));
    assert_eq!(result.room_temp.as_deref(), Some("23.40"));
    assert_eq!(result.fan_speed, Some(FanSpeed::Slow));
    assert_eq!(result.active, Some(true));
}

#[test]
fn ramp_down_three_degrees() {
    let baseline = ac(None, Some(25), None, None);
    let target = ac(None, Some(22), None, None);
    let (cmds, result) = plan_ac_update(&target, &baseline);
    assert_eq!(cmds, vec![AcCommand::StepDown, AcCommand::StepDown, AcCommand::StepDown]);
    assert_eq!(result.set_temp, Some(22));
}

#[test]
fn zero_delta_emits_nothing() {
    let baseline = ac(None, Some(22), None, None);
    let target = ac(None, Some(22), None, None);
    let (cmds, result) = plan_ac_update(&target, &baseline);
    assert_eq!(cmds, vec![]);
    assert_eq!(result.set_temp, Some(22));
}

#[test]
fn unknown_baseline_temperature_emits_no_steps() {
    let baseline = ac(None, None, None, None);
    let target = ac(None, Some(24), None, None);
    let (cmds, result) = plan_ac_update(&target, &baseline);
    assert_eq!(cmds, vec![]);
    assert_eq!(result.set_temp, None);
}

#[test]
fn full_plan_orders_steps_then_fan_then_active() {
    let baseline = ac(None, Some(23), Some(FanSpeed::Auto), Some(false));
    let target = ac(None, Some(24), Some(FanSpeed::Fast), Some(true));
    let (cmds, result) = plan_ac_update(&target, &baseline);
    assert_eq!(
        cmds,
        vec![
            AcCommand::StepUp,
            AcCommand::SetFan(FanSpeed::Fast),
            AcCommand::SetActive(true),
        ]
    );
    assert_eq!(result.set_temp, Some(24));
    assert_eq!(result.fan_speed, Some(FanSpeed::Fast));
    assert_eq!(result.active, Some(true));
}

#[test]
fn command_payloads() {
    assert_eq!(AcCommand::StepUp.payload(), "{'actionType':13,'id':'64','url':null,'value':'0'}");
    assert_eq!(
        AcCommand::StepDown.payload(),
        "{'actionType':13,'id':'63','url':null,'value':'0'}"
    );
    assert_eq!(
        AcCommand::SetFan(FanSpeed::Auto).payload(),
        "{'actionType':13,'id':'66','url':null,'value':'0'}"
    );
    assert_eq!(
        AcCommand::SetFan(FanSpeed::Slow).payload(),
        "{'actionType':13,'id':'67','url':null,'value':'0'}"
    );
    assert_eq!(
        AcCommand::SetFan(FanSpeed::Medium).payload(),
        "{'actionType':13,'id':'68','url':null,'value':'0'}"
    );
    assert_eq!(
        AcCommand::SetFan(FanSpeed::Fast).payload(),
        "{'actionType':13,'id':'69','url':null,'value':'0'}"
    );
    assert_eq!(
        AcCommand::SetActive(true).payload(),
        "{'actionType':13,'id':'57','url':null,'value':'0'}"
    );
    assert_eq!(
        AcCommand::SetActive(false).payload(),
        "{'actionType':13,'id':'58','url':null,'value':'0'}"
    );
}

#[test]
fn actuation_room_is_fixed() {
    assert_eq!(AC_ROOM_ID, 12);
}

#[test]
fn target_temperature_bounds() {
    assert!(target_temp_in_range(None));
    assert!(target_temp_in_range(Some(20)));
    assert!(target_temp_in_range(Some(25)));
    assert!(!target_temp_in_range(Some(19)));
    assert!(!target_temp_in_range(Some(26)));
}
