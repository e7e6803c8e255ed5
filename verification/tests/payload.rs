use izone::json::Json;
use izone::models::DaysEnabled;
use izone::payload::{
    days_json, json_flag, json_member, json_pair, json_single, zone_setting_json,
    zone_settings_json, Command, Dialect, QueryRequest, ZoneSetting,
};

fn render(value: &Json) -> String {
    match value {
        Json::Null => "null".to_string(),
        Json::Bool(flag) => flag.to_string(),
        Json::Int(number) => number.to_string(),
        Json::Real(written) => written.clone(),
        Json::Str(text) => format!("{:?}", text),
        Json::Array(items) => {
            let inner: Vec<String> = items.iter().map(render).collect();
            format!("[{}]", inner.join(","))
        }
        Json::Object(members) => {
            let inner: Vec<String> = members
                .iter()
                .map(|member| format!("{:?}:{}", member.key, render(&member.value)))
                .collect();
            format!("{{{}}}", inner.join(","))
        }
    }
}

fn wire(command: Command) -> String {
    render(&command.to_json())
}

#[test]
fn json_builders() {
    assert_eq!(render(&json_flag(true)), "1");
    assert_eq!(render(&json_flag(false)), "0");
    assert_eq!(render(&json_single("A", Json::Int(5))), "{\"A\":5}");
    assert_eq!(
        render(&json_pair("A", Json::Int(5), "B", Json::Str("x".to_string()))),
        "{\"A\":5,\"B\":\"x\"}"
    );
    let member = json_member("Key", Json::Null);
    assert_eq!(member.key, "Key");
    assert!(matches!(member.value, Json::Null));
}

#[test]
fn power_commands() {
    assert_eq!(wire(Command::SysOn(true)), "{\"SysOn\":1}");
    assert_eq!(wire(Command::SysOn(false)), "{\"SysOn\":0}");
}

#[test]
fn system_commands() {
    assert_eq!(wire(Command::SysMode(5)), "{\"SysMode\":5}");
    assert_eq!(wire(Command::SysFan(2)), "{\"SysFan\":2}");
    assert_eq!(wire(Command::SysSetpoint(2250)), "{\"SysSetpoint\":2250}");
    assert_eq!(wire(Command::SysSleepTimer(90)), "{\"SysSleepTimer\":90}");
    assert_eq!(wire(Command::SysSleepTimer(u32::MAX)), "{\"SysSleepTimer\":4294967295}");
    assert_eq!(wire(Command::EconomyLock(true)), "{\"EconomyLock\":1}");
    assert_eq!(wire(Command::EconomyMin(1800)), "{\"EconomyMin\":1800}");
    assert_eq!(wire(Command::EconomyMax(2600)), "{\"EconomyMax\":2600}");
    assert_eq!(wire(Command::FilterWarn(6)), "{\"FilterWarn\":6}");
    assert_eq!(wire(Command::DamperTime(0)), "{\"DamperTime\":0}");
    assert_eq!(wire(Command::AutoModeDeadB(150)), "{\"AutoModeDeadB\":150}");
    assert_eq!(wire(Command::AirflowLock(false)), "{\"AirflowLock\":0}");
    assert_eq!(wire(Command::AirflowMinLock(true)), "{\"AirflowMinLock\":1}");
    assert_eq!(wire(Command::StaticP(4)), "{\"StaticP\":4}");
    assert_eq!(wire(Command::OpenDampersWhenOff(true)), "{\"OpenDampersWhenOff\":1}");
    assert_eq!(wire(Command::ScroogeMode(true)), "{\"ScroogeMode\":1}");
    assert_eq!(wire(Command::ReverseDampers(false)), "{\"ReverseDampers\":0}");
    assert_eq!(wire(Command::CnstCtrlAreaEn(true)), "{\"CnstCtrlAreaEn\":1}");
    assert_eq!(wire(Command::CnstCtrlArea(120)), "{\"CnstCtrlArea\":120}");
    assert_eq!(
        wire(Command::ResetWarning("filter".to_string())),
        "{\"ResetWarning\":\"filter\"}"
    );
}

#[test]
fn cooler_commands() {
    assert_eq!(wire(Command::CoolbreezeFanSpeed(80)), "{\"CoolbreezeFanSpeed\":80}");
    assert_eq!(wire(Command::CoolbreezeRhSetpoint(45)), "{\"CoolbreezeRhSetpoint\":45}");
    assert_eq!(wire(Command::CoolbreezePrewEn(true)), "{\"CoolbreezePrewEn\":1}");
    assert_eq!(wire(Command::CoolbreezePrewTime(10)), "{\"CoolbreezePrewTime\":10}");
    assert_eq!(wire(Command::CoolbreezeDrAfPrewEn(false)), "{\"CoolbreezeDrAfPrewEn\":0}");
    assert_eq!(wire(Command::CoolbreezeDrCycEn(true)), "{\"CoolbreezeDrCycEn\":1}");
    assert_eq!(wire(Command::CoolbreezeDrCycPer(600)), "{\"CoolbreezeDrCycPer\":600}");
    assert_eq!(wire(Command::CoolbreezePostwEn(true)), "{\"CoolbreezePostwEn\":1}");
    assert_eq!(wire(Command::CoolbreezePostwT(15)), "{\"CoolbreezePostwT\":15}");
    assert_eq!(wire(Command::CoolbreezeDrBfPostwEn(true)), "{\"CoolbreezeDrBfPostwEn\":1}");
    assert_eq!(wire(Command::CoolbreezeInverter(true)), "{\"CoolbreezeInverter\":1}");
    assert_eq!(wire(Command::CoolbreezeResumeLast(false)), "{\"CoolbreezeResumeLast\":0}");
    assert_eq!(wire(Command::CoolbreezeFanMaxAuto(90)), "{\"CoolbreezeFanMaxAuto\":90}");
    assert_eq!(wire(Command::CoolbreezeFanMax(100)), "{\"CoolbreezeFanMax\":100}");
    assert_eq!(wire(Command::CoolbreezeExhMax(50)), "{\"CoolbreezeExhMax\":50}");
    assert_eq!(wire(Command::CoolbreezeExhEn(true)), "{\"CoolbreezeExhEn\":1}");
    assert_eq!(wire(Command::CoolbreezeCtrlSens(1)), "{\"CoolbreezeCtrlSens\":1}");
    assert_eq!(wire(Command::CoolbreezeCalibTemp(-25)), "{\"CoolbreezeCalibTemp\":-25}");
    assert_eq!(wire(Command::CoolbreezeDeadTemp(250)), "{\"CoolbreezeDeadTemp\":250}");
    assert_eq!(
        wire(Command::CoolbreezeAutoFanMaxTime(30)),
        "{\"CoolbreezeAutoFanMaxTime\":30}"
    );
}

#[test]
fn ventilation_commands() {
    assert_eq!(wire(Command::VentilationRhSetpoint(60)), "{\"VentilationRfSetpoint\":60}");
    assert_eq!(wire(Command::VentilationVocsSetpoint(500)), "{\"VentilationVocsSetpoint\":500}");
    assert_eq!(wire(Command::VentilationEco2Setpoint(900)), "{\"VentilationEco2Setpoint\":900}");
    assert_eq!(wire(Command::VentilationFanStageDelay(30)), "{\"VentilationFanStageDelay\":30}");
    assert_eq!(wire(Command::VentilationCycleFanOff(true)), "{\"VentilationCycleFanOff\":1}");
    assert_eq!(wire(Command::VentilationUseRhControl(true)), "{\"VentilationUseRhControl\":1}");
    assert_eq!(
        wire(Command::VentilationUseVocsControl(false)),
        "{\"VentilationUseVcosControl\":0}"
    );
    assert_eq!(
        wire(Command::VentilationUseEco2Control(true)),
        "{\"VentilationUseEco2Control\":1}"
    );
}

#[test]
fn zone_commands() {
    assert_eq!(
        wire(Command::ZoneMode { index: 2, mode: 3 }),
        "{\"ZoneMode\":{\"Index\":2,\"Mode\":3}}"
    );
    assert_eq!(
        wire(Command::ZoneSetpoint { index: 2, setpoint: 2100 }),
        "{\"ZoneSetpoint\":{\"Index\":2,\"Setpoint\":2100}}"
    );
    assert_eq!(
        wire(Command::ZoneMaxAir { index: 7, max_air: 90 }),
        "{\"ZoneAirflow\":{\"Index\":7,\"MaxAir\":90}}"
    );
    assert_eq!(
        wire(Command::ZoneMinAir { index: 0, min_air: 5 }),
        "{\"ZoneAirflow\":{\"Index\":0,\"MinAir\":5}}"
    );
    assert_eq!(
        wire(Command::ZoneName { index: 4, name: "Study".to_string() }),
        "{\"ZoneName\":{\"Index\":4,\"Name\":\"Study\"}}"
    );
}

#[test]
fn schedule_commands() {
    assert_eq!(
        wire(Command::SchedName { index: 1, name: "Weekend".to_string() }),
        "{\"SchedName\":{\"Index\":1,\"Name\":\"Weekend\"}}"
    );
    assert_eq!(
        wire(Command::SchedAcMode { index: 1, mode: 2 }),
        "{\"SchedAcMode\":{\"Index\":1,\"Mode\":2}}"
    );
    assert_eq!(
        wire(Command::SchedAcFan { index: 1, fan: 99 }),
        "{\"SchedAcFan\":{\"Index\":1,\"Fan\":99}}"
    );
    assert_eq!(
        wire(Command::SchedEnable { index: 7, enabled: true }),
        "{\"SchedEnable\":{\"Index\":7,\"Enabled\":1}}"
    );
    assert_eq!(
        wire(Command::SchedEnable { index: 0, enabled: false }),
        "{\"SchedEnable\":{\"Index\":0,\"Enabled\":0}}"
    );
}

#[test]
fn schedule_settings_command() {
    let days = DaysEnabled {
        monday: true,
        tuesday: false,
        wednesday: true,
        thursday: false,
        friday: true,
        saturday: false,
        sunday: false,
    };
    assert_eq!(
        wire(Command::SchedSettings {
            index: 3,
            start_h: 8,
            start_m: 30,
            stop_h: 17,
            stop_m: 0,
            days,
        }),
        "{\"SchedSettings\":{\"Index\":3,\"StartH\":8,\"StartM\":30,\"StopH\":17,\"StopM\":0,\"DaysEnabled\":{\"M\":1,\"Tu\":0,\"W\":1,\"Th\":0,\"F\":1,\"Sa\":0,\"Su\":0}}}"
    );
    assert_eq!(
        render(&days_json(&days)),
        "{\"M\":1,\"Tu\":0,\"W\":1,\"Th\":0,\"F\":1,\"Sa\":0,\"Su\":0}"
    );
}

#[test]
fn schedule_zones_command() {
    let zones = vec![
        ZoneSetting { index: 0, mode: 3, setpoint: 2250 },
        ZoneSetting { index: 4, mode: 1, setpoint: 1500 },
    ];
    assert_eq!(
        render(&zone_setting_json(&zones[0])),
        "{\"Index\":0,\"Mode\":3,\"Setpoint\":2250}"
    );
    assert_eq!(
        render(&zone_settings_json(&zones)),
        "[{\"Index\":0,\"Mode\":3,\"Setpoint\":2250},{\"Index\":4,\"Mode\":1,\"Setpoint\":1500}]"
    );
    assert_eq!(render(&zone_settings_json(&vec![])), "[]");
    assert_eq!(
        wire(Command::SchedZones { index: 5, zones }),
        "{\"SchedZones\":{\"Index\":5,\"Zones\":[{\"Index\":0,\"Mode\":3,\"Setpoint\":2250},{\"Index\":4,\"Mode\":1,\"Setpoint\":1500}]}}"
    );
}

#[test]
fn queries() {
    assert_eq!(
        render(&QueryRequest { kind: 1, index: 0, secondary: 0 }.to_json()),
        "{\"iZoneV2Request\":{\"Type\":1,\"No\":0,\"No1\":0}}"
    );
    assert_eq!(
        render(&QueryRequest { kind: 2, index: 5, secondary: 0 }.to_json()),
        "{\"iZoneV2Request\":{\"Type\":2,\"No\":5,\"No1\":0}}"
    );
    assert_eq!(
        render(&QueryRequest { kind: 3, index: 7, secondary: 9 }.to_json()),
        "{\"iZoneV2Request\":{\"Type\":3,\"No\":7,\"No1\":9}}"
    );
}

#[test]
fn current_dialect() {
    assert_eq!(Dialect::current(), Dialect { system_kind: 1, zone_kind: 2, schedule_kind: 3 });
}
