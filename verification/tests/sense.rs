use scpi::parser::response::ResponseData;
use scpi::scpi1999::sense::function::{
    Function, Presentation, SensorFunction, Suffix, VoltageFunction,
};

#[test]
fn test_sensor_function() {
    let volt = SensorFunction::new_from_str(b"VOLT").unwrap();
    assert_eq!(
        volt,
        SensorFunction {
            presentation: Presentation::XNone,
            function: Function::Voltage(VoltageFunction::Dc),
            suffix: None
        }
    );

    let volt_ac = SensorFunction::new_from_str(b"voltage:ac").unwrap();
    assert_eq!(
        volt_ac,
        SensorFunction {
            presentation: Presentation::XNone,
            function: Function::Voltage(VoltageFunction::Ac),
            suffix: None
        }
    );

    let xnone_volt_ac = SensorFunction::new_from_str(b"xtime:voltage:ac").unwrap();
    assert_eq!(
        xnone_volt_ac,
        SensorFunction {
            presentation: Presentation::Time,
            function: Function::Voltage(VoltageFunction::Ac),
            suffix: None
        }
    );

    let volt_ratio = SensorFunction::new_from_str(b"voltage:ratio").unwrap();
    assert_eq!(
        volt_ratio,
        SensorFunction {
            presentation: Presentation::XNone,
            function: Function::Voltage(VoltageFunction::Dc),
            suffix: Some(Suffix::Ratio)
        }
    );

    let volt_ac_ratio = SensorFunction::new_from_str(b"volt:ac:sum").unwrap();
    assert_eq!(
        volt_ac_ratio,
        SensorFunction {
            presentation: Presentation::XNone,
            function: Function::Voltage(VoltageFunction::Ac),
            suffix: Some(Suffix::Sum)
        }
    );

    let volt_ac_ratio = SensorFunction::new_from_str(b"volt:ac:potato");
    assert_eq!(volt_ac_ratio, None);
}

#[test]
fn func_response() {
    let volt_dc = SensorFunction {
        presentation: Presentation::XNone,
        function: Function::Voltage(VoltageFunction::Dc),
        suffix: None,
    };
    let mut buf: Vec<u8> = Vec::new();
    volt_dc.format_response_data(&mut buf).unwrap();
    assert_eq!(buf.as_slice(), b"\"VOLT:DC\"");

    let volt_ac_ratio = SensorFunction {
        presentation: Presentation::Time,
        function: Function::Voltage(VoltageFunction::Ac),
        suffix: Some(Suffix::Ratio),
    };
    let mut buf: Vec<u8> = Vec::new();
    volt_ac_ratio.format_response_data(&mut buf).unwrap();
    assert_eq!(buf.as_slice(), b"\"XTIM:VOLT:AC:RAT\"");
}
